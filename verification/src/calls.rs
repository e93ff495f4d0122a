//! The engine's only contacts with the world outside verified code: the
//! wall clock, the session timestamp, and the random number generator.
//!
//! Every caller states what holds of every possible outcome of these
//! calls, so the logic around them is verified for any value they return.

use vstd::prelude::*;

verus! {

/// Relies on std::time::SystemTime::now: a wall-clock reading, given here
/// as whole milliseconds since the Unix epoch, or zero when the clock
/// reads earlier than the epoch.  Nothing can be promised of a clock
/// reading, so the contract is empty.
#[verifier::external_body]
pub(crate) fn now_millis() -> u64 {
    match std::time::SystemTime::now().duration_since(std::time::UNIX_EPOCH) {
        Ok(d) => d.as_millis() as u64,
        Err(_) => 0,
    }
}

/// Relies on chrono::DateTime::from_timestamp and
/// chrono::DateTime::to_rfc2822: the current wall-clock time, rendered in
/// the RFC 2822 format.  The call cannot panic: the clock reading is
/// clamped into the years the format represents (to_rfc2822 panics
/// outside 0 to 9999), a reading before the epoch counts as the epoch,
/// and a fixed epoch string stands in should the conversion refuse.  The
/// timestamp is taken in UTC: the crate's local-offset lookup may panic,
/// which no clause of a wrapper could rule out.  Nothing can be promised
/// of a clock reading, so the contract is empty.
#[verifier::external_body]
pub(crate) fn now_rfc2822() -> String {
    let secs = match std::time::SystemTime::now().duration_since(std::time::UNIX_EPOCH) {
        Ok(d) => d.as_secs().min(253_402_300_799),
        Err(_) => 0,
    };
    match chrono::DateTime::from_timestamp(secs as i64, 0) {
        Some(utc) => utc.to_rfc2822(),
        None => String::from("Thu, 1 Jan 1970 00:00:00 +0000"),
    }
}

/// Relies on rand::Rng::gen_range over rand::thread_rng: a sample from
/// the uniform distribution on `0..len`.  The call panics only on an
/// empty range, which the precondition rules out, and otherwise returns
/// a value inside the range.
#[verifier::external_body]
pub(crate) fn pick_index(len: usize) -> (r: usize)
    requires
        len > 0,
    ensures
        r < len,
{
    rand::Rng::gen_range(&mut rand::thread_rng(), 0..len)
}

/// Relies on String::push, whose documentation says it appends the given
/// character to the end of the string.
pub assume_specification[ String::push ](s: &mut String, c: char)
    ensures
        final(s)@ == old(s)@.push(c),
;

} // verus!
