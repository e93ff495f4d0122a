//! The session stopwatch: cumulative running time across start/stop
//! cycles, with an optional time limit.
//!
//! Time is measured in whole milliseconds.  Every operation exists in two
//! forms: one that takes the clock reading as an argument and is specified
//! exactly for every value of it, and one under the plain name that reads
//! the wall clock itself and states what holds of every reading.

use vstd::prelude::*;

verus! {

/// A stopwatch that accumulates elapsed milliseconds across start/stop
/// cycles.  At most one run interval is active at a time.
#[derive(Clone, Copy, PartialEq, Eq, Structural, Debug)]
pub struct Timer {
    /// Milliseconds accumulated from already-closed run intervals.
    pub saved: u64,
    /// The clock reading at which the active run interval began, or
    /// `None` when the stopwatch is not running.
    pub start: Option<u64>,
    /// The optional time limit, in milliseconds.
    pub duration: Option<u64>,
}

/// The length of the run interval from `start` to `now`; a clock reading
/// below the recorded start counts as zero rather than wrapping.
pub open spec fn run_delta(start: u64, now: u64) -> int {
    if now >= start {
        now - start
    } else {
        0
    }
}

/// Clamps a non-negative mathematical integer into `u64`.
pub open spec fn cap_u64(v: int) -> u64 {
    if v > u64::MAX {
        u64::MAX
    } else if v < 0 {
        0
    } else {
        v as u64
    }
}

/// The total elapsed time at clock reading `now`: the accumulated
/// duration plus, while running, the active interval so far.
pub open spec fn spec_elapsed(t: Timer, now: u64) -> u64 {
    match t.start {
        Some(s) => cap_u64(t.saved + run_delta(s, now)),
        None => t.saved,
    }
}

/// Starting at `now`: records the instant if not already running;
/// starting while running keeps the active interval, so a second start
/// can never double-count time.
pub open spec fn spec_start(t: Timer, now: u64) -> Timer {
    match t.start {
        Some(_) => t,
        None => Timer { start: Some(now), ..t },
    }
}

/// Stopping at `now`: folds the active interval into the accumulated
/// duration and clears it.  Stopping an already-stopped timer changes
/// nothing.
pub open spec fn spec_stop(t: Timer, now: u64) -> Timer {
    Timer { saved: spec_elapsed(t, now), start: None, duration: t.duration }
}

/// Resetting: zeroes the accumulated duration and clears any active
/// interval, whatever the running state.
pub open spec fn spec_reset(t: Timer) -> Timer {
    Timer { saved: 0, start: None, duration: t.duration }
}

/// Whether a configured limit has been reached at clock reading `now`;
/// always false when no limit was configured.
pub open spec fn spec_expired(t: Timer, now: u64) -> bool {
    match t.duration {
        Some(d) => spec_elapsed(t, now) >= d,
        None => false,
    }
}

impl Timer {
    /// Create a stopped timer with zero accumulated time and the given
    /// optional limit in milliseconds.
    pub fn new(duration: Option<u64>) -> (r: Timer)
        ensures
            r == (Timer { saved: 0, start: None, duration }),
    {
        Timer { saved: 0, start: None, duration }
    }

    /// Start the timer with an injected clock reading.
    pub fn start_at(&mut self, now: u64)
        ensures
            *final(self) == spec_start(*old(self), now),
    {
        if self.start.is_none() {
            self.start = Some(now);
        }
    }

    /// Start the timer from the wall clock.
    pub fn start(&mut self)
        ensures
            exists|now: u64| *final(self) == spec_start(*old(self), now),
    {
        let now = crate::calls::now_millis();
        self.start_at(now);
        proof {
            assert(*self == spec_start(*old(self), now));
        }
    }

    /// Stop the timer with an injected clock reading.  The timer can be
    /// restarted afterwards with [`Timer::start`].
    pub fn stop_at(&mut self, now: u64)
        ensures
            *final(self) == spec_stop(*old(self), now),
    {
        self.saved = self.get_time_at(now);
        self.start = None;
    }

    /// Stop the timer from the wall clock.
    pub fn stop(&mut self)
        ensures
            exists|now: u64| *final(self) == spec_stop(*old(self), now),
            old(self).start.is_none() ==> *final(self) == *old(self),
    {
        let now = crate::calls::now_millis();
        self.stop_at(now);
        proof {
            assert(*self == spec_stop(*old(self), now));
        }
    }

    /// Reset the timer: accumulated time returns to zero and any active
    /// interval is discarded.
    pub fn reset(&mut self)
        ensures
            *final(self) == spec_reset(*old(self)),
    {
        self.start = None;
        self.saved = 0;
    }

    /// The total elapsed time at an injected clock reading.
    pub fn get_time_at(&self, now: u64) -> (r: u64)
        ensures
            r == spec_elapsed(*self, now),
    {
        match self.start {
            Some(s) => {
                let d = if now >= s {
                    now - s
                } else {
                    0
                };
                if self.saved <= u64::MAX - d {
                    self.saved + d
                } else {
                    u64::MAX
                }
            },
            None => self.saved,
        }
    }

    /// The total elapsed time, read from the wall clock.  When the timer
    /// is stopped the result is exactly the accumulated duration.
    pub fn get_time(&self) -> (r: u64)
        ensures
            exists|now: u64| r == spec_elapsed(*self, now),
            self.start.is_none() ==> r == self.saved,
    {
        let now = crate::calls::now_millis();
        let r = self.get_time_at(now);
        proof {
            assert(r == spec_elapsed(*self, now));
        }
        r
    }

    /// Whether the configured limit has been reached at an injected
    /// clock reading; always false without a limit.
    pub fn timer_expired_at(&self, now: u64) -> (r: bool)
        ensures
            r == spec_expired(*self, now),
    {
        match self.duration {
            Some(d) => self.get_time_at(now) >= d,
            None => false,
        }
    }

    /// Whether the configured limit has been reached, read from the wall
    /// clock.  When the timer is stopped the answer is exact.
    pub fn timer_expired(&self) -> (r: bool)
        ensures
            exists|now: u64| r == spec_expired(*self, now),
            self.start.is_none() ==> r == spec_expired(*self, 0),
    {
        let now = crate::calls::now_millis();
        let r = self.timer_expired_at(now);
        proof {
            assert(r == spec_expired(*self, now));
        }
        r
    }
}

/// The decimal digit character for `d`.
pub open spec fn digit_char(d: int) -> char {
    if d == 0 {
        '0'
    } else if d == 1 {
        '1'
    } else if d == 2 {
        '2'
    } else if d == 3 {
        '3'
    } else if d == 4 {
        '4'
    } else if d == 5 {
        '5'
    } else if d == 6 {
        '6'
    } else if d == 7 {
        '7'
    } else if d == 8 {
        '8'
    } else {
        '9'
    }
}

/// The decimal digits of `n`, most significant first.
pub open spec fn spec_digits(n: int) -> Seq<char>
    decreases n,
{
    if n < 10 {
        seq![digit_char(n)]
    } else {
        spec_digits(n / 10).push(digit_char(n % 10))
    }
}

/// The decimal digits of `n`, padded with a leading zero to at least
/// two places, as on a digital clock face.
pub open spec fn spec_pad2(n: int) -> Seq<char> {
    if n < 10 {
        seq!['0'] + spec_digits(n)
    } else {
        spec_digits(n)
    }
}

/// The clock-face label for an elapsed time in milliseconds: whole
/// minutes and leftover seconds, each at least two digits, separated by
/// a colon.
pub open spec fn spec_time_label(ms: u64) -> Seq<char> {
    spec_pad2(ms as int / 1000 / 60) + seq![':'] + spec_pad2(ms as int / 1000 % 60)
}

/// The digit character for a value below ten.
fn digit_char_of(d: u64) -> (c: char)
    requires
        d < 10,
    ensures
        c == digit_char(d as int),
{
    match d {
        0 => '0',
        1 => '1',
        2 => '2',
        3 => '3',
        4 => '4',
        5 => '5',
        6 => '6',
        7 => '7',
        8 => '8',
        _ => '9',
    }
}

/// Append the decimal digits of `n` to `s`.
fn push_digits(s: &mut String, n: u64)
    ensures
        final(s)@ == old(s)@ + spec_digits(n as int),
    decreases n,
{
    if n < 10 {
        s.push(digit_char_of(n));
        proof {
            assert(s@ =~= old(s)@ + spec_digits(n as int));
        }
    } else {
        push_digits(s, n / 10);
        s.push(digit_char_of(n % 10));
        proof {
            assert(s@ =~= old(s)@ + spec_digits(n as int));
        }
    }
}

/// Append the decimal digits of `n` to `s`, padded with a leading zero
/// to at least two places.
fn push_pad2(s: &mut String, n: u64)
    ensures
        final(s)@ == old(s)@ + spec_pad2(n as int),
{
    if n < 10 {
        s.push('0');
    }
    push_digits(s, n);
    proof {
        assert(s@ =~= old(s)@ + spec_pad2(n as int));
    }
}

impl Timer {
    /// The elapsed time at an injected clock reading as a clock-face
    /// label, minutes and seconds.
    pub fn get_time_label_at(&self, now: u64) -> (r: String)
        ensures
            r@ == spec_time_label(spec_elapsed(*self, now)),
    {
        let ms = self.get_time_at(now);
        let total = ms / 1000;
        let mut r = String::new();
        push_pad2(&mut r, total / 60);
        r.push(':');
        push_pad2(&mut r, total % 60);
        proof {
            assert(r@ =~= spec_time_label(ms));
        }
        r
    }

    /// The elapsed time as a clock-face label, read from the wall
    /// clock.  When the timer is stopped the label is exact.
    pub fn get_time_label(&self) -> (r: String)
        ensures
            exists|now: u64| r@ == spec_time_label(spec_elapsed(*self, now)),
            self.start.is_none() ==> r@ == spec_time_label(self.saved),
    {
        let now = crate::calls::now_millis();
        let r = self.get_time_label_at(now);
        proof {
            assert(r@ == spec_time_label(spec_elapsed(*self, now)));
        }
        r
    }
}

/// Law: stopping twice in a row yields the same timer, and so the same
/// elapsed time, as stopping once, whatever the two clock readings.
pub proof fn lemma_stop_idempotent(t: Timer, n1: u64, n2: u64)
    ensures
        spec_stop(spec_stop(t, n1), n2) == spec_stop(t, n1),
{
}

/// Law: starting twice in a row without an intervening stop keeps the
/// interval of the first start, so the second start cannot inflate the
/// elapsed time.
pub proof fn lemma_start_idempotent(t: Timer, n1: u64, n2: u64)
    ensures
        spec_start(spec_start(t, n1), n2) == spec_start(t, n1),
{
}

/// Law: after a reset the elapsed time is zero, whatever had accumulated
/// before and whatever the clock reads.
pub proof fn lemma_reset_elapsed_zero(t: Timer, now: u64)
    ensures
        spec_elapsed(spec_reset(t), now) == 0,
{
}

} // verus!
