//! The lifecycle state of a practice session.

use vstd::prelude::*;

verus! {

/// The five lifecycle states of a session.
///
/// A session starts in `Waiting`, moves to `Running` on the first
/// keystroke, and from there can pause, finish, restart or quit.
/// `Quitting` is terminal.
#[derive(Clone, Copy, PartialEq, Eq, Structural, Debug)]
pub enum State {
    Waiting,
    Running,
    Pausing,
    Finished,
    Quitting,
}

impl State {
    /// The help label for the key that leads to this state.
    pub fn button(&self) -> (r: &'static str)
        ensures
            *self == State::Waiting ==> r@ == "Restart: 'Ctrl+R'"@,
            *self == State::Running ==> r@ == "Start:   Type"@,
            *self == State::Pausing ==> r@ == "Pause:   'Ctrl+P'"@,
            *self == State::Finished ==> r@ == "Stop:    'Ctrl+C'"@,
            *self == State::Quitting ==> r@ == "Quit:    'Ctrl+C'"@,
    {
        match self {
            State::Waiting => "Restart: 'Ctrl+R'",
            State::Running => "Start:   Type",
            State::Pausing => "Pause:   'Ctrl+P'",
            State::Finished => "Stop:    'Ctrl+C'",
            State::Quitting => "Quit:    'Ctrl+C'",
        }
    }
}

} // verus!
