//! The configuration of a session, fixed before the exercise starts and
//! never changed while it runs.

use vstd::prelude::*;
use crate::split::{all_nonempty, split_spec, Split};

verus! {

/// The session settings.  Every field is a plain value chosen at
/// construction time.
#[derive(Clone, Copy, PartialEq, Eq, Debug)]
pub struct Settings {
    /// Highlight the correct letters and the mistakes while typing.
    pub highlight: bool,
    /// Hide the text while the user is typing.
    pub blind: bool,
    /// Allow the use of the backspace key.
    pub backspace: bool,
    /// Automatically advance to the next prompt once as many characters
    /// were typed as the prompt holds.
    pub auto: bool,
    /// Only advance when the prompt was typed completely correctly.
    pub correct: bool,
    /// Repeat the prompt when a mistake was made while typing it.
    pub repeat: bool,
    /// Finish the session once this many faults were made.
    pub terminate: Option<usize>,
    /// The manner in which source text is cut into prompts.
    pub split: Split,
}

impl Settings {
    /// Create the settings from the individual choices.  The splitting
    /// mode starts out as line splitting; the field is public and can
    /// be set before the text is cut.
    pub fn build(
        backspace: bool,
        highlight: bool,
        blind: bool,
        auto: bool,
        correct: bool,
        repeat: bool,
        terminate: Option<usize>,
    ) -> (r: Settings)
        ensures
            r == (Settings {
                highlight,
                blind,
                backspace,
                auto,
                correct,
                repeat,
                terminate,
                split: Split::Lines,
            }),
    {
        Settings { highlight, blind, backspace, auto, correct, repeat, terminate, split: Split::Lines }
    }

    /// Cut the given source text into prompts under the configured
    /// splitting mode.  An empty result is rejected later, when the
    /// prompt sequencer is built from it.
    pub fn split_content_into_prompts(&self, content: String) -> (r: Vec<String>)
        ensures
            self.split == Split::Words ==> r.deep_view() == split_spec(content@, true),
            self.split == Split::Lines ==> r.deep_view() == split_spec(content@, false),
            self.split == Split::Text ==> r.deep_view() == seq![content@],
            self.split != Split::Text ==> all_nonempty(r.deep_view()),
    {
        self.split.into_prompts(content)
    }
}

} // verus!
