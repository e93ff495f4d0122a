//! The two classic exercise kinds and how each cuts its source text.

use vstd::prelude::*;
use crate::split::{all_nonempty, split_spec, split_str};

verus! {

/// The kind of exercise: quick-typing single words, or copying a text
/// line by line.
#[derive(Clone, Copy, PartialEq, Eq, Structural, Debug)]
pub enum ExerciseType {
    Quicktype,
    Copy,
}

impl ExerciseType {
    /// Cut the content of a source file into prompts for this kind of
    /// exercise: single words for quick-typing, whole lines for
    /// copying.  Empty pieces are dropped.
    pub fn split_content(&self, content: String) -> (r: Vec<String>)
        ensures
            *self == ExerciseType::Quicktype ==> r.deep_view() == split_spec(content@, true),
            *self == ExerciseType::Copy ==> r.deep_view() == split_spec(content@, false),
            all_nonempty(r.deep_view()),
    {
        match self {
            ExerciseType::Quicktype => split_str(content.as_str(), true),
            ExerciseType::Copy => split_str(content.as_str(), false),
        }
    }
}

} // verus!
