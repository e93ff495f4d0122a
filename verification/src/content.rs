//! The prompt sequencer: the immutable ordered prompt list and the
//! cursor that selects the prompt being typed.
//!
//! In sequential mode the cursor walks the list in order and reaches an
//! exhausted sentinel one past the end.  In random mode every advance
//! draws a fresh uniformly random index from the full list, repeats
//! allowed by design, so the sequencer never exhausts on its own.

use vstd::prelude::*;
use crate::split::{all_nonempty, split_spec, split_str};

verus! {

/// The one construction failure: a session cannot be built from an
/// empty prompt list.
#[derive(Clone, Copy, PartialEq, Eq, Structural, Debug)]
pub enum BuildError {
    EmptyPrompts,
}

/// The abstract value of a [`Content`]: the prompt list as character
/// sequences, the cursor, and the construction-time flags.
#[verifier::ext_equal]
pub ghost struct ContentModel {
    pub file_path: Seq<char>,
    pub words: bool,
    pub random: bool,
    pub prompts: Seq<Seq<char>>,
    pub index: int,
}

impl ContentModel {
    /// A well-formed sequencer holds a non-empty prompt list and a
    /// cursor that is a valid index or, in sequential mode only, the
    /// exhausted sentinel one past the end.
    pub open spec fn wf(self) -> bool {
        &&& self.prompts.len() > 0
        &&& 0 <= self.index <= self.prompts.len()
        &&& (self.random ==> self.index < self.prompts.len())
    }
}

/// One sequential advance: the cursor moves to the next prompt, or
/// stays at the exhausted sentinel once past the end.
pub open spec fn spec_advance(m: ContentModel) -> ContentModel {
    if m.index < m.prompts.len() {
        ContentModel { index: m.index + 1, ..m }
    } else {
        m
    }
}

/// `k` sequential advances in a row.
pub open spec fn advance_times(m: ContentModel, k: nat) -> ContentModel
    decreases k,
{
    if k == 0 {
        m
    } else {
        spec_advance(advance_times(m, (k - 1) as nat))
    }
}

/// Law: on a fresh sequential sequencer over `N` prompts, the cursor
/// after `k` advances is exactly `k`.  So each of the first `N - 1`
/// advances still selects a prompt, and the `N`-th advance reaches the
/// exhausted sentinel, where no prompt is selected any more.
pub proof fn lemma_sequential_exhaustion(m: ContentModel, k: nat)
    requires
        m.wf(),
        !m.random,
        m.index == 0,
        k <= m.prompts.len(),
    ensures
        advance_times(m, k).index == k,
        advance_times(m, k).prompts == m.prompts,
        advance_times(m, k).random == m.random,
        advance_times(m, k).wf(),
    decreases k,
{
    if k > 0 {
        lemma_sequential_exhaustion(m, (k - 1) as nat);
    }
}

/// The characters of a string slice, one element per code point.
pub fn chars_of(s: &str) -> (r: Vec<char>)
    ensures
        r@ == s@,
{
    let n = s.unicode_len();
    let mut r: Vec<char> = Vec::new();
    let mut i: usize = 0;
    while i < n
        invariant
            i <= n,
            n == s@.len(),
            r@ =~= s@.subrange(0, i as int),
        decreases n - i,
    {
        r.push(s.get_char(i));
        i = i + 1;
    }
    proof {
        assert(r@ =~= s@);
    }
    r
}

/// The collection of prompts cut from the source file, with the cursor
/// that selects the one being typed.
pub struct Content {
    /// The path of the source file the prompts were read from, kept for
    /// reporting only.
    pub file_path: String,
    /// Whether the text was cut into words rather than lines.
    pub words: bool,
    /// Whether prompts are drawn at random instead of in source order.
    pub random: bool,
    content: Vec<String>,
    prompt_index: usize,
}

impl View for Content {
    type V = ContentModel;

    closed spec fn view(&self) -> ContentModel {
        ContentModel {
            file_path: self.file_path@,
            words: self.words,
            random: self.random,
            prompts: self.content.deep_view(),
            index: self.prompt_index as int,
        }
    }
}

impl Content {
    /// Create the sequencer over the given prompt list.  An empty list
    /// is the one construction failure; with prompts present the cursor
    /// starts at the first prompt in sequential mode and at a uniformly
    /// random prompt in random mode.
    pub fn build(file_path: String, content: Vec<String>, random: bool, words: bool) -> (r: Result<
        Content,
        BuildError,
    >)
        ensures
            r is Err <==> content@.len() == 0,
            r is Err ==> r == Err::<Content, BuildError>(BuildError::EmptyPrompts),
            r is Ok ==> {
                let c = (r->Ok_0)@;
                &&& c.wf()
                &&& c.file_path == file_path@
                &&& c.words == words
                &&& c.random == random
                &&& c.prompts == content.deep_view()
                &&& c.index < c.prompts.len()
                &&& (!random ==> c.index == 0)
            },
    {
        if content.len() == 0 {
            return Err(BuildError::EmptyPrompts);
        }
        let prompt_index: usize = if random {
            crate::calls::pick_index(content.len())
        } else {
            0
        };
        Ok(Content { file_path, words, random, content, prompt_index })
    }

    /// Prepare the sequencer for restarting the exercise: the cursor
    /// returns to the first prompt, or to a fresh random one in random
    /// mode.
    pub fn reset(&mut self)
        requires
            old(self)@.wf(),
        ensures
            final(self)@.file_path == old(self)@.file_path,
            final(self)@.words == old(self)@.words,
            final(self)@.random == old(self)@.random,
            final(self)@.prompts == old(self)@.prompts,
            final(self)@.index < final(self)@.prompts.len(),
            !old(self)@.random ==> final(self)@.index == 0,
            final(self)@.wf(),
    {
        if self.random {
            self.prompt_index = crate::calls::pick_index(self.content.len());
        } else {
            self.prompt_index = 0;
        }
    }

    /// Advance the cursor to the next prompt: the following one in
    /// sequential mode, possibly reaching the exhausted sentinel, and a
    /// fresh uniformly random one in random mode, which never exhausts.
    pub fn next_prompt(&mut self)
        requires
            old(self)@.wf(),
        ensures
            !old(self)@.random ==> final(self)@ == spec_advance(old(self)@),
            old(self)@.random ==> {
                &&& final(self)@.file_path == old(self)@.file_path
                &&& final(self)@.words == old(self)@.words
                &&& final(self)@.random == old(self)@.random
                &&& final(self)@.prompts == old(self)@.prompts
                &&& final(self)@.index < final(self)@.prompts.len()
            },
            final(self)@.wf(),
    {
        if self.random {
            self.prompt_index = crate::calls::pick_index(self.content.len());
        } else {
            if self.prompt_index < self.content.len() {
                self.prompt_index = self.prompt_index + 1;
            }
            proof {
                assert(self@ =~= spec_advance(old(self)@));
            }
        }
    }

    /// The prompt under the cursor as a vector of characters, or `None`
    /// once a sequential cursor is exhausted.  The character form lets
    /// the comparator judge the typed input position by position.
    pub fn get_prompt(&self) -> (r: Option<Vec<char>>)
        ensures
            self@.index < self@.prompts.len() ==> (r matches Some(p) && p@
                == self@.prompts[self@.index]),
            self@.index >= self@.prompts.len() ==> r is None,
    {
        if self.prompt_index < self.content.len() {
            let p = chars_of(self.content[self.prompt_index].as_str());
            proof {
                assert(self@.prompts[self@.index] == self.content@[self.prompt_index as int]@);
            }
            Some(p)
        } else {
            None
        }
    }

    /// All the prompts after the cursor, in order, as strings.  These
    /// are shown as the upcoming text and need no per-character
    /// comparison.
    pub fn get_next_prompts(&self) -> (r: Vec<String>)
        ensures
            self@.index < self@.prompts.len() ==> r.deep_view() == self@.prompts.subrange(
                self@.index + 1,
                self@.prompts.len() as int,
            ),
            self@.index >= self@.prompts.len() ==> r.deep_view() == Seq::<Seq<char>>::empty(),
    {
        let mut r: Vec<String> = Vec::new();
        if self.prompt_index < self.content.len() {
            let mut j: usize = self.prompt_index + 1;
            proof {
                assert(r.deep_view() =~= self@.prompts.subrange(
                    self@.index + 1,
                    self@.index + 1,
                ));
            }
            while j < self.content.len()
                invariant
                    self@.index + 1 <= j <= self.content@.len(),
                    self@.prompts.len() == self.content@.len(),
                    r.deep_view() =~= self@.prompts.subrange(self@.index + 1, j as int),
                decreases self.content@.len() - j,
            {
                let ghost prev = r.deep_view();
                r.push(self.content[j].clone());
                proof {
                    assert(r.deep_view() =~= prev.push(self.content@[j as int]@));
                    assert(r.deep_view() =~= self@.prompts.subrange(
                        self@.index + 1,
                        j as int + 1,
                    ));
                }
                j = j + 1;
            }
        } else {
            proof {
                assert(r.deep_view() =~= Seq::<Seq<char>>::empty());
            }
        }
        r
    }

    /// The cursor position and the total number of prompts.  Their
    /// quotient is the share of finished prompts; the renderer derives
    /// the displayed ratio from this exact pair.
    pub fn progress(&self) -> (r: (usize, usize))
        ensures
            r.0 == self@.index,
            r.1 == self@.prompts.len(),
    {
        (self.prompt_index, self.content.len())
    }

    /// Cut the original text from the source file into prompts: one per
    /// word when `words` is set, one per line otherwise, dropping empty
    /// pieces either way.
    pub fn into_prompts(content: String, words: bool) -> (r: Vec<String>)
        ensures
            r.deep_view() == split_spec(content@, words),
            all_nonempty(r.deep_view()),
    {
        split_str(content.as_str(), words)
    }
}

} // verus!
