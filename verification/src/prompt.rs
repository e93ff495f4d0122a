//! The character comparator: the prompt being typed, the characters typed
//! so far, and the session-wide keystroke counters.
//!
//! Every submitted character is judged once, permanently, at the moment
//! it is appended: removing it later only counts a backspace use and
//! never retracts the original classification.

use vstd::prelude::*;

verus! {

/// The abstract value of a [`Prompt`]: its target and typed character
/// sequences and the three cumulative counters.
#[verifier::ext_equal]
pub ghost struct PromptModel {
    pub target: Seq<char>,
    pub typed: Seq<char>,
    pub correct: nat,
    pub fault: nat,
    pub backspace: nat,
}

/// Maintains the current prompt the user is typing and counts the
/// keystrokes.  The counters persist across prompts: only the buffers are
/// per-prompt.
pub struct Prompt {
    /// The target text of the current prompt, character by character.
    pub prompt: Vec<char>,
    /// The characters typed so far against the target.
    pub typed: Vec<char>,
    /// How many times a character was removed with backspace.
    pub count_backspace: usize,
    /// How many submitted characters matched the target at their
    /// position.
    pub count_correct: usize,
    /// How many submitted characters missed, overshot the target, or
    /// were never typed before the prompt was finished.
    pub count_fault: usize,
}

impl View for Prompt {
    type V = PromptModel;

    open spec fn view(&self) -> PromptModel {
        PromptModel {
            target: self.prompt@,
            typed: self.typed@,
            correct: self.count_correct as nat,
            fault: self.count_fault as nat,
            backspace: self.count_backspace as nat,
        }
    }
}

/// A fresh comparator bound to `target`: empty typed buffer, all
/// counters zero.
pub open spec fn fresh_model(target: Seq<char>) -> PromptModel {
    PromptModel { target, typed: Seq::empty(), correct: 0, fault: 0, backspace: 0 }
}

/// Submitting `c`: the character is appended and judged by position.  It
/// is correct exactly when the position lies inside the target and the
/// characters agree; every character typed past the end of the target is
/// a fault.
pub open spec fn spec_submit(m: PromptModel, c: char) -> PromptModel {
    if m.typed.len() < m.target.len() && c == m.target[m.typed.len() as int] {
        PromptModel { typed: m.typed.push(c), correct: m.correct + 1, ..m }
    } else {
        PromptModel { typed: m.typed.push(c), fault: m.fault + 1, ..m }
    }
}

/// Removing the last typed character: a successful removal drops one
/// character and counts one backspace use; on an empty buffer nothing
/// happens.
pub open spec fn spec_remove(m: PromptModel) -> PromptModel {
    if m.typed.len() > 0 {
        PromptModel { typed: m.typed.drop_last(), backspace: m.backspace + 1, ..m }
    } else {
        m
    }
}

/// The characters of the target never typed before the prompt was
/// finished.
pub open spec fn spec_missing(m: PromptModel) -> nat {
    if m.target.len() > m.typed.len() {
        (m.target.len() - m.typed.len()) as nat
    } else {
        0
    }
}

/// Finishing the prompt: the shortfall is added to the fault counter
/// exactly once and both buffers are cleared; the comparator is inert
/// until rebound.
pub open spec fn spec_finish(m: PromptModel) -> PromptModel {
    PromptModel {
        target: Seq::empty(),
        typed: Seq::empty(),
        fault: m.fault + spec_missing(m),
        ..m
    }
}

/// Rebinding to a new target keeps the buffers and counters as they are.
pub open spec fn spec_rebind(m: PromptModel, target: Seq<char>) -> PromptModel {
    PromptModel { target, ..m }
}

/// Room in the machine-sized counters for one more submission followed
/// by one finish, and for one more backspace.  Only machine limits ask
/// for this; the session rules themselves never bound the counters.
pub open spec fn counters_have_room(m: PromptModel) -> bool {
    &&& m.correct + m.fault + m.target.len() < usize::MAX
    &&& m.backspace < usize::MAX
}

impl Prompt {
    /// Create a fresh comparator bound to the given target.
    pub fn new(prompt: Vec<char>) -> (r: Prompt)
        ensures
            r@ == fresh_model(prompt@),
    {
        let r = Prompt {
            prompt,
            typed: Vec::new(),
            count_backspace: 0,
            count_correct: 0,
            count_fault: 0,
        };
        proof {
            assert(r@ =~= fresh_model(r.prompt@));
        }
        r
    }

    /// Finish the prompt: count every missing character as a fault once
    /// and clear both buffers.
    pub fn finish(&mut self)
        requires
            old(self).count_fault + spec_missing(old(self)@) <= usize::MAX,
        ensures
            final(self)@ == spec_finish(old(self)@),
    {
        let missing = self.count_missing();
        self.count_fault = self.count_fault + missing;
        self.prompt = Vec::new();
        self.typed = Vec::new();
        proof {
            assert(self@ =~= spec_finish(old(self)@));
        }
    }

    /// Rebind the comparator to a new target.  Meant to follow
    /// [`Prompt::finish`]; buffers and counters are kept as they are.
    pub fn set(&mut self, prompt: Vec<char>)
        ensures
            final(self)@ == spec_rebind(old(self)@, prompt@),
    {
        self.prompt = prompt;
        proof {
            assert(self@ =~= spec_rebind(old(self)@, self.prompt@));
        }
    }

    /// Count the characters of the target not yet typed.
    pub fn count_missing(&self) -> (r: usize)
        ensures
            r == spec_missing(self@),
    {
        if self.prompt.len() > self.typed.len() {
            self.prompt.len() - self.typed.len()
        } else {
            0
        }
    }

    /// Append a typed character, judge it against the target position,
    /// and update the counters accordingly.
    pub fn type_char(&mut self, c: char)
        requires
            old(self).count_correct + old(self).count_fault < usize::MAX,
        ensures
            final(self)@ == spec_submit(old(self)@, c),
    {
        let index = self.typed.len();
        self.typed.push(c);

        if index < self.prompt.len() && c == self.prompt[index] {
            self.count_correct = self.count_correct + 1;
        } else {
            self.count_fault = self.count_fault + 1;
        }
        proof {
            assert(self@ =~= spec_submit(old(self)@, c));
        }
    }

    /// Remove the last typed character, if any, and count the backspace
    /// use.  The removed character keeps its original classification.
    pub fn remove_char(&mut self)
        requires
            old(self).count_backspace < usize::MAX,
        ensures
            final(self)@ == spec_remove(old(self)@),
    {
        if self.typed.len() > 0 {
            self.typed.pop();
            self.count_backspace = self.count_backspace + 1;
        }
        proof {
            assert(self@ =~= spec_remove(old(self)@));
        }
    }
}

/// One keystroke aimed at the comparator: submitting a character or
/// removing the last one.
pub enum TypingAction {
    Submit(char),
    Remove,
}

/// The effect of one action on the comparator model.
pub open spec fn apply_action(m: PromptModel, a: TypingAction) -> PromptModel {
    match a {
        TypingAction::Submit(c) => spec_submit(m, c),
        TypingAction::Remove => spec_remove(m),
    }
}

/// The effect of a whole sequence of actions, applied left to right.
pub open spec fn apply_actions(m: PromptModel, acts: Seq<TypingAction>) -> PromptModel
    decreases acts.len(),
{
    if acts.len() == 0 {
        m
    } else {
        apply_actions(apply_action(m, acts[0]), acts.drop_first())
    }
}

/// How many of the actions are submissions.
pub open spec fn count_submissions(acts: Seq<TypingAction>) -> nat
    decreases acts.len(),
{
    if acts.len() == 0 {
        0
    } else {
        (match acts[0] {
            TypingAction::Submit(_) => 1 as nat,
            TypingAction::Remove => 0 as nat,
        }) + count_submissions(acts.drop_first())
    }
}

/// Law: classification count is conserved.  After any sequence of
/// submissions and removals, the growth of `correct + fault` equals
/// exactly the number of submissions, however the removals were
/// interleaved.
pub proof fn lemma_classification_conserved(m: PromptModel, acts: Seq<TypingAction>)
    ensures
        ({
            let m2 = apply_actions(m, acts);
            m2.correct + m2.fault == m.correct + m.fault + count_submissions(acts)
        }),
    decreases acts.len(),
{
    if acts.len() > 0 {
        lemma_classification_conserved(apply_action(m, acts[0]), acts.drop_first());
    }
}

/// Law: the typed buffer balances appends against successful removals.
/// `typed.len() + backspace` grows by one exactly on each submission, so
/// the buffer length after any action sequence equals the appends minus
/// the successful removals, and can never go below zero.
pub proof fn lemma_typed_len_balance(m: PromptModel, acts: Seq<TypingAction>)
    ensures
        ({
            let m2 = apply_actions(m, acts);
            m2.typed.len() + m2.backspace == m.typed.len() + m.backspace + count_submissions(
                acts,
            )
        }),
    decreases acts.len(),
{
    if acts.len() > 0 {
        lemma_typed_len_balance(apply_action(m, acts[0]), acts.drop_first());
    }
}

/// Law: the counters never decrease and the bound target is never
/// changed by typing actions.
pub proof fn lemma_counters_monotone(m: PromptModel, acts: Seq<TypingAction>)
    ensures
        ({
            let m2 = apply_actions(m, acts);
            m2.correct >= m.correct && m2.fault >= m.fault && m2.backspace >= m.backspace
                && m2.target == m.target
        }),
    decreases acts.len(),
{
    if acts.len() > 0 {
        lemma_counters_monotone(apply_action(m, acts[0]), acts.drop_first());
    }
}

/// Law: the accuracy ratio `correct / (correct + fault)` always lies in
/// the unit interval, because the numerator never exceeds the
/// denominator; starting from a fresh comparator the numerator is also
/// bounded by the number of submissions.  With nothing judged yet both
/// counters are zero and the ratio is defined as one.
pub proof fn lemma_accuracy_in_unit_range(m: PromptModel, acts: Seq<TypingAction>)
    requires
        m.correct == 0,
        m.fault == 0,
    ensures
        ({
            let m2 = apply_actions(m, acts);
            m2.correct <= m2.correct + m2.fault && m2.correct <= count_submissions(acts)
        }),
{
    lemma_classification_conserved(m, acts);
}

} // verus!
