//! The session engine: the state machine that composes the stopwatch,
//! the prompt sequencer and the character comparator, interprets input
//! events, and computes the words-per-minute score.
//!
//! The transition relation [`update_rel`] is the single source of truth
//! for the lifecycle: `Waiting -> Running -> {Pausing -> Running,
//! Finished, Quitting}`, `Finished -> {Waiting, Quitting}`, with
//! `Quitting` terminal.  Control keys drive the lifecycle; every other
//! key is routed to typing actions only while `Running`, and all other
//! states ignore it.

use vstd::prelude::*;
use crate::content::{BuildError, Content, ContentModel};
use crate::prompt::{
    counters_have_room, fresh_model, spec_finish, spec_missing, spec_rebind, spec_remove,
    spec_submit, Prompt, PromptModel,
};
use crate::settings::Settings;
use crate::state::State;
use crate::timer::{spec_elapsed, spec_expired, spec_reset, spec_start, spec_stop, Timer};

verus! {

/// One discrete input event handed to the engine by the keyboard
/// collaborator.  A control-modified key carries its letter; every key
/// that is neither printable nor an editing key arrives as `Other`.
#[derive(Clone, Copy, PartialEq, Eq, Structural, Debug)]
pub enum InputEvent {
    Ctrl(char),
    Char(char),
    Enter,
    Backspace,
    Other,
}

/// The complete state of one practice session.
pub struct Exercise {
    /// The session-start timestamp, for reporting only.
    pub time: String,
    /// The stopwatch, with the optional time limit.
    pub timer: Timer,
    /// The prompt sequencer.
    pub content: Content,
    /// The immutable session configuration.
    pub settings: Settings,
    /// The comparator bound to the sequencer's current prompt.
    pub prompt: Prompt,
    /// The lifecycle state.
    pub state: State,
}

impl Exercise {
    /// The engine invariant: the sequencer is well formed, the
    /// comparator's target is exactly the sequencer's current prompt
    /// (and empty once the sequencer is exhausted), and the sequencer
    /// cannot be exhausted outside the `Finished` and `Quitting`
    /// states.
    pub open spec fn wf(self) -> bool {
        &&& self.content@.wf()
        &&& (self.content@.index < self.content@.prompts.len() ==> self.prompt@.target
            == self.content@.prompts[self.content@.index])
        &&& (self.content@.index >= self.content@.prompts.len() ==> self.prompt@.target.len()
            == 0)
        &&& ((self.state == State::Waiting || self.state == State::Running || self.state
            == State::Pausing) ==> self.content@.index < self.content@.prompts.len())
    }
}

/// Nothing observable changed.
pub open spec fn stays(pre: Exercise, post: Exercise) -> bool {
    &&& post.state == pre.state
    &&& post.timer == pre.timer
    &&& post.time@ == pre.time@
    &&& post.settings == pre.settings
    &&& post.content@ == pre.content@
    &&& post.prompt@ == pre.prompt@
}

/// Everything but the lifecycle state and the timer is unchanged.
pub open spec fn core_unchanged(pre: Exercise, post: Exercise) -> bool {
    &&& post.time@ == pre.time@
    &&& post.settings == pre.settings
    &&& post.content@ == pre.content@
    &&& post.prompt@ == pre.prompt@
}

/// The quit transition: only the state moves, to the terminal
/// `Quitting`.
pub open spec fn quit_rel(pre: Exercise, post: Exercise) -> bool {
    &&& core_unchanged(pre, post)
    &&& post.timer == pre.timer
    &&& post.state == State::Quitting
}

/// The stop transition: the stopwatch is stopped at `now` and the
/// session is `Finished`.
pub open spec fn stop_rel(pre: Exercise, post: Exercise, now: u64) -> bool {
    &&& core_unchanged(pre, post)
    &&& post.timer == spec_stop(pre.timer, now)
    &&& post.state == State::Finished
}

/// The pause transition: the stopwatch is stopped at `now` and the
/// session waits in `Pausing` until typing resumes.
pub open spec fn pause_rel(pre: Exercise, post: Exercise, now: u64) -> bool {
    &&& core_unchanged(pre, post)
    &&& post.timer == spec_stop(pre.timer, now)
    &&& post.state == State::Pausing
}

/// The restart transition: the stopwatch is reset, the sequencer
/// returns to its first prompt (a fresh random one in random mode), a
/// fresh comparator is bound to it, and the session waits in
/// `Waiting`.  The session-start timestamp is taken anew, so nothing is
/// promised of it.
pub open spec fn restart_rel(pre: Exercise, post: Exercise) -> bool {
    &&& post.state == State::Waiting
    &&& post.timer == spec_reset(pre.timer)
    &&& post.settings == pre.settings
    &&& post.content@.file_path == pre.content@.file_path
    &&& post.content@.words == pre.content@.words
    &&& post.content@.random == pre.content@.random
    &&& post.content@.prompts == pre.content@.prompts
    &&& 0 <= post.content@.index < post.content@.prompts.len()
    &&& (!pre.content@.random ==> post.content@.index == 0)
    &&& post.prompt@ == fresh_model(post.content@.prompts[post.content@.index])
}

/// A control key in each lifecycle state: `c` stops or quits, `r`
/// restarts, `p` pauses, exactly as the transition table rows say;
/// every other control key changes nothing.
pub open spec fn ctrl_rel(pre: Exercise, c: char, now: u64, post: Exercise) -> bool {
    match pre.state {
        State::Waiting => if c == 'c' || c == 'C' {
            quit_rel(pre, post)
        } else {
            stays(pre, post)
        },
        State::Running => if c == 'c' || c == 'C' {
            stop_rel(pre, post, now)
        } else if c == 'r' || c == 'R' {
            restart_rel(pre, post)
        } else if c == 'p' || c == 'P' {
            pause_rel(pre, post, now)
        } else {
            stays(pre, post)
        },
        State::Pausing => if c == 'c' || c == 'C' {
            stop_rel(pre, post, now)
        } else if c == 'r' || c == 'R' {
            restart_rel(pre, post)
        } else {
            stays(pre, post)
        },
        State::Finished => if c == 'c' || c == 'C' {
            quit_rel(pre, post)
        } else if c == 'r' || c == 'R' {
            restart_rel(pre, post)
        } else {
            stays(pre, post)
        },
        State::Quitting => stays(pre, post),
    }
}

/// Whether the configured mistake threshold is reached by the
/// comparator's fault counter.
pub open spec fn term_fires(set: Settings, m: PromptModel) -> bool {
    match set.terminate {
        Some(t) => m.fault >= t,
        None => false,
    }
}

/// The timer after the wake step: a key arriving in `Waiting` or
/// `Pausing` starts the stopwatch before it is delivered.
pub open spec fn woke_timer(pre: Exercise, now: u64) -> Timer {
    if pre.state == State::Waiting || pre.state == State::Pausing {
        spec_start(pre.timer, now)
    } else {
        pre.timer
    }
}

/// Whether finishing the current prompt exhausts the sequencer: only a
/// sequential cursor on the last prompt does; random mode always draws
/// a next prompt.
pub open spec fn enter_finishes(c: ContentModel) -> bool {
    !c.random && c.index + 1 >= c.prompts.len()
}

/// The comparator and sequencer after finishing the prompt whose
/// comparator model was `m1`: the missing characters are counted, the
/// sequencer advances, and if a prompt is selected the comparator is
/// rebound to it.  In random mode the drawn index is arbitrary but
/// valid.
pub open spec fn after_enter(m1: PromptModel, c0: ContentModel, post: Exercise) -> bool {
    let m = spec_finish(m1);
    if !c0.random {
        &&& post.content@ == ContentModel { index: c0.index + 1, ..c0 }
        &&& if c0.index + 1 < c0.prompts.len() {
            post.prompt@ == spec_rebind(m, c0.prompts[c0.index + 1])
        } else {
            post.prompt@ == m
        }
    } else {
        &&& post.content@.file_path == c0.file_path
        &&& post.content@.words == c0.words
        &&& post.content@.random == c0.random
        &&& post.content@.prompts == c0.prompts
        &&& 0 <= post.content@.index < c0.prompts.len()
        &&& post.prompt@ == spec_rebind(m, c0.prompts[post.content@.index])
    }
}

/// Finishing the prompt alone: the session finishes, with the
/// stopwatch stopped, exactly when the sequencer exhausts.
pub open spec fn press_enter_rel(
    m1: PromptModel,
    c0: ContentModel,
    t0: Timer,
    now: u64,
    post: Exercise,
) -> bool {
    &&& after_enter(m1, c0, post)
    &&& if enter_finishes(c0) {
        post.state == State::Finished && post.timer == spec_stop(t0, now)
    } else {
        post.state == State::Running && post.timer == t0
    }
}

/// Finishing the prompt followed by the mistake-threshold check: the
/// session finishes when the sequencer exhausts or, otherwise, when the
/// faults counted so far (including the just-counted missing
/// characters) reach the threshold.
pub open spec fn enter_step_rel(
    m1: PromptModel,
    c0: ContentModel,
    t1: Timer,
    set: Settings,
    now: u64,
    post: Exercise,
) -> bool {
    &&& after_enter(m1, c0, post)
    &&& ({
        let fin = enter_finishes(c0);
        let tf = !fin && term_fires(set, spec_finish(m1));
        if fin || tf {
            post.state == State::Finished && post.timer == spec_stop(t1, now)
        } else {
            post.state == State::Running && post.timer == t1
        }
    })
}

/// A typing step that does not finish the prompt, followed by the
/// mistake-threshold check: the comparator becomes `m2`, the sequencer
/// is untouched, and the session finishes exactly when the threshold is
/// reached.
pub open spec fn plain_step_rel(
    m2: PromptModel,
    c0: ContentModel,
    t1: Timer,
    set: Settings,
    now: u64,
    post: Exercise,
) -> bool {
    &&& post.prompt@ == m2
    &&& post.content@ == c0
    &&& if term_fires(set, m2) {
        post.state == State::Finished && post.timer == spec_stop(t1, now)
    } else {
        post.state == State::Running && post.timer == t1
    }
}

/// The full transition relation of [`Exercise::update_at`]: the
/// transition table of the session.
///
/// A control key follows [`ctrl_rel`].  Any other key in `Finished` or
/// `Quitting` is ignored.  In `Waiting` or `Pausing` it first starts
/// the stopwatch and moves to `Running`; then, in `Running`, an enter
/// key finishes the prompt, a character key submits the character, and
/// a backspace removes the last one when the settings allow it.  After
/// a character or backspace, if auto-advance is configured and exactly
/// as many characters are typed as the prompt holds, the prompt is
/// finished as if enter were pressed.  Last, the mistake threshold is
/// checked.
pub open spec fn update_rel(pre: Exercise, ev: InputEvent, now: u64, post: Exercise) -> bool {
    match ev {
        InputEvent::Ctrl(c) => ctrl_rel(pre, c, now, post),
        _ => {
            if pre.state == State::Waiting || pre.state == State::Pausing || pre.state
                == State::Running {
                let t1 = woke_timer(pre, now);
                &&& post.time@ == pre.time@
                &&& post.settings == pre.settings
                &&& match ev {
                    InputEvent::Enter => enter_step_rel(
                        pre.prompt@,
                        pre.content@,
                        t1,
                        pre.settings,
                        now,
                        post,
                    ),
                    InputEvent::Char(c) => {
                        let m2 = spec_submit(pre.prompt@, c);
                        if pre.settings.auto && m2.target.len() == m2.typed.len() {
                            enter_step_rel(m2, pre.content@, t1, pre.settings, now, post)
                        } else {
                            plain_step_rel(m2, pre.content@, t1, pre.settings, now, post)
                        }
                    },
                    InputEvent::Backspace => {
                        let m2 = if pre.settings.backspace {
                            spec_remove(pre.prompt@)
                        } else {
                            pre.prompt@
                        };
                        if pre.settings.auto && m2.target.len() == m2.typed.len() {
                            enter_step_rel(m2, pre.content@, t1, pre.settings, now, post)
                        } else {
                            plain_step_rel(m2, pre.content@, t1, pre.settings, now, post)
                        }
                    },
                    _ => plain_step_rel(pre.prompt@, pre.content@, t1, pre.settings, now, post),
                }
            } else {
                stays(pre, post)
            }
        },
    }
}

/// The timer check relation: in `Running` with the limit reached at
/// `now`, the session stops; in every other case nothing changes.
pub open spec fn check_rel(pre: Exercise, now: u64, post: Exercise) -> bool {
    if pre.state == State::Running && spec_expired(pre.timer, now) {
        stop_rel(pre, post, now)
    } else {
        stays(pre, post)
    }
}

/// The letters counted for the score: correct submissions less
/// backspace uses, at least zero.  Deliberately, heavy self-correction
/// lowers the score; the formula is the documented contract.
pub open spec fn spec_letters(m: PromptModel) -> int {
    if m.correct >= m.backspace {
        m.correct - m.backspace
    } else {
        0
    }
}

/// The words-per-minute score for `letters` counted letters over `ms`
/// elapsed milliseconds: five letters make a word, and the words per
/// minute are rounded to the nearest whole number; with no elapsed time
/// the score is zero.  The value is clamped into the machine range.
pub open spec fn spec_wpm(letters: int, ms: int) -> int {
    if ms == 0 {
        0
    } else {
        let w = (24000 * letters + ms) / (2 * ms);
        if w > usize::MAX {
            usize::MAX as int
        } else {
            w
        }
    }
}

impl Exercise {
    /// Build a new session over the given stopwatch, sequencer and
    /// settings, waiting for the first keystroke.  Construction fails
    /// with the defined error exactly when the sequencer has no prompt
    /// selected, and then no engine value exists.  A sequencer fresh
    /// from its own construction always has a prompt selected, so along
    /// the construction path this failure is precisely the
    /// empty-prompt-list one, surfaced to the caller before any engine
    /// is made.
    pub fn build(timer: Timer, content: Content, settings: Settings) -> (r: Result<
        Exercise,
        BuildError,
    >)
        requires
            content@.wf(),
        ensures
            r is Ok <==> content@.index < content@.prompts.len(),
            r is Err ==> r == Err::<Exercise, BuildError>(BuildError::EmptyPrompts),
            r matches Ok(e) ==> {
                &&& e.wf()
                &&& e.timer == timer
                &&& e.settings == settings
                &&& e.content@ == content@
                &&& e.state == State::Waiting
                &&& e.prompt@ == fresh_model(content@.prompts[content@.index])
            },
    {
        let p: Vec<char> = match content.get_prompt() {
            Some(p) => p,
            None => {
                return Err(BuildError::EmptyPrompts);
            },
        };
        let prompt = Prompt::new(p);
        Ok(
            Exercise {
                time: crate::calls::now_rfc2822(),
                timer,
                content,
                settings,
                prompt,
                state: State::Waiting,
            },
        )
    }

    /// The tick event of the terminal: the engine has nothing to do on
    /// a bare tick.
    pub fn tick(&self) {
    }

    /// Move to `Running` and start the stopwatch at `now`.
    fn start(&mut self, now: u64)
        ensures
            core_unchanged(*old(self), *final(self)),
            final(self).state == State::Running,
            final(self).timer == spec_start(old(self).timer, now),
    {
        self.state = State::Running;
        self.timer.start_at(now);
    }

    /// Move to `Pausing`, stopping the stopwatch at `now`.
    fn pause(&mut self, now: u64)
        ensures
            pause_rel(*old(self), *final(self), now),
    {
        self.state = State::Pausing;
        self.timer.stop_at(now);
    }

    /// Move to `Finished`, stopping the stopwatch at `now`.  The host
    /// persists a snapshot after seeing this transition; a failed save
    /// cannot touch the engine's own state.
    fn stop(&mut self, now: u64)
        ensures
            stop_rel(*old(self), *final(self), now),
    {
        self.timer.stop_at(now);
        self.state = State::Finished;
    }

    /// Move to `Waiting`: reset the stopwatch, return the sequencer to
    /// its first prompt (a fresh random one in random mode), bind a
    /// fresh comparator, and take a new session timestamp.
    fn restart(&mut self)
        requires
            old(self).content@.wf(),
        ensures
            restart_rel(*old(self), *final(self)),
            final(self).wf(),
    {
        self.state = State::Waiting;
        self.time = crate::calls::now_rfc2822();
        self.content.reset();
        self.timer.reset();
        let p: Vec<char> = match self.content.get_prompt() {
            Some(p) => p,
            None => {
                proof {
                    assert(false);
                }
                Vec::new()
            },
        };
        self.prompt = Prompt::new(p);
    }

    /// Move to the terminal `Quitting` state.
    pub fn quit(&mut self)
        ensures
            quit_rel(*old(self), *final(self)),
            old(self).wf() ==> final(self).wf(),
    {
        self.state = State::Quitting;
    }

    /// Finish the current prompt: count its missing characters as
    /// faults, advance the sequencer, and rebind the comparator, or
    /// stop the session if the sequencer exhausts.
    fn press_enter(&mut self, now: u64)
        requires
            old(self).wf(),
            old(self).state == State::Running,
            old(self).prompt.count_fault + spec_missing(old(self).prompt@) <= usize::MAX,
        ensures
            press_enter_rel(
                old(self).prompt@,
                old(self).content@,
                old(self).timer,
                now,
                *final(self),
            ),
            final(self).time@ == old(self).time@,
            final(self).settings == old(self).settings,
            final(self).wf(),
    {
        self.prompt.finish();
        self.content.next_prompt();
        match self.content.get_prompt() {
            Some(p) => {
                self.prompt.set(p);
            },
            None => {
                self.stop(now);
            },
        }
    }

    /// Submit one typed character to the comparator.
    fn press_char(&mut self, c: char)
        requires
            old(self).prompt.count_correct + old(self).prompt.count_fault < usize::MAX,
        ensures
            final(self).prompt@ == spec_submit(old(self).prompt@, c),
            final(self).state == old(self).state,
            final(self).timer == old(self).timer,
            final(self).time@ == old(self).time@,
            final(self).settings == old(self).settings,
            final(self).content@ == old(self).content@,
    {
        self.prompt.type_char(c);
    }

    /// Remove the last typed character, when the settings allow the
    /// backspace key.
    fn press_backspace(&mut self)
        requires
            old(self).prompt.count_backspace < usize::MAX,
        ensures
            final(self).prompt@ == if old(self).settings.backspace {
                spec_remove(old(self).prompt@)
            } else {
                old(self).prompt@
            },
            final(self).state == old(self).state,
            final(self).timer == old(self).timer,
            final(self).time@ == old(self).time@,
            final(self).settings == old(self).settings,
            final(self).content@ == old(self).content@,
    {
        if self.settings.backspace {
            self.prompt.remove_char();
        }
    }

    /// Handle one input event with an injected clock reading, following
    /// [`update_rel`] exactly.
    pub fn update_at(&mut self, event: InputEvent, now: u64)
        requires
            old(self).wf(),
            counters_have_room(old(self).prompt@),
        ensures
            update_rel(*old(self), event, now, *final(self)),
            final(self).wf(),
    {
        match event {
            InputEvent::Ctrl(c) => {
                match self.state {
                    State::Waiting => {
                        if c == 'c' || c == 'C' {
                            self.quit();
                        }
                    },
                    State::Running => {
                        if c == 'c' || c == 'C' {
                            self.stop(now);
                        } else if c == 'r' || c == 'R' {
                            self.restart();
                        } else if c == 'p' || c == 'P' {
                            self.pause(now);
                        }
                    },
                    State::Pausing => {
                        if c == 'c' || c == 'C' {
                            self.stop(now);
                        } else if c == 'r' || c == 'R' {
                            self.restart();
                        }
                    },
                    State::Finished => {
                        if c == 'c' || c == 'C' {
                            self.quit();
                        } else if c == 'r' || c == 'R' {
                            self.restart();
                        }
                    },
                    State::Quitting => {},
                }
            },
            _ => {
                if self.state == State::Waiting || self.state == State::Pausing || self.state
                    == State::Running {
                    if self.state == State::Waiting || self.state == State::Pausing {
                        self.start(now);
                    }
                    match event {
                        InputEvent::Enter => self.press_enter(now),
                        InputEvent::Char(c) => self.press_char(c),
                        InputEvent::Backspace => self.press_backspace(),
                        _ => {},
                    }
                    let is_edit = matches!(event, InputEvent::Char(_) | InputEvent::Backspace);
                    if is_edit && self.state == State::Running && self.settings.auto
                        && self.prompt.prompt.len() == self.prompt.typed.len() {
                        self.press_enter(now);
                    }
                    if self.state == State::Running {
                        if let Some(t) = self.settings.terminate {
                            if self.prompt.count_fault >= t {
                                self.stop(now);
                            }
                        }
                    }
                }
            },
        }
    }

    /// Handle one input event, reading the wall clock for any stopwatch
    /// transition it causes.
    pub fn update(&mut self, event: InputEvent)
        requires
            old(self).wf(),
            counters_have_room(old(self).prompt@),
        ensures
            exists|now: u64| update_rel(*old(self), event, now, *final(self)),
            final(self).wf(),
    {
        let now = crate::calls::now_millis();
        self.update_at(event, now);
        proof {
            assert(update_rel(*old(self), event, now, *self));
        }
    }

    /// Check the time limit with an injected clock reading: in
    /// `Running` with the limit reached the session stops; nothing
    /// happens otherwise.  The host loop calls this once per frame.
    pub fn check_timer_at(&mut self, now: u64)
        requires
            old(self).wf(),
        ensures
            check_rel(*old(self), now, *final(self)),
            final(self).wf(),
    {
        if self.state == State::Running && self.timer.timer_expired_at(now) {
            self.stop(now);
        }
    }

    /// Check the time limit against the wall clock.
    pub fn check_timer(&mut self)
        requires
            old(self).wf(),
        ensures
            exists|now: u64| check_rel(*old(self), now, *final(self)),
            final(self).wf(),
    {
        let now = crate::calls::now_millis();
        self.check_timer_at(now);
        proof {
            assert(check_rel(*old(self), now, *self));
        }
    }

    /// The words-per-minute score at an injected clock reading.
    pub fn calculate_wpm_at(&self, now: u64) -> (r: usize)
        ensures
            r == spec_wpm(spec_letters(self.prompt@), spec_elapsed(self.timer, now) as int),
    {
        let letters: usize = if self.prompt.count_correct >= self.prompt.count_backspace {
            self.prompt.count_correct - self.prompt.count_backspace
        } else {
            0
        };
        let ms: u64 = self.timer.get_time_at(now);
        if ms == 0 {
            return 0;
        }
        let num: u128 = 24000u128 * (letters as u128) + (ms as u128);
        let den: u128 = 2u128 * (ms as u128);
        let w: u128 = num / den;
        if w > usize::MAX as u128 {
            usize::MAX
        } else {
            w as usize
        }
    }

    /// The words-per-minute score, read from the wall clock.  With the
    /// stopwatch stopped, as it is once the session is `Finished`, the
    /// score is exact.
    pub fn calculate_wpm(&self) -> (r: usize)
        ensures
            exists|now: u64|
                r == spec_wpm(spec_letters(self.prompt@), spec_elapsed(self.timer, now) as int),
            self.timer.start.is_none() ==> r == spec_wpm(
                spec_letters(self.prompt@),
                self.timer.saved as int,
            ),
    {
        let now = crate::calls::now_millis();
        let r = self.calculate_wpm_at(now);
        proof {
            assert(r == spec_wpm(spec_letters(self.prompt@), spec_elapsed(self.timer, now) as int));
        }
        r
    }
}

} // verus!
