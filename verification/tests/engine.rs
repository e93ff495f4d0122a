use type_trainer::content::{BuildError, Content};
use type_trainer::exercise::{Exercise, InputEvent};
use type_trainer::settings::Settings;
use type_trainer::state::State;
use type_trainer::timer::Timer;

fn plain_settings() -> Settings {
    Settings::build(true, true, false, false, false, false, None)
}

fn engine_over(prompts: Vec<&str>, settings: Settings, limit: Option<u64>) -> Exercise {
    let prompts: Vec<String> = prompts.into_iter().map(|s| s.to_string()).collect();
    let content = Content::build("file.txt".to_string(), prompts, false, false).unwrap();
    Exercise::build(Timer::new(limit), content, settings).unwrap()
}

#[test]
fn construction_fails_without_a_selectable_prompt() {
    // the construction path refuses the empty prompt list one step
    // before the engine
    let r = Content::build("file.txt".to_string(), Vec::new(), false, false);
    assert_eq!(r.err().unwrap(), BuildError::EmptyPrompts);
    // and the engine itself refuses a sequencer with nothing selected,
    // so no engine value is ever produced
    let mut c =
        Content::build("file.txt".to_string(), vec!["one".to_string()], false, false).unwrap();
    c.next_prompt();
    let r = Exercise::build(Timer::new(None), c, plain_settings());
    assert_eq!(r.err().unwrap(), BuildError::EmptyPrompts);
}

#[test]
fn first_keystroke_wakes_and_starts_the_stopwatch() {
    let mut ex = engine_over(vec!["cat"], plain_settings(), None);
    assert_eq!(ex.state, State::Waiting);
    ex.update_at(InputEvent::Char('c'), 100);
    assert_eq!(ex.state, State::Running);
    assert_eq!(ex.timer.get_time_at(600), 500);
    assert_eq!(ex.prompt.count_correct, 1);
}

#[test]
fn typing_a_prompt_and_entering_advances() {
    let mut ex = engine_over(vec!["cat", "dog"], plain_settings(), None);
    ex.update_at(InputEvent::Char('c'), 0);
    ex.update_at(InputEvent::Char('a'), 0);
    ex.update_at(InputEvent::Char('t'), 0);
    ex.update_at(InputEvent::Enter, 0);
    assert_eq!(ex.state, State::Running);
    assert_eq!(ex.prompt.prompt, vec!['d', 'o', 'g']);
    assert!(ex.prompt.typed.is_empty());
    assert_eq!(ex.prompt.count_correct, 3);
    assert_eq!(ex.prompt.count_fault, 0);
}

#[test]
fn finishing_the_last_prompt_finishes_the_session() {
    let mut ex = engine_over(vec!["hi"], plain_settings(), None);
    ex.update_at(InputEvent::Char('h'), 0);
    ex.update_at(InputEvent::Char('i'), 0);
    ex.update_at(InputEvent::Enter, 400);
    assert_eq!(ex.state, State::Finished);
    assert_eq!(ex.timer.get_time_at(9999), 400);
}

#[test]
fn enter_counts_missing_characters() {
    let mut ex = engine_over(vec!["cats", "dogs"], plain_settings(), None);
    ex.update_at(InputEvent::Char('c'), 0);
    ex.update_at(InputEvent::Char('a'), 0);
    ex.update_at(InputEvent::Enter, 0);
    assert_eq!(ex.prompt.count_fault, 2);
    assert_eq!(ex.prompt.count_correct, 2);
}

#[test]
fn backspace_respects_the_configuration() {
    let mut ex = engine_over(vec!["cat"], plain_settings(), None);
    ex.update_at(InputEvent::Char('c'), 0);
    ex.update_at(InputEvent::Backspace, 0);
    assert!(ex.prompt.typed.is_empty());
    assert_eq!(ex.prompt.count_backspace, 1);

    let fixed = Settings::build(false, true, false, false, false, false, None);
    let mut ex = engine_over(vec!["cat"], fixed, None);
    ex.update_at(InputEvent::Char('c'), 0);
    ex.update_at(InputEvent::Backspace, 0);
    assert_eq!(ex.prompt.typed, vec!['c']);
    assert_eq!(ex.prompt.count_backspace, 0);
}

#[test]
fn auto_advance_fires_when_the_lengths_match() {
    let auto = Settings::build(true, true, false, true, false, false, None);
    let mut ex = engine_over(vec!["hi", "yo"], auto, None);
    ex.update_at(InputEvent::Char('h'), 0);
    assert_eq!(ex.prompt.prompt, vec!['h', 'i']);
    ex.update_at(InputEvent::Char('i'), 0);
    assert_eq!(ex.prompt.prompt, vec!['y', 'o']);
    assert_eq!(ex.state, State::Running);
}

#[test]
fn mistake_threshold_finishes_the_session() {
    let strict = Settings::build(true, true, false, false, false, false, Some(1));
    let mut ex = engine_over(vec!["cat"], strict, None);
    ex.update_at(InputEvent::Char('x'), 0);
    assert_eq!(ex.state, State::Finished);
}

#[test]
fn pause_stops_the_clock_until_typing_resumes() {
    let mut ex = engine_over(vec!["cat"], plain_settings(), None);
    ex.update_at(InputEvent::Char('c'), 0);
    ex.update_at(InputEvent::Ctrl('p'), 300);
    assert_eq!(ex.state, State::Pausing);
    assert_eq!(ex.timer.get_time_at(9999), 300);
    ex.update_at(InputEvent::Char('a'), 1000);
    assert_eq!(ex.state, State::Running);
    assert_eq!(ex.timer.get_time_at(1200), 500);
}

#[test]
fn restart_returns_to_a_fresh_waiting_session() {
    let mut ex = engine_over(vec!["cat", "dog"], plain_settings(), None);
    ex.update_at(InputEvent::Char('c'), 0);
    ex.update_at(InputEvent::Char('x'), 0);
    ex.update_at(InputEvent::Enter, 0);
    ex.update_at(InputEvent::Ctrl('r'), 500);
    assert_eq!(ex.state, State::Waiting);
    assert_eq!(ex.timer.get_time_at(9999), 0);
    assert_eq!(ex.prompt.prompt, vec!['c', 'a', 't']);
    assert_eq!(ex.prompt.count_correct, 0);
    assert_eq!(ex.prompt.count_fault, 0);
}

#[test]
fn quit_is_reachable_from_waiting_and_finished() {
    let mut ex = engine_over(vec!["cat"], plain_settings(), None);
    ex.update_at(InputEvent::Ctrl('c'), 0);
    assert_eq!(ex.state, State::Quitting);

    let mut ex = engine_over(vec!["cat"], plain_settings(), None);
    ex.update_at(InputEvent::Char('c'), 0);
    ex.update_at(InputEvent::Ctrl('c'), 0);
    assert_eq!(ex.state, State::Finished);
    ex.update_at(InputEvent::Ctrl('c'), 0);
    assert_eq!(ex.state, State::Quitting);
}

#[test]
fn character_keys_are_ignored_outside_running() {
    let mut ex = engine_over(vec!["cat"], plain_settings(), None);
    ex.update_at(InputEvent::Char('c'), 0);
    ex.update_at(InputEvent::Ctrl('c'), 0);
    assert_eq!(ex.state, State::Finished);
    ex.update_at(InputEvent::Char('a'), 0);
    assert_eq!(ex.state, State::Finished);
    assert_eq!(ex.prompt.count_correct, 1);
}

#[test]
fn expired_limit_finishes_on_the_tick_check() {
    let mut ex = engine_over(vec!["cat"], plain_settings(), Some(1000));
    ex.update_at(InputEvent::Char('c'), 0);
    assert_eq!(ex.state, State::Running);
    ex.check_timer_at(900);
    assert_eq!(ex.state, State::Running);
    // 1.1 simulated seconds after the start the limit of one second is
    // reached and the tick check finishes the session
    assert!(ex.timer.timer_expired_at(1100));
    ex.check_timer_at(1100);
    assert_eq!(ex.state, State::Finished);
}

#[test]
fn tick_check_does_nothing_outside_running() {
    let mut ex = engine_over(vec!["cat"], plain_settings(), Some(10));
    ex.check_timer_at(5000);
    assert_eq!(ex.state, State::Waiting);
}

#[test]
fn wpm_counts_five_letters_per_word() {
    let mut ex = engine_over(vec!["cat"], plain_settings(), None);
    ex.prompt.count_correct = 50;
    ex.timer.saved = 60_000;
    assert_eq!(ex.calculate_wpm_at(0), 10);
}

#[test]
fn wpm_rounds_to_the_nearest_whole_number() {
    let mut ex = engine_over(vec!["cat"], plain_settings(), None);
    ex.prompt.count_correct = 7;
    ex.timer.saved = 60_000;
    assert_eq!(ex.calculate_wpm_at(0), 1);
    ex.prompt.count_correct = 8;
    assert_eq!(ex.calculate_wpm_at(0), 2);
}

#[test]
fn wpm_subtracts_backspace_uses_and_never_goes_negative() {
    let mut ex = engine_over(vec!["cat"], plain_settings(), None);
    ex.prompt.count_correct = 60;
    ex.prompt.count_backspace = 10;
    ex.timer.saved = 60_000;
    assert_eq!(ex.calculate_wpm_at(0), 10);
    ex.prompt.count_backspace = 100;
    assert_eq!(ex.calculate_wpm_at(0), 0);
}

#[test]
fn wpm_is_zero_with_no_elapsed_time() {
    let mut ex = engine_over(vec!["cat"], plain_settings(), None);
    ex.prompt.count_correct = 50;
    assert_eq!(ex.calculate_wpm_at(0), 0);
}

#[test]
fn state_buttons_name_their_keys() {
    assert_eq!(State::Waiting.button(), "Restart: 'Ctrl+R'");
    assert_eq!(State::Running.button(), "Start:   Type");
    assert_eq!(State::Pausing.button(), "Pause:   'Ctrl+P'");
    assert_eq!(State::Finished.button(), "Stop:    'Ctrl+C'");
    assert_eq!(State::Quitting.button(), "Quit:    'Ctrl+C'");
}
