use type_trainer::content::Content;
use type_trainer::exercise::{Exercise, InputEvent};
use type_trainer::settings::Settings;
use type_trainer::state::State;
use type_trainer::timer::Timer;

#[test]
fn stopping_twice_on_the_wall_clock_keeps_elapsed() {
    let mut t = Timer::new(None);
    t.start();
    t.stop();
    let once = t.get_time();
    t.stop();
    assert_eq!(t.get_time(), once);
}

#[test]
fn wall_clock_label_is_a_clock_face() {
    let t = Timer::new(None);
    let label = t.get_time_label();
    assert_eq!(label, "00:00");
    assert!(!t.timer_expired());
}

#[test]
fn session_runs_on_the_wall_clock() {
    let content = Content::build(
        "file.txt".to_string(),
        vec!["cat".to_string()],
        false,
        false,
    )
    .unwrap();
    let settings = Settings::build(true, true, false, false, false, false, None);
    let mut ex = Exercise::build(Timer::new(None), content, settings).unwrap();
    ex.tick();
    assert_eq!(ex.state, State::Waiting);
    ex.update(InputEvent::Char('c'));
    assert_eq!(ex.state, State::Running);
    ex.check_timer();
    assert_eq!(ex.state, State::Running);
    ex.update(InputEvent::Ctrl('c'));
    assert_eq!(ex.state, State::Finished);
    // with the stopwatch stopped the score is a plain function of the
    // counters and the accumulated time
    let wpm = ex.calculate_wpm();
    assert_eq!(wpm, ex.calculate_wpm());
    ex.quit();
    assert_eq!(ex.state, State::Quitting);
}
