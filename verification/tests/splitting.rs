use type_trainer::content::Content;
use type_trainer::exercise_type::ExerciseType;
use type_trainer::settings::Settings;
use type_trainer::split::Split;

#[test]
fn word_splitting_cuts_at_blanks_and_breaks() {
    let r = Content::into_prompts("ab cd\nef".to_string(), true);
    assert_eq!(r, vec!["ab".to_string(), "cd".to_string(), "ef".to_string()]);
}

#[test]
fn line_splitting_cuts_at_breaks_only() {
    let r = Content::into_prompts("ab cd\nef".to_string(), false);
    assert_eq!(r, vec!["ab cd".to_string(), "ef".to_string()]);
}

#[test]
fn empty_pieces_are_dropped() {
    let r = Content::into_prompts("a  b".to_string(), true);
    assert_eq!(r, vec!["a".to_string(), "b".to_string()]);
    let r = Content::into_prompts("\n\na\n\n".to_string(), false);
    assert_eq!(r, vec!["a".to_string()]);
    let r = Content::into_prompts("".to_string(), true);
    assert!(r.is_empty());
}

#[test]
fn carriage_returns_are_separators() {
    let r = Content::into_prompts("ab\r\ncd".to_string(), false);
    assert_eq!(r, vec!["ab".to_string(), "cd".to_string()]);
}

#[test]
fn split_modes_cover_words_lines_and_text() {
    let text = "ab cd\nef".to_string();
    assert_eq!(
        Split::Words.into_prompts(text.clone()),
        vec!["ab".to_string(), "cd".to_string(), "ef".to_string()]
    );
    assert_eq!(
        Split::Lines.into_prompts(text.clone()),
        vec!["ab cd".to_string(), "ef".to_string()]
    );
    assert_eq!(Split::Text.into_prompts(text.clone()), vec![text]);
}

#[test]
fn exercise_type_selects_its_splitting() {
    let text = "ab cd\nef".to_string();
    assert_eq!(
        ExerciseType::Quicktype.split_content(text.clone()),
        vec!["ab".to_string(), "cd".to_string(), "ef".to_string()]
    );
    assert_eq!(
        ExerciseType::Copy.split_content(text),
        vec!["ab cd".to_string(), "ef".to_string()]
    );
}

#[test]
fn settings_split_follows_the_configured_mode() {
    let mut s = Settings::build(true, true, false, false, false, false, None);
    assert_eq!(s.split, Split::Lines);
    let text = "ab cd\nef".to_string();
    assert_eq!(
        s.split_content_into_prompts(text.clone()),
        vec!["ab cd".to_string(), "ef".to_string()]
    );
    s.split = Split::Words;
    assert_eq!(
        s.split_content_into_prompts(text),
        vec!["ab".to_string(), "cd".to_string(), "ef".to_string()]
    );
}

#[test]
fn settings_build_records_every_choice() {
    let s = Settings::build(false, true, true, true, true, true, Some(7));
    assert!(!s.backspace);
    assert!(s.highlight);
    assert!(s.blind);
    assert!(s.auto);
    assert!(s.correct);
    assert!(s.repeat);
    assert_eq!(s.terminate, Some(7));
}
