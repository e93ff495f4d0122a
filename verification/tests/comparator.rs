use type_trainer::prompt::Prompt;

fn accuracy(correct: usize, fault: usize) -> f64 {
    if correct + fault == 0 {
        1.0
    } else {
        correct as f64 / (correct + fault) as f64
    }
}

#[test]
fn typing_cat_correctly() {
    let mut p = Prompt::new(vec!['c', 'a', 't']);
    p.type_char('c');
    p.type_char('a');
    p.type_char('t');
    assert_eq!(p.count_correct, 3);
    assert_eq!(p.count_fault, 0);
    assert_eq!(accuracy(p.count_correct, p.count_fault), 1.0);
}

#[test]
fn one_wrong_character() {
    let mut p = Prompt::new(vec!['c', 'a', 't']);
    p.type_char('c');
    p.type_char('x');
    p.type_char('t');
    assert_eq!(p.count_correct, 2);
    assert_eq!(p.count_fault, 1);
}

#[test]
fn removal_never_retracts_a_classification() {
    let mut p = Prompt::new(vec!['c', 'a', 't']);
    p.type_char('c');
    p.remove_char();
    p.type_char('c');
    p.type_char('a');
    p.type_char('t');
    assert_eq!(p.count_backspace, 1);
    // four characters were submitted and each was judged correct at its
    // position; the removed one keeps its classification
    assert_eq!(p.count_correct, 4);
    assert_eq!(p.count_fault, 0);
    assert_eq!(p.count_correct + p.count_fault, 4);
}

#[test]
fn finish_counts_missing_characters_once() {
    let mut p = Prompt::new(vec!['c', 'a', 't', 's']);
    p.type_char('c');
    p.type_char('a');
    assert_eq!(p.count_fault, 0);
    p.finish();
    assert_eq!(p.count_fault, 2);
    assert_eq!(p.count_correct, 2);
    assert!(p.prompt.is_empty());
    assert!(p.typed.is_empty());
}

#[test]
fn typing_past_the_end_is_a_fault() {
    let mut p = Prompt::new(vec!['h', 'i']);
    p.type_char('h');
    p.type_char('i');
    p.type_char('!');
    p.type_char('!');
    assert_eq!(p.count_correct, 2);
    assert_eq!(p.count_fault, 2);
}

#[test]
fn remove_on_empty_buffer_is_a_no_op() {
    let mut p = Prompt::new(vec!['a']);
    p.remove_char();
    assert_eq!(p.count_backspace, 0);
    assert_eq!(p.typed.len(), 0);
}

#[test]
fn typed_length_balances_appends_and_removals() {
    let mut p = Prompt::new(vec!['a', 'b', 'c']);
    p.type_char('a');
    p.type_char('x');
    p.remove_char();
    p.type_char('b');
    p.remove_char();
    p.remove_char();
    p.remove_char();
    // three appends, three successful removals, one no-op removal
    assert_eq!(p.typed.len(), 0);
    assert_eq!(p.count_backspace, 3);
    // classification is conserved: three submissions were judged
    assert_eq!(p.count_correct + p.count_fault, 3);
}

#[test]
fn accuracy_stays_in_unit_range() {
    let mut p = Prompt::new(vec!['a', 'b']);
    assert_eq!(accuracy(p.count_correct, p.count_fault), 1.0);
    p.type_char('x');
    let r = accuracy(p.count_correct, p.count_fault);
    assert!((0.0..=1.0).contains(&r));
    p.type_char('b');
    let r = accuracy(p.count_correct, p.count_fault);
    assert!((0.0..=1.0).contains(&r));
    assert_eq!(r, 0.5);
}

#[test]
fn set_rebinds_target_and_keeps_counters() {
    let mut p = Prompt::new(vec!['a']);
    p.type_char('a');
    p.finish();
    p.set(vec!['b', 'c']);
    assert_eq!(p.count_correct, 1);
    assert_eq!(p.prompt, vec!['b', 'c']);
    assert!(p.typed.is_empty());
    p.type_char('b');
    assert_eq!(p.count_correct, 2);
}

#[test]
fn count_missing_is_the_shortfall() {
    let mut p = Prompt::new(vec!['a', 'b', 'c']);
    assert_eq!(p.count_missing(), 3);
    p.type_char('a');
    assert_eq!(p.count_missing(), 2);
    p.type_char('b');
    p.type_char('c');
    p.type_char('d');
    assert_eq!(p.count_missing(), 0);
}
