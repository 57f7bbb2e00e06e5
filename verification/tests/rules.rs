use turing_machine::rule::{Movement, ReadPattern, Transition, WriteAction};

#[test]
fn movement_from_character() {
    assert_eq!(Movement::from('l'), Movement::Left);
    assert_eq!(Movement::from('r'), Movement::Right);
    assert_eq!(Movement::from('s'), Movement::Stay);
    assert_eq!(Movement::from('L'), Movement::Stay);
    assert_eq!(Movement::from('R'), Movement::Stay);
    assert_eq!(Movement::from(' '), Movement::Stay);
}

#[test]
fn write_action_from_token() {
    assert_eq!(WriteAction::from_token("none"), WriteAction::NoOp);
    assert_eq!(WriteAction::from_token("Delete"), WriteAction::Delete);
    assert_eq!(WriteAction::from_token("x"), WriteAction::Write('x'));
    assert_eq!(WriteAction::from_token("1"), WriteAction::Write('1'));
}

#[test]
fn write_action_keywords_are_exact() {
    assert_eq!(WriteAction::from_token("None"), WriteAction::Write('N'));
    assert_eq!(WriteAction::from_token("delete"), WriteAction::Write('d'));
    assert_eq!(WriteAction::from_token("nonee"), WriteAction::Write('n'));
    assert_eq!(WriteAction::from_token("non"), WriteAction::Write('n'));
}

#[test]
fn write_action_takes_the_first_character_of_a_longer_token() {
    assert_eq!(WriteAction::from_token("xyz"), WriteAction::Write('x'));
    assert_eq!(WriteAction::from_token("✓a"), WriteAction::Write('✓'));
}

#[test]
fn read_pattern_from_token() {
    assert_eq!(ReadPattern::from_token("any"), ReadPattern::Any);
    assert_eq!(ReadPattern::from_token("empty"), ReadPattern::Empty);
    assert_eq!(ReadPattern::from_token("01"), ReadPattern::OneOf(vec!['0', '1']));
    assert_eq!(ReadPattern::from_token("x"), ReadPattern::OneOf(vec!['x']));
}

#[test]
fn read_pattern_keywords_are_exact() {
    assert_eq!(ReadPattern::from_token("Any"), ReadPattern::OneOf(vec!['A', 'n', 'y']));
    assert_eq!(ReadPattern::from_token("an"), ReadPattern::OneOf(vec!['a', 'n']));
    assert_eq!(
        ReadPattern::from_token("anyy"),
        ReadPattern::OneOf(vec!['a', 'n', 'y', 'y'])
    );
    assert_eq!(
        ReadPattern::from_token("empt"),
        ReadPattern::OneOf(vec!['e', 'm', 'p', 't'])
    );
}

#[test]
fn any_matches_every_symbol_but_not_a_blank() {
    assert!(ReadPattern::Any.matches(Some(&'x')));
    assert!(ReadPattern::Any.matches(Some(&' ')));
    assert!(!ReadPattern::Any.matches(None));
}

#[test]
fn empty_matches_a_blank_only() {
    assert!(ReadPattern::Empty.matches(None));
    assert!(!ReadPattern::Empty.matches(Some(&'x')));
    assert!(!ReadPattern::Empty.matches(Some(&' ')));
}

#[test]
fn one_of_matches_its_symbols_only() {
    let pattern = ReadPattern::OneOf(vec!['a', 'b']);
    assert!(pattern.matches(Some(&'a')));
    assert!(pattern.matches(Some(&'b')));
    assert!(!pattern.matches(Some(&'c')));
    assert!(!pattern.matches(None));
}

#[test]
fn one_of_nothing_matches_nothing() {
    let pattern = ReadPattern::OneOf(vec![]);
    assert!(!pattern.matches(Some(&'a')));
    assert!(!pattern.matches(None));
}

#[test]
fn read_pattern_clone_is_equal() {
    let pattern = ReadPattern::OneOf(vec!['a', 'b']);
    assert_eq!(pattern.clone(), pattern);
    assert_eq!(ReadPattern::Any.clone(), ReadPattern::Any);
    assert_eq!(ReadPattern::Empty.clone(), ReadPattern::Empty);
}

fn sample() -> Transition {
    Transition(
        "q0".to_string(),
        ReadPattern::OneOf(vec!['0', '1']),
        WriteAction::Write('x'),
        Movement::Right,
        "q1".to_string(),
    )
}

#[test]
fn filter_state_compares_the_source_state() {
    let rule = sample();
    assert!(rule.filter_state(&"q0".to_string()));
    assert!(!rule.filter_state(&"q1".to_string()));
    assert!(!rule.filter_state(&"q".to_string()));
    assert!(!rule.filter_state(&"q00".to_string()));
    assert!(!rule.filter_state(&String::new()));
}

#[test]
fn filter_tape_applies_the_pattern() {
    let rule = sample();
    assert!(rule.filter_tape(Some(&'0')));
    assert!(rule.filter_tape(Some(&'1')));
    assert!(!rule.filter_tape(Some(&'2')));
    assert!(!rule.filter_tape(None));
}

#[test]
fn transition_clone_is_equal() {
    let rule = sample();
    assert_eq!(rule.clone(), rule);
}

#[test]
fn transition_from_fields() {
    let rule = Transition::from_fields("q0", "any", "none", 'r', "q0");
    assert_eq!(
        rule,
        Transition(
            "q0".to_string(),
            ReadPattern::Any,
            WriteAction::NoOp,
            Movement::Right,
            "q0".to_string()
        )
    );
    let other = Transition::from_fields("a", "xy", "Delete", 'l', "b");
    assert_eq!(
        other,
        Transition(
            "a".to_string(),
            ReadPattern::OneOf(vec!['x', 'y']),
            WriteAction::Delete,
            Movement::Left,
            "b".to_string()
        )
    );
    let third = Transition::from_fields("a", "empty", "z", '-', "a");
    assert_eq!(
        third,
        Transition(
            "a".to_string(),
            ReadPattern::Empty,
            WriteAction::Write('z'),
            Movement::Stay,
            "a".to_string()
        )
    );
}
