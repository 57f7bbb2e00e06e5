use turing_machine::loader::{parse_rule, LoadError, MachineDefinition};
use turing_machine::machine::{Run, RunEnd, TuringMachine};
use turing_machine::number::parse_offset;
use turing_machine::rule::{Movement, ReadPattern, Transition, WriteAction};

const SCANNER: &str = "tape: 1011\n\
tape_offset: 0\n\
alphabet: 01\n\
start_state: q0\n\
accepted_states: q0\n\
rule: q0 any none r q0\n";

fn q0_rule() -> Transition {
    Transition(
        "q0".to_string(),
        ReadPattern::Any,
        WriteAction::NoOp,
        Movement::Right,
        "q0".to_string(),
    )
}

#[test]
fn parse_reads_every_directive() {
    let def = MachineDefinition::parse(SCANNER).unwrap();
    assert_eq!(def.tape, "1011");
    assert_eq!(def.tape_offset, 0);
    assert_eq!(def.alphabet, "01");
    assert_eq!(def.start_state, "q0");
    assert_eq!(def.accepted_states, vec!["q0".to_string()]);
    assert_eq!(def.rules, vec![q0_rule()]);
}

#[test]
fn parse_of_an_empty_text_gives_the_blank_definition() {
    let def = MachineDefinition::parse("").unwrap();
    assert_eq!(def.tape, "");
    assert_eq!(def.tape_offset, 0);
    assert_eq!(def.alphabet, "");
    assert_eq!(def.start_state, "");
    assert!(def.accepted_states.is_empty());
    assert!(def.rules.is_empty());
}

#[test]
fn parse_without_a_final_newline() {
    let def = MachineDefinition::parse("start_state: a\ntape: xy").unwrap();
    assert_eq!(def.start_state, "a");
    assert_eq!(def.tape, "xy");
}

#[test]
fn parse_ignores_lines_without_a_colon_and_unknown_fields() {
    let def = MachineDefinition::parse(
        "a comment\n\nname: adder\ntape: 1\n# rule q any none r q\nTape: 2\n tape: 3\ntape : 4\n",
    )
    .unwrap();
    assert_eq!(def.tape, "1");
    assert!(def.rules.is_empty());
}

#[test]
fn parse_trims_the_value_but_not_the_field_name() {
    let def = MachineDefinition::parse("tape:\t  10 11 \u{a0}\u{2003}\nstart_state:q\r\n").unwrap();
    assert_eq!(def.tape, "10 11");
    assert_eq!(def.start_state, "q");
}

#[test]
fn parse_splits_at_the_first_colon() {
    let def = MachineDefinition::parse("tape: a:b:c\nstart_state::\n").unwrap();
    assert_eq!(def.tape, "a:b:c");
    assert_eq!(def.start_state, ":");
}

#[test]
fn parse_accepts_windows_line_endings() {
    let def = MachineDefinition::parse(
        "tape: 01\r\ntape_offset: -3\r\nrule: a any none l b\r\naccepted_states: b\r\n",
    )
    .unwrap();
    assert_eq!(def.tape, "01");
    assert_eq!(def.tape_offset, -3);
    assert_eq!(def.accepted_states, vec!["b".to_string()]);
    assert_eq!(
        def.rules,
        vec![Transition(
            "a".to_string(),
            ReadPattern::Any,
            WriteAction::NoOp,
            Movement::Left,
            "b".to_string()
        )]
    );
}

#[test]
fn parse_keeps_the_last_value_of_a_repeated_field() {
    let def = MachineDefinition::parse(
        "tape: 1\ntape: 22\nalphabet: a\nalphabet: b\nstart_state: x\nstart_state: y\ntape_offset: 1\ntape_offset: 2\n",
    )
    .unwrap();
    assert_eq!(def.tape, "22");
    assert_eq!(def.alphabet, "b");
    assert_eq!(def.start_state, "y");
    assert_eq!(def.tape_offset, 2);
}

#[test]
fn parse_collects_accepting_states_and_rules_in_order() {
    let def = MachineDefinition::parse(
        "accepted_states: one\nrule: a x y r b\naccepted_states: two\nrule: b empty Delete l a\naccepted_states: one\n",
    )
    .unwrap();
    assert_eq!(
        def.accepted_states,
        vec!["one".to_string(), "two".to_string(), "one".to_string()]
    );
    assert_eq!(
        def.rules,
        vec![
            Transition(
                "a".to_string(),
                ReadPattern::OneOf(vec!['x']),
                WriteAction::Write('y'),
                Movement::Right,
                "b".to_string()
            ),
            Transition(
                "b".to_string(),
                ReadPattern::Empty,
                WriteAction::Delete,
                Movement::Left,
                "a".to_string()
            ),
        ]
    );
}

#[test]
fn parse_rejects_a_malformed_offset() {
    assert_eq!(MachineDefinition::parse("tape_offset: x\n").err(), Some(LoadError::BadOffset));
    assert_eq!(MachineDefinition::parse("tape_offset:\n").err(), Some(LoadError::BadOffset));
    assert_eq!(MachineDefinition::parse("tape_offset: 1 2\n").err(), Some(LoadError::BadOffset));
    assert_eq!(
        MachineDefinition::parse("tape_offset: 2147483648\n").err(),
        Some(LoadError::BadOffset)
    );
}

#[test]
fn parse_rejects_a_malformed_rule() {
    assert_eq!(MachineDefinition::parse("rule: a b c d\n").err(), Some(LoadError::BadRule));
    assert_eq!(MachineDefinition::parse("rule:\n").err(), Some(LoadError::BadRule));
    assert_eq!(MachineDefinition::parse("rule: a b c dd e\n").err(), Some(LoadError::BadRule));
}

#[test]
fn parse_reports_the_first_error() {
    assert_eq!(
        MachineDefinition::parse("tape: 1\nrule: short\ntape_offset: x\n").err(),
        Some(LoadError::BadRule)
    );
    assert_eq!(
        MachineDefinition::parse("tape_offset: x\nrule: short\n").err(),
        Some(LoadError::BadOffset)
    );
}

#[test]
fn parse_rule_scans_five_fields() {
    assert_eq!(parse_rule("q0 any none r q0"), Ok(q0_rule()));
    assert_eq!(parse_rule("  q0\tany   none \u{3000} r\nq0  "), Ok(q0_rule()));
}

#[test]
fn parse_rule_reads_each_field() {
    assert_eq!(
        parse_rule("from 01 Delete l to"),
        Ok(Transition(
            "from".to_string(),
            ReadPattern::OneOf(vec!['0', '1']),
            WriteAction::Delete,
            Movement::Left,
            "to".to_string()
        ))
    );
    assert_eq!(
        parse_rule("a empty wxyz - b"),
        Ok(Transition(
            "a".to_string(),
            ReadPattern::Empty,
            WriteAction::Write('w'),
            Movement::Stay,
            "b".to_string()
        ))
    );
}

#[test]
fn parse_rule_ignores_what_follows_the_fifth_field() {
    assert_eq!(parse_rule("q0 any none r q0 and more words"), Ok(q0_rule()));
}

#[test]
fn parse_rule_rejects_missing_fields() {
    assert_eq!(parse_rule(""), Err(LoadError::BadRule));
    assert_eq!(parse_rule("   "), Err(LoadError::BadRule));
    assert_eq!(parse_rule("q0"), Err(LoadError::BadRule));
    assert_eq!(parse_rule("q0 any none r"), Err(LoadError::BadRule));
}

#[test]
fn parse_rule_rejects_a_movement_of_more_than_one_character() {
    assert_eq!(parse_rule("q0 any none right q0"), Err(LoadError::BadRule));
    assert_eq!(parse_rule("q0 any none rr q0"), Err(LoadError::BadRule));
}

#[test]
fn parse_rule_takes_a_movement_of_one_character_beyond_ascii() {
    assert_eq!(
        parse_rule("q0 any none \u{2192} q0").map(|t| t.3),
        Ok(Movement::Stay)
    );
}

#[test]
fn parse_offset_reads_decimal_integers() {
    assert_eq!(parse_offset("0"), Some(0));
    assert_eq!(parse_offset("7"), Some(7));
    assert_eq!(parse_offset("-42"), Some(-42));
    assert_eq!(parse_offset("+42"), Some(42));
    assert_eq!(parse_offset("007"), Some(7));
    assert_eq!(parse_offset("-0"), Some(0));
    assert_eq!(parse_offset("2147483647"), Some(i32::MAX));
    assert_eq!(parse_offset("-2147483648"), Some(i32::MIN));
    assert_eq!(parse_offset("0000000000000000000000000012"), Some(12));
}

#[test]
fn parse_offset_rejects_everything_else() {
    for text in [
        "", "+", "-", "--1", "+-1", "-+1", "1-", " 1", "1 ", "1_000", "1e3", "0x10", "1.0", "a",
        "2147483648", "-2147483649", "99999999999999999999999999", "-99999999999999999999999999",
        "\u{663}", "\u{ff11}", "1\u{663}",
    ] {
        assert_eq!(parse_offset(text), None, "{:?}", text);
    }
}

#[test]
fn parse_offset_agrees_with_the_standard_parser() {
    let mut samples: Vec<String> = Vec::new();
    for n in [-2147483648i64, -2147483647, -1000, -1, 0, 1, 9, 10, 99, 2147483646, 2147483647] {
        samples.push(n.to_string());
        samples.push(format!("+{}", n));
        samples.push(format!("0{}", n));
        samples.push(format!("{}0", n));
        samples.push(format!("{} ", n));
    }
    for n in [2147483648i64, 2147483649, -2147483649, 4294967296, 21474836470, -21474836480] {
        samples.push(n.to_string());
    }
    for text in samples {
        assert_eq!(parse_offset(&text), text.parse::<i32>().ok(), "{:?}", text);
    }
}

#[test]
fn from_source_builds_the_machine() {
    let tm = TuringMachine::from_source(SCANNER).unwrap();
    assert_eq!(tm.head(), 0);
    assert_eq!(tm.state(), "q0");
    assert_eq!(tm.tape().bounds(), (0, 3));
    assert_eq!(tm.tape().read(0), Some(&'1'));
    assert_eq!(tm.tape().read(1), Some(&'0'));
    assert_eq!(tm.tape().read(3), Some(&'1'));
    assert_eq!(tm.get_transition(), Some(q0_rule()));
    assert!(tm.is_accepting());
}

#[test]
fn example_scenario() {
    let mut tm = TuringMachine::from_source(SCANNER).unwrap();
    assert_eq!(tm.run_for(4), Run { steps: 4, end: RunEnd::Accepted });
    assert_eq!(tm.head(), 4);
    assert_eq!(tm.tape().read(4), None);
    assert_eq!(tm.state(), "q0");
}

#[test]
fn from_source_uses_the_offset_and_the_alphabet() {
    let tm = TuringMachine::from_source(
        "alphabet: ab\ntape: a.b\ntape_offset: -10\nstart_state: s\n",
    )
    .unwrap();
    assert_eq!(tm.tape().read(-10), Some(&'a'));
    assert_eq!(tm.tape().read(-9), None);
    assert_eq!(tm.tape().read(-8), Some(&'b'));
    assert_eq!(tm.tape().bounds(), (-10, -8));
    assert_eq!(tm.head(), 0);
    assert!(!tm.is_accepting());
}

#[test]
fn from_source_without_an_alphabet_loads_nothing() {
    let tm = TuringMachine::from_source("tape: 1011\nstart_state: q0\n").unwrap();
    assert_eq!(tm.tape().read(0), None);
    assert_eq!(tm.tape().bounds(), (0, 0));
}

#[test]
fn from_source_rejects_a_tape_out_of_reach() {
    assert_eq!(
        TuringMachine::from_source("tape: 11\nalphabet: 1\ntape_offset: 2147483647\n").err(),
        Some(LoadError::TapeOutOfReach)
    );
}

#[test]
fn from_source_passes_parse_errors_on() {
    assert_eq!(
        TuringMachine::from_source("tape_offset: nine\n").err(),
        Some(LoadError::BadOffset)
    );
    assert_eq!(
        TuringMachine::from_source("rule: q0 any none\n").err(),
        Some(LoadError::BadRule)
    );
}

#[test]
fn from_definition_takes_a_definition_built_by_hand() {
    let def = MachineDefinition {
        tape: "xx".to_string(),
        tape_offset: 1,
        alphabet: "x".to_string(),
        start_state: "go".to_string(),
        accepted_states: vec!["go".to_string()],
        rules: vec![],
    };
    let tm = TuringMachine::from_definition(def).unwrap();
    assert_eq!(tm.tape().bounds(), (1, 2));
    assert_eq!(tm.state(), "go");
    assert!(tm.is_accepting());
}

#[test]
fn loaded_rules_keep_their_order() {
    let mut tm = TuringMachine::from_source(
        "tape: x\nalphabet: x\nstart_state: q\nrule: q any none s qdone\nrule: q x y r q2\n",
    )
    .unwrap();
    assert_eq!(tm.run_for(10), Run { steps: 1, end: RunEnd::Rejected });
    assert_eq!(tm.state(), "qdone");
    assert_eq!(tm.head(), 0);
    assert_eq!(tm.tape().read(0), Some(&'x'));
}
