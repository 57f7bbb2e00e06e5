//! The textual definition of a machine: one `field: value` directive per
//! line.

use vstd::prelude::*;
use crate::machine::{names_of, rules_of, Machine, TuringMachine};
use crate::number::{offset_of, parse_offset};
use crate::rule::{rule_of, Rule, Transition};
use crate::scan::{lemma_words_not_empty, scan_fields, scanned_fields};
use crate::tape::{in_reach, loaded_cells, spans, Tape};
use crate::text::{chars_of, find_char, range_is, string_of, trim_range, trimmed, until};

verus! {

/// Why a definition could not be loaded.
#[derive(Clone, Copy, Debug, PartialEq, Eq, Structural)]
pub enum LoadError {
    /// The value of a `tape_offset` line is not an integer that fits a tape
    /// position.
    BadOffset,
    /// The value of a `rule` line does not scan into the five fields of a
    /// rule.
    BadRule,
    /// A symbol of the initial tape would stand beyond the greatest position
    /// that a tape can address.
    TapeOutOfReach,
}

/// The mathematical content of a `MachineDefinition`.
#[verifier::ext_equal]
pub struct Definition {
    pub tape: Seq<char>,
    pub tape_offset: int,
    pub alphabet: Seq<char>,
    pub start_state: Seq<char>,
    pub accepted_states: Seq<Seq<char>>,
    pub rules: Seq<Rule>,
}

/// A machine as its definition describes it, before its tape is loaded.
pub struct MachineDefinition {
    /// The initial tape contents, left to right.
    pub tape: String,
    /// The position of the first character of `tape`.
    pub tape_offset: i32,
    /// The characters of `tape` that are loaded; the others leave their cell
    /// blank.
    pub alphabet: String,
    /// The state in which the machine starts.
    pub start_state: String,
    /// The accepting states.
    pub accepted_states: Vec<String>,
    /// The rules, in the order in which they were declared.
    pub rules: Vec<Transition>,
}

impl View for MachineDefinition {
    type V = Definition;

    open spec fn view(&self) -> Definition {
        Definition {
            tape: self.tape@,
            tape_offset: self.tape_offset as int,
            alphabet: self.alphabet@,
            start_state: self.start_state@,
            accepted_states: names_of(self.accepted_states@),
            rules: rules_of(self.rules@),
        }
    }
}

/// The definition that an empty text gives.
pub open spec fn blank_definition() -> Definition {
    Definition {
        tape: Seq::empty(),
        tape_offset: 0,
        alphabet: Seq::empty(),
        start_state: Seq::empty(),
        accepted_states: Seq::empty(),
        rules: Seq::empty(),
    }
}

/// The rule that the value of a `rule` line stands for: source state, read
/// pattern, write action, movement character, destination state.
pub open spec fn rule_line(value: Seq<char>) -> Option<Rule> {
    match scanned_fields(value) {
        Some(fields) => Some(rule_of(fields.0, fields.1, fields.2, fields.3, fields.4)),
        None => None,
    }
}

/// What one line adds to a definition. The field name is what stands before
/// the first colon, as it is; the value is what stands after it, without the
/// whitespace at either end. A line without a colon, or with a name that is
/// none of the six, adds nothing.
pub open spec fn load_line(d: Definition, line: Seq<char>) -> Result<Definition, LoadError> {
    let colon = until(line, ':') as int;
    if colon >= line.len() {
        Ok(d)
    } else {
        let field = line.take(colon);
        let value = trimmed(line.skip(colon + 1));
        if field == "tape"@ {
            Ok(Definition { tape: value, ..d })
        } else if field == "tape_offset"@ {
            match offset_of(value) {
                Some(offset) => Ok(Definition { tape_offset: offset, ..d }),
                None => Err(LoadError::BadOffset),
            }
        } else if field == "start_state"@ {
            Ok(Definition { start_state: value, ..d })
        } else if field == "accepted_states"@ {
            Ok(Definition { accepted_states: d.accepted_states.push(value), ..d })
        } else if field == "rule"@ {
            match rule_line(value) {
                Some(rule) => Ok(Definition { rules: d.rules.push(rule), ..d }),
                None => Err(LoadError::BadRule),
            }
        } else if field == "alphabet"@ {
            Ok(Definition { alphabet: value, ..d })
        } else {
            Ok(d)
        }
    }
}

/// The lines of a text: the pieces between its newlines. A newline at the end
/// of the text starts no further line.
pub open spec fn lines(s: Seq<char>) -> Seq<Seq<char>>
    decreases s.len(),
{
    if s.len() == 0 {
        Seq::empty()
    } else if until(s, '\n') >= s.len() {
        seq![s]
    } else {
        seq![s.take(until(s, '\n') as int)] + lines(s.skip(until(s, '\n') as int + 1))
    }
}

/// What the lines add to a definition, one after the other. The first line
/// that fails decides the error.
pub open spec fn load_lines(d: Definition, lines: Seq<Seq<char>>) -> Result<Definition, LoadError>
    decreases lines.len(),
{
    if lines.len() == 0 {
        Ok(d)
    } else {
        match load_line(d, lines[0]) {
            Ok(next) => load_lines(next, lines.drop_first()),
            Err(e) => Err(e),
        }
    }
}

/// The definition that a text describes.
pub open spec fn definition_of(source: Seq<char>) -> Result<Definition, LoadError> {
    load_lines(blank_definition(), lines(source))
}

/// Whether `machine` is the machine that `d` describes, at the start of its
/// run: the tape loaded, the displayed range spanning what was written, the
/// head on position 0.
pub open spec fn starts_from(machine: Machine, d: Definition) -> bool {
    &&& machine.tape.cells == loaded_cells(d.tape, d.tape_offset, d.alphabet)
    &&& spans(machine.tape.cells, machine.tape.min_head, machine.tape.max_head)
    &&& machine.head == 0
    &&& machine.state == d.start_state
    &&& machine.accepting == d.accepted_states
    &&& machine.rules == d.rules
}

/// Reads the value of a `rule` line.
pub fn parse_rule(value: &str) -> (r: Result<Transition, LoadError>)
    ensures
        match rule_line(value@) {
            Some(rule) => r matches Ok(transition) && transition@ == rule,
            None => r matches Err(e) && e == LoadError::BadRule,
        },
{
    match scan_fields(value) {
        Ok(fields) => {
            proof {
                lemma_words_not_empty(value@);
            }
            Ok(Transition::from_fields(fields.0, fields.1, fields.2, fields.3, fields.4))
        },
        Err(_) => Err(LoadError::BadRule),
    }
}

/// Adds the line `chars[from..to]` to `def`.
fn add_line(def: MachineDefinition, chars: &Vec<char>, from: usize, to: usize) -> (r: Result<
    MachineDefinition,
    LoadError,
>)
    requires
        from <= to <= chars@.len(),
    ensures
        match load_line(def@, chars@.subrange(from as int, to as int)) {
            Ok(d) => r matches Ok(next) && next@ == d,
            Err(e) => r matches Err(x) && x == e,
        },
{
    let ghost line = chars@.subrange(from as int, to as int);
    let colon = find_char(chars, from, to, ':');
    if colon == to {
        return Ok(def);
    }
    let (start, end) = trim_range(chars, colon + 1, to);
    let value = string_of(chars, start, end);
    proof {
        assert(line.take(colon - from) =~= chars@.subrange(from as int, colon as int));
        assert(line.skip(colon - from + 1) =~= chars@.subrange(colon + 1, to as int));
    }
    let mut def = def;
    if range_is(chars, from, colon, "tape") {
        def.tape = value;
        Ok(def)
    } else if range_is(chars, from, colon, "tape_offset") {
        match parse_offset(value.as_str()) {
            Some(offset) => {
                def.tape_offset = offset;
                Ok(def)
            },
            None => Err(LoadError::BadOffset),
        }
    } else if range_is(chars, from, colon, "start_state") {
        def.start_state = value;
        Ok(def)
    } else if range_is(chars, from, colon, "accepted_states") {
        let ghost before = def.accepted_states@;
        def.accepted_states.push(value);
        assert(names_of(def.accepted_states@) =~= names_of(before).push(value@));
        Ok(def)
    } else if range_is(chars, from, colon, "rule") {
        match parse_rule(value.as_str()) {
            Ok(transition) => {
                let ghost before = def.rules@;
                def.rules.push(transition);
                assert(rules_of(def.rules@) =~= rules_of(before).push(transition@));
                Ok(def)
            },
            Err(e) => Err(e),
        }
    } else if range_is(chars, from, colon, "alphabet") {
        def.alphabet = value;
        Ok(def)
    } else {
        Ok(def)
    }
}

impl MachineDefinition {
    /// Reads a definition, line by line.
    pub fn parse(source: &str) -> (r: Result<MachineDefinition, LoadError>)
        ensures
            match definition_of(source@) {
                Ok(d) => r matches Ok(def) && def@ == d,
                Err(e) => r matches Err(x) && x == e,
            },
    {
        let chars = chars_of(source);
        let mut def = MachineDefinition {
            tape: String::new(),
            tape_offset: 0,
            alphabet: String::new(),
            start_state: String::new(),
            accepted_states: Vec::new(),
            rules: Vec::new(),
        };
        assert(def@ =~= blank_definition());
        assert(chars@.skip(0) =~= source@);
        let mut start: usize = 0;
        while start < chars.len()
            invariant
                start <= chars@.len(),
                chars@ == source@,
                definition_of(source@) == load_lines(def@, lines(chars@.skip(start as int))),
            decreases chars@.len() - start,
        {
            let end = find_char(&chars, start, chars.len(), '\n');
            let ghost rest = chars@.skip(start as int);
            proof {
                assert(rest.take(end - start) =~= chars@.subrange(start as int, end as int));
                if end < chars.len() {
                    assert(rest.skip(end - start + 1) =~= chars@.skip(end + 1));
                    assert(lines(rest).drop_first() =~= lines(chars@.skip(end + 1)));
                } else {
                    assert(rest.take(end - start) =~= rest);
                    assert(lines(rest).drop_first() =~= Seq::<Seq<char>>::empty());
                    assert(chars@.skip(chars@.len() as int) =~= Seq::<char>::empty());
                }
            }
            match add_line(def, &chars, start, end) {
                Ok(next) => {
                    def = next;
                },
                Err(e) => {
                    return Err(e);
                },
            }
            start = if end < chars.len() {
                end + 1
            } else {
                end
            };
        }
        Ok(def)
    }
}

impl TuringMachine {
    /// The machine that `def` describes, at the start of its run. Fails where
    /// a symbol of the initial tape would stand beyond the greatest position
    /// that a tape can address.
    pub fn from_definition(def: MachineDefinition) -> (r: Result<TuringMachine, LoadError>)
        ensures
            match r {
                Ok(machine) => {
                    &&& in_reach(def@.tape, def@.tape_offset, def@.alphabet)
                    &&& starts_from(machine@, def@)
                },
                Err(e) => {
                    &&& e == LoadError::TapeOutOfReach
                    &&& !in_reach(def@.tape, def@.tape_offset, def@.alphabet)
                },
            },
    {
        match Tape::load(def.tape.as_str(), def.tape_offset, def.alphabet.as_str()) {
            Some(tape) => Ok(
                TuringMachine::new(tape, def.start_state, def.accepted_states, def.rules),
            ),
            None => Err(LoadError::TapeOutOfReach),
        }
    }

    /// Reads a definition and builds the machine that it describes, at the
    /// start of its run.
    pub fn from_source(source: &str) -> (r: Result<TuringMachine, LoadError>)
        ensures
            match definition_of(source@) {
                Ok(d) => if in_reach(d.tape, d.tape_offset, d.alphabet) {
                    r matches Ok(machine) && starts_from(machine@, d)
                } else {
                    r matches Err(e) && e == LoadError::TapeOutOfReach
                },
                Err(e) => r matches Err(x) && x == e,
            },
    {
        match MachineDefinition::parse(source) {
            Ok(def) => TuringMachine::from_definition(def),
            Err(e) => Err(e),
        }
    }
}

} // verus!
