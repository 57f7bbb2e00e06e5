//! Transition rules: what a rule reads, what it writes, where it moves the
//! head, and when it applies.

use vstd::prelude::*;
use crate::text::{chars_of, contains_char, same_text};

verus! {

/// Where the head goes after a rule has fired.
#[derive(Clone, Copy, Debug, PartialEq, Eq, Structural)]
pub enum Movement {
    Left,
    Right,
    Stay,
}

impl From<char> for Movement {
    /// `l` is left, `r` is right, any other character stays.
    fn from(c: char) -> (r: Self) {
        match c {
            'l' => Movement::Left,
            'r' => Movement::Right,
            _ => Movement::Stay,
        }
    }
}

impl vstd::std_specs::convert::FromSpecImpl<char> for Movement {
    open spec fn obeys_from_spec() -> bool {
        true
    }

    open spec fn from_spec(c: char) -> Self {
        movement_of(c)
    }
}

/// The movement that a character of a rule line stands for.
pub open spec fn movement_of(c: char) -> Movement {
    if c == 'l' {
        Movement::Left
    } else if c == 'r' {
        Movement::Right
    } else {
        Movement::Stay
    }
}

/// What a rule does to the cell under the head.
#[derive(Clone, Copy, Debug, PartialEq, Eq, Structural)]
pub enum WriteAction {
    /// Leave the cell as it is.
    NoOp,
    /// Make the cell blank.
    Delete,
    /// Put the symbol into the cell.
    Write(char),
}

/// The write action that a token of a rule line stands for.
pub open spec fn write_action_of(token: Seq<char>) -> WriteAction
    recommends
        token.len() > 0,
{
    if token == "none"@ {
        WriteAction::NoOp
    } else if token == "Delete"@ {
        WriteAction::Delete
    } else {
        WriteAction::Write(token[0])
    }
}

impl WriteAction {
    /// Reads a write action: `none` leaves the cell, `Delete` erases it, and
    /// any other token writes its first character.
    pub fn from_token(token: &str) -> (r: WriteAction)
        requires
            token@.len() > 0,
        ensures
            r == write_action_of(token@),
    {
        if same_text(token, "none") {
            WriteAction::NoOp
        } else if same_text(token, "Delete") {
            WriteAction::Delete
        } else {
            WriteAction::Write(token.get_char(0))
        }
    }
}

/// The mathematical content of a `ReadPattern`.
pub enum Pattern {
    Any,
    Empty,
    OneOf(Seq<char>),
}

/// Whether `pattern` accepts what the head reads: a symbol, or nothing on a
/// blank cell.
pub open spec fn pattern_matches(pattern: Pattern, read: Option<char>) -> bool {
    match pattern {
        Pattern::Any => read is Some,
        Pattern::Empty => read is None,
        Pattern::OneOf(symbols) => read is Some && symbols.contains(read->0),
    }
}

/// The pattern that a token of a rule line stands for.
pub open spec fn pattern_of(token: Seq<char>) -> Pattern {
    if token == "any"@ {
        Pattern::Any
    } else if token == "empty"@ {
        Pattern::Empty
    } else {
        Pattern::OneOf(token)
    }
}

/// The symbol behind an optional reference to a cell.
pub open spec fn symbol_of(cell: Option<&char>) -> Option<char> {
    match cell {
        Some(c) => Some(*c),
        None => None,
    }
}

/// A matcher over the cell under the head.
#[derive(Debug, PartialEq, Eq)]
pub enum ReadPattern {
    /// Any symbol, but not a blank cell.
    Any,
    /// A blank cell only.
    Empty,
    /// One of the listed symbols.
    OneOf(Vec<char>),
}

impl View for ReadPattern {
    type V = Pattern;

    open spec fn view(&self) -> Pattern {
        match self {
            ReadPattern::Any => Pattern::Any,
            ReadPattern::Empty => Pattern::Empty,
            ReadPattern::OneOf(symbols) => Pattern::OneOf(symbols@),
        }
    }
}

impl Clone for ReadPattern {
    fn clone(&self) -> (r: Self)
        ensures
            r@ == self@,
    {
        match self {
            ReadPattern::Any => ReadPattern::Any,
            ReadPattern::Empty => ReadPattern::Empty,
            ReadPattern::OneOf(symbols) => ReadPattern::OneOf(symbols.clone()),
        }
    }
}

impl ReadPattern {
    /// Whether the pattern accepts the cell `co`.
    pub fn matches(&self, co: Option<&char>) -> (r: bool)
        ensures
            r == pattern_matches(self@, symbol_of(co)),
    {
        match self {
            ReadPattern::Any => co.is_some(),
            ReadPattern::Empty => co.is_none(),
            ReadPattern::OneOf(symbols) => {
                if let Some(c) = co {
                    contains_char(symbols, *c)
                } else {
                    false
                }
            },
        }
    }

    /// Reads a pattern: `any`, `empty`, or the symbols of the token itself.
    pub fn from_token(token: &str) -> (r: ReadPattern)
        ensures
            r@ == pattern_of(token@),
    {
        if same_text(token, "any") {
            ReadPattern::Any
        } else if same_text(token, "empty") {
            ReadPattern::Empty
        } else {
            ReadPattern::OneOf(chars_of(token))
        }
    }
}

/// The mathematical content of a `Transition`.
pub struct Rule {
    pub from: Seq<char>,
    pub read: Pattern,
    pub write: WriteAction,
    pub movement: Movement,
    pub to: Seq<char>,
}

/// Whether `rule` may fire in `state` when the head reads `read`.
pub open spec fn rule_applies(rule: Rule, state: Seq<char>, read: Option<char>) -> bool {
    rule.from == state && pattern_matches(rule.read, read)
}

/// A state transition: source state, read pattern, write action, movement,
/// destination state.
#[derive(Debug, PartialEq, Eq)]
pub struct Transition(pub String, pub ReadPattern, pub WriteAction, pub Movement, pub String);

impl View for Transition {
    type V = Rule;

    open spec fn view(&self) -> Rule {
        Rule { from: self.0@, read: self.1@, write: self.2, movement: self.3, to: self.4@ }
    }
}

impl Clone for Transition {
    fn clone(&self) -> (r: Self)
        ensures
            r@ == self@,
    {
        Transition(self.0.clone(), self.1.clone(), self.2, self.3, self.4.clone())
    }
}

impl Transition {
    /// Whether the rule starts from `state`.
    pub fn filter_state(&self, state: &String) -> (r: bool)
        ensures
            r == (self@.from == state@),
    {
        self.0 == *state
    }

    /// Whether the rule's pattern accepts the cell `c`.
    pub fn filter_tape(&self, c: Option<&char>) -> (r: bool)
        ensures
            r == pattern_matches(self@.read, symbol_of(c)),
    {
        self.1.matches(c)
    }

    /// The rule that the five fields of a rule line stand for.
    pub fn from_fields(state: &str, read: &str, write: &str, movement: char, next_state: &str) -> (r:
        Transition)
        requires
            write@.len() > 0,
        ensures
            r@ == rule_of(state@, read@, write@, movement, next_state@),
    {
        Transition(
            state.to_owned(),
            ReadPattern::from_token(read),
            WriteAction::from_token(write),
            Movement::from(movement),
            next_state.to_owned(),
        )
    }
}

/// The rule that the five fields of a rule line stand for.
pub open spec fn rule_of(
    state: Seq<char>,
    read: Seq<char>,
    write: Seq<char>,
    movement: char,
    next_state: Seq<char>,
) -> Rule {
    Rule {
        from: state,
        read: pattern_of(read),
        write: write_action_of(write),
        movement: movement_of(movement),
        to: next_state,
    }
}

} // verus!
