//! The machine: a tape, a head, a current state, the accepting states and the
//! ordered rule table, with the step semantics that the trace follows.

use vstd::prelude::*;
use crate::rule::{
    rule_applies,
    symbol_of,
    Movement,
    Rule,
    Transition,
    WriteAction,
};
use crate::tape::{Tape, TapeView};

verus! {

/// The mathematical content of a `TuringMachine`. Positions are unbounded
/// integers here: the tape of the model has no edge.
#[verifier::ext_equal]
pub struct Machine {
    pub tape: TapeView,
    pub head: int,
    pub state: Seq<char>,
    pub accepting: Seq<Seq<char>>,
    pub rules: Seq<Rule>,
}

impl Machine {
    /// What the head reads: the symbol under it, or `None` on a blank cell.
    pub open spec fn read(self) -> Option<char> {
        self.tape.read(self.head)
    }

    /// The index of the first rule at or after `from` that applies to the
    /// current state and cell.
    pub open spec fn first_match_from(self, from: int) -> Option<int>
        decreases self.rules.len() - from,
    {
        if from < 0 || from >= self.rules.len() {
            None
        } else if rule_applies(self.rules[from], self.state, self.read()) {
            Some(from)
        } else {
            self.first_match_from(from + 1)
        }
    }

    /// The rule that fires next: the first one, in the order of the table,
    /// that applies. `None` where no rule applies.
    pub open spec fn selected(self) -> Option<Rule> {
        match self.first_match_from(0) {
            Some(i) => Some(self.rules[i]),
            None => None,
        }
    }

    /// Whether the machine has halted: no rule applies.
    pub open spec fn halted(self) -> bool {
        self.selected() is None
    }

    /// Whether the machine accepts where it stands: the current state is one
    /// of the accepting states.
    pub open spec fn accepts(self) -> bool {
        self.accepting.contains(self.state)
    }

    /// The machine after `action` on the cell under the head.
    pub open spec fn written(self, action: WriteAction) -> Machine {
        Machine {
            tape: match action {
                WriteAction::Write(symbol) => self.tape.write(self.head, symbol),
                WriteAction::Delete => self.tape.erase(self.head),
                WriteAction::NoOp => self.tape,
            },
            ..self
        }
    }

    /// The machine after the head has moved. The displayed range grows where
    /// the head leaves it, and never shrinks.
    pub open spec fn moved(self, movement: Movement) -> Machine {
        match movement {
            Movement::Left => Machine {
                head: self.head - 1,
                tape: TapeView {
                    min_head: if self.head - 1 < self.tape.min_head {
                        self.head - 1
                    } else {
                        self.tape.min_head
                    },
                    ..self.tape
                },
                ..self
            },
            Movement::Right => Machine {
                head: self.head + 1,
                tape: TapeView {
                    max_head: if self.head + 1 > self.tape.max_head {
                        self.head + 1
                    } else {
                        self.tape.max_head
                    },
                    ..self.tape
                },
                ..self
            },
            Movement::Stay => self,
        }
    }

    /// The machine after `rule` has fired: the write, then the movement, then
    /// the change of state.
    pub open spec fn step(self, rule: Rule) -> Machine {
        Machine { state: rule.to, ..self.written(rule.write).moved(rule.movement) }
    }

    /// The machine one step later. A halted machine stays as it is.
    pub open spec fn next(self) -> Machine {
        match self.selected() {
            Some(rule) => self.step(rule),
            None => self,
        }
    }

    /// The machine `n` steps later.
    pub open spec fn after(self, n: nat) -> Machine
        decreases n,
    {
        if n == 0 {
            self
        } else {
            self.after((n - 1) as nat).next()
        }
    }

    /// Whether the displayed range covers the head and every written cell.
    pub open spec fn covered(self) -> bool {
        &&& self.tape.min_head <= self.head <= self.tape.max_head
        &&& forall|p: int|
            self.tape.cells.contains_key(p) ==> self.tape.min_head <= p <= self.tape.max_head
    }

    /// Whether the machine halts after `limit` steps at most: some prefix of
    /// its run, no longer than that, reaches a configuration to which no rule
    /// applies.
    pub open spec fn halts_within(self, limit: nat) -> bool {
        exists|n: nat| n <= limit && self.after(n).halted()
    }

    /// Whether the machine ever halts.
    pub open spec fn halts(self) -> bool {
        exists|n: nat| self.after(n).halted()
    }

    /// Whether the head stands on a position that a `Tape` can address.
    pub open spec fn in_range(self) -> bool {
        i32::MIN <= self.head <= i32::MAX
    }

    /// Whether `movement` would take the head off the positions that a `Tape`
    /// can address.
    pub open spec fn leaves_range(self, movement: Movement) -> bool {
        !self.moved(movement).in_range()
    }

    /// Whether the rule that fires next would take the head off the positions
    /// that a `Tape` can address.
    pub open spec fn blocked(self) -> bool {
        self.selected() matches Some(rule) && self.leaves_range(rule.movement)
    }

    /// Whether a run of `limit` steps at most, started from this machine,
    /// ends as `run` says and leaves the machine `end`.
    ///
    /// The run fires one rule after the other and stops at the first
    /// configuration that is halted or blocked, or else after `limit` steps.
    /// It ends `Accepted` or `Rejected` exactly when the machine halts within
    /// `limit` steps and is not blocked before, and the verdict is `Accepted`
    /// exactly when the state in which it halted is an accepting state.
    pub open spec fn runs_to(self, limit: nat, run: Run, end: Machine) -> bool {
        &&& run.steps <= limit
        &&& end == self.after(run.steps as nat)
        &&& forall|k: nat|
            k < run.steps ==> !(#[trigger] self.after(k)).halted() && !self.after(k).blocked()
        &&& run.end is Accepted || run.end is Rejected ==> self.halts_within(limit)
        &&& run.end is StepLimit ==> !self.halts_within(limit)
        &&& match run.end {
            RunEnd::Accepted => end.halted() && end.accepts(),
            RunEnd::Rejected => end.halted() && !end.accepts(),
            RunEnd::TapeEdge => end.blocked(),
            RunEnd::StepLimit => run.steps == limit && !end.halted() && !end.blocked(),
        }
    }
}

/// The names held by a list of strings.
pub open spec fn names_of(names: Seq<String>) -> Seq<Seq<char>> {
    names.map_values(|name: String| name@)
}

/// The rules held by a list of transitions.
pub open spec fn rules_of(transitions: Seq<Transition>) -> Seq<Rule> {
    transitions.map_values(|transition: Transition| transition@)
}

/// What one call of `advance` did.
#[derive(Clone, Copy, Debug, PartialEq, Eq, Structural)]
pub enum Advance {
    /// A rule fired.
    Stepped,
    /// No rule applies: the machine has halted.
    Halted,
    /// The rule that applies would take the head off the tape's positions.
    /// Nothing was changed.
    Blocked,
}

/// How a bounded run ended.
#[derive(Clone, Copy, Debug, PartialEq, Eq, Structural)]
pub enum RunEnd {
    /// The machine halted in an accepting state.
    Accepted,
    /// The machine halted in a state that is not accepting.
    Rejected,
    /// The machine was still running when the step limit was reached.
    StepLimit,
    /// The rule that applies would take the head off the tape's positions.
    TapeEdge,
}

/// The result of a bounded run: how many rules fired, and how it ended.
#[derive(Clone, Copy, Debug, PartialEq, Eq, Structural)]
pub struct Run {
    pub steps: u64,
    pub end: RunEnd,
}

/// A single-tape Turing machine in the middle of its run.
pub struct TuringMachine {
    tape: Tape,
    head: i32,
    state: String,
    accepting_states: Vec<String>,
    transitions: Vec<Transition>,
}

impl View for TuringMachine {
    type V = Machine;

    closed spec fn view(&self) -> Machine {
        Machine {
            tape: self.tape@,
            head: self.head as int,
            state: self.state@,
            accepting: names_of(self.accepting_states@),
            rules: rules_of(self.transitions@),
        }
    }
}

impl Default for TuringMachine {
    /// A machine with a blank tape, no rules and no accepting states, in the
    /// state whose name is empty.
    fn default() -> (r: TuringMachine)
        ensures
            r@ == (Machine {
                tape: TapeView { cells: Map::empty(), min_head: 0, max_head: 0 },
                head: 0,
                state: Seq::empty(),
                accepting: Seq::empty(),
                rules: Seq::empty(),
            }),
    {
        let r = TuringMachine::new(Tape::new(), String::new(), Vec::new(), Vec::new());
        r
    }
}

impl TuringMachine {
    /// A machine at the start of its run: the head on position 0, in
    /// `start_state`.
    pub fn new(
        tape: Tape,
        start_state: String,
        accepting_states: Vec<String>,
        transitions: Vec<Transition>,
    ) -> (r: TuringMachine)
        ensures
            r@ == (Machine {
                tape: tape@,
                head: 0,
                state: start_state@,
                accepting: names_of(accepting_states@),
                rules: rules_of(transitions@),
            }),
    {
        TuringMachine { tape, head: 0, state: start_state, accepting_states, transitions }
    }

    /// The position of the head.
    pub fn head(&self) -> (r: i32)
        ensures
            r == self@.head,
    {
        self.head
    }

    /// The current state.
    pub fn state(&self) -> (r: &String)
        ensures
            r@ == self@.state,
    {
        &self.state
    }

    /// The tape.
    pub fn tape(&self) -> (r: &Tape)
        ensures
            r@ == self@.tape,
    {
        &self.tape
    }

    /// The rule that fires next: the first rule of the table whose source
    /// state is the current state and whose pattern accepts the cell under
    /// the head. `None` where no rule applies.
    pub fn get_transition(&self) -> (r: Option<Transition>)
        ensures
            match r {
                Some(transition) => self@.selected() == Some(transition@),
                None => self@.selected() is None,
            },
    {
        let read = self.tape.read(self.head);
        let mut i: usize = 0;
        while i < self.transitions.len()
            invariant
                i <= self.transitions@.len(),
                symbol_of(read) == self@.read(),
                self@.first_match_from(0) == self@.first_match_from(i as int),
            decreases self.transitions@.len() - i,
        {
            let transition = &self.transitions[i];
            if transition.filter_state(&self.state) && transition.filter_tape(read) {
                return Some(transition.clone());
            }
            i += 1;
        }
        None
    }

    /// Whether `movement` would take the head off the positions that the tape
    /// can address.
    pub fn at_edge(&self, movement: &Movement) -> (r: bool)
        ensures
            r == self@.leaves_range(*movement),
    {
        match movement {
            Movement::Left => self.head == i32::MIN,
            Movement::Right => self.head == i32::MAX,
            Movement::Stay => false,
        }
    }

    /// Whether the current state is one of the accepting states.
    pub fn is_accepting(&self) -> (r: bool)
        ensures
            r == self@.accepts(),
    {
        let mut i: usize = 0;
        while i < self.accepting_states.len()
            invariant
                i <= self.accepting_states@.len(),
                forall|j: int| 0 <= j < i ==> self@.accepting[j] != self@.state,
            decreases self.accepting_states@.len() - i,
        {
            if self.accepting_states[i] == self.state {
                assert(self@.accepting[i as int] == self@.state);
                return true;
            }
            i += 1;
        }
        false
    }

    /// Looks up the rule that applies and fires it. Changes nothing where no
    /// rule applies, or where the rule would take the head off the positions
    /// that the tape can address.
    pub fn advance(&mut self) -> (r: Advance)
        ensures
            match r {
                Advance::Stepped => {
                    &&& !old(self)@.halted()
                    &&& !old(self)@.blocked()
                    &&& final(self)@ == old(self)@.next()
                },
                Advance::Halted => old(self)@.halted() && final(self)@ == old(self)@,
                Advance::Blocked => old(self)@.blocked() && final(self)@ == old(self)@,
            },
    {
        match self.get_transition() {
            None => Advance::Halted,
            Some(transition) => {
                if self.at_edge(&transition.3) {
                    Advance::Blocked
                } else {
                    self.step(transition);
                    Advance::Stepped
                }
            },
        }
    }

    /// Runs the machine until it halts, but for `limit` steps at most. The
    /// machine is left where the run ended. The verdict is `Accepted` exactly
    /// when the machine halted in an accepting state, whatever states it
    /// passed through before.
    pub fn run_for(&mut self, limit: u64) -> (r: Run)
        ensures
            old(self)@.runs_to(limit as nat, r, final(self)@),
    {
        let mut steps: u64 = 0;
        loop
            invariant
                steps <= limit,
                self@ == old(self)@.after(steps as nat),
                forall|k: nat|
                    k < steps ==> !(#[trigger] old(self)@.after(k)).halted() && !old(self)@.after(
                        k,
                    ).blocked(),
            decreases limit - steps,
        {
            match self.get_transition() {
                None => {
                    let end = if self.is_accepting() {
                        RunEnd::Accepted
                    } else {
                        RunEnd::Rejected
                    };
                    return Run { steps, end };
                },
                Some(transition) => {
                    if self.at_edge(&transition.3) {
                        return Run { steps, end: RunEnd::TapeEdge };
                    }
                    if steps == limit {
                        return Run { steps, end: RunEnd::StepLimit };
                    }
                    self.step(transition);
                    steps += 1;
                },
            }
        }
    }

    /// Moves the head one cell, or leaves it. Where the head leaves the
    /// displayed range, the range grows to hold it.
    pub fn move_head(&mut self, movement: &Movement)
        requires
            !old(self)@.leaves_range(*movement),
        ensures
            final(self)@ == old(self)@.moved(*movement),
    {
        match movement {
            Movement::Left => {
                self.head = self.head - 1;
                let (lo, _) = self.tape.bounds();
                if self.head < lo {
                    self.tape.visit(self.head);
                }
            },
            Movement::Right => {
                self.head = self.head + 1;
                let (_, hi) = self.tape.bounds();
                if self.head > hi {
                    self.tape.visit(self.head);
                }
            },
            Movement::Stay => (),
        }
    }

    /// Fires `transition`: writes the cell under the head, moves the head,
    /// and enters the destination state.
    pub fn step(&mut self, transition: Transition)
        requires
            !old(self)@.leaves_range(transition@.movement),
        ensures
            final(self)@ == old(self)@.step(transition@),
    {
        match transition.2 {
            WriteAction::Write(c) => {
                self.tape.write(self.head, c);
            },
            WriteAction::Delete => {
                self.tape.erase(self.head);
            },
            WriteAction::NoOp => {},
        }
        self.move_head(&transition.3);
        self.state = transition.4;
    }
}

} // verus!
