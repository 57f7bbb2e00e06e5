//! The trace: how a machine is shown before each step.

use vstd::prelude::*;
use vstd::string::StringExecFns;
use crate::machine::{Machine, Run, RunEnd, TuringMachine};

verus! {

/// How the cell at `position` is shown: its symbol, or a space where it is
/// blank.
pub open spec fn glyph(machine: Machine, position: int) -> char {
    match machine.tape.read(position) {
        Some(symbol) => symbol,
        None => ' ',
    }
}

/// The number of cells inside the displayed range.
pub open spec fn width(machine: Machine) -> nat {
    if machine.tape.max_head >= machine.tape.min_head {
        (machine.tape.max_head - machine.tape.min_head + 1) as nat
    } else {
        0
    }
}

/// The cells of the displayed range, from its least to its greatest position.
pub open spec fn tape_line(machine: Machine) -> Seq<char> {
    Seq::new(width(machine), |i: int| glyph(machine, machine.tape.min_head + i))
}

/// The distance between the head and the least displayed position.
pub open spec fn indent(machine: Machine) -> nat {
    if machine.head >= machine.tape.min_head {
        (machine.head - machine.tape.min_head) as nat
    } else {
        (machine.tape.min_head - machine.head) as nat
    }
}

/// The two lines of the trace: the displayed cells, a colon and the current
/// state; then, under the cell whose distance from the least displayed
/// position is that of the head, the head marker.
pub open spec fn trace(machine: Machine) -> Seq<char> {
    tape_line(machine) + seq![':'] + machine.state + seq!['\n'] + Seq::new(
        indent(machine),
        |i: int| ' ',
    ) + "^head"@
}

impl TuringMachine {
    /// The trace of the machine as it stands.
    pub fn render(&self) -> (r: String)
        ensures
            r@ == trace(self@),
    {
        let (lo, hi) = self.tape().bounds();
        let mut out = String::new();
        let mut k: i64 = lo as i64;
        while k <= hi as i64
            invariant
                lo == self@.tape.min_head,
                hi == self@.tape.max_head,
                lo <= k <= hi + 1,
                out@ == Seq::new((k - lo) as nat, |i: int| glyph(self@, lo + i)),
            decreases hi + 1 - k,
        {
            let shown = match self.tape().read(k as i32) {
                Some(symbol) => *symbol,
                None => ' ',
            };
            out.push(shown);
            assert(out@ =~= Seq::new((k + 1 - lo) as nat, |i: int| glyph(self@, lo + i)));
            k += 1;
        }
        assert(out@ =~= tape_line(self@));
        out.push(':');
        out.append(self.state().as_str());
        out.push('\n');
        let ghost head_line = out@;
        let head = self.head();
        let distance: i64 = if head >= lo {
            head as i64 - lo as i64
        } else {
            lo as i64 - head as i64
        };
        let mut n: i64 = 0;
        while n < distance
            invariant
                0 <= n <= distance,
                out@ == head_line + Seq::new(n as nat, |i: int| ' '),
            decreases distance - n,
        {
            out.push(' ');
            assert(out@ =~= head_line + Seq::new((n + 1) as nat, |i: int| ' '));
            n += 1;
        }
        out.append("^head");
        out
    }

    /// Runs the machine as `run_for` does and collects the trace: one entry
    /// for each configuration of the run, taken before the rule fires, in the
    /// order of the run. The last entry shows the machine where the run
    /// ended.
    pub fn run_traced(&mut self, limit: u64) -> (r: (Vec<String>, Run))
        ensures
            old(self)@.runs_to(limit as nat, r.1, final(self)@),
            r.0@.len() == r.1.steps + 1,
            forall|k: nat|
                k <= r.1.steps ==> (#[trigger] r.0@[k as int])@ == trace(old(self)@.after(k)),
    {
        let mut entries: Vec<String> = Vec::new();
        let mut steps: u64 = 0;
        loop
            invariant
                steps <= limit,
                self@ == old(self)@.after(steps as nat),
                forall|k: nat|
                    k < steps ==> !(#[trigger] old(self)@.after(k)).halted() && !old(self)@.after(
                        k,
                    ).blocked(),
                entries@.len() == steps,
                forall|k: nat|
                    k < steps ==> (#[trigger] entries@[k as int])@ == trace(old(self)@.after(k)),
            decreases limit - steps,
        {
            entries.push(self.render());
            match self.get_transition() {
                None => {
                    let end = if self.is_accepting() {
                        RunEnd::Accepted
                    } else {
                        RunEnd::Rejected
                    };
                    return (entries, Run { steps, end });
                },
                Some(transition) => {
                    if self.at_edge(&transition.3) {
                        return (entries, Run { steps, end: RunEnd::TapeEdge });
                    }
                    if steps == limit {
                        return (entries, Run { steps, end: RunEnd::StepLimit });
                    }
                    self.step(transition);
                    steps += 1;
                },
            }
        }
    }
}

} // verus!
