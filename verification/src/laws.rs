//! What holds of every machine, stated over the model and proved.

use vstd::prelude::*;
use crate::machine::{Machine, Run};
use crate::rule::{rule_applies, Movement, WriteAction};

verus! {

/// The rule found from `from` on is the first that applies: it applies, and
/// none between `from` and it does. Where none is found, none applies.
pub proof fn lemma_first_match(m: Machine, from: int)
    requires
        0 <= from,
    ensures
        match m.first_match_from(from) {
            Some(k) => {
                &&& from <= k < m.rules.len()
                &&& rule_applies(m.rules[k], m.state, m.read())
                &&& forall|j: int| from <= j < k ==> !rule_applies(m.rules[j], m.state, m.read())
            },
            None => forall|j: int|
                from <= j < m.rules.len() ==> !rule_applies(m.rules[j], m.state, m.read()),
        },
    decreases m.rules.len() - from,
{
    if from < m.rules.len() && !rule_applies(m.rules[from], m.state, m.read()) {
        lemma_first_match(m, from + 1);
    }
}

/// First match wins: where two rules both apply to the current state and
/// cell, the one declared later does not fire. The rule that fires is
/// declared no later than the earlier of the two, and is the earlier one
/// itself where no rule before it applies.
pub proof fn lemma_earlier_rule_wins(m: Machine, earlier: int, later: int)
    requires
        0 <= earlier < later < m.rules.len(),
        rule_applies(m.rules[earlier], m.state, m.read()),
        rule_applies(m.rules[later], m.state, m.read()),
    ensures
        m.first_match_from(0) matches Some(k) && k <= earlier,
        m.first_match_from(0) != Some(later),
        (forall|j: int| 0 <= j < earlier ==> !rule_applies(m.rules[j], m.state, m.read()))
            ==> m.selected() == Some(m.rules[earlier]),
        !m.halted(),
{
    lemma_first_match(m, 0);
}

/// A rule fires exactly when it is the first of the table that applies.
pub proof fn lemma_selected_is_first(m: Machine, k: int)
    ensures
        m.first_match_from(0) == Some(k) <==> {
            &&& 0 <= k < m.rules.len()
            &&& rule_applies(m.rules[k], m.state, m.read())
            &&& forall|j: int| 0 <= j < k ==> !rule_applies(m.rules[j], m.state, m.read())
        },
{
    lemma_first_match(m, 0);
}

/// A state that no rule starts from is terminal: a machine in it has halted,
/// whatever the head reads.
pub proof fn lemma_unlisted_state_is_terminal(m: Machine)
    requires
        forall|i: int| 0 <= i < m.rules.len() ==> m.rules[i].from != m.state,
    ensures
        m.halted(),
{
    lemma_first_match(m, 0);
}

/// A halted machine stays as it is: every configuration after the one in
/// which no rule applied is that configuration.
pub proof fn lemma_halted_stays(m: Machine, n: nat, k: nat)
    requires
        m.after(n).halted(),
        n <= k,
    ensures
        m.after(k) == m.after(n),
    decreases k - n,
{
    if n < k {
        lemma_halted_stays(m, n, (k - 1) as nat);
    }
}

/// A run has ended after `limit` steps exactly when some prefix of at most
/// `limit` steps reaches a configuration to which no rule applies.
pub proof fn lemma_halts_iff_prefix_halts(m: Machine, limit: nat)
    ensures
        m.after(limit).halted() <==> m.halts_within(limit),
{
    if m.halts_within(limit) {
        let n = choose|n: nat| n <= limit && m.after(n).halted();
        lemma_halted_stays(m, n, limit);
    }
}

/// A run goes on exactly as long as a rule applies: from a configuration to
/// which a rule applies the next one is that rule's step, and from one to
/// which none applies nothing changes any more.
pub proof fn lemma_run_ends_at_first_halt(m: Machine, n: nat)
    ensures
        !m.after(n).halted() ==> m.after(n + 1) == m.after(n).step(m.after(n).selected()->0),
        m.after(n).halted() ==> m.after(n + 1) == m.after(n) && m.halts(),
        !m.halts() ==> !m.after(n).halted(),
{
    assert(m.after(n + 1) == m.after(n).next());
}

/// A bounded run reports the halt whenever there is one to report: where the
/// machine halts after `n` steps, is not blocked on the way and `n` is within
/// the limit, the run ends in the halted configuration with a verdict.
pub proof fn lemma_run_reaches_the_halt(m: Machine, limit: nat, run: Run, end: Machine, n: nat)
    requires
        m.runs_to(limit, run, end),
        n <= limit,
        m.after(n).halted(),
        forall|k: nat| k <= n ==> !(#[trigger] m.after(k)).blocked(),
    ensures
        run.end is Accepted || run.end is Rejected,
        run.steps <= n,
        end == m.after(n),
        run.end is Accepted <==> m.after(n).accepts(),
{
    if run.steps > n {
        assert(!m.after(n).halted());
    }
    assert(!m.after(run.steps as nat).blocked());
    lemma_halted_stays(m, run.steps as nat, n);
}

/// A bounded run has one outcome: the limit and the machine at the start
/// decide how many rules fire, how the run ends and where it leaves the
/// machine.
pub proof fn lemma_run_is_determined(
    m: Machine,
    limit: nat,
    first: Run,
    first_end: Machine,
    second: Run,
    second_end: Machine,
)
    requires
        m.runs_to(limit, first, first_end),
        m.runs_to(limit, second, second_end),
    ensures
        first == second,
        first_end == second_end,
{
    if first.steps < second.steps {
        assert(!m.after(first.steps as nat).halted() && !m.after(first.steps as nat).blocked());
    }
    if second.steps < first.steps {
        assert(!m.after(second.steps as nat).halted() && !m.after(second.steps as nat).blocked());
    }
}

/// Movement and the displayed range: one step to the left of the least
/// displayed position lowers it by exactly one, one step to the right of the
/// greatest raises it by exactly one, and no movement shrinks the range.
pub proof fn lemma_movement_extends_range(m: Machine, movement: Movement)
    ensures
        m.moved(movement).tape.min_head <= m.tape.min_head,
        m.moved(movement).tape.max_head >= m.tape.max_head,
        m.moved(movement).tape.cells == m.tape.cells,
        m.head >= m.tape.min_head && m.moved(movement).head < m.tape.min_head ==> m.moved(
            movement,
        ).tape.min_head == m.tape.min_head - 1,
        m.head <= m.tape.max_head && m.moved(movement).head > m.tape.max_head ==> m.moved(
            movement,
        ).tape.max_head == m.tape.max_head + 1,
        m.tape.min_head <= m.moved(movement).head <= m.tape.max_head ==> m.moved(movement).tape
            == m.tape,
{
}

/// The displayed range never shrinks in the course of a run, and a write
/// alone never changes it.
pub proof fn lemma_range_never_shrinks(m: Machine, n: nat)
    ensures
        m.after(n).tape.min_head <= m.tape.min_head,
        m.after(n).tape.max_head >= m.tape.max_head,
        forall|action: WriteAction|
            (#[trigger] m.written(action)).tape.min_head == m.tape.min_head && m.written(
                action,
            ).tape.max_head == m.tape.max_head,
    decreases n,
{
    if n > 0 {
        lemma_range_never_shrinks(m, (n - 1) as nat);
    }
}

/// A displayed range that covers the head and every written cell goes on
/// covering them: the head writes only where it stands, and the range follows
/// the head.
pub proof fn lemma_range_covers_run(m: Machine, n: nat)
    requires
        m.covered(),
    ensures
        m.after(n).covered(),
    decreases n,
{
    if n > 0 {
        lemma_range_covers_run(m, (n - 1) as nat);
    }
}

/// What a write leaves under the head: `Write` puts its symbol there whatever
/// stood there before, `Delete` leaves the cell blank, `NoOp` leaves what was
/// there. Every other cell reads as before.
pub proof fn lemma_write_reads_back(m: Machine, action: WriteAction)
    ensures
        m.written(action).read() == match action {
            WriteAction::Write(symbol) => Some(symbol),
            WriteAction::Delete => None,
            WriteAction::NoOp => m.read(),
        },
        forall|position: int|
            position != m.head ==> m.written(action).tape.read(position) == m.tape.read(position),
        m.written(action).head == m.head,
        m.written(action).state == m.state,
{
}

/// The verdict looks at the state in which the machine stands and at nothing
/// else: two machines in the same state with the same accepting states agree,
/// whatever their tapes, heads and rules are.
pub proof fn lemma_acceptance_is_membership(a: Machine, b: Machine)
    requires
        a.state == b.state,
        a.accepting == b.accepting,
    ensures
        a.accepts() == b.accepts(),
        a.accepts() <==> exists|i: int| 0 <= i < a.accepting.len() && a.accepting[i] == a.state,
{
}

} // verus!
