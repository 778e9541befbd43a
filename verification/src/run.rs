//! What holds of every run of a monitor over a sequence of instructions.
//!
//! A run is written down as the monitors it passes through, the price that
//! each instruction was charged, and whether each was accepted. The proof
//! functions here carry the laws of a [`Meter`] over to such runs.

use vstd::prelude::*;
use crate::isa::Instruction;
use crate::meter::{
    lemma_charge_never_decreases, lemma_exhausted_after_any_run, lemma_run_reaching_ceiling,
    lemma_run_under_ceiling, total,
};
use crate::monitor::InterpreterMonitor;

verus! {

/// `trace` is a run over `instructions` that starts at `monitor`: each
/// instruction, charged its entry of `costs`, takes one monitor of the trace
/// to the next, and its entry of `accepted` says whether it was answered
/// `Ok`.
pub open spec fn is_run<F: Fn(usize) -> Option<u64>>(
    monitor: InterpreterMonitor<F>,
    instructions: Seq<Instruction>,
    costs: Seq<u64>,
    trace: Seq<InterpreterMonitor<F>>,
    accepted: Seq<bool>,
) -> bool {
    &&& costs.len() == instructions.len()
    &&& accepted.len() == instructions.len()
    &&& trace.len() == instructions.len() + 1
    &&& trace[0] == monitor
    &&& forall|i: int|
        0 <= i < instructions.len() ==> (#[trigger] trace[i]).steps(
            instructions[i],
            costs[i],
            trace[i + 1],
            accepted[i],
        )
}

/// After the first `k` instructions of a run the meter is the starting meter
/// with their costs charged, and the default price and the lookup are those
/// the run started with.
pub proof fn lemma_run_charges_costs<F: Fn(usize) -> Option<u64>>(
    monitor: InterpreterMonitor<F>,
    instructions: Seq<Instruction>,
    costs: Seq<u64>,
    trace: Seq<InterpreterMonitor<F>>,
    accepted: Seq<bool>,
    k: int,
)
    requires
        is_run(monitor, instructions, costs, trace, accepted),
        0 <= k <= instructions.len(),
    ensures
        trace[k]@ == monitor@.charge_all(costs.take(k)),
        trace[k].default_gas() == monitor.default_gas(),
        trace[k].lookup() == monitor.lookup(),
    decreases k,
{
    if k == 0 {
        assert(costs.take(0) =~= Seq::<u64>::empty());
    } else {
        lemma_run_charges_costs(monitor, instructions, costs, trace, accepted, k - 1);
        assert(trace[k - 1].steps(instructions[k - 1], costs[k - 1], trace[k], accepted[k - 1]));
        assert(costs.take(k).drop_last() =~= costs.take(k - 1));
    }
}

/// A run whose costs, added to what was consumed before, stay under the
/// ceiling: every instruction is accepted, and after each the consumption is
/// the exact sum of the costs so far.
pub proof fn lemma_run_within_budget<F: Fn(usize) -> Option<u64>>(
    monitor: InterpreterMonitor<F>,
    instructions: Seq<Instruction>,
    costs: Seq<u64>,
    trace: Seq<InterpreterMonitor<F>>,
    accepted: Seq<bool>,
)
    requires
        is_run(monitor, instructions, costs, trace, accepted),
        monitor@.consumed + total(costs) < monitor@.ceiling,
    ensures
        forall|i: int| 0 <= i < instructions.len() ==> #[trigger] accepted[i],
        forall|k: int|
            0 <= k <= instructions.len() ==> (#[trigger] trace[k])@.consumed == monitor@.consumed
                + total(costs.take(k)),
        trace.last()@.consumed == monitor@.consumed + total(costs),
{
    lemma_run_under_ceiling(monitor@, costs);
    assert forall|k: int| 0 <= k <= instructions.len() implies (#[trigger] trace[k])@.consumed
        == monitor@.consumed + total(costs.take(k)) && !trace[k]@.exhausted() by {
        lemma_run_charges_costs(monitor, instructions, costs, trace, accepted, k);
        assert(!monitor@.charge_all(costs.take(k)).exhausted());
    }
    assert forall|i: int| 0 <= i < instructions.len() implies #[trigger] accepted[i] by {
        assert(trace[i].steps(instructions[i], costs[i], trace[i + 1], accepted[i]));
        assert(!trace[i + 1]@.exhausted());
    }
    assert(costs.take(costs.len() as int) =~= costs);
}

/// A run whose costs, added to what was consumed before, first reach the
/// ceiling with its `k`-th instruction: the instructions before the `k`-th
/// are accepted, the `k`-th is refused, and so is every one after it.
pub proof fn lemma_run_exhausts_at<F: Fn(usize) -> Option<u64>>(
    monitor: InterpreterMonitor<F>,
    instructions: Seq<Instruction>,
    costs: Seq<u64>,
    trace: Seq<InterpreterMonitor<F>>,
    accepted: Seq<bool>,
    k: int,
)
    requires
        is_run(monitor, instructions, costs, trace, accepted),
        1 <= k <= instructions.len(),
        monitor@.consumed + total(costs.take(k - 1)) < monitor@.ceiling,
        monitor@.consumed + total(costs.take(k)) >= monitor@.ceiling,
    ensures
        forall|i: int| 0 <= i < k - 1 ==> #[trigger] accepted[i],
        forall|i: int| k - 1 <= i < instructions.len() ==> !#[trigger] accepted[i],
{
    lemma_run_reaching_ceiling(monitor@, costs, k);
    assert forall|i: int| 0 <= i < instructions.len() implies (#[trigger] accepted[i] <==> i < k
        - 1) by {
        lemma_run_charges_costs(monitor, instructions, costs, trace, accepted, i + 1);
        assert(trace[i].steps(instructions[i], costs[i], trace[i + 1], accepted[i]));
        if i + 1 < k {
            assert(!monitor@.charge_all(costs.take(i + 1)).exhausted());
        } else {
            assert(monitor@.charge_all(costs.take(i + 1)).exhausted());
        }
    }
}

/// A run that starts exhausted: every instruction is refused, and with each
/// the counter grows by the instruction's cost or stands at its largest
/// value.
pub proof fn lemma_run_from_exhausted<F: Fn(usize) -> Option<u64>>(
    monitor: InterpreterMonitor<F>,
    instructions: Seq<Instruction>,
    costs: Seq<u64>,
    trace: Seq<InterpreterMonitor<F>>,
    accepted: Seq<bool>,
)
    requires
        is_run(monitor, instructions, costs, trace, accepted),
        monitor@.exhausted(),
    ensures
        forall|i: int| 0 <= i < instructions.len() ==> !#[trigger] accepted[i],
        forall|i: int|
            0 <= i < instructions.len() ==> {
                let before = (#[trigger] trace[i])@.consumed;
                let after = trace[i + 1]@.consumed;
                after >= before && (after == before + costs[i] || after == u64::MAX)
            },
{
    assert forall|i: int| 0 <= i < instructions.len() implies !#[trigger] accepted[i] by {
        lemma_run_charges_costs(monitor, instructions, costs, trace, accepted, i + 1);
        lemma_exhausted_after_any_run(monitor@, costs.take(i + 1));
        assert(trace[i].steps(instructions[i], costs[i], trace[i + 1], accepted[i]));
    }
    assert forall|i: int| 0 <= i < instructions.len() implies {
        let before = (#[trigger] trace[i])@.consumed;
        let after = trace[i + 1]@.consumed;
        after >= before && (after == before + costs[i] || after == u64::MAX)
    } by {
        assert(trace[i].steps(instructions[i], costs[i], trace[i + 1], accepted[i]));
        lemma_charge_never_decreases(trace[i]@, costs[i]);
    }
}

} // verus!
