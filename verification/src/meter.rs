//! The arithmetic of a gas budget, as a mathematical model.
//!
//! A [`Meter`] is what a monitor's contracts speak of: the gas consumed so far
//! and the ceiling. The proof functions of this module state what holds of
//! every run of charges.

use vstd::prelude::*;

verus! {

/// The state of a budget: gas consumed so far, and the ceiling at which
/// execution stops.
pub struct Meter {
    pub consumed: u64,
    pub ceiling: u64,
}

/// `amount`, held at the largest value a counter can take.
pub open spec fn saturate(amount: int) -> u64 {
    if amount > u64::MAX {
        u64::MAX
    } else {
        amount as u64
    }
}

/// The exact sum of a sequence of costs.
pub open spec fn total(costs: Seq<u64>) -> nat
    decreases costs.len(),
{
    if costs.len() == 0 {
        0
    } else {
        (total(costs.drop_last()) + costs.last()) as nat
    }
}

impl Meter {
    /// The budget is used up: the consumption has reached the ceiling, or
    /// passed it.
    pub open spec fn exhausted(self) -> bool {
        self.consumed >= self.ceiling
    }

    /// The meter after `gas` more has been consumed. The counter saturates
    /// and the ceiling stays.
    pub open spec fn charge(self, gas: u64) -> Meter {
        Meter { consumed: saturate(self.consumed + gas), ceiling: self.ceiling }
    }

    /// The meter after each of `costs` has been charged, first to last.
    pub open spec fn charge_all(self, costs: Seq<u64>) -> Meter
        decreases costs.len(),
    {
        if costs.len() == 0 {
            self
        } else {
            self.charge_all(costs.drop_last()).charge(costs.last())
        }
    }
}

/// A longer prefix of a run never costs less than a shorter one.
pub proof fn lemma_total_grows(costs: Seq<u64>, shorter: int, longer: int)
    requires
        0 <= shorter <= longer <= costs.len(),
    ensures
        total(costs.take(shorter)) <= total(costs.take(longer)),
    decreases longer - shorter,
{
    if shorter < longer {
        lemma_total_grows(costs, shorter, longer - 1);
        assert(costs.take(longer).drop_last() =~= costs.take(longer - 1));
    }
}

/// A run of charges consumes the exact sum of its costs, saturated; the
/// ceiling is never changed.
pub proof fn lemma_charge_all_is_saturated_sum(meter: Meter, costs: Seq<u64>)
    ensures
        meter.charge_all(costs).consumed == saturate(meter.consumed + total(costs)),
        meter.charge_all(costs).ceiling == meter.ceiling,
    decreases costs.len(),
{
    if costs.len() > 0 {
        lemma_charge_all_is_saturated_sum(meter, costs.drop_last());
    }
}

/// The counter never goes down: a charge adds its gas, or leaves the counter
/// at its largest value.
pub proof fn lemma_charge_never_decreases(meter: Meter, gas: u64)
    ensures
        meter.charge(gas).consumed >= meter.consumed,
        meter.charge(gas).consumed == meter.consumed + gas || meter.charge(gas).consumed
            == u64::MAX,
        meter.charge(gas).ceiling == meter.ceiling,
{
}

/// A run whose costs stay under the ceiling in sum never exhausts the meter:
/// after each of its charges the meter is still active, and the consumption
/// is the exact sum of the costs charged so far.
pub proof fn lemma_run_under_ceiling(meter: Meter, costs: Seq<u64>)
    requires
        meter.consumed + total(costs) < meter.ceiling,
    ensures
        forall|k: int|
            0 <= k <= costs.len() ==> {
                let reached = #[trigger] meter.charge_all(costs.take(k));
                &&& !reached.exhausted()
                &&& reached.consumed == meter.consumed + total(costs.take(k))
            },
        meter.charge_all(costs).consumed == meter.consumed + total(costs),
{
    assert forall|k: int| 0 <= k <= costs.len() implies {
        let reached = #[trigger] meter.charge_all(costs.take(k));
        &&& !reached.exhausted()
        &&& reached.consumed == meter.consumed + total(costs.take(k))
    } by {
        lemma_total_grows(costs, k, costs.len() as int);
        assert(costs.take(costs.len() as int) =~= costs);
        lemma_charge_all_is_saturated_sum(meter, costs.take(k));
    }
    lemma_charge_all_is_saturated_sum(meter, costs);
}

/// A run whose costs first reach the ceiling in sum at its `k`-th charge
/// leaves the meter active before that charge, and exhausted from that charge
/// on, whatever is charged afterwards.
pub proof fn lemma_run_reaching_ceiling(meter: Meter, costs: Seq<u64>, k: int)
    requires
        1 <= k <= costs.len(),
        meter.consumed + total(costs.take(k - 1)) < meter.ceiling,
        meter.consumed + total(costs.take(k)) >= meter.ceiling,
    ensures
        forall|j: int| 0 <= j < k ==> !(#[trigger] meter.charge_all(costs.take(j))).exhausted(),
        forall|j: int|
            k <= j <= costs.len() ==> (#[trigger] meter.charge_all(costs.take(j))).exhausted(),
{
    assert forall|j: int| 0 <= j < k implies !(#[trigger] meter.charge_all(
        costs.take(j),
    )).exhausted() by {
        lemma_total_grows(costs, j, k - 1);
        lemma_charge_all_is_saturated_sum(meter, costs.take(j));
    }
    assert forall|j: int| k <= j <= costs.len() implies (#[trigger] meter.charge_all(
        costs.take(j),
    )).exhausted() by {
        lemma_total_grows(costs, k, j);
        lemma_charge_all_is_saturated_sum(meter, costs.take(j));
    }
}

/// Exhaustion is final: an exhausted meter stays exhausted under one more
/// charge, and its counter does not go down.
pub proof fn lemma_exhausted_stays_exhausted(meter: Meter, gas: u64)
    requires
        meter.exhausted(),
    ensures
        meter.charge(gas).exhausted(),
        meter.charge(gas).consumed >= meter.consumed,
{
}

/// Exhaustion is final under any run of further charges.
pub proof fn lemma_exhausted_after_any_run(meter: Meter, costs: Seq<u64>)
    requires
        meter.exhausted(),
    ensures
        meter.charge_all(costs).exhausted(),
        meter.charge_all(costs).consumed >= meter.consumed,
    decreases costs.len(),
{
    if costs.len() > 0 {
        lemma_exhausted_after_any_run(meter, costs.drop_last());
    }
}

} // verus!
