//! The gas monitor: prices each instruction and stops at the ceiling.

use vstd::prelude::*;
use crate::error::Error;
use crate::isa::Instruction;
use crate::meter::Meter;
use crate::middleware::{Middleware, MiddlewareEvent};

verus! {

/// The ceiling of a monitor that was given none.
pub const DEFAULT_MAX: u64 = 100;

/// The budget is used up. The execution that met this error is over; only a
/// new monitor starts a new budget.
#[derive(Clone, Copy, Debug, PartialEq, Eq, Structural)]
pub struct GasMonitorError {}

impl GasMonitorError {
    /// The text to show for this error.
    pub fn message(&self) -> (text: String)
        ensures
            text@ == "Out of gas!"@,
    {
        "Out of gas!".to_owned()
    }
}

/// The price of a call whose lookup answered `found`: the price found, or
/// `default_gas` where none was.
pub open spec fn gas_or_default(found: Option<u64>, default_gas: u64) -> u64 {
    match found {
        Some(gas) => gas,
        None => default_gas,
    }
}

/// A lookup can be called on every index.
pub open spec fn lookup_is_total<F: Fn(usize) -> Option<u64>>(lookup: Option<F>) -> bool {
    match lookup {
        Some(gas_for_index) => forall|index: usize| call_requires(gas_for_index, (index,)),
        None => true,
    }
}

/// Counts the gas that an execution consumes, instruction by instruction,
/// against a ceiling fixed when the monitor is made.
///
/// A call is priced by the lookup `F`, where the monitor has one and it knows
/// the callee; everything else costs the default price.
#[derive(Debug)]
pub struct InterpreterMonitor<F: Fn(usize) -> Option<u64>> {
    current_gas: u64,
    default_instruction_gas: u64,
    max_gas: u64,
    gas_for_index: Option<F>,
}

impl<F: Fn(usize) -> Option<u64>> View for InterpreterMonitor<F> {
    type V = Meter;

    closed spec fn view(&self) -> Meter {
        Meter { consumed: self.current_gas, ceiling: self.max_gas }
    }
}

impl<F: Fn(usize) -> Option<u64>> InterpreterMonitor<F> {
    #[verifier::type_invariant]
    spec fn inv(self) -> bool {
        lookup_is_total(self.gas_for_index)
    }

    /// The price of an instruction that has no price of its own.
    pub closed spec fn default_gas(self) -> u64 {
        self.default_instruction_gas
    }

    /// The lookup that prices calls, if the monitor has one.
    pub closed spec fn lookup(self) -> Option<F> {
        self.gas_for_index
    }

    /// `found` is an answer that pricing the callee `index` can get: one that
    /// the lookup can give, or `None` where the monitor has no lookup.
    pub open spec fn may_find(self, index: usize, found: Option<u64>) -> bool {
        match self.lookup() {
            Some(gas_for_index) => call_ensures(gas_for_index, (index,), found),
            None => found is None,
        }
    }

    /// `gas` is a price that `instruction` can be charged: for a call, what
    /// the lookup can answer for the callee, or the default price where it
    /// answers `None`; for every other instruction, the default price.
    pub open spec fn may_charge(self, instruction: Instruction, gas: u64) -> bool {
        match instruction {
            Instruction::Call(index) => exists|found: Option<u64>|
                #[trigger] self.may_find(index as usize, found) && gas == gas_or_default(
                    found,
                    self.default_gas(),
                ),
            Instruction::Other => gas == self.default_gas(),
        }
    }

    /// Observing `instruction` at the price `gas` takes this monitor to
    /// `next`, accepting the instruction or not: `gas` is a price of the
    /// instruction, it was consumed, nothing else changed, and the
    /// instruction was accepted exactly if the budget is not used up
    /// afterwards.
    pub open spec fn steps(
        self,
        instruction: Instruction,
        gas: u64,
        next: Self,
        accepted: bool,
    ) -> bool {
        &&& self.may_charge(instruction, gas)
        &&& next@ == self@.charge(gas)
        &&& next.default_gas() == self.default_gas()
        &&& next.lookup() == self.lookup()
        &&& accepted <==> !next@.exhausted()
    }

    /// Observing `instruction` can take this monitor to `next`, accepting
    /// the instruction or not: it does so at some price.
    pub open spec fn observes(self, instruction: Instruction, next: Self, accepted: bool) -> bool {
        exists|gas: u64| #[trigger] self.steps(instruction, gas, next, accepted)
    }

    /// A monitor that has consumed nothing yet.
    pub fn new(
        default_instruction_gas: u64,
        max_gas: u64,
        gas_for_index_fn: Option<F>,
    ) -> (monitor: Self)
        requires
            lookup_is_total(gas_for_index_fn),
        ensures
            monitor@ == (Meter { consumed: 0, ceiling: max_gas }),
            monitor.default_gas() == default_instruction_gas,
            monitor.lookup() == gas_for_index_fn,
    {
        InterpreterMonitor {
            current_gas: 0,
            default_instruction_gas,
            max_gas,
            gas_for_index: gas_for_index_fn,
        }
    }

    /// A monitor with the usual settings: every instruction costs 1, the
    /// ceiling is `DEFAULT_MAX`, and no call has a price of its own.
    pub fn default() -> (monitor: Self)
        ensures
            monitor@ == (Meter { consumed: 0, ceiling: DEFAULT_MAX }),
            monitor.default_gas() == 1,
            monitor.lookup() is None,
    {
        InterpreterMonitor {
            current_gas: 0,
            default_instruction_gas: 1,
            max_gas: DEFAULT_MAX,
            gas_for_index: None,
        }
    }

    /// The gas consumed so far.
    pub fn current_gas(&self) -> (gas: u64)
        ensures
            gas == self@.consumed,
    {
        self.current_gas
    }

    /// The ceiling.
    pub fn max_gas(&self) -> (gas: u64)
        ensures
            gas == self@.ceiling,
    {
        self.max_gas
    }

    /// The price of an instruction that has no price of its own.
    pub fn default_instruction_gas(&self) -> (gas: u64)
        ensures
            gas == self.default_gas(),
    {
        self.default_instruction_gas
    }

    /// Prices one instruction. Changes nothing.
    pub fn gas_for_instruction(&self, instruction: &Instruction) -> (gas: u64)
        ensures
            self.may_charge(*instruction, gas),
    {
        match instruction {
            Instruction::Call(index) => {
                match &self.gas_for_index {
                    Some(gas_for_index) => {
                        proof {
                            use_type_invariant(self);
                        }
                        let found = gas_for_index(*index as usize);
                        assert(self.may_find(*index as usize, found));
                        match found {
                            Some(gas) => gas,
                            None => self.default_instruction_gas,
                        }
                    },
                    None => {
                        assert(self.may_find(*index as usize, None));
                        self.default_instruction_gas
                    },
                }
            },
            Instruction::Other => self.default_instruction_gas,
        }
    }

    /// Consumes `gas`, and says whether the budget still holds.
    ///
    /// The counter saturates. The gas is consumed also where the result is
    /// `Err`: the counter then shows what was attempted.
    pub fn charge(&mut self, gas: u64) -> (result: Result<(), GasMonitorError>)
        ensures
            final(self)@ == old(self)@.charge(gas),
            final(self).default_gas() == old(self).default_gas(),
            final(self).lookup() == old(self).lookup(),
            result is Ok <==> !final(self)@.exhausted(),
            old(self)@.exhausted() ==> result is Err,
    {
        proof {
            use_type_invariant(&*self);
        }
        self.current_gas = self.current_gas.saturating_add(gas);
        if self.current_gas >= self.max_gas {
            Err(GasMonitorError {})
        } else {
            Ok(())
        }
    }

    /// Observes one instruction: prices it, consumes the price, and returns
    /// `Err` exactly if the consumption has then reached the ceiling.
    ///
    /// A monitor that is exhausted stays so: every later instruction is
    /// priced and consumed too, and answered with `Err`.
    pub fn check_gas(&mut self, instruction: &Instruction) -> (result: Result<(), GasMonitorError>)
        ensures
            old(self).observes(*instruction, *final(self), result is Ok),
            old(self)@.exhausted() ==> result is Err,
    {
        let gas = self.gas_for_instruction(instruction);
        let result = self.charge(gas);
        assert(old(self).steps(*instruction, gas, *self, result is Ok));
        result
    }
}

impl<F: Fn(usize) -> Option<u64>> Middleware for InterpreterMonitor<F> {
    /// Observes the instruction of the event as `check_gas` does, and reports
    /// exhaustion as a host error.
    fn handle(&mut self, event: MiddlewareEvent) -> (result: Result<(), Error>)
        ensures
            match event {
                MiddlewareEvent::Instruction(instruction) => old(self).observes(
                    *instruction,
                    *final(self),
                    result is Ok,
                ),
            },
            old(self)@.exhausted() ==> result is Err,
            result is Err ==> result == Err::<(), Error>(Error::Host(GasMonitorError {})),
    {
        match event {
            MiddlewareEvent::Instruction(instruction) => match self.check_gas(instruction) {
                Ok(()) => Ok(()),
                Err(err) => Err(Error::Host(err)),
            },
        }
    }
}

/// Prices for the functions that a host offers to the code it runs.
///
/// An implementor states in the `ensures` of its own `gas_for_index` which
/// price each index has; a monitor that is given that function as its lookup
/// then charges exactly those prices.
pub trait MonitoredExternals {
    /// The price of calling the function at `_index`, or `None` for the
    /// monitor's default price. Left as it is, every function costs 1.
    fn gas_for_index(_index: usize) -> (gas: Option<u64>)
        default_ensures
            gas == Some(1u64),
    {
        Some(1)
    }
}

/// Where the lookup can answer nothing but `found` for a callee, a call of it
/// is charged exactly the price found, and the default price where `found` is
/// `None`.
pub proof fn lemma_call_charged_as_found<F: Fn(usize) -> Option<u64>>(
    monitor: InterpreterMonitor<F>,
    index: u32,
    found: Option<u64>,
    gas: u64,
)
    requires
        forall|answer: Option<u64>| #[trigger]
            monitor.may_find(index as usize, answer) ==> answer == found,
        monitor.may_charge(Instruction::Call(index), gas),
    ensures
        gas == gas_or_default(found, monitor.default_gas()),
{
}

/// A monitor without a lookup charges every instruction, calls too, the
/// default price.
pub proof fn lemma_no_lookup_charges_default<F: Fn(usize) -> Option<u64>>(
    monitor: InterpreterMonitor<F>,
    instruction: Instruction,
    gas: u64,
)
    requires
        monitor.lookup() is None,
        monitor.may_charge(instruction, gas),
    ensures
        gas == monitor.default_gas(),
{
}

} // verus!
