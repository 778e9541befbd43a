//! The error that ends an execution.

use vstd::prelude::*;
use crate::monitor::GasMonitorError;

verus! {

/// Why an execution was stopped. An interpreter treats every value of this
/// type as fatal to the execution it was running.
#[derive(Clone, Copy, Debug, PartialEq, Eq, Structural)]
pub enum Error {
    /// The host stopped the execution: the gas budget is used up.
    Host(GasMonitorError),
}

} // verus!
