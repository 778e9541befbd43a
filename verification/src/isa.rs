//! The part of the instruction set that metering looks at.

use vstd::prelude::*;

verus! {

/// One decoded instruction, as far as its price depends on it.
///
/// A call names the function it enters by index, and may be priced by that
/// index. Every other instruction is priced alike, so the monitor keeps no
/// more of it than that it is not a call.
#[derive(Clone, Copy, Debug, PartialEq, Eq, Structural)]
pub enum Instruction {
    /// A call of the function with the given index.
    Call(u32),
    /// Any instruction that is not a call.
    Other,
}

} // verus!
