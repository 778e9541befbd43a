//! How an interpreter tells observers what it is executing.

use vstd::prelude::*;
use crate::error::Error;
use crate::isa::Instruction;

verus! {

/// Something that happened while the interpreter ran.
#[derive(Clone, Copy, Debug)]
pub enum MiddlewareEvent<'a> {
    /// The interpreter is about to execute this instruction.
    Instruction(&'a Instruction),
}

/// An observer of the interpreter's events.
///
/// An observer may change its own state when it handles an event; it gets the
/// instruction by shared reference and so cannot change it. The trait says
/// nothing of what a handler returns: each implementor states that for
/// itself. An interpreter must stop the execution on any `Err`.
pub trait Middleware {
    fn handle(&mut self, event: MiddlewareEvent) -> (result: Result<(), Error>);
}

} // verus!
