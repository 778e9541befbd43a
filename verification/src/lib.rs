//! Gas metering for a bytecode interpreter.
//!
//! An [`InterpreterMonitor`] charges every instruction that the interpreter
//! reports to it against a fixed ceiling, and refuses to go on once the
//! ceiling is reached. The monitor can be called directly, or plugged into an
//! interpreter as a [`Middleware`].

pub mod error;
pub mod isa;
pub mod meter;
pub mod middleware;
pub mod monitor;
pub mod run;

pub use error::Error;
pub use isa::Instruction;
pub use meter::Meter;
pub use middleware::{Middleware, MiddlewareEvent};
pub use monitor::{GasMonitorError, InterpreterMonitor, MonitoredExternals};
