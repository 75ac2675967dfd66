//! A command-line translation shim: pacman-style flags are resolved into the
//! equivalent winget invocations, which the surrounding binary then runs,
//! forwarding the child's exit code.

pub mod command_handler;
pub mod error;
pub mod execution;
pub mod laws;
pub mod table;

pub use command_handler::DispatchPlan;
pub use error::RayError;
pub use execution::ExecOutcome;
pub use table::CommandMapping;
pub use table::Winget;
