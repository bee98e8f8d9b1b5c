//! Where the service listens, what it says on startup, and how it ends.

use vstd::prelude::*;

verus! {

/// Address the listener binds to: every interface.
pub const BIND_HOST: &'static str = "0.0.0.0";

/// TCP port the listener binds to.
pub const BIND_PORT: u16 = 8080;

/// Line written to standard output before the listener is bound.
pub const STARTUP_MESSAGE: &'static str = "Starting KasVillage L2 Frontend...";

/// Exit status of a run that served until it was stopped.
pub const EXIT_SUCCESS: u8 = 0;

/// Exit status of a run that could not start.
pub const EXIT_FAILURE: u8 = 1;

/// Why the service could not start. Binding the listener is the only step
/// that can fail, and the failure is final: the service does not try again.
#[derive(Debug, Clone, Copy, PartialEq, Eq, Structural)]
pub enum StartupError {
    /// The address is in use or may not be bound.
    Bind,
}

/// The exit status owed to each outcome of a run.
pub open spec fn exit_status_for(outcome: Result<(), StartupError>) -> u8 {
    match outcome {
        Ok(_) => EXIT_SUCCESS,
        Err(_) => EXIT_FAILURE,
    }
}

/// Exit status of the process: zero after a clean run, non-zero when the
/// service failed to start.
pub fn exit_status(outcome: Result<(), StartupError>) -> (status: u8)
    ensures
        status == exit_status_for(outcome),
        outcome is Ok <==> status == 0,
{
    match outcome {
        Ok(_) => EXIT_SUCCESS,
        Err(_) => EXIT_FAILURE,
    }
}

} // verus!
