//! Session bootstrap and handle ownership for a driver-supplied graphics API.
//!
//! The driver itself is reached through function pointers and raw handles; this
//! library holds the decisions around those calls: which names are requested and
//! available, which function-table tiers may be resolved, in what order a session
//! is built and torn down, and what a finished session holds.
use vstd::prelude::*;

pub mod names;
pub mod loader;
pub mod instance;
pub mod physical_device;

verus! {

/// The ways a bootstrap or query step can fail.
#[derive(Clone, Copy, Debug, PartialEq, Eq, Structural)]
pub enum VooError {
    /// The driver library or its root resolver symbol is missing.
    DriverLoad,
    /// Conflicting or malformed build parameters.
    Configuration,
    /// Session creation returned the given non-success status.
    SessionCreate(i32),
    /// The requested diagnostics callback could not be created.
    DiagnosticsSetup(i32),
    /// The driver reported no adapters.
    NoAdaptersFound,
    /// A capability query returned the given non-success status.
    Query(i32),
}

pub type VooResult<T> = Result<T, VooError>;

/// The status code the driver returns on success.
pub const SUCCESS: i32 = 0;

} // verus!
