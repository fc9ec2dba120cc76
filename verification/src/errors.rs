//! Error taxonomy of the driver core. Every variant is fatal at startup by
//! design: each one reflects a static environment fact or a caller bug, so
//! there is no retry anywhere in the core.

use vstd::prelude::*;

verus! {

/// A startup failure of the driver core.
#[derive(Debug, PartialEq, Eq, Structural)]
pub enum Error {
    /// The kernel configuration path could not be read. Produced by the
    /// unverified shell that performs the file access.
    ConfigReadError,
    /// The kernel configuration content is not a valid unsigned 8-bit
    /// integer after trailing whitespace is trimmed.
    ConfigParseError,
    /// The kernel reserves the target port for its own io_delay use;
    /// acquiring the port must be refused.
    PortConflictError,
    /// The OS denied the port-access request; carries the OS error code.
    /// Produced by the unverified shell that performs the request.
    PermissionError(i32),
}

} // verus!
