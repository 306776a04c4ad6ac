//! Errors surfaced by the remote service, reduced to what the analysis
//! decides on: the numeric error code of a failed call and the numeric
//! value some codes carry (for the rate-limit code, the wait in
//! seconds). Everything else about a failure is opaque here and stays
//! with the surrounding application.

use vstd::prelude::*;

verus! {

/// The error code of an access-denied response.
pub const ACCESS_DENIED_CODE: i32 = 400;

/// The error code of the security-cooldown rate limit on opening a
/// bulk-export session.
pub const COOLDOWN_CODE: i32 = 420;

/// The error code of a forbidden chat in the invite-link lookup.
pub const FORBIDDEN_CODE: i32 = 403;

/// A failure of one remote call.
#[derive(Debug, Clone, PartialEq, Eq)]
pub enum ServiceError {
    /// The service answered with an error code; `value` carries the
    /// digits the error name held, if any.
    Rpc { code: i32, value: Option<u32> },
    /// The call failed before the service answered.
    Transport,
}

} // verus!
