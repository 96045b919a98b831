//! Client-side domain model for relationship-based permission checks.
//!
//! The library models the objects, permissions and results of a remote
//! authorization service: typed resource/subject references, a closed
//! catalog of permission names, and a result algebra that collapses the
//! remote tri-state outcome and any transport failure into the views
//! callers consume. Transport itself (connecting, issuing the call) is
//! left to the surrounding application; every decision around it lives
//! here, with a contract.

use vstd::prelude::*;

pub mod args;
pub mod config;
pub mod grpc_auth;
pub mod object;
pub mod permission;
pub mod server;
pub mod spicedb;
pub mod telemetry;
pub mod text;

verus! {

/// Errors surfaced by the authorization client.
///
/// `Unauthorized` covers an explicit policy denial, a conditional outcome
/// treated as denial, and any remote-call failure during a check: the
/// client fails closed. `ConnectionError` is reserved for construction
/// time, when the endpoint is invalid or unreachable.
#[derive(Debug, Clone)]
pub enum AuthorizationError {
    Unauthorized,
    ConnectionError { msg: String },
}

impl AuthorizationError {
    /// The human-readable diagnostic for this error.
    pub fn message(&self) -> (r: String)
        ensures
            self is Unauthorized ==> r@ == "You are not allowed to access this resource"@,
            self matches AuthorizationError::ConnectionError { msg } ==> r@
                == "Could not connect to spice db: "@ + msg@,
    {
        match self {
            AuthorizationError::Unauthorized => String::from_str(
                "You are not allowed to access this resource",
            ),
            AuthorizationError::ConnectionError { msg } => String::from_str(
                "Could not connect to spice db: ",
            ).concat(msg.as_str()),
        }
    }
}

} // verus!
