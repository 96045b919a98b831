//! Models of the telemetry collaborator: its configuration and its errors.
//!
//! Initializing exporters and shutting providers down is outside work the
//! surrounding application performs; the library only carries the values
//! those steps are configured with and the error they surface.

use vstd::prelude::*;

verus! {

/// What the content server listens on and accepts.
#[derive(Debug, Clone)]
pub struct Config {
    pub port: u16,
    pub origins: Vec<String>,
}

/// Errors produced by telemetry initialization and shutdown.
#[derive(Debug, Clone)]
pub enum TelemetryError {
    /// An error originating from the tracing/metrics SDK or its exporters,
    /// carried as its diagnostic text.
    OpenTelemetry(String),
}

impl TelemetryError {
    /// The human-readable diagnostic for this error.
    pub fn message(&self) -> (r: String)
        ensures
            self matches TelemetryError::OpenTelemetry(msg) ==> r@ == "OpenTelemetryError: "@
                + msg@,
    {
        match self {
            TelemetryError::OpenTelemetry(msg) => String::from_str("OpenTelemetryError: ").concat(
                msg.as_str(),
            ),
        }
    }
}

} // verus!
