//! Configuration consumed when the permission-check client is built.

use vstd::prelude::*;

verus! {

/// Connection settings for the remote authorization service.
#[derive(Debug, Clone)]
pub struct SpiceDbConfig {
    /// The endpoint URL, either `host:port` or `scheme://host:port`. A bare
    /// `host:port` is treated as an unencrypted endpoint; callers needing
    /// transport security must spell the secure scheme out.
    pub endpoint: String,
    /// The preshared key for authentication; when absent, calls go out
    /// without a credential header.
    pub token: Option<String>,
}

} // verus!
