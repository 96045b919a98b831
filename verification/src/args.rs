//! Argument structs the server is configured with.

use vstd::prelude::*;

verus! {

/// Where the HTTP server listens and which origins it accepts.
#[derive(Debug, Clone)]
pub struct ServerArgs {
    pub allowed_origins: Vec<String>,
    pub host: String,
    pub port: u16,
}

impl Default for ServerArgs {
    /// The default listener: every interface, port 3333, no origins.
    fn default() -> (r: Self)
        ensures
            r.allowed_origins@.len() == 0,
            r.host@ == "0.0.0.0"@,
            r.port == 3333,
    {
        ServerArgs {
            allowed_origins: Vec::new(),
            host: String::from_str("0.0.0.0"),
            port: 3333,
        }
    }
}

/// How the server authenticates against the identity provider.
#[derive(Debug, Clone)]
pub struct AuthArgs {
    pub issuer: String,
    pub client_id: String,
    pub client_secret: String,
}

impl Default for AuthArgs {
    /// The default identity provider: a local realm with stand-in
    /// service-account credentials.
    fn default() -> (r: Self)
        ensures
            r.issuer@ == "http://localhost:8080/realms/beep"@,
            r.client_id@ == "client_id"@,
            r.client_secret@ == "client_secret"@,
    {
        AuthArgs {
            issuer: String::from_str("http://localhost:8080/realms/beep"),
            client_id: String::from_str("client_id"),
            client_secret: String::from_str("client_secret"),
        }
    }
}

} // verus!
