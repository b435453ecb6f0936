//! The process-wide configuration.
//!
//! Loaded once at startup by the surrounding program and passed by
//! reference into every component that needs it; the crate itself never
//! reads files or the environment.

use vstd::prelude::*;

verus! {

/// Connection and catalog settings.
#[derive(Debug, Clone)]
pub struct Config {
    /// The voice-chat server to connect to.
    pub host: String,
    /// Its port.
    pub port: u16,
    /// The identity announced during the handshake.
    pub username: String,
    /// The catalog API client id.
    pub rspotify_client_id: String,
    /// The catalog API client secret.
    pub rspotify_client_secret: String,
}

} // verus!
