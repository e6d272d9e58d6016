//! Service endpoints and tokens the process is configured with. The values
//! are read from the environment at startup, outside the library, and
//! injected once.

use vstd::prelude::*;

verus! {

/// Where the collaborating services live.
pub struct AppConfig {
    /// Token of the chat transport.
    pub teloxide_token: String,
    /// The banking gateway's single POST endpoint.
    pub tbank_url: String,
    /// The session store's address.
    pub redis_url: String,
    /// The chart-image service's endpoint.
    pub chart_generator_url: String,
}

} // verus!
