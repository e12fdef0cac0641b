//! Where the remote service lives.

use vstd::prelude::*;

verus! {

/// The client's configuration.
#[derive(Debug, Clone)]
pub struct Config {
    pub api: Api,
}

/// The remote service.
#[derive(Debug, Clone)]
pub struct Api {
    /// Base URL of the service, also the target of connectivity probes.
    pub surehub_url: String,
}

} // verus!
