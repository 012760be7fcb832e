//! The data-acquisition interface the dashboard consumes.  A backend
//! produces resolved network sequences and action outcomes; scheduling,
//! transport and waiting are entirely its own concern, outside the core.

use crate::models::Network;
use vstd::prelude::*;

verus! {

/// A backend failure, carried as a short status message the dashboard
/// can render without interrupting navigation.
#[derive(Debug)]
pub struct BackendError {
    pub message: String,
}

/// What a network data source offers.  No contract constrains an
/// implementation: the dashboard must accept any resolved sequence and
/// any outcome.
pub trait WifiBackend {
    /// All networks currently in range.
    fn scan_networks(&self) -> Result<Vec<Network>, BackendError>;

    /// Connects to a network, with an optional credential.
    fn connect(&self, ssid: &str, password: Option<&str>) -> Result<(), BackendError>;

    /// Disconnects from a network.
    fn disconnect(&self, ssid: &str) -> Result<(), BackendError>;

    /// The networks with stored credentials.
    fn known_networks(&self) -> Result<Vec<Network>, BackendError>;
}

} // verus!
