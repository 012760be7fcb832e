//! The plain network record handed over by a data-acquisition backend.

use vstd::prelude::*;

verus! {

/// One discovered network as a backend reports it: a display name, a
/// 0-100 signal value, and whether it is secured or currently connected.
#[derive(Debug, Clone)]
pub struct Network {
    pub ssid: String,
    pub signal: u8,
    pub secured: bool,
    pub connected: bool,
}

} // verus!
