//! Options collected from the command line for the hotspot helper flavour
//! of the tool.

use vstd::prelude::*;

verus! {

/// The hotspot options: interface, SSID, password and timeout, as parsed
/// by the surrounding process.
#[derive(Clone, Debug)]
pub struct CliOptions {
    /// Hotspot interface, when requested explicitly.
    pub interface: Option<String>,
    /// Hotspot SSID.
    pub ssid: String,
    /// Hotspot password, when one is set.
    pub password: Option<String>,
    /// Hotspot timeout in seconds.
    pub timeout: u64,
}

} // verus!
