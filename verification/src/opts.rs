//! The minimal option set of the portal.

use vstd::prelude::*;

verus! {

/// Options of the portal front end.
#[derive(Clone, Debug)]
pub struct Opts {
    /// SSID of the portal network.
    pub ssid: String,
}

} // verus!
