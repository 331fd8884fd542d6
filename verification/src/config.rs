//! The immutable configuration consumed by the command handler.

use vstd::prelude::*;

verus! {

/// An IPv4 address as four plain octets.
#[derive(Clone, Copy, Debug, PartialEq, Eq, Structural)]
pub struct Ipv4Address {
    pub a: u8,
    pub b: u8,
    pub c: u8,
    pub d: u8,
}

impl Ipv4Address {
    /// Build an address from its four octets.
    pub fn new(a: u8, b: u8, c: u8, d: u8) -> (r: Ipv4Address)
        ensures
            r == (Ipv4Address { a, b, c, d }),
    {
        Ipv4Address { a, b, c, d }
    }
}

/// Immutable configuration of one provisioning run, produced by the
/// surrounding process from options and environment and owned by the
/// command handler for its lifetime.
#[derive(Clone, Debug)]
pub struct Config {
    /// Requested interface name; when absent the first managed Wi-Fi
    /// device is used.
    pub interface: Option<String>,
    /// SSID of the captive-portal network.
    pub ssid: String,
    /// Optional WPA2 passphrase of the captive-portal network.
    pub passphrase: Option<String>,
    /// Gateway address of the captive-portal network.
    pub gateway: Ipv4Address,
    /// DHCP range served behind the portal, in helper syntax.
    pub dhcp_range: String,
    /// Listening port of the front end.
    pub listening_port: u16,
    /// Seconds without activity after which the process gives up;
    /// zero disables the timeout.
    pub activity_timeout: u64,
}

/// Ghost mirror of [`Config`].
#[verifier::ext_equal]
pub struct ConfigView {
    pub interface: Option<Seq<char>>,
    pub ssid: Seq<char>,
    pub passphrase: Option<Seq<char>>,
    pub gateway: Ipv4Address,
    pub dhcp_range: Seq<char>,
    pub listening_port: u16,
    pub activity_timeout: u64,
}

impl View for Config {
    type V = ConfigView;

    open spec fn view(&self) -> ConfigView {
        ConfigView {
            interface: match self.interface {
                Some(ref s) => Some(s@),
                None => None,
            },
            ssid: self.ssid@,
            passphrase: match self.passphrase {
                Some(ref s) => Some(s@),
                None => None,
            },
            gateway: self.gateway,
            dhcp_range: self.dhcp_range@,
            listening_port: self.listening_port,
            activity_timeout: self.activity_timeout,
        }
    }
}

} // verus!
