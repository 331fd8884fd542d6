//! The command vocabulary of the core and the outward network list.

use vstd::prelude::*;
use vstd::utf8::decode_utf8;

use crate::access_point::{all_usable, AccessPoint, ApView};
use crate::security::{security_label, spec_security_label};
use crate::text::string_from_utf8;

verus! {

/// A command fed into the command handler by the front-end bridge, the
/// activity timer or the signal trap.
#[derive(Debug)]
pub enum NetworkCommand {
    /// Return the current network list and mark the session engaged.
    Activate,
    /// The activity timer fired.
    Timeout,
    /// Unconditional graceful shutdown.
    Exit,
    /// Attempt a client connection with the submitted credentials.
    Connect { ssid: String, identity: String, passphrase: String },
}

/// Ghost mirror of [`NetworkCommand`].
#[verifier::ext_equal]
pub enum NetworkCommandView {
    Activate,
    Timeout,
    Exit,
    Connect { ssid: Seq<char>, identity: Seq<char>, passphrase: Seq<char> },
}

impl View for NetworkCommand {
    type V = NetworkCommandView;

    open spec fn view(&self) -> NetworkCommandView {
        match self {
            NetworkCommand::Activate => NetworkCommandView::Activate,
            NetworkCommand::Timeout => NetworkCommandView::Timeout,
            NetworkCommand::Exit => NetworkCommandView::Exit,
            NetworkCommand::Connect { ssid, identity, passphrase } => NetworkCommandView::Connect {
                ssid: ssid@,
                identity: identity@,
                passphrase: passphrase@,
            },
        }
    }
}

/// One distinct visible network, as shown to the operator.
#[derive(Clone, Debug, PartialEq)]
pub struct Network {
    /// The network's name.
    pub ssid: String,
    /// Its security label: `none`, `wep`, `wpa` or `enterprise`.
    pub security: String,
}

/// Ghost mirror of [`Network`].
#[verifier::ext_equal]
pub struct NetworkView {
    pub ssid: Seq<char>,
    pub security: Seq<char>,
}

impl View for Network {
    type V = NetworkView;

    open spec fn view(&self) -> NetworkView {
        NetworkView { ssid: self.ssid@, security: self.security@ }
    }
}

impl DeepView for Network {
    type V = NetworkView;

    open spec fn deep_view(&self) -> NetworkView {
        self.view()
    }
}

/// A response sent back to the front-end bridge.
#[derive(Debug)]
pub enum NetworkCommandResponse {
    /// The current network list.
    Networks(Vec<Network>),
}

/// Ghost mirror of [`NetworkCommandResponse`].
#[verifier::ext_equal]
pub enum NetworkCommandResponseView {
    Networks(Seq<NetworkView>),
}

impl View for NetworkCommandResponse {
    type V = NetworkCommandResponseView;

    open spec fn view(&self) -> NetworkCommandResponseView {
        match self {
            NetworkCommandResponse::Networks(n) => NetworkCommandResponseView::Networks(
                n.deep_view(),
            ),
        }
    }
}

/// The lifecycle state of the network-management service.
#[derive(Clone, Copy, Debug, PartialEq, Eq, Structural)]
pub enum ServiceState {
    Active,
    Reloading,
    Inactive,
    Failed,
    Activating,
    Deactivating,
}

/// Whether the network-management service must be started before
/// provisioning can begin.
pub fn needs_service_start(state: &ServiceState) -> (r: bool)
    ensures
        r == (*state != ServiceState::Active),
{
    match *state {
        ServiceState::Active => false,
        _ => true,
    }
}

/// Judge the state the service reports after it was asked to start: only
/// an active service will do.
pub fn evaluate_service_start(state: &ServiceState) -> (r: Result<(), crate::errors::ErrorKind>)
    ensures
        r is Ok <==> *state == ServiceState::Active,
        r matches Err(e) ==> e == crate::errors::ErrorKind::StartActiveNetworkManager,
{
    match *state {
        ServiceState::Active => Ok(()),
        _ => Err(crate::errors::ErrorKind::StartActiveNetworkManager),
    }
}

/// The outward record derived from one access point: its decoded SSID and
/// its security label.
pub open spec fn spec_network_of(ap: ApView) -> NetworkView {
    NetworkView { ssid: decode_utf8(ap.ssid), security: spec_security_label(ap.flags) }
}

/// The outward network list derived from a filtered access-point list.
pub open spec fn spec_networks(aps: Seq<ApView>) -> Seq<NetworkView> {
    aps.map_values(|ap: ApView| spec_network_of(ap))
}

/// Derive the outward network list, one record per access point, in scan
/// order.
pub fn get_networks(aps: &Vec<AccessPoint>) -> (r: Vec<Network>)
    requires
        all_usable(aps.deep_view()),
    ensures
        r.deep_view() == spec_networks(aps.deep_view()),
{
    let n = aps.len();
    let mut r: Vec<Network> = Vec::new();
    assert(r.deep_view() =~~= spec_networks(aps.deep_view().take(0)));
    for i in 0..n
        invariant
            n == aps.deep_view().len(),
            all_usable(aps.deep_view()),
            r.deep_view() == spec_networks(aps.deep_view().take(i as int)),
    {
        let ap = &aps[i];
        assert(crate::access_point::ap_usable(aps.deep_view()[i as int].ssid));
        let decoded = string_from_utf8(&ap.ssid);
        let ssid = decoded.unwrap();
        let security = security_label(&ap.flags).to_owned();
        let ghost r0 = r.deep_view();
        let net = Network { ssid, security };
        assert(net@ =~= spec_network_of(aps.deep_view()[i as int]));
        r.push(net);
        proof {
            let s = aps.deep_view();
            assert(r.deep_view() =~= r0.push(spec_network_of(s[i as int])));
            assert(spec_networks(s.take(i + 1)) =~= spec_networks(s.take(i as int)).push(
                spec_network_of(s[i as int]),
            ));
            assert(r.deep_view() =~= spec_networks(s.take(i + 1)));
        }
    }
    proof {
        assert(aps.deep_view().take(n as int) =~= aps.deep_view());
    }
    r
}

} // verus!
