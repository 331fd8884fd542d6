//! Stored connection profiles and the selection rules for deleting them.
//!
//! Before the portal starts, any profile this system left behind in an
//! earlier run (a Wi-Fi profile in access-point mode carrying the portal
//! SSID) is deleted.  Before a connect attempt, any Wi-Fi profile bound to
//! the target SSID is deleted, so that no ambiguous duplicate profiles
//! remain.

use vstd::prelude::*;
use vstd::utf8::encode_utf8;

use crate::text::{slice_eq_bytes, str_eq};

verus! {

/// What the core reads of one stored connection profile.
#[derive(Clone, Debug)]
pub struct ConnectionInfo {
    /// The profile kind, `802-11-wireless` for Wi-Fi profiles.
    pub kind: String,
    /// The wireless mode, `ap` for access-point profiles.
    pub mode: String,
    /// The profile's SSID, raw bytes.
    pub ssid: Vec<u8>,
}

/// Ghost mirror of [`ConnectionInfo`].
#[verifier::ext_equal]
pub struct ConnectionInfoView {
    pub kind: Seq<char>,
    pub mode: Seq<char>,
    pub ssid: Seq<u8>,
}

impl View for ConnectionInfo {
    type V = ConnectionInfoView;

    open spec fn view(&self) -> ConnectionInfoView {
        ConnectionInfoView { kind: self.kind@, mode: self.mode@, ssid: self.ssid@ }
    }
}

impl DeepView for ConnectionInfo {
    type V = ConnectionInfoView;

    open spec fn deep_view(&self) -> ConnectionInfoView {
        self.view()
    }
}

/// A Wi-Fi connection profile.
pub open spec fn spec_is_wifi_connection(c: ConnectionInfoView) -> bool {
    c.kind == "802-11-wireless"@
}

/// A Wi-Fi connection profile in access-point mode.
pub open spec fn spec_is_access_point_connection(c: ConnectionInfoView) -> bool {
    spec_is_wifi_connection(c) && c.mode == "ap"@
}

/// A profile bound to exactly this SSID.  An SSID could be random bytes
/// and not UTF-8 text; such a profile matches no textual SSID.
pub open spec fn spec_is_same_ssid(c: ConnectionInfoView, ssid: Seq<char>) -> bool {
    c.ssid == encode_utf8(ssid)
}

/// Whether this profile is a Wi-Fi profile.
pub fn is_wifi_connection(c: &ConnectionInfo) -> (r: bool)
    ensures
        r == spec_is_wifi_connection(c@),
{
    str_eq(c.kind.as_str(), "802-11-wireless")
}

/// Whether this profile is a Wi-Fi profile in access-point mode.
pub fn is_access_point_connection(c: &ConnectionInfo) -> (r: bool)
    ensures
        r == spec_is_access_point_connection(c@),
{
    is_wifi_connection(c) && str_eq(c.mode.as_str(), "ap")
}

/// Whether this profile is bound to exactly this SSID.
pub fn is_same_ssid(c: &ConnectionInfo, ssid: &str) -> (r: bool)
    ensures
        r == spec_is_same_ssid(c@, ssid@),
{
    slice_eq_bytes(c.ssid.as_slice(), ssid.as_bytes())
}

/// A stale portal profile: an access-point-mode Wi-Fi profile bound to the
/// portal SSID.
pub open spec fn spec_stale_portal_profile(c: ConnectionInfoView, ssid: Seq<char>) -> bool {
    spec_is_access_point_connection(c) && spec_is_same_ssid(c, ssid)
}

/// A profile to clear before a connect attempt: any Wi-Fi profile bound to
/// the target SSID.
pub open spec fn spec_same_network_profile(c: ConnectionInfoView, ssid: Seq<char>) -> bool {
    spec_is_wifi_connection(c) && spec_is_same_ssid(c, ssid)
}

/// Indices of the entries of `conns` satisfying `f`, in ascending order.
pub open spec fn spec_matching_indices(
    f: spec_fn(ConnectionInfoView) -> bool,
    conns: Seq<ConnectionInfoView>,
) -> Seq<int>
    decreases conns.len(),
{
    if conns.len() == 0 {
        Seq::empty()
    } else {
        let pre = spec_matching_indices(f, conns.drop_last());
        if f(conns.last()) {
            pre.push(conns.len() - 1)
        } else {
            pre
        }
    }
}

/// The indices selected for deletion before the portal starts: exactly the
/// stale portal profiles (access-point-mode Wi-Fi profiles bound to the
/// portal SSID), in order.
pub open spec fn spec_ap_profiles_to_delete(
    conns: Seq<ConnectionInfoView>,
    ssid: Seq<char>,
) -> Seq<int> {
    spec_matching_indices(|c: ConnectionInfoView| spec_stale_portal_profile(c, ssid), conns)
}

/// The indices selected for deletion before a connect attempt: exactly the
/// Wi-Fi profiles bound to the target SSID, in order.
pub open spec fn spec_connections_to_same_network(
    conns: Seq<ConnectionInfoView>,
    ssid: Seq<char>,
) -> Seq<int> {
    spec_matching_indices(|c: ConnectionInfoView| spec_same_network_profile(c, ssid), conns)
}

/// Indices of the stale portal profiles among the stored connections, in
/// order: the access-point-mode Wi-Fi profiles bound to the portal SSID.
#[verifier::loop_isolation(false)]
pub fn ap_profiles_to_delete(conns: &Vec<ConnectionInfo>, ssid: &str) -> (r: Vec<usize>)
    ensures
        r@.map_values(|u: usize| u as int) == spec_ap_profiles_to_delete(
            conns.deep_view(),
            ssid@,
        ),
{
    let ghost f = |c: ConnectionInfoView| spec_stale_portal_profile(c, ssid@);
    let n = conns.len();
    let mut r: Vec<usize> = Vec::new();
    assert(r@.map_values(|u: usize| u as int) =~= spec_matching_indices(
        f,
        conns.deep_view().take(0),
    ));
    for i in 0..n
        invariant
            n == conns.deep_view().len(),
            r@.map_values(|u: usize| u as int) == spec_matching_indices(
                f,
                conns.deep_view().take(i as int),
            ),
    {
        let ghost r0 = r@;
        if is_access_point_connection(&conns[i]) && is_same_ssid(&conns[i], ssid) {
            assert(f(conns.deep_view()[i as int]));
            r.push(i);
            assert(r@ =~= r0.push(i));
        } else {
            assert(!f(conns.deep_view()[i as int]));
        }
        proof {
            let s = conns.deep_view();
            assert(s.take(i + 1).drop_last() =~= s.take(i as int));
            assert(s.take(i + 1).last() == s[i as int]);
            assert(r@.map_values(|u: usize| u as int) =~= spec_matching_indices(
                f,
                s.take(i + 1),
            ));
        }
    }
    proof {
        assert(conns.deep_view().take(n as int) =~= conns.deep_view());
    }
    r
}

/// Indices of the profiles to clear before a connect attempt, in order:
/// the Wi-Fi profiles bound to the target SSID.
#[verifier::loop_isolation(false)]
pub fn connections_to_same_network(conns: &Vec<ConnectionInfo>, ssid: &str) -> (r: Vec<usize>)
    ensures
        r@.map_values(|u: usize| u as int) == spec_connections_to_same_network(
            conns.deep_view(),
            ssid@,
        ),
{
    let ghost f = |c: ConnectionInfoView| spec_same_network_profile(c, ssid@);
    let n = conns.len();
    let mut r: Vec<usize> = Vec::new();
    assert(r@.map_values(|u: usize| u as int) =~= spec_matching_indices(
        f,
        conns.deep_view().take(0),
    ));
    for i in 0..n
        invariant
            n == conns.deep_view().len(),
            r@.map_values(|u: usize| u as int) == spec_matching_indices(
                f,
                conns.deep_view().take(i as int),
            ),
    {
        let ghost r0 = r@;
        if is_wifi_connection(&conns[i]) && is_same_ssid(&conns[i], ssid) {
            assert(f(conns.deep_view()[i as int]));
            r.push(i);
            assert(r@ =~= r0.push(i));
        } else {
            assert(!f(conns.deep_view()[i as int]));
        }
        proof {
            let s = conns.deep_view();
            assert(s.take(i + 1).drop_last() =~= s.take(i as int));
            assert(s.take(i + 1).last() == s[i as int]);
            assert(r@.map_values(|u: usize| u as int) =~= spec_matching_indices(
                f,
                s.take(i + 1),
            ));
        }
    }
    proof {
        assert(conns.deep_view().take(n as int) =~= conns.deep_view());
    }
    r
}

} // verus!
