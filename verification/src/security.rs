//! Security classification of scanned access points and the credentials
//! derived from it.
//!
//! An access point advertises raw capability flags: a privacy flag, WPA
//! flags and RSN flags.  The classification evaluates four capabilities
//! independently and maps them to exactly one exposed label with priority
//! enterprise > wpa > wep > none.

use vstd::prelude::*;
use vstd::utf8::is_ascii_chars;

verus! {

broadcast use vstd::string::is_ascii_spec_bytes;

/// 802.1X authentication and key management is supported (bit in the WPA or
/// RSN flag word).
pub const AP_SEC_KEY_MGMT_802_1X: u32 = 0x200;

/// Raw security capability flags of one access point, as advertised by the
/// wireless scan.
#[derive(Clone, Copy, Debug, PartialEq, Eq, Structural)]
pub struct SecurityFlags {
    /// The access point requires authentication and encryption (usually WEP).
    pub privacy: bool,
    /// WPA capability flag word.
    pub wpa_flags: u32,
    /// RSN (WPA2) capability flag word.
    pub rsn_flags: u32,
}

/// WEP capability: privacy demanded while no WPA or RSN scheme is offered.
pub open spec fn is_wep(f: SecurityFlags) -> bool {
    f.privacy && f.wpa_flags == 0 && f.rsn_flags == 0
}

/// WPA capability: any WPA flag present.
pub open spec fn is_wpa(f: SecurityFlags) -> bool {
    f.wpa_flags != 0
}

/// WPA2 capability: any RSN flag present.
pub open spec fn is_wpa2(f: SecurityFlags) -> bool {
    f.rsn_flags != 0
}

/// Enterprise capability: the 802.1X key-management bit is set in either the
/// WPA or the RSN flag word.
pub open spec fn is_enterprise(f: SecurityFlags) -> bool {
    f.wpa_flags & AP_SEC_KEY_MGMT_802_1X != 0 || f.rsn_flags & AP_SEC_KEY_MGMT_802_1X != 0
}

/// The single exposed label, first matching capability wins:
/// enterprise > wpa (WPA2 grouped under the same label) > wep > none.
pub open spec fn spec_security_label(f: SecurityFlags) -> Seq<char> {
    if is_enterprise(f) {
        "enterprise"@
    } else if is_wpa2(f) || is_wpa(f) {
        "wpa"@
    } else if is_wep(f) {
        "wep"@
    } else {
        "none"@
    }
}

/// Classify one access point's flags into its exposed security label.
pub fn security_label(f: &SecurityFlags) -> (r: &'static str)
    ensures
        r@ == spec_security_label(*f),
{
    if f.wpa_flags & AP_SEC_KEY_MGMT_802_1X != 0 || f.rsn_flags & AP_SEC_KEY_MGMT_802_1X != 0 {
        "enterprise"
    } else if f.rsn_flags != 0 || f.wpa_flags != 0 {
        "wpa"
    } else if f.privacy {
        "wep"
    } else {
        "none"
    }
}

/// Authentication material for one connection attempt, chosen from the
/// target access point's security classification.
#[derive(Clone, Debug)]
pub enum Credentials {
    /// The network is open; nothing is supplied.
    Open,
    /// A WEP key.
    Wep { passphrase: String },
    /// A WPA/WPA2 pre-shared key.
    Wpa { passphrase: String },
    /// 802.1X enterprise identity and password.
    Enterprise { identity: String, passphrase: String },
}

/// Ghost mirror of [`Credentials`].
#[verifier::ext_equal]
pub enum CredentialsView {
    Open,
    Wep { passphrase: Seq<char> },
    Wpa { passphrase: Seq<char> },
    Enterprise { identity: Seq<char>, passphrase: Seq<char> },
}

impl View for Credentials {
    type V = CredentialsView;

    open spec fn view(&self) -> CredentialsView {
        match self {
            Credentials::Open => CredentialsView::Open,
            Credentials::Wep { passphrase } => CredentialsView::Wep { passphrase: passphrase@ },
            Credentials::Wpa { passphrase } => CredentialsView::Wpa { passphrase: passphrase@ },
            Credentials::Enterprise { identity, passphrase } => CredentialsView::Enterprise {
                identity: identity@,
                passphrase: passphrase@,
            },
        }
    }
}

/// The credentials that a connection attempt with the given submitted
/// identity and passphrase must use against an access point with flags `f`.
pub open spec fn spec_credentials_for(
    f: SecurityFlags,
    identity: Seq<char>,
    passphrase: Seq<char>,
) -> CredentialsView {
    if is_enterprise(f) {
        CredentialsView::Enterprise { identity, passphrase }
    } else if is_wpa2(f) || is_wpa(f) {
        CredentialsView::Wpa { passphrase }
    } else if is_wep(f) {
        CredentialsView::Wep { passphrase }
    } else {
        CredentialsView::Open
    }
}

/// Build the credentials for an access point with flags `f` from the
/// operator's submitted identity and passphrase.
pub fn init_access_point_credentials(
    f: &SecurityFlags,
    identity: &str,
    passphrase: &str,
) -> (r: Credentials)
    ensures
        r@ == spec_credentials_for(*f, identity@, passphrase@),
{
    if f.wpa_flags & AP_SEC_KEY_MGMT_802_1X != 0 || f.rsn_flags & AP_SEC_KEY_MGMT_802_1X != 0 {
        Credentials::Enterprise { identity: identity.to_owned(), passphrase: passphrase.to_owned() }
    } else if f.rsn_flags != 0 || f.wpa_flags != 0 {
        Credentials::Wpa { passphrase: passphrase.to_owned() }
    } else if f.privacy {
        Credentials::Wep { passphrase: passphrase.to_owned() }
    } else {
        Credentials::Open
    }
}

/// An access point with only the privacy flag set — no WPA and no RSN
/// flags — is classified `wep`.
pub proof fn lemma_wep_classification(f: SecurityFlags)
    requires
        f.privacy,
        f.wpa_flags == 0,
        f.rsn_flags == 0,
    ensures
        spec_security_label(f) == "wep"@,
{
    assert(0u32 & AP_SEC_KEY_MGMT_802_1X == 0) by (bit_vector);
}

/// An access point with any RSN flag set is classified at least `wpa`
/// (WPA2 is grouped under the `wpa` label): `wpa` itself unless the
/// 802.1X bit lifts it to `enterprise`.  The WEP privacy flag plays no
/// part in this.
pub proof fn lemma_rsn_classification(f: SecurityFlags)
    requires
        f.rsn_flags != 0,
    ensures
        spec_security_label(f) == "wpa"@ || spec_security_label(f) == "enterprise"@,
        !is_enterprise(f) ==> spec_security_label(f) == "wpa"@,
        spec_security_label(f) == spec_security_label(
            SecurityFlags { privacy: !f.privacy, ..f },
        ),
{
}

/// An access point with the 802.1X key-management flag in either the WPA
/// or the RSN flag word is classified `enterprise`, overriding any WPA or
/// WEP classification.
pub proof fn lemma_enterprise_classification(f: SecurityFlags)
    requires
        f.wpa_flags & AP_SEC_KEY_MGMT_802_1X != 0 || f.rsn_flags & AP_SEC_KEY_MGMT_802_1X != 0,
    ensures
        spec_security_label(f) == "enterprise"@,
{
}

/// Why a pre-shared key was rejected.
#[derive(Clone, Copy, Debug, PartialEq, Eq, Structural)]
pub enum PskFault {
    /// The key contains characters outside the ASCII range.
    NotAscii,
    /// The key is shorter than 8 characters.
    TooShort,
    /// The key is longer than 64 characters.
    TooLong,
}

/// A usable pre-shared key: ASCII and between 8 and 64 characters long.
pub open spec fn psk_ok(p: Seq<char>) -> bool {
    is_ascii_chars(p) && 8 <= p.len() <= 64
}

/// Validate a pre-shared key before any profile is built from it:
/// it must be ASCII and its length must lie within 8..=64.
pub fn validate_pre_shared_key(p: &str) -> (r: Result<(), PskFault>)
    ensures
        r is Ok <==> psk_ok(p@),
        r == Err::<(), PskFault>(PskFault::NotAscii) <==> !is_ascii_chars(p@),
        r == Err::<(), PskFault>(PskFault::TooShort) <==> is_ascii_chars(p@) && p@.len() < 8,
        r == Err::<(), PskFault>(PskFault::TooLong) <==> is_ascii_chars(p@) && p@.len() > 64,
{
    if !p.is_ascii() {
        Err(PskFault::NotAscii)
    } else {
        let n = p.as_bytes().len();
        assert(n == p@.len()) by {
            vstd::string::is_ascii_spec_bytes(p);
        }
        if n < 8 {
            Err(PskFault::TooShort)
        } else if n > 64 {
            Err(PskFault::TooLong)
        } else {
            Ok(())
        }
    }
}

/// Whether these credentials carry a pre-shared key that must pass
/// [`validate_pre_shared_key`] before a profile may be built.
pub open spec fn spec_needs_psk(c: CredentialsView) -> bool {
    match c {
        CredentialsView::Wep { .. } => true,
        CredentialsView::Wpa { .. } => true,
        _ => false,
    }
}

/// The pre-shared key of the credentials, when they carry one.
pub fn credentials_psk(c: &Credentials) -> (r: Option<&String>)
    ensures
        r is Some <==> spec_needs_psk(c@),
        match (r, c@) {
            (Some(p), CredentialsView::Wep { passphrase }) => p@ == passphrase,
            (Some(p), CredentialsView::Wpa { passphrase }) => p@ == passphrase,
            (None, _) => true,
            _ => false,
        },
{
    match c {
        Credentials::Wep { passphrase } => Some(passphrase),
        Credentials::Wpa { passphrase } => Some(passphrase),
        _ => None,
    }
}

} // verus!
