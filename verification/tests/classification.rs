//! Security classification of access points.

use wifi_connect::security::{
    init_access_point_credentials, security_label, Credentials, SecurityFlags,
    AP_SEC_KEY_MGMT_802_1X,
};

const PSK_BIT: u32 = 0x100;
const CCMP_BIT: u32 = 0x8;

#[test]
fn privacy_only_is_wep() {
    let f = SecurityFlags { privacy: true, wpa_flags: 0, rsn_flags: 0 };
    assert_eq!(security_label(&f), "wep");
}

#[test]
fn rsn_is_wpa_even_with_privacy() {
    let f = SecurityFlags { privacy: true, wpa_flags: 0, rsn_flags: PSK_BIT | CCMP_BIT };
    assert_eq!(security_label(&f), "wpa");
    let g = SecurityFlags { privacy: false, ..f };
    assert_eq!(security_label(&g), "wpa");
}

#[test]
fn wpa_flags_are_wpa() {
    let f = SecurityFlags { privacy: false, wpa_flags: PSK_BIT, rsn_flags: 0 };
    assert_eq!(security_label(&f), "wpa");
}

#[test]
fn enterprise_bit_in_wpa_flags() {
    let f = SecurityFlags { privacy: false, wpa_flags: AP_SEC_KEY_MGMT_802_1X, rsn_flags: 0 };
    assert_eq!(security_label(&f), "enterprise");
}

#[test]
fn enterprise_bit_in_rsn_flags_overrides_wpa_and_wep() {
    let f = SecurityFlags {
        privacy: true,
        wpa_flags: PSK_BIT,
        rsn_flags: AP_SEC_KEY_MGMT_802_1X | CCMP_BIT,
    };
    assert_eq!(security_label(&f), "enterprise");
}

#[test]
fn no_flags_is_none() {
    let f = SecurityFlags { privacy: false, wpa_flags: 0, rsn_flags: 0 };
    assert_eq!(security_label(&f), "none");
}

#[test]
fn credentials_follow_classification() {
    let open = SecurityFlags { privacy: false, wpa_flags: 0, rsn_flags: 0 };
    assert!(matches!(
        init_access_point_credentials(&open, "user", "secret"),
        Credentials::Open
    ));

    let wep = SecurityFlags { privacy: true, wpa_flags: 0, rsn_flags: 0 };
    match init_access_point_credentials(&wep, "user", "wepkey123") {
        Credentials::Wep { passphrase } => assert_eq!(passphrase, "wepkey123"),
        other => panic!("expected WEP credentials, got {:?}", other),
    }

    let wpa2 = SecurityFlags { privacy: true, wpa_flags: 0, rsn_flags: PSK_BIT };
    match init_access_point_credentials(&wpa2, "user", "longenough") {
        Credentials::Wpa { passphrase } => assert_eq!(passphrase, "longenough"),
        other => panic!("expected WPA credentials, got {:?}", other),
    }

    let ent = SecurityFlags { privacy: false, wpa_flags: 0, rsn_flags: AP_SEC_KEY_MGMT_802_1X };
    match init_access_point_credentials(&ent, "alice", "pw") {
        Credentials::Enterprise { identity, passphrase } => {
            assert_eq!(identity, "alice");
            assert_eq!(passphrase, "pw");
        },
        other => panic!("expected enterprise credentials, got {:?}", other),
    }
}
