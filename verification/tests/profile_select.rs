//! Selection of stored connection profiles for deletion.

use wifi_connect::profiles::{
    ap_profiles_to_delete, connections_to_same_network, is_access_point_connection,
    is_same_ssid, is_wifi_connection, ConnectionInfo,
};

fn conn(kind: &str, mode: &str, ssid: &[u8]) -> ConnectionInfo {
    ConnectionInfo { kind: kind.to_string(), mode: mode.to_string(), ssid: ssid.to_vec() }
}

#[test]
fn predicates() {
    let c = conn("802-11-wireless", "ap", b"WiFiConnect");
    assert!(is_wifi_connection(&c));
    assert!(is_access_point_connection(&c));
    assert!(is_same_ssid(&c, "WiFiConnect"));
    assert!(!is_same_ssid(&c, "Other"));

    let wired = conn("802-3-ethernet", "", b"WiFiConnect");
    assert!(!is_wifi_connection(&wired));
    assert!(!is_access_point_connection(&wired));

    let station = conn("802-11-wireless", "infrastructure", b"HomeNet");
    assert!(is_wifi_connection(&station));
    assert!(!is_access_point_connection(&station));
}

#[test]
fn stale_portal_profiles_only() {
    let conns = vec![
        conn("802-11-wireless", "ap", b"WiFiConnect"),
        conn("802-11-wireless", "infrastructure", b"WiFiConnect"),
        conn("802-3-ethernet", "ap", b"WiFiConnect"),
        conn("802-11-wireless", "ap", b"Other"),
        conn("802-11-wireless", "ap", b"WiFiConnect"),
    ];
    assert_eq!(ap_profiles_to_delete(&conns, "WiFiConnect"), vec![0, 4]);
}

#[test]
fn same_network_profiles_regardless_of_mode() {
    let conns = vec![
        conn("802-11-wireless", "infrastructure", b"HomeNet"),
        conn("802-11-wireless", "ap", b"HomeNet"),
        conn("802-3-ethernet", "", b"HomeNet"),
        conn("802-11-wireless", "infrastructure", b"Other"),
    ];
    assert_eq!(connections_to_same_network(&conns, "HomeNet"), vec![0, 1]);
}

#[test]
fn raw_byte_ssid_matches_no_text() {
    let c = conn("802-11-wireless", "ap", &[0xff, 0x00, 0x41]);
    assert!(!is_same_ssid(&c, "WiFiConnect"));
    let conns = vec![c];
    assert_eq!(ap_profiles_to_delete(&conns, "WiFiConnect"), Vec::<usize>::new());
}
