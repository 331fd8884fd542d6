//! The scan filtering pipeline: drop undecodable SSIDs, deduplicate
//! keeping the first occurrence, drop hidden entries.

use wifi_connect::access_point::{filter_access_points, find_access_point, AccessPoint};
use wifi_connect::network::get_networks;
use wifi_connect::security::SecurityFlags;

fn ap(ssid: &[u8], strength: u32) -> AccessPoint {
    AccessPoint {
        ssid: ssid.to_vec(),
        strength,
        flags: SecurityFlags { privacy: false, wpa_flags: 0, rsn_flags: 0 },
    }
}

#[test]
fn pipeline_drops_and_dedups() {
    let raw = vec![
        ap(&[0xff, 0xfe, 0x41], 90), // not UTF-8: dropped
        ap(b"Home", 80),
        ap(b"", 70),      // hidden: dropped
        ap(b"Home", 60),  // duplicate: dropped, first kept
        ap(b"Cafe", 50),
    ];
    let filtered = filter_access_points(&raw);
    assert_eq!(filtered.len(), 2);
    assert_eq!(filtered[0].ssid, b"Home".to_vec());
    assert_eq!(filtered[0].strength, 80);
    assert_eq!(filtered[1].ssid, b"Cafe".to_vec());
}

#[test]
fn filtering_twice_changes_nothing() {
    let raw = vec![
        ap(b"One", 10),
        ap(b"Two", 20),
        ap(b"One", 30),
        ap(&[0xc3, 0x28], 40), // not UTF-8: dropped
        ap(b"", 50),
    ];
    let once = filter_access_points(&raw);
    let twice = filter_access_points(&once);
    assert_eq!(once, twice);
}

#[test]
fn zero_usable_entries_filter_to_empty() {
    let raw = vec![ap(&[0x80], 10), ap(b"", 20)];
    assert!(filter_access_points(&raw).is_empty());
}

#[test]
fn invalid_utf8_never_survives() {
    // If SSID decoding handed the raw bytes through unchecked, this entry
    // would survive the pipeline and surface in the network list.
    let raw = vec![ap(&[0xf0, 0x28, 0x8c, 0x28], 10), ap(b"Valid", 20)];
    let filtered = filter_access_points(&raw);
    assert_eq!(filtered.len(), 1);
    let networks = get_networks(&filtered);
    assert_eq!(networks.len(), 1);
    assert_eq!(networks[0].ssid, "Valid");
    assert_eq!(networks[0].security, "none");
}

#[test]
fn find_access_point_first_match() {
    let aps = vec![ap(b"Alpha", 10), ap(b"Beta", 20), ap(b"Gamma", 30)];
    assert_eq!(find_access_point(&aps, "Beta"), Some(1));
    assert_eq!(find_access_point(&aps, "Delta"), None);
}
