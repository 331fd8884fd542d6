//! Device selection by interface name or by first managed Wi-Fi device.

use wifi_connect::device::{find_device, find_wifi_managed_device, DeviceInfo};
use wifi_connect::errors::ErrorKind;

fn dev(interface: &str, is_wifi: bool, managed: bool) -> DeviceInfo {
    DeviceInfo { interface: interface.to_string(), is_wifi, managed }
}

#[test]
fn named_interface_resolves() {
    let devices = vec![dev("eth0", false, true), dev("wlan0", true, true)];
    assert_eq!(find_device(&devices, &Some("wlan0".to_string())), Ok(1));
}

#[test]
fn named_interface_missing() {
    let devices = vec![dev("eth0", false, true)];
    assert_eq!(
        find_device(&devices, &Some("wlan1".to_string())),
        Err(ErrorKind::DeviceByInterface)
    );
}

#[test]
fn named_interface_not_wifi() {
    let devices = vec![dev("eth0", false, true)];
    assert_eq!(
        find_device(&devices, &Some("eth0".to_string())),
        Err(ErrorKind::NotAWiFiDevice)
    );
}

#[test]
fn named_interface_unmanaged() {
    let devices = vec![dev("wlan0", true, false)];
    assert_eq!(
        find_device(&devices, &Some("wlan0".to_string())),
        Err(ErrorKind::UnmanagedDevice)
    );
}

#[test]
fn first_managed_wifi_device_wins() {
    let devices = vec![
        dev("eth0", false, true),
        dev("wlan0", true, false),
        dev("wlan1", true, true),
        dev("wlan2", true, true),
    ];
    assert_eq!(find_wifi_managed_device(&devices), Some(2));
    assert_eq!(find_device(&devices, &None), Ok(2));
}

#[test]
fn no_wifi_device_at_all() {
    let devices = vec![dev("eth0", false, true), dev("wlan0", true, false)];
    assert_eq!(find_device(&devices, &None), Err(ErrorKind::NoWiFiDevice));
}
