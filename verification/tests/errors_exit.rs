//! Process exit codes: one reserved small integer per error kind.

use wifi_connect::errors::{exit_code, ErrorKind};

#[test]
fn reserved_exit_codes() {
    assert_eq!(exit_code(&ErrorKind::Other), 1);
    assert_eq!(exit_code(&ErrorKind::Dnsmasq), 3);
    assert_eq!(exit_code(&ErrorKind::RecvAccessPointSSIDs), 4);
    assert_eq!(exit_code(&ErrorKind::SendAccessPointSSIDs), 5);
    assert_eq!(exit_code(&ErrorKind::SerializeAccessPointSSIDs), 6);
    assert_eq!(exit_code(&ErrorKind::RecvNetworkCommand), 7);
    assert_eq!(exit_code(&ErrorKind::SendNetworkCommandActivate), 8);
    assert_eq!(exit_code(&ErrorKind::SendNetworkCommandConnect), 9);
    assert_eq!(exit_code(&ErrorKind::DeviceByInterface), 10);
    assert_eq!(exit_code(&ErrorKind::NotAWiFiDevice), 11);
    assert_eq!(exit_code(&ErrorKind::NoWiFiDevice), 12);
    assert_eq!(exit_code(&ErrorKind::NoAccessPoints), 13);
    assert_eq!(exit_code(&ErrorKind::CreateCaptivePortal), 14);
    assert_eq!(exit_code(&ErrorKind::StopAccessPoint), 15);
    assert_eq!(exit_code(&ErrorKind::DeleteAccessPoint), 16);
    assert_eq!(exit_code(&ErrorKind::StartHTTPServer), 17);
    assert_eq!(exit_code(&ErrorKind::StartActiveNetworkManager), 18);
    assert_eq!(exit_code(&ErrorKind::StartNetworkManager), 19);
    assert_eq!(exit_code(&ErrorKind::UnmanagedDevice), 20);
    assert_eq!(exit_code(&ErrorKind::BlockExitSignals), 21);
    assert_eq!(exit_code(&ErrorKind::TrapExitSignals), 22);
    assert_eq!(exit_code(&ErrorKind::RootPrivilegesRequired), 23);
}

#[test]
fn descriptions_present() {
    assert_eq!(
        ErrorKind::CreateCaptivePortal.description(),
        "Creating the captive portal failed"
    );
    assert_eq!(ErrorKind::NoWiFiDevice.description(), "Cannot find a WiFi device");
    assert!(!ErrorKind::Dnsmasq.description().is_empty());
}
