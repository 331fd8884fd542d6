//! The command-handling state machine, driven through whole scenarios.

use wifi_connect::access_point::AccessPoint;
use wifi_connect::config::{Config, Ipv4Address};
use wifi_connect::handler::{Action, Connectivity, Event, HandlerState};
use wifi_connect::network::NetworkCommand;
use wifi_connect::security::{Credentials, SecurityFlags};

const PSK_BIT: u32 = 0x100;
const CCMP_BIT: u32 = 0x8;

fn config() -> Config {
    Config {
        interface: None,
        ssid: "WiFiConnect".to_string(),
        passphrase: None,
        gateway: Ipv4Address::new(192, 168, 42, 1),
        dhcp_range: "192.168.42.2,192.168.42.254".to_string(),
        listening_port: 80,
        activity_timeout: 600,
    }
}

fn wpa2_ap(ssid: &[u8]) -> AccessPoint {
    AccessPoint {
        ssid: ssid.to_vec(),
        strength: 70,
        flags: SecurityFlags { privacy: true, wpa_flags: 0, rsn_flags: PSK_BIT | CCMP_BIT },
    }
}

/// Bring a fresh machine through startup: scan, portal, helper.
fn started(aps: Vec<AccessPoint>) -> HandlerState {
    let (state, action) = HandlerState::new(config(), "wlan0".to_string());
    assert!(matches!(action, Action::Scan));
    let (state, action) = state.step(Event::ScanComplete { access_points: aps });
    match &action {
        Action::CreatePortal { ssid, gateway, passphrase } => {
            assert_eq!(ssid, "WiFiConnect");
            assert_eq!(*gateway, Ipv4Address::new(192, 168, 42, 1));
            assert!(passphrase.is_none());
        },
        other => panic!("expected portal creation, got {:?}", other),
    }
    let (state, action) = state.step(Event::PortalCreated { ok: true });
    match &action {
        Action::StartHelper { args } => {
            assert_eq!(args[0], "--address=/#/192.168.42.1");
            assert_eq!(args.len(), 9);
        },
        other => panic!("expected helper start, got {:?}", other),
    }
    let (state, action) = state.step(Event::HelperStarted { ok: true });
    assert!(matches!(action, Action::AwaitCommand));
    state
}

#[test]
fn timeout_before_activate_exits_cleanly() {
    let state = started(vec![wpa2_ap(b"HomeNet")]);
    let (state, action) = state.step(Event::Command { command: NetworkCommand::Timeout });
    assert!(matches!(action, Action::StopHelper));
    let (state, action) = state.step(Event::HelperStopped);
    assert!(matches!(action, Action::ClosePortal));
    let (_, action) = state.step(Event::PortalClosed);
    match action {
        Action::Finish { outcome } => assert_eq!(outcome, Ok(())),
        other => panic!("expected clean finish, got {:?}", other),
    }
}

#[test]
fn timeout_after_activate_is_ignored() {
    let state = started(vec![wpa2_ap(b"HomeNet")]);
    let (state, action) = state.step(Event::Command { command: NetworkCommand::Activate });
    match &action {
        Action::SendNetworks { networks } => {
            assert_eq!(networks.len(), 1);
            assert_eq!(networks[0].ssid, "HomeNet");
            assert_eq!(networks[0].security, "wpa");
        },
        other => panic!("expected network list, got {:?}", other),
    }
    let (state, action) = state.step(Event::NetworksSent { ok: true });
    assert!(matches!(action, Action::AwaitCommand));
    // The timer fires, but provisioning is engaged: nothing happens.
    let (state, action) = state.step(Event::Command { command: NetworkCommand::Timeout });
    assert!(matches!(action, Action::AwaitCommand));
    // The loop is still serving: an exit still shuts down in order.
    let (state, action) = state.step(Event::Command { command: NetworkCommand::Exit });
    assert!(matches!(action, Action::StopHelper));
    let (state, action) = state.step(Event::HelperStopped);
    assert!(matches!(action, Action::ClosePortal));
    let (_, action) = state.step(Event::PortalClosed);
    assert!(matches!(action, Action::Finish { outcome: Ok(()) }));
}

#[test]
fn exit_releases_helper_and_portal_once() {
    let state = started(vec![wpa2_ap(b"HomeNet")]);
    let mut stop_helper = 0;
    let mut close_portal = 0;
    let (state, action) = state.step(Event::Command { command: NetworkCommand::Exit });
    if matches!(action, Action::StopHelper) {
        stop_helper += 1;
    }
    let (state, action) = state.step(Event::HelperStopped);
    if matches!(action, Action::ClosePortal) {
        close_portal += 1;
    }
    let (_, action) = state.step(Event::PortalClosed);
    assert!(matches!(action, Action::Finish { outcome: Ok(()) }));
    assert_eq!(stop_helper, 1);
    assert_eq!(close_portal, 1);
}

#[test]
fn empty_scans_exhaust_budget_without_error() {
    let (mut state, mut action) = HandlerState::new(config(), "wlan0".to_string());
    assert!(matches!(action, Action::Scan));
    // Nine empty results are retried; the tenth is accepted as empty.
    for _ in 0..9 {
        let (s, a) = state.step(Event::ScanComplete { access_points: vec![] });
        assert!(matches!(a, Action::Scan));
        state = s;
        action = a;
    }
    let _ = action;
    let (state, action) = state.step(Event::ScanComplete { access_points: vec![] });
    assert!(matches!(action, Action::CreatePortal { .. }));
    let (state, action) = state.step(Event::PortalCreated { ok: true });
    assert!(matches!(action, Action::StartHelper { .. }));
    let (state, action) = state.step(Event::HelperStarted { ok: true });
    assert!(matches!(action, Action::AwaitCommand));
    // The system serves an empty network list rather than failing.
    let (_, action) = state.step(Event::Command { command: NetworkCommand::Activate });
    match action {
        Action::SendNetworks { networks } => assert!(networks.is_empty()),
        other => panic!("expected empty network list, got {:?}", other),
    }
}

#[test]
fn connect_to_unknown_ssid_recreates_portal() {
    let state = started(vec![wpa2_ap(b"HomeNet")]);
    let (state, action) = state.step(Event::Command {
        command: NetworkCommand::Connect {
            ssid: "Nowhere".to_string(),
            identity: String::new(),
            passphrase: "longenough".to_string(),
        },
    });
    match &action {
        Action::DeleteSameNetworkProfiles { ssid } => assert_eq!(ssid, "Nowhere"),
        other => panic!("expected profile deletion, got {:?}", other),
    }
    let (state, action) = state.step(Event::ProfilesDeleted);
    assert!(matches!(action, Action::StopPortal));
    let (state, action) = state.step(Event::PortalStopped { ok: true });
    assert!(matches!(action, Action::Scan));
    // The target is absent: the attempt fails without any profile built.
    let (state, action) = state.step(Event::ScanComplete {
        access_points: vec![wpa2_ap(b"HomeNet")],
    });
    assert!(matches!(action, Action::Scan));
    let (state, action) = state.step(Event::ScanComplete {
        access_points: vec![wpa2_ap(b"HomeNet")],
    });
    assert!(matches!(action, Action::CreatePortal { .. }));
    let (state, action) = state.step(Event::PortalCreated { ok: true });
    assert!(matches!(action, Action::AwaitCommand));
    // Back in the serving state: commands are handled as before.
    let (_, action) = state.step(Event::Command { command: NetworkCommand::Activate });
    assert!(matches!(action, Action::SendNetworks { .. }));
}

#[test]
fn short_psk_fails_attempt_before_any_profile() {
    let state = started(vec![wpa2_ap(b"HomeNet")]);
    let (state, _) = state.step(Event::Command {
        command: NetworkCommand::Connect {
            ssid: "HomeNet".to_string(),
            identity: String::new(),
            passphrase: "short".to_string(),
        },
    });
    let (state, _) = state.step(Event::ProfilesDeleted);
    let (state, _) = state.step(Event::PortalStopped { ok: true });
    let (state, action) = state.step(Event::ScanComplete {
        access_points: vec![wpa2_ap(b"HomeNet")],
    });
    // The key is too short: no activation is requested, the attempt is
    // already on the failed path (rescan, then portal restore).
    assert!(matches!(action, Action::Scan));
    let (state, action) = state.step(Event::ScanComplete {
        access_points: vec![wpa2_ap(b"HomeNet")],
    });
    assert!(matches!(action, Action::CreatePortal { .. }));
    let (_, action) = state.step(Event::PortalCreated { ok: true });
    assert!(matches!(action, Action::AwaitCommand));
}

#[test]
fn failed_activation_rolls_back_and_restores_portal() {
    let state = started(vec![wpa2_ap(b"HomeNet")]);
    let (state, _) = state.step(Event::Command {
        command: NetworkCommand::Connect {
            ssid: "HomeNet".to_string(),
            identity: String::new(),
            passphrase: "longenough".to_string(),
        },
    });
    let (state, _) = state.step(Event::ProfilesDeleted);
    let (state, _) = state.step(Event::PortalStopped { ok: true });
    let (state, action) = state.step(Event::ScanComplete {
        access_points: vec![wpa2_ap(b"HomeNet")],
    });
    assert!(matches!(action, Action::ActivateProfile { .. }));
    // The profile never reaches the activated state: it is rolled back.
    let (state, action) = state.step(Event::ProfileActivated { activated: false });
    assert!(matches!(action, Action::DeleteClientProfile));
    let (state, action) = state.step(Event::RolledBack);
    assert!(matches!(action, Action::Scan));
    let (state, action) = state.step(Event::ScanComplete {
        access_points: vec![wpa2_ap(b"HomeNet")],
    });
    assert!(matches!(action, Action::CreatePortal { .. }));
    let (_, action) = state.step(Event::PortalCreated { ok: true });
    assert!(matches!(action, Action::AwaitCommand));
}

#[test]
fn connectivity_wait_times_out_but_attempt_succeeds() {
    let state = started(vec![wpa2_ap(b"HomeNet")]);
    let (state, _) = state.step(Event::Command {
        command: NetworkCommand::Connect {
            ssid: "HomeNet".to_string(),
            identity: String::new(),
            passphrase: "longenough".to_string(),
        },
    });
    let (state, _) = state.step(Event::ProfilesDeleted);
    let (state, _) = state.step(Event::PortalStopped { ok: true });
    let (state, _) = state.step(Event::ScanComplete {
        access_points: vec![wpa2_ap(b"HomeNet")],
    });
    let (mut state, action) = state.step(Event::ProfileActivated { activated: true });
    assert!(matches!(action, Action::CheckConnectivity));
    // Twenty seconds of nothing: reachability is given up on, but the
    // activated profile still counts as success.
    for _ in 0..20 {
        let (s, a) = state.step(Event::ConnectivitySample {
            connectivity: Connectivity::Disconnected,
        });
        assert!(matches!(a, Action::CheckConnectivity));
        state = s;
    }
    let (state, action) = state.step(Event::ConnectivitySample {
        connectivity: Connectivity::Disconnected,
    });
    assert!(matches!(action, Action::StopHelper));
    let (_, action) = state.step(Event::HelperStopped);
    // The portal was stopped for the attempt: nothing is left to close.
    assert!(matches!(action, Action::Finish { outcome: Ok(()) }));
}

#[test]
fn end_to_end_successful_provisioning() {
    // Portal "WiFiConnect" on 192.168.42.1 serving 192.168.42.2-254; the
    // operator activates the page, then connects to the WPA2 network
    // "HomeNet" with a sufficiently long passphrase.
    let state = started(vec![wpa2_ap(b"HomeNet"), wpa2_ap(b"Cafe")]);
    let (state, action) = state.step(Event::Command { command: NetworkCommand::Activate });
    match &action {
        Action::SendNetworks { networks } => {
            assert_eq!(networks.len(), 2);
            assert_eq!(networks[0].ssid, "HomeNet");
            assert_eq!(networks[0].security, "wpa");
        },
        other => panic!("expected network list, got {:?}", other),
    }
    let (state, action) = state.step(Event::NetworksSent { ok: true });
    assert!(matches!(action, Action::AwaitCommand));
    let (state, action) = state.step(Event::Command {
        command: NetworkCommand::Connect {
            ssid: "HomeNet".to_string(),
            identity: String::new(),
            passphrase: "longenough".to_string(),
        },
    });
    assert!(matches!(action, Action::DeleteSameNetworkProfiles { .. }));
    let (state, action) = state.step(Event::ProfilesDeleted);
    assert!(matches!(action, Action::StopPortal));
    let (state, action) = state.step(Event::PortalStopped { ok: true });
    assert!(matches!(action, Action::Scan));
    let (state, action) = state.step(Event::ScanComplete {
        access_points: vec![wpa2_ap(b"HomeNet"), wpa2_ap(b"Cafe")],
    });
    match &action {
        Action::ActivateProfile { ssid, credentials } => {
            assert_eq!(ssid, "HomeNet");
            match credentials {
                Credentials::Wpa { passphrase } => assert_eq!(passphrase, "longenough"),
                other => panic!("expected a WPA profile, got {:?}", other),
            }
        },
        other => panic!("expected profile activation, got {:?}", other),
    }
    let (state, action) = state.step(Event::ProfileActivated { activated: true });
    assert!(matches!(action, Action::CheckConnectivity));
    let (state, action) = state.step(Event::ConnectivitySample {
        connectivity: Connectivity::Full,
    });
    assert!(matches!(action, Action::StopHelper));
    let (_, action) = state.step(Event::HelperStopped);
    match action {
        Action::Finish { outcome } => {
            // A clean outcome maps to process exit code 0.
            assert_eq!(outcome, Ok(()));
        },
        other => panic!("expected the process to finish, got {:?}", other),
    }
}

#[test]
fn broken_command_queue_is_fatal() {
    let state = started(vec![wpa2_ap(b"HomeNet")]);
    let (state, action) = state.step(Event::CommandChannelClosed);
    assert!(matches!(action, Action::StopHelper));
    let (state, action) = state.step(Event::HelperStopped);
    assert!(matches!(action, Action::ClosePortal));
    let (_, action) = state.step(Event::PortalClosed);
    match action {
        Action::Finish { outcome } => {
            assert_eq!(
                wifi_connect::errors::exit_code(&outcome.unwrap_err()),
                7
            );
        },
        other => panic!("expected a fatal finish, got {:?}", other),
    }
}

#[test]
fn portal_creation_failure_is_fatal() {
    let (state, _) = HandlerState::new(config(), "wlan0".to_string());
    let (state, _) = state.step(Event::ScanComplete { access_points: vec![] });
    let (state, action) = state.step(Event::ScanComplete {
        access_points: vec![wpa2_ap(b"HomeNet")],
    });
    assert!(matches!(action, Action::CreatePortal { .. }));
    let (_, action) = state.step(Event::PortalCreated { ok: false });
    match action {
        Action::Finish { outcome } => {
            assert_eq!(wifi_connect::errors::exit_code(&outcome.unwrap_err()), 14);
        },
        other => panic!("expected a fatal finish, got {:?}", other),
    }
}
