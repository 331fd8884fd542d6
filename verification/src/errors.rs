//! Error taxonomy of the provisioning process and its process exit codes.

use vstd::prelude::*;

verus! {

/// Every failure the orchestration layer can report.  Fatal setup errors
/// abort the process with a distinct exit code; per-attempt failures are
/// handled inside the command loop and never surface here.
#[derive(Clone, Copy, Debug, PartialEq, Eq, Structural)]
pub enum ErrorKind {
    /// Catch-all for failures outside the explicit taxonomy.
    Other,
    /// Spawning the DHCP/DNS helper process failed.
    Dnsmasq,
    /// Receiving the access-point list on the front-end channel failed.
    RecvAccessPointSSIDs,
    /// Sending the access-point list to the front end failed.
    SendAccessPointSSIDs,
    /// Serializing the access-point list failed.
    SerializeAccessPointSSIDs,
    /// The inbound command queue broke.
    RecvNetworkCommand,
    /// Forwarding an activate command to the handler failed.
    SendNetworkCommandActivate,
    /// Forwarding a connect command to the handler failed.
    SendNetworkCommandConnect,
    /// No network device exists with the requested interface name.
    DeviceByInterface,
    /// The requested interface is not a Wi-Fi device.
    NotAWiFiDevice,
    /// The requested interface exists but the network service does not
    /// manage it.
    UnmanagedDevice,
    /// No managed Wi-Fi device was found at all.
    NoWiFiDevice,
    /// Reading scan results from the network service failed.
    NoAccessPoints,
    /// The captive portal profile could not be created or activated.
    CreateCaptivePortal,
    /// The captive portal profile could not be stopped.
    StopAccessPoint,
    /// Deleting a stale portal profile failed.
    DeleteAccessPoint,
    /// The HTTP front end could not be started.
    StartHTTPServer,
    /// The network-management service started but never became active.
    StartActiveNetworkManager,
    /// The network-management service could not be started.
    StartNetworkManager,
    /// Blocking the termination signals failed.
    BlockExitSignals,
    /// Waiting on the termination signals failed.
    TrapExitSignals,
    /// The process is not running with root privileges.
    RootPrivilegesRequired,
}

/// The process exit code reserved for each error kind.
pub open spec fn spec_exit_code(e: ErrorKind) -> i32 {
    match e {
        ErrorKind::Other => 1,
        ErrorKind::Dnsmasq => 3,
        ErrorKind::RecvAccessPointSSIDs => 4,
        ErrorKind::SendAccessPointSSIDs => 5,
        ErrorKind::SerializeAccessPointSSIDs => 6,
        ErrorKind::RecvNetworkCommand => 7,
        ErrorKind::SendNetworkCommandActivate => 8,
        ErrorKind::SendNetworkCommandConnect => 9,
        ErrorKind::DeviceByInterface => 10,
        ErrorKind::NotAWiFiDevice => 11,
        ErrorKind::UnmanagedDevice => 20,
        ErrorKind::NoWiFiDevice => 12,
        ErrorKind::NoAccessPoints => 13,
        ErrorKind::CreateCaptivePortal => 14,
        ErrorKind::StopAccessPoint => 15,
        ErrorKind::DeleteAccessPoint => 16,
        ErrorKind::StartHTTPServer => 17,
        ErrorKind::StartActiveNetworkManager => 18,
        ErrorKind::StartNetworkManager => 19,
        ErrorKind::BlockExitSignals => 21,
        ErrorKind::TrapExitSignals => 22,
        ErrorKind::RootPrivilegesRequired => 23,
    }
}

/// Exit code for an error: one reserved small integer per kind, 1 for an
/// unclassified error.
pub fn exit_code(e: &ErrorKind) -> (code: i32)
    ensures
        code == spec_exit_code(*e),
        1 <= code <= 23,
{
    match *e {
        ErrorKind::Other => 1,
        ErrorKind::Dnsmasq => 3,
        ErrorKind::RecvAccessPointSSIDs => 4,
        ErrorKind::SendAccessPointSSIDs => 5,
        ErrorKind::SerializeAccessPointSSIDs => 6,
        ErrorKind::RecvNetworkCommand => 7,
        ErrorKind::SendNetworkCommandActivate => 8,
        ErrorKind::SendNetworkCommandConnect => 9,
        ErrorKind::DeviceByInterface => 10,
        ErrorKind::NotAWiFiDevice => 11,
        ErrorKind::UnmanagedDevice => 20,
        ErrorKind::NoWiFiDevice => 12,
        ErrorKind::NoAccessPoints => 13,
        ErrorKind::CreateCaptivePortal => 14,
        ErrorKind::StopAccessPoint => 15,
        ErrorKind::DeleteAccessPoint => 16,
        ErrorKind::StartHTTPServer => 17,
        ErrorKind::StartActiveNetworkManager => 18,
        ErrorKind::StartNetworkManager => 19,
        ErrorKind::BlockExitSignals => 21,
        ErrorKind::TrapExitSignals => 22,
        ErrorKind::RootPrivilegesRequired => 23,
    }
}

/// Human-readable description of each error kind.
pub open spec fn spec_description(e: ErrorKind) -> Seq<char> {
    match e {
        ErrorKind::Other => "unclassified error"@,
        ErrorKind::Dnsmasq => "Spawning dnsmasq failed"@,
        ErrorKind::RecvAccessPointSSIDs => "Receiving access point SSIDs failed"@,
        ErrorKind::SendAccessPointSSIDs => "Sending access point SSIDs failed"@,
        ErrorKind::SerializeAccessPointSSIDs => "Serializing access point SSIDs failed"@,
        ErrorKind::RecvNetworkCommand => "Receiving network command failed"@,
        ErrorKind::SendNetworkCommandActivate => "Sending NetworkCommand::Activate failed"@,
        ErrorKind::SendNetworkCommandConnect => "Sending NetworkCommand::Connect failed"@,
        ErrorKind::DeviceByInterface => "Cannot find network device with interface name"@,
        ErrorKind::NotAWiFiDevice => "Not a WiFi device"@,
        ErrorKind::UnmanagedDevice => "Not a managed device"@,
        ErrorKind::NoWiFiDevice => "Cannot find a WiFi device"@,
        ErrorKind::NoAccessPoints => "Getting access points failed"@,
        ErrorKind::CreateCaptivePortal => "Creating the captive portal failed"@,
        ErrorKind::StopAccessPoint => "Stopping the access point failed"@,
        ErrorKind::DeleteAccessPoint => "Deleting access point connection profile failed"@,
        ErrorKind::StartHTTPServer => "Cannot start HTTP server"@,
        ErrorKind::StartActiveNetworkManager => "Starting the NetworkManager service with active state failed"@,
        ErrorKind::StartNetworkManager => "Starting the NetworkManager service failed"@,
        ErrorKind::BlockExitSignals => "Blocking exit signals failed"@,
        ErrorKind::TrapExitSignals => "Trapping exit signals failed"@,
        ErrorKind::RootPrivilegesRequired => "Root privileges required"@,
    }
}

impl ErrorKind {
    /// The description as a string slice, for callers that print a cause.
    pub fn description(&self) -> (r: &'static str)
        ensures
            r@ == spec_description(*self),
    {
        match *self {
            ErrorKind::Other => "unclassified error",
            ErrorKind::Dnsmasq => "Spawning dnsmasq failed",
            ErrorKind::RecvAccessPointSSIDs => "Receiving access point SSIDs failed",
            ErrorKind::SendAccessPointSSIDs => "Sending access point SSIDs failed",
            ErrorKind::SerializeAccessPointSSIDs => "Serializing access point SSIDs failed",
            ErrorKind::RecvNetworkCommand => "Receiving network command failed",
            ErrorKind::SendNetworkCommandActivate => "Sending NetworkCommand::Activate failed",
            ErrorKind::SendNetworkCommandConnect => "Sending NetworkCommand::Connect failed",
            ErrorKind::DeviceByInterface => "Cannot find network device with interface name",
            ErrorKind::NotAWiFiDevice => "Not a WiFi device",
            ErrorKind::UnmanagedDevice => "Not a managed device",
            ErrorKind::NoWiFiDevice => "Cannot find a WiFi device",
            ErrorKind::NoAccessPoints => "Getting access points failed",
            ErrorKind::CreateCaptivePortal => "Creating the captive portal failed",
            ErrorKind::StopAccessPoint => "Stopping the access point failed",
            ErrorKind::DeleteAccessPoint => "Deleting access point connection profile failed",
            ErrorKind::StartHTTPServer => "Cannot start HTTP server",
            ErrorKind::StartActiveNetworkManager => "Starting the NetworkManager service with active state failed",
            ErrorKind::StartNetworkManager => "Starting the NetworkManager service failed",
            ErrorKind::BlockExitSignals => "Blocking exit signals failed",
            ErrorKind::TrapExitSignals => "Trapping exit signals failed",
            ErrorKind::RootPrivilegesRequired => "Root privileges required",
        }
    }
}

} // verus!
