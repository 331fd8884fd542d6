//! The command-handling state machine.
//!
//! One control loop owns all mutable orchestration state.  Every piece of
//! outside work — receiving a command, scanning, creating or stopping the
//! portal profile, starting or stopping the DHCP helper, activating a
//! client profile, probing connectivity — is an [`Action`] handed to the
//! surrounding process, whose result comes back as an [`Event`].  The
//! machine holds the lifecycle invariants: at most one portal profile, at
//! most one helper process, both released exactly once on every exit
//! path, and the portal stopped before any client profile is activated.

use vstd::prelude::*;

use crate::access_point::{
    all_usable, filter_access_points, find_access_point, lemma_filter_wf, spec_filter,
    AccessPoint, ApView,
};
use crate::config::{Config, ConfigView, Ipv4Address};
use crate::dnsmasq::{dnsmasq_arguments, spec_dnsmasq_args};
use crate::errors::ErrorKind;
use crate::exit::ExitResult;
use crate::network::{
    get_networks, spec_networks, Network, NetworkCommand, NetworkCommandView, NetworkView,
};
use crate::security::{
    credentials_psk, init_access_point_credentials, psk_ok, spec_credentials_for, spec_needs_psk,
    validate_pre_shared_key, Credentials, CredentialsView,
};

verus! {

/// Scan attempts per scan request: an empty result is retried this many
/// times before the machine goes on with an empty list.
pub const SCAN_ATTEMPTS: u32 = 10;

/// Seconds the connectivity check may wait before the attempt is closed
/// with reachability unknown.
pub const CONNECTIVITY_TIMEOUT: u32 = 20;

/// The network service's connectivity verdict.
#[derive(Clone, Copy, Debug, PartialEq, Eq, Structural)]
pub enum Connectivity {
    Unknown,
    Disconnected,
    Portal,
    Limited,
    Full,
}

/// Where the machine stands, with the data the current step carries.
#[derive(Debug)]
pub enum Phase {
    /// Startup: waiting for the first scan result.
    InitScanning { retries: u32 },
    /// Startup: the portal profile is being created.
    CreatingPortal,
    /// Startup: the DHCP helper is being started.
    StartingHelper,
    /// Provisioning: serving, waiting for the next command.
    AwaitingCommand,
    /// Provisioning: the network list is on its way to the front end.
    SendingNetworks,
    /// Connect attempt: profiles bound to the target SSID are being
    /// deleted.
    Deleting { ssid: String, identity: String, passphrase: String },
    /// Connect attempt: the portal is being stopped.
    StoppingPortal { ssid: String, identity: String, passphrase: String },
    /// Connect attempt: waiting for a fresh scan.
    ConnectScanning { ssid: String, identity: String, passphrase: String, retries: u32 },
    /// Connect attempt: the client profile is being activated.
    Activating { ssid: String },
    /// Connect attempt: the failed client profile is being deleted.
    RollingBack,
    /// Connect attempt: probing Internet reachability.
    CheckingConnectivity { elapsed: u32 },
    /// Failed attempt: waiting for a fresh scan before the portal returns.
    FailedScanning { retries: u32 },
    /// Failed attempt: the portal profile is being recreated.
    RestoringPortal,
    /// Shutdown: the helper process is being stopped.
    ClosingHelper { outcome: ExitResult },
    /// Shutdown: the portal profile is being stopped and deleted.
    ClosingPortal { outcome: ExitResult },
    /// Terminal: the result has been reported.
    Done { outcome: ExitResult },
}

/// Ghost mirror of [`Phase`].
#[verifier::ext_equal]
pub enum PhaseView {
    InitScanning { retries: u32 },
    CreatingPortal,
    StartingHelper,
    AwaitingCommand,
    SendingNetworks,
    Deleting { ssid: Seq<char>, identity: Seq<char>, passphrase: Seq<char> },
    StoppingPortal { ssid: Seq<char>, identity: Seq<char>, passphrase: Seq<char> },
    ConnectScanning { ssid: Seq<char>, identity: Seq<char>, passphrase: Seq<char>, retries: u32 },
    Activating { ssid: Seq<char> },
    RollingBack,
    CheckingConnectivity { elapsed: u32 },
    FailedScanning { retries: u32 },
    RestoringPortal,
    ClosingHelper { outcome: ExitResult },
    ClosingPortal { outcome: ExitResult },
    Done { outcome: ExitResult },
}

impl View for Phase {
    type V = PhaseView;

    open spec fn view(&self) -> PhaseView {
        match self {
            Phase::InitScanning { retries } => PhaseView::InitScanning { retries: *retries },
            Phase::CreatingPortal => PhaseView::CreatingPortal,
            Phase::StartingHelper => PhaseView::StartingHelper,
            Phase::AwaitingCommand => PhaseView::AwaitingCommand,
            Phase::SendingNetworks => PhaseView::SendingNetworks,
            Phase::Deleting { ssid, identity, passphrase } => PhaseView::Deleting {
                ssid: ssid@,
                identity: identity@,
                passphrase: passphrase@,
            },
            Phase::StoppingPortal { ssid, identity, passphrase } => PhaseView::StoppingPortal {
                ssid: ssid@,
                identity: identity@,
                passphrase: passphrase@,
            },
            Phase::ConnectScanning { ssid, identity, passphrase, retries } => (
            PhaseView::ConnectScanning {
                ssid: ssid@,
                identity: identity@,
                passphrase: passphrase@,
                retries: *retries,
            }),
            Phase::Activating { ssid } => PhaseView::Activating { ssid: ssid@ },
            Phase::RollingBack => PhaseView::RollingBack,
            Phase::CheckingConnectivity { elapsed } => PhaseView::CheckingConnectivity {
                elapsed: *elapsed,
            },
            Phase::FailedScanning { retries } => PhaseView::FailedScanning { retries: *retries },
            Phase::RestoringPortal => PhaseView::RestoringPortal,
            Phase::ClosingHelper { outcome } => PhaseView::ClosingHelper { outcome: *outcome },
            Phase::ClosingPortal { outcome } => PhaseView::ClosingPortal { outcome: *outcome },
            Phase::Done { outcome } => PhaseView::Done { outcome: *outcome },
        }
    }
}

/// The result of one piece of outside work, fed into the machine.
#[derive(Debug)]
pub enum Event {
    /// A command arrived on the inbound queue.
    Command { command: NetworkCommand },
    /// The inbound queue broke.
    CommandChannelClosed,
    /// The network list was sent to the front end, or the channel broke.
    NetworksSent { ok: bool },
    /// Deleting the profiles bound to the target SSID finished
    /// (best-effort).
    ProfilesDeleted,
    /// The portal was stopped and deleted, or that failed.
    PortalStopped { ok: bool },
    /// A scan finished with these raw results.
    ScanComplete { access_points: Vec<AccessPoint> },
    /// Reading scan results failed.
    ScanFailed,
    /// The client profile was built and brought up; `activated` tells
    /// whether it reached the activated state.
    ProfileActivated { activated: bool },
    /// Building or activating the client profile failed outright.
    ActivationFailed,
    /// The failed client profile was deleted (best-effort).
    RolledBack,
    /// One connectivity probe returned this verdict.
    ConnectivitySample { connectivity: Connectivity },
    /// Probing connectivity failed.
    ConnectivityFailed,
    /// The portal profile was created and activated, or that failed.
    PortalCreated { ok: bool },
    /// The DHCP helper was spawned, or that failed.
    HelperStarted { ok: bool },
    /// The DHCP helper was stopped (best-effort).
    HelperStopped,
    /// The portal profile was stopped and deleted during shutdown
    /// (best-effort).
    PortalClosed,
}

/// Ghost mirror of [`Event`].
#[verifier::ext_equal]
pub enum EventView {
    Command { command: NetworkCommandView },
    CommandChannelClosed,
    NetworksSent { ok: bool },
    ProfilesDeleted,
    PortalStopped { ok: bool },
    ScanComplete { access_points: Seq<ApView> },
    ScanFailed,
    ProfileActivated { activated: bool },
    ActivationFailed,
    RolledBack,
    ConnectivitySample { connectivity: Connectivity },
    ConnectivityFailed,
    PortalCreated { ok: bool },
    HelperStarted { ok: bool },
    HelperStopped,
    PortalClosed,
}

impl View for Event {
    type V = EventView;

    open spec fn view(&self) -> EventView {
        match self {
            Event::Command { command } => EventView::Command { command: command@ },
            Event::CommandChannelClosed => EventView::CommandChannelClosed,
            Event::NetworksSent { ok } => EventView::NetworksSent { ok: *ok },
            Event::ProfilesDeleted => EventView::ProfilesDeleted,
            Event::PortalStopped { ok } => EventView::PortalStopped { ok: *ok },
            Event::ScanComplete { access_points } => EventView::ScanComplete {
                access_points: access_points.deep_view(),
            },
            Event::ScanFailed => EventView::ScanFailed,
            Event::ProfileActivated { activated } => EventView::ProfileActivated {
                activated: *activated,
            },
            Event::ActivationFailed => EventView::ActivationFailed,
            Event::RolledBack => EventView::RolledBack,
            Event::ConnectivitySample { connectivity } => EventView::ConnectivitySample {
                connectivity: *connectivity,
            },
            Event::ConnectivityFailed => EventView::ConnectivityFailed,
            Event::PortalCreated { ok } => EventView::PortalCreated { ok: *ok },
            Event::HelperStarted { ok } => EventView::HelperStarted { ok: *ok },
            Event::HelperStopped => EventView::HelperStopped,
            Event::PortalClosed => EventView::PortalClosed,
        }
    }
}

/// The outside work the machine asks for next.
#[derive(Debug)]
pub enum Action {
    /// Request a fresh scan and read its results.
    Scan,
    /// Create and activate the portal profile with these parameters.
    CreatePortal { ssid: String, gateway: Ipv4Address, passphrase: Option<String> },
    /// Spawn the DHCP helper with exactly these arguments.
    StartHelper { args: Vec<String> },
    /// Block for the next command.
    AwaitCommand,
    /// Send this network list to the front end.
    SendNetworks { networks: Vec<Network> },
    /// Delete every stored Wi-Fi profile bound to this SSID
    /// (best-effort).
    DeleteSameNetworkProfiles { ssid: String },
    /// Deactivate and delete the portal profile.
    StopPortal,
    /// Build a client profile for this SSID with these credentials and
    /// activate it.
    ActivateProfile { ssid: String, credentials: Credentials },
    /// Delete the client profile that failed to activate (best-effort).
    DeleteClientProfile,
    /// Probe Internet connectivity once, after a one-second pause.
    CheckConnectivity,
    /// Stop the DHCP helper and wait for it (best-effort).
    StopHelper,
    /// Deactivate and delete the portal profile during shutdown
    /// (best-effort).
    ClosePortal,
    /// Report this result to the process owner; the loop is over.
    Finish { outcome: ExitResult },
}

/// Ghost mirror of [`Action`].
#[verifier::ext_equal]
pub enum ActionView {
    Scan,
    CreatePortal { ssid: Seq<char>, gateway: Ipv4Address, passphrase: Option<Seq<char>> },
    StartHelper { args: Seq<Seq<char>> },
    AwaitCommand,
    SendNetworks { networks: Seq<NetworkView> },
    DeleteSameNetworkProfiles { ssid: Seq<char> },
    StopPortal,
    ActivateProfile { ssid: Seq<char>, credentials: CredentialsView },
    DeleteClientProfile,
    CheckConnectivity,
    StopHelper,
    ClosePortal,
    Finish { outcome: ExitResult },
}

impl View for Action {
    type V = ActionView;

    open spec fn view(&self) -> ActionView {
        match self {
            Action::Scan => ActionView::Scan,
            Action::CreatePortal { ssid, gateway, passphrase } => ActionView::CreatePortal {
                ssid: ssid@,
                gateway: *gateway,
                passphrase: match passphrase {
                    Some(p) => Some(p@),
                    None => None,
                },
            },
            Action::StartHelper { args } => ActionView::StartHelper { args: args.deep_view() },
            Action::AwaitCommand => ActionView::AwaitCommand,
            Action::SendNetworks { networks } => ActionView::SendNetworks {
                networks: networks.deep_view(),
            },
            Action::DeleteSameNetworkProfiles { ssid } => ActionView::DeleteSameNetworkProfiles {
                ssid: ssid@,
            },
            Action::StopPortal => ActionView::StopPortal,
            Action::ActivateProfile { ssid, credentials } => ActionView::ActivateProfile {
                ssid: ssid@,
                credentials: credentials@,
            },
            Action::DeleteClientProfile => ActionView::DeleteClientProfile,
            Action::CheckConnectivity => ActionView::CheckConnectivity,
            Action::StopHelper => ActionView::StopHelper,
            Action::ClosePortal => ActionView::ClosePortal,
            Action::Finish { outcome } => ActionView::Finish { outcome: *outcome },
        }
    }
}

/// All orchestration state the command loop owns.
#[derive(Debug)]
pub struct HandlerState {
    /// Where the machine stands.
    pub phase: Phase,
    /// Whether provisioning was ever engaged; once set, the activity
    /// timeout is permanently ignored.
    pub activated: bool,
    /// Whether the portal profile currently exists.
    pub portal_up: bool,
    /// Whether the DHCP helper process is currently alive.
    pub helper_up: bool,
    /// The filtered result of the most recent scan.
    pub access_points: Vec<AccessPoint>,
    /// The immutable configuration.
    pub config: Config,
    /// The resolved interface name of the provisioning device.
    pub interface: String,
}

/// Ghost mirror of [`HandlerState`].
#[verifier::ext_equal]
pub struct HandlerStateView {
    pub phase: PhaseView,
    pub activated: bool,
    pub portal_up: bool,
    pub helper_up: bool,
    pub access_points: Seq<ApView>,
    pub config: ConfigView,
    pub interface: Seq<char>,
}

impl View for HandlerState {
    type V = HandlerStateView;

    open spec fn view(&self) -> HandlerStateView {
        HandlerStateView {
            phase: self.phase@,
            activated: self.activated,
            portal_up: self.portal_up,
            helper_up: self.helper_up,
            access_points: self.access_points.deep_view(),
            config: self.config@,
            interface: self.interface@,
        }
    }
}

/// The lifecycle invariant: what each phase guarantees about the portal
/// profile, the helper process, the retry counters and the stored scan.
pub open spec fn inv(s: HandlerStateView) -> bool {
    &&& match s.phase {
        PhaseView::InitScanning { retries } => !s.portal_up && !s.helper_up && retries
            < SCAN_ATTEMPTS,
        PhaseView::CreatingPortal => !s.portal_up && !s.helper_up,
        PhaseView::StartingHelper => s.portal_up && !s.helper_up,
        PhaseView::AwaitingCommand => s.portal_up && s.helper_up,
        PhaseView::SendingNetworks => s.portal_up && s.helper_up,
        PhaseView::Deleting { .. } => s.portal_up && s.helper_up,
        PhaseView::StoppingPortal { .. } => s.portal_up && s.helper_up,
        PhaseView::ConnectScanning { retries, .. } => !s.portal_up && s.helper_up && retries
            < SCAN_ATTEMPTS,
        PhaseView::Activating { .. } => !s.portal_up && s.helper_up,
        PhaseView::RollingBack => !s.portal_up && s.helper_up,
        PhaseView::CheckingConnectivity { elapsed } => !s.portal_up && s.helper_up && elapsed
            <= CONNECTIVITY_TIMEOUT,
        PhaseView::FailedScanning { retries } => !s.portal_up && s.helper_up && retries
            < SCAN_ATTEMPTS,
        PhaseView::RestoringPortal => !s.portal_up && s.helper_up,
        PhaseView::ClosingHelper { .. } => s.helper_up,
        PhaseView::ClosingPortal { .. } => s.portal_up && !s.helper_up,
        PhaseView::Done { .. } => !s.portal_up && !s.helper_up,
    }
    &&& all_usable(s.access_points)
    &&& crate::access_point::ssids_distinct(s.access_points)
}

/// Which events the machine accepts in which phase; the surrounding
/// process only ever hands back the result of the action it was given, so
/// every pair it produces is accepted.
pub open spec fn spec_accepts(s: HandlerStateView, ev: EventView) -> bool {
    match (s.phase, ev) {
        (PhaseView::InitScanning { .. }, EventView::ScanComplete { .. }) => true,
        (PhaseView::InitScanning { .. }, EventView::ScanFailed) => true,
        (PhaseView::CreatingPortal, EventView::PortalCreated { .. }) => true,
        (PhaseView::StartingHelper, EventView::HelperStarted { .. }) => true,
        (PhaseView::AwaitingCommand, EventView::Command { .. }) => true,
        (PhaseView::AwaitingCommand, EventView::CommandChannelClosed) => true,
        (PhaseView::SendingNetworks, EventView::NetworksSent { .. }) => true,
        (PhaseView::Deleting { .. }, EventView::ProfilesDeleted) => true,
        (PhaseView::StoppingPortal { .. }, EventView::PortalStopped { .. }) => true,
        (PhaseView::ConnectScanning { .. }, EventView::ScanComplete { .. }) => true,
        (PhaseView::ConnectScanning { .. }, EventView::ScanFailed) => true,
        (PhaseView::Activating { .. }, EventView::ProfileActivated { .. }) => true,
        (PhaseView::Activating { .. }, EventView::ActivationFailed) => true,
        (PhaseView::RollingBack, EventView::RolledBack) => true,
        (PhaseView::CheckingConnectivity { .. }, EventView::ConnectivitySample { .. }) => true,
        (PhaseView::CheckingConnectivity { .. }, EventView::ConnectivityFailed) => true,
        (PhaseView::FailedScanning { .. }, EventView::ScanComplete { .. }) => true,
        (PhaseView::FailedScanning { .. }, EventView::ScanFailed) => true,
        (PhaseView::RestoringPortal, EventView::PortalCreated { .. }) => true,
        (PhaseView::ClosingHelper { .. }, EventView::HelperStopped) => true,
        (PhaseView::ClosingPortal { .. }, EventView::PortalClosed) => true,
        _ => false,
    }
}

/// Route a terminal result through the shutdown phases: stop the helper if
/// it is alive, then the portal if it exists, then report.  Every exit
/// path — success, failure or signal — goes through here, which is what
/// makes the release of both resources exactly-once.
pub open spec fn spec_begin_shutdown(s: HandlerStateView, outcome: ExitResult) -> (
    HandlerStateView,
    ActionView,
) {
    if s.helper_up {
        (
            HandlerStateView { phase: PhaseView::ClosingHelper { outcome }, ..s },
            ActionView::StopHelper,
        )
    } else if s.portal_up {
        (
            HandlerStateView { phase: PhaseView::ClosingPortal { outcome }, ..s },
            ActionView::ClosePortal,
        )
    } else {
        (
            HandlerStateView { phase: PhaseView::Done { outcome }, ..s },
            ActionView::Finish { outcome },
        )
    }
}

/// First access point carrying exactly these SSID bytes, scanning from
/// position `i`.
pub open spec fn spec_find_from(aps: Seq<ApView>, ssid: Seq<u8>, i: int) -> Option<int>
    decreases aps.len() - i,
{
    if i < 0 || i >= aps.len() {
        None
    } else if aps[i].ssid == ssid {
        Some(i)
    } else {
        spec_find_from(aps, ssid, i + 1)
    }
}

/// First access point carrying exactly these SSID bytes.
pub open spec fn spec_find_ap(aps: Seq<ApView>, ssid: Seq<u8>) -> Option<int> {
    spec_find_from(aps, ssid, 0)
}

/// The portal-creation action for this configuration.
pub open spec fn spec_create_portal_action(c: ConfigView) -> ActionView {
    ActionView::CreatePortal { ssid: c.ssid, gateway: c.gateway, passphrase: c.passphrase }
}

/// One scan outcome: either retry (result unusable and budget left), or
/// go on with the filtered list.
pub open spec fn spec_scan_retry(filtered: Seq<ApView>, retries: u32) -> bool {
    filtered.len() == 0 && retries + 1 < SCAN_ATTEMPTS
}

/// What a connect attempt does with a final scan: no access point with
/// the target SSID, or a pre-shared key that fails validation, makes the
/// attempt fail before any profile is built; otherwise the matching
/// credentials are activated.
pub open spec fn spec_connect_decision(
    s: HandlerStateView,
    ssid: Seq<char>,
    identity: Seq<char>,
    passphrase: Seq<char>,
) -> (HandlerStateView, ActionView) {
    match spec_find_ap(s.access_points, vstd::utf8::encode_utf8(ssid)) {
        Some(i) => {
            let creds = spec_credentials_for(s.access_points[i].flags, identity, passphrase);
            if spec_needs_psk(creds) && !psk_ok(passphrase) {
                (
                    HandlerStateView { phase: PhaseView::FailedScanning { retries: 0 }, ..s },
                    ActionView::Scan,
                )
            } else {
                (
                    HandlerStateView { phase: PhaseView::Activating { ssid }, ..s },
                    ActionView::ActivateProfile { ssid, credentials: creds },
                )
            }
        },
        None => (
            HandlerStateView { phase: PhaseView::FailedScanning { retries: 0 }, ..s },
            ActionView::Scan,
        ),
    }
}

/// The transition function: from a state and an accepted event to the
/// next state and the action to perform.  For pairs outside
/// [`spec_accepts`] it returns the state unchanged; [`HandlerState::step`]
/// never admits those.
pub open spec fn spec_step(s: HandlerStateView, ev: EventView) -> (HandlerStateView, ActionView) {
    match (s.phase, ev) {
        (PhaseView::InitScanning { retries }, EventView::ScanComplete { access_points }) => {
            let filtered = spec_filter(access_points);
            if spec_scan_retry(filtered, retries) {
                (
                    HandlerStateView {
                        phase: PhaseView::InitScanning { retries: (retries + 1) as u32 },
                        ..s
                    },
                    ActionView::Scan,
                )
            } else {
                (
                    HandlerStateView {
                        phase: PhaseView::CreatingPortal,
                        access_points: filtered,
                        ..s
                    },
                    spec_create_portal_action(s.config),
                )
            }
        },
        (PhaseView::InitScanning { .. }, EventView::ScanFailed) => spec_begin_shutdown(
            s,
            Err(ErrorKind::NoAccessPoints),
        ),
        (PhaseView::CreatingPortal, EventView::PortalCreated { ok }) => {
            if ok {
                (
                    HandlerStateView {
                        phase: PhaseView::StartingHelper,
                        portal_up: true,
                        ..s
                    },
                    ActionView::StartHelper { args: spec_dnsmasq_args(s.config, s.interface) },
                )
            } else {
                spec_begin_shutdown(s, Err(ErrorKind::CreateCaptivePortal))
            }
        },
        (PhaseView::StartingHelper, EventView::HelperStarted { ok }) => {
            if ok {
                (
                    HandlerStateView {
                        phase: PhaseView::AwaitingCommand,
                        helper_up: true,
                        ..s
                    },
                    ActionView::AwaitCommand,
                )
            } else {
                spec_begin_shutdown(s, Err(ErrorKind::Dnsmasq))
            }
        },
        (PhaseView::AwaitingCommand, EventView::Command { command }) => match command {
            NetworkCommandView::Activate => (
                HandlerStateView {
                    phase: PhaseView::SendingNetworks,
                    activated: true,
                    ..s
                },
                ActionView::SendNetworks { networks: spec_networks(s.access_points) },
            ),
            NetworkCommandView::Timeout => {
                if !s.activated {
                    spec_begin_shutdown(s, Ok(()))
                } else {
                    (s, ActionView::AwaitCommand)
                }
            },
            NetworkCommandView::Exit => spec_begin_shutdown(s, Ok(())),
            NetworkCommandView::Connect { ssid, identity, passphrase } => (
                HandlerStateView {
                    phase: PhaseView::Deleting { ssid, identity, passphrase },
                    ..s
                },
                ActionView::DeleteSameNetworkProfiles { ssid },
            ),
        },
        (PhaseView::AwaitingCommand, EventView::CommandChannelClosed) => spec_begin_shutdown(
            s,
            Err(ErrorKind::RecvNetworkCommand),
        ),
        (PhaseView::SendingNetworks, EventView::NetworksSent { ok }) => {
            if ok {
                (HandlerStateView { phase: PhaseView::AwaitingCommand, ..s }, ActionView::AwaitCommand)
            } else {
                spec_begin_shutdown(s, Err(ErrorKind::SendAccessPointSSIDs))
            }
        },
        (PhaseView::Deleting { ssid, identity, passphrase }, EventView::ProfilesDeleted) => {
            if s.portal_up {
                (
                    HandlerStateView {
                        phase: PhaseView::StoppingPortal { ssid, identity, passphrase },
                        ..s
                    },
                    ActionView::StopPortal,
                )
            } else {
                (
                    HandlerStateView {
                        phase: PhaseView::ConnectScanning { ssid, identity, passphrase, retries: 0 },
                        ..s
                    },
                    ActionView::Scan,
                )
            }
        },
        (
            PhaseView::StoppingPortal { ssid, identity, passphrase },
            EventView::PortalStopped { ok },
        ) => {
            if ok {
                (
                    HandlerStateView {
                        phase: PhaseView::ConnectScanning { ssid, identity, passphrase, retries: 0 },
                        portal_up: false,
                        ..s
                    },
                    ActionView::Scan,
                )
            } else {
                spec_begin_shutdown(s, Err(ErrorKind::StopAccessPoint))
            }
        },
        (
            PhaseView::ConnectScanning { ssid, identity, passphrase, retries },
            EventView::ScanComplete { access_points },
        ) => {
            let filtered = spec_filter(access_points);
            if spec_scan_retry(filtered, retries) {
                (
                    HandlerStateView {
                        phase: PhaseView::ConnectScanning {
                            ssid,
                            identity,
                            passphrase,
                            retries: (retries + 1) as u32,
                        },
                        ..s
                    },
                    ActionView::Scan,
                )
            } else {
                spec_connect_decision(
                    HandlerStateView { access_points: filtered, ..s },
                    ssid,
                    identity,
                    passphrase,
                )
            }
        },
        (PhaseView::ConnectScanning { .. }, EventView::ScanFailed) => spec_begin_shutdown(
            s,
            Err(ErrorKind::NoAccessPoints),
        ),
        (PhaseView::Activating { .. }, EventView::ProfileActivated { activated }) => {
            if activated {
                (
                    HandlerStateView {
                        phase: PhaseView::CheckingConnectivity { elapsed: 0 },
                        ..s
                    },
                    ActionView::CheckConnectivity,
                )
            } else {
                (
                    HandlerStateView { phase: PhaseView::RollingBack, ..s },
                    ActionView::DeleteClientProfile,
                )
            }
        },
        (PhaseView::Activating { .. }, EventView::ActivationFailed) => (
            HandlerStateView { phase: PhaseView::FailedScanning { retries: 0 }, ..s },
            ActionView::Scan,
        ),
        (PhaseView::RollingBack, EventView::RolledBack) => (
            HandlerStateView { phase: PhaseView::FailedScanning { retries: 0 }, ..s },
            ActionView::Scan,
        ),
        (
            PhaseView::CheckingConnectivity { elapsed },
            EventView::ConnectivitySample { connectivity },
        ) => {
            if connectivity == Connectivity::Full || connectivity == Connectivity::Limited {
                spec_begin_shutdown(s, Ok(()))
            } else if elapsed >= CONNECTIVITY_TIMEOUT {
                spec_begin_shutdown(s, Ok(()))
            } else {
                (
                    HandlerStateView {
                        phase: PhaseView::CheckingConnectivity { elapsed: (elapsed + 1) as u32 },
                        ..s
                    },
                    ActionView::CheckConnectivity,
                )
            }
        },
        (PhaseView::CheckingConnectivity { .. }, EventView::ConnectivityFailed) => (
        spec_begin_shutdown(s, Ok(()))),
        (PhaseView::FailedScanning { retries }, EventView::ScanComplete { access_points }) => {
            let filtered = spec_filter(access_points);
            if spec_scan_retry(filtered, retries) {
                (
                    HandlerStateView {
                        phase: PhaseView::FailedScanning { retries: (retries + 1) as u32 },
                        ..s
                    },
                    ActionView::Scan,
                )
            } else {
                (
                    HandlerStateView {
                        phase: PhaseView::RestoringPortal,
                        access_points: filtered,
                        ..s
                    },
                    spec_create_portal_action(s.config),
                )
            }
        },
        (PhaseView::FailedScanning { .. }, EventView::ScanFailed) => spec_begin_shutdown(
            s,
            Err(ErrorKind::NoAccessPoints),
        ),
        (PhaseView::RestoringPortal, EventView::PortalCreated { ok }) => {
            if ok {
                (
                    HandlerStateView {
                        phase: PhaseView::AwaitingCommand,
                        portal_up: true,
                        ..s
                    },
                    ActionView::AwaitCommand,
                )
            } else {
                spec_begin_shutdown(s, Err(ErrorKind::CreateCaptivePortal))
            }
        },
        (PhaseView::ClosingHelper { outcome }, EventView::HelperStopped) => {
            let s1 = HandlerStateView { helper_up: false, ..s };
            if s1.portal_up {
                (
                    HandlerStateView { phase: PhaseView::ClosingPortal { outcome }, ..s1 },
                    ActionView::ClosePortal,
                )
            } else {
                (
                    HandlerStateView { phase: PhaseView::Done { outcome }, ..s1 },
                    ActionView::Finish { outcome },
                )
            }
        },
        (PhaseView::ClosingPortal { outcome }, EventView::PortalClosed) => (
            HandlerStateView {
                phase: PhaseView::Done { outcome },
                portal_up: false,
                ..s
            },
            ActionView::Finish { outcome },
        ),
        _ => (s, ActionView::AwaitCommand),
    }
}

/// The machine's initial state for this configuration and interface, and
/// the first action: a scan, before the portal comes up.
pub open spec fn spec_init(config: ConfigView, interface: Seq<char>) -> HandlerStateView {
    HandlerStateView {
        phase: PhaseView::InitScanning { retries: 0 },
        activated: false,
        portal_up: false,
        helper_up: false,
        access_points: Seq::empty(),
        config,
        interface,
    }
}

/// An accepted step preserves the lifecycle invariant.
pub proof fn lemma_step_preserves_inv(s: HandlerStateView, ev: EventView)
    requires
        inv(s),
        spec_accepts(s, ev),
    ensures
        inv(spec_step(s, ev).0),
{
    match ev {
        EventView::ScanComplete { access_points } => {
            lemma_filter_wf(access_points);
        },
        _ => {},
    }
}

impl HandlerState {
    /// The machine's initial state, and the first action to perform.
    pub fn new(config: Config, interface: String) -> (r: (HandlerState, Action))
        ensures
            r.0@ == spec_init(config@, interface@),
            r.1@ == ActionView::Scan,
            inv(r.0@),
    {
        let s = HandlerState {
            phase: Phase::InitScanning { retries: 0 },
            activated: false,
            portal_up: false,
            helper_up: false,
            access_points: Vec::new(),
            config,
            interface,
        };
        proof {
            assert(s@ =~= spec_init(s.config@, s.interface@));
        }
        (s, Action::Scan)
    }

    /// Feed one event into the machine; returns the next state and the
    /// action to perform.
    pub fn step(self, ev: Event) -> (r: (HandlerState, Action))
        requires
            inv(self@),
            spec_accepts(self@, ev@),
        ensures
            (r.0@, r.1@) == spec_step(self@, ev@),
            inv(r.0@),
    {
        proof {
            lemma_step_preserves_inv(self@, ev@);
        }
        let ghost s0 = self@;
        let ghost ev0 = ev@;
        let HandlerState { phase, activated, portal_up, helper_up, access_points, config, interface } =
            self;
        let r = match (phase, ev) {
            (Phase::InitScanning { retries }, Event::ScanComplete { access_points: raw }) => {
                let filtered = filter_access_points(&raw);
                if filtered.is_empty() && retries + 1 < SCAN_ATTEMPTS {
                    (
                        HandlerState {
                            phase: Phase::InitScanning { retries: retries + 1 },
                            activated,
                            portal_up,
                            helper_up,
                            access_points,
                            config,
                            interface,
                        },
                        Action::Scan,
                    )
                } else {
                    let action = Action::CreatePortal {
                        ssid: config.ssid.clone(),
                        gateway: config.gateway,
                        passphrase: clone_opt_string(&config.passphrase),
                    };
                    (
                        HandlerState {
                            phase: Phase::CreatingPortal,
                            activated,
                            portal_up,
                            helper_up,
                            access_points: filtered,
                            config,
                            interface,
                        },
                        action,
                    )
                }
            },
            (Phase::InitScanning { .. }, Event::ScanFailed) => begin_shutdown(
                HandlerState {
                    phase: Phase::AwaitingCommand,
                    activated,
                    portal_up,
                    helper_up,
                    access_points,
                    config,
                    interface,
                },
                Err(ErrorKind::NoAccessPoints),
            ),
            (Phase::CreatingPortal, Event::PortalCreated { ok }) => {
                if ok {
                    let args = dnsmasq_arguments(&config, interface.as_str());
                    (
                        HandlerState {
                            phase: Phase::StartingHelper,
                            activated,
                            portal_up: true,
                            helper_up,
                            access_points,
                            config,
                            interface,
                        },
                        Action::StartHelper { args },
                    )
                } else {
                    begin_shutdown(
                        HandlerState {
                            phase: Phase::AwaitingCommand,
                            activated,
                            portal_up,
                            helper_up,
                            access_points,
                            config,
                            interface,
                        },
                        Err(ErrorKind::CreateCaptivePortal),
                    )
                }
            },
            (Phase::StartingHelper, Event::HelperStarted { ok }) => {
                if ok {
                    (
                        HandlerState {
                            phase: Phase::AwaitingCommand,
                            activated,
                            portal_up,
                            helper_up: true,
                            access_points,
                            config,
                            interface,
                        },
                        Action::AwaitCommand,
                    )
                } else {
                    begin_shutdown(
                        HandlerState {
                            phase: Phase::AwaitingCommand,
                            activated,
                            portal_up,
                            helper_up,
                            access_points,
                            config,
                            interface,
                        },
                        Err(ErrorKind::Dnsmasq),
                    )
                }
            },
            (Phase::AwaitingCommand, Event::Command { command }) => match command {
                NetworkCommand::Activate => {
                    let networks = get_networks(&access_points);
                    (
                        HandlerState {
                            phase: Phase::SendingNetworks,
                            activated: true,
                            portal_up,
                            helper_up,
                            access_points,
                            config,
                            interface,
                        },
                        Action::SendNetworks { networks },
                    )
                },
                NetworkCommand::Timeout => {
                    if !activated {
                        begin_shutdown(
                            HandlerState {
                                phase: Phase::AwaitingCommand,
                                activated,
                                portal_up,
                                helper_up,
                                access_points,
                                config,
                                interface,
                            },
                            Ok(()),
                        )
                    } else {
                        (
                            HandlerState {
                                phase: Phase::AwaitingCommand,
                                activated,
                                portal_up,
                                helper_up,
                                access_points,
                                config,
                                interface,
                            },
                            Action::AwaitCommand,
                        )
                    }
                },
                NetworkCommand::Exit => begin_shutdown(
                    HandlerState {
                        phase: Phase::AwaitingCommand,
                        activated,
                        portal_up,
                        helper_up,
                        access_points,
                        config,
                        interface,
                    },
                    Ok(()),
                ),
                NetworkCommand::Connect { ssid, identity, passphrase } => {
                    let target = ssid.clone();
                    (
                        HandlerState {
                            phase: Phase::Deleting { ssid, identity, passphrase },
                            activated,
                            portal_up,
                            helper_up,
                            access_points,
                            config,
                            interface,
                        },
                        Action::DeleteSameNetworkProfiles { ssid: target },
                    )
                },
            },
            (Phase::AwaitingCommand, Event::CommandChannelClosed) => begin_shutdown(
                HandlerState {
                    phase: Phase::AwaitingCommand,
                    activated,
                    portal_up,
                    helper_up,
                    access_points,
                    config,
                    interface,
                },
                Err(ErrorKind::RecvNetworkCommand),
            ),
            (Phase::SendingNetworks, Event::NetworksSent { ok }) => {
                if ok {
                    (
                        HandlerState {
                            phase: Phase::AwaitingCommand,
                            activated,
                            portal_up,
                            helper_up,
                            access_points,
                            config,
                            interface,
                        },
                        Action::AwaitCommand,
                    )
                } else {
                    begin_shutdown(
                        HandlerState {
                            phase: Phase::AwaitingCommand,
                            activated,
                            portal_up,
                            helper_up,
                            access_points,
                            config,
                            interface,
                        },
                        Err(ErrorKind::SendAccessPointSSIDs),
                    )
                }
            },
            (Phase::Deleting { ssid, identity, passphrase }, Event::ProfilesDeleted) => {
                if portal_up {
                    (
                        HandlerState {
                            phase: Phase::StoppingPortal { ssid, identity, passphrase },
                            activated,
                            portal_up,
                            helper_up,
                            access_points,
                            config,
                            interface,
                        },
                        Action::StopPortal,
                    )
                } else {
                    (
                        HandlerState {
                            phase: Phase::ConnectScanning { ssid, identity, passphrase, retries: 0 },
                            activated,
                            portal_up,
                            helper_up,
                            access_points,
                            config,
                            interface,
                        },
                        Action::Scan,
                    )
                }
            },
            (Phase::StoppingPortal { ssid, identity, passphrase }, Event::PortalStopped { ok }) => {
                if ok {
                    (
                        HandlerState {
                            phase: Phase::ConnectScanning { ssid, identity, passphrase, retries: 0 },
                            activated,
                            portal_up: false,
                            helper_up,
                            access_points,
                            config,
                            interface,
                        },
                        Action::Scan,
                    )
                } else {
                    begin_shutdown(
                        HandlerState {
                            phase: Phase::AwaitingCommand,
                            activated,
                            portal_up,
                            helper_up,
                            access_points,
                            config,
                            interface,
                        },
                        Err(ErrorKind::StopAccessPoint),
                    )
                }
            },
            (
                Phase::ConnectScanning { ssid, identity, passphrase, retries },
                Event::ScanComplete { access_points: raw },
            ) => {
                let filtered = filter_access_points(&raw);
                if filtered.is_empty() && retries + 1 < SCAN_ATTEMPTS {
                    (
                        HandlerState {
                            phase: Phase::ConnectScanning {
                                ssid,
                                identity,
                                passphrase,
                                retries: retries + 1,
                            },
                            activated,
                            portal_up,
                            helper_up,
                            access_points,
                            config,
                            interface,
                        },
                        Action::Scan,
                    )
                } else {
                    connect_decision(
                        HandlerState {
                            phase: Phase::AwaitingCommand,
                            activated,
                            portal_up,
                            helper_up,
                            access_points: filtered,
                            config,
                            interface,
                        },
                        ssid,
                        identity,
                        passphrase,
                    )
                }
            },
            (Phase::ConnectScanning { .. }, Event::ScanFailed) => begin_shutdown(
                HandlerState {
                    phase: Phase::AwaitingCommand,
                    activated,
                    portal_up,
                    helper_up,
                    access_points,
                    config,
                    interface,
                },
                Err(ErrorKind::NoAccessPoints),
            ),
            (Phase::Activating { .. }, Event::ProfileActivated { activated: became_active }) => {
                if became_active {
                    (
                        HandlerState {
                            phase: Phase::CheckingConnectivity { elapsed: 0 },
                            activated,
                            portal_up,
                            helper_up,
                            access_points,
                            config,
                            interface,
                        },
                        Action::CheckConnectivity,
                    )
                } else {
                    (
                        HandlerState {
                            phase: Phase::RollingBack,
                            activated,
                            portal_up,
                            helper_up,
                            access_points,
                            config,
                            interface,
                        },
                        Action::DeleteClientProfile,
                    )
                }
            },
            (Phase::Activating { .. }, Event::ActivationFailed) => (
                HandlerState {
                    phase: Phase::FailedScanning { retries: 0 },
                    activated,
                    portal_up,
                    helper_up,
                    access_points,
                    config,
                    interface,
                },
                Action::Scan,
            ),
            (Phase::RollingBack, Event::RolledBack) => (
                HandlerState {
                    phase: Phase::FailedScanning { retries: 0 },
                    activated,
                    portal_up,
                    helper_up,
                    access_points,
                    config,
                    interface,
                },
                Action::Scan,
            ),
            (
                Phase::CheckingConnectivity { elapsed },
                Event::ConnectivitySample { connectivity },
            ) => {
                if connectivity == Connectivity::Full || connectivity == Connectivity::Limited {
                    begin_shutdown(
                        HandlerState {
                            phase: Phase::AwaitingCommand,
                            activated,
                            portal_up,
                            helper_up,
                            access_points,
                            config,
                            interface,
                        },
                        Ok(()),
                    )
                } else if elapsed >= CONNECTIVITY_TIMEOUT {
                    begin_shutdown(
                        HandlerState {
                            phase: Phase::AwaitingCommand,
                            activated,
                            portal_up,
                            helper_up,
                            access_points,
                            config,
                            interface,
                        },
                        Ok(()),
                    )
                } else {
                    (
                        HandlerState {
                            phase: Phase::CheckingConnectivity { elapsed: elapsed + 1 },
                            activated,
                            portal_up,
                            helper_up,
                            access_points,
                            config,
                            interface,
                        },
                        Action::CheckConnectivity,
                    )
                }
            },
            (Phase::CheckingConnectivity { .. }, Event::ConnectivityFailed) => begin_shutdown(
                HandlerState {
                    phase: Phase::AwaitingCommand,
                    activated,
                    portal_up,
                    helper_up,
                    access_points,
                    config,
                    interface,
                },
                Ok(()),
            ),
            (Phase::FailedScanning { retries }, Event::ScanComplete { access_points: raw }) => {
                let filtered = filter_access_points(&raw);
                if filtered.is_empty() && retries + 1 < SCAN_ATTEMPTS {
                    (
                        HandlerState {
                            phase: Phase::FailedScanning { retries: retries + 1 },
                            activated,
                            portal_up,
                            helper_up,
                            access_points,
                            config,
                            interface,
                        },
                        Action::Scan,
                    )
                } else {
                    let action = Action::CreatePortal {
                        ssid: config.ssid.clone(),
                        gateway: config.gateway,
                        passphrase: clone_opt_string(&config.passphrase),
                    };
                    (
                        HandlerState {
                            phase: Phase::RestoringPortal,
                            activated,
                            portal_up,
                            helper_up,
                            access_points: filtered,
                            config,
                            interface,
                        },
                        action,
                    )
                }
            },
            (Phase::FailedScanning { .. }, Event::ScanFailed) => begin_shutdown(
                HandlerState {
                    phase: Phase::AwaitingCommand,
                    activated,
                    portal_up,
                    helper_up,
                    access_points,
                    config,
                    interface,
                },
                Err(ErrorKind::NoAccessPoints),
            ),
            (Phase::RestoringPortal, Event::PortalCreated { ok }) => {
                if ok {
                    (
                        HandlerState {
                            phase: Phase::AwaitingCommand,
                            activated,
                            portal_up: true,
                            helper_up,
                            access_points,
                            config,
                            interface,
                        },
                        Action::AwaitCommand,
                    )
                } else {
                    begin_shutdown(
                        HandlerState {
                            phase: Phase::AwaitingCommand,
                            activated,
                            portal_up,
                            helper_up,
                            access_points,
                            config,
                            interface,
                        },
                        Err(ErrorKind::CreateCaptivePortal),
                    )
                }
            },
            (Phase::ClosingHelper { outcome }, Event::HelperStopped) => {
                if portal_up {
                    (
                        HandlerState {
                            phase: Phase::ClosingPortal { outcome },
                            activated,
                            portal_up,
                            helper_up: false,
                            access_points,
                            config,
                            interface,
                        },
                        Action::ClosePortal,
                    )
                } else {
                    (
                        HandlerState {
                            phase: Phase::Done { outcome },
                            activated,
                            portal_up,
                            helper_up: false,
                            access_points,
                            config,
                            interface,
                        },
                        Action::Finish { outcome },
                    )
                }
            },
            (Phase::ClosingPortal { outcome }, Event::PortalClosed) => (
                HandlerState {
                    phase: Phase::Done { outcome },
                    activated,
                    portal_up: false,
                    helper_up,
                    access_points,
                    config,
                    interface,
                },
                Action::Finish { outcome },
            ),
            (phase, _) => (
                HandlerState {
                    phase,
                    activated,
                    portal_up,
                    helper_up,
                    access_points,
                    config,
                    interface,
                },
                Action::AwaitCommand,
            ),
        };
        proof {
            assert((r.0@, r.1@) =~~= spec_step(s0, ev0));
        }
        r
    }
}

/// Copy of an optional string.
fn clone_opt_string(s: &Option<String>) -> (r: Option<String>)
    ensures
        (match r {
            Some(p) => Some(p@),
            None => None,
        }) == (match s {
            Some(p) => Some(p@),
            None => None::<Seq<char>>,
        }),
{
    match s {
        Some(p) => Some(p.clone()),
        None => None,
    }
}

/// Route a terminal result through the shutdown phases (the phase field of
/// the state handed in is ignored and replaced).
fn begin_shutdown(s: HandlerState, outcome: ExitResult) -> (r: (HandlerState, Action))
    ensures
        (r.0@, r.1@) == spec_begin_shutdown(s@, outcome),
{
    let HandlerState { phase: _, activated, portal_up, helper_up, access_points, config, interface } =
        s;
    if helper_up {
        (
            HandlerState {
                phase: Phase::ClosingHelper { outcome },
                activated,
                portal_up,
                helper_up,
                access_points,
                config,
                interface,
            },
            Action::StopHelper,
        )
    } else if portal_up {
        (
            HandlerState {
                phase: Phase::ClosingPortal { outcome },
                activated,
                portal_up,
                helper_up,
                access_points,
                config,
                interface,
            },
            Action::ClosePortal,
        )
    } else {
        (
            HandlerState {
                phase: Phase::Done { outcome },
                activated,
                portal_up,
                helper_up,
                access_points,
                config,
                interface,
            },
            Action::Finish { outcome },
        )
    }
}

/// Decide what a connect attempt does with its final scan (the phase
/// field of the state handed in is ignored and replaced).
fn connect_decision(s: HandlerState, ssid: String, identity: String, passphrase: String) -> (r: (
    HandlerState,
    Action,
))
    ensures
        (r.0@, r.1@) == spec_connect_decision(s@, ssid@, identity@, passphrase@),
{
    let HandlerState { phase: _, activated, portal_up, helper_up, access_points, config, interface } =
        s;
    let found = find_access_point(&access_points, ssid.as_str());
    match found {
        Some(i) => {
            proof {
                lemma_find_first(access_points.deep_view(), vstd::utf8::encode_utf8(ssid@));
            }
            let flags = access_points[i].flags;
            let credentials = init_access_point_credentials(
                &flags,
                identity.as_str(),
                passphrase.as_str(),
            );
            let psk_valid = match credentials_psk(&credentials) {
                Some(p) => validate_pre_shared_key(p.as_str()).is_ok(),
                None => true,
            };
            if !psk_valid {
                (
                    HandlerState {
                        phase: Phase::FailedScanning { retries: 0 },
                        activated,
                        portal_up,
                        helper_up,
                        access_points,
                        config,
                        interface,
                    },
                    Action::Scan,
                )
            } else {
                let target = ssid.clone();
                (
                    HandlerState {
                        phase: Phase::Activating { ssid },
                        activated,
                        portal_up,
                        helper_up,
                        access_points,
                        config,
                        interface,
                    },
                    Action::ActivateProfile { ssid: target, credentials },
                )
            }
        },
        None => {
            proof {
                lemma_find_first(access_points.deep_view(), vstd::utf8::encode_utf8(ssid@));
            }
            (
                HandlerState {
                    phase: Phase::FailedScanning { retries: 0 },
                    activated,
                    portal_up,
                    helper_up,
                    access_points,
                    config,
                    interface,
                },
                Action::Scan,
            )
        },
    }
}

/// [`spec_find_ap`] returns exactly the first index carrying the SSID:
/// it is `Some(i)` precisely when position `i` matches and no earlier
/// position does, and `None` precisely when no position matches.
pub proof fn lemma_find_first(aps: Seq<ApView>, ssid: Seq<u8>)
    ensures
        match spec_find_ap(aps, ssid) {
            Some(i) => {
                &&& 0 <= i < aps.len()
                &&& aps[i].ssid == ssid
                &&& forall|j: int| 0 <= j < i ==> #[trigger] aps[j].ssid != ssid
            },
            None => forall|j: int| 0 <= j < aps.len() ==> #[trigger] aps[j].ssid != ssid,
        },
{
    lemma_find_from_first(aps, ssid, 0);
}

proof fn lemma_find_from_first(aps: Seq<ApView>, ssid: Seq<u8>, start: int)
    requires
        0 <= start <= aps.len(),
    ensures
        match spec_find_from(aps, ssid, start) {
            Some(i) => {
                &&& start <= i < aps.len()
                &&& aps[i].ssid == ssid
                &&& forall|j: int| start <= j < i ==> #[trigger] aps[j].ssid != ssid
            },
            None => forall|j: int| start <= j < aps.len() ==> #[trigger] aps[j].ssid != ssid,
        },
    decreases aps.len() - start,
{
    if start < aps.len() && aps[start].ssid != ssid {
        lemma_find_from_first(aps, ssid, start + 1);
    }
}

/// After the whole retry budget, a startup scan in which nothing usable
/// was found is accepted: the machine goes on to create the portal with an
/// empty network list, and no error is reported.
pub proof fn lemma_empty_scan_startup(s: HandlerStateView, raw: Seq<ApView>, retries: u32)
    requires
        inv(s),
        s.phase == (PhaseView::InitScanning { retries }),
        retries + 1 == SCAN_ATTEMPTS,
        spec_filter(raw).len() == 0,
    ensures
        spec_step(s, EventView::ScanComplete { access_points: raw }).0.phase
            == PhaseView::CreatingPortal,
        spec_step(s, EventView::ScanComplete { access_points: raw }).0.access_points
            == Seq::<ApView>::empty(),
        spec_step(s, EventView::ScanComplete { access_points: raw }).1
            == spec_create_portal_action(s.config),
{
    assert(spec_filter(raw) =~= Seq::<ApView>::empty());
}

/// The same after a failed connect attempt: the machine recreates the
/// portal and keeps serving with zero visible networks.
pub proof fn lemma_empty_scan_keeps_serving(s: HandlerStateView, raw: Seq<ApView>, retries: u32)
    requires
        inv(s),
        s.phase == (PhaseView::FailedScanning { retries }),
        retries + 1 == SCAN_ATTEMPTS,
        spec_filter(raw).len() == 0,
    ensures
        spec_step(s, EventView::ScanComplete { access_points: raw }).0.phase
            == PhaseView::RestoringPortal,
        spec_step(s, EventView::ScanComplete { access_points: raw }).0.access_points
            == Seq::<ApView>::empty(),
        spec_step(s, EventView::ScanComplete { access_points: raw }).1
            == spec_create_portal_action(s.config),
{
    assert(spec_filter(raw) =~= Seq::<ApView>::empty());
}

/// Once provisioning is engaged, it stays engaged: no accepted step ever
/// clears the flag, so the activity timeout is permanently ignored from
/// then on.
pub proof fn lemma_activated_is_monotone(s: HandlerStateView, ev: EventView)
    requires
        spec_accepts(s, ev),
        s.activated,
    ensures
        spec_step(s, ev).0.activated,
{
}

/// A connect command for an SSID absent from the current scan rolls the
/// loop back to provisioning: the failed attempt is followed by a rescan
/// and a recreated portal, the machine stands in its serving state again,
/// and no error is reported.
pub proof fn lemma_connect_unknown_ssid(
    s: HandlerStateView,
    ssid: Seq<char>,
    identity: Seq<char>,
    passphrase: Seq<char>,
    raw: Seq<ApView>,
    raw2: Seq<ApView>,
)
    requires
        inv(s),
        s.phase == PhaseView::AwaitingCommand,
        spec_filter(raw).len() > 0,
        !crate::access_point::ssid_listed(spec_filter(raw), vstd::utf8::encode_utf8(ssid)),
        spec_filter(raw2).len() > 0,
    ensures
        ({
            let (s1, a1) = spec_step(
                s,
                EventView::Command {
                    command: NetworkCommandView::Connect { ssid, identity, passphrase },
                },
            );
            let (s2, a2) = spec_step(s1, EventView::ProfilesDeleted);
            let (s3, a3) = spec_step(s2, EventView::PortalStopped { ok: true });
            let (s4, a4) = spec_step(s3, EventView::ScanComplete { access_points: raw });
            let (s5, a5) = spec_step(s4, EventView::ScanComplete { access_points: raw2 });
            let (s6, a6) = spec_step(s5, EventView::PortalCreated { ok: true });
            &&& s4.phase == (PhaseView::FailedScanning { retries: 0 })
            &&& a4 == ActionView::Scan
            &&& s5.phase == PhaseView::RestoringPortal
            &&& s6.phase == PhaseView::AwaitingCommand
            &&& s6.portal_up
            &&& s6.helper_up
            &&& s6.activated == s.activated
            &&& inv(s6)
        }),
{
    let (s1, a1) = spec_step(
        s,
        EventView::Command { command: NetworkCommandView::Connect { ssid, identity, passphrase } },
    );
    let (s2, a2) = spec_step(s1, EventView::ProfilesDeleted);
    let (s3, a3) = spec_step(s2, EventView::PortalStopped { ok: true });
    let f = spec_filter(raw);
    lemma_find_first(f, vstd::utf8::encode_utf8(ssid));
    match spec_find_ap(f, vstd::utf8::encode_utf8(ssid)) {
        Some(i) => {
            assert(crate::access_point::ssid_listed(f, vstd::utf8::encode_utf8(ssid)));
        },
        None => {},
    }
    let (s4, a4) = spec_step(s3, EventView::ScanComplete { access_points: raw });
    assert(s4.phase == (PhaseView::FailedScanning { retries: 0 }));
    let (s5, a5) = spec_step(s4, EventView::ScanComplete { access_points: raw2 });
    let (s6, a6) = spec_step(s5, EventView::PortalCreated { ok: true });
    lemma_step_preserves_inv(s, EventView::Command {
        command: NetworkCommandView::Connect { ssid, identity, passphrase },
    });
    lemma_step_preserves_inv(s1, EventView::ProfilesDeleted);
    lemma_step_preserves_inv(s2, EventView::PortalStopped { ok: true });
    lemma_step_preserves_inv(s3, EventView::ScanComplete { access_points: raw });
    lemma_step_preserves_inv(s4, EventView::ScanComplete { access_points: raw2 });
    lemma_step_preserves_inv(s5, EventView::PortalCreated { ok: true });
}

/// A timeout delivered before provisioning was ever engaged shuts the
/// process down cleanly: helper stopped, portal deleted, and the reported
/// outcome is success.
pub proof fn lemma_timeout_before_activate(s: HandlerStateView)
    requires
        inv(s),
        s.phase == PhaseView::AwaitingCommand,
        !s.activated,
    ensures
        ({
            let (s1, a1) = spec_step(
                s,
                EventView::Command { command: NetworkCommandView::Timeout },
            );
            let (s2, a2) = spec_step(s1, EventView::HelperStopped);
            let (s3, a3) = spec_step(s2, EventView::PortalClosed);
            &&& a1 == ActionView::StopHelper
            &&& a2 == ActionView::ClosePortal
            &&& a3 == (ActionView::Finish { outcome: Ok(()) })
            &&& s3.phase == (PhaseView::Done { outcome: Ok(()) })
            &&& !s3.helper_up
            &&& !s3.portal_up
        }),
{
}

/// A timeout delivered after provisioning was engaged has no effect: the
/// state is unchanged and the machine waits for the next command.
pub proof fn lemma_timeout_after_activate(s: HandlerStateView)
    requires
        inv(s),
        s.phase == PhaseView::AwaitingCommand,
        s.activated,
    ensures
        spec_step(s, EventView::Command { command: NetworkCommandView::Timeout }).0 == s,
        spec_step(s, EventView::Command { command: NetworkCommandView::Timeout }).1
            == ActionView::AwaitCommand,
{
}

/// An exit command stops the helper process and deletes the portal
/// profile, each exactly once — the shutdown trace holds one stop-helper
/// action and one close-portal action and nothing else — and then ends
/// the process with a success outcome.
pub proof fn lemma_exit_releases_resources(s: HandlerStateView)
    requires
        inv(s),
        s.phase == PhaseView::AwaitingCommand,
    ensures
        ({
            let (s1, a1) = spec_step(s, EventView::Command { command: NetworkCommandView::Exit });
            let (s2, a2) = spec_step(s1, EventView::HelperStopped);
            let (s3, a3) = spec_step(s2, EventView::PortalClosed);
            &&& a1 == ActionView::StopHelper
            &&& a2 == ActionView::ClosePortal
            &&& a3 == (ActionView::Finish { outcome: Ok(()) })
            &&& s3.phase == (PhaseView::Done { outcome: Ok(()) })
            &&& !s3.helper_up
            &&& !s3.portal_up
        }),
{
}

} // verus!
