use vstd::prelude::*;
use crate::connection::{next_swept, ConnectionSettingsView, Sweep};
use crate::connectivity::{
    wait_step, Connectivity, WaitStep, CONNECTION_TIMEOUT, WAIT_INTERVAL,
};
use crate::device::{first_usable, named_device_verdict, DeviceView};
use crate::discovery::{discovered, networks_of, position_of};
use crate::errors::ErrorKind;
use crate::exit::ExitEvent;
use crate::protocol::{
    ActionView, ConnectionState, EventView, NetworkCommandResponseView, NetworkCommandView,
};
use crate::wifi::{credentials_for, AccessPointView};

verus! {

/// The number of scans that are made before an empty list is accepted.
pub const SCAN_ATTEMPTS: u32 = 10;

/// The seconds between two scans that found nothing.
pub const SCAN_INTERVAL: u64 = 1;

/// The seconds that the backend is given to settle after the hotspot was
/// taken down.
pub const SETTLE_TIME: u64 = 1;

/// The seconds between two looks at the connectivity while no command waits.
pub const IDLE_INTERVAL: u64 = 2;

/// The seconds that other threads are given to log before a disconnected
/// command queue ends the handler.
pub const DISCONNECT_GRACE: u64 = 1;

/// The portal as the handler holds it.
#[derive(Clone, Copy, Debug, PartialEq, Eq, Structural)]
pub enum PortalState {
    /// No hotspot is held.
    NoPortal,
    /// The hotspot is up; the configuration page was not loaded yet.
    PortalUp,
    /// The hotspot is up and the configuration page has got the network
    /// list.
    PortalActive,
}

/// How a shutdown ends.
#[derive(Clone, Copy, Debug, PartialEq, Eq)]
pub enum Ending {
    /// In good order, for this reason.
    Exit(ExitEvent),
    /// The handler failed with this error: what it holds is taken down as
    /// far as that goes, and `UnexpectedExit` is posted.
    Teardown(ErrorKind),
    /// The handler could not be set up, for this error: what it holds is
    /// taken down as far as that goes, and no exit event is posted.
    Abort(ErrorKind),
}

/// What follows once the hotspot is down.
#[derive(Clone, Copy, Debug, PartialEq, Eq)]
pub enum After {
    /// The shutdown goes on.
    End(Ending),
    /// The portal is set up anew.
    Reload,
    /// The network that the user chose is joined.
    Connect,
}

/// What a scan is made for.
#[derive(Clone, Copy, Debug, PartialEq, Eq, Structural)]
pub enum Purpose {
    /// The first portal.
    Startup,
    /// A portal that replaces one that was taken down.
    Recreate,
    /// Joining the network that the user chose.
    Connect,
}

/// Where the handler stands: the action that it asked last and waits to be
/// answered.
#[derive(Clone, Copy, Debug, PartialEq, Eq)]
pub enum Phase {
    /// Asked: `GetDeviceByInterface` or `ListDevices`.
    FindDevice,
    /// Asked: `UseDevice`.
    BindDevice,
    /// Asked: `ProbeInternet`.
    ProbeInternet,
    /// Asked: `Scan`, for the `attempt`th time.
    Scan { purpose: Purpose, attempt: u32 },
    /// Asked: `Sleep`, after the `attempt`th scan found nothing.
    ScanPause { purpose: Purpose, attempt: u32 },
    /// Asked: `CreatePortal`.
    CreatePortal { startup: bool },
    /// Asked: `StartHelper`.
    StartHelper,
    /// Asked: `TrapExitSignals`.
    TrapExitSignals,
    /// Asked: `StartServer`.
    StartServer,
    /// Asked: `StartTimer`.
    StartTimer,
    /// Asked: `Poll`.
    Poll,
    /// Asked: `Sleep`, after the command queue was found disconnected.
    Disconnected,
    /// Asked: `Send`.
    SendNetworks,
    /// Asked: `QueryConnectivity`, with no command waiting.
    CheckConnectivity,
    /// Asked: `Sleep`, with no command waiting.
    Idle,
    /// Asked: `DeactivatePortal`.
    DeactivatePortal { after: After },
    /// Asked: `DeletePortal`.
    DeletePortal { after: After },
    /// Asked: `Sleep`, after the hotspot was deleted.
    Settle { after: After },
    /// Asked: `StopHelper`.
    StopHelper { ending: Ending },
    /// Asked: `EmitExit`.
    EmitExit { ending: Ending },
    /// Asked: `ListConnections`, before joining a network.
    ListConnections,
    /// Asked: `DeleteConnection` for the profile at `index`.
    DeleteConnection { index: usize },
    /// Asked: `Connect`.
    Connect,
    /// Asked: `DeleteAttempt`.
    DeleteAttempt,
    /// Asked: `QueryConnectivity`, `total_time` seconds after a connection
    /// was activated.
    WaitConnectivity { total_time: u64 },
    /// Asked: `Sleep`, while waiting for connectivity.
    WaitPause { total_time: u64 },
    /// Nothing is asked any more.
    Finished { result: Result<(), ErrorKind> },
}

/// The handler's state.
pub struct HandlerView {
    pub phase: Phase,
    pub portal: PortalState,
    /// Whether the DHCP/DNS helper process runs.
    pub helper_running: bool,
    /// Whether an exit event was posted.
    pub stopped: bool,
    /// The interface that the configuration names.
    pub interface: Option<Seq<char>>,
    pub activity_timeout: u64,
    /// The discovered list of the last scan that found something.
    pub access_points: Seq<AccessPointView>,
    /// The profiles that the backend listed last.
    pub connections: Seq<ConnectionSettingsView>,
    /// The network that the user chose last, and the credentials given.
    pub ssid: Seq<char>,
    pub identity: Seq<char>,
    pub passphrase: Seq<char>,
    /// Why the last attempt to join a network failed, if it did.
    pub failure: Option<ErrorKind>,
}

/// The handler goes to `phase` and asks `action`.
pub open spec fn asks(s: HandlerView, phase: Phase, action: ActionView) -> (
    HandlerView,
    ActionView,
) {
    (HandlerView { phase, ..s }, action)
}

/// The handler ends with `result`.
pub open spec fn finished(s: HandlerView, result: Result<(), ErrorKind>) -> (
    HandlerView,
    ActionView,
) {
    asks(s, Phase::Finished { result }, ActionView::Finish(result))
}

/// The result with which a shutdown ends.
pub open spec fn result_of(ending: Ending) -> Result<(), ErrorKind> {
    match ending {
        Ending::Exit(_) => Ok(()),
        Ending::Teardown(e) => Err(e),
        Ending::Abort(e) => Err(e),
    }
}

/// The exit event that a shutdown posts, if it posts one.
pub open spec fn event_of(ending: Ending) -> Option<ExitEvent> {
    match ending {
        Ending::Exit(event) => Some(event),
        Ending::Teardown(_) => Some(ExitEvent::UnexpectedExit),
        Ending::Abort(_) => None,
    }
}

/// The last part of a shutdown: the exit event is posted, unless one was
/// posted before or the shutdown posts none, and the handler ends.
pub open spec fn emits(s: HandlerView, ending: Ending) -> (HandlerView, ActionView) {
    match event_of(ending) {
        Some(event) if !s.stopped => asks(
            HandlerView { stopped: true, ..s },
            Phase::EmitExit { ending },
            ActionView::EmitExit(event),
        ),
        _ => finished(s, result_of(ending)),
    }
}

/// The second part of a shutdown: the helper process is stopped, if it runs.
pub open spec fn stops_helper(s: HandlerView, ending: Ending) -> (HandlerView, ActionView) {
    if s.helper_running {
        asks(s, Phase::StopHelper { ending }, ActionView::StopHelper)
    } else {
        emits(s, ending)
    }
}

/// A scan is begun.
pub open spec fn scans(s: HandlerView, purpose: Purpose) -> (HandlerView, ActionView) {
    asks(s, Phase::Scan { purpose, attempt: 1 }, ActionView::Scan)
}

/// The next command is asked for.
pub open spec fn polls(s: HandlerView) -> (HandlerView, ActionView) {
    asks(s, Phase::Poll, ActionView::Poll)
}

/// The head of the handler's loop: a portal that is missing is set up anew,
/// beginning with a scan; then commands are taken.
pub open spec fn loop_head(s: HandlerView) -> (HandlerView, ActionView) {
    if s.portal == PortalState::NoPortal {
        scans(s, Purpose::Recreate)
    } else {
        polls(s)
    }
}

/// What follows once the hotspot is down, or was found not to be held.
pub open spec fn portal_stopped(s: HandlerView, after: After) -> (HandlerView, ActionView) {
    match after {
        After::End(ending) => stops_helper(s, ending),
        After::Reload => loop_head(s),
        After::Connect => scans(s, Purpose::Connect),
    }
}

/// The hotspot is taken down. Where none is held this asks nothing of the
/// backend and goes straight on.
pub open spec fn stops_portal(s: HandlerView, after: After) -> (HandlerView, ActionView) {
    if s.portal == PortalState::NoPortal {
        portal_stopped(s, after)
    } else {
        asks(s, Phase::DeactivatePortal { after }, ActionView::DeactivatePortal)
    }
}

/// The handler fails with `e`: the safety net takes down what is held and
/// posts `UnexpectedExit`.
pub open spec fn fails(s: HandlerView, e: ErrorKind) -> (HandlerView, ActionView) {
    stops_portal(s, After::End(Ending::Teardown(e)))
}

/// The handler cannot be set up, for `e`.
pub open spec fn aborts(s: HandlerView, e: ErrorKind) -> (HandlerView, ActionView) {
    stops_portal(s, After::End(Ending::Abort(e)))
}

/// The handler shuts down in good order: hotspot, helper process, exit event.
pub open spec fn stops(s: HandlerView, event: ExitEvent) -> (HandlerView, ActionView) {
    stops_portal(s, After::End(Ending::Exit(event)))
}

/// The portal is taken down, to be set up anew; the helper process stays.
pub open spec fn reloads(s: HandlerView) -> (HandlerView, ActionView) {
    stops_portal(s, After::Reload)
}

/// The attempt to join the chosen network has failed with `e`. That ends
/// nothing: the failure is noted and the portal is set up anew, so that the
/// user can try again.
pub open spec fn connect_failed(s: HandlerView, e: ErrorKind) -> (HandlerView, ActionView) {
    reloads(HandlerView { failure: Some(e), ..s })
}

/// What follows where the hotspot could not be taken down.
pub open spec fn portal_stop_failed(s: HandlerView, after: After) -> (HandlerView, ActionView) {
    match after {
        After::End(Ending::Exit(_)) => fails(s, ErrorKind::StopAccessPoint),
        After::End(ending) => stops_helper(s, ending),
        After::Reload => fails(s, ErrorKind::StopAccessPoint),
        After::Connect => connect_failed(s, ErrorKind::StopAccessPoint),
    }
}

/// The answer to the hotspot's deactivation: its profile is deleted next.
pub open spec fn portal_deactivated(s: HandlerView, after: After, e: EventView) -> (
    HandlerView,
    ActionView,
) {
    match e {
        EventView::Done => asks(s, Phase::DeletePortal { after }, ActionView::DeletePortal),
        _ => portal_stop_failed(s, after),
    }
}

/// The answer to the deletion of the hotspot's profile: the backend is given
/// a moment to settle.
pub open spec fn portal_deleted(s: HandlerView, after: After, e: EventView) -> (
    HandlerView,
    ActionView,
) {
    match e {
        EventView::Done => asks(s, Phase::Settle { after }, ActionView::Sleep(SETTLE_TIME)),
        _ => portal_stop_failed(s, after),
    }
}

/// The backend has settled: from here on the handler holds no portal.
pub open spec fn portal_settled(s: HandlerView, after: After) -> (HandlerView, ActionView) {
    portal_stopped(HandlerView { portal: PortalState::NoPortal, ..s }, after)
}

/// The answer to the stop of the helper process. In a shutdown in good order
/// a helper that cannot be stopped is the handler's failure; the safety net
/// goes on regardless.
pub open spec fn helper_stopped(s: HandlerView, ending: Ending, e: EventView) -> (
    HandlerView,
    ActionView,
) {
    match e {
        EventView::Done => emits(HandlerView { helper_running: false, ..s }, ending),
        _ => match ending {
            Ending::Exit(_) => fails(s, ErrorKind::Dnsmasq),
            _ => emits(s, ending),
        },
    }
}

/// The device that is bound: the one that the configuration names, which
/// must be wireless and managed, or else the first wireless and managed one
/// that the backend enumerates.
pub open spec fn device_choice(interface: Option<Seq<char>>, devices: Seq<DeviceView>) -> Result<
    int,
    ErrorKind,
> {
    match interface {
        Some(_) => if devices.len() == 0 {
            Err(ErrorKind::DeviceByInterface)
        } else {
            match named_device_verdict(devices[0]) {
                Ok(_) => Ok(0),
                Err(e) => Err(e),
            }
        },
        None => match first_usable(devices) {
            Ok(Some(i)) => Ok(i),
            Ok(None) => Err(ErrorKind::NoWiFiDevice),
            Err(e) => Err(e),
        },
    }
}

/// The answer to the search for the device: the chosen device is bound. A
/// search that fails, or finds no device that will do, ends the handler.
pub open spec fn device_found(s: HandlerView, e: EventView) -> (HandlerView, ActionView) {
    match e {
        EventView::Devices(devices) => match device_choice(s.interface, devices) {
            Ok(i) => asks(s, Phase::BindDevice, ActionView::UseDevice(i as usize)),
            Err(e) => aborts(s, e),
        },
        _ => aborts(
            s,
            if s.interface is Some {
                ErrorKind::DeviceByInterface
            } else {
                ErrorKind::NetworkManager
            },
        ),
    }
}

/// Whether the answer to the probe shows that the internet can be reached.
pub open spec fn is_reachable(e: EventView) -> bool {
    e matches EventView::Probe(Some(code)) && 200 <= code <= 299
}

/// The answer to the first probe: where the internet can be reached already,
/// no portal is set up and the handler ends at once with `InternetConnected`;
/// else the first scan is made.
pub open spec fn probed(s: HandlerView, e: EventView) -> (HandlerView, ActionView) {
    if is_reachable(e) {
        emits(s, Ending::Exit(ExitEvent::InternetConnected))
    } else {
        scans(s, Purpose::Startup)
    }
}

/// The network that the user chose is joined, with the credentials that its
/// security asks for; where the last scan does not show it, the attempt has
/// failed.
pub open spec fn connects(s: HandlerView) -> (HandlerView, ActionView) {
    match position_of(s.access_points, s.ssid) {
        Some(i) => asks(
            s,
            Phase::Connect,
            ActionView::Connect {
                access_point: s.access_points[i],
                credentials: credentials_for(
                    s.access_points[i].security,
                    s.identity,
                    s.passphrase,
                ),
            },
        ),
        None => connect_failed(s, ErrorKind::WiFiConnectionFailed),
    }
}

/// What follows a scan that is done, with the list it found in the state.
pub open spec fn scanned(s: HandlerView, purpose: Purpose) -> (HandlerView, ActionView) {
    match purpose {
        Purpose::Startup => asks(
            s,
            Phase::CreatePortal { startup: true },
            ActionView::CreatePortal,
        ),
        Purpose::Recreate => asks(
            s,
            Phase::CreatePortal { startup: false },
            ActionView::CreatePortal,
        ),
        Purpose::Connect => connects(s),
    }
}

/// What follows a scan that the backend failed.
pub open spec fn scan_failed(s: HandlerView, purpose: Purpose) -> (HandlerView, ActionView) {
    match purpose {
        Purpose::Startup => aborts(s, ErrorKind::NoAccessPoints),
        Purpose::Recreate => fails(s, ErrorKind::NoAccessPoints),
        Purpose::Connect => connect_failed(s, ErrorKind::NoAccessPoints),
    }
}

/// The answer to a scan. A scan whose discovered list is not empty is done;
/// after one that found nothing the handler sleeps; one that the backend
/// failed has failed.
pub open spec fn scan_answered(s: HandlerView, purpose: Purpose, attempt: u32, e: EventView) -> (
    HandlerView,
    ActionView,
) {
    match e {
        EventView::AccessPoints(raw) => if discovered(raw).len() > 0 {
            scanned(HandlerView { access_points: discovered(raw), ..s }, purpose)
        } else {
            asks(s, Phase::ScanPause { purpose, attempt }, ActionView::Sleep(SCAN_INTERVAL))
        },
        _ => scan_failed(s, purpose),
    }
}

/// After the sleep that follows a scan that found nothing: the scan is
/// repeated, up to `SCAN_ATTEMPTS` scans in all; after the last one the empty
/// list is taken as the result.
pub open spec fn scan_paused(s: HandlerView, purpose: Purpose, attempt: u32) -> (
    HandlerView,
    ActionView,
) {
    if attempt < SCAN_ATTEMPTS {
        asks(s, Phase::Scan { purpose, attempt: (attempt + 1) as u32 }, ActionView::Scan)
    } else {
        scanned(HandlerView { access_points: Seq::empty(), ..s }, purpose)
    }
}

/// The answer to the creation of the hotspot. The first portal is followed
/// by the start of the helper process, a later one by the next command.
pub open spec fn portal_created(s: HandlerView, startup: bool, e: EventView) -> (
    HandlerView,
    ActionView,
) {
    match e {
        EventView::Done => {
            let up = HandlerView { portal: PortalState::PortalUp, ..s };
            if startup {
                asks(up, Phase::StartHelper, ActionView::StartHelper)
            } else {
                polls(up)
            }
        },
        _ => if startup {
            aborts(s, ErrorKind::CreateCaptivePortal)
        } else {
            fails(s, ErrorKind::CreateCaptivePortal)
        },
    }
}

/// The answer to the start of the helper process: the trap for exit signals
/// is set up next.
pub open spec fn helper_started(s: HandlerView, e: EventView) -> (HandlerView, ActionView) {
    match e {
        EventView::Done => asks(
            HandlerView { helper_running: true, ..s },
            Phase::TrapExitSignals,
            ActionView::TrapExitSignals,
        ),
        _ => aborts(s, ErrorKind::Dnsmasq),
    }
}

/// The inactivity timer is started where a timeout is configured; with a
/// timeout of 0 there is none, and the handler turns to its commands.
pub open spec fn spawns_activity_timeout(s: HandlerView) -> (HandlerView, ActionView) {
    if s.activity_timeout > 0 {
        asks(s, Phase::StartTimer, ActionView::StartTimer(s.activity_timeout))
    } else {
        polls(s)
    }
}

/// The command that a look into the queue yields: the command that waited;
/// the tick `CheckConnectivity` where none did; an error where the queue is
/// disconnected.
pub open spec fn received(e: EventView) -> Result<NetworkCommandView, ErrorKind> {
    match e {
        EventView::Command(command) => Ok(command),
        EventView::QueueEmpty => Ok(NetworkCommandView::CheckConnectivity),
        _ => Err(ErrorKind::RecvNetworkCommand),
    }
}

/// The network list is sent to the configuration page.
pub open spec fn activates_portal(s: HandlerView) -> (HandlerView, ActionView) {
    asks(
        s,
        Phase::SendNetworks,
        ActionView::Send(NetworkCommandResponseView::Networks(networks_of(s.access_points))),
    )
}

/// Joining a network begins with a look at the profiles that the backend
/// knows.
pub open spec fn connects_to_wifi(
    s: HandlerView,
    ssid: Seq<char>,
    identity: Seq<char>,
    passphrase: Seq<char>,
) -> (HandlerView, ActionView) {
    asks(
        HandlerView { ssid, identity, passphrase, failure: None, ..s },
        Phase::ListConnections,
        ActionView::ListConnections,
    )
}

/// The handler's reaction to a command.
pub open spec fn handles(s: HandlerView, command: NetworkCommandView) -> (
    HandlerView,
    ActionView,
) {
    match command {
        NetworkCommandView::ActivatePortal => activates_portal(s),
        NetworkCommandView::Timeout => if s.portal == PortalState::PortalActive {
            polls(s)
        } else {
            stops(s, ExitEvent::Timeout)
        },
        NetworkCommandView::Exit => stops(s, ExitEvent::ExitSignal),
        NetworkCommandView::WiFiConnect { ssid, identity, passphrase } => connects_to_wifi(
            s,
            ssid,
            identity,
            passphrase,
        ),
        NetworkCommandView::RestartApp => reloads(s),
        NetworkCommandView::CheckConnectivity => asks(
            s,
            Phase::CheckConnectivity,
            ActionView::QueryConnectivity,
        ),
    }
}

/// The answer to a look into the command queue.
pub open spec fn polled(s: HandlerView, e: EventView) -> (HandlerView, ActionView) {
    match received(e) {
        Ok(command) => handles(s, command),
        Err(_) => asks(s, Phase::Disconnected, ActionView::Sleep(DISCONNECT_GRACE)),
    }
}

/// The answer to the sending of the network list: with the list delivered a
/// portal that is up counts as active.
pub open spec fn networks_sent(s: HandlerView, e: EventView) -> (HandlerView, ActionView) {
    match e {
        EventView::Done => polls(
            if s.portal == PortalState::PortalUp {
                HandlerView { portal: PortalState::PortalActive, ..s }
            } else {
                s
            },
        ),
        _ => fails(s, ErrorKind::SendAccessPointSSIDs),
    }
}

/// The answer to the idle handler's look at the connectivity: full
/// connectivity ends the handler; anything else is followed by a sleep.
pub open spec fn connectivity_checked(s: HandlerView, e: EventView) -> (HandlerView, ActionView) {
    match e {
        EventView::Connectivity(Connectivity::Full) => stops(s, ExitEvent::InternetConnected),
        _ => asks(s, Phase::Idle, ActionView::Sleep(IDLE_INTERVAL)),
    }
}

/// The sweep of profiles for the chosen network goes on at place `from`:
/// the next wireless profile with its SSID is deleted, and when none is left
/// the hotspot is taken down so that the radio is free.
pub open spec fn sweeps(s: HandlerView, from: int) -> (HandlerView, ActionView) {
    match next_swept(s.connections, from, Sweep::WiFiProfiles, s.ssid) {
        Some(i) => asks(
            s,
            Phase::DeleteConnection { index: i as usize },
            ActionView::DeleteConnection(i as usize),
        ),
        None => stops_portal(s, After::Connect),
    }
}

/// The answer to the listing of the profiles. A list that cannot be had is
/// passed over.
pub open spec fn connections_listed(s: HandlerView, e: EventView) -> (HandlerView, ActionView) {
    match e {
        EventView::Connections(connections) => sweeps(HandlerView { connections, ..s }, 0),
        _ => stops_portal(s, After::Connect),
    }
}

/// The connectivity that an answer reports, if it reports one.
pub open spec fn reported(e: EventView) -> Option<Connectivity> {
    match e {
        EventView::Connectivity(connectivity) => Some(connectivity),
        _ => None,
    }
}

/// The answer to the activation. A connection that is neither activated nor
/// activating is deleted: the attempt has failed. One that is counts as
/// joined, and connectivity is waited for.
pub open spec fn activation_answered(s: HandlerView, e: EventView) -> (HandlerView, ActionView) {
    match e {
        EventView::Activation(ConnectionState::Activated) | EventView::Activation(
            ConnectionState::Activating,
        ) => asks(s, Phase::WaitConnectivity { total_time: 0 }, ActionView::QueryConnectivity),
        EventView::Activation(_) => asks(s, Phase::DeleteAttempt, ActionView::DeleteAttempt),
        _ => connect_failed(s, ErrorKind::WiFiConnectionFailed),
    }
}

/// The answer to a look at the connectivity, `total_time` seconds after the
/// activation. However the wait ends, the network counts as joined and the
/// handler shuts down with `WiFiConnected`.
pub open spec fn connectivity_awaited(s: HandlerView, total_time: u64, e: EventView) -> (
    HandlerView,
    ActionView,
) {
    match wait_step(reported(e), total_time, CONNECTION_TIMEOUT) {
        WaitStep::Wait => asks(
            s,
            Phase::WaitPause { total_time },
            ActionView::Sleep(WAIT_INTERVAL),
        ),
        _ => stops(s, ExitEvent::WiFiConnected),
    }
}

/// The handler's reaction to the answer `e` in state `s`: the state it goes
/// to and the action it asks next.
#[verifier::opaque]
pub open spec fn next(s: HandlerView, e: EventView) -> (HandlerView, ActionView) {
    match s.phase {
        Phase::FindDevice => device_found(s, e),
        Phase::BindDevice => asks(s, Phase::ProbeInternet, ActionView::ProbeInternet),
        Phase::ProbeInternet => probed(s, e),
        Phase::Scan { purpose, attempt } => scan_answered(s, purpose, attempt, e),
        Phase::ScanPause { purpose, attempt } => scan_paused(s, purpose, attempt),
        Phase::CreatePortal { startup } => portal_created(s, startup, e),
        Phase::StartHelper => helper_started(s, e),
        Phase::TrapExitSignals => asks(s, Phase::StartServer, ActionView::StartServer),
        Phase::StartServer => spawns_activity_timeout(s),
        Phase::StartTimer => polls(s),
        Phase::Poll => polled(s, e),
        Phase::Disconnected => fails(s, ErrorKind::RecvNetworkCommand),
        Phase::SendNetworks => networks_sent(s, e),
        Phase::CheckConnectivity => connectivity_checked(s, e),
        Phase::Idle => polls(s),
        Phase::DeactivatePortal { after } => portal_deactivated(s, after, e),
        Phase::DeletePortal { after } => portal_deleted(s, after, e),
        Phase::Settle { after } => portal_settled(s, after),
        Phase::StopHelper { ending } => helper_stopped(s, ending, e),
        Phase::EmitExit { ending } => finished(s, result_of(ending)),
        Phase::ListConnections => connections_listed(s, e),
        Phase::DeleteConnection { index } => sweeps(s, index + 1),
        Phase::Connect => activation_answered(s, e),
        Phase::DeleteAttempt => connect_failed(s, ErrorKind::WiFiConnectionFailed),
        Phase::WaitConnectivity { total_time } => connectivity_awaited(s, total_time, e),
        Phase::WaitPause { total_time } => asks(
            s,
            Phase::WaitConnectivity { total_time: (total_time + 1) as u64 },
            ActionView::QueryConnectivity,
        ),
        Phase::Finished { result } => (s, ActionView::Finish(result)),
    }
}

/// The state in which the handler begins.
pub open spec fn initial(interface: Option<Seq<char>>, activity_timeout: u64) -> HandlerView {
    HandlerView {
        phase: Phase::FindDevice,
        portal: PortalState::NoPortal,
        helper_running: false,
        stopped: false,
        interface,
        activity_timeout,
        access_points: Seq::empty(),
        connections: Seq::empty(),
        ssid: Seq::empty(),
        identity: Seq::empty(),
        passphrase: Seq::empty(),
        failure: None,
    }
}

/// The first action: the device is looked up by the interface that the
/// configuration names, or the devices are enumerated.
pub open spec fn first_action(interface: Option<Seq<char>>) -> ActionView {
    match interface {
        Some(name) => ActionView::GetDeviceByInterface(name),
        None => ActionView::ListDevices,
    }
}

/// Whether `action` is what a handler in `phase` has asked and waits to be
/// answered.
pub open spec fn is_pending(phase: Phase, action: ActionView) -> bool {
    match phase {
        Phase::FindDevice => action is GetDeviceByInterface || action is ListDevices,
        Phase::BindDevice => action is UseDevice,
        Phase::ProbeInternet => action is ProbeInternet,
        Phase::Scan { .. } => action is Scan,
        Phase::ScanPause { .. } => action == ActionView::Sleep(SCAN_INTERVAL),
        Phase::CreatePortal { .. } => action is CreatePortal,
        Phase::StartHelper => action is StartHelper,
        Phase::TrapExitSignals => action is TrapExitSignals,
        Phase::StartServer => action is StartServer,
        Phase::StartTimer => action is StartTimer,
        Phase::Poll => action is Poll,
        Phase::Disconnected => action == ActionView::Sleep(DISCONNECT_GRACE),
        Phase::SendNetworks => action is Send,
        Phase::CheckConnectivity => action is QueryConnectivity,
        Phase::Idle => action == ActionView::Sleep(IDLE_INTERVAL),
        Phase::DeactivatePortal { .. } => action is DeactivatePortal,
        Phase::DeletePortal { .. } => action is DeletePortal,
        Phase::Settle { .. } => action == ActionView::Sleep(SETTLE_TIME),
        Phase::StopHelper { .. } => action is StopHelper,
        Phase::EmitExit { ending } => event_of(ending) == Some(action->EmitExit_0)
            && action is EmitExit,
        Phase::ListConnections => action is ListConnections,
        Phase::DeleteConnection { index } => action == ActionView::DeleteConnection(index),
        Phase::Connect => action is Connect,
        Phase::DeleteAttempt => action is DeleteAttempt,
        Phase::WaitConnectivity { .. } => action is QueryConnectivity,
        Phase::WaitPause { .. } => action == ActionView::Sleep(WAIT_INTERVAL),
        Phase::Finished { result } => action == ActionView::Finish(result),
    }
}

/// What holds of every state that the handler reaches: while the first
/// portal is being set up, and while a portal is being set up anew, none is
/// held; the helper process is started once, before which it does not run;
/// a handler that takes commands holds a portal; no discovery makes more than
/// `SCAN_ATTEMPTS` scans and no wait for connectivity outlasts
/// `CONNECTION_TIMEOUT` seconds; and a shutdown in good order comes to the
/// helper process only with the hotspot down, and to the exit event only with
/// the helper process stopped.
pub open spec fn is_consistent(s: HandlerView) -> bool {
    match s.phase {
        Phase::FindDevice | Phase::BindDevice | Phase::ProbeInternet => s.portal
            == PortalState::NoPortal && !s.helper_running && !s.stopped,
        Phase::Scan { purpose, attempt } | Phase::ScanPause { purpose, attempt } => {
            &&& s.portal == PortalState::NoPortal
            &&& purpose == Purpose::Startup ==> !s.helper_running
            &&& 1 <= attempt <= SCAN_ATTEMPTS
        },
        Phase::CreatePortal { startup } => {
            &&& s.portal == PortalState::NoPortal
            &&& startup ==> !s.helper_running
        },
        Phase::StartHelper => !s.helper_running && s.portal != PortalState::NoPortal,
        Phase::TrapExitSignals | Phase::StartServer | Phase::StartTimer => s.portal
            != PortalState::NoPortal,
        Phase::StopHelper { ending } => ending is Exit ==> s.portal == PortalState::NoPortal,
        Phase::EmitExit { ending } => {
            &&& s.stopped
            &&& ending is Exit ==> s.portal == PortalState::NoPortal && !s.helper_running
        },
        Phase::Finished { result } => result is Ok ==> s.stopped && s.portal
            == PortalState::NoPortal && !s.helper_running,
        Phase::Poll | Phase::SendNetworks | Phase::CheckConnectivity | Phase::Idle => s.portal
            != PortalState::NoPortal,
        Phase::WaitConnectivity { total_time } => total_time <= CONNECTION_TIMEOUT,
        Phase::WaitPause { total_time } => total_time < CONNECTION_TIMEOUT,
        _ => true,
    }
}

} // verus!
