use vstd::prelude::*;
use crate::connection::{ConnectionSettings, ConnectionSettingsView};
use crate::connectivity::Connectivity;
use crate::device::{Device, DeviceView};
use crate::errors::ErrorKind;
use crate::exit::ExitEvent;
use crate::wifi::{
    AccessPoint, AccessPointCredentials, AccessPointView, CredentialsView, Network, NetworkView,
};

verus! {

/// A request to the command handler.
#[derive(Clone, Debug, PartialEq, Eq)]
pub enum NetworkCommand {
    /// The configuration page was loaded.
    ActivatePortal,
    /// The inactivity timer ran out.
    Timeout,
    /// Shutdown was requested.
    Exit,
    /// The user chose a network and gave its credentials.
    WiFiConnect { ssid: String, identity: String, passphrase: String },
    /// The user asked for a fresh start.
    RestartApp,
    /// The tick of the idle handler: look at the connectivity.
    CheckConnectivity,
}

/// A command, as mathematical values.
pub enum NetworkCommandView {
    ActivatePortal,
    Timeout,
    Exit,
    WiFiConnect { ssid: Seq<char>, identity: Seq<char>, passphrase: Seq<char> },
    RestartApp,
    CheckConnectivity,
}

impl View for NetworkCommand {
    type V = NetworkCommandView;

    open spec fn view(&self) -> NetworkCommandView {
        match self {
            NetworkCommand::ActivatePortal => NetworkCommandView::ActivatePortal,
            NetworkCommand::Timeout => NetworkCommandView::Timeout,
            NetworkCommand::Exit => NetworkCommandView::Exit,
            NetworkCommand::WiFiConnect { ssid, identity, passphrase } => {
                NetworkCommandView::WiFiConnect {
                    ssid: ssid@,
                    identity: identity@,
                    passphrase: passphrase@,
                }
            },
            NetworkCommand::RestartApp => NetworkCommandView::RestartApp,
            NetworkCommand::CheckConnectivity => NetworkCommandView::CheckConnectivity,
        }
    }
}

/// What the command handler sends to the configuration page.
#[derive(Clone, Debug, PartialEq, Eq)]
pub enum NetworkCommandResponse {
    Networks(Vec<Network>),
}

/// A response, as mathematical values.
pub enum NetworkCommandResponseView {
    Networks(Seq<NetworkView>),
}

impl View for NetworkCommandResponse {
    type V = NetworkCommandResponseView;

    open spec fn view(&self) -> NetworkCommandResponseView {
        match self {
            NetworkCommandResponse::Networks(networks) => NetworkCommandResponseView::Networks(
                networks.deep_view(),
            ),
        }
    }
}

/// The state of the backend service.
#[derive(Clone, Copy, Debug, PartialEq, Eq, Structural)]
pub enum ServiceState {
    Active,
    Reloading,
    Inactive,
    Failed,
    Activating,
    Deactivating,
}

/// The state of a connection after the backend was asked to activate it.
#[derive(Clone, Copy, Debug, PartialEq, Eq, Structural)]
pub enum ConnectionState {
    Unknown,
    Activating,
    Activated,
    Deactivating,
    Deactivated,
}

/// What the daemon asks of the world around it. Each action is carried out
/// by the caller, who answers it with one `Event`; the answer decides the
/// next action.
#[derive(Debug, PartialEq, Eq)]
pub enum Action {
    /// Ask for the state of the backend service. Answer: `Service`.
    QueryServiceState,
    /// Start the backend service and wait at most this many seconds for it.
    /// Answer: `Service`.
    StartService(u64),
    /// List the connection profiles that the backend knows. Answer:
    /// `Connections`.
    ListConnections,
    /// Delete the profile at this place of the last list. Answer: `Done`.
    DeleteConnection(usize),
    /// Look up the device with this interface name. Answer: `Devices`, with
    /// that one device.
    GetDeviceByInterface(String),
    /// Enumerate the devices. Answer: `Devices`.
    ListDevices,
    /// Bind the device at this place of the last list for the rest of the
    /// run. Answer: `Done`.
    UseDevice(usize),
    /// Probe whether the internet can be reached. Answer: `Probe`.
    ProbeInternet,
    /// Scan for access points. Answer: `AccessPoints`.
    Scan,
    /// Sleep this many seconds. Answer: `Done`.
    Sleep(u64),
    /// Create and activate the hotspot. Answer: `Done`.
    CreatePortal,
    /// Start the DHCP/DNS helper process. Answer: `Done`.
    StartHelper,
    /// Start the thread that turns an exit signal into an `Exit` command.
    /// Answer: `Done`.
    TrapExitSignals,
    /// Start the server of the configuration page. Answer: `Done`.
    StartServer,
    /// Start the timer that posts `Timeout` after this many seconds.
    /// Answer: `Done`.
    StartTimer(u64),
    /// Take the next command from the queue without waiting. Answer:
    /// `Command`, `QueueEmpty` or `QueueDisconnected`.
    Poll,
    /// Send this to the configuration page. Answer: `Done`.
    Send(NetworkCommandResponse),
    /// Ask the backend for the connectivity. Answer: `Connectivity`.
    QueryConnectivity,
    /// Deactivate the hotspot. Answer: `Done`.
    DeactivatePortal,
    /// Delete the hotspot's profile. Answer: `Done`.
    DeletePortal,
    /// Stop the DHCP/DNS helper process. Answer: `Done`.
    StopHelper,
    /// Post this exit event on the exit channel. Answer: `Done`.
    EmitExit(ExitEvent),
    /// Join this network with these credentials. Answer: `Activation`.
    Connect { access_point: AccessPoint, credentials: AccessPointCredentials },
    /// Delete the connection that the last `Connect` made. Answer: `Done`.
    DeleteAttempt,
    /// Nothing more is asked: this is how it ended.
    Finish(Result<(), ErrorKind>),
}

/// An action, as mathematical values.
pub enum ActionView {
    QueryServiceState,
    StartService(u64),
    ListConnections,
    DeleteConnection(usize),
    GetDeviceByInterface(Seq<char>),
    ListDevices,
    UseDevice(usize),
    ProbeInternet,
    Scan,
    Sleep(u64),
    CreatePortal,
    StartHelper,
    TrapExitSignals,
    StartServer,
    StartTimer(u64),
    Poll,
    Send(NetworkCommandResponseView),
    QueryConnectivity,
    DeactivatePortal,
    DeletePortal,
    StopHelper,
    EmitExit(ExitEvent),
    Connect { access_point: AccessPointView, credentials: CredentialsView },
    DeleteAttempt,
    Finish(Result<(), ErrorKind>),
}

impl View for Action {
    type V = ActionView;

    open spec fn view(&self) -> ActionView {
        match self {
            Action::QueryServiceState => ActionView::QueryServiceState,
            Action::StartService(timeout) => ActionView::StartService(*timeout),
            Action::ListConnections => ActionView::ListConnections,
            Action::DeleteConnection(index) => ActionView::DeleteConnection(*index),
            Action::GetDeviceByInterface(interface) => ActionView::GetDeviceByInterface(
                interface@,
            ),
            Action::ListDevices => ActionView::ListDevices,
            Action::UseDevice(index) => ActionView::UseDevice(*index),
            Action::ProbeInternet => ActionView::ProbeInternet,
            Action::Scan => ActionView::Scan,
            Action::Sleep(seconds) => ActionView::Sleep(*seconds),
            Action::CreatePortal => ActionView::CreatePortal,
            Action::StartHelper => ActionView::StartHelper,
            Action::TrapExitSignals => ActionView::TrapExitSignals,
            Action::StartServer => ActionView::StartServer,
            Action::StartTimer(seconds) => ActionView::StartTimer(*seconds),
            Action::Poll => ActionView::Poll,
            Action::Send(response) => ActionView::Send(response@),
            Action::QueryConnectivity => ActionView::QueryConnectivity,
            Action::DeactivatePortal => ActionView::DeactivatePortal,
            Action::DeletePortal => ActionView::DeletePortal,
            Action::StopHelper => ActionView::StopHelper,
            Action::EmitExit(event) => ActionView::EmitExit(*event),
            Action::Connect { access_point, credentials } => ActionView::Connect {
                access_point: access_point@,
                credentials: credentials@,
            },
            Action::DeleteAttempt => ActionView::DeleteAttempt,
            Action::Finish(result) => ActionView::Finish(*result),
        }
    }
}

/// The answer to an action. An answer that does not fit the action that was
/// asked counts as that action's failure.
#[derive(Clone, Debug, PartialEq, Eq)]
pub enum Event {
    /// The action was carried out.
    Done,
    /// The action failed.
    Failed,
    /// The state of the backend service.
    Service(ServiceState),
    /// The connection profiles, in the backend's order.
    Connections(Vec<ConnectionSettings>),
    /// The devices, in the order of enumeration.
    Devices(Vec<Device>),
    /// The status code of the probe's response; nothing where no response
    /// came.
    Probe(Option<u16>),
    /// The access points of a scan, in the backend's order.
    AccessPoints(Vec<AccessPoint>),
    /// A command was waiting in the queue.
    Command(NetworkCommand),
    /// No command is waiting.
    QueueEmpty,
    /// Nobody can send commands any more.
    QueueDisconnected,
    /// The connectivity that the backend reports.
    Connectivity(Connectivity),
    /// The state in which an activation left the connection.
    Activation(ConnectionState),
}

/// An answer, as mathematical values.
pub enum EventView {
    Done,
    Failed,
    Service(ServiceState),
    Connections(Seq<ConnectionSettingsView>),
    Devices(Seq<DeviceView>),
    Probe(Option<u16>),
    AccessPoints(Seq<AccessPointView>),
    Command(NetworkCommandView),
    QueueEmpty,
    QueueDisconnected,
    Connectivity(Connectivity),
    Activation(ConnectionState),
}

impl View for Event {
    type V = EventView;

    open spec fn view(&self) -> EventView {
        match self {
            Event::Done => EventView::Done,
            Event::Failed => EventView::Failed,
            Event::Service(state) => EventView::Service(*state),
            Event::Connections(connections) => EventView::Connections(connections.deep_view()),
            Event::Devices(devices) => EventView::Devices(devices.deep_view()),
            Event::Probe(status) => EventView::Probe(*status),
            Event::AccessPoints(access_points) => EventView::AccessPoints(
                access_points.deep_view(),
            ),
            Event::Command(command) => EventView::Command(command@),
            Event::QueueEmpty => EventView::QueueEmpty,
            Event::QueueDisconnected => EventView::QueueDisconnected,
            Event::Connectivity(connectivity) => EventView::Connectivity(*connectivity),
            Event::Activation(state) => EventView::Activation(*state),
        }
    }
}

} // verus!
