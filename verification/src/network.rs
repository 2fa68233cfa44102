use vstd::prelude::*;
use crate::config::{interface_text, Config};
use crate::connection::{find_swept, ConnectionSettings, Sweep};
use crate::connectivity::{
    check_internet_connectivity, wait_for_wifi_connection, Connectivity, WaitStep,
    CONNECTION_TIMEOUT, WAIT_INTERVAL,
};
use crate::device::{check_named_device, find_wifi_managed_device};
use crate::discovery::{all_visible, discover, find_access_point, get_networks};
use crate::errors::ErrorKind;
use crate::exit::ExitEvent;
use crate::laws::{lemma_action_fits_phase, lemma_next_is_consistent};
use crate::machine::{
    activates_portal, activation_answered, asks, connect_failed, connections_listed,
    connectivity_awaited,
    connectivity_checked, connects, connects_to_wifi, device_choice, device_found, emits, fails,
    aborts, finished, first_action, handles, is_consistent, is_pending, helper_started, helper_stopped, initial, loop_head,
    networks_sent, next, polled, polls, portal_created, portal_deactivated, portal_deleted,
    portal_settled, portal_stop_failed, portal_stopped, probed, received, reloads, scan_answered,
    scan_failed, scan_paused, scanned, scans, spawns_activity_timeout, stops, stops_helper,
    stops_portal, sweeps, After, Ending, HandlerView, Phase, PortalState, Purpose,
    DISCONNECT_GRACE, IDLE_INTERVAL, SCAN_ATTEMPTS, SCAN_INTERVAL, SETTLE_TIME,
};
use crate::protocol::{
    Action, ConnectionState, Event, NetworkCommand, NetworkCommandResponse, NetworkCommandView,
};
use crate::wifi::{init_access_point_credentials, AccessPoint};

verus! {

/// How far the hotspot's end has come.
#[derive(Clone, Copy, Debug, PartialEq, Eq, Structural)]
pub enum Stage {
    Deactivating,
    Deleting,
    Settling,
}

/// The command handler: it owns the portal's state and decides, answer by
/// answer, what is done next. It does nothing by itself. Its caller carries
/// out each action that it asks and hands back the answer.
pub struct NetworkCommandHandler {
    pub(crate) phase: Phase,
    pub(crate) portal: PortalState,
    pub(crate) helper_running: bool,
    pub(crate) stopped: bool,
    pub(crate) interface: Option<String>,
    pub(crate) activity_timeout: u64,
    pub(crate) access_points: Vec<AccessPoint>,
    pub(crate) connections: Vec<ConnectionSettings>,
    pub(crate) ssid: String,
    pub(crate) identity: String,
    pub(crate) passphrase: String,
    pub(crate) failure: Option<ErrorKind>,
}

impl View for NetworkCommandHandler {
    type V = HandlerView;

    open(crate) spec fn view(&self) -> HandlerView {
        HandlerView {
            phase: self.phase,
            portal: self.portal,
            helper_running: self.helper_running,
            stopped: self.stopped,
            interface: interface_text(self.interface),
            activity_timeout: self.activity_timeout,
            access_points: self.access_points.deep_view(),
            connections: self.connections.deep_view(),
            ssid: self.ssid@,
            identity: self.identity@,
            passphrase: self.passphrase@,
            failure: self.failure,
        }
    }
}

impl NetworkCommandHandler {
    #[verifier::type_invariant]
    spec fn well_formed(self) -> bool {
        &&& all_visible(self.access_points.deep_view())
        &&& self.phase matches Phase::DeleteConnection { index } ==> index
            < self.connections.len()
        &&& self.phase matches Phase::WaitPause { total_time } ==> total_time
            < CONNECTION_TIMEOUT
    }

    /// A handler for this configuration, and the first action it asks: the
    /// search for the wireless device.
    pub fn new(config: &Config) -> (start: (NetworkCommandHandler, Action))
        ensures
            start.0@ == initial(interface_text(config.interface), config.activity_timeout),
            start.1@ == first_action(interface_text(config.interface)),
            is_consistent(start.0@),
            is_pending(start.0@.phase, start.1@),
    {
        let access_points: Vec<AccessPoint> = Vec::new();
        let connections: Vec<ConnectionSettings> = Vec::new();
        assert(access_points.deep_view() =~= Seq::empty());
        assert(connections.deep_view() =~= Seq::empty());
        let (interface, action) = match &config.interface {
            Some(name) => (Some(name.clone()), Action::GetDeviceByInterface(name.clone())),
            None => (None, Action::ListDevices),
        };
        let handler = NetworkCommandHandler {
            phase: Phase::FindDevice,
            portal: PortalState::NoPortal,
            helper_running: false,
            stopped: false,
            interface,
            activity_timeout: config.activity_timeout,
            access_points,
            connections,
            ssid: String::new(),
            identity: String::new(),
            passphrase: String::new(),
            failure: None,
        };
        (handler, action)
    }

    /// Where the handler stands.
    pub fn phase(&self) -> (phase: Phase)
        ensures
            phase == self@.phase,
    {
        self.phase
    }

    /// The portal as the handler holds it.
    pub fn portal(&self) -> (portal: PortalState)
        ensures
            portal == self@.portal,
    {
        self.portal
    }

    /// Whether a hotspot is held.
    pub fn portal_connection(&self) -> (held: bool)
        ensures
            held == (self@.portal != PortalState::NoPortal),
    {
        match self.portal {
            PortalState::NoPortal => false,
            _ => true,
        }
    }

    /// Whether the configuration page has got the network list from the
    /// portal that is up.
    pub fn portal_active(&self) -> (active: bool)
        ensures
            active == (self@.portal == PortalState::PortalActive),
            active ==> self@.portal != PortalState::NoPortal,
    {
        match self.portal {
            PortalState::PortalActive => true,
            _ => false,
        }
    }

    /// Whether an exit event was posted.
    pub fn is_stopped(&self) -> (stopped: bool)
        ensures
            stopped == self@.stopped,
    {
        self.stopped
    }

    /// Why the last attempt to join a network failed, if it did. An attempt
    /// that fails does not end the handler.
    pub fn last_failure(&self) -> (failure: Option<ErrorKind>)
        ensures
            failure == self@.failure,
    {
        self.failure
    }

    /// Whether the helper process runs.
    pub fn helper_running(&self) -> (running: bool)
        ensures
            running == self@.helper_running,
    {
        self.helper_running
    }

    /// The discovered list of the last scan that found something. Every SSID
    /// in it is text.
    pub fn access_points(&self) -> (access_points: &Vec<AccessPoint>)
        ensures
            access_points.deep_view() == self@.access_points,
            all_visible(access_points.deep_view()),
    {
        proof {
            use_type_invariant(self);
        }
        &self.access_points
    }

    fn ask(&mut self, phase: Phase, action: Action) -> (asked: Action)
        requires
            !(phase is DeleteConnection),
            !(phase is WaitPause),
        ensures
            (final(self)@, asked@) == asks(old(self)@, phase, action@),
    {
        proof {
            use_type_invariant(&*self);
        }
        self.phase = phase;
        action
    }

    fn finish(&mut self, result: Result<(), ErrorKind>) -> (action: Action)
        ensures
            (final(self)@, action@) == finished(old(self)@, result),
    {
        self.ask(Phase::Finished { result }, Action::Finish(result))
    }

    fn emit(&mut self, ending: Ending) -> (action: Action)
        ensures
            (final(self)@, action@) == emits(old(self)@, ending),
    {
        proof {
            use_type_invariant(&*self);
        }
        let posted = match ending {
            Ending::Exit(event) => Some(event),
            Ending::Teardown(_) => Some(ExitEvent::UnexpectedExit),
            Ending::Abort(_) => None,
        };
        let result = match ending {
            Ending::Exit(_) => Ok(()),
            Ending::Teardown(e) => Err(e),
            Ending::Abort(e) => Err(e),
        };
        match posted {
            Some(event) => {
                if !self.stopped {
                    self.stopped = true;
                    self.ask(Phase::EmitExit { ending }, Action::EmitExit(event))
                } else {
                    self.finish(result)
                }
            },
            None => self.finish(result),
        }
    }

    fn stop_helper(&mut self, ending: Ending) -> (action: Action)
        ensures
            (final(self)@, action@) == stops_helper(old(self)@, ending),
    {
        if self.helper_running {
            self.ask(Phase::StopHelper { ending }, Action::StopHelper)
        } else {
            self.emit(ending)
        }
    }

    /// Begins a scan for access points.
    fn get_access_points(&mut self, purpose: Purpose) -> (action: Action)
        ensures
            (final(self)@, action@) == scans(old(self)@, purpose),
    {
        self.ask(Phase::Scan { purpose, attempt: 1 }, Action::Scan)
    }

    fn poll(&mut self) -> (action: Action)
        ensures
            (final(self)@, action@) == polls(old(self)@),
    {
        self.ask(Phase::Poll, Action::Poll)
    }

    fn enter_loop(&mut self) -> (action: Action)
        ensures
            (final(self)@, action@) == loop_head(old(self)@),
    {
        match self.portal {
            PortalState::NoPortal => self.get_access_points(Purpose::Recreate),
            _ => self.poll(),
        }
    }

    fn after_stop_portal(&mut self, after: After) -> (action: Action)
        ensures
            (final(self)@, action@) == portal_stopped(old(self)@, after),
    {
        match after {
            After::End(ending) => self.stop_helper(ending),
            After::Reload => self.enter_loop(),
            After::Connect => self.get_access_points(Purpose::Connect),
        }
    }

    /// Begins to take down the hotspot. Where none is held nothing is asked
    /// of the backend, and what follows the hotspot's end follows at once.
    fn stop_portal(&mut self, after: After) -> (action: Action)
        ensures
            (final(self)@, action@) == stops_portal(old(self)@, after),
            old(self)@.portal == PortalState::NoPortal ==> (final(self)@, action@)
                == portal_stopped(old(self)@, after),
    {
        match self.portal {
            PortalState::NoPortal => self.after_stop_portal(after),
            _ => self.ask(Phase::DeactivatePortal { after }, Action::DeactivatePortal),
        }
    }

    fn fail(&mut self, e: ErrorKind) -> (action: Action)
        ensures
            (final(self)@, action@) == fails(old(self)@, e),
    {
        self.stop_portal(After::End(Ending::Teardown(e)))
    }

    fn abort(&mut self, e: ErrorKind) -> (action: Action)
        ensures
            (final(self)@, action@) == aborts(old(self)@, e),
    {
        self.stop_portal(After::End(Ending::Abort(e)))
    }

    /// Begins the shutdown in good order: the hotspot is taken down, the
    /// helper process is stopped, and `event` is posted on the exit channel,
    /// unless an exit event was posted before.
    pub fn stop(&mut self, event: ExitEvent) -> (action: Action)
        ensures
            (final(self)@, action@) == stops(old(self)@, event),
            is_consistent(old(self)@) ==> is_consistent(final(self)@),
            !(action is EmitExit && old(self)@.stopped),
    {
        self.stop_portal(After::End(Ending::Exit(event)))
    }

    /// Begins a reload: only the hotspot is taken down, so that the radio can
    /// scan; the helper process stays, and a new portal is set up.
    pub fn reload(&mut self) -> (action: Action)
        ensures
            (final(self)@, action@) == reloads(old(self)@),
            is_consistent(old(self)@) ==> is_consistent(final(self)@),
            old(self)@.portal == PortalState::NoPortal ==> action is Scan,
    {
        self.stop_portal(After::Reload)
    }

    /// Notes that the attempt to join the chosen network has failed, and
    /// begins the reload that follows it.
    fn connect_error(&mut self, e: ErrorKind) -> (action: Action)
        ensures
            (final(self)@, action@) == connect_failed(old(self)@, e),
    {
        proof {
            use_type_invariant(&*self);
        }
        self.failure = Some(e);
        self.reload()
    }

    fn stop_portal_failed(&mut self, after: After) -> (action: Action)
        ensures
            (final(self)@, action@) == portal_stop_failed(old(self)@, after),
    {
        match after {
            After::End(Ending::Exit(_)) => self.fail(ErrorKind::StopAccessPoint),
            After::End(ending) => self.stop_helper(ending),
            After::Reload => self.fail(ErrorKind::StopAccessPoint),
            After::Connect => self.connect_error(ErrorKind::StopAccessPoint),
        }
    }

    /// Goes on with taking down the hotspot: `stage` is how far it has come.
    fn stop_portal_impl(&mut self, stage: Stage, after: After, event: Event) -> (action: Action)
        ensures
            (final(self)@, action@) == match stage {
                Stage::Deactivating => portal_deactivated(old(self)@, after, event@),
                Stage::Deleting => portal_deleted(old(self)@, after, event@),
                Stage::Settling => portal_settled(old(self)@, after),
            },
    {
        proof {
            use_type_invariant(&*self);
        }
        match stage {
            Stage::Deactivating => match event {
                Event::Done => self.ask(Phase::DeletePortal { after }, Action::DeletePortal),
                _ => self.stop_portal_failed(after),
            },
            Stage::Deleting => match event {
                Event::Done => self.ask(Phase::Settle { after }, Action::Sleep(SETTLE_TIME)),
                _ => self.stop_portal_failed(after),
            },
            Stage::Settling => {
                self.portal = PortalState::NoPortal;
                self.after_stop_portal(after)
            },
        }
    }

    fn stop_dnsmasq(&mut self, ending: Ending, event: Event) -> (action: Action)
        ensures
            (final(self)@, action@) == helper_stopped(old(self)@, ending, event@),
    {
        proof {
            use_type_invariant(&*self);
        }
        match event {
            Event::Done => {
                self.helper_running = false;
                self.emit(ending)
            },
            _ => match ending {
                Ending::Exit(_) => self.fail(ErrorKind::Dnsmasq),
                _ => self.emit(ending),
            },
        }
    }

    /// Takes the answer to the search for the device.
    fn find_device(&mut self, event: Event) -> (action: Action)
        ensures
            (final(self)@, action@) == device_found(old(self)@, event@),
    {
        match event {
            Event::Devices(devices) => {
                let choice = match &self.interface {
                    Some(_) => {
                        if devices.len() == 0 {
                            Err(ErrorKind::DeviceByInterface)
                        } else {
                            assert(devices.deep_view()[0] == devices[0]@);
                            match check_named_device(&devices[0]) {
                                Ok(_) => Ok(0usize),
                                Err(e) => Err(e),
                            }
                        }
                    },
                    None => match find_wifi_managed_device(&devices) {
                        Ok(Some(i)) => Ok(i),
                        Ok(None) => Err(ErrorKind::NoWiFiDevice),
                        Err(e) => Err(e),
                    },
                };
                assert(match choice {
                    Ok(i) => device_choice(old(self)@.interface, devices.deep_view()) == Ok::<
                        int,
                        ErrorKind,
                    >(i as int),
                    Err(e) => device_choice(old(self)@.interface, devices.deep_view()) == Err::<
                        int,
                        ErrorKind,
                    >(e),
                });
                match choice {
                    Ok(i) => self.ask(Phase::BindDevice, Action::UseDevice(i)),
                    Err(e) => self.abort(e),
                }
            },
            _ => {
                let e = match &self.interface {
                    Some(_) => ErrorKind::DeviceByInterface,
                    None => ErrorKind::NetworkManager,
                };
                self.abort(e)
            },
        }
    }

    fn probe(&mut self, event: Event) -> (action: Action)
        ensures
            (final(self)@, action@) == probed(old(self)@, event@),
    {
        let reachable = match event {
            Event::Probe(response) => check_internet_connectivity(response).is_ok(),
            _ => false,
        };
        if reachable {
            self.emit(Ending::Exit(ExitEvent::InternetConnected))
        } else {
            self.get_access_points(Purpose::Startup)
        }
    }

    /// Asks the backend to join the chosen network, if the last scan shows
    /// it.
    fn connect(&mut self) -> (action: Action)
        ensures
            (final(self)@, action@) == connects(old(self)@),
    {
        match find_access_point(&self.access_points, self.ssid.as_str()) {
            Some(i) => {
                let access_point = self.access_points[i].duplicate();
                assert(self.access_points.deep_view()[i as int] == self.access_points[i as int]@);
                let credentials = init_access_point_credentials(
                    &access_point,
                    self.identity.as_str(),
                    self.passphrase.as_str(),
                );
                self.ask(Phase::Connect, Action::Connect { access_point, credentials })
            },
            None => self.connect_error(ErrorKind::WiFiConnectionFailed),
        }
    }

    fn after_scan(&mut self, purpose: Purpose) -> (action: Action)
        ensures
            (final(self)@, action@) == scanned(old(self)@, purpose),
    {
        match purpose {
            Purpose::Startup => self.ask(Phase::CreatePortal { startup: true }, Action::CreatePortal),
            Purpose::Recreate => self.ask(
                Phase::CreatePortal { startup: false },
                Action::CreatePortal,
            ),
            Purpose::Connect => self.connect(),
        }
    }

    fn scan_error(&mut self, purpose: Purpose) -> (action: Action)
        ensures
            (final(self)@, action@) == scan_failed(old(self)@, purpose),
    {
        match purpose {
            Purpose::Startup => self.abort(ErrorKind::NoAccessPoints),
            Purpose::Recreate => self.fail(ErrorKind::NoAccessPoints),
            Purpose::Connect => self.connect_error(ErrorKind::NoAccessPoints),
        }
    }

    /// Takes the answer to a scan: the scan result is reduced to the
    /// discovered list, and an empty list is not yet taken for an answer.
    fn get_access_points_impl(&mut self, purpose: Purpose, attempt: u32, event: Event) -> (action:
        Action)
        ensures
            (final(self)@, action@) == scan_answered(old(self)@, purpose, attempt, event@),
    {
        proof {
            use_type_invariant(&*self);
        }
        match event {
            Event::AccessPoints(raw) => {
                let found = discover(&raw);
                if found.len() > 0 {
                    self.access_points = found;
                    self.after_scan(purpose)
                } else {
                    self.ask(Phase::ScanPause { purpose, attempt }, Action::Sleep(SCAN_INTERVAL))
                }
            },
            _ => self.scan_error(purpose),
        }
    }

    fn retry_scan(&mut self, purpose: Purpose, attempt: u32) -> (action: Action)
        ensures
            (final(self)@, action@) == scan_paused(old(self)@, purpose, attempt),
    {
        proof {
            use_type_invariant(&*self);
        }
        if attempt < SCAN_ATTEMPTS {
            self.ask(Phase::Scan { purpose, attempt: attempt + 1 }, Action::Scan)
        } else {
            let nothing: Vec<AccessPoint> = Vec::new();
            assert(nothing.deep_view() =~= Seq::empty());
            self.access_points = nothing;
            self.after_scan(purpose)
        }
    }

    /// Takes the answer to the creation of the hotspot.
    fn create_portal(&mut self, startup: bool, event: Event) -> (action: Action)
        ensures
            (final(self)@, action@) == portal_created(old(self)@, startup, event@),
    {
        proof {
            use_type_invariant(&*self);
        }
        match event {
            Event::Done => {
                self.portal = PortalState::PortalUp;
                if startup {
                    self.ask(Phase::StartHelper, Action::StartHelper)
                } else {
                    self.poll()
                }
            },
            _ => {
                if startup {
                    self.abort(ErrorKind::CreateCaptivePortal)
                } else {
                    self.fail(ErrorKind::CreateCaptivePortal)
                }
            },
        }
    }

    fn start_dnsmasq(&mut self, event: Event) -> (action: Action)
        ensures
            (final(self)@, action@) == helper_started(old(self)@, event@),
    {
        proof {
            use_type_invariant(&*self);
        }
        match event {
            Event::Done => {
                self.helper_running = true;
                self.ask(Phase::TrapExitSignals, Action::TrapExitSignals)
            },
            _ => self.abort(ErrorKind::Dnsmasq),
        }
    }

    /// Asks for the inactivity timer, unless the timeout is 0.
    fn spawn_activity_timeout(&mut self) -> (action: Action)
        ensures
            (final(self)@, action@) == spawns_activity_timeout(old(self)@),
    {
        if self.activity_timeout > 0 {
            self.ask(Phase::StartTimer, Action::StartTimer(self.activity_timeout))
        } else {
            self.poll()
        }
    }

    /// Reads the answer to a look into the command queue: the command that
    /// waited; the tick `CheckConnectivity` where the queue was empty; the
    /// error `RecvNetworkCommand` where the queue is disconnected, and for any
    /// answer that is none to `Poll`.
    pub fn receive_network_command(&self, polled: Event) -> (command: Result<
        NetworkCommand,
        ErrorKind,
    >)
        ensures
            match command {
                Ok(c) => received(polled@) == Ok::<_, ErrorKind>(c@),
                Err(e) => received(polled@) == Err::<NetworkCommandView, _>(e),
            },
            polled matches Event::Command(c) ==> command is Ok,
            polled is QueueEmpty ==> command matches Ok(NetworkCommand::CheckConnectivity),
            polled is QueueDisconnected ==> command == Err::<NetworkCommand, _>(
                ErrorKind::RecvNetworkCommand,
            ),
    {
        match polled {
            Event::Command(command) => Ok(command),
            Event::QueueEmpty => Ok(NetworkCommand::CheckConnectivity),
            _ => Err(ErrorKind::RecvNetworkCommand),
        }
    }

    /// Begins the portal's activation: the network list of the last scan is
    /// sent to the configuration page. Once it is delivered, a portal that is
    /// up counts as active.
    pub fn activate_portal(&mut self) -> (action: Action)
        ensures
            (final(self)@, action@) == activates_portal(old(self)@),
            is_consistent(old(self)@) && old(self)@.portal != PortalState::NoPortal
                ==> is_consistent(final(self)@),
    {
        proof {
            use_type_invariant(&*self);
        }
        let networks = get_networks(&self.access_points);
        self.ask(Phase::SendNetworks, Action::Send(NetworkCommandResponse::Networks(networks)))
    }

    /// Begins to join a network: first the profiles that the backend knows
    /// are asked for, so that those of the same network can be removed.
    fn connect_to_wifi(&mut self, ssid: String, identity: String, passphrase: String) -> (action:
        Action)
        ensures
            (final(self)@, action@) == connects_to_wifi(
                old(self)@,
                ssid@,
                identity@,
                passphrase@,
            ),
    {
        proof {
            use_type_invariant(&*self);
        }
        self.ssid = ssid;
        self.identity = identity;
        self.passphrase = passphrase;
        self.failure = None;
        self.ask(Phase::ListConnections, Action::ListConnections)
    }

    fn handle(&mut self, command: NetworkCommand) -> (action: Action)
        ensures
            (final(self)@, action@) == handles(old(self)@, command@),
    {
        match command {
            NetworkCommand::ActivatePortal => self.activate_portal(),
            NetworkCommand::Timeout => {
                if self.portal_active() {
                    self.poll()
                } else {
                    self.stop(ExitEvent::Timeout)
                }
            },
            NetworkCommand::Exit => self.stop(ExitEvent::ExitSignal),
            NetworkCommand::WiFiConnect { ssid, identity, passphrase } => self.connect_to_wifi(
                ssid,
                identity,
                passphrase,
            ),
            NetworkCommand::RestartApp => self.reload(),
            NetworkCommand::CheckConnectivity => self.ask(
                Phase::CheckConnectivity,
                Action::QueryConnectivity,
            ),
        }
    }

    fn take_command(&mut self, event: Event) -> (action: Action)
        ensures
            (final(self)@, action@) == polled(old(self)@, event@),
    {
        match self.receive_network_command(event) {
            Ok(command) => self.handle(command),
            Err(_) => self.ask(Phase::Disconnected, Action::Sleep(DISCONNECT_GRACE)),
        }
    }

    fn networks_delivered(&mut self, event: Event) -> (action: Action)
        ensures
            (final(self)@, action@) == networks_sent(old(self)@, event@),
    {
        proof {
            use_type_invariant(&*self);
        }
        match event {
            Event::Done => {
                match self.portal {
                    PortalState::PortalUp => {
                        self.portal = PortalState::PortalActive;
                    },
                    _ => {},
                }
                self.poll()
            },
            _ => self.fail(ErrorKind::SendAccessPointSSIDs),
        }
    }

    fn check_connectivity(&mut self, event: Event) -> (action: Action)
        ensures
            (final(self)@, action@) == connectivity_checked(old(self)@, event@),
    {
        match event {
            Event::Connectivity(Connectivity::Full) => self.stop(ExitEvent::InternetConnected),
            _ => self.ask(Phase::Idle, Action::Sleep(IDLE_INTERVAL)),
        }
    }

    fn sweep(&mut self, from: usize) -> (action: Action)
        ensures
            (final(self)@, action@) == sweeps(old(self)@, from as int),
    {
        proof {
            use_type_invariant(&*self);
        }
        match find_swept(&self.connections, from, Sweep::WiFiProfiles, self.ssid.as_str()) {
            Some(index) => {
                self.phase = Phase::DeleteConnection { index };
                Action::DeleteConnection(index)
            },
            None => self.stop_portal(After::Connect),
        }
    }

    /// Takes the list of the profiles that the backend knows, and begins to
    /// delete those that point at the chosen network.
    fn delete_existing_connections_to_same_network(&mut self, event: Event) -> (action: Action)
        ensures
            (final(self)@, action@) == connections_listed(old(self)@, event@),
    {
        proof {
            use_type_invariant(&*self);
        }
        match event {
            Event::Connections(connections) => {
                self.phase = Phase::ListConnections;
                self.connections = connections;
                self.sweep(0)
            },
            _ => self.stop_portal(After::Connect),
        }
    }

    fn activated(&mut self, event: Event) -> (action: Action)
        ensures
            (final(self)@, action@) == activation_answered(old(self)@, event@),
    {
        match event {
            Event::Activation(ConnectionState::Activated) => self.ask(
                Phase::WaitConnectivity { total_time: 0 },
                Action::QueryConnectivity,
            ),
            Event::Activation(ConnectionState::Activating) => self.ask(
                Phase::WaitConnectivity { total_time: 0 },
                Action::QueryConnectivity,
            ),
            Event::Activation(_) => self.ask(Phase::DeleteAttempt, Action::DeleteAttempt),
            _ => self.connect_error(ErrorKind::WiFiConnectionFailed),
        }
    }

    fn await_connectivity(&mut self, total_time: u64, event: Event) -> (action: Action)
        ensures
            (final(self)@, action@) == connectivity_awaited(old(self)@, total_time, event@),
    {
        proof {
            use_type_invariant(&*self);
        }
        let connectivity = match event {
            Event::Connectivity(connectivity) => Some(connectivity),
            _ => None,
        };
        match wait_for_wifi_connection(connectivity, total_time, CONNECTION_TIMEOUT) {
            WaitStep::Wait => {
                self.phase = Phase::WaitPause { total_time };
                Action::Sleep(WAIT_INTERVAL)
            },
            _ => self.stop(ExitEvent::WiFiConnected),
        }
    }
}

/// One turn of the command handler: takes the answer to the action that it
/// asked last, and gives the action to carry out next. The handler ends by
/// asking `Finish`, and asks it again whatever it is told after that.
pub fn network_thread_impl(handler: &mut NetworkCommandHandler, event: Event) -> (action: Action)
    ensures
        (final(handler)@, action@) == next(old(handler)@, event@),
        is_consistent(old(handler)@) ==> is_consistent(final(handler)@),
        is_pending(final(handler)@.phase, action@),
{
    proof {
        use_type_invariant(&*handler);
        reveal(next);
        if is_consistent(handler@) {
            lemma_next_is_consistent(handler@, event@);
        }
        lemma_action_fits_phase(handler@, event@);
    }
    match handler.phase {
        Phase::FindDevice => handler.find_device(event),
        Phase::BindDevice => handler.ask(Phase::ProbeInternet, Action::ProbeInternet),
        Phase::ProbeInternet => handler.probe(event),
        Phase::Scan { purpose, attempt } => handler.get_access_points_impl(purpose, attempt, event),
        Phase::ScanPause { purpose, attempt } => handler.retry_scan(purpose, attempt),
        Phase::CreatePortal { startup } => handler.create_portal(startup, event),
        Phase::StartHelper => handler.start_dnsmasq(event),
        Phase::TrapExitSignals => handler.ask(Phase::StartServer, Action::StartServer),
        Phase::StartServer => handler.spawn_activity_timeout(),
        Phase::StartTimer => handler.poll(),
        Phase::Poll => handler.take_command(event),
        Phase::Disconnected => handler.fail(ErrorKind::RecvNetworkCommand),
        Phase::SendNetworks => handler.networks_delivered(event),
        Phase::CheckConnectivity => handler.check_connectivity(event),
        Phase::Idle => handler.poll(),
        Phase::DeactivatePortal { after } => handler.stop_portal_impl(
            Stage::Deactivating,
            after,
            event,
        ),
        Phase::DeletePortal { after } => handler.stop_portal_impl(Stage::Deleting, after, event),
        Phase::Settle { after } => handler.stop_portal_impl(Stage::Settling, after, event),
        Phase::StopHelper { ending } => handler.stop_dnsmasq(ending, event),
        Phase::EmitExit { ending } => {
            let result = match ending {
                Ending::Exit(_) => Ok(()),
                Ending::Teardown(e) => Err(e),
                Ending::Abort(e) => Err(e),
            };
            handler.finish(result)
        },
        Phase::ListConnections => handler.delete_existing_connections_to_same_network(event),
        Phase::DeleteConnection { index } => handler.sweep(index + 1),
        Phase::Connect => handler.activated(event),
        Phase::DeleteAttempt => handler.connect_error(ErrorKind::WiFiConnectionFailed),
        Phase::WaitConnectivity { total_time } => handler.await_connectivity(total_time, event),
        Phase::WaitPause { total_time } => handler.ask(
            Phase::WaitConnectivity { total_time: total_time + 1 },
            Action::QueryConnectivity,
        ),
        Phase::Finished { result } => Action::Finish(result),
    }
}

/// What the handler's thread posts on the exit channel once the handler has
/// ended: its error, if it ended with one. A handler that ended in good order
/// has posted its exit event itself.
pub fn network_thread(outcome: Result<(), ErrorKind>) -> (post: Option<Result<ExitEvent, ErrorKind>>)
    ensures
        post == match outcome {
            Ok(_) => None,
            Err(e) => Some(Err::<ExitEvent, ErrorKind>(e)),
        },
{
    match outcome {
        Ok(_) => None,
        Err(e) => Some(Err(e)),
    }
}

} // verus!
