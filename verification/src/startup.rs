use vstd::prelude::*;
use crate::config::Config;
use crate::connection::{
    find_swept, next_swept, ConnectionSettings, ConnectionSettingsView, Sweep,
};
use crate::errors::ErrorKind;
use crate::protocol::{Action, ActionView, Event, EventView, ServiceState};

verus! {

/// The seconds for which the start of the backend service is awaited.
pub const SERVICE_START_TIMEOUT: u64 = 15;

/// Where the preparation of the backend stands: which answer it waits for.
#[derive(Clone, Copy, Debug, PartialEq, Eq)]
pub enum InitPhase {
    /// The state of the backend service was asked for.
    QueryService,
    /// The backend service is being started.
    StartService,
    /// The connection profiles were asked for.
    ListConnections,
    /// The profile at `index` is being deleted.
    DeleteConnection { index: usize },
    /// The preparation has ended.
    Finished { result: Result<(), ErrorKind> },
}

/// The preparation of the backend before the portal is set up: the backend
/// service is brought up, and hotspot profiles that an earlier run left
/// behind under the portal's SSID are deleted.
pub struct NetworkInit {
    pub(crate) phase: InitPhase,
    pub(crate) ssid: String,
    pub(crate) connections: Vec<ConnectionSettings>,
}

/// The state of the preparation.
pub struct NetworkInitView {
    pub phase: InitPhase,
    pub ssid: Seq<char>,
    pub connections: Seq<ConnectionSettingsView>,
}

impl View for NetworkInit {
    type V = NetworkInitView;

    open(crate) spec fn view(&self) -> NetworkInitView {
        NetworkInitView {
            phase: self.phase,
            ssid: self.ssid@,
            connections: self.connections.deep_view(),
        }
    }
}

/// The preparation ends with `result`.
pub open spec fn init_finish(s: NetworkInitView, result: Result<(), ErrorKind>) -> (
    NetworkInitView,
    ActionView,
) {
    (NetworkInitView { phase: InitPhase::Finished { result }, ..s }, ActionView::Finish(result))
}

/// The sweep of leftover hotspot profiles goes on at place `from`: the next
/// profile in access-point mode with the portal's SSID is deleted, and the
/// preparation is over when none is left.
pub open spec fn init_sweep(s: NetworkInitView, from: int) -> (NetworkInitView, ActionView) {
    match next_swept(s.connections, from, Sweep::AccessPointProfiles, s.ssid) {
        Some(i) => (
            NetworkInitView { phase: InitPhase::DeleteConnection { index: i as usize }, ..s },
            ActionView::DeleteConnection(i as usize),
        ),
        None => init_finish(s, Ok(())),
    }
}

/// Bringing up the backend service. A service that is active is left alone;
/// one in another state is started, and must then be active. Where the state
/// cannot even be asked for, the service is taken to be in order.
pub open spec fn service_next(s: NetworkInitView, e: EventView) -> (NetworkInitView, ActionView) {
    let listing = (
        NetworkInitView { phase: InitPhase::ListConnections, ..s },
        ActionView::ListConnections,
    );
    match s.phase {
        InitPhase::QueryService => match e {
            EventView::Service(ServiceState::Active) => listing,
            EventView::Service(_) => (
                NetworkInitView { phase: InitPhase::StartService, ..s },
                ActionView::StartService(SERVICE_START_TIMEOUT),
            ),
            _ => listing,
        },
        _ => match e {
            EventView::Service(ServiceState::Active) => listing,
            EventView::Service(_) => init_finish(s, Err(ErrorKind::StartActiveNetworkManager)),
            _ => init_finish(s, Err(ErrorKind::StartNetworkManager)),
        },
    }
}

/// Deleting the hotspot profiles that were left behind. A list that cannot be
/// had, or a profile that cannot be deleted, fails the preparation.
pub open spec fn profile_next(s: NetworkInitView, e: EventView) -> (NetworkInitView, ActionView) {
    match s.phase {
        InitPhase::DeleteConnection { index } => match e {
            EventView::Done => init_sweep(s, index + 1),
            _ => init_finish(s, Err(ErrorKind::DeleteAccessPoint)),
        },
        _ => match e {
            EventView::Connections(connections) => init_sweep(
                NetworkInitView { connections, ..s },
                0,
            ),
            _ => init_finish(s, Err(ErrorKind::DeleteAccessPoint)),
        },
    }
}

/// The preparation's reaction to the answer `e` in state `s`: the state it
/// goes to and what it asks next.
pub open spec fn init_next(s: NetworkInitView, e: EventView) -> (NetworkInitView, ActionView) {
    match s.phase {
        InitPhase::QueryService | InitPhase::StartService => service_next(s, e),
        InitPhase::ListConnections | InitPhase::DeleteConnection { .. } => profile_next(s, e),
        InitPhase::Finished { result } => (s, ActionView::Finish(result)),
    }
}

/// The state in which the preparation begins.
pub open spec fn init_start(ssid: Seq<char>) -> NetworkInitView {
    NetworkInitView { phase: InitPhase::QueryService, ssid, connections: Seq::empty() }
}

impl NetworkInit {
    #[verifier::type_invariant]
    spec fn well_formed(self) -> bool {
        self.phase matches InitPhase::DeleteConnection { index } ==> index < self.connections.len()
    }

    /// Where the preparation stands.
    pub fn phase(&self) -> (phase: InitPhase)
        ensures
            phase == self@.phase,
    {
        self.phase
    }

    fn finish(&mut self, result: Result<(), ErrorKind>) -> (action: Action)
        ensures
            (final(self)@, action@) == init_finish(old(self)@, result),
    {
        self.phase = InitPhase::Finished { result };
        Action::Finish(result)
    }

    fn sweep(&mut self, from: usize) -> (action: Action)
        ensures
            (final(self)@, action@) == init_sweep(old(self)@, from as int),
    {
        match find_swept(&self.connections, from, Sweep::AccessPointProfiles, self.ssid.as_str()) {
            Some(index) => {
                self.phase = InitPhase::DeleteConnection { index };
                Action::DeleteConnection(index)
            },
            None => self.finish(Ok(())),
        }
    }

    /// Brings up the backend service: takes the answer to the question for
    /// its state, or to its start.
    fn start_network_manager_service(&mut self, event: Event) -> (action: Action)
        ensures
            (final(self)@, action@) == service_next(old(self)@, event@),
    {
        match self.phase {
            InitPhase::QueryService => match event {
                Event::Service(ServiceState::Active) => {
                    self.phase = InitPhase::ListConnections;
                    Action::ListConnections
                },
                Event::Service(_) => {
                    self.phase = InitPhase::StartService;
                    Action::StartService(SERVICE_START_TIMEOUT)
                },
                _ => {
                    self.phase = InitPhase::ListConnections;
                    Action::ListConnections
                },
            },
            _ => match event {
                Event::Service(ServiceState::Active) => {
                    self.phase = InitPhase::ListConnections;
                    Action::ListConnections
                },
                Event::Service(_) => self.finish(Err(ErrorKind::StartActiveNetworkManager)),
                _ => self.finish(Err(ErrorKind::StartNetworkManager)),
            },
        }
    }

    /// Deletes the hotspot profiles that an earlier run left behind: takes
    /// the list of profiles, or the answer to a deletion.
    fn delete_existing_wifi_connect_ap_profile(&mut self, event: Event) -> (action: Action)
        ensures
            (final(self)@, action@) == profile_next(old(self)@, event@),
    {
        proof {
            use_type_invariant(&*self);
        }
        match self.phase {
            InitPhase::DeleteConnection { index } => match event {
                Event::Done => self.sweep(index + 1),
                _ => self.finish(Err(ErrorKind::DeleteAccessPoint)),
            },
            _ => match event {
                Event::Connections(connections) => {
                    self.phase = InitPhase::ListConnections;
                    self.connections = connections;
                    let action = self.sweep(0);
                    action
                },
                _ => self.finish(Err(ErrorKind::DeleteAccessPoint)),
            },
        }
    }

    /// Takes the answer to the action that was asked last and says what to
    /// do next.
    pub fn step(&mut self, event: Event) -> (action: Action)
        ensures
            (final(self)@, action@) == init_next(old(self)@, event@),
    {
        match self.phase {
            InitPhase::QueryService | InitPhase::StartService => {
                self.start_network_manager_service(event)
            },
            InitPhase::ListConnections | InitPhase::DeleteConnection { .. } => {
                self.delete_existing_wifi_connect_ap_profile(event)
            },
            InitPhase::Finished { result } => Action::Finish(result),
        }
    }
}

/// Begins the preparation of the backend: the first thing asked is the state
/// of the backend service.
pub fn network_init(config: &Config) -> (start: (NetworkInit, Action))
    ensures
        start.0@ == init_start(config.ssid@),
        start.1@ == ActionView::QueryServiceState,
{
    let init = NetworkInit {
        phase: InitPhase::QueryService,
        ssid: config.ssid.clone(),
        connections: Vec::new(),
    };
    assert(init.connections.deep_view() =~= Seq::empty());
    (init, Action::QueryServiceState)
}

} // verus!
