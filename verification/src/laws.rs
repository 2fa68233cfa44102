use vstd::prelude::*;
use crate::connection::{is_swept, lemma_next_swept, Sweep};
use crate::discovery::{all_visible, discovered, distinct_ssids, lemma_discovered_entries};
use crate::exit::ExitEvent;
use crate::machine::{
    initial, is_consistent, is_pending, next, portal_settled, portal_stopped, reloads,
    scan_answered, scans, stops, stops_portal, sweeps, After, HandlerView, Phase, PortalState,
    Purpose, SETTLE_TIME,
};
use crate::protocol::{ActionView, EventView, NetworkCommandView};
use crate::startup::{init_sweep, NetworkInitView};
use crate::wifi::AccessPointView;

verus! {

/// The actions that the handler asks, one after the other, when it is given
/// the answers `events` from state `s` on.
pub open spec fn actions_of(s: HandlerView, events: Seq<EventView>) -> Seq<ActionView>
    decreases events.len(),
{
    if events.len() == 0 {
        Seq::empty()
    } else {
        seq![next(s, events[0]).1] + actions_of(next(s, events[0]).0, events.drop_first())
    }
}

/// The state that the handler is in after the answers `events`.
pub open spec fn state_after(s: HandlerView, events: Seq<EventView>) -> HandlerView
    decreases events.len(),
{
    if events.len() == 0 {
        s
    } else {
        state_after(next(s, events[0]).0, events.drop_first())
    }
}

/// How many of these actions post an exit event.
pub open spec fn exits_posted(actions: Seq<ActionView>) -> nat
    decreases actions.len(),
{
    if actions.len() == 0 {
        0
    } else {
        exits_posted(actions.drop_first()) + if actions[0] is EmitExit {
            1nat
        } else {
            0nat
        }
    }
}

/// In one turn the handler posts an exit event only if it has posted none
/// before, and it never forgets that it has posted one.
#[verifier::rlimit(40)]
pub proof fn lemma_exit_is_posted_once(s: HandlerView, e: EventView)
    ensures
        next(s, e).1 is EmitExit ==> !s.stopped && next(s, e).0.stopped,
        s.stopped ==> next(s, e).0.stopped,
{
    reveal(next);
}

/// Whatever answers the handler is given, and however many, it posts at most
/// one exit event; one that has posted its exit event posts no other.
pub proof fn lemma_at_most_one_exit(s: HandlerView, events: Seq<EventView>)
    ensures
        exits_posted(actions_of(s, events)) <= 1,
        s.stopped ==> exits_posted(actions_of(s, events)) == 0,
        s.stopped ==> state_after(s, events).stopped,
    decreases events.len(),
{
    if events.len() > 0 {
        lemma_exit_is_posted_once(s, events[0]);
        let s1 = next(s, events[0]).0;
        let a = next(s, events[0]).1;
        lemma_at_most_one_exit(s1, events.drop_first());
        let all = actions_of(s, events);
        assert(all[0] == a);
        assert(all.drop_first() =~= actions_of(s1, events.drop_first()));
    }
}

/// After every turn the handler's phase names the action that it has just
/// asked.
#[verifier::rlimit(40)]
pub proof fn lemma_action_fits_phase(s: HandlerView, e: EventView)
    ensures
        is_pending(next(s, e).0.phase, next(s, e).1),
{
    reveal(next);
    match s.phase {
        Phase::FindDevice => {},
        Phase::BindDevice => {},
        Phase::ProbeInternet => {},
        Phase::Scan { .. } => {},
        Phase::ScanPause { .. } => {},
        Phase::CreatePortal { .. } => {},
        Phase::StartHelper => {},
        Phase::TrapExitSignals => {},
        Phase::StartServer => {},
        Phase::StartTimer => {},
        Phase::Poll => {},
        Phase::Disconnected => {},
        Phase::SendNetworks => {},
        Phase::CheckConnectivity => {},
        Phase::Idle => {},
        Phase::DeactivatePortal { .. } => {},
        Phase::DeletePortal { .. } => {},
        Phase::Settle { .. } => {},
        Phase::StopHelper { .. } => {},
        Phase::EmitExit { .. } => {},
        Phase::ListConnections => {},
        Phase::DeleteConnection { .. } => {},
        Phase::Connect => {},
        Phase::DeleteAttempt => {},
        Phase::WaitConnectivity { .. } => {},
        Phase::WaitPause { .. } => {},
        Phase::Finished { .. } => {},
    }
}

/// The handler begins in a consistent state.
pub proof fn lemma_initial_is_consistent(interface: Option<Seq<char>>, activity_timeout: u64)
    ensures
        is_consistent(initial(interface, activity_timeout)),
{
}

/// Every turn of the handler leads from a consistent state to a consistent
/// state.
#[verifier::rlimit(40)]
pub proof fn lemma_next_is_consistent(s: HandlerView, e: EventView)
    requires
        is_consistent(s),
    ensures
        is_consistent(next(s, e).0),
{
    reveal(next);
    match s.phase {
        Phase::FindDevice => {},
        Phase::BindDevice => {},
        Phase::ProbeInternet => {},
        Phase::Scan { .. } => {},
        Phase::ScanPause { .. } => {},
        Phase::CreatePortal { .. } => {},
        Phase::StartHelper => {},
        Phase::TrapExitSignals => {},
        Phase::StartServer => {},
        Phase::StartTimer => {},
        Phase::Poll => {},
        Phase::Disconnected => {},
        Phase::SendNetworks => {},
        Phase::CheckConnectivity => {},
        Phase::Idle => {},
        Phase::DeactivatePortal { .. } => {},
        Phase::DeletePortal { .. } => {},
        Phase::Settle { .. } => {},
        Phase::StopHelper { .. } => {},
        Phase::EmitExit { .. } => {},
        Phase::ListConnections => {},
        Phase::DeleteConnection { .. } => {},
        Phase::Connect => {},
        Phase::DeleteAttempt => {},
        Phase::WaitConnectivity { .. } => {},
        Phase::WaitPause { .. } => {},
        Phase::Finished { .. } => {},
    }
}

/// So does every run of turns.
pub proof fn lemma_run_is_consistent(s: HandlerView, events: Seq<EventView>)
    requires
        is_consistent(s),
    ensures
        is_consistent(state_after(s, events)),
    decreases events.len(),
{
    if events.len() > 0 {
        lemma_next_is_consistent(s, events[0]);
        lemma_run_is_consistent(next(s, events[0]).0, events.drop_first());
    }
}

/// At most one hotspot and one helper process: the handler asks for a
/// hotspot only while it holds none, and for the helper process only while
/// none runs. A handler that is given commands holds a portal.
pub proof fn lemma_one_portal_one_helper(s: HandlerView, e: EventView)
    requires
        is_consistent(s),
    ensures
        next(s, e).1 is CreatePortal ==> next(s, e).0.portal == PortalState::NoPortal,
        next(s, e).1 is StartHelper ==> !next(s, e).0.helper_running,
        next(s, e).1 is Poll ==> next(s, e).0.portal != PortalState::NoPortal,
{
    lemma_action_fits_phase(s, e);
    lemma_next_is_consistent(s, e);
}

/// A handler that ends in good order leaves nothing behind: when it asks
/// `Finish` with `Ok`, it holds no portal, the helper process does not run,
/// and its exit event was posted.
pub proof fn lemma_clean_exit(s: HandlerView, e: EventView)
    requires
        is_consistent(s),
    ensures
        next(s, e).1 == ActionView::Finish(Ok(())) ==> {
            &&& next(s, e).0.portal == PortalState::NoPortal
            &&& !next(s, e).0.helper_running
            &&& next(s, e).0.stopped
        },
{
    lemma_action_fits_phase(s, e);
    lemma_next_is_consistent(s, e);
}

/// A portal becomes active in one way only: by the answer that the network
/// list was delivered to the configuration page, given to a handler whose
/// portal is up. So an active portal is a portal that is held, whose list
/// was delivered since it was set up.
#[verifier::rlimit(40)]
pub proof fn lemma_active_means_delivered(s: HandlerView, e: EventView)
    ensures
        next(s, e).0.portal == PortalState::PortalActive && s.portal != PortalState::PortalActive
            ==> s.phase == Phase::SendNetworks && e == EventView::Done && s.portal
            == PortalState::PortalUp,
        next(s, e).0.portal == PortalState::PortalUp && s.portal != PortalState::PortalUp ==> s.phase
            is CreatePortal && e == EventView::Done,
{
    reveal(next);
    match s.phase {
        Phase::FindDevice => {},
        Phase::BindDevice => {},
        Phase::ProbeInternet => {},
        Phase::Scan { .. } => {},
        Phase::ScanPause { .. } => {},
        Phase::CreatePortal { .. } => {},
        Phase::StartHelper => {},
        Phase::TrapExitSignals => {},
        Phase::StartServer => {},
        Phase::StartTimer => {},
        Phase::Poll => {},
        Phase::Disconnected => {},
        Phase::SendNetworks => {},
        Phase::CheckConnectivity => {},
        Phase::Idle => {},
        Phase::DeactivatePortal { .. } => {},
        Phase::DeletePortal { .. } => {},
        Phase::Settle { .. } => {},
        Phase::StopHelper { .. } => {},
        Phase::EmitExit { .. } => {},
        Phase::ListConnections => {},
        Phase::DeleteConnection { .. } => {},
        Phase::Connect => {},
        Phase::DeleteAttempt => {},
        Phase::WaitConnectivity { .. } => {},
        Phase::WaitPause { .. } => {},
        Phase::Finished { .. } => {},
    }
}

/// Taking down the hotspot twice is safe. Once the hotspot's end has run to
/// its last step the handler holds no portal; taken down again, nothing is
/// asked of the backend for it and nothing can fail: what follows the
/// hotspot's end follows at once, and still no portal is held.
pub proof fn lemma_stop_portal_twice(s: HandlerView, first: After, second: After)
    ensures
        portal_settled(s, first).0.portal == PortalState::NoPortal,
        stops_portal(portal_settled(s, first).0, second) == portal_stopped(
            portal_settled(s, first).0,
            second,
        ),
        !(stops_portal(portal_settled(s, first).0, second).1 is DeactivatePortal),
        !(stops_portal(portal_settled(s, first).0, second).1 is DeletePortal),
        stops_portal(portal_settled(s, first).0, second).0.portal == PortalState::NoPortal,
{
}

/// A reload of a handler that holds no portal goes straight to the scan for
/// the new portal.
pub proof fn lemma_reload_without_portal(s: HandlerView)
    requires
        s.portal == PortalState::NoPortal,
    ensures
        reloads(s) == scans(s, Purpose::Recreate),
{
}

/// The inactivity timeout does nothing to an active portal: the handler
/// stays as it is and asks for the next command.
pub proof fn lemma_timeout_is_ignored_when_active(s: HandlerView)
    requires
        s.phase == Phase::Poll,
        s.portal == PortalState::PortalActive,
    ensures
        next(s, EventView::Command(NetworkCommandView::Timeout)) == (s, ActionView::Poll),
{
    reveal(next);
}

/// A shutdown in good order runs to its end when nothing fails: from a
/// handler that holds a portal and whose helper process runs, the hotspot is
/// deactivated and deleted, the backend is given its second, the helper
/// process is stopped, the exit event is posted, and the handler ends with
/// `Ok`.
pub proof fn lemma_shutdown_runs_to_its_end(s: HandlerView, event: ExitEvent)
    requires
        s.portal != PortalState::NoPortal,
        s.helper_running,
        !s.stopped,
    ensures
        stops(s, event).1 == ActionView::DeactivatePortal,
        actions_of(
            stops(s, event).0,
            seq![EventView::Done, EventView::Done, EventView::Done, EventView::Done, EventView::Done],
        ) == seq![
            ActionView::DeletePortal,
            ActionView::Sleep(SETTLE_TIME),
            ActionView::StopHelper,
            ActionView::EmitExit(event),
            ActionView::Finish(Ok(())),
        ],
{
    reveal(next);
    let done = EventView::Done;
    let e1 = seq![done, done, done, done, done];
    let s1 = stops(s, event).0;
    let s2 = next(s1, done).0;
    let s3 = next(s2, done).0;
    let s4 = next(s3, done).0;
    let s5 = next(s4, done).0;
    let e2 = e1.drop_first();
    let e3 = e2.drop_first();
    let e4 = e3.drop_first();
    let e5 = e4.drop_first();
    assert(e5.drop_first().len() == 0);
    assert(actions_of(s5, e5) =~= seq![ActionView::Finish(Ok(()))]) by {
        assert(actions_of(next(s5, done).0, e5.drop_first()) =~= Seq::empty());
    }
    assert(actions_of(s4, e4) =~= seq![ActionView::EmitExit(event), ActionView::Finish(Ok(()))]);
    assert(actions_of(s3, e3) =~= seq![
        ActionView::StopHelper,
        ActionView::EmitExit(event),
        ActionView::Finish(Ok(())),
    ]);
    assert(actions_of(s2, e2) =~= seq![
        ActionView::Sleep(SETTLE_TIME),
        ActionView::StopHelper,
        ActionView::EmitExit(event),
        ActionView::Finish(Ok(())),
    ]);
    assert(actions_of(s1, e1) =~= seq![
        ActionView::DeletePortal,
        ActionView::Sleep(SETTLE_TIME),
        ActionView::StopHelper,
        ActionView::EmitExit(event),
        ActionView::Finish(Ok(())),
    ]);
}

/// The inactivity timeout ends a portal that nobody has used: the handler
/// shuts down in good order with `Timeout`.
pub proof fn lemma_timeout_ends_unused_portal(s: HandlerView)
    requires
        s.phase == Phase::Poll,
        s.portal == PortalState::PortalUp,
    ensures
        next(s, EventView::Command(NetworkCommandView::Timeout)) == stops(s, ExitEvent::Timeout),
{
    reveal(next);
}

/// So does the exit command, whatever the portal's state.
pub proof fn lemma_exit_command_stops(s: HandlerView)
    requires
        s.phase == Phase::Poll,
    ensures
        next(s, EventView::Command(NetworkCommandView::Exit)) == stops(s, ExitEvent::ExitSignal),
{
    reveal(next);
}

/// A handler that has ended stays ended: it asks `Finish` again, with the
/// same result, whatever it is told.
pub proof fn lemma_finished_is_final(s: HandlerView, e: EventView)
    requires
        s.phase is Finished,
    ensures
        next(s, e).0 == s,
        next(s, e).1 == ActionView::Finish(s.phase->result),
{
    reveal(next);
}

/// The preparation of the backend deletes nothing but leftover hotspots. A
/// profile that it asks to be deleted is in access-point mode and carries the
/// portal's SSID, and no such profile between `from` and it was passed over;
/// when the sweep ends, in good order, no such profile is left from `from`
/// on.
pub proof fn lemma_init_sweeps_leftovers(s: NetworkInitView, from: int)
    requires
        0 <= from,
        s.connections.len() <= usize::MAX,
    ensures
        match init_sweep(s, from).1 {
            ActionView::DeleteConnection(i) => {
                &&& from <= i < s.connections.len()
                &&& is_swept(s.connections[i as int], Sweep::AccessPointProfiles, s.ssid)
                &&& forall|j: int|
                    from <= j < i ==> !is_swept(
                        #[trigger] s.connections[j],
                        Sweep::AccessPointProfiles,
                        s.ssid,
                    )
            },
            ActionView::Finish(result) => {
                &&& result is Ok
                &&& forall|j: int|
                    from <= j < s.connections.len() ==> !is_swept(
                        #[trigger] s.connections[j],
                        Sweep::AccessPointProfiles,
                        s.ssid,
                    )
            },
            _ => false,
        },
{
    lemma_next_swept(s.connections, from, Sweep::AccessPointProfiles, s.ssid);
}

/// Before a network is joined, the handler deletes the wireless profiles
/// that carry its SSID, in the backend's order, and no others; when none is
/// left it turns to the hotspot.
pub proof fn lemma_handler_sweeps_same_network(s: HandlerView, from: int)
    requires
        0 <= from,
        s.connections.len() <= usize::MAX,
    ensures
        match sweeps(s, from).1 {
            ActionView::DeleteConnection(i) => {
                &&& from <= i < s.connections.len()
                &&& is_swept(s.connections[i as int], Sweep::WiFiProfiles, s.ssid)
                &&& forall|j: int|
                    from <= j < i ==> !is_swept(
                        #[trigger] s.connections[j],
                        Sweep::WiFiProfiles,
                        s.ssid,
                    )
            },
            _ => {
                &&& sweeps(s, from) == stops_portal(s, After::Connect)
                &&& forall|j: int|
                    from <= j < s.connections.len() ==> !is_swept(
                        #[trigger] s.connections[j],
                        Sweep::WiFiProfiles,
                        s.ssid,
                    )
            },
        },
{
    lemma_next_swept(s.connections, from, Sweep::WiFiProfiles, s.ssid);
}

/// A scan that found something leaves its discovered list with the handler:
/// a list in which every SSID is text, and none occurs twice.
pub proof fn lemma_scan_fills_a_discovered_list(
    s: HandlerView,
    purpose: Purpose,
    attempt: u32,
    raw: Seq<AccessPointView>,
)
    requires
        discovered(raw).len() > 0,
    ensures
        scan_answered(s, purpose, attempt, EventView::AccessPoints(raw)).0.access_points
            == discovered(raw),
        distinct_ssids(discovered(raw)),
        all_visible(discovered(raw)),
{
    lemma_discovered_entries(raw);
}

} // verus!
