use wifi_connect::config::Config;
use wifi_connect::connection::ConnectionSettings;
use wifi_connect::connectivity::Connectivity;
use wifi_connect::device::{Device, DeviceState, DeviceType};
use wifi_connect::errors::ErrorKind;
use wifi_connect::exit::ExitEvent;
use wifi_connect::machine::{After, Ending, Phase, PortalState, Purpose};
use wifi_connect::network::{network_thread, network_thread_impl, NetworkCommandHandler};
use wifi_connect::protocol::{
    Action, ConnectionState, Event, NetworkCommand, NetworkCommandResponse,
};
use wifi_connect::wifi::{
    AccessPoint, AccessPointCredentials, Network, Security, SECURITY_ENTERPRISE, SECURITY_NONE,
    SECURITY_WEP, SECURITY_WPA2,
};

fn config(timeout: u64) -> Config {
    Config { interface: None, ssid: "WiFi Connect".to_string(), activity_timeout: timeout }
}

fn wlan0() -> Device {
    Device {
        interface: "wlan0".to_string(),
        device_type: DeviceType::WiFi,
        state: Some(DeviceState::Disconnected),
    }
}

fn ap(ssid: &str, bits: u32) -> AccessPoint {
    AccessPoint::new(format!("/ap/{}", ssid), ssid.as_bytes().to_vec(), 70, Security::from_bits(bits))
}

fn scan() -> Vec<AccessPoint> {
    vec![ap("Home", SECURITY_WPA2), ap("Cafe", SECURITY_NONE), ap("Home", SECURITY_WEP)]
}

fn wifi_connect(ssid: &str, passphrase: &str) -> Event {
    Event::Command(NetworkCommand::WiFiConnect {
        ssid: ssid.to_string(),
        identity: "".to_string(),
        passphrase: passphrase.to_string(),
    })
}

/// Gives the handler the answers one after the other and collects what it asks.
fn feed(handler: &mut NetworkCommandHandler, answers: Vec<Event>) -> Vec<Action> {
    answers.into_iter().map(|answer| network_thread_impl(handler, answer)).collect()
}

/// A handler whose portal is up and which waits for its first command.
fn waiting(timeout: u64) -> NetworkCommandHandler {
    let (mut handler, first) = NetworkCommandHandler::new(&config(timeout));
    assert_eq!(first, Action::ListDevices);
    let asked = feed(
        &mut handler,
        vec![
            Event::Devices(vec![wlan0()]),
            Event::Done,
            Event::Probe(None),
            Event::AccessPoints(scan()),
            Event::Done,
            Event::Done,
            Event::Done,
            Event::Done,
        ],
    );
    let mut expected = vec![
        Action::UseDevice(0),
        Action::ProbeInternet,
        Action::Scan,
        Action::CreatePortal,
        Action::StartHelper,
        Action::TrapExitSignals,
        Action::StartServer,
    ];
    if timeout > 0 {
        expected.push(Action::StartTimer(timeout));
        assert_eq!(asked, expected);
        assert_eq!(network_thread_impl(&mut handler, Event::Done), Action::Poll);
    } else {
        expected.push(Action::Poll);
        assert_eq!(asked, expected);
    }
    assert_eq!(handler.phase(), Phase::Poll);
    assert_eq!(handler.portal(), PortalState::PortalUp);
    assert!(handler.helper_running());
    assert!(!handler.is_stopped());
    handler
}

/// A handler whose portal is active: the configuration page has its list.
fn active(timeout: u64) -> NetworkCommandHandler {
    let mut handler = waiting(timeout);
    let asked = feed(&mut handler, vec![Event::Command(NetworkCommand::ActivatePortal), Event::Done]);
    assert_eq!(asked.len(), 2);
    assert_eq!(asked[1], Action::Poll);
    assert!(handler.portal_active());
    handler
}

fn shutdown(event: ExitEvent) -> Vec<Action> {
    vec![
        Action::DeactivatePortal,
        Action::DeletePortal,
        Action::Sleep(1),
        Action::StopHelper,
        Action::EmitExit(event),
        Action::Finish(Ok(())),
    ]
}

#[test]
fn handler_starts_with_the_device_named_in_the_configuration() {
    let named = Config {
        interface: Some("wlan1".to_string()),
        ssid: "WiFi Connect".to_string(),
        activity_timeout: 0,
    };
    let (mut handler, first) = NetworkCommandHandler::new(&named);
    assert_eq!(first, Action::GetDeviceByInterface("wlan1".to_string()));
    assert_eq!(handler.phase(), Phase::FindDevice);
    assert!(!handler.portal_connection());
    let device = Device {
        interface: "wlan1".to_string(),
        device_type: DeviceType::WiFi,
        state: Some(DeviceState::Activated),
    };
    assert_eq!(network_thread_impl(&mut handler, Event::Devices(vec![device])), Action::UseDevice(0));
}

#[test]
fn named_device_must_be_a_managed_wifi_device() {
    let named = Config {
        interface: Some("eth0".to_string()),
        ssid: "WiFi Connect".to_string(),
        activity_timeout: 0,
    };
    let cases = vec![
        (Event::Failed, ErrorKind::DeviceByInterface),
        (Event::Devices(vec![]), ErrorKind::DeviceByInterface),
        (
            Event::Devices(vec![Device {
                interface: "eth0".to_string(),
                device_type: DeviceType::Ethernet,
                state: Some(DeviceState::Activated),
            }]),
            ErrorKind::NotAWiFiDevice,
        ),
        (
            Event::Devices(vec![Device {
                interface: "eth0".to_string(),
                device_type: DeviceType::WiFi,
                state: Some(DeviceState::Unmanaged),
            }]),
            ErrorKind::UnmanagedDevice,
        ),
        (
            Event::Devices(vec![Device {
                interface: "eth0".to_string(),
                device_type: DeviceType::WiFi,
                state: None,
            }]),
            ErrorKind::NetworkManager,
        ),
    ];
    for (answer, error) in cases {
        let (mut handler, _) = NetworkCommandHandler::new(&named);
        assert_eq!(network_thread_impl(&mut handler, answer), Action::Finish(Err(error)));
        assert_eq!(handler.phase(), Phase::Finished { result: Err(error) });
        assert!(!handler.is_stopped());
    }
}

#[test]
fn startup_fails_without_a_wifi_device() {
    let (mut handler, _) = NetworkCommandHandler::new(&config(0));
    let ethernet = Device {
        interface: "eth0".to_string(),
        device_type: DeviceType::Ethernet,
        state: Some(DeviceState::Activated),
    };
    assert_eq!(
        network_thread_impl(&mut handler, Event::Devices(vec![ethernet])),
        Action::Finish(Err(ErrorKind::NoWiFiDevice))
    );
    let (mut handler, _) = NetworkCommandHandler::new(&config(0));
    assert_eq!(
        network_thread_impl(&mut handler, Event::Failed),
        Action::Finish(Err(ErrorKind::NetworkManager))
    );
    assert_eq!(network_thread(Err(ErrorKind::NetworkManager)), Some(Err(ErrorKind::NetworkManager)));
}

#[test]
fn portal_is_skipped_when_the_internet_is_reachable() {
    let (mut handler, _) = NetworkCommandHandler::new(&config(0));
    let asked = feed(
        &mut handler,
        vec![Event::Devices(vec![wlan0()]), Event::Done, Event::Probe(Some(204)), Event::Done],
    );
    assert_eq!(
        asked,
        vec![
            Action::UseDevice(0),
            Action::ProbeInternet,
            Action::EmitExit(ExitEvent::InternetConnected),
            Action::Finish(Ok(())),
        ]
    );
    assert!(handler.is_stopped());
    assert!(!handler.portal_connection());
    assert!(!handler.helper_running());
}

#[test]
fn unreachable_internet_leads_to_the_portal() {
    for probe in vec![Event::Probe(None), Event::Probe(Some(503)), Event::Probe(Some(301)), Event::Failed] {
        let (mut handler, _) = NetworkCommandHandler::new(&config(0));
        let asked = feed(&mut handler, vec![Event::Devices(vec![wlan0()]), Event::Done, probe]);
        assert_eq!(asked[2], Action::Scan);
        assert_eq!(handler.phase(), Phase::Scan { purpose: Purpose::Startup, attempt: 1 });
    }
}

#[test]
fn startup_keeps_the_discovered_list() {
    let handler = waiting(0);
    let list = handler.access_points();
    assert_eq!(list.len(), 2);
    assert_eq!(list[0], ap("Home", SECURITY_WPA2));
    assert_eq!(list[1], ap("Cafe", SECURITY_NONE));
}

#[test]
fn no_timer_is_started_for_timeout_zero() {
    let handler = waiting(0);
    assert_eq!(handler.phase(), Phase::Poll);
    let timed = waiting(5);
    assert_eq!(timed.phase(), Phase::Poll);
}

#[test]
fn empty_scan_is_repeated_ten_times_then_accepted() {
    let (mut handler, _) = NetworkCommandHandler::new(&config(0));
    feed(&mut handler, vec![Event::Devices(vec![wlan0()]), Event::Done, Event::Probe(None)]);
    for attempt in 1..=10u32 {
        assert_eq!(handler.phase(), Phase::Scan { purpose: Purpose::Startup, attempt });
        let hidden = vec![ap("", SECURITY_NONE)];
        assert_eq!(network_thread_impl(&mut handler, Event::AccessPoints(hidden)), Action::Sleep(1));
        assert_eq!(handler.phase(), Phase::ScanPause { purpose: Purpose::Startup, attempt });
        let next = network_thread_impl(&mut handler, Event::Done);
        if attempt < 10 {
            assert_eq!(next, Action::Scan);
        } else {
            assert_eq!(next, Action::CreatePortal);
        }
    }
    assert!(handler.access_points().is_empty());
    assert_eq!(handler.phase(), Phase::CreatePortal { startup: true });
}

#[test]
fn scan_succeeds_on_a_later_attempt() {
    let (mut handler, _) = NetworkCommandHandler::new(&config(0));
    let asked = feed(
        &mut handler,
        vec![
            Event::Devices(vec![wlan0()]),
            Event::Done,
            Event::Probe(None),
            Event::AccessPoints(vec![]),
            Event::Done,
            Event::AccessPoints(vec![]),
            Event::Done,
            Event::AccessPoints(scan()),
        ],
    );
    assert_eq!(
        asked[3..],
        vec![Action::Sleep(1), Action::Scan, Action::Sleep(1), Action::Scan, Action::CreatePortal]
    );
    assert_eq!(handler.access_points().len(), 2);
}

#[test]
fn failed_scan_at_startup_ends_the_handler() {
    let (mut handler, _) = NetworkCommandHandler::new(&config(0));
    let asked = feed(
        &mut handler,
        vec![Event::Devices(vec![wlan0()]), Event::Done, Event::Probe(None), Event::Failed],
    );
    assert_eq!(asked[3], Action::Finish(Err(ErrorKind::NoAccessPoints)));
    assert!(!handler.is_stopped());
}

#[test]
fn failed_portal_at_startup_ends_the_handler() {
    let (mut handler, _) = NetworkCommandHandler::new(&config(0));
    let asked = feed(
        &mut handler,
        vec![
            Event::Devices(vec![wlan0()]),
            Event::Done,
            Event::Probe(None),
            Event::AccessPoints(scan()),
            Event::Failed,
        ],
    );
    assert_eq!(asked[4], Action::Finish(Err(ErrorKind::CreateCaptivePortal)));
}

#[test]
fn failed_helper_at_startup_takes_the_portal_down() {
    let (mut handler, _) = NetworkCommandHandler::new(&config(0));
    let asked = feed(
        &mut handler,
        vec![
            Event::Devices(vec![wlan0()]),
            Event::Done,
            Event::Probe(None),
            Event::AccessPoints(scan()),
            Event::Done,
            Event::Failed,
            Event::Done,
            Event::Done,
            Event::Done,
        ],
    );
    assert_eq!(
        asked[5..],
        vec![
            Action::DeactivatePortal,
            Action::DeletePortal,
            Action::Sleep(1),
            Action::Finish(Err(ErrorKind::Dnsmasq)),
        ]
    );
    assert!(!handler.portal_connection());
    assert!(!handler.is_stopped());
}

#[test]
fn activate_portal_sends_the_cached_list() {
    let mut handler = waiting(0);
    let asked = network_thread_impl(&mut handler, Event::Command(NetworkCommand::ActivatePortal));
    assert_eq!(
        asked,
        Action::Send(NetworkCommandResponse::Networks(vec![
            Network { ssid: "Home".to_string(), security: "wpa".to_string() },
            Network { ssid: "Cafe".to_string(), security: "none".to_string() },
        ]))
    );
    assert!(!handler.portal_active());
    assert_eq!(network_thread_impl(&mut handler, Event::Done), Action::Poll);
    assert!(handler.portal_active());
    assert!(handler.portal_connection());
    assert_eq!(handler.portal(), PortalState::PortalActive);
}

#[test]
fn list_that_cannot_be_sent_ends_the_handler() {
    let mut handler = waiting(0);
    let asked = feed(
        &mut handler,
        vec![
            Event::Command(NetworkCommand::ActivatePortal),
            Event::Failed,
            Event::Done,
            Event::Done,
            Event::Done,
            Event::Done,
            Event::Done,
        ],
    );
    assert_eq!(
        asked[1..],
        vec![
            Action::DeactivatePortal,
            Action::DeletePortal,
            Action::Sleep(1),
            Action::StopHelper,
            Action::EmitExit(ExitEvent::UnexpectedExit),
            Action::Finish(Err(ErrorKind::SendAccessPointSSIDs)),
        ]
    );
    assert_eq!(
        network_thread(Err(ErrorKind::SendAccessPointSSIDs)),
        Some(Err(ErrorKind::SendAccessPointSSIDs))
    );
}

#[test]
fn timeout_ends_a_portal_that_was_never_activated() {
    let mut handler = waiting(5);
    let asked = feed(
        &mut handler,
        vec![
            Event::QueueEmpty,
            Event::Connectivity(Connectivity::Offline),
            Event::Done,
            Event::Command(NetworkCommand::Timeout),
            Event::Done,
            Event::Done,
            Event::Done,
            Event::Done,
            Event::Done,
        ],
    );
    assert_eq!(asked[..3], vec![Action::QueryConnectivity, Action::Sleep(2), Action::Poll]);
    assert_eq!(asked[3..], shutdown(ExitEvent::Timeout));
    assert_eq!(handler.phase(), Phase::Finished { result: Ok(()) });
    assert!(handler.is_stopped());
    assert!(!handler.portal_connection());
    assert!(!handler.helper_running());
    assert_eq!(network_thread(Ok(())), None);
}

#[test]
fn timeout_is_ignored_by_an_active_portal() {
    let mut handler = active(5);
    let asked = network_thread_impl(&mut handler, Event::Command(NetworkCommand::Timeout));
    assert_eq!(asked, Action::Poll);
    assert_eq!(handler.phase(), Phase::Poll);
    assert!(handler.portal_active());
    assert!(handler.helper_running());
    assert!(!handler.is_stopped());
}

#[test]
fn exit_command_shuts_down_in_any_portal_state() {
    let mut handler = waiting(0);
    let mut answers = vec![Event::Command(NetworkCommand::Exit)];
    answers.extend(vec![Event::Done, Event::Done, Event::Done, Event::Done, Event::Done]);
    assert_eq!(feed(&mut handler, answers), shutdown(ExitEvent::ExitSignal));

    let mut handler = active(0);
    let mut answers = vec![Event::Command(NetworkCommand::Exit)];
    answers.extend(vec![Event::Done, Event::Done, Event::Done, Event::Done, Event::Done]);
    assert_eq!(feed(&mut handler, answers), shutdown(ExitEvent::ExitSignal));
    assert!(!handler.portal_active());
}

#[test]
fn idle_handler_exits_on_full_connectivity_only() {
    for other in vec![
        Event::Connectivity(Connectivity::Limited),
        Event::Connectivity(Connectivity::Portal),
        Event::Connectivity(Connectivity::Offline),
        Event::Connectivity(Connectivity::Unknown),
        Event::Failed,
    ] {
        let mut handler = waiting(0);
        let asked = feed(&mut handler, vec![Event::QueueEmpty, other, Event::Done]);
        assert_eq!(asked, vec![Action::QueryConnectivity, Action::Sleep(2), Action::Poll]);
    }
    let mut handler = waiting(0);
    let mut answers = vec![Event::QueueEmpty, Event::Connectivity(Connectivity::Full)];
    answers.extend(vec![Event::Done, Event::Done, Event::Done, Event::Done, Event::Done]);
    let asked = feed(&mut handler, answers);
    assert_eq!(asked[0], Action::QueryConnectivity);
    assert_eq!(asked[1..], shutdown(ExitEvent::InternetConnected));
}

#[test]
fn disconnected_queue_ends_the_handler_after_a_second() {
    let mut handler = active(0);
    let asked = feed(
        &mut handler,
        vec![
            Event::QueueDisconnected,
            Event::Done,
            Event::Done,
            Event::Done,
            Event::Done,
            Event::Done,
            Event::Done,
        ],
    );
    assert_eq!(
        asked,
        vec![
            Action::Sleep(1),
            Action::DeactivatePortal,
            Action::DeletePortal,
            Action::Sleep(1),
            Action::StopHelper,
            Action::EmitExit(ExitEvent::UnexpectedExit),
            Action::Finish(Err(ErrorKind::RecvNetworkCommand)),
        ]
    );
    assert!(handler.is_stopped());
}

#[test]
fn receive_network_command_reads_the_queue() {
    let handler = waiting(0);
    assert_eq!(
        handler.receive_network_command(Event::Command(NetworkCommand::RestartApp)),
        Ok(NetworkCommand::RestartApp)
    );
    assert_eq!(handler.receive_network_command(Event::QueueEmpty), Ok(NetworkCommand::CheckConnectivity));
    assert_eq!(
        handler.receive_network_command(Event::QueueDisconnected),
        Err(ErrorKind::RecvNetworkCommand)
    );
    assert_eq!(handler.receive_network_command(Event::Done), Err(ErrorKind::RecvNetworkCommand));
}

#[test]
fn restart_recreates_the_portal_and_keeps_the_helper() {
    let mut handler = active(0);
    let asked = feed(
        &mut handler,
        vec![
            Event::Command(NetworkCommand::RestartApp),
            Event::Done,
            Event::Done,
            Event::Done,
            Event::AccessPoints(vec![ap("Office", SECURITY_ENTERPRISE)]),
            Event::Done,
        ],
    );
    assert_eq!(
        asked,
        vec![
            Action::DeactivatePortal,
            Action::DeletePortal,
            Action::Sleep(1),
            Action::Scan,
            Action::CreatePortal,
            Action::Poll,
        ]
    );
    assert_eq!(handler.portal(), PortalState::PortalUp);
    assert!(handler.helper_running());
    assert!(!handler.is_stopped());
    assert_eq!(handler.access_points().len(), 1);
}

#[test]
fn stop_portal_twice_is_a_no_op_the_second_time() {
    let mut handler = waiting(0);
    assert_eq!(handler.reload(), Action::DeactivatePortal);
    let asked = feed(&mut handler, vec![Event::Done, Event::Done, Event::Done]);
    assert_eq!(asked, vec![Action::DeletePortal, Action::Sleep(1), Action::Scan]);
    assert!(!handler.portal_connection());
    // The portal is down: taking it down again asks nothing of the backend.
    assert_eq!(handler.reload(), Action::Scan);
    assert!(!handler.portal_connection());
    assert_eq!(handler.phase(), Phase::Scan { purpose: Purpose::Recreate, attempt: 1 });
    assert_eq!(handler.stop(ExitEvent::ExitSignal), Action::StopHelper);
    assert_eq!(handler.phase(), Phase::StopHelper { ending: Ending::Exit(ExitEvent::ExitSignal) });
}

#[test]
fn stop_posts_its_event_once() {
    let mut handler = waiting(0);
    assert_eq!(handler.stop(ExitEvent::ExitSignal), Action::DeactivatePortal);
    assert_eq!(
        handler.phase(),
        Phase::DeactivatePortal { after: After::End(Ending::Exit(ExitEvent::ExitSignal)) }
    );
    let asked = feed(&mut handler, vec![Event::Done, Event::Done, Event::Done, Event::Done, Event::Done]);
    assert_eq!(asked, shutdown(ExitEvent::ExitSignal)[1..]);
    // A second stop finds nothing to take down and posts nothing.
    assert_eq!(handler.stop(ExitEvent::Timeout), Action::Finish(Ok(())));
    assert!(handler.is_stopped());
}

#[test]
fn wifi_connect_succeeds_as_soon_as_connectivity_is_full() {
    let mut handler = active(0);
    let stale = ConnectionSettings {
        kind: "802-11-wireless".to_string(),
        ssid: b"Home".to_vec(),
        mode: "infrastructure".to_string(),
    };
    let wired = ConnectionSettings {
        kind: "802-3-ethernet".to_string(),
        ssid: Vec::new(),
        mode: "".to_string(),
    };
    let mut answers = vec![
        wifi_connect("Home", "correct"),
        Event::Connections(vec![wired, stale]),
        Event::Done,
        Event::Done,
        Event::Done,
        Event::Done,
        Event::AccessPoints(scan()),
        Event::Activation(ConnectionState::Activated),
    ];
    // Connectivity is reached in the fifth second.
    for _ in 0..5 {
        answers.push(Event::Connectivity(Connectivity::Offline));
        answers.push(Event::Done);
    }
    answers.push(Event::Connectivity(Connectivity::Full));
    answers.extend(vec![Event::Done, Event::Done]);
    let asked = feed(&mut handler, answers);
    let mut expected = vec![
        Action::ListConnections,
        Action::DeleteConnection(1),
        Action::DeactivatePortal,
        Action::DeletePortal,
        Action::Sleep(1),
        Action::Scan,
        Action::Connect {
            access_point: ap("Home", SECURITY_WPA2),
            credentials: AccessPointCredentials::Wpa { passphrase: "correct".to_string() },
        },
        Action::QueryConnectivity,
    ];
    for _ in 0..5 {
        expected.push(Action::Sleep(1));
        expected.push(Action::QueryConnectivity);
    }
    expected.extend(vec![
        Action::StopHelper,
        Action::EmitExit(ExitEvent::WiFiConnected),
        Action::Finish(Ok(())),
    ]);
    assert_eq!(asked, expected);
    assert!(handler.is_stopped());
    assert!(!handler.portal_connection());
    assert_eq!(handler.last_failure(), None);
}

#[test]
fn limited_connectivity_counts_as_joined() {
    let mut handler = waiting(0);
    let asked = feed(
        &mut handler,
        vec![
            wifi_connect("Cafe", ""),
            Event::Failed,
            Event::Done,
            Event::Done,
            Event::Done,
            Event::AccessPoints(scan()),
            Event::Activation(ConnectionState::Activating),
            Event::Connectivity(Connectivity::Limited),
        ],
    );
    assert_eq!(
        asked[5],
        Action::Connect {
            access_point: ap("Cafe", SECURITY_NONE),
            credentials: AccessPointCredentials::Open,
        }
    );
    assert_eq!(asked[6], Action::QueryConnectivity);
    assert_eq!(asked[7], Action::StopHelper);
}

#[test]
fn connectivity_wait_gives_up_after_thirty_seconds_and_still_counts_as_joined() {
    let mut handler = waiting(0);
    feed(
        &mut handler,
        vec![
            wifi_connect("Home", "pw"),
            Event::Connections(vec![]),
            Event::Done,
            Event::Done,
            Event::Done,
            Event::AccessPoints(scan()),
        ],
    );
    assert_eq!(handler.phase(), Phase::Connect);
    let mut asked = network_thread_impl(&mut handler, Event::Activation(ConnectionState::Activated));
    let mut sleeps = 0;
    let mut queries = 0;
    loop {
        match asked {
            Action::QueryConnectivity => {
                assert_eq!(handler.phase(), Phase::WaitConnectivity { total_time: queries });
                queries += 1;
                asked = network_thread_impl(&mut handler, Event::Connectivity(Connectivity::Portal));
            }
            Action::Sleep(1) => {
                sleeps += 1;
                asked = network_thread_impl(&mut handler, Event::Done);
            }
            other => {
                assert_eq!(other, Action::StopHelper);
                break;
            }
        }
    }
    assert_eq!(queries, 31);
    assert_eq!(sleeps, 30);
    let asked = feed(&mut handler, vec![Event::Done, Event::Done]);
    assert_eq!(asked, vec![Action::EmitExit(ExitEvent::WiFiConnected), Action::Finish(Ok(()))]);
}

#[test]
fn failed_connectivity_query_ends_the_wait() {
    let mut handler = waiting(0);
    let asked = feed(
        &mut handler,
        vec![
            wifi_connect("Home", "pw"),
            Event::Connections(vec![]),
            Event::Done,
            Event::Done,
            Event::Done,
            Event::AccessPoints(scan()),
            Event::Activation(ConnectionState::Activated),
            Event::Failed,
        ],
    );
    assert_eq!(asked[7], Action::StopHelper);
}

#[test]
fn failed_activation_reloads_without_an_exit_event() {
    let mut handler = active(0);
    let asked = feed(
        &mut handler,
        vec![
            wifi_connect("Home", "wrong"),
            Event::Connections(vec![]),
            Event::Done,
            Event::Done,
            Event::Done,
            Event::AccessPoints(scan()),
            Event::Activation(ConnectionState::Deactivated),
            Event::Done,
            Event::AccessPoints(scan()),
            Event::Done,
        ],
    );
    assert_eq!(
        asked,
        vec![
            Action::ListConnections,
            Action::DeactivatePortal,
            Action::DeletePortal,
            Action::Sleep(1),
            Action::Scan,
            Action::Connect {
                access_point: ap("Home", SECURITY_WPA2),
                credentials: AccessPointCredentials::Wpa { passphrase: "wrong".to_string() },
            },
            Action::DeleteAttempt,
            Action::Scan,
            Action::CreatePortal,
            Action::Poll,
        ]
    );
    assert_eq!(handler.last_failure(), Some(ErrorKind::WiFiConnectionFailed));
    assert!(!handler.is_stopped());
    assert_eq!(handler.portal(), PortalState::PortalUp);
    assert!(handler.helper_running());
    assert!(asked.iter().all(|a| !matches!(a, Action::EmitExit(_))));
}

#[test]
fn activation_the_backend_refuses_reloads_at_once() {
    let mut handler = waiting(0);
    let asked = feed(
        &mut handler,
        vec![
            wifi_connect("Home", "pw"),
            Event::Connections(vec![]),
            Event::Done,
            Event::Done,
            Event::Done,
            Event::AccessPoints(scan()),
            Event::Failed,
        ],
    );
    assert_eq!(asked[6], Action::Scan);
    assert_eq!(handler.phase(), Phase::Scan { purpose: Purpose::Recreate, attempt: 1 });
    assert_eq!(handler.last_failure(), Some(ErrorKind::WiFiConnectionFailed));
}

#[test]
fn network_that_is_not_in_the_scan_cannot_be_joined() {
    let mut handler = waiting(0);
    let asked = feed(
        &mut handler,
        vec![
            wifi_connect("Nowhere", "pw"),
            Event::Connections(vec![]),
            Event::Done,
            Event::Done,
            Event::Done,
            Event::AccessPoints(scan()),
        ],
    );
    assert_eq!(asked[5], Action::Scan);
    assert_eq!(handler.phase(), Phase::Scan { purpose: Purpose::Recreate, attempt: 1 });
    assert_eq!(handler.last_failure(), Some(ErrorKind::WiFiConnectionFailed));
}

#[test]
fn failed_rescan_while_connecting_is_absorbed() {
    let mut handler = waiting(0);
    let asked = feed(
        &mut handler,
        vec![
            wifi_connect("Home", "pw"),
            Event::Connections(vec![]),
            Event::Done,
            Event::Done,
            Event::Done,
            Event::Failed,
        ],
    );
    assert_eq!(asked[5], Action::Scan);
    assert_eq!(handler.last_failure(), Some(ErrorKind::NoAccessPoints));
    // The scan for the new portal is part of normal operation: its failure is fatal.
    let asked = feed(&mut handler, vec![Event::Failed, Event::Done, Event::Done]);
    assert_eq!(
        asked,
        vec![
            Action::StopHelper,
            Action::EmitExit(ExitEvent::UnexpectedExit),
            Action::Finish(Err(ErrorKind::NoAccessPoints)),
        ]
    );
}

#[test]
fn enterprise_network_gets_identity_and_passphrase() {
    let mut handler = waiting(0);
    let asked = feed(
        &mut handler,
        vec![
            Event::Command(NetworkCommand::WiFiConnect {
                ssid: "Office".to_string(),
                identity: "alice".to_string(),
                passphrase: "secret".to_string(),
            }),
            Event::Connections(vec![]),
            Event::Done,
            Event::Done,
            Event::Done,
            Event::AccessPoints(vec![ap("Office", SECURITY_ENTERPRISE | SECURITY_WPA2)]),
        ],
    );
    assert_eq!(
        asked[5],
        Action::Connect {
            access_point: ap("Office", SECURITY_ENTERPRISE | SECURITY_WPA2),
            credentials: AccessPointCredentials::Enterprise {
                identity: "alice".to_string(),
                passphrase: "secret".to_string(),
            },
        }
    );
}

#[test]
fn portal_that_cannot_be_stopped_is_a_failure_of_the_handler() {
    let mut handler = waiting(0);
    let asked = feed(
        &mut handler,
        vec![
            Event::Command(NetworkCommand::Exit),
            Event::Failed,
            Event::Failed,
            Event::Done,
            Event::Done,
        ],
    );
    assert_eq!(
        asked,
        vec![
            Action::DeactivatePortal,
            Action::DeactivatePortal,
            Action::StopHelper,
            Action::EmitExit(ExitEvent::UnexpectedExit),
            Action::Finish(Err(ErrorKind::StopAccessPoint)),
        ]
    );
    assert!(handler.portal_connection());
}

#[test]
fn helper_that_cannot_be_stopped_is_a_failure_of_the_handler() {
    let mut handler = waiting(0);
    let asked = feed(
        &mut handler,
        vec![
            Event::Command(NetworkCommand::Exit),
            Event::Done,
            Event::Done,
            Event::Done,
            Event::Failed,
            Event::Failed,
            Event::Done,
        ],
    );
    assert_eq!(
        asked[3..],
        vec![
            Action::StopHelper,
            Action::StopHelper,
            Action::EmitExit(ExitEvent::UnexpectedExit),
            Action::Finish(Err(ErrorKind::Dnsmasq)),
        ]
    );
}

#[test]
fn at_most_one_exit_event_whatever_the_answers() {
    let answers = vec![
        Event::Command(NetworkCommand::Exit),
        Event::Failed,
        Event::Done,
        Event::Command(NetworkCommand::Timeout),
        Event::QueueDisconnected,
        Event::Done,
        Event::Failed,
        Event::Connectivity(Connectivity::Full),
        Event::Done,
        Event::Done,
        Event::Command(NetworkCommand::Exit),
        Event::Done,
        Event::Done,
        Event::Done,
    ];
    let mut handler = active(3);
    let asked = feed(&mut handler, answers);
    let exits = asked.iter().filter(|a| matches!(a, Action::EmitExit(_))).count();
    assert_eq!(exits, 1);
    assert!(handler.is_stopped());
}

#[test]
fn finished_handler_stays_finished() {
    let mut handler = waiting(0);
    let mut answers = vec![Event::Command(NetworkCommand::Exit)];
    answers.extend(vec![Event::Done, Event::Done, Event::Done, Event::Done, Event::Done]);
    feed(&mut handler, answers);
    for answer in vec![Event::Done, Event::QueueEmpty, Event::Command(NetworkCommand::ActivatePortal)] {
        assert_eq!(network_thread_impl(&mut handler, answer), Action::Finish(Ok(())));
        assert_eq!(handler.phase(), Phase::Finished { result: Ok(()) });
    }
}

#[test]
fn portal_that_cannot_be_recreated_ends_the_handler() {
    let mut handler = active(0);
    let asked = feed(
        &mut handler,
        vec![
            Event::Command(NetworkCommand::RestartApp),
            Event::Done,
            Event::Done,
            Event::Done,
            Event::AccessPoints(scan()),
            Event::Failed,
            Event::Done,
            Event::Done,
        ],
    );
    assert_eq!(
        asked[4..],
        vec![
            Action::CreatePortal,
            Action::StopHelper,
            Action::EmitExit(ExitEvent::UnexpectedExit),
            Action::Finish(Err(ErrorKind::CreateCaptivePortal)),
        ]
    );
    assert!(!handler.helper_running());
    assert!(!handler.portal_connection());
}

#[test]
fn hotspot_that_stays_up_fails_the_attempt_and_then_the_handler() {
    let mut handler = waiting(0);
    let asked = feed(
        &mut handler,
        vec![wifi_connect("Home", "pw"), Event::Connections(vec![]), Event::Failed],
    );
    // The attempt has failed; the reload that follows tries the hotspot again.
    assert_eq!(asked, vec![Action::ListConnections, Action::DeactivatePortal, Action::DeactivatePortal]);
    assert_eq!(handler.last_failure(), Some(ErrorKind::StopAccessPoint));
    assert_eq!(handler.phase(), Phase::DeactivatePortal { after: After::Reload });
    let asked = feed(&mut handler, vec![Event::Done, Event::Failed, Event::Done, Event::Done, Event::Done]);
    assert_eq!(
        asked,
        vec![
            Action::DeletePortal,
            Action::DeactivatePortal,
            Action::DeletePortal,
            Action::Sleep(1),
            Action::StopHelper,
        ]
    );
    assert_eq!(
        handler.phase(),
        Phase::StopHelper { ending: Ending::Teardown(ErrorKind::StopAccessPoint) }
    );
}

#[test]
fn new_attempt_forgets_the_last_failure() {
    let mut handler = waiting(0);
    feed(
        &mut handler,
        vec![
            wifi_connect("Nowhere", "pw"),
            Event::Connections(vec![]),
            Event::Done,
            Event::Done,
            Event::Done,
            Event::AccessPoints(scan()),
            Event::AccessPoints(scan()),
            Event::Done,
        ],
    );
    assert_eq!(handler.phase(), Phase::Poll);
    assert_eq!(handler.last_failure(), Some(ErrorKind::WiFiConnectionFailed));
    assert_eq!(network_thread_impl(&mut handler, wifi_connect("Home", "pw")), Action::ListConnections);
    assert_eq!(handler.last_failure(), None);
}
