use wifi_connect::config::Config;
use wifi_connect::connection::ConnectionSettings;
use wifi_connect::errors::ErrorKind;
use wifi_connect::protocol::{Action, Event, ServiceState};
use wifi_connect::startup::{network_init, InitPhase};

fn config() -> Config {
    Config { interface: None, ssid: "WiFi Connect".to_string(), activity_timeout: 0 }
}

fn profile(kind: &str, mode: &str, ssid: &[u8]) -> ConnectionSettings {
    ConnectionSettings { kind: kind.to_string(), ssid: ssid.to_vec(), mode: mode.to_string() }
}

#[test]
fn active_service_is_left_alone() {
    let (mut init, first) = network_init(&config());
    assert_eq!(first, Action::QueryServiceState);
    assert_eq!(init.phase(), InitPhase::QueryService);
    assert_eq!(init.step(Event::Service(ServiceState::Active)), Action::ListConnections);
    assert_eq!(init.step(Event::Connections(vec![])), Action::Finish(Ok(())));
    assert_eq!(init.phase(), InitPhase::Finished { result: Ok(()) });
    assert_eq!(init.step(Event::Done), Action::Finish(Ok(())));
}

#[test]
fn inactive_service_is_started_with_a_wait_of_fifteen_seconds() {
    let (mut init, _) = network_init(&config());
    assert_eq!(init.step(Event::Service(ServiceState::Inactive)), Action::StartService(15));
    assert_eq!(init.step(Event::Service(ServiceState::Active)), Action::ListConnections);
}

#[test]
fn service_that_does_not_become_active_fails_the_start() {
    let (mut init, _) = network_init(&config());
    init.step(Event::Service(ServiceState::Failed));
    assert_eq!(
        init.step(Event::Service(ServiceState::Activating)),
        Action::Finish(Err(ErrorKind::StartActiveNetworkManager))
    );
    let (mut init, _) = network_init(&config());
    init.step(Event::Service(ServiceState::Inactive));
    assert_eq!(init.step(Event::Failed), Action::Finish(Err(ErrorKind::StartNetworkManager)));
}

#[test]
fn service_state_that_cannot_be_read_is_passed_over() {
    let (mut init, _) = network_init(&config());
    assert_eq!(init.step(Event::Failed), Action::ListConnections);
}

#[test]
fn leftover_hotspot_profiles_are_deleted() {
    let (mut init, _) = network_init(&config());
    init.step(Event::Service(ServiceState::Active));
    let profiles = vec![
        profile("802-11-wireless", "infrastructure", b"WiFi Connect"),
        profile("802-11-wireless", "ap", b"WiFi Connect"),
        profile("802-3-ethernet", "ap", b"WiFi Connect"),
        profile("802-11-wireless", "ap", b"Other"),
        profile("802-11-wireless", "ap", &[0xff, 0xff]),
        profile("802-11-wireless", "ap", b"WiFi Connect"),
    ];
    assert_eq!(init.step(Event::Connections(profiles)), Action::DeleteConnection(1));
    assert_eq!(init.phase(), InitPhase::DeleteConnection { index: 1 });
    assert_eq!(init.step(Event::Done), Action::DeleteConnection(5));
    assert_eq!(init.step(Event::Done), Action::Finish(Ok(())));
}

#[test]
fn profile_that_cannot_be_deleted_fails_the_start() {
    let (mut init, _) = network_init(&config());
    init.step(Event::Service(ServiceState::Active));
    let profiles = vec![profile("802-11-wireless", "ap", b"WiFi Connect")];
    assert_eq!(init.step(Event::Connections(profiles)), Action::DeleteConnection(0));
    assert_eq!(init.step(Event::Failed), Action::Finish(Err(ErrorKind::DeleteAccessPoint)));
    let (mut init, _) = network_init(&config());
    init.step(Event::Service(ServiceState::Active));
    assert_eq!(init.step(Event::Failed), Action::Finish(Err(ErrorKind::DeleteAccessPoint)));
}
