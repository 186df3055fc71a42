use system_bridge_shell::settings::Settings;
use system_bridge_shell::settings::SettingsError;
use system_bridge_shell::startup::is_success_status;
use system_bridge_shell::startup::next_action;
use system_bridge_shell::startup::step;
use system_bridge_shell::startup::Action;
use system_bridge_shell::startup::ApiResult;
use system_bridge_shell::startup::Event;
use system_bridge_shell::startup::Failure;
use system_bridge_shell::startup::Phase;
use system_bridge_shell::startup::ProbeResult;
use system_bridge_shell::startup::EXIT_FAILURE;
use system_bridge_shell::startup::STARTUP_WAIT_SECS;

fn sample_settings() -> Settings {
    match Settings::new(String::from("tok"), 9170, false) {
        Ok(s) => s,
        Err(_) => panic!("a real port must be accepted"),
    }
}

fn settings_loaded() -> Event {
    Event::SettingsRead { result: Ok(sample_settings()) }
}

fn root_status(code: u16) -> Event {
    Event::RootProbed { result: ProbeResult::Response { code } }
}

fn api_status(code: u16, version: Option<&str>) -> Event {
    Event::ApiProbed {
        result: ApiResult::Response { code, version: version.map(String::from) },
    }
}

fn expect_exit(phase: &Phase, message: &str) {
    match next_action(phase) {
        Action::Exit { code, message: m } => {
            assert_eq!(code, EXIT_FAILURE);
            assert_eq!(code, 1);
            assert_eq!(m, message);
        }
        _ => panic!("a failed startup must exit"),
    }
}

#[test]
fn success_status_is_a_2xx() {
    assert!(!is_success_status(199));
    assert!(is_success_status(200));
    assert!(is_success_status(299));
    assert!(!is_success_status(300));
    assert!(!is_success_status(503));
}

#[test]
fn missing_settings_exit_before_any_network() {
    assert!(matches!(next_action(&Phase::AwaitSettings), Action::ReadSettings));
    let failed = step(
        Phase::AwaitSettings,
        Event::SettingsRead { result: Err(SettingsError::NotFound) },
    );
    assert!(matches!(
        failed,
        Phase::Failed { failure: Failure::Settings { error: SettingsError::NotFound } }
    ));
    expect_exit(&failed, "Settings file not found");
    // The failure absorbs anything that still arrives; no probe is ever asked for.
    let after = step(failed, root_status(200));
    assert!(matches!(after, Phase::Failed { .. }));
    expect_exit(&after, "Settings file not found");
}

#[test]
fn malformed_settings_exit_before_any_network() {
    let failed = step(
        Phase::AwaitSettings,
        Event::SettingsRead { result: Err(SettingsError::Malformed) },
    );
    expect_exit(&failed, "Settings file is not a valid settings document");
}

#[test]
fn unreadable_settings_exit_before_any_network() {
    let failed = step(
        Phase::AwaitSettings,
        Event::SettingsRead { result: Err(SettingsError::Unreadable) },
    );
    expect_exit(&failed, "Settings file could not be read");
}

#[test]
fn invalid_port_exits_before_any_network() {
    let failed = step(
        Phase::AwaitSettings,
        Event::SettingsRead { result: Settings::new(String::from("tok"), 0, false) },
    );
    expect_exit(&failed, "Settings file has an invalid API port");
}

#[test]
fn responsive_backend_skips_the_spawn() {
    let s = step(Phase::AwaitSettings, settings_loaded());
    match next_action(&s) {
        Action::ProbeRoot { url } => assert_eq!(url, "http://127.0.0.1:9170/"),
        _ => panic!("the first phase after the settings must probe the root"),
    }
    let s = step(s, root_status(200));
    assert!(matches!(s, Phase::AwaitApiProbe { .. }));
    match next_action(&s) {
        Action::ProbeApi { url } => assert_eq!(url, "http://127.0.0.1:9170/api?token=tok"),
        _ => panic!("a responsive backend goes straight to the API probe"),
    }
}

#[test]
fn unresponsive_backend_spawns_once_waits_once_rechecks_once() {
    let s = step(Phase::AwaitSettings, settings_loaded());
    let s = step(s, root_status(503));
    assert!(matches!(s, Phase::AwaitSpawn { .. }));
    assert!(matches!(next_action(&s), Action::SpawnBackend));
    let s = step(s, Event::Spawned { ok: true });
    assert!(matches!(s, Phase::AwaitSleep { .. }));
    match next_action(&s) {
        Action::Sleep { secs } => {
            assert_eq!(secs, STARTUP_WAIT_SECS);
            assert_eq!(secs, 5);
        }
        _ => panic!("one fixed wait follows the spawn"),
    }
    let s = step(s, Event::Slept);
    assert!(matches!(s, Phase::AwaitSecondProbe { .. }));
    match next_action(&s) {
        Action::ProbeRoot { url } => assert_eq!(url, "http://127.0.0.1:9170/"),
        _ => panic!("one re-check follows the wait"),
    }
    let s = step(s, root_status(200));
    assert!(matches!(s, Phase::AwaitApiProbe { .. }));
    let s = step(s, api_status(200, Some("5.0.0")));
    match &s {
        Phase::Ready { version, .. } => assert_eq!(version, "5.0.0"),
        _ => panic!("a successful handshake ends ready"),
    }
    assert!(matches!(next_action(&s), Action::LaunchUi));
}

#[test]
fn unreachable_backend_fails_the_first_probe() {
    let s = step(Phase::AwaitSettings, settings_loaded());
    let s = step(s, Event::RootProbed { result: ProbeResult::Unreachable });
    assert!(matches!(s, Phase::Failed { failure: Failure::BackendUnreachable }));
    expect_exit(&s, "Backend is not running");
}

#[test]
fn failed_spawn_aborts() {
    let s = step(Phase::AwaitSettings, settings_loaded());
    let s = step(s, root_status(500));
    let s = step(s, Event::Spawned { ok: false });
    assert!(matches!(s, Phase::Failed { failure: Failure::SpawnFailed }));
    expect_exit(&s, "Failed to start the backend server");
}

#[test]
fn still_down_after_wait_aborts() {
    let s = step(Phase::AwaitSettings, settings_loaded());
    let s = step(s, root_status(500));
    let s = step(s, Event::Spawned { ok: true });
    let s = step(s, Event::Slept);
    let s = step(s, root_status(500));
    assert!(matches!(s, Phase::Failed { failure: Failure::BackendNotStarted }));
    expect_exit(&s, "Failed to start the backend server");
}

#[test]
fn api_error_surfaces_the_exact_status_code() {
    let s = step(Phase::AwaitSettings, settings_loaded());
    let s = step(s, root_status(200));
    let s = step(s, api_status(401, None));
    match &s {
        Phase::Failed { failure: Failure::ApiError { code } } => assert_eq!(*code, 401),
        _ => panic!("a non-success API status must fail with that status"),
    }
    expect_exit(&s, "Backend server returned an error: 401");
}

#[test]
fn api_unreachable_aborts() {
    let s = step(Phase::AwaitSettings, settings_loaded());
    let s = step(s, root_status(200));
    let s = step(s, Event::ApiProbed { result: ApiResult::Unreachable });
    assert!(matches!(s, Phase::Failed { failure: Failure::ApiUnreachable }));
    expect_exit(&s, "Backend API is not running");
}

#[test]
fn api_body_without_version_aborts() {
    let s = step(Phase::AwaitSettings, settings_loaded());
    let s = step(s, root_status(200));
    let s = step(s, api_status(204, None));
    assert!(matches!(s, Phase::Failed { failure: Failure::ApiInvalidBody }));
    expect_exit(&s, "Backend API is not running");
}

#[test]
fn unexpected_event_fails_the_startup() {
    let s = step(Phase::AwaitSettings, Event::Slept);
    assert!(matches!(s, Phase::Failed { failure: Failure::UnexpectedEvent }));
    expect_exit(&s, "Unexpected startup event");
}

#[test]
fn ready_phase_absorbs_late_events() {
    let s = step(Phase::AwaitSettings, settings_loaded());
    let s = step(s, root_status(200));
    let s = step(s, api_status(200, Some("5.0.0")));
    let s = step(s, Event::Slept);
    match &s {
        Phase::Ready { version, .. } => assert_eq!(version, "5.0.0"),
        _ => panic!("the ready phase must absorb late events"),
    }
}
