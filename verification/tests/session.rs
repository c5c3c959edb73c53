use browser_automation::session::{
    connect_action, connect_plan, connect_step, landing_page_uri, poll_step, server_url, Backend,
    ConnectAction, ConnectConfig, ConnectError, ConnectEvent, ConnectPhase, ManagerState,
    PollSettings, PollVerdict, SETTLE_DELAY_MS,
};
use browser_automation::EngineError;

fn config(chrome: Option<&str>, firefox: Option<&str>, port: Option<&str>) -> ConnectConfig {
    ConnectConfig {
        chrome_path: chrome.map(str::to_owned),
        firefox_path: firefox.map(str::to_owned),
        port: port.map(str::to_owned),
        chrome_driver_args: String::new(),
        chrome_browser_args: String::new(),
        firefox_driver_args: String::new(),
        firefox_browser_args: String::new(),
    }
}

#[test]
fn plan_uses_chrome_defaults() {
    let plan = connect_plan(config(Some("/opt/chromedriver"), None, None)).unwrap();
    assert!(matches!(plan.backend, Backend::Chrome));
    assert_eq!(plan.driver_path, "/opt/chromedriver");
    assert_eq!(plan.port, "9515");
    assert_eq!(plan.driver_args, Vec::<String>::new());
    assert_eq!(plan.browser_args, Vec::<String>::new());
}

#[test]
fn plan_uses_firefox_defaults() {
    let plan = connect_plan(config(None, Some("/opt/geckodriver"), None)).unwrap();
    assert!(matches!(plan.backend, Backend::Firefox));
    assert_eq!(plan.driver_path, "/opt/geckodriver");
    assert_eq!(plan.port, "4444");
}

#[test]
fn plan_prefers_chrome_when_both_are_set() {
    let plan = connect_plan(config(Some("/opt/chromedriver"), Some("/opt/geckodriver"), None))
        .unwrap();
    assert!(matches!(plan.backend, Backend::Chrome));
}

#[test]
fn plan_honours_the_port_override() {
    let plan = connect_plan(config(Some("/opt/chromedriver"), None, Some("4321"))).unwrap();
    assert_eq!(plan.port, "4321");
}

#[test]
fn plan_fails_without_a_backend() {
    let err = connect_plan(config(None, None, None)).unwrap_err();
    assert!(matches!(err, ConnectError::NoBackendConfigured));
    assert!(err.message().contains("TA_BROWSER_USE_CHROME"));
}

#[test]
fn plan_parses_the_argument_strings() {
    let mut cfg = config(Some("/opt/chromedriver"), None, None);
    cfg.chrome_driver_args = "--verbose \"--log-path=/tmp/a b.log\"".to_owned();
    cfg.chrome_browser_args = "--headless".to_owned();
    let plan = connect_plan(cfg).unwrap();
    assert_eq!(plan.driver_args, vec!["--verbose", "--log-path=/tmp/a b.log"]);
    assert_eq!(plan.browser_args, vec!["--headless"]);
}

#[test]
fn server_url_names_localhost() {
    assert_eq!(server_url("9515"), "http://localhost:9515");
    assert_eq!(server_url("4444"), "http://localhost:4444");
}

#[test]
fn landing_page_is_a_data_url() {
    assert!(landing_page_uri().starts_with("data:text/html;base64,"));
    assert_eq!(SETTLE_DELAY_MS, 500);
}

#[test]
fn reuse_run_never_asks_for_a_spawn() {
    let mut phase = ConnectPhase::Probing;
    let mut spawn_asked = false;
    for ev in [ConnectEvent::Opened, ConnectEvent::Landed] {
        spawn_asked = spawn_asked
            || matches!(connect_action(phase), ConnectAction::SpawnDriver);
        phase = connect_step(phase, ev);
    }
    spawn_asked = spawn_asked || matches!(connect_action(phase), ConnectAction::SpawnDriver);
    assert!(!spawn_asked);
    assert!(matches!(phase, ConnectPhase::Ready { spawned: false }));
}

#[test]
fn spawn_run_asks_for_exactly_one_spawn() {
    let mut phase = ConnectPhase::Probing;
    let mut spawns = 0;
    let run = [
        ConnectEvent::OpenFailed,
        ConnectEvent::Spawned,
        ConnectEvent::Opened,
        ConnectEvent::Landed,
    ];
    for ev in run {
        if matches!(connect_action(phase), ConnectAction::SpawnDriver) {
            spawns += 1;
        }
        phase = connect_step(phase, ev);
    }
    if matches!(connect_action(phase), ConnectAction::SpawnDriver) {
        spawns += 1;
    }
    assert_eq!(spawns, 1);
    assert!(matches!(phase, ConnectPhase::Ready { spawned: true }));
}

#[test]
fn spawn_failure_records_no_child() {
    let phase = connect_step(
        connect_step(ConnectPhase::Probing, ConnectEvent::OpenFailed),
        ConnectEvent::SpawnFailed,
    );
    assert!(matches!(phase, ConnectPhase::Failed { spawned: false }));
    assert!(matches!(connect_action(phase), ConnectAction::Abort));
}

#[test]
fn open_failure_after_spawn_still_owns_the_child() {
    let mut phase = ConnectPhase::Probing;
    for ev in [ConnectEvent::OpenFailed, ConnectEvent::Spawned, ConnectEvent::OpenFailed] {
        phase = connect_step(phase, ev);
    }
    assert!(matches!(phase, ConnectPhase::Failed { spawned: true }));
}

#[test]
fn child_survives_quit_until_teardown() {
    let mut st = ManagerState::default();
    assert!(!st.teardown_must_kill());
    st.record_child();
    st.adopt_session();
    assert!(st.quit().is_ok());
    assert!(!st.session_active);
    assert!(st.teardown_must_kill());
}

#[test]
fn quit_without_a_session_is_not_initialised() {
    let mut st = ManagerState::default();
    let err = st.quit().unwrap_err();
    assert!(matches!(err, EngineError::NotInitialised));
    assert_eq!(
        err.message(),
        "The browser robot hasn't been initialised before use."
    );
}

#[test]
fn default_poll_settings() {
    let s = PollSettings::default();
    assert_eq!(s.timeout_ms, 10000);
    assert_eq!(s.interval_ms, 100);
}

#[test]
fn poll_stops_at_a_match() {
    let s = PollSettings::default();
    assert!(matches!(poll_step(0, &s, true).0, PollVerdict::Found));
    assert!(matches!(poll_step(9999, &s, true).0, PollVerdict::Found));
}

#[test]
fn poll_retries_until_the_timeout() {
    let s = PollSettings::default();
    let (v, next) = poll_step(0, &s, false);
    assert!(matches!(v, PollVerdict::Retry));
    assert_eq!(next, 100);
    let (v, _) = poll_step(10000, &s, false);
    assert!(matches!(v, PollVerdict::TimedOut));
}

#[test]
fn lookup_that_never_matches_fails_at_the_timeout() {
    let s = PollSettings::default();
    let mut elapsed = 0;
    let mut polls = 0;
    loop {
        polls += 1;
        let (v, next) = poll_step(elapsed, &s, false);
        match v {
            PollVerdict::Retry => elapsed = next,
            PollVerdict::TimedOut => break,
            PollVerdict::Found => unreachable!(),
        }
    }
    assert_eq!(elapsed, 10000);
    assert_eq!(polls, 101);
}
