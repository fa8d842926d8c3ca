use kindlebridge::host_rpc::{ServerVersion, API_VERSION};
use kindlebridge::lifecycle::{
    classify_server, foreign_server_error, shutdown_timeout, wait_for_shutdown, Acquire,
    AcquireAction, Probe, ServerCompatibility, ServerContract, StableWait, WaitStep,
    SERVER_ENDPOINT_QUIET_PERIOD, SERVER_POLL_INTERVAL, SERVER_START_TIMEOUT, SERVER_STOP_TIMEOUT,
};

const BUILD: &str = "0.1.0-dev.41";

fn server_version(name: &str, version: &str, api_version: &str) -> ServerVersion {
    ServerVersion {
        name: name.to_owned(),
        version: version.to_owned(),
        api_version: api_version.to_owned(),
    }
}

/// Waits on a clock of its own, which only the sleeps move.
fn wait_until_stable(timeout: u64, stable_for: u64, mut condition: impl FnMut() -> bool) -> bool {
    let mut now = 1_000;
    let mut wait = StableWait::new(timeout, stable_for, now);
    loop {
        match wait.observe(condition(), now) {
            WaitStep::Stable => return true,
            WaitStep::TimedOut => return false,
            WaitStep::Sleep(time) => now += time,
        }
    }
}

#[test]
fn compatibility_requires_exact_name_build_and_api() {
    let contract = ServerContract::current(BUILD);
    assert_eq!(contract.name, "kindlebridge-server");
    assert_eq!(contract.api_version, API_VERSION);
    assert_eq!(
        classify_server(
            &server_version(contract.name, contract.version, contract.api_version),
            contract
        ),
        ServerCompatibility::Compatible
    );
    assert_eq!(
        classify_server(
            &server_version(contract.name, "0.1.0-dev.40", contract.api_version),
            contract
        ),
        ServerCompatibility::Replace
    );
    assert_eq!(
        classify_server(
            &server_version(contract.name, contract.version, "v0"),
            contract
        ),
        ServerCompatibility::Replace
    );
    assert_eq!(
        classify_server(
            &server_version("unrelated-server", contract.version, contract.api_version),
            contract
        ),
        ServerCompatibility::Foreign
    );
}

#[test]
fn shutdown_wait_resets_when_the_endpoint_reappears() {
    let mut attempts = 0;
    assert!(wait_until_stable(1_000_000_000, 0, || {
        attempts += 1;
        attempts >= 3
    }));
    assert_eq!(attempts, 3);
}

#[test]
fn lifecycle_shutdown_wait_is_bounded() {
    assert!(!wait_until_stable(0, 0, || false));
}

#[test]
fn shutdown_wait_does_not_return_while_the_old_endpoint_accepts_connections() {
    let mut attempts = 0;
    assert!(wait_until_stable(1_000_000_000, 0, || {
        attempts += 1;
        attempts >= 3
    }));
    assert_eq!(attempts, 3);
}

#[test]
fn main_shutdown_wait_is_bounded() {
    assert!(!wait_until_stable(0, 0, || false));
}

#[test]
fn foreign_owner_error_names_both_sides() {
    let contract = ServerContract::current(BUILD);
    let error = foreign_server_error(&server_version("other", "9", "v9"), contract);
    assert_eq!(
        error.to_text(),
        "local endpoint belongs to other 9 (API v9), not kindlebridge-server; stop it manually"
    );
}

#[test]
fn a_break_begins_the_quiet_period_anew() {
    let quiet = SERVER_ENDPOINT_QUIET_PERIOD;
    let mut wait = wait_for_shutdown(0);
    assert_eq!(wait.observe(true, 0), WaitStep::Sleep(SERVER_POLL_INTERVAL));
    assert_eq!(wait.observe(false, quiet - 1), WaitStep::Sleep(SERVER_POLL_INTERVAL));
    assert_eq!(wait.observe(true, quiet), WaitStep::Sleep(SERVER_POLL_INTERVAL));
    assert_eq!(
        wait.observe(true, 2 * quiet - 1),
        WaitStep::Sleep(SERVER_POLL_INTERVAL)
    );
    assert_eq!(wait.observe(true, 2 * quiet), WaitStep::Stable);
    assert_eq!(wait.observe(false, SERVER_STOP_TIMEOUT), WaitStep::TimedOut);
    assert_eq!(
        wait.observe(false, SERVER_STOP_TIMEOUT - 1),
        WaitStep::Sleep(1)
    );
    assert_eq!(
        shutdown_timeout().to_text(),
        "shared local server did not stop within 5 seconds"
    );
}

fn acquire() -> Acquire<'static> {
    Acquire::new(ServerContract::current(BUILD), "kindlebridge-server".to_owned())
}

fn current() -> Probe {
    Probe::Version(server_version("kindlebridge-server", BUILD, API_VERSION))
}

fn outdated() -> Probe {
    Probe::Version(server_version("kindlebridge-server", "0.0.9", API_VERSION))
}

fn failure(action: AcquireAction) -> (String, bool) {
    match action {
        AcquireAction::Fail { error, kill } => (error.to_text(), kill),
        other => panic!("unexpected {other:?}"),
    }
}

#[test]
fn a_suitable_server_is_joined() {
    let mut acquire = acquire();
    assert!(matches!(acquire.probed(current(), 0), AcquireAction::Connect));
    assert!(matches!(acquire.connected(true, 0), AcquireAction::Done));
}

#[test]
fn an_outdated_server_is_announced_stopped_and_replaced() {
    let mut acquire = acquire();
    match acquire.probed(outdated(), 0) {
        AcquireAction::Announce(version) => assert_eq!(version.version, "0.0.9"),
        other => panic!("unexpected {other:?}"),
    }
    assert!(matches!(acquire.probed(outdated(), 0), AcquireAction::Stop));
    assert!(matches!(acquire.stopped(true, 10), AcquireAction::Probe(0)));
    assert!(matches!(
        acquire.probed(Probe::NoEndpoint, 20),
        AcquireAction::Probe(SERVER_POLL_INTERVAL)
    ));
    assert!(matches!(
        acquire.probed(Probe::NoEndpoint, 20 + SERVER_ENDPOINT_QUIET_PERIOD),
        AcquireAction::Launch
    ));
    assert!(matches!(acquire.launched(None, 0), AcquireAction::Probe(0)));
    assert!(matches!(acquire.probed(Probe::NoEndpoint, 1), AcquireAction::Inspect));
    assert!(matches!(
        acquire.inspected(Ok(None), 2),
        AcquireAction::Probe(SERVER_POLL_INTERVAL)
    ));
    assert!(matches!(acquire.probed(current(), 3), AcquireAction::Connect));
    assert!(matches!(acquire.connected(true, 3), AcquireAction::Done));
}

#[test]
fn a_foreign_server_is_never_stopped() {
    let foreign = || Probe::Version(server_version("other", "9", "v9"));
    let (message, kill) = failure(acquire().probed(foreign(), 0));
    assert_eq!(
        message,
        "local endpoint belongs to other 9 (API v9), not kindlebridge-server; stop it manually"
    );
    assert!(!kill);

    let mut starting = acquire();
    starting.probed(Probe::NoEndpoint, 0);
    starting.launched(None, 0);
    assert!(failure(starting.probed(foreign(), 1)).1);
}

#[test]
fn a_silent_owner_must_vanish_before_a_server_is_started() {
    let mut acquire = acquire();
    assert!(matches!(
        acquire.probed(Probe::CallFailed, 0),
        AcquireAction::Look(0)
    ));
    assert!(matches!(acquire.looked(true, 5), AcquireAction::Look(_)));
    assert!(matches!(acquire.looked(false, 10), AcquireAction::Look(_)));
    assert!(matches!(
        acquire.looked(false, 10 + SERVER_ENDPOINT_QUIET_PERIOD),
        AcquireAction::Launch
    ));
}

#[test]
fn each_failure_of_a_start_is_told() {
    let mut unstartable = acquire();
    unstartable.probed(Probe::NoEndpoint, 0);
    assert_eq!(
        failure(unstartable.launched(Some("no such file".to_owned()), 0)).0,
        "could not start kindlebridge-server: no such file"
    );

    let mut exited = acquire();
    exited.probed(Probe::NoEndpoint, 0);
    exited.launched(None, 0);
    exited.probed(Probe::NoEndpoint, 1);
    assert!(matches!(
        exited.inspected(Ok(Some("exit status: 1".to_owned())), 2),
        AcquireAction::Probe(_)
    ));
    assert_eq!(
        failure(exited.probed(Probe::NoEndpoint, 1_000_000_000)).0,
        "server exited during startup with exit status: 1"
    );

    let mut unsuitable = acquire();
    unsuitable.probed(Probe::NoEndpoint, 0);
    unsuitable.launched(None, 0);
    unsuitable.probed(outdated(), 1);
    let (message, kill) = failure(unsuitable.inspected(Ok(None), SERVER_START_TIMEOUT));
    assert_eq!(
        message,
        "kindlebridge-server launched kindlebridge-server 0.0.9 (API v1), but this CLI requires 0.1.0-dev.41 (API v1)"
    );
    assert!(kill);

    let mut silent = acquire();
    silent.probed(Probe::NoEndpoint, 0);
    silent.launched(None, 0);
    silent.probed(Probe::NoEndpoint, 1);
    assert_eq!(
        failure(silent.inspected(Ok(None), SERVER_START_TIMEOUT)).0,
        "shared local server startup timed out"
    );

    let mut unknown = acquire();
    unknown.probed(Probe::NoEndpoint, 0);
    unknown.launched(None, 0);
    unknown.probed(Probe::NoEndpoint, 1);
    assert_eq!(
        failure(unknown.inspected(Err("gone".to_owned()), 2)).0,
        "could not inspect server: gone"
    );
}

#[test]
fn a_server_that_does_not_stop_or_tell_its_version_is_reported() {
    let mut stuck = acquire();
    stuck.probed(outdated(), 0);
    stuck.probed(outdated(), 0);
    stuck.stopped(false, 0);
    assert!(matches!(stuck.probed(outdated(), 0), AcquireAction::Probe(0)));
    assert_eq!(
        failure(stuck.probed(outdated(), SERVER_STOP_TIMEOUT)).0,
        "old local server did not stop within 5 seconds"
    );

    let mut odd = acquire();
    odd.probed(outdated(), 0);
    assert_eq!(
        failure(odd.probed(Probe::Invalid, 0)).0,
        "the existing local server returned invalid version information"
    );
}
