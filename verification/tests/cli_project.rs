use kindlebridge::cli::args::{
    AppArgs, AppCommand, Cli, DeviceArgs, DeviceCommand, RunArgs, ServerArgs, ServerCommand,
    ShellArgs, TopLevelCommand,
};
use kindlebridge::cli::development::{
    check_project_build, next_development_release, plan_project, resolve_project_path,
    BuildOutcome, Development, ProjectManifest, ProjectPath,
};
use kindlebridge::cli::error::{CliError, RunError};
use kindlebridge::cli::host_path::{join_host_path, HostPath};
use kindlebridge::cli::local_tree::{
    prepare_push_tree, LocalEntry, LocalFile, LocalKind, LocalTree, LocalTreeWalk,
};
use kindlebridge::cli::run::{
    append_device_arguments, check_private_server, not_running, private_server_arguments, route,
    start_failure, Route,
};
use kindlebridge::cli::watch::{
    begin_watch, is_watched_name, missing_watch_path, reload_build, reload_watch, BuildStatus,
    Watch, WatchAction, WatchConfig, WatchSnapshot, WatchedFile,
};
use kindlebridge::logical_path::{normalize_remote_path, LogicalSyncPath};

fn path(text: &str, is_absolute: bool) -> ProjectPath {
    ProjectPath {
        text: text.to_owned(),
        is_absolute,
    }
}

#[test]
fn project_paths_are_resolved_from_the_manifest_directory() {
    assert_eq!(
        resolve_project_path("project", &path("build/app", false), '/'),
        "project/build/app"
    );
    let absolute = "/tmp/kindlebridge-absolute-input";
    assert_eq!(
        resolve_project_path("project", &path(absolute, true), '/'),
        absolute
    );
}

#[test]
fn a_rooted_component_begins_anew() {
    for (base, component, expected) in [
        ("/dest", "a", "/dest/a"),
        ("/dest/", "a", "/dest/a"),
        ("", "a", "a"),
        ("/dest", "/etc/x", "/etc/x"),
        ("/dest", "a\\b", "/dest/a\\b"),
        ("/dest", "C:", "/dest/C:"),
    ] {
        assert_eq!(join_host_path(base, component, '/'), expected);
    }
    for (base, component, expected) in [
        ("C:\\dest", "a", "C:\\dest\\a"),
        ("C:\\dest/", "a", "C:\\dest/a"),
        ("C:\\dest", "\\x", "C:\\x"),
        ("C:\\dest", "/x", "C:/x"),
        ("C:\\dest", "D:\\x", "D:\\x"),
        ("C:\\dest", "d:x", "d:x"),
        ("C:", "x", "C:x"),
        ("\\\\host\\share\\d", "\\x", "\\\\host\\share\\x"),
        ("C:\\dest", "\\\\host\\share\\x", "\\\\host\\share\\x"),
    ] {
        assert_eq!(join_host_path(base, component, '\\'), expected);
    }
}

#[test]
fn development_release_is_monotonic_and_never_below_the_manifest() {
    let state = "/p/.kindlebridge/run-release";
    let first = next_development_release(state, Ok(None), Ok(5), 10_000).unwrap();
    let second =
        next_development_release(state, Ok(Some(first.state.clone())), Ok(5), 10_000).unwrap();
    assert!(first.release >= 10_000);
    assert!(second.release > first.release);
    assert_eq!(first.state, "10000\n");
    assert_eq!(second.release, 10_001);
    let later =
        next_development_release(state, Ok(Some("7".to_owned())), Ok(1_700_000_000_000), 1)
            .unwrap();
    assert_eq!(later.release, 1_700_000_000_000);
    let last = next_development_release(state, Ok(Some(u64::MAX.to_string())), Ok(1), 1).unwrap();
    assert_eq!(last.release, u64::MAX);
}

#[test]
fn each_failure_to_choose_a_release_is_told() {
    let refuse = |state, clock| match next_development_release("/p/run-release", state, clock, 1) {
        Err(CliError::Project(message)) => message,
        other => panic!("unexpected {other:?}"),
    };
    assert_eq!(
        refuse(Ok(Some("seven".to_owned())), Ok(1)),
        "development release state is invalid: /p/run-release"
    );
    assert_eq!(
        refuse(Err("denied".to_owned()), Ok(1)),
        "could not read development release state /p/run-release: denied"
    );
    assert_eq!(
        refuse(Ok(None), Err("early".to_owned())),
        "system clock is before Unix epoch: early"
    );
    assert_eq!(
        refuse(Ok(None), Ok(u128::from(u64::MAX) + 1)),
        "system time does not fit a KBB release"
    );
}

fn manifest() -> ProjectManifest {
    ProjectManifest {
        release: 3,
        development: Some(Development {
            build: vec!["make".to_owned(), "app".to_owned()],
            input: path("build/app", false),
            signing_key: path("/keys/dev", true),
        }),
    }
}

#[test]
fn a_project_is_planned_from_its_manifest() {
    let plan = plan_project(
        HostPath::Absolute("/p/kindlebridge.toml".to_owned()),
        Some("/p".to_owned()),
        Ok(manifest()),
        '/',
    )
    .unwrap();
    assert_eq!(plan.build, ["make", "app"]);
    assert_eq!(plan.input, "/p/build/app");
    assert_eq!(plan.signing_key, "/keys/dev");
    assert_eq!(plan.state_root, "/p/.kindlebridge");
    assert_eq!(plan.release_state, "/p/.kindlebridge/run-release");
    assert_eq!(plan.output, "/p/.kindlebridge/run.kbb");
    assert_eq!(plan.release, 3);

    let refuse = |manifest_path, root: Option<&str>, manifest| {
        plan_project(manifest_path, root.map(str::to_owned), manifest, '/')
            .unwrap_err()
            .to_text()
    };
    let here = || HostPath::Absolute("/p/kindlebridge.toml".to_owned());
    let could_not = "could not load the development project: ";
    assert_eq!(
        refuse(
            HostPath::Unresolved("gone".to_owned()),
            Some("/p"),
            Ok(manifest())
        ),
        "could not resolve the current host directory: gone"
    );
    assert_eq!(
        refuse(here(), None, Ok(manifest())),
        format!("{could_not}manifest has no parent directory: /p/kindlebridge.toml")
    );
    assert_eq!(
        refuse(here(), Some("/p"), Err("bad TOML".to_owned())),
        format!("{could_not}bad TOML")
    );
    assert_eq!(
        refuse(
            here(),
            Some("/p"),
            Ok(ProjectManifest {
                release: 1,
                development: None
            })
        ),
        format!("{could_not}/p/kindlebridge.toml is missing [development]")
    );
}

#[test]
fn a_failed_build_tells_what_it_printed() {
    check_project_build("make", BuildOutcome::Succeeded).unwrap();
    let refuse = |outcome| check_project_build("make", outcome).unwrap_err().to_text();
    assert_eq!(
        refuse(BuildOutcome::Failed {
            exit_code: Some(2),
            captured: Some((b" out\n".to_vec(), b"caf\xe9 \n".to_vec())),
        }),
        "build command failed with exit code 2: out\ncaf\u{fffd}"
    );
    assert_eq!(
        refuse(BuildOutcome::Failed {
            exit_code: None,
            captured: Some((b" \n".to_vec(), Vec::new())),
        }),
        "build command failed with exit code 1"
    );
    assert_eq!(
        refuse(BuildOutcome::NotStarted("not found".to_owned())),
        "could not load the development project: could not start build command make: not found"
    );
}

fn snapshot(files: &[(&str, u64)]) -> WatchSnapshot {
    let mut snapshot = WatchSnapshot::new();
    for (path, size) in files {
        snapshot.add_file(
            path.to_string(),
            WatchedFile {
                size: *size,
                modified: 1,
            },
        );
    }
    snapshot
}

#[test]
fn watch_snapshot_detects_file_changes_additions_and_removals() {
    let initial = snapshot(&[("first.txt", 1)]);
    assert!(!is_watched_name(".kindlebridge"));
    assert!(is_watched_name("first.txt"));
    assert!(initial.same(&snapshot(&[("first.txt", 1)])));

    let changed = snapshot(&[("first.txt", 6)]);
    assert!(!changed.same(&initial));

    let added = snapshot(&[("second.txt", 3), ("first.txt", 6)]);
    assert!(!added.same(&changed));
    assert!(!changed.same(&added));

    let removed = snapshot(&[("second.txt", 3)]);
    assert!(!removed.same(&added));
    assert!(!removed.same(&changed));
    assert_eq!(
        missing_watch_path("/p/src").to_text(),
        "watch path does not exist: /p/src"
    );
}

#[test]
fn watch_cancels_an_obsolete_build_and_runs_the_latest_source() {
    let old = || snapshot(&[("source.txt", 3)]);
    let newer = || snapshot(&[("source.txt", 12)]);
    let mut watch = Watch::new(old());
    assert!(matches!(watch.start(true, None), WatchAction::Poll));
    assert!(matches!(
        watch.poll("sh", BuildStatus::Running),
        WatchAction::Look(100)
    ));
    assert!(matches!(watch.look(old()), WatchAction::Poll));
    assert!(matches!(
        watch.poll("sh", BuildStatus::Running),
        WatchAction::Look(100)
    ));
    assert!(matches!(watch.look(newer()), WatchAction::Look(250)));
    assert!(matches!(watch.look(newer()), WatchAction::Restart));
    assert!(matches!(watch.start(true, None), WatchAction::Poll));
    assert!(matches!(
        watch.poll("sh", BuildStatus::Succeeded),
        WatchAction::Look(0)
    ));
    assert!(matches!(watch.look(newer()), WatchAction::Deploy));
    assert_eq!(watch.deployed(Ok(())).unwrap(), None);
    assert!(matches!(watch.look(newer()), WatchAction::Look(100)));
}

#[test]
fn a_change_is_acted_on_when_it_is_over() {
    let mut watch = Watch::new(snapshot(&[]));
    assert!(matches!(watch.start(false, None), WatchAction::Deploy));
    watch.deployed(Ok(())).unwrap();
    assert!(matches!(
        watch.look(snapshot(&[("a", 1)])),
        WatchAction::Look(250)
    ));
    assert!(matches!(
        watch.look(snapshot(&[("a", 2)])),
        WatchAction::Look(250)
    ));
    assert!(matches!(
        watch.look(snapshot(&[("a", 2)])),
        WatchAction::Rebuild
    ));
    assert!(matches!(
        watch.start(true, Some(snapshot(&[("b", 1)]))),
        WatchAction::Poll
    ));
    match watch.poll("make", BuildStatus::Failed(None)) {
        WatchAction::Report(notice) => assert_eq!(
            notice,
            "build failed; waiting for another change: build command failed with exit code 1"
        ),
        other => panic!("unexpected {other:?}"),
    }
    assert!(matches!(
        watch.look(snapshot(&[("b", 1)])),
        WatchAction::Look(100)
    ));
    assert_eq!(
        watch
            .deployed(Err(CliError::InvalidBlockSize))
            .unwrap()
            .unwrap()
            .split(": ")
            .next()
            .unwrap(),
        "redeploy failed; use `kindlebridge app list` to inspect current state"
    );
}

#[test]
fn the_first_build_and_the_first_deployment_must_succeed() {
    let mut watch = Watch::new(snapshot(&[]));
    watch.start(true, None);
    match watch.poll("make", BuildStatus::NotStarted("not found".to_owned())) {
        WatchAction::Stop(error) => assert_eq!(
            error.to_text(),
            "could not load the development project: could not start build command make: not found"
        ),
        other => panic!("unexpected {other:?}"),
    }
    let mut watch = Watch::new(snapshot(&[]));
    watch.start(true, None);
    match watch.poll("make", BuildStatus::Unknown("lost".to_owned())) {
        WatchAction::Stop(error) => {
            assert_eq!(error.to_text(), "could not wait for build: lost")
        }
        other => panic!("unexpected {other:?}"),
    }
    let mut watch = Watch::new(snapshot(&[]));
    watch.start(false, None);
    assert!(matches!(
        watch.deployed(Err(CliError::InvalidBlockSize)),
        Err(RunError::Command(CliError::InvalidBlockSize))
    ));
}

#[test]
fn files_that_cannot_be_looked_at_fail_the_build_or_end_the_run() {
    let gone = || RunError::Message("gone".to_owned());
    let mut watch = Watch::new(snapshot(&[]));
    watch.start(true, None);
    assert!(matches!(
        watch.look_failed(gone()),
        WatchAction::Stop(RunError::Message(message)) if message == "gone"
    ));

    let mut watch = Watch::new(snapshot(&[]));
    watch.start(false, None);
    watch.deployed(Ok(())).unwrap();
    watch.look(snapshot(&[("a", 1)]));
    watch.look(snapshot(&[("a", 1)]));
    watch.start(true, None);
    watch.poll("make", BuildStatus::Running);
    assert!(matches!(
        watch.look_failed(gone()),
        WatchAction::Report(notice)
            if notice == "build failed; waiting for another change: gone"
    ));
    assert!(matches!(watch.look(snapshot(&[])), WatchAction::Look(100)));
    assert!(matches!(
        watch.look_failed(gone()),
        WatchAction::Stop(RunError::Message(message)) if message == "gone"
    ));
}

fn watch_config(paths: &[&str]) -> WatchConfig {
    WatchConfig {
        build: vec!["make".to_owned()],
        watch: paths.iter().map(|text| path(text, false)).collect(),
    }
}

#[test]
fn a_watched_project_must_say_what_to_watch() {
    let begin = |json, manifest_path, root: Option<&str>, manifest| {
        begin_watch(json, manifest_path, root.map(str::to_owned), manifest, '/')
    };
    let here = || HostPath::Absolute("/p/k.toml".to_owned());
    let plan = begin(false, here(), Some("/p"), Ok(Some(watch_config(&["src", "res"])))).unwrap();
    assert_eq!(plan.build, ["make"]);
    assert_eq!(plan.paths, ["/p/src", "/p/res"]);
    let refuse = |json, manifest_path, root, manifest| {
        begin(json, manifest_path, root, manifest)
            .unwrap_err()
            .to_text()
    };
    assert_eq!(
        refuse(true, here(), Some("/p"), Ok(None)),
        "run --watch does not support --json yet"
    );
    assert_eq!(
        refuse(
            false,
            HostPath::Unresolved("gone".to_owned()),
            Some("/p"),
            Ok(None)
        ),
        "gone"
    );
    assert_eq!(
        refuse(false, here(), None, Ok(None)),
        "manifest has no parent directory: /p/k.toml"
    );
    assert_eq!(
        refuse(false, here(), Some("/p"), Err("bad TOML".to_owned())),
        "could not load project: bad TOML"
    );
    assert_eq!(
        refuse(false, here(), Some("/p"), Ok(None)),
        "/p/k.toml is missing [development]"
    );
    assert_eq!(
        refuse(false, here(), Some("/p"), Ok(Some(watch_config(&[])))),
        "[development].watch must list source paths for run --watch"
    );
    assert_eq!(
        reload_watch("/p/k.toml", "/p", Err("bad TOML".to_owned()), '/')
            .unwrap_err()
            .to_text(),
        "could not reload project: bad TOML"
    );
    assert_eq!(
        reload_build("/p/k.toml", Ok(Some(watch_config(&[])))).unwrap(),
        ["make"]
    );
    assert_eq!(
        reload_build("/p/k.toml", Err("bad TOML".to_owned()))
            .unwrap_err()
            .to_text(),
        "could not reload project: bad TOML"
    );
}

fn cli(command: TopLevelCommand) -> Cli {
    Cli {
        json: false,
        server: "kindlebridge-server".to_owned(),
        server_stdio: false,
        devices_file: None,
        tcp_device: Vec::new(),
        no_usb: false,
        usb_serial: None,
        command,
    }
}

fn list() -> TopLevelCommand {
    TopLevelCommand::Device(DeviceArgs {
        command: DeviceCommand::List,
    })
}

fn run(watch: bool) -> TopLevelCommand {
    TopLevelCommand::Run(RunArgs {
        serial: "KT6-TEST".to_owned(),
        manifest: "kindlebridge.toml".to_owned(),
        watch,
    })
}

fn shell() -> TopLevelCommand {
    TopLevelCommand::Shell(ShellArgs {
        serial: "KT6-TEST".to_owned(),
        command: None,
        tty: 0,
        no_tty: false,
        no_stdin: false,
        escape: "~".to_owned(),
        ndjson: false,
    })
}

fn app_log(follow: bool) -> TopLevelCommand {
    TopLevelCommand::App(AppArgs {
        command: AppCommand::Log {
            serial: "KT6-TEST".to_owned(),
            app_id: "a".to_owned(),
            follow,
            max_bytes: 1,
        },
    })
}

#[test]
fn every_command_line_has_its_route() {
    let server = |command| TopLevelCommand::Server(ServerArgs { command });
    assert_eq!(route(&cli(list())).unwrap(), Route::SharedServer);
    assert_eq!(
        route(&cli(server(ServerCommand::Stop))).unwrap(),
        Route::RunningServer { stops: true }
    );
    assert_eq!(
        route(&cli(server(ServerCommand::Status))).unwrap(),
        Route::RunningServer { stops: false }
    );
    assert_eq!(
        route(&cli(server(ServerCommand::Ping))).unwrap(),
        Route::SharedServer
    );
    assert_eq!(route(&cli(shell())).unwrap(), Route::Shell);
    assert_eq!(route(&cli(run(true))).unwrap(), Route::Watch);
    assert_eq!(route(&cli(run(false))).unwrap(), Route::SharedServer);
    assert_eq!(
        route(&cli(app_log(true))).unwrap(),
        Route::AppLog { follow: true }
    );
    let json = |command| Cli {
        json: true,
        ..cli(command)
    };
    assert_eq!(route(&json(app_log(false))).unwrap(), Route::SharedServer);
    assert_eq!(
        route(&json(app_log(true))).unwrap_err().to_text(),
        "app log --follow streams raw bytes and does not support --json"
    );
    let private = |command| Cli {
        server_stdio: true,
        ..cli(command)
    };
    assert_eq!(route(&private(list())).unwrap(), Route::PrivateServer);
    assert_eq!(
        route(&private(shell())).unwrap_err().to_text(),
        "--server-stdio does not support streaming shell; use the shared local server"
    );
    assert_eq!(
        route(&private(run(true))).unwrap_err().to_text(),
        "--server-stdio does not support run --watch; use the shared local server"
    );
    assert_eq!(not_running().output, "not running");
}

#[test]
fn the_server_is_told_where_the_devices_are() {
    assert_eq!(append_device_arguments(&cli(list())).unwrap(), ["--usb"]);
    let chosen = Cli {
        usb_serial: Some("G0".to_owned()),
        ..cli(list())
    };
    assert_eq!(
        private_server_arguments(&chosen).unwrap(),
        ["--usb", "--usb-serial", "G0", "--stdio"]
    );
    let network = Cli {
        tcp_device: vec!["127.0.0.1:4765".to_owned(), "192.168.15.244:4765".to_owned()],
        ..cli(list())
    };
    assert_eq!(
        append_device_arguments(&network).unwrap(),
        [
            "--tcp-device",
            "127.0.0.1:4765",
            "--tcp-device",
            "192.168.15.244:4765"
        ]
    );
    let inventory = Cli {
        devices_file: Some("devices.json".to_owned()),
        ..cli(list())
    };
    assert_eq!(
        append_device_arguments(&inventory).unwrap(),
        ["--devices-file", "devices.json"]
    );
    let odd = Cli {
        no_usb: true,
        usb_serial: Some("G0".to_owned()),
        ..cli(list())
    };
    assert_eq!(
        append_device_arguments(&odd).unwrap_err().to_text(),
        "--usb-serial requires automatic USB mode (remove --no-usb/--tcp-device)"
    );
}

#[test]
fn a_failed_private_server_fails_the_command() {
    check_private_server(true, "exit status: 0", "noise").unwrap();
    assert_eq!(
        check_private_server(false, "exit status: 1", " bad file \n")
            .unwrap_err()
            .to_text(),
        "server exited with exit status: 1: bad file"
    );
    assert_eq!(
        check_private_server(false, "exit status: 1", "\n")
            .unwrap_err()
            .to_text(),
        "server exited with exit status: 1"
    );
    assert_eq!(
        start_failure("server", "not found").to_text(),
        "could not start server: not found"
    );
}

#[test]
fn remote_path_accepts_logical_and_sync_root_forms_only() {
    assert_eq!(
        normalize_remote_path("apps\\reader.kbb").unwrap().as_str(),
        "apps/reader.kbb",
    );
    assert_eq!(
        normalize_remote_path("/mnt/us/kindlebridge-data/apps/reader.kbb")
            .unwrap()
            .as_str(),
        "apps/reader.kbb",
    );
    assert!(matches!(
        normalize_remote_path("/mnt/us/other/reader.kbb"),
        Err(CliError::InvalidRemotePath { path, reason })
            if path == "/mnt/us/other/reader.kbb"
                && reason == "absolute paths must be below /mnt/us/kindlebridge-data"
    ));
    assert!(matches!(
        normalize_remote_path("apps/../reader.kbb"),
        Err(CliError::InvalidRemotePath { path, reason })
            if path == "apps/../reader.kbb"
                && reason == "path contains an empty, dot, or dot-dot component"
    ));
}

#[test]
fn push_tree_rejects_ascii_case_collisions_during_preflight() {
    let root = LogicalSyncPath::parse("tree".to_owned()).unwrap();
    let error = prepare_push_tree(
        &root,
        LocalTree {
            directories: vec!["Assets".to_owned(), "assets".to_owned()],
            files: Vec::new(),
        },
    )
    .err()
    .unwrap();

    assert!(matches!(
        error,
        CliError::RemotePathCollision { first, second }
            if first == "tree/Assets" && second == "tree/assets"
    ));
}

#[test]
fn push_tree_validates_every_derived_path_during_preflight() {
    let root = LogicalSyncPath::parse("tree".to_owned()).unwrap();
    let relative = [
        "a".repeat(255),
        "b".repeat(255),
        "c".repeat(255),
        "d".repeat(255),
    ]
    .join("/");
    let error = prepare_push_tree(
        &root,
        LocalTree {
            directories: Vec::new(),
            files: vec![LocalFile {
                relative: relative.clone(),
                path: "source".to_owned(),
            }],
        },
    )
    .err()
    .unwrap();

    assert!(matches!(
        error,
        CliError::InvalidRemotePath { path, reason }
            if path == format!("tree/{relative}")
                && reason == "path exceeds 1024 UTF-8 bytes"
    ));
}

#[test]
fn a_local_tree_refuses_what_cannot_be_synced() {
    let refuse = |name: Option<&str>, kind| {
        LocalTreeWalk::new()
            .add(
                "",
                LocalEntry {
                    name: name.map(str::to_owned),
                    kind,
                    path: "/x/y".to_owned(),
                },
            )
            .unwrap_err()
            .to_text()
    };
    let could_not = "could not sync local directory: ";
    assert_eq!(
        refuse(None, LocalKind::File),
        format!("{could_not}path is not valid Unicode")
    );
    assert_eq!(
        refuse(Some("y"), LocalKind::Symlink),
        format!("{could_not}symbolic links are not supported: /x/y")
    );
    assert_eq!(
        refuse(Some("y"), LocalKind::Special),
        format!("{could_not}special files are not supported: /x/y")
    );
    assert_eq!(
        refuse(Some("y"), LocalKind::Unreadable("denied".to_owned())),
        format!("{could_not}denied")
    );
}
