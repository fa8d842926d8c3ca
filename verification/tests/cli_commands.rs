use std::cell::RefCell;
use std::collections::VecDeque;
use std::rc::Rc;

use base64::engine::general_purpose::STANDARD as BASE64;
use base64::Engine;
use kindlebridge::cli::app::decode_log;
use kindlebridge::cli::app_log::AppLog;
use kindlebridge::cli::args::{
    AppArgs, AppCommand, DaemonArgs, DaemonCommand, DeviceArgs, DeviceCommand, ExecArgs, LogArgs,
    LogCommand, ProcessArgs, ProcessCommand, RunArgs, ServerArgs, ServerCommand, ShellArgs,
    SyncArgs, SyncCommand, TopLevelCommand,
};
use kindlebridge::cli::command::{execute, execute_with_status, Executed, HostFacts};
use kindlebridge::cli::daemon::{parse_staged_update, UpdateBinary};
use kindlebridge::cli::development::{BuildOutcome, BuiltBundle, ProjectPlan};
use kindlebridge::cli::directory_pull::{DirectoryPull, PullStep};
use kindlebridge::cli::error::{
    command_error_code, json_error, CliError, ErrorReport, ReportCode, RunError,
};
use kindlebridge::cli::host_path::{normalize_host_path, HostPath};
use kindlebridge::cli::local_tree::{LocalEntry, LocalKind, LocalTreeWalk};
use kindlebridge::cli::rpc::{CallResult, Client, ClientError, RpcCall, RpcReply, ServerError};
use kindlebridge::cli::sync::{
    begin_pull_tree, finish_pull_tree, Destination, LocalSource, PullPlan, Transferred,
};
use kindlebridge::methods::Method;
use kindlebridge::model::{
    AppLogChunk, AppLogSnapshot, AppState, AppSummary, DeviceFeatures, DeviceState, DeviceSummary,
    ExecResult, LogEntry, LogSnapshot, ProcessState, ProcessSummary, SyncEntry, SyncEntryKind,
    SyncListResult, SyncMkdirResult, SyncPullResult, SyncPushResult, SyncStatus,
    TransferDirection, TransferState,
};

type Send = Box<dyn Fn(RpcCall) -> Result<RpcReply, ClientError>>;

/// A client with replies made in advance, which keeps the requests.
struct RecordingCaller {
    client: Client<Send>,
    calls: Rc<RefCell<Vec<RpcCall>>>,
    replies: Rc<RefCell<VecDeque<Result<RpcReply, ClientError>>>>,
}

fn caller(results: Vec<CallResult>) -> RecordingCaller {
    let calls = Rc::new(RefCell::new(Vec::new()));
    let replies: VecDeque<Result<RpcReply, ClientError>> = results
        .into_iter()
        .map(|result| {
            Ok(RpcReply {
                pretty: "{pretty}".to_owned(),
                result,
            })
        })
        .collect();
    let replies = Rc::new(RefCell::new(replies));
    let (record, script) = (Rc::clone(&calls), Rc::clone(&replies));
    let send: Send = Box::new(move |call| {
        record.borrow_mut().push(call);
        script
            .borrow_mut()
            .pop_front()
            .expect("a reply for every call")
    });
    RecordingCaller {
        client: Client::new(send),
        calls,
        replies,
    }
}

fn methods(caller: &RecordingCaller) -> Vec<Method> {
    caller.calls.borrow().iter().map(|call| call.method()).collect()
}

fn text(executed: Executed) -> String {
    match executed {
        Executed::Text(text) => text,
        _ => panic!("expected text"),
    }
}

fn shown(command: TopLevelCommand, result: CallResult, json: bool) -> Result<String, CliError> {
    execute(&mut caller(vec![result]).client, &command, HostFacts::Nothing, json).map(text)
}

fn device(command: DeviceCommand) -> TopLevelCommand {
    TopLevelCommand::Device(DeviceArgs { command })
}

fn server(command: ServerCommand) -> TopLevelCommand {
    TopLevelCommand::Server(ServerArgs { command })
}

fn absolute(path: &str) -> HostPath {
    HostPath::Absolute(path.to_owned())
}

#[test]
fn features_command_uses_the_public_v1_method() {
    let mut caller = caller(vec![CallResult::Features(DeviceFeatures {
        serial: "KT6-TEST".to_owned(),
        protocol_version: 1,
        features: vec!["exec.v1".to_owned(), "sync.v1".to_owned()],
    })]);
    let output = execute(
        &mut caller.client,
        &device(DeviceCommand::Features {
            serial: "KT6-TEST".to_owned(),
        }),
        HostFacts::Nothing,
        false,
    )
    .map(text)
    .unwrap();
    assert_eq!(output, "KT6-TEST (protocol 1)\nexec.v1\nsync.v1");
    assert_eq!(caller.calls.borrow()[0].method(), Method::DeviceFeatures);
    assert_eq!(caller.calls.borrow()[0].method().name(), "v1.device.features");
    assert!(
        matches!(&caller.calls.borrow()[0], RpcCall::DeviceFeatures(params) if params.serial == "KT6-TEST")
    );
}

#[test]
fn device_ping_uses_the_device_control_method() {
    let mut caller = caller(vec![CallResult::Ping(true)]);
    let output = execute(
        &mut caller.client,
        &device(DeviceCommand::Ping {
            serial: "KT6-TEST".to_owned(),
        }),
        HostFacts::Nothing,
        false,
    )
    .map(text)
    .unwrap();
    assert_eq!(output, "pong");
    assert!(
        matches!(&caller.calls.borrow()[0], RpcCall::DevicePing(params) if params.serial == "KT6-TEST")
    );
}

fn devices() -> Vec<DeviceSummary> {
    vec![DeviceSummary {
        serial: "KT6-TEST".to_owned(),
        model: "KT6".to_owned(),
        state: DeviceState::Online,
        transport: "usb".to_owned(),
    }]
}

#[test]
fn device_list_json_is_stable_and_typed() {
    assert_eq!(
        shown(
            device(DeviceCommand::List),
            CallResult::Devices(devices()),
            true
        )
        .unwrap(),
        "{pretty}"
    );
    assert_eq!(
        shown(
            device(DeviceCommand::List),
            CallResult::Devices(devices()),
            false
        )
        .unwrap(),
        "SERIAL\tMODEL\tSTATE\tTRANSPORT\nKT6-TEST\tKT6\tonline\tusb"
    );
    assert!(matches!(
        shown(device(DeviceCommand::List), CallResult::Unreadable, true),
        Err(CliError::InvalidResult { kind }) if kind == "device list"
    ));
}

fn exec_command(timeout_ms: u64) -> TopLevelCommand {
    TopLevelCommand::Exec(ExecArgs {
        serial: "KT6-TEST".to_owned(),
        timeout_ms,
        argv: vec!["echo".to_owned(), "hello kindle".to_owned()],
    })
}

fn exec_result(exit_code: i32, stdout: &str) -> CallResult {
    CallResult::Exec(ExecResult {
        exit_code,
        stdout: stdout.to_owned(),
        stderr: String::new(),
        duration_ms: 1,
    })
}

#[test]
fn exec_uses_public_rpc_and_preserves_argv() {
    let mut caller = caller(vec![exec_result(0, "hello kindle\n")]);
    let output = execute(&mut caller.client, &exec_command(1000), HostFacts::Nothing, false)
        .map(text)
        .unwrap();
    assert_eq!(output, "hello kindle");
    assert_eq!(caller.calls.borrow()[0].method(), Method::ExecRun);
    assert!(matches!(
        &caller.calls.borrow()[0],
        RpcCall::ExecRun(params) if params.argv[1] == "hello kindle" && params.timeout_ms == 1000
    ));
}

#[test]
fn the_exit_code_of_a_process_becomes_that_of_the_tool() {
    let mut caller = caller(vec![exec_result(3, "")]);
    let (output, exit_code) =
        execute_with_status(&mut caller.client, &exec_command(5), HostFacts::Nothing, false).unwrap();
    assert_eq!(text(output), "[exit 3]");
    assert_eq!(exit_code, 3);
    assert!(matches!(&caller.calls.borrow()[0], RpcCall::ExecRun(params) if params.timeout_ms == 5));
}

#[test]
fn shell_command_cannot_fall_back_to_captured_exec() {
    let mut caller = caller(Vec::new());
    let error = execute(
        &mut caller.client,
        &TopLevelCommand::Shell(ShellArgs {
            serial: "KT6-TEST".to_owned(),
            command: Some("printf shell-ok".to_owned()),
            tty: 0,
            no_tty: true,
            no_stdin: true,
            escape: "none".to_owned(),
            ndjson: false,
        }),
        HostFacts::Nothing,
        false,
    )
    .err()
    .unwrap();
    assert!(matches!(error, CliError::StreamingShellRequired));
    assert!(caller.calls.borrow().is_empty());
}

fn entry(walk: &mut LocalTreeWalk, relative: &str, name: &str, kind: LocalKind) {
    walk.add(
        relative,
        LocalEntry {
            name: Some(name.to_owned()),
            kind,
            path: format!("/root/{relative}/{name}"),
        },
    )
    .unwrap();
}

fn push_command(remote_path: &str, resume: Option<String>, block_size: usize) -> TopLevelCommand {
    TopLevelCommand::Sync(SyncArgs {
        command: SyncCommand::Push {
            serial: "KT6-TEST".to_owned(),
            local_path: "payload.bin".to_owned(),
            remote_path: remote_path.to_owned(),
            block_size,
            resume,
        },
    })
}

fn pushed(transfer_id: &str, accepted_offset: u64) -> CallResult {
    CallResult::SyncPush(SyncPushResult {
        transfer_id: transfer_id.to_owned(),
        accepted_offset,
        state: TransferState::Complete,
    })
}

fn made(remote_path: &str) -> CallResult {
    CallResult::SyncMkdir(SyncMkdirResult {
        remote_path: remote_path.to_owned(),
        created: true,
    })
}

#[test]
fn directory_push_creates_empty_directories_and_pushes_files_in_stable_order() {
    let mut walk = LocalTreeWalk::new();
    entry(&mut walk, "", "nested", LocalKind::Directory);
    entry(&mut walk, "nested", "b.txt", LocalKind::File);
    entry(&mut walk, "", "empty", LocalKind::Directory);
    entry(&mut walk, "", "a.txt", LocalKind::File);
    let mut caller = caller(vec![
        made("tree"),
        made("tree/empty"),
        made("tree/nested"),
        pushed("push-a", 1),
        pushed("push-b", 2),
    ]);
    let output = execute(
        &mut caller.client,
        &push_command("tree", None, 65_536),
        HostFacts::Source {
            local: absolute("/root"),
            source: LocalSource::Directory(Ok(walk.finish())),
        },
        true,
    )
    .unwrap();
    let report = match output {
        Executed::Transferred(Transferred::Tree(report)) => report,
        _ => panic!("expected a tree"),
    };
    assert_eq!(report.files, 2);
    assert_eq!(report.directories, 3);
    assert_eq!(report.totals.created_directories, 3);
    assert_eq!(report.totals.bytes, 3);
    assert_eq!(report.totals.transfer_ids, ["push-a", "push-b"]);
    assert_eq!(
        methods(&caller),
        [
            Method::SyncMkdir,
            Method::SyncMkdir,
            Method::SyncMkdir,
            Method::SyncPush,
            Method::SyncPush,
        ]
    );
    assert!(
        matches!(&caller.calls.borrow()[3], RpcCall::SyncPush(params) if params.remote_path == "tree/a.txt")
    );
    assert!(
        matches!(&caller.calls.borrow()[4], RpcCall::SyncPush(params) if params.remote_path == "tree/nested/b.txt")
    );
}

#[test]
fn a_push_is_refused_before_anything_is_sent() {
    let refuse = |remote: &str, resume: Option<&str>, block_size, local, source| {
        let mut caller = caller(Vec::new());
        let error = execute(
            &mut caller.client,
            &push_command(remote, resume.map(str::to_owned), block_size),
            HostFacts::Source { local, source },
            false,
        )
        .err()
        .unwrap();
        assert!(caller.calls.borrow().is_empty());
        error
    };
    let here = || absolute("/root/payload.bin");
    assert!(matches!(
        refuse("a", None, 0, here(), LocalSource::File),
        CliError::InvalidBlockSize
    ));
    assert!(matches!(
        refuse("a", None, 1_048_577, here(), LocalSource::File),
        CliError::InvalidBlockSize
    ));
    assert!(matches!(
        refuse("a", None, 1, HostPath::Unresolved("gone".to_owned()), LocalSource::File),
        CliError::CurrentDirectory(message) if message == "gone"
    ));
    assert!(matches!(
        refuse("/etc/passwd", None, 1, here(), LocalSource::File),
        CliError::InvalidRemotePath { .. }
    ));
    assert!(matches!(
        refuse("a", None, 1, here(), LocalSource::Symlink),
        CliError::LocalTree(message) if message == "source must not be a symbolic link"
    ));
    assert!(matches!(
        refuse("a", None, 1, here(), LocalSource::Unreadable("denied".to_owned())),
        CliError::LocalTree(message) if message == "denied"
    ));
    assert!(matches!(
        refuse(
            "a",
            Some("push-1"),
            1,
            here(),
            LocalSource::Directory(Ok(LocalTreeWalk::new().finish()))
        ),
        CliError::DirectoryResumeUnsupported
    ));
    let unwalked = || LocalSource::Directory(Err(CliError::LocalTree("denied".to_owned())));
    assert!(matches!(
        refuse("a", Some("push-1"), 1, here(), unwalked()),
        CliError::DirectoryResumeUnsupported
    ));
    assert!(matches!(
        refuse("a", None, 1, here(), unwalked()),
        CliError::LocalTree(message) if message == "denied"
    ));
}

fn file(name: &str, size: u64) -> SyncEntry {
    SyncEntry {
        name: name.to_owned(),
        kind: SyncEntryKind::File,
        size,
    }
}

fn directory(name: &str) -> SyncEntry {
    SyncEntry {
        name: name.to_owned(),
        kind: SyncEntryKind::Directory,
        size: 0,
    }
}

fn page(remote_path: &str, entries: Vec<SyncEntry>) -> CallResult {
    CallResult::SyncList(SyncListResult {
        remote_path: remote_path.to_owned(),
        entries,
        next_cursor: None,
    })
}

fn pulled(transfer_id: &str, size: u64) -> CallResult {
    CallResult::SyncPull(SyncPullResult {
        transfer_id: transfer_id.to_owned(),
        total_size: size,
        received_size: size,
        state: TransferState::Complete,
    })
}

fn target(path: &str, destination: Destination) -> HostFacts {
    HostFacts::Target {
        local: absolute(path),
        destination,
        separator: '/',
    }
}

#[test]
fn recursive_pull_materializes_files_and_empty_directories() {
    let mut caller = caller(vec![
        page("tree", vec![file("a.txt", 1), directory("empty")]),
        pulled("pull-a", 1),
        page("tree/empty", Vec::new()),
    ]);
    let executed = execute(
        &mut caller.client,
        &pull_command(true),
        target("/pulled", Destination::Free),
        true,
    )
    .unwrap();
    let mut pull = match executed {
        Executed::Pulling(pull) => pull,
        _ => panic!("expected a directory pull"),
    };
    assert_eq!(pull.destination(), "/pulled");
    let mut made = Vec::new();
    let report = loop {
        match pull.advance(&mut caller.client).unwrap() {
            PullStep::Listed | PullStep::Fetched => {}
            PullStep::MakeDirectory(path) => made.push(path),
            PullStep::Finished(report) => break report,
        }
    };
    assert_eq!(report.files, 1);
    assert_eq!(report.directories, 2);
    assert_eq!(report.totals.bytes, 1);
    assert_eq!(made, ["/pulled/empty"]);
    assert_eq!(
        methods(&caller),
        [Method::SyncList, Method::SyncPull, Method::SyncList]
    );
    assert!(matches!(
        &caller.calls.borrow()[1],
        RpcCall::SyncPull(params)
            if params.local_path == "/pulled/a.txt" && params.remote_path == "tree/a.txt"
    ));
}

#[test]
fn a_file_is_pulled_only_to_a_place_where_nothing_is() {
    let mut caller = caller(Vec::new());
    let refused = execute(
        &mut caller.client,
        &pull_command(false),
        target("/pulled", Destination::Exists),
        false,
    );
    assert!(matches!(
        refused,
        Err(CliError::LocalTree(message)) if message == "destination already exists: /pulled"
    ));
    assert!(caller.calls.borrow().is_empty());
}

#[test]
fn a_directory_pull_fails_on_a_file_of_another_size_and_stays_where_it_was() {
    let mut caller = caller(vec![page("tree", vec![file("a.txt", 1)]), pulled("pull-a", 2)]);
    let mut pull = DirectoryPull::begin(
        "KT6-TEST",
        "tree",
        absolute("/pulled"),
        65_536,
        Destination::Free,
        '/',
    )
    .unwrap();
    assert!(matches!(pull.advance(&mut caller.client), Ok(PullStep::Listed)));
    assert!(matches!(
        pull.advance(&mut caller.client),
        Err(CliError::InvalidResult { kind }) if kind == "sync directory pull size"
    ));
    caller.replies.borrow_mut().push_back(Ok(RpcReply {
        pretty: String::new(),
        result: pulled("pull-a", 1),
    }));
    assert!(matches!(pull.advance(&mut caller.client), Ok(PullStep::Fetched)));
}

fn pull_command(recursive: bool) -> TopLevelCommand {
    TopLevelCommand::Sync(SyncArgs {
        command: SyncCommand::Pull {
            serial: "KT6-TEST".to_owned(),
            remote_path: "tree".to_owned(),
            local_path: "pulled".to_owned(),
            block_size: 65_536,
            resume: None,
            recursive,
        },
    })
}

fn plan(caller: &mut RecordingCaller) -> Result<PullPlan, CliError> {
    begin_pull_tree(
        &mut caller.client,
        &"KT6-TEST".to_owned(),
        "tree",
        absolute("/pulled"),
        65_536,
        Destination::Free,
    )
}

#[test]
fn a_planned_pull_lists_the_tree_before_and_after_it_is_fetched() {
    let listing = || page("tree", vec![file("a.txt", 1), directory("empty")]);
    let mut caller = caller(vec![
        listing(),
        page("tree/empty", Vec::new()),
        pulled("pull-a", 1),
        listing(),
        page("tree/empty", Vec::new()),
    ]);
    let plan = plan(&mut caller).unwrap();
    assert_eq!(plan.directories('/'), ["/pulled/empty"]);
    let report = match finish_pull_tree(&mut caller.client, plan, '/').unwrap() {
        Transferred::Tree(report) => report,
        _ => panic!("expected a tree"),
    };
    assert_eq!(report.direction, TransferDirection::Pull);
    assert_eq!(report.files, 1);
    assert_eq!(report.directories, 2);
    assert_eq!(
        methods(&caller),
        [
            Method::SyncList,
            Method::SyncList,
            Method::SyncPull,
            Method::SyncList,
            Method::SyncList,
        ]
    );
}

#[test]
fn a_planned_pull_fails_when_the_tree_changes_meanwhile() {
    let mut caller = caller(vec![
        page("tree", vec![file("a.txt", 1)]),
        pulled("pull-a", 1),
        page("tree", vec![file("a.txt", 1), file("b.txt", 1)]),
    ]);
    let plan = plan(&mut caller).unwrap();
    assert!(matches!(
        finish_pull_tree(&mut caller.client, plan, '/'),
        Err(CliError::RemoteTreeChanged(root)) if root == "tree"
    ));
}

#[test]
fn a_directory_pull_needs_a_free_destination() {
    let refuse = |destination| {
        execute(
            &mut caller(Vec::new()).client,
            &pull_command(true),
            target("/pulled", destination),
            false,
        )
        .err()
        .unwrap()
    };
    assert!(matches!(
        refuse(Destination::Exists),
        CliError::LocalTree(message) if message == "destination already exists: /pulled"
    ));
    assert!(matches!(
        refuse(Destination::NoParent),
        CliError::LocalTree(message) if message == "destination has no parent"
    ));
}

#[test]
fn a_listing_that_lies_is_refused() {
    let refuse = |answer: CallResult| plan(&mut caller(vec![answer])).err().unwrap();
    assert!(matches!(
        refuse(page("other", Vec::new())),
        CliError::InvalidResult { kind } if kind == "sync directory list path"
    ));
    assert!(matches!(
        refuse(page("tree", vec![file("b", 1), file("a", 1)])),
        CliError::InvalidResult { kind } if kind == "sync directory list ordering"
    ));
    assert!(matches!(
        refuse(page("tree", vec![file("..", 1)])),
        CliError::InvalidDeviceSyncPath { .. }
    ));
    assert!(matches!(
        refuse(page("tree", vec![file("A", 1), file("a", 1)])),
        CliError::DevicePathCollision { first, second } if first == "tree/A" && second == "tree/a"
    ));
    assert!(matches!(
        refuse(page(
            "tree",
            vec![SyncEntry {
                name: "d".to_owned(),
                kind: SyncEntryKind::Directory,
                size: 4,
            }]
        )),
        CliError::InvalidResult { kind } if kind == "sync directory entry size"
    ));
    assert!(matches!(
        refuse(CallResult::SyncList(SyncListResult {
            remote_path: "tree".to_owned(),
            entries: vec![file("a", 1)],
            next_cursor: Some("a".to_owned()),
        })),
        CliError::InvalidResult { kind } if kind == "sync directory list page"
    ));
}

#[test]
fn sync_rpc_carries_paths_and_never_file_bytes() {
    let local_path = "/work/payload.bin";
    let mut caller = caller(vec![pushed("push-test", 123)]);
    let output = execute(
        &mut caller.client,
        &push_command("apps/payload.bin", None, 65_536),
        HostFacts::Source {
            local: absolute(local_path),
            source: LocalSource::File,
        },
        true,
    )
    .unwrap();
    assert!(matches!(
        output,
        Executed::Transferred(Transferred::Json(pretty)) if pretty == "{pretty}"
    ));
    assert!(matches!(
        &caller.calls.borrow()[0],
        RpcCall::SyncPush(params)
            if params.local_path == local_path && params.remote_path == "apps/payload.bin"
    ));
}

#[test]
fn sync_normalizes_developer_friendly_host_and_device_paths() {
    let local = normalize_host_path(
        "relative-source.bin",
        false,
        Ok("/home/jane".to_owned()),
        '/',
    );
    let mut caller = caller(vec![pushed("push-normalized", 1)]);
    execute(
        &mut caller.client,
        &push_command("/mnt/us/kindlebridge-data/apps/payload.bin", None, 65_536),
        HostFacts::Source {
            local,
            source: LocalSource::File,
        },
        true,
    )
    .unwrap();
    assert!(matches!(
        &caller.calls.borrow()[0],
        RpcCall::SyncPush(params)
            if params.local_path == "/home/jane/relative-source.bin"
                && params.remote_path == "apps/payload.bin"
    ));
    assert!(matches!(
        normalize_host_path("/x", true, Err("unused".to_owned()), '/'),
        HostPath::Absolute(path) if path == "/x"
    ));
    assert!(matches!(
        normalize_host_path("x", false, Err("gone".to_owned()), '/'),
        HostPath::Unresolved(message) if message == "gone"
    ));
}

#[test]
fn a_file_transfer_reports_what_was_moved() {
    let mut caller = caller(vec![pulled("pull-1", 7)]);
    let output = execute(
        &mut caller.client,
        &pull_command(false),
        target("/pulled", Destination::Free),
        false,
    )
    .unwrap();
    match output {
        Executed::Transferred(Transferred::File(summary)) => {
            assert_eq!(summary.direction, TransferDirection::Pull);
            assert_eq!(summary.bytes, 7);
            assert_eq!(summary.path, "/pulled");
            assert_eq!(summary.transfer_id, "pull-1");
            assert!(!summary.resumed);
        }
        _ => panic!("expected a file"),
    }
    assert_eq!(
        shown(
            TopLevelCommand::Sync(SyncArgs {
                command: SyncCommand::Status {
                    serial: "KT6-TEST".to_owned(),
                    transfer_id: "Push-1".to_owned(),
                },
            }),
            CallResult::SyncStatus(SyncStatus {
                transfer_id: "Push-1".to_owned(),
                direction: TransferDirection::Push,
                remote_path: "a".to_owned(),
                next_offset: 4,
                total_size: 8,
                state: TransferState::Active,
            }),
            false
        )
        .unwrap(),
        "push-1 push 4/8 active"
    );
}

fn stage_command(path: &str) -> TopLevelCommand {
    TopLevelCommand::Daemon(DaemonArgs {
        command: DaemonCommand::Stage {
            serial: "KT6-TEST".to_owned(),
            device_binary: path.to_owned(),
        },
    })
}

fn hashed(bytes: &[u8], size: u64) -> Result<(String, u64), CliError> {
    let mut binary = UpdateBinary::begin(true, Ok((true, size)))?;
    for chunk in bytes.chunks(7) {
        binary.add_bytes(chunk);
    }
    binary.finish()
}

#[test]
fn daemon_stage_never_activates_a_slot_on_the_live_transport() {
    let bytes = b"test kindlehf daemon";
    let digest = blake3::hash(bytes).to_hex().to_string();
    let size = bytes.len() as u64;
    let mut caller = caller(vec![
        pushed("push-update", size),
        exec_result(0, &format!("B\t{digest}\t{size}\n")),
    ]);
    let report = match execute(
        &mut caller.client,
        &stage_command("/tmp/kindlebridged"),
        HostFacts::Binary(hashed(bytes, size)),
        false,
    )
    .unwrap()
    {
        Executed::Staged(report) => report,
        _ => panic!("expected an update"),
    };
    let output = report.to_text();
    assert!(output.contains("slot B"));
    assert!(output.contains("KUAL"));
    assert_eq!(
        output,
        "uploaded and verified 20 bytes in slot B; apply from KUAL while USB is unplugged"
    );
    assert_eq!(report.transfer_id, "push-update");
    assert_eq!(methods(&caller), [Method::SyncPush, Method::ExecRun]);
    assert!(matches!(
        &caller.calls.borrow()[0],
        RpcCall::SyncPush(params)
            if params.remote_path == format!("staging/daemon/{digest}/kindlebridged")
    ));
    match &caller.calls.borrow()[1] {
        RpcCall::ExecRun(params) => {
            assert_eq!(
                params.argv[0],
                "/var/local/kindlebridge/control/bin/kindlebridge-launcher"
            );
            assert_eq!(params.argv[1], "stage");
            assert_eq!(params.argv[7], digest);
        }
        other => panic!("unexpected {other:?}"),
    };
}

#[test]
fn daemon_stage_requires_an_absolute_local_binary_path() {
    let mut caller = caller(Vec::new());
    let refused = UpdateBinary::begin(false, Ok((true, 1))).map(|_| (String::new(), 0));
    let error = execute(
        &mut caller.client,
        &stage_command("relative/kindlebridged"),
        HostFacts::Binary(refused),
        false,
    )
    .err()
    .unwrap();
    assert!(error.to_text().contains("path must be absolute"));
    assert!(caller.calls.borrow().is_empty());
}

#[test]
fn an_update_binary_is_a_file_of_bounded_size_that_does_not_change() {
    let refuse = |metadata: Result<(bool, u64), String>| {
        UpdateBinary::begin(true, metadata)
            .map(|_| ())
            .unwrap_err()
            .to_text()
    };
    let out_of_range = "invalid update binary: size must be between 1 and 33554432 bytes";
    assert_eq!(refuse(Ok((false, 5))), out_of_range);
    assert_eq!(refuse(Ok((true, 0))), out_of_range);
    assert_eq!(refuse(Ok((true, 32 * 1024 * 1024 + 1))), out_of_range);
    assert_eq!(
        refuse(Err("no such file".to_owned())),
        "invalid update binary: no such file"
    );
    assert!(UpdateBinary::begin(true, Ok((true, 32 * 1024 * 1024))).is_ok());
    assert_eq!(
        hashed(b"abc", 4).unwrap_err().to_text(),
        "invalid update binary: file changed while being read"
    );
    let (digest, size) = hashed(b"abc", 3).unwrap();
    assert_eq!(
        digest,
        "6437b3ac38465133ffb63b75273a8db548c558465d79db03fd359c6cd5bd9d85"
    );
    assert_eq!(size, 3);
}

#[test]
fn an_update_is_refused_at_each_step() {
    let stage = |results: Vec<CallResult>| {
        execute(
            &mut caller(results).client,
            &stage_command("/tmp/kindlebridged"),
            HostFacts::Binary(Ok(("d".to_owned(), 10))),
            false,
        )
        .err()
        .unwrap()
        .to_text()
    };
    assert_eq!(
        stage(vec![pushed("push-1", 4)]),
        "device rejected the upload step: transfer push-1 stopped at 4/10 bytes"
    );
    assert_eq!(
        stage(vec![CallResult::Unreadable]),
        "server returned an invalid daemon stage upload result"
    );
    assert_eq!(
        stage(vec![pushed("push-1", 10), exec_result(2, "")]),
        "device rejected the staging step: command exited with 2"
    );
    assert_eq!(
        stage(vec![
            pushed("push-1", 10),
            CallResult::Exec(ExecResult {
                exit_code: 1,
                stdout: String::new(),
                stderr: " no space \n".to_owned(),
                duration_ms: 1,
            })
        ]),
        "device rejected the staging step: no space"
    );
    let slot = |record: &str| match parse_staged_update(record, "d", 10) {
        Ok(slot) => slot,
        Err(error) => error.to_text(),
    };
    assert_eq!(slot("A\td\t10\n"), "A");
    let step = "device rejected the staging step: ";
    assert_eq!(
        slot("C\td\t10"),
        format!("{step}launcher returned an invalid slot record")
    );
    assert_eq!(
        slot("A\td"),
        format!("{step}launcher returned an invalid slot record")
    );
    assert_eq!(
        slot("A\td\tten"),
        format!("{step}launcher returned an invalid binary size")
    );
    assert_eq!(
        slot("A\te\t10"),
        format!("{step}launcher verification result did not match the upload")
    );
    assert_eq!(
        slot("A\td\t11"),
        format!("{step}launcher verification result did not match the upload")
    );
}

#[test]
fn log_decoder_preserves_binary_and_rejects_malformed_base64() {
    let bytes = b"stdout\0\xff";
    assert_eq!(decode_log(&BASE64.encode(bytes)).unwrap(), bytes);
    assert!(matches!(
        decode_log("not base64!"),
        Err(CliError::InvalidResult { kind }) if kind == "app log"
    ));
}

fn app_command(command: AppCommand) -> TopLevelCommand {
    TopLevelCommand::App(AppArgs { command })
}

fn chunk(cursor: u64, bytes: &[u8], capped: bool) -> AppLogChunk {
    AppLogChunk {
        cursor,
        next_cursor: cursor + bytes.len() as u64,
        data_base64: BASE64.encode(bytes),
        capped,
    }
}

fn snapshot(run_id: &str, reset: bool, stdout: AppLogChunk, stderr: AppLogChunk) -> AppLogSnapshot {
    AppLogSnapshot {
        app_id: "org.example.reader".to_owned(),
        run_id: run_id.to_owned(),
        reset,
        state: AppState::Running,
        pid: Some(2048),
        stdout,
        stderr,
    }
}

#[test]
fn app_log_cli_has_bounded_one_shot_and_follow_modes() {
    let log = |follow| {
        app_command(AppCommand::Log {
            serial: "KT6-TEST".to_owned(),
            app_id: "org.example.reader".to_owned(),
            follow,
            max_bytes: 4096,
        })
    };
    let mut caller = caller(vec![CallResult::AppLog(snapshot(
        "run-1",
        false,
        chunk(0, b"hello\n", false),
        chunk(0, b"oops\n", false),
    ))]);
    let output = execute(&mut caller.client, &log(false), HostFacts::Nothing, false)
        .map(text)
        .unwrap();
    assert_eq!(output, "hello\noops\n");
    assert!(matches!(
        &caller.calls.borrow()[0],
        RpcCall::AppLog(params)
            if params.stdout_cursor == 0
                && params.max_bytes == Some(4096)
                && params.run_id.is_none()
    ));
    assert!(matches!(
        execute(&mut caller.client, &log(true), HostFacts::Nothing, false),
        Err(CliError::Project(message))
            if message == "app log --follow requires the streaming CLI path"
    ));
    assert_eq!(caller.calls.borrow().len(), 1);
}

#[test]
fn a_followed_log_goes_on_where_it_stopped_and_tells_of_restarts_and_limits() {
    let mut log = AppLog::new("KT6-TEST".to_owned(), "org.example.reader".to_owned(), 2048);
    let mut caller = caller(vec![
        CallResult::AppLog(snapshot(
            "run-1",
            true,
            chunk(0, b"one", true),
            chunk(0, b"", false),
        )),
        CallResult::AppLog(snapshot(
            "run-1",
            false,
            chunk(3, b"two", true),
            chunk(0, b"", false),
        )),
        CallResult::AppLog(snapshot(
            "run-2",
            true,
            chunk(0, b"new", true),
            chunk(0, b"err", true),
        )),
        CallResult::AppLog(snapshot(
            "run-2",
            false,
            AppLogChunk {
                cursor: 3,
                next_cursor: 3,
                data_base64: "?".to_owned(),
                capped: false,
            },
            chunk(3, b"", false),
        )),
        CallResult::Unreadable,
    ]);
    let first = log.advance(&mut caller.client).unwrap();
    assert_eq!(first.notice, None);
    let output = first.output.unwrap();
    assert_eq!(output.stdout, b"one");
    assert_eq!(
        output.stdout_warning.as_deref(),
        Some("\nwarning: org.example.reader stdout capture reached its 4 MiB limit")
    );
    assert_eq!(output.stderr_warning, None);

    let second = log.advance(&mut caller.client).unwrap();
    assert_eq!(second.output.unwrap().stdout_warning, None);
    assert!(matches!(
        &caller.calls.borrow()[1],
        RpcCall::AppLog(params)
            if params.stdout_cursor == 3 && params.run_id.as_deref() == Some("run-1")
    ));

    let third = log.advance(&mut caller.client).unwrap();
    assert_eq!(
        third.notice.as_deref(),
        Some("\n--- org.example.reader restarted (run-2) ---")
    );
    let output = third.output.unwrap();
    assert!(output.stdout_warning.is_some());
    assert_eq!(
        output.stderr_warning.as_deref(),
        Some("\nwarning: org.example.reader stderr capture reached its 4 MiB limit")
    );

    let fourth = log.advance(&mut caller.client).unwrap();
    assert_eq!(
        fourth.output.unwrap_err().to_text(),
        "server returned invalid stdout log data"
    );
    assert_eq!(
        log.advance(&mut caller.client).unwrap_err().to_text(),
        "server returned invalid app log data"
    );
    caller
        .replies
        .borrow_mut()
        .push_back(Err(ClientError::Transport("broken pipe".to_owned())));
    assert_eq!(
        log.advance(&mut caller.client).unwrap_err().to_text(),
        "app log request failed: broken pipe"
    );
}

fn reader(state: AppState, pid: Option<u32>) -> AppSummary {
    AppSummary {
        app_id: "org.example.reader".to_owned(),
        version: "1.2.3".to_owned(),
        state,
        rollback_available: false,
        pid,
    }
}

#[test]
fn application_commands_have_methods_of_their_own() {
    let target = || ("KT6-TEST".to_owned(), "org.example.reader".to_owned());
    let commands: Vec<(AppCommand, Method)> = vec![
        (
            {
                let (serial, app_id) = target();
                AppCommand::Start { serial, app_id }
            },
            Method::AppStart,
        ),
        (
            {
                let (serial, app_id) = target();
                AppCommand::Stop { serial, app_id }
            },
            Method::AppStop,
        ),
        (
            {
                let (serial, app_id) = target();
                AppCommand::Restart { serial, app_id }
            },
            Method::AppRestart,
        ),
        (
            {
                let (serial, app_id) = target();
                AppCommand::Rollback { serial, app_id }
            },
            Method::AppRollback,
        ),
        (
            {
                let (serial, app_id) = target();
                AppCommand::Uninstall { serial, app_id }
            },
            Method::AppUninstall,
        ),
    ];
    for (command, method) in commands {
        let mut caller = caller(vec![CallResult::App(reader(AppState::Stopped, None))]);
        let output = execute(&mut caller.client, &app_command(command), HostFacts::Nothing, false)
            .map(text)
            .unwrap();
        assert_eq!(output, "org.example.reader\t1.2.3\tstopped");
        assert_eq!(methods(&caller), [method]);
    }
    let mut caller = caller(vec![CallResult::App(reader(AppState::Stopped, None))]);
    execute(
        &mut caller.client,
        &app_command(AppCommand::Install {
            serial: "KT6-TEST".to_owned(),
            bundle_path: "reader.kbb".to_owned(),
        }),
        HostFacts::Path(absolute("/work/reader.kbb")),
        false,
    )
    .unwrap();
    assert!(matches!(
        &caller.calls.borrow()[0],
        RpcCall::AppInstall(params) if params.bundle_path == "/work/reader.kbb"
    ));
    assert_eq!(
        shown(
            app_command(AppCommand::List {
                serial: "KT6-TEST".to_owned()
            }),
            CallResult::Apps(Vec::new()),
            false
        )
        .unwrap(),
        "No apps."
    );
}

#[test]
fn server_process_and_log_commands_show_what_they_should() {
    assert_eq!(
        shown(server(ServerCommand::Status), CallResult::Status(7), false).unwrap(),
        "running (pid 7)"
    );
    assert_eq!(
        shown(server(ServerCommand::Stop), CallResult::Unreadable, false).unwrap(),
        "stopping"
    );
    assert!(matches!(
        shown(server(ServerCommand::Ping), CallResult::Ping(false), false),
        Err(CliError::InvalidResult { kind }) if kind == "ping"
    ));
    let process = || ProcessSummary {
        pid: 12,
        name: "reader".to_owned(),
        app_id: None,
        state: ProcessState::Running,
    };
    assert_eq!(
        shown(
            TopLevelCommand::Process(ProcessArgs {
                command: ProcessCommand::List {
                    serial: "KT6-TEST".to_owned()
                }
            }),
            CallResult::Processes(vec![process()]),
            false
        )
        .unwrap(),
        "12\treader"
    );
    assert_eq!(
        shown(
            TopLevelCommand::Process(ProcessArgs {
                command: ProcessCommand::Signal {
                    serial: "KT6-TEST".to_owned(),
                    pid: 12,
                    signal: "TERM".to_owned(),
                }
            }),
            CallResult::Process(process()),
            false
        )
        .unwrap(),
        "sent TERM to 12 (reader)"
    );
    assert_eq!(
        shown(
            TopLevelCommand::Log(LogArgs {
                command: LogCommand::Tail {
                    serial: "KT6-TEST".to_owned(),
                    cursor: None,
                    limit: 10,
                }
            }),
            CallResult::Log(LogSnapshot {
                entries: vec![LogEntry {
                    cursor: 3,
                    level: "info".to_owned(),
                    source: "device".to_owned(),
                    message: "connected".to_owned(),
                }],
                next_cursor: 4,
                has_more: false,
            }),
            false
        )
        .unwrap(),
        "3\tinfo\tdevice\tconnected"
    );
}

#[test]
fn a_run_installs_the_bundle_and_starts_its_application() {
    let plan = |build: Vec<String>| ProjectPlan {
        manifest_path: "/p/kindlebridge.toml".to_owned(),
        root: "/p".to_owned(),
        build,
        input: "/p/build".to_owned(),
        signing_key: "/p/key".to_owned(),
        state_root: "/p/.kindlebridge".to_owned(),
        release_state: "/p/.kindlebridge/run-release".to_owned(),
        output: "/p/.kindlebridge/run.kbb".to_owned(),
        release: 1,
    };
    let bundle = || BuiltBundle {
        path: "/p/.kindlebridge/run.kbb".to_owned(),
        bytes: 99,
        id: "org.example.reader".to_owned(),
        version: "1.2.3".to_owned(),
        release: 5,
        bundle_root: "root".to_owned(),
    };
    let run = TopLevelCommand::Run(RunArgs {
        serial: "KT6-TEST".to_owned(),
        manifest: "kindlebridge.toml".to_owned(),
        watch: false,
    });
    let mut working = caller(vec![
        CallResult::App(reader(AppState::Stopped, None)),
        CallResult::App(reader(AppState::Running, Some(9))),
    ]);
    let executed = execute(
        &mut working.client,
        &run,
        HostFacts::Project {
            plan: Ok(plan(vec!["make".to_owned()])),
            build: BuildOutcome::Succeeded,
            bundle: Ok(bundle()),
        },
        false,
    )
    .unwrap();
    match executed {
        Executed::Ran(report) => assert_eq!(
            report.to_text(),
            "built org.example.reader 1.2.3 (99 bytes)\norg.example.reader\t1.2.3\trunning pid=9"
        ),
        _ => panic!("expected a run"),
    }
    assert_eq!(methods(&working), [Method::AppInstall, Method::AppStart]);

    let mut failing = caller(Vec::new());
    let error = execute(
        &mut failing.client,
        &run,
        HostFacts::Project {
            plan: Ok(plan(vec!["make".to_owned()])),
            build: BuildOutcome::Failed {
                exit_code: Some(2),
                captured: None,
            },
            bundle: Ok(bundle()),
        },
        false,
    )
    .err()
    .unwrap();
    assert_eq!(error.to_text(), "build command failed with exit code 2");
    assert!(failing.calls.borrow().is_empty());

    let mut skipped = caller(vec![CallResult::App(reader(AppState::Stopped, None)), CallResult::Unreadable]);
    let error = execute(
        &mut skipped.client,
        &run,
        HostFacts::Project {
            plan: Ok(plan(Vec::new())),
            build: BuildOutcome::NotStarted("ignored".to_owned()),
            bundle: Ok(bundle()),
        },
        false,
    )
    .err()
    .unwrap();
    assert!(matches!(error, CliError::InvalidResult { kind } if kind == "run start"));
}

#[test]
fn failures_have_machine_readable_kinds_and_codes() {
    let unavailable = || ServerError {
        code: -32_005,
        message: "Feature unavailable".to_owned(),
        data: Some("{\"feature\":\"process.v1\",\"serial\":\"KT6-TEST\"}".to_owned()),
    };
    let failed = RunError::Command(CliError::Rpc(ClientError::Rpc(unavailable())));
    assert_eq!(
        failed.to_text(),
        "Feature unavailable (-32005): {\"feature\":\"process.v1\",\"serial\":\"KT6-TEST\"}"
    );
    let report = json_error(&failed);
    assert_eq!(report.kind, "rpc");
    assert!(matches!(report.code, ReportCode::Number(-32_005)));
    assert_eq!(report.message, "Feature unavailable");
    assert_eq!(report.data, unavailable().data);
    let named = |error: RunError| match json_error(&error) {
        ErrorReport {
            kind,
            code: ReportCode::Name(code),
            data: None,
            ..
        } => (kind, code),
        other => panic!("unexpected {other:?}"),
    };
    assert_eq!(
        named(RunError::Command(CliError::Rpc(
            ClientError::InvalidResponse
        ))),
        ("transport", "RPC_TRANSPORT_ERROR")
    );
    assert_eq!(
        named(RunError::Command(CliError::InvalidBlockSize)),
        ("command", "INVALID_BLOCK_SIZE")
    );
    assert_eq!(
        named(RunError::Startup("late".to_owned())),
        ("startup", "SERVER_START_FAILED")
    );
    assert_eq!(
        named(RunError::Arguments("bad".to_owned())),
        ("arguments", "INVALID_ARGUMENTS")
    );
    assert_eq!(
        named(RunError::Message("odd".to_owned())),
        ("cli", "COMMAND_FAILED")
    );
    assert_eq!(
        command_error_code(&CliError::RemotePathOutsideSyncRoot("/etc".to_owned())),
        "INVALID_REMOTE_PATH"
    );
}
