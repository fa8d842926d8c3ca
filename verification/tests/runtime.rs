use kindlebridge::model::{
    AppInstallParams, AppLogParams, AppState, AppTargetParams, LogTailParams, ProcessSignalParams,
    SerialParams, SyncEntryKind, SyncListParams, SyncMkdirParams, SyncPullParams, SyncPushParams,
    SyncStatusParams, TransferState,
};
use kindlebridge::rpc_error::{ErrorCode, RpcError};
use kindlebridge::runtime::model::{HostBundle, HostFile};
use kindlebridge::runtime::RuntimeState;

fn text(text: &str) -> String {
    text.to_owned()
}

fn push(remote_path: &str, transfer_id: Option<&str>) -> SyncPushParams {
    SyncPushParams {
        serial: text("K"),
        local_path: text("/tmp/source"),
        remote_path: text(remote_path),
        transfer_id: transfer_id.map(str::to_owned),
        block_size: 4,
    }
}

fn pull(remote_path: &str) -> SyncPullParams {
    SyncPullParams {
        serial: text("K"),
        remote_path: text(remote_path),
        local_path: text("/tmp/destination"),
        transfer_id: None,
        block_size: 4,
    }
}

fn content(bytes: &[u8]) -> HostFile {
    HostFile::Content(bytes.to_vec())
}

fn list(remote_path: &str, cursor: Option<&str>, limit: u32) -> SyncListParams {
    SyncListParams {
        serial: text("K"),
        remote_path: text(remote_path),
        cursor: cursor.map(str::to_owned),
        limit,
    }
}

fn state() -> RuntimeState {
    let mut state = RuntimeState::new();
    state.device_connected("K");
    state
}

#[test]
fn a_pull_returns_what_was_pushed() {
    let mut state = state();
    let pushed = state.sync_push(&push("a/b.bin", None), &content(b"payload")).unwrap();
    assert_eq!(pushed.accepted_offset, 7);
    assert_eq!(pushed.state, TransferState::Complete);
    let delivery = state.sync_pull(&pull("a/b.bin"), true).unwrap();
    assert_eq!(delivery.data, b"payload");
    assert_eq!(delivery.result.total_size, 7);
    let status = state
        .sync_status(&SyncStatusParams {
            serial: text("K"),
            transfer_id: pushed.transfer_id,
        })
        .unwrap();
    assert_eq!(status.next_offset, 7);
}

#[test]
fn a_push_can_be_repeated_whatever_came_in_between() {
    let mut state = state();
    let first = state.sync_push(&push("a/b.bin", None), &content(b"abcdef")).unwrap();
    state.sync_push(&push("a/c.bin", None), &content(b"other")).unwrap();
    state.sync_pull(&pull("a/c.bin"), true).unwrap();
    state
        .sync_mkdir(&SyncMkdirParams {
            serial: text("K"),
            remote_path: text("d"),
        })
        .unwrap();
    assert_eq!(state.sync_pull(&pull("a/b.bin"), true).unwrap().data, b"abcdef");
    state.sync_push(&push("a/b.bin", None), &content(b"newer!")).unwrap();

    let id = first.transfer_id.as_str();
    for changed in [&b"changed"[..], &b"ABCDEF"[..]] {
        let refused = state.sync_push(&push("a/b.bin", Some(id)), &content(changed));
        assert_eq!(code(refused), ErrorCode::InvalidState);
        // A refused push to the path leaves the file as it is.
        assert_eq!(state.sync_pull(&pull("a/b.bin"), true).unwrap().data, b"newer!");
    }
    let again = state
        .sync_push(&push("a/b.bin", Some(id)), &content(b"abcdef"))
        .unwrap();
    assert_eq!(again.transfer_id, first.transfer_id);
    assert_eq!(again.accepted_offset, first.accepted_offset);
    assert_eq!(again.state, first.state);
    assert_eq!(state.sync_pull(&pull("a/b.bin"), true).unwrap().data, b"abcdef");
}

fn code<T>(result: Result<T, RpcError>) -> ErrorCode {
    match result {
        Ok(_) => panic!("expected a refusal"),
        Err(error) => error.code,
    }
}

#[test]
fn each_refused_transfer_has_its_code() {
    let mut state = state();
    assert_eq!(
        code(state.sync_push(&push("../x", None), &content(b"x"))),
        ErrorCode::InvalidParams
    );
    assert_eq!(
        code(state.sync_push(&push("x", None), &HostFile::NotAbsolute)),
        ErrorCode::InvalidParams
    );
    assert_eq!(
        code(state.sync_push(&push("x", Some("push-9")), &content(b"x"))),
        ErrorCode::TransferNotFound
    );
    assert_eq!(code(state.sync_pull(&pull("x"), true)), ErrorCode::FileNotFound);
    assert_eq!(
        code(state.sync_pull(&pull("x"), false)),
        ErrorCode::InvalidParams
    );
    let mut odd = push("x", None);
    odd.block_size = 0;
    assert_eq!(
        code(state.sync_push(&odd, &content(b"x"))),
        ErrorCode::InvalidParams
    );
    odd.block_size = 1_048_577;
    assert_eq!(
        code(state.sync_push(&odd, &content(b"x"))),
        ErrorCode::InvalidParams
    );
}

#[test]
fn a_listing_can_be_read_in_pages() {
    let mut state = state();
    for name in ["d/b", "d/a", "d/c/x", "e"] {
        state.sync_push(&push(name, None), &content(b"1")).unwrap();
    }
    let whole = state.sync_list(&list("d", None, 10)).unwrap();
    let names: Vec<&str> = whole.entries.iter().map(|entry| entry.name.as_str()).collect();
    assert_eq!(names, ["a", "b", "c"]);
    assert_eq!(whole.entries[2].kind, SyncEntryKind::Directory);
    assert_eq!(whole.next_cursor, None);
    let first = state.sync_list(&list("d", None, 2)).unwrap();
    assert_eq!(first.next_cursor.as_deref(), Some("b"));
    let second = state.sync_list(&list("d", Some("b"), 2)).unwrap();
    assert_eq!(second.entries.len(), 1);
    assert_eq!(second.entries[0].name, "c");
    assert_eq!(second.next_cursor, None);
}

#[test]
fn a_directory_is_created_once() {
    let mut state = state();
    let make = |state: &mut RuntimeState, path: &str| {
        state.sync_mkdir(&SyncMkdirParams {
            serial: text("K"),
            remote_path: text(path),
        })
    };
    assert!(make(&mut state, "x/y").unwrap().created);
    assert!(!make(&mut state, "x/y").unwrap().created);
    assert_eq!(
        state.sync_list(&list("x", None, 10)).unwrap().entries[0].name,
        "y"
    );
}

fn bundle(version: &str) -> HostBundle {
    HostBundle::Verified {
        application: true,
        id: text("app"),
        version: text(version),
        bundle_root: format!("root-{version}"),
    }
}

fn install(state: &mut RuntimeState, version: &str) {
    state
        .app_install(
            &AppInstallParams {
                serial: text("K"),
                bundle_path: text("/tmp/app.kbb"),
            },
            &bundle(version),
        )
        .unwrap();
}

fn target() -> AppTargetParams {
    AppTargetParams {
        serial: text("K"),
        app_id: text("app"),
    }
}

#[test]
fn rollback_undoes_an_installation_and_never_goes_forward() {
    let mut state = state();
    install(&mut state, "1");
    install(&mut state, "2");
    assert_eq!(state.app_rollback(&target()).unwrap().version, "1");
    assert_eq!(
        code(state.app_rollback(&target())),
        ErrorCode::NoRollbackAvailable
    );
    state.app_uninstall(&target()).unwrap();
    assert_eq!(code(state.app_start(&target())), ErrorCode::AppNotFound);
    assert!(state
        .app_list(&SerialParams { serial: text("K") })
        .is_empty());
}

#[test]
fn processes_follow_their_applications() {
    let mut state = state();
    install(&mut state, "1");
    let first = state.app_start(&target()).unwrap().pid.unwrap();
    let second = state.app_restart(&target()).unwrap().pid.unwrap();
    assert_ne!(first, second);
    let signal = |state: &mut RuntimeState, pid, signal: &str| {
        state.process_signal(&ProcessSignalParams {
            serial: text("K"),
            pid,
            signal: text(signal),
        })
    };
    assert_eq!(
        code(signal(&mut state, second, "WINK")),
        ErrorCode::InvalidSignal
    );
    assert_eq!(
        code(signal(&mut state, first, "KILL")),
        ErrorCode::ProcessNotFound
    );
    signal(&mut state, second, "KILL").unwrap();
    assert!(state
        .process_list(&SerialParams { serial: text("K") })
        .is_empty());
    assert_eq!(
        state.app_list(&SerialParams { serial: text("K") })[0].state,
        AppState::Stopped
    );
}

#[test]
fn log_snapshots_continue_where_the_last_one_ended() {
    let mut state = state();
    for number in 0..5 {
        state
            .sync_push(&push(&format!("f{number}"), None), &content(b"1"))
            .unwrap();
    }
    let tail = |cursor, limit| {
        state
            .log_tail(&LogTailParams {
                serial: text("K"),
                cursor,
                limit: Some(limit),
            })
            .unwrap()
    };
    let whole = tail(Some(1), 100);
    let first = tail(Some(1), 2);
    let second = tail(Some(first.next_cursor), 100);
    let cursors = |entries: &[kindlebridge::model::LogEntry]| {
        entries.iter().map(|entry| entry.cursor).collect::<Vec<u64>>()
    };
    let joined = [cursors(&first.entries), cursors(&second.entries)].concat();
    assert_eq!(joined, cursors(&whole.entries));
    assert!(first.has_more);
    assert!(!second.has_more);
}

#[test]
fn the_log_of_an_application_needs_the_application() {
    let mut state = state();
    let params = AppLogParams {
        serial: text("K"),
        app_id: text("app"),
        run_id: None,
        stdout_cursor: 0,
        stderr_cursor: 0,
        max_bytes: Some(10),
    };
    assert_eq!(code(state.app_log(&params)), ErrorCode::AppNotFound);
    install(&mut state, "1");
    assert_eq!(state.app_log(&params).unwrap().app_id, "app");
}
