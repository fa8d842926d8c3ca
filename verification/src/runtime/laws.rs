//! What holds of the in-memory devices across requests.

use crate::model::{
    AppInstallParamsView, AppLogParamsView, AppState, AppSummaryView, AppTargetParamsView,
    LogEntryView, LogTailParamsView, ProcessSignalParamsView, SyncEntryView, SyncListParamsView,
    SyncMkdirParamsView, SyncPullParamsView, SyncPushParamsView, SyncStatusParamsView,
    TransferDirection,
};
use crate::number;
use crate::path;
use crate::rpc_error;
use crate::rpc_error::ErrorCode;
use crate::runtime::model;
use crate::runtime::model::{
    AppRuntimeView, HostBundleView, HostFileView, RuntimeView, MAX_LOG_ENTRIES,
};
use crate::text;
use vstd::prelude::*;

verus! {

/// A request that can change the state.
pub enum Request {
    Connected(Seq<char>),
    Push(SyncPushParamsView, HostFileView),
    Pull(SyncPullParamsView, bool),
    Mkdir(SyncMkdirParamsView),
    Install(AppInstallParamsView, HostBundleView),
    Start(AppTargetParamsView),
    Stop(AppTargetParamsView),
    Restart(AppTargetParamsView),
    Rollback(AppTargetParamsView),
    Uninstall(AppTargetParamsView),
    Signal(ProcessSignalParamsView),
}

/// The state after a request.
pub open spec fn next(state: RuntimeView, request: Request) -> RuntimeView {
    match request {
        Request::Connected(serial) => state.logged(serial, "bridge"@, "device connected"@),
        Request::Push(params, source) => model::push(state, params, source).0,
        Request::Pull(params, absolute) => model::pull(state, params, absolute).0,
        Request::Mkdir(params) => model::mkdir(state, params).0,
        Request::Install(params, bundle) => model::install(state, params, bundle).0,
        Request::Start(params) => model::start(state, params).0,
        Request::Stop(params) => model::stop(state, params).0,
        Request::Restart(params) => model::restart(state, params).0,
        Request::Rollback(params) => model::rollback(state, params).0,
        Request::Uninstall(params) => model::uninstall(state, params).0,
        Request::Signal(params) => model::signal(state, params).0,
    }
}

/// Whether log lines are few enough and numbered without gaps, up to the end of
/// the number range, with the next number following the last line.
pub open spec fn lines_in_order(lines: Seq<LogEntryView>, next_cursor: u64) -> bool {
    &&& 0 < lines.len() <= MAX_LOG_ENTRIES
    &&& forall|i: int|
        0 <= i < lines.len() - 1 ==> lines[i + 1].cursor == model::after(
            (#[trigger] lines[i]).cursor,
        )
    &&& next_cursor == model::after(lines.last().cursor)
    &&& lines[0].cursor >= 1
}

/// Whether the log of every device is in order.
pub open spec fn logs_in_order(state: RuntimeView) -> bool {
    &&& state.logs.dom() == state.next_log_cursor.dom()
    &&& forall|serial: Seq<char>| #[trigger]
        state.logs.dom().contains(serial) ==> lines_in_order(
            state.logs[serial],
            state.next_log_cursor[serial],
        )
}

proof fn logged_in_order(
    state: RuntimeView,
    serial: Seq<char>,
    source: Seq<char>,
    message: Seq<char>,
)
    requires
        logs_in_order(state),
    ensures
        logs_in_order(state.logged(serial, source, message)),
{
    let after = state.logged(serial, source, message);
    assert(after.logs.dom() =~= after.next_log_cursor.dom());
    assert forall|other: Seq<char>| #[trigger] after.logs.dom().contains(other) implies
        lines_in_order(after.logs[other], after.next_log_cursor[other]) by {
        if other == serial {
            let before = state.log_of(serial);
            if before.len() > 0 {
                assert(state.logs.dom().contains(serial));
                assert(lines_in_order(before, state.next_log_cursor[serial]));
            }
        } else {
            assert(state.logs.dom().contains(other));
        }
    }
}

/// Every request keeps the logs in order: at most the set number of lines per
/// device, with consecutive cursors.
pub proof fn requests_keep_logs_in_order(state: RuntimeView, request: Request)
    requires
        logs_in_order(state),
    ensures
        logs_in_order(next(state, request)),
{
    match request {
        Request::Connected(serial) => logged_in_order(
            state,
            serial,
            "bridge"@,
            "device connected"@,
        ),
        Request::Push(params, source) => {
            if model::push(state, params, source).1 is Ok {
                let data = source->Content_0;
                let opened = if params.transfer_id is None {
                    state.with_transfer(
                        "push"@,
                        params.serial,
                        TransferDirection::Push,
                        params.remote_path,
                        data,
                    )
                } else {
                    state
                };
                let stored = RuntimeView {
                    files: opened.files.insert((params.serial, params.remote_path), data),
                    ..opened
                }.with_parents(params.serial, params.remote_path);
                logged_in_order(
                    stored,
                    params.serial,
                    "sync"@,
                    model::push_message(data.len(), params.remote_path),
                );
            }
        },
        Request::Pull(params, absolute) => {},
        Request::Mkdir(params) => {},
        Request::Install(params, bundle) => install_keeps_logs(state, params, bundle),
        Request::Start(params) => start_keeps_logs(state, params),
        Request::Stop(params) => stop_keeps_logs(state, params),
        Request::Restart(params) => {
            stop_keeps_logs(state, params);
            start_keeps_logs(model::stop(state, params).0, params);
        },
        Request::Rollback(params) => rollback_keeps_logs(state, params),
        Request::Uninstall(params) => uninstall_keeps_logs(state, params),
        Request::Signal(params) => signal_keeps_logs(state, params),
    }
}

proof fn install_keeps_logs(
    state: RuntimeView,
    params: AppInstallParamsView,
    bundle: HostBundleView,
)
    requires
        logs_in_order(state),
    ensures
        logs_in_order(model::install(state, params, bundle).0),
{
    if let HostBundleView::Verified { application, id, version, bundle_root } = bundle {
        if application {
            let app = model::installed_app(state, params.serial, id, version, bundle_root);
            let placed = state.without_process(
                params.serial,
                model::replaced_process(state, params.serial, id, bundle_root),
            ).with_app(params.serial, id, app);
            logged_in_order(placed, params.serial, id, "installed "@ + app.version);
        }
    }
}

proof fn start_keeps_logs(state: RuntimeView, params: AppTargetParamsView)
    requires
        logs_in_order(state),
    ensures
        logs_in_order(model::start(state, params).0),
{
    let key = (params.serial, params.app_id);
    let app = state.apps[key];
    let after = model::start(state, params).0;
    if state.apps.dom().contains(key) && app.state == AppState::Stopped {
        let placed = RuntimeView {
            next_log_cursor: state.next_log_cursor,
            logs: state.logs,
            ..after
        };
        assert(logs_in_order(placed));
        logged_in_order(placed, params.serial, params.app_id, "started"@);
        assert(after =~= placed.logged(params.serial, params.app_id, "started"@));
    }
}

proof fn stop_keeps_logs(state: RuntimeView, params: AppTargetParamsView)
    requires
        logs_in_order(state),
    ensures
        logs_in_order(model::stop(state, params).0),
{
    let after = model::stop(state, params).0;
    if state.apps.dom().contains((params.serial, params.app_id)) {
        let placed = RuntimeView {
            next_log_cursor: state.next_log_cursor,
            logs: state.logs,
            ..after
        };
        assert(logs_in_order(placed));
        logged_in_order(placed, params.serial, params.app_id, "stopped"@);
        assert(after =~= placed.logged(params.serial, params.app_id, "stopped"@));
    }
}

proof fn rollback_keeps_logs(state: RuntimeView, params: AppTargetParamsView)
    requires
        logs_in_order(state),
    ensures
        logs_in_order(model::rollback(state, params).0),
{
    let after = model::rollback(state, params).0;
    if model::rollback(state, params).1 is Ok {
        let placed = RuntimeView {
            next_log_cursor: state.next_log_cursor,
            logs: state.logs,
            ..after
        };
        assert(logs_in_order(placed));
        logged_in_order(placed, params.serial, params.app_id, "rolled back"@);
        assert(after =~= placed.logged(params.serial, params.app_id, "rolled back"@));
    }
}

proof fn uninstall_keeps_logs(state: RuntimeView, params: AppTargetParamsView)
    requires
        logs_in_order(state),
    ensures
        logs_in_order(model::uninstall(state, params).0),
{
    let after = model::uninstall(state, params).0;
    if model::uninstall(state, params).1 is Ok {
        let placed = RuntimeView {
            next_log_cursor: state.next_log_cursor,
            logs: state.logs,
            ..after
        };
        assert(logs_in_order(placed));
        logged_in_order(placed, params.serial, params.app_id, "uninstalled"@);
        assert(after =~= placed.logged(params.serial, params.app_id, "uninstalled"@));
    }
}

proof fn signal_keeps_logs(state: RuntimeView, params: ProcessSignalParamsView)
    requires
        logs_in_order(state),
    ensures
        logs_in_order(model::signal(state, params).0),
{
    if model::signal(state, params).1 is Ok {
        let kind = model::signal_named(params.signal)->Some_0;
        let process = state.processes[(params.serial, params.pid)];
        let after = if kind == model::ProcessSignal::Term || kind == model::ProcessSignal::Kill {
            model::ended(state, params.serial, process, params.pid)
        } else {
            state
        };
        logged_in_order(
            after,
            params.serial,
            process.name,
            model::signal_message(kind, params.pid),
        );
    }
}

/// Whether every directory above a file or a directory exists.
pub open spec fn parents_exist(state: RuntimeView) -> bool {
    forall|serial: Seq<char>, full: Seq<char>, above: Seq<char>|
        (state.files.dom().contains((serial, full)) || state.directories.dom().contains(
            (serial, full),
        )) && #[trigger] path::is_parent(above, full) ==> #[trigger] state.directories.dom().contains(
            (serial, above),
        )
}

proof fn parent_of_parent(top: Seq<char>, middle: Seq<char>, full: Seq<char>)
    requires
        path::is_parent(top, middle),
        path::is_parent(middle, full),
    ensures
        path::is_parent(top, full),
{
    let i = choose|i: int| 0 <= i < full.len() && full[i] == '/' && middle == #[trigger] full.take(i);
    let j = choose|j: int|
        0 <= j < middle.len() && middle[j] == '/' && top == #[trigger] middle.take(j);
    assert(full.take(j) =~= top);
}

/// Every request keeps the directory tree closed: whatever lies on a device, the
/// directories above it lie there too.
pub proof fn requests_keep_parents(state: RuntimeView, request: Request)
    requires
        parents_exist(state),
    ensures
        parents_exist(next(state, request)),
{
    let after = next(state, request);
    match request {
        Request::Push(params, source) => {
            if model::push(state, params, source).1 is Ok {
                added_parents(state, after, params.serial, params.remote_path);
            }
        },
        Request::Mkdir(params) => {
            if model::mkdir(state, params).1 is Ok {
                added_parents(state, after, params.serial, params.remote_path);
            }
        },
        _ => {},
    }
}

proof fn added_parents(
    state: RuntimeView,
    after: RuntimeView,
    serial: Seq<char>,
    remote_path: Seq<char>,
)
    requires
        parents_exist(state),
        forall|key: model::DeviceName| #[trigger]
            after.directories.dom().contains(key) ==> state.directories.dom().contains(key) || (
            key.0 == serial && (key.1 == remote_path || path::is_parent(key.1, remote_path))),
        forall|key: model::DeviceName| #[trigger]
            after.files.dom().contains(key) ==> state.files.dom().contains(key) || key == (
                serial,
                remote_path,
            ),
        forall|key: model::DeviceName|
            state.directories.dom().contains(key) || (key.0 == serial && path::is_parent(
                key.1,
                remote_path,
            )) ==> #[trigger] after.directories.dom().contains(key),
    ensures
        parents_exist(after),
{
    assert forall|other: Seq<char>, full: Seq<char>, above: Seq<char>|
        (after.files.dom().contains((other, full)) || after.directories.dom().contains(
            (other, full),
        )) && #[trigger] path::is_parent(above, full) implies #[trigger] after.directories.dom().contains(
            (other, above),
        ) by {
        if state.files.dom().contains((other, full)) || state.directories.dom().contains(
            (other, full),
        ) {
            assert(state.directories.dom().contains((other, above)));
        } else if full != remote_path {
            parent_of_parent(above, full, remote_path);
        }
    }
}

/// Whether applications and processes agree: an application runs exactly when
/// it has a process, and every process belongs to the application that has it.
pub open spec fn processes_match_apps(state: RuntimeView) -> bool {
    &&& forall|key: model::DeviceName| #[trigger]
        state.apps.dom().contains(key) ==> {
            let app = state.apps[key];
            &&& (app.pid is Some) == (app.state == AppState::Running)
            &&& app.pid matches Some(pid) ==> {
                &&& pid < state.next_pid
                &&& state.processes.dom().contains((key.0, pid))
                &&& state.processes[(key.0, pid)].app_id == Some(key.1)
            }
        }
    &&& forall|key: (Seq<char>, u32)| #[trigger]
        state.processes.dom().contains(key) ==> {
            let process = state.processes[key];
            &&& process.pid == key.1
            &&& process.app_id matches Some(app_id) && state.apps.dom().contains((key.0, app_id))
                && state.apps[(key.0, app_id)].pid == Some(key.1)
        }
}

/// Every request keeps applications and processes in agreement, as long as
/// process numbers are left.
pub proof fn requests_keep_processes_and_apps_in_agreement(state: RuntimeView, request: Request)
    requires
        processes_match_apps(state),
        state.next_pid < u32::MAX,
    ensures
        processes_match_apps(next(state, request)),
{
    match request {
        Request::Start(params) => start_keeps_agreement(state, params),
        Request::Stop(params) => stop_keeps_agreement(state, params),
        Request::Restart(params) => {
            stop_keeps_agreement(state, params);
            start_keeps_agreement(model::stop(state, params).0, params);
        },
        Request::Install(params, bundle) => install_keeps_agreement(state, params, bundle),
        Request::Rollback(params) => rollback_keeps_agreement(state, params),
        Request::Uninstall(params) => uninstall_keeps_agreement(state, params),
        Request::Signal(params) => signal_keeps_agreement(state, params),
        Request::Connected(serial) => {},
        Request::Push(params, source) => {},
        Request::Pull(params, absolute) => {},
        Request::Mkdir(params) => {},
    }
}

proof fn install_keeps_agreement(
    state: RuntimeView,
    params: AppInstallParamsView,
    bundle: HostBundleView,
)
    requires
        processes_match_apps(state),
    ensures
        processes_match_apps(model::install(state, params, bundle).0),
{
}

proof fn rollback_keeps_agreement(state: RuntimeView, params: AppTargetParamsView)
    requires
        processes_match_apps(state),
    ensures
        processes_match_apps(model::rollback(state, params).0),
{
}

proof fn uninstall_keeps_agreement(state: RuntimeView, params: AppTargetParamsView)
    requires
        processes_match_apps(state),
    ensures
        processes_match_apps(model::uninstall(state, params).0),
{
}

proof fn signal_keeps_agreement(state: RuntimeView, params: ProcessSignalParamsView)
    requires
        processes_match_apps(state),
    ensures
        processes_match_apps(model::signal(state, params).0),
{
}

proof fn start_keeps_agreement(state: RuntimeView, params: AppTargetParamsView)
    requires
        processes_match_apps(state),
        state.next_pid < u32::MAX,
    ensures
        processes_match_apps(model::start(state, params).0),
{
}

proof fn stop_keeps_agreement(state: RuntimeView, params: AppTargetParamsView)
    requires
        processes_match_apps(state),
    ensures
        processes_match_apps(model::stop(state, params).0),
{
}

/// Before any request everything agrees.
pub proof fn empty_state_is_consistent()
    ensures
        logs_in_order(RuntimeView::empty()),
        parents_exist(RuntimeView::empty()),
        processes_match_apps(RuntimeView::empty()),
{
    assert(RuntimeView::empty().logs.dom() =~= RuntimeView::empty().next_log_cursor.dom());
}

/// A pull gives back the bytes that the last accepted push of its path stored.
pub proof fn pull_returns_what_was_pushed(
    state: RuntimeView,
    push: SyncPushParamsView,
    source: HostFileView,
    pull: SyncPullParamsView,
)
    requires
        model::push(state, push, source).1 is Ok,
        pull.serial == push.serial,
        pull.remote_path == push.remote_path,
        pull.transfer_id is None,
        1 <= pull.block_size <= model::MAX_SYNC_BLOCK_SIZE,
    ensures
        ({
            let stored = model::push(state, push, source).0;
            let answer = model::pull(stored, pull, true).1;
            &&& source matches HostFileView::Content(bytes)
            &&& answer matches Ok(delivery)
            &&& delivery.data == bytes
            &&& delivery.result.total_size == bytes.len() as u64
            &&& delivery.result.received_size == bytes.len() as u64
        }),
{
}

/// Repeating an accepted push under its transfer identifier is accepted with
/// the same answer, and changes no file, directory or transfer.
pub proof fn push_retry_is_idempotent(
    state: RuntimeView,
    push: SyncPushParamsView,
    source: HostFileView,
)
    requires
        model::push(state, push, source).1 is Ok,
    ensures
        ({
            let first = model::push(state, push, source);
            let retry = SyncPushParamsView {
                transfer_id: Some(first.1->Ok_0.transfer_id),
                ..push
            };
            let second = model::push(first.0, retry, source);
            &&& second.1 == first.1
            &&& second.0.files == first.0.files
            &&& second.0.directories == first.0.directories
            &&& second.0.transfers == first.0.transfers
            &&& second.0.next_transfer == first.0.next_transfer
        }),
{
    let first = model::push(state, push, source);
    let retry = SyncPushParamsView { transfer_id: Some(first.1->Ok_0.transfer_id), ..push };
    let second = model::push(first.0, retry, source);
    not_its_own_parent(push.remote_path);
    assert(!first.0.directories.dom().contains((push.serial, push.remote_path)));
    assert(second.0.files =~= first.0.files);
    assert(second.0.directories =~= first.0.directories);
}

proof fn not_its_own_parent(full: Seq<char>)
    ensures
        !path::is_parent(full, full),
{
    assert forall|i: int| 0 <= i < full.len() implies #[trigger] full.take(i) != full by {
        assert(full.take(i).len() == i);
    }
}

/// Continuing a transfer with other bytes is refused as an invalid state and
/// changes nothing.
pub proof fn push_retry_detects_source_changes(
    state: RuntimeView,
    push: SyncPushParamsView,
    source: HostFileView,
    changed: Seq<u8>,
)
    requires
        model::push(state, push, source).1 is Ok,
        source != HostFileView::Content(changed),
    ensures
        ({
            let first = model::push(state, push, source);
            let retry = SyncPushParamsView {
                transfer_id: Some(first.1->Ok_0.transfer_id),
                ..push
            };
            let second = model::push(first.0, retry, HostFileView::Content(changed));
            &&& second.1 matches Err(error)
            &&& error.code == ErrorCode::InvalidState
            &&& second.0 == first.0
        }),
{
}

/// The state after several requests, one behind the other.
pub open spec fn after_all(state: RuntimeView, requests: Seq<Request>) -> RuntimeView
    decreases requests.len(),
{
    if requests.len() == 0 {
        state
    } else {
        next(after_all(state, requests.drop_last()), requests.last())
    }
}

/// Whether none of the requests, one behind the other, stores a file at this path:
/// every push to it is refused.
pub open spec fn none_stores(
    state: RuntimeView,
    requests: Seq<Request>,
    serial: Seq<char>,
    remote_path: Seq<char>,
) -> bool {
    forall|i: int|
        0 <= i < requests.len() ==> ((#[trigger] requests[i]) matches Request::Push(params, source)
            ==> params.serial != serial || params.remote_path != remote_path || model::push(
            after_all(state, requests.take(i)),
            params,
            source,
        ).1 is Err)
}

/// What was pushed stays until another push to its path is accepted: whatever else is
/// requested in between, a pull gives back the pushed bytes.
pub proof fn pushed_files_stay(
    state: RuntimeView,
    push: SyncPushParamsView,
    source: HostFileView,
    requests: Seq<Request>,
    pull: SyncPullParamsView,
)
    requires
        model::push(state, push, source).1 is Ok,
        none_stores(
            model::push(state, push, source).0,
            requests,
            push.serial,
            push.remote_path,
        ),
        pull.serial == push.serial,
        pull.remote_path == push.remote_path,
        pull.transfer_id is None,
        1 <= pull.block_size <= model::MAX_SYNC_BLOCK_SIZE,
    ensures
        ({
            let between = after_all(model::push(state, push, source).0, requests);
            let answer = model::pull(between, pull, true).1;
            &&& source matches HostFileView::Content(bytes)
            &&& answer matches Ok(delivery)
            &&& delivery.data == bytes
            &&& delivery.result.total_size == bytes.len() as u64
            &&& delivery.result.received_size == bytes.len() as u64
        }),
{
    requests_keep_file(
        model::push(state, push, source).0,
        requests,
        push.serial,
        push.remote_path,
    );
}

proof fn requests_keep_file(
    state: RuntimeView,
    requests: Seq<Request>,
    serial: Seq<char>,
    remote_path: Seq<char>,
)
    requires
        state.files.dom().contains((serial, remote_path)),
        none_stores(state, requests, serial, remote_path),
    ensures
        after_all(state, requests).files.dom().contains((serial, remote_path)),
        after_all(state, requests).files[(serial, remote_path)] == state.files[(
            serial,
            remote_path,
        )],
    decreases requests.len(),
{
    if requests.len() > 0 {
        let earlier = requests.drop_last();
        assert forall|i: int| 0 <= i < earlier.len() implies (#[trigger] earlier[i] matches
            Request::Push(params, source) ==> params.serial != serial || params.remote_path
            != remote_path || model::push(after_all(state, earlier.take(i)), params, source).1
            is Err) by {
            assert(earlier[i] == requests[i]);
            assert(earlier.take(i) =~= requests.take(i));
        }
        requests_keep_file(state, earlier, serial, remote_path);
        let last = requests.len() - 1;
        assert(requests.last() == requests[last]);
        assert(requests.take(last) =~= earlier);
    }
}

/// No request takes a transfer away or changes one, unless it has the identifier that
/// the next transfer gets; no request takes a directory away.
proof fn request_keeps_transfers(state: RuntimeView, request: Request, id: Seq<char>)
    requires
        state.transfers.dom().contains(id),
        id != state.next_id("push"@),
        id != state.next_id("pull"@),
    ensures
        ({
            let after = next(state, request);
            &&& after.transfers.dom().contains(id)
            &&& after.transfers[id] == state.transfers[id]
            &&& after.next_transfer >= state.next_transfer
            &&& forall|key: (Seq<char>, Seq<char>)| #[trigger]
                state.directories.dom().contains(key) ==> after.directories.dom().contains(key)
        }),
{
}

/// The identifier of a push differs from that of every transfer with a greater number.
proof fn later_ids_differ(state: RuntimeView, number: u64)
    requires
        number < state.next_transfer,
    ensures
        "push"@ + "-"@ + number::decimal(number as nat) != state.next_id("push"@),
        "push"@ + "-"@ + number::decimal(number as nat) != state.next_id("pull"@),
{
    reveal_strlit("push");
    reveal_strlit("pull");
    reveal_strlit("-");
    let id = "push"@ + "-"@ + number::decimal(number as nat);
    if id == state.next_id("push"@) {
        let next_number = number::decimal(state.next_transfer as nat);
        assert(id.skip(5) =~= number::decimal(number as nat));
        assert(state.next_id("push"@).skip(5) =~= next_number);
        number::decimal_injective(number as nat, state.next_transfer as nat);
    }
    assert(id[2] == 's');
    assert(state.next_id("pull"@)[2] == 'l');
}

/// A transfer under a number that is taken stays as it is, whatever is requested.
proof fn requests_keep_transfer(state: RuntimeView, requests: Seq<Request>, number: u64)
    requires
        number < state.next_transfer,
        state.transfers.dom().contains("push"@ + "-"@ + number::decimal(number as nat)),
    ensures
        ({
            let id = "push"@ + "-"@ + number::decimal(number as nat);
            let after = after_all(state, requests);
            &&& number < after.next_transfer
            &&& after.transfers.dom().contains(id)
            &&& after.transfers[id] == state.transfers[id]
            &&& forall|key: (Seq<char>, Seq<char>)| #[trigger]
                state.directories.dom().contains(key) ==> after.directories.dom().contains(key)
        }),
    decreases requests.len(),
{
    if requests.len() > 0 {
        let id = "push"@ + "-"@ + number::decimal(number as nat);
        let before = after_all(state, requests.drop_last());
        requests_keep_transfer(state, requests.drop_last(), number);
        later_ids_differ(before, number);
        request_keeps_transfers(before, requests.last(), id);
    }
}

/// Whatever is requested in between, repeating an accepted push under its transfer
/// identifier is accepted with the same answer, as long as its path has not become a
/// directory. The file has the pushed bytes again, and nothing else on the device
/// changes but its log.
pub proof fn push_retry_stays_idempotent(
    state: RuntimeView,
    push: SyncPushParamsView,
    source: HostFileView,
    requests: Seq<Request>,
)
    requires
        push.transfer_id is None,
        model::push(state, push, source).1 is Ok,
        state.next_transfer < u64::MAX,
        !after_all(model::push(state, push, source).0, requests).directories.dom().contains(
            (push.serial, push.remote_path),
        ),
    ensures
        ({
            let first = model::push(state, push, source);
            let between = after_all(first.0, requests);
            let retry = SyncPushParamsView {
                transfer_id: Some(first.1->Ok_0.transfer_id),
                ..push
            };
            let second = model::push(between, retry, source);
            &&& second.1 == first.1
            &&& second.0.files == between.files.insert(
                (push.serial, push.remote_path),
                source->Content_0,
            )
            &&& second.0.directories == between.directories
            &&& second.0.transfers == between.transfers
            &&& second.0.next_transfer == between.next_transfer
            &&& second.0.apps == between.apps
            &&& second.0.processes == between.processes
        }),
{
    let first = model::push(state, push, source);
    let between = after_all(first.0, requests);
    let retry = SyncPushParamsView { transfer_id: Some(first.1->Ok_0.transfer_id), ..push };
    let second = model::push(between, retry, source);
    requests_keep_transfer(first.0, requests, state.next_transfer);
    assert forall|above: Seq<char>| #[trigger] path::is_parent(
        above,
        push.remote_path,
    ) implies between.directories.dom().contains((push.serial, above)) by {
        assert(first.0.directories.dom().contains((push.serial, above)));
    }
    assert(second.0.directories =~= between.directories);
}

/// Whatever is requested in between, continuing a transfer with other bytes, of the
/// same length or not, is refused as an invalid state and changes nothing.
pub proof fn push_retry_still_detects_source_changes(
    state: RuntimeView,
    push: SyncPushParamsView,
    source: HostFileView,
    requests: Seq<Request>,
    changed: Seq<u8>,
)
    requires
        push.transfer_id is None,
        model::push(state, push, source).1 is Ok,
        state.next_transfer < u64::MAX,
        source != HostFileView::Content(changed),
    ensures
        ({
            let first = model::push(state, push, source);
            let between = after_all(first.0, requests);
            let retry = SyncPushParamsView {
                transfer_id: Some(first.1->Ok_0.transfer_id),
                ..push
            };
            let second = model::push(between, retry, HostFileView::Content(changed));
            &&& second.1 matches Err(error)
            &&& error.code == ErrorCode::InvalidState
            &&& second.0 == between
        }),
{
    requests_keep_transfer(model::push(state, push, source).0, requests, state.next_transfer);
}

/// A refused request on an application, a process or a directory changes
/// nothing: a failed rollback, in particular, keeps the installed application.
pub proof fn refused_requests_change_nothing(
    state: RuntimeView,
    target: AppTargetParamsView,
    signal: ProcessSignalParamsView,
    directory: SyncMkdirParamsView,
    install: AppInstallParamsView,
    bundle: HostBundleView,
)
    ensures
        model::start(state, target).1 is Err ==> model::start(state, target).0 == state,
        model::stop(state, target).1 is Err ==> model::stop(state, target).0 == state,
        model::restart(state, target).1 is Err ==> model::restart(state, target).0 == state,
        model::rollback(state, target).1 is Err ==> model::rollback(state, target).0 == state,
        model::uninstall(state, target).1 is Err ==> model::uninstall(state, target).0 == state,
        model::signal(state, signal).1 is Err ==> model::signal(state, signal).0 == state,
        model::mkdir(state, directory).1 is Err ==> model::mkdir(state, directory).0 == state,
        model::install(state, install, bundle).1 is Err ==> model::install(
            state,
            install,
            bundle,
        ).0 == state,
{
}

/// Installing the bundle that is already installed changes no application, no
/// process and no file.
pub proof fn reinstalling_is_idempotent(
    state: RuntimeView,
    params: AppInstallParamsView,
    id: Seq<char>,
    version: Seq<char>,
    bundle_root: Seq<char>,
)
    requires
        state.apps.dom().contains((params.serial, id)),
        state.apps[(params.serial, id)].bundle_root == bundle_root,
    ensures
        ({
            let bundle = HostBundleView::Verified { application: true, id, version, bundle_root };
            let after = model::install(state, params, bundle);
            &&& after.1 == Ok::<_, rpc_error::RpcErrorView>(
                model::summary(state.apps[(params.serial, id)], id),
            )
            &&& after.0.apps == state.apps
            &&& after.0.processes == state.processes
            &&& after.0.files == state.files
        }),
{
    let bundle = HostBundleView::Verified { application: true, id, version, bundle_root };
    assert(model::install(state, params, bundle).0.apps =~= state.apps);
}

/// A rollback after the installation of another bundle returns to the earlier
/// bundle and its history, stopped, and touches no other application.
pub proof fn rollback_undoes_an_installation(
    state: RuntimeView,
    params: AppInstallParamsView,
    id: Seq<char>,
    version: Seq<char>,
    bundle_root: Seq<char>,
)
    requires
        state.apps.dom().contains((params.serial, id)),
        state.apps[(params.serial, id)].bundle_root != bundle_root,
    ensures
        ({
            let bundle = HostBundleView::Verified { application: true, id, version, bundle_root };
            let installed = model::install(state, params, bundle).0;
            let target = AppTargetParamsView { serial: params.serial, app_id: id };
            let back = model::rollback(installed, target);
            let before = state.apps[(params.serial, id)];
            &&& back.1 matches Ok(summary) && summary.version == before.version
            &&& back.0.apps == state.apps.insert(
                (params.serial, id),
                AppRuntimeView { state: AppState::Stopped, pid: None, ..before },
            )
        }),
{
    let bundle = HostBundleView::Verified { application: true, id, version, bundle_root };
    let installed = model::install(state, params, bundle).0;
    let target = AppTargetParamsView { serial: params.serial, app_id: id };
    let back = model::rollback(installed, target);
    let before = state.apps[(params.serial, id)];
    let now = back.0.apps[(params.serial, id)];
    assert(now.history =~= before.history);
    assert(back.0.apps =~= state.apps.insert(
        (params.serial, id),
        AppRuntimeView { state: AppState::Stopped, pid: None, ..before },
    ));
}

/// A repeated rollback goes further back, never forward again: each one drops
/// the latest entry of the history, and without history it is refused.
pub proof fn rollback_never_goes_forward(state: RuntimeView, target: AppTargetParamsView)
    requires
        state.apps.dom().contains((target.serial, target.app_id)),
    ensures
        ({
            let app = state.apps[(target.serial, target.app_id)];
            let after = model::rollback(state, target);
            &&& after.1 is Ok <==> app.history.len() > 0
            &&& after.1 is Ok ==> after.0.apps[(target.serial, target.app_id)].history
                == app.history.drop_last()
            &&& after.1 matches Err(error) ==> error.code == ErrorCode::NoRollbackAvailable
        }),
{
}

/// Once removed, an application is no longer found.
pub proof fn uninstalled_app_is_gone(state: RuntimeView, target: AppTargetParamsView)
    ensures
        ({
            let after = model::uninstall(state, target).0;
            &&& !after.apps.dom().contains((target.serial, target.app_id))
            &&& model::start(after, target).1 matches Err(error) && error.code
                == ErrorCode::AppNotFound
        }),
{
}

/// Starting a stopped application lists its process; stopping it afterwards
/// takes the process away again.
pub proof fn stop_undoes_start(state: RuntimeView, target: AppTargetParamsView)
    requires
        state.apps.dom().contains((target.serial, target.app_id)),
        state.apps[(target.serial, target.app_id)].state == AppState::Stopped,
        state.apps[(target.serial, target.app_id)].pid is None,
        !state.processes.dom().contains((target.serial, state.next_pid)),
    ensures
        ({
            let started = model::start(state, target);
            let stopped = model::stop(started.0, target);
            &&& started.1 matches Ok(summary) && summary.pid == Some(state.next_pid)
                && summary.state == AppState::Running
            &&& started.0.processes.dom().contains((target.serial, state.next_pid))
            &&& stopped.1 matches Ok(summary) && summary.pid is None && summary.state
                == AppState::Stopped
            &&& stopped.0.processes == state.processes
            &&& stopped.0.apps == state.apps
        }),
{
    let started = model::start(state, target);
    let stopped = model::stop(started.0, target);
    assert(stopped.0.processes =~= state.processes);
    assert(stopped.0.apps =~= state.apps);
}

/// A restarted application has another process, as long as process numbers are
/// left.
pub proof fn restart_changes_the_process(state: RuntimeView, target: AppTargetParamsView)
    requires
        processes_match_apps(state),
        state.apps.dom().contains((target.serial, target.app_id)),
    ensures
        ({
            let before = state.apps[(target.serial, target.app_id)].pid;
            let after = model::restart(state, target).1;
            &&& after matches Ok(summary)
            &&& summary.state == AppState::Running
            &&& summary.pid is Some
            &&& summary.pid != before
        }),
{
}

/// A process that was killed is no longer found, and its application is stopped.
pub proof fn killed_process_is_gone(state: RuntimeView, signal: ProcessSignalParamsView)
    requires
        processes_match_apps(state),
        model::signal(state, signal).1 is Ok,
        model::signal_named(signal.signal) == Some(model::ProcessSignal::Kill)
            || model::signal_named(signal.signal) == Some(model::ProcessSignal::Term),
    ensures
        ({
            let after = model::signal(state, signal).0;
            let app_id = state.processes[(signal.serial, signal.pid)].app_id->Some_0;
            &&& model::signal(after, signal).1 matches Err(error) && error.code
                == ErrorCode::ProcessNotFound
            &&& after.apps.dom().contains((signal.serial, app_id))
            &&& after.apps[(signal.serial, app_id)].state == AppState::Stopped
            &&& after.apps[(signal.serial, app_id)].pid is None
        }),
{
}

/// Following the cursor of a page gives exactly the rest of the listing: pages
/// repeat nothing and leave nothing out.
pub proof fn next_page_continues_the_listing(
    state: RuntimeView,
    serial: Seq<char>,
    prefix: Seq<char>,
    cursor: Option<Seq<char>>,
    entries: Seq<SyncEntryView>,
    limit: int,
)
    requires
        model::is_listing(state, serial, prefix, cursor, entries),
        0 < limit < entries.len(),
    ensures
        model::is_listing(
            state,
            serial,
            prefix,
            Some(entries[limit - 1].name),
            entries.skip(limit),
        ),
{
    let last = entries[limit - 1].name;
    let rest = entries.skip(limit);
    assert forall|name: Seq<char>| #[trigger]
        model::listed(state, serial, prefix, Some(last), name) implies exists|i: int|
        0 <= i < rest.len() && (#[trigger] rest[i]).name == name by {
        if let Some(earlier) = cursor {
            assert(model::listed(state, serial, prefix, cursor, last));
            text::before_transitive(earlier, last, name);
        }
        assert(model::listed(state, serial, prefix, cursor, name));
        let i = choose|i: int| 0 <= i < entries.len() && (#[trigger] entries[i]).name == name;
        if i < limit - 1 {
            text::before_asymmetric(entries[i].name, last);
        } else if i == limit - 1 {
            text::before_irreflexive(last);
        }
        assert(rest[i - limit].name == name);
    }
    assert forall|i: int| 0 <= i < rest.len() implies model::listed(
        state,
        serial,
        prefix,
        Some(last),
        (#[trigger] rest[i]).name,
    ) by {
        assert(rest[i] == entries[i + limit]);
        assert(model::listed(state, serial, prefix, cursor, entries[i + limit].name));
    }
}

/// A directory has one listing only.
pub proof fn listing_is_unique(
    state: RuntimeView,
    serial: Seq<char>,
    prefix: Seq<char>,
    cursor: Option<Seq<char>>,
    left: Seq<SyncEntryView>,
    right: Seq<SyncEntryView>,
)
    requires
        model::is_listing(state, serial, prefix, cursor, left),
        model::is_listing(state, serial, prefix, cursor, right),
    ensures
        left == right,
{
    assert forall|i: int| 0 <= i < left.len() && i < right.len() implies left[i] == right[i] by {
        listing_prefix(state, serial, prefix, cursor, left, right, i);
    }
    listing_is_complete(state, serial, prefix, cursor, left, right);
    listing_is_complete(state, serial, prefix, cursor, right, left);
    assert(left =~= right);
}

proof fn listing_prefix(
    state: RuntimeView,
    serial: Seq<char>,
    prefix: Seq<char>,
    cursor: Option<Seq<char>>,
    left: Seq<SyncEntryView>,
    right: Seq<SyncEntryView>,
    i: int,
)
    requires
        model::is_listing(state, serial, prefix, cursor, left),
        model::is_listing(state, serial, prefix, cursor, right),
        0 <= i < left.len(),
        i < right.len(),
    ensures
        left[i] == right[i],
    decreases i,
{
    assert forall|k: int| 0 <= k < i implies left[k] == right[k] by {
        listing_prefix(state, serial, prefix, cursor, left, right, k);
    }
    assert(model::listed(state, serial, prefix, cursor, left[i].name));
    assert(model::listed(state, serial, prefix, cursor, right[i].name));
    let a = choose|a: int| 0 <= a < right.len() && (#[trigger] right[a]).name == left[i].name;
    let b = choose|b: int| 0 <= b < left.len() && (#[trigger] left[b]).name == right[i].name;
    if a < i {
        assert(left[a] == right[a]);
        text::before_irreflexive(left[i].name);
        assert(text::before(left[a].name, left[i].name));
    }
    if b < i {
        assert(left[b] == right[b]);
        text::before_irreflexive(right[i].name);
        assert(text::before(right[b].name, right[i].name));
    }
    if a > i && b > i {
        assert(text::before(right[i].name, right[a].name));
        assert(text::before(left[i].name, left[b].name));
        text::before_asymmetric(right[i].name, left[i].name);
    }
    assert(left[i].name == right[i].name);
}

proof fn listing_is_complete(
    state: RuntimeView,
    serial: Seq<char>,
    prefix: Seq<char>,
    cursor: Option<Seq<char>>,
    short: Seq<SyncEntryView>,
    long: Seq<SyncEntryView>,
)
    requires
        model::is_listing(state, serial, prefix, cursor, short),
        model::is_listing(state, serial, prefix, cursor, long),
        forall|i: int| 0 <= i < short.len() && i < long.len() ==> short[i] == long[i],
    ensures
        long.len() <= short.len(),
{
    if short.len() < long.len() {
        let extra = long[short.len() as int].name;
        assert(model::listed(state, serial, prefix, cursor, extra));
        let i = choose|i: int| 0 <= i < short.len() && (#[trigger] short[i]).name == extra;
        assert(long[i].name == extra);
        text::before_irreflexive(extra);
        assert(text::before(long[i].name, long[short.len() as int].name));
    }
}

/// Reading on from the cursor of a snapshot gives exactly the lines that it
/// left out, as long as cursors are left.
pub proof fn log_snapshots_continue(
    lines: Seq<LogEntryView>,
    next_cursor: u64,
    start: u64,
    limit: u32,
)
    requires
        lines_in_order(lines, next_cursor),
        lines.last().cursor < u64::MAX,
        limit > 0,
        model::lines_from(lines, start).len() > limit,
    ensures
        model::lines_from(lines, model::snapshot(lines, start, limit).next_cursor)
            == model::lines_from(lines, start).skip(limit as int),
{
    let last = model::lines_from(lines, start)[limit - 1];
    assert(model::snapshot(lines, start, limit).entries
        =~= model::lines_from(lines, start).take(limit as int));
    assert(model::snapshot(lines, start, limit).next_cursor == model::after(last.cursor));
    cursors_are_consecutive(lines, next_cursor);
    assert(ascending(lines)) by {
        assert forall|i: int, j: int| 0 <= i < j < lines.len() implies (#[trigger] lines[i]).cursor
            < (#[trigger] lines[j]).cursor by {
            assert(lines[i].cursor == lines.last().cursor - (lines.len() - 1 - i));
            assert(lines[j].cursor == lines.last().cursor - (lines.len() - 1 - j));
        }
    }
    lines_after_a_cursor(lines, start, limit as int);
}

/// Whether the cursors of log lines strictly ascend.
pub open spec fn ascending(lines: Seq<LogEntryView>) -> bool {
    forall|i: int, j: int|
        0 <= i < j < lines.len() ==> (#[trigger] lines[i]).cursor < (#[trigger] lines[j]).cursor
}

proof fn lines_after_a_cursor(lines: Seq<LogEntryView>, start: u64, count: int)
    requires
        ascending(lines),
        0 < count < model::lines_from(lines, start).len(),
    ensures
        ({
            let matching = model::lines_from(lines, start);
            model::lines_from(lines, model::after(matching[count - 1].cursor)) == matching.skip(
                count,
            )
        }),
{
    let matching = model::lines_from(lines, start);
    let skipped = lines.len() - matching.len();
    lines_from_is_a_suffix(lines, start);
    let last = lines[skipped + count - 1];
    let first = lines[skipped + count];
    assert(matching[count - 1] == last);
    assert(last.cursor < first.cursor);
    let following = (last.cursor + 1) as u64;
    lines_from_is_a_suffix(lines, following);
    let rest = model::lines_from(lines, following);
    assert(first.cursor >= following);
    assert(lines.len() - rest.len() == skipped + count);
    assert(rest =~= matching.skip(count));
}

proof fn cursors_are_consecutive(lines: Seq<LogEntryView>, next_cursor: u64)
    requires
        lines_in_order(lines, next_cursor),
        lines.last().cursor < u64::MAX,
    ensures
        forall|i: int|
            0 <= i < lines.len() ==> (#[trigger] lines[i]).cursor == lines.last().cursor - (
            lines.len() - 1 - i),
{
    assert forall|i: int| 0 <= i < lines.len() implies (#[trigger] lines[i]).cursor
        == lines.last().cursor - (lines.len() - 1 - i) by {
        cursor_from_the_end(lines, next_cursor, i);
    }
}

proof fn cursor_from_the_end(lines: Seq<LogEntryView>, next_cursor: u64, i: int)
    requires
        lines_in_order(lines, next_cursor),
        lines.last().cursor < u64::MAX,
        0 <= i < lines.len(),
    ensures
        lines[i].cursor == lines.last().cursor - (lines.len() - 1 - i),
    decreases lines.len() - i,
{
    if i < lines.len() - 1 {
        cursor_from_the_end(lines, next_cursor, i + 1);
        assert(lines[i + 1].cursor == model::after(lines[i].cursor));
    }
}

proof fn lines_from_is_a_suffix(lines: Seq<LogEntryView>, start: u64)
    requires
        ascending(lines),
    ensures
        model::lines_from(lines, start).len() <= lines.len(),
        model::lines_from(lines, start) == lines.skip(
            lines.len() - model::lines_from(lines, start).len(),
        ),
        forall|i: int|
            0 <= i < lines.len() ==> ((#[trigger] lines[i]).cursor >= start <==> i >= lines.len()
                - model::lines_from(lines, start).len()),
    decreases lines.len(),
{
    if lines.len() > 0 {
        let head = lines.drop_last();
        lines_from_is_a_suffix(head, start);
        let tail = model::lines_from(head, start);
        if lines.last().cursor >= start {
            assert(tail.push(lines.last()) =~= lines.skip(lines.len() - tail.len() - 1));
        } else {
            if tail.len() > 0 {
                assert(head[head.len() - 1].cursor >= start);
                assert(lines[lines.len() - 2].cursor < lines[lines.len() - 1].cursor);
            }
            assert(tail =~= lines.skip(lines.len() as int));
        }
        assert forall|i: int| 0 <= i < lines.len() implies ((#[trigger] lines[i]).cursor >= start
            <==> i >= lines.len() - model::lines_from(lines, start).len()) by {
            if i < head.len() {
                assert(head[i] == lines[i]);
            }
        }
    } else {
        assert(lines =~= lines.skip(0));
    }
}

/// Whether a request is about an application. A signal can end a process of any
/// application on its device.
pub open spec fn concerns_app(request: Request, serial: Seq<char>, app_id: Seq<char>) -> bool {
    match request {
        Request::Install(params, bundle) => params.serial == serial && (
        bundle matches HostBundleView::Verified { application: _, id, version: _, bundle_root: _ }
            && id == app_id),
        Request::Start(params) => params.serial == serial && params.app_id == app_id,
        Request::Stop(params) => params.serial == serial && params.app_id == app_id,
        Request::Restart(params) => params.serial == serial && params.app_id == app_id,
        Request::Rollback(params) => params.serial == serial && params.app_id == app_id,
        Request::Uninstall(params) => params.serial == serial && params.app_id == app_id,
        Request::Signal(params) => params.serial == serial,
        _ => false,
    }
}

/// Whether a map says the same of a key before and after.
pub open spec fn same_at<K, V>(before: Map<K, V>, after: Map<K, V>, key: K) -> bool {
    &&& after.dom().contains(key) == before.dom().contains(key)
    &&& before.dom().contains(key) ==> after[key] == before[key]
}

/// A request leaves every application alone that it is not about: no version of it is
/// installed, rolled back or removed, and it is not started or stopped.
pub proof fn other_applications_are_left_alone(
    state: RuntimeView,
    request: Request,
    serial: Seq<char>,
    app_id: Seq<char>,
)
    requires
        !concerns_app(request, serial, app_id),
    ensures
        same_at(state.apps, next(state, request).apps, (serial, app_id)),
{
}

/// A request leaves every file alone but the one that it pushes.
pub proof fn other_files_are_left_alone(
    state: RuntimeView,
    request: Request,
    serial: Seq<char>,
    remote_path: Seq<char>,
)
    requires
        request matches Request::Push(params, _) ==> params.serial != serial || params.remote_path
            != remote_path,
    ensures
        same_at(state.files, next(state, request).files, (serial, remote_path)),
{
}

/// A directory that was made is there, with everything that was there before, and no
/// file is touched; making it again finds it and changes nothing. Its listing is open
/// from then on, and no file takes its place.
pub proof fn made_directories_are_there(state: RuntimeView, params: SyncMkdirParamsView)
    requires
        model::mkdir(state, params).1 is Ok,
    ensures
        ({
            let key = (params.serial, params.remote_path);
            let after = model::mkdir(state, params).0;
            let answer = model::mkdir(state, params).1->Ok_0;
            let again = model::mkdir(after, params);
            &&& after.directories.dom().contains(key)
            &&& state.directories.dom().subset_of(after.directories.dom())
            &&& after.files == state.files
            &&& answer.remote_path == params.remote_path
            &&& answer.created <==> !state.directories.dom().contains(key)
            &&& again.1 matches Ok(found) && !found.created
            &&& !state.files.dom().contains(key)
            &&& model::list_refusal(
                after,
                SyncListParamsView {
                    serial: params.serial,
                    remote_path: params.remote_path,
                    cursor: None,
                    limit: 1,
                },
            ) is None
        }),
{
}

/// An accepted push can be looked up by the identifier that it was answered with, by
/// its own device and by no other: all of its bytes are there.
pub proof fn accepted_pushes_can_be_looked_up(
    state: RuntimeView,
    params: SyncPushParamsView,
    source: HostFileView,
    other: Seq<char>,
)
    requires
        model::push(state, params, source).1 is Ok,
        source->Content_0.len() <= u64::MAX,
    ensures
        ({
            let after = model::push(state, params, source).0;
            let answer = model::push(state, params, source).1->Ok_0;
            let looked_up = model::status(
                after,
                SyncStatusParamsView { serial: params.serial, transfer_id: answer.transfer_id },
            );
            &&& looked_up matches Ok(status) && {
                &&& status.transfer_id == answer.transfer_id
                &&& status.direction == TransferDirection::Push
                &&& status.remote_path == params.remote_path
                &&& status.total_size == source->Content_0.len()
                &&& status.next_offset == answer.accepted_offset
                &&& status.state == answer.state
            }
            &&& other != params.serial ==> model::status(
                after,
                SyncStatusParamsView { serial: other, transfer_id: answer.transfer_id },
            ) is Err
        }),
{
}

/// A signal reaches the process that it names: one that ends processes ends it, and any
/// other leaves it and its application as they are. A signal that does not exist, and
/// one to a process that does not, are refused and change nothing.
pub proof fn signals_reach_their_process(state: RuntimeView, params: ProcessSignalParamsView)
    ensures
        ({
            let key = (params.serial, params.pid);
            let ends = params.signal == "TERM"@ || params.signal == "KILL"@;
            let known = ends || params.signal == "INT"@ || params.signal == "HUP"@;
            let there = state.processes.dom().contains(key);
            let (after, answer) = model::signal(state, params);
            &&& answer is Ok <==> known && there
            &&& answer matches Ok(process) ==> process == state.processes[key]
            &&& answer is Ok ==> (ends <==> !after.processes.dom().contains(key))
            &&& !ends ==> after.processes == state.processes && after.apps == state.apps
            &&& answer is Err ==> after == state
            &&& after.files == state.files
            &&& !known ==> (answer matches Err(error) && error.code == ErrorCode::InvalidSignal)
            &&& known && !there ==> (answer matches Err(error) && error.code
                == ErrorCode::ProcessNotFound)
        }),
{
    reveal_strlit("TERM");
    reveal_strlit("KILL");
    reveal_strlit("INT");
    reveal_strlit("HUP");
    assert("TERM"@[0] == 'T');
    assert("KILL"@[0] == 'K');
    assert("INT"@[0] == 'I');
    assert("HUP"@[0] == 'H');
}

/// A log that is asked for without a cursor shows the latest lines: as many as there
/// are, up to the limit, and the last one is the one that was logged last.
pub proof fn latest_lines_are_shown(
    state: RuntimeView,
    serial: Seq<char>,
    source: Seq<char>,
    message: Seq<char>,
    limit: u32,
)
    requires
        logs_in_order(state),
        state.cursor_of(serial) < u64::MAX,
        1 <= limit <= 1000,
    ensures
        ({
            let after = state.logged(serial, source, message);
            let lines = after.log_of(serial);
            let shown = model::tail(
                after,
                LogTailParamsView { serial, cursor: None, limit: Some(limit) },
            );
            &&& lines.last().source == source
            &&& lines.last().message == message
            &&& shown matches Ok(snapshot) && {
                &&& snapshot.entries == lines.skip(
                    if lines.len() <= limit {
                        0
                    } else {
                        lines.len() - limit
                    },
                )
                &&& snapshot.entries.last() == lines.last()
                &&& !snapshot.has_more
                &&& snapshot.next_cursor == lines.last().cursor + 1
            }
        }),
{
    logged_in_order(state, serial, source, message);
    let after = state.logged(serial, source, message);
    let lines = after.log_of(serial);
    assert(after.logs.dom().contains(serial));
    assert(lines_in_order(lines, after.next_log_cursor[serial]));
    assert(lines.last().cursor == state.cursor_of(serial));
    latest_of_lines(lines, after.next_log_cursor[serial], limit);
}

proof fn latest_of_lines(lines: Seq<LogEntryView>, next_cursor: u64, limit: u32)
    requires
        lines_in_order(lines, next_cursor),
        lines.last().cursor < u64::MAX,
        1 <= limit,
    ensures
        ({
            let first: int = if lines.len() <= limit {
                0
            } else {
                lines.len() - limit
            };
            let snapshot = model::snapshot(lines, model::latest_start(lines, limit), limit);
            &&& snapshot.entries == lines.skip(first)
            &&& snapshot.entries.last() == lines.last()
            &&& !snapshot.has_more
            &&& snapshot.next_cursor == lines.last().cursor + 1
        }),
{
    let first: int = if lines.len() <= limit {
        0
    } else {
        lines.len() - limit
    };
    let start = model::latest_start(lines, limit);
    let matching = model::lines_from(lines, start);
    assert(start == lines[first].cursor && (first > 0 ==> lines[first - 1].cursor < start)) by {
        cursor_from_the_end(lines, next_cursor, 0);
        cursor_from_the_end(lines, next_cursor, first);
        if first > 0 {
            cursor_from_the_end(lines, next_cursor, first - 1);
        }
    }
    assert(ascending(lines)) by {
        assert forall|i: int, j: int| 0 <= i < j < lines.len() implies (#[trigger] lines[i]).cursor
            < (#[trigger] lines[j]).cursor by {
            cursor_from_the_end(lines, next_cursor, i);
            cursor_from_the_end(lines, next_cursor, j);
        }
    }
    lines_from_is_a_suffix(lines, start);
    assert(matching.len() == lines.len() - first) by {
        assert(lines[first].cursor >= start);
        if first > 0 {
            assert(!(lines[first - 1].cursor >= start));
        }
    }
    assert(matching == lines.skip(first));
    assert(matching.last() == lines.last());
}

/// An installed application is the bundle that was given, and it is listed; what was
/// installed before is what a rollback returns to.
pub proof fn installed_applications_are_listed(
    state: RuntimeView,
    params: AppInstallParamsView,
    bundle: HostBundleView,
    apps: Seq<AppSummaryView>,
)
    requires
        model::install(state, params, bundle).1 is Ok,
        model::is_app_list(model::install(state, params, bundle).0, params.serial, apps),
    ensures
        bundle matches HostBundleView::Verified { application, id, version, bundle_root } && {
            let key = (params.serial, id);
            let app = model::install(state, params, bundle).0.apps[key];
            &&& application
            &&& app.bundle_root == bundle_root
            &&& model::install(state, params, bundle).1->Ok_0.app_id == id
            &&& exists|i: int|
                0 <= i < apps.len() && #[trigger] apps[i] == model::install(
                    state,
                    params,
                    bundle,
                ).1->Ok_0
            &&& !state.apps.dom().contains(key) ==> app.version == version && app.history.len() == 0
            &&& state.apps.dom().contains(key) && state.apps[key].bundle_root != bundle_root ==> {
                &&& app.version == version
                &&& app.history.len() == state.apps[key].history.len() + 1
                &&& app.history.last().bundle_root == state.apps[key].bundle_root
                &&& app.history.last().version == state.apps[key].version
            }
        },
{
    let after = model::install(state, params, bundle).0;
    let id = bundle->Verified_id;
    assert(after.apps.dom().contains((params.serial, id)));
    let i = choose|i: int| 0 <= i < apps.len() && (#[trigger] apps[i]).app_id == id;
    assert(apps[i] == model::install(state, params, bundle).1->Ok_0);
}

/// The captured output of an application goes on where it was asked for as long as the
/// run is the same, and starts over with another run.
pub proof fn captured_output_belongs_to_a_run(state: RuntimeView, params: AppLogParamsView)
    ensures
        model::app_log(state, params) matches Ok(snapshot) ==> {
            let app = state.apps[(params.serial, params.app_id)];
            &&& snapshot.app_id == params.app_id
            &&& snapshot.state == app.state
            &&& snapshot.pid == app.pid
            &&& snapshot.reset <==> params.run_id != Some(snapshot.run_id)
            &&& !snapshot.reset ==> snapshot.stdout.cursor == params.stdout_cursor
                && snapshot.stderr.cursor == params.stderr_cursor
            &&& snapshot.reset ==> snapshot.stdout.cursor == 0 && snapshot.stderr.cursor == 0
            &&& snapshot.stdout.next_cursor == snapshot.stdout.cursor
            &&& snapshot.stderr.next_cursor == snapshot.stderr.cursor
        },
        model::app_log(state, params) is Ok <==> state.apps.dom().contains(
            (params.serial, params.app_id),
        ),
{
}

/// Different runs are told apart by their identifiers.
pub proof fn runs_are_told_apart(left: u32, right: u32)
    requires
        model::run_id(Some(left)) == model::run_id(Some(right)),
    ensures
        left == right,
{
    let a = number::decimal(left as nat);
    let b = number::decimal(right as nat);
    reveal_strlit("fake-");
    assert(model::run_id(Some(left)).skip(5) =~= a);
    assert(model::run_id(Some(right)).skip(5) =~= b);
    number::decimal_injective(left as nat, right as nat);
}

} // verus!
