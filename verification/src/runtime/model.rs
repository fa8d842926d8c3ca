//! What an in-memory device holds, and what each request makes of it.

use crate::model::{
    AppInstallParamsView, AppLogChunkView, AppLogParamsView, AppLogSnapshotView, AppState,
    AppSummaryView, AppTargetParamsView, LogEntryView, LogSnapshotView, LogTailParamsView,
    ProcessSignalParamsView, ProcessState, ProcessSummaryView, SyncEntryKind, SyncEntryView,
    SyncListParamsView, SyncListResultView, SyncMkdirParamsView, SyncMkdirResultView,
    SyncPullParamsView, SyncPullResultView, SyncPushParamsView, SyncPushResultView,
    SyncStatusParamsView, SyncStatusView, TransferDirection, TransferState,
};
use crate::number;
use crate::path;
use crate::rpc_error;
use crate::rpc_error::{ErrorCode, ErrorDetailView, RpcErrorView};
use crate::text;
use vstd::prelude::*;

verus! {

/// The largest block size of a transfer.
pub const MAX_SYNC_BLOCK_SIZE: u32 = 1048576;

/// The number of log lines that are kept of each device.
pub const MAX_LOG_ENTRIES: usize = 1024;

/// The largest number of log lines in one answer.
pub const MAX_LOG_SNAPSHOT: u32 = 1000;

/// The largest number of names in one page of a directory.
pub const MAX_LIST_LIMIT: u32 = 1024;

/// A transfer and the bytes that it moved.
#[derive(Debug)]
pub struct Transfer {
    pub serial: String,
    pub direction: TransferDirection,
    pub remote_path: String,
    pub total_size: u64,
    pub next_offset: u64,
    pub state: TransferState,
    pub data: Vec<u8>,
}

/// The model of [`Transfer`].
#[verifier::ext_equal]
pub struct TransferView {
    pub serial: Seq<char>,
    pub direction: TransferDirection,
    pub remote_path: Seq<char>,
    pub total_size: u64,
    pub next_offset: u64,
    pub state: TransferState,
    pub data: Seq<u8>,
}

impl View for Transfer {
    type V = TransferView;

    open spec fn view(&self) -> TransferView {
        TransferView {
            serial: self.serial@,
            direction: self.direction,
            remote_path: self.remote_path@,
            total_size: self.total_size,
            next_offset: self.next_offset,
            state: self.state,
            data: self.data@,
        }
    }
}

/// An installed bundle.
#[derive(Debug)]
pub struct AppVersion {
    pub version: String,
    pub bundle_root: String,
}

/// The model of [`AppVersion`].
#[verifier::ext_equal]
pub struct AppVersionView {
    pub version: Seq<char>,
    pub bundle_root: Seq<char>,
}

impl View for AppVersion {
    type V = AppVersionView;

    open spec fn view(&self) -> AppVersionView {
        AppVersionView {
            version: self.version@,
            bundle_root: self.bundle_root@,
        }
    }
}

/// The models of a sequence of [`AppVersion`].
pub open spec fn app_version_views(items: Seq<AppVersion>) -> Seq<AppVersionView> {
    Seq::new(items.len(), |i: int| items[i]@)
}

/// An installed application with its earlier bundles, latest last.
#[derive(Debug)]
pub struct AppRuntime {
    pub version: String,
    pub bundle_root: String,
    pub history: Vec<AppVersion>,
    pub state: AppState,
    pub pid: Option<u32>,
}

/// The model of [`AppRuntime`].
#[verifier::ext_equal]
pub struct AppRuntimeView {
    pub version: Seq<char>,
    pub bundle_root: Seq<char>,
    pub history: Seq<AppVersionView>,
    pub state: AppState,
    pub pid: Option<u32>,
}

impl View for AppRuntime {
    type V = AppRuntimeView;

    open spec fn view(&self) -> AppRuntimeView {
        AppRuntimeView {
            version: self.version@,
            bundle_root: self.bundle_root@,
            history: app_version_views(self.history@),
            state: self.state,
            pid: self.pid,
        }
    }
}

/// What the host found at a local path that a push reads.
#[derive(Debug)]
pub enum HostFile {
    /// The path is not absolute.
    NotAbsolute,
    /// Reading failed, with an error of this kind.
    Unreadable(String),
    /// The bytes of the file.
    Content(Vec<u8>),
}

/// The model of [`HostFile`].
#[verifier::ext_equal]
pub enum HostFileView {
    NotAbsolute,
    Unreadable(Seq<char>),
    Content(Seq<u8>),
}

impl View for HostFile {
    type V = HostFileView;

    open spec fn view(&self) -> HostFileView {
        match *self {
            HostFile::NotAbsolute => HostFileView::NotAbsolute,
            HostFile::Unreadable(kind) => HostFileView::Unreadable(kind@),
            HostFile::Content(bytes) => HostFileView::Content(bytes@),
        }
    }
}

/// What the host found at a local path that an installation reads.
#[derive(Debug)]
pub enum HostBundle {
    /// The path is not absolute.
    NotAbsolute,
    /// Opening failed, with an error of this kind.
    Unreadable(String),
    /// The bundle did not verify.
    Rejected { reason: String, detail: String },
    /// A verified bundle.
    Verified { application: bool, id: String, version: String, bundle_root: String },
}

/// The model of [`HostBundle`].
#[verifier::ext_equal]
pub enum HostBundleView {
    NotAbsolute,
    Unreadable(Seq<char>),
    Rejected { reason: Seq<char>, detail: Seq<char> },
    Verified { application: bool, id: Seq<char>, version: Seq<char>, bundle_root: Seq<char> },
}

impl View for HostBundle {
    type V = HostBundleView;

    open spec fn view(&self) -> HostBundleView {
        match *self {
            HostBundle::NotAbsolute => HostBundleView::NotAbsolute,
            HostBundle::Unreadable(kind) => HostBundleView::Unreadable(kind@),
            HostBundle::Rejected { reason, detail } => HostBundleView::Rejected {
                reason: reason@,
                detail: detail@,
            },
            HostBundle::Verified { application, id, version, bundle_root } =>
                HostBundleView::Verified {
                application,
                id: id@,
                version: version@,
                bundle_root: bundle_root@,
            },
        }
    }
}

/// A device serial and a name on that device.
pub type DeviceName = (Seq<char>, Seq<char>);

/// Everything that the in-memory devices hold.
#[verifier::ext_equal]
pub struct RuntimeView {
    pub next_transfer: u64,
    pub next_pid: u32,
    pub files: Map<DeviceName, Seq<u8>>,
    pub directories: Map<DeviceName, ()>,
    pub transfers: Map<Seq<char>, TransferView>,
    pub apps: Map<DeviceName, AppRuntimeView>,
    pub processes: Map<(Seq<char>, u32), ProcessSummaryView>,
    pub logs: Map<Seq<char>, Seq<LogEntryView>>,
    pub next_log_cursor: Map<Seq<char>, u64>,
}

/// The next number, or the same one at the end of the range.
pub open spec fn after(value: u64) -> u64 {
    if value == u64::MAX {
        value
    } else {
        (value + 1) as u64
    }
}

/// The next process number, or the same one at the end of the range.
pub open spec fn after_pid(value: u32) -> u32 {
    if value == u32::MAX {
        value
    } else {
        (value + 1) as u32
    }
}

impl RuntimeView {
    /// The state before any request.
    pub open spec fn empty() -> Self {
        RuntimeView {
            next_transfer: 1,
            next_pid: 2000,
            files: Map::empty(),
            directories: Map::empty(),
            transfers: Map::empty(),
            apps: Map::empty(),
            processes: Map::empty(),
            logs: Map::empty(),
            next_log_cursor: Map::empty(),
        }
    }

    /// The log lines of a device.
    pub open spec fn log_of(self, serial: Seq<char>) -> Seq<LogEntryView> {
        if self.logs.dom().contains(serial) {
            self.logs[serial]
        } else {
            Seq::empty()
        }
    }

    /// The cursor of the next log line of a device.
    pub open spec fn cursor_of(self, serial: Seq<char>) -> u64 {
        if self.next_log_cursor.dom().contains(serial) {
            self.next_log_cursor[serial]
        } else {
            1
        }
    }

    /// One more log line; the oldest one goes when there are too many.
    pub open spec fn logged(
        self,
        serial: Seq<char>,
        source: Seq<char>,
        message: Seq<char>,
    ) -> Self {
        let entry = LogEntryView {
            cursor: self.cursor_of(serial),
            level: "info"@,
            source,
            message,
        };
        let lines = self.log_of(serial).push(entry);
        RuntimeView {
            next_log_cursor: self.next_log_cursor.insert(serial, after(self.cursor_of(serial))),
            logs: self.logs.insert(
                serial,
                if lines.len() > MAX_LOG_ENTRIES {
                    lines.drop_first()
                } else {
                    lines
                },
            ),
            ..self
        }
    }

    /// The identifier of the next transfer.
    pub open spec fn next_id(self, prefix: Seq<char>) -> Seq<char> {
        prefix + "-"@ + number::decimal(self.next_transfer as nat)
    }

    /// One more transfer that has moved all of its bytes.
    pub open spec fn with_transfer(
        self,
        prefix: Seq<char>,
        serial: Seq<char>,
        direction: TransferDirection,
        remote_path: Seq<char>,
        data: Seq<u8>,
    ) -> Self {
        RuntimeView {
            next_transfer: after(self.next_transfer),
            transfers: self.transfers.insert(
                self.next_id(prefix),
                TransferView {
                    serial,
                    direction,
                    remote_path,
                    total_size: data.len() as u64,
                    next_offset: data.len() as u64,
                    state: TransferState::Complete,
                    data,
                },
            ),
            ..self
        }
    }

    /// Every directory above a path.
    pub open spec fn with_parents(self, serial: Seq<char>, remote_path: Seq<char>) -> Self {
        RuntimeView {
            directories: parents_added(self.directories, serial, remote_path),
            ..self
        }
    }

    /// What a process leaves when it goes.
    pub open spec fn without_process(self, serial: Seq<char>, pid: Option<u32>) -> Self {
        match pid {
            Some(number) => RuntimeView {
                processes: self.processes.remove((serial, number)),
                ..self
            },
            None => self,
        }
    }

    /// An application put in place.
    pub open spec fn with_app(self, serial: Seq<char>, app_id: Seq<char>, app: AppRuntimeView) -> Self {
        RuntimeView { apps: self.apps.insert((serial, app_id), app), ..self }
    }
}

/// A set of directories with every directory above a path.
pub open spec fn parents_added(
    directories: Map<DeviceName, ()>,
    serial: Seq<char>,
    remote_path: Seq<char>,
) -> Map<DeviceName, ()> {
    Map::new(
        |key: DeviceName|
            directories.dom().contains(key) || (key.0 == serial && path::is_parent(
                key.1,
                remote_path,
            )),
        |key: DeviceName| (),
    )
}

/// The summary of an application.
pub open spec fn summary(app: AppRuntimeView, app_id: Seq<char>) -> AppSummaryView {
    AppSummaryView {
        app_id,
        version: app.version,
        state: app.state,
        rollback_available: app.history.len() > 0,
        pid: app.pid,
    }
}

/// Why the parameters of a transfer are refused: the remote path first, then
/// the local path, then the block size.
pub open spec fn transfer_refusal(
    remote_path: Seq<char>,
    absolute: bool,
    block_size: u32,
) -> Option<RpcErrorView> {
    if !path::is_normalized(remote_path) {
        Some(
            rpc_error::invalid_params("remote_path must be a normalized relative logical path"@),
        )
    } else if !absolute {
        Some(rpc_error::invalid_params("local_path must be absolute"@))
    } else if block_size < 1 || block_size > MAX_SYNC_BLOCK_SIZE {
        Some(rpc_error::invalid_params("block_size must be between 1 and 1048576"@))
    } else {
        None
    }
}

/// Why a push is refused before it touches the device.
pub open spec fn push_refusal(params: SyncPushParamsView, source: HostFileView) -> Option<
    RpcErrorView,
> {
    match transfer_refusal(
        params.remote_path,
        source != HostFileView::NotAbsolute,
        params.block_size,
    ) {
        Some(error) => Some(error),
        None => match source {
            HostFileView::Unreadable(kind) => Some(
                rpc_error::host_file("read"@, params.local_path, kind),
            ),
            _ => None,
        },
    }
}

/// Whether a transfer is the one that a request continues.
pub open spec fn same_transfer(
    transfer: TransferView,
    serial: Seq<char>,
    remote_path: Seq<char>,
    total_size: u64,
    direction: TransferDirection,
) -> bool {
    &&& transfer.serial == serial
    &&& transfer.remote_path == remote_path
    &&& transfer.total_size == total_size
    &&& transfer.direction == direction
}

/// The line that a push leaves in the log.
pub open spec fn push_message(size: nat, remote_path: Seq<char>) -> Seq<char> {
    "pushed "@ + number::decimal(size) + " bytes to "@ + remote_path
}

/// What a push of these bytes makes of the state, and what it answers.
pub open spec fn pushed(state: RuntimeView, params: SyncPushParamsView, data: Seq<u8>) -> (
    RuntimeView,
    Result<SyncPushResultView, RpcErrorView>,
) {
    let fresh = params.transfer_id is None;
    let opened = if fresh {
        state.with_transfer(
            "push"@,
            params.serial,
            TransferDirection::Push,
            params.remote_path,
            data,
        )
    } else {
        state
    };
    let id = if fresh {
        state.next_id("push"@)
    } else {
        params.transfer_id->Some_0
    };
    let transfer = opened.transfers[id];
    if !opened.transfers.dom().contains(id) {
        (opened, Err(rpc_error::transfer_not_found(id)))
    } else if !same_transfer(
        transfer,
        params.serial,
        params.remote_path,
        data.len() as u64,
        TransferDirection::Push,
    ) {
        (opened, Err(rpc_error::invalid_state("transfer metadata does not match"@)))
    } else if transfer.data != data {
        (opened, Err(rpc_error::invalid_state("resume source does not match accepted data"@)))
    } else if opened.directories.dom().contains((params.serial, params.remote_path)) {
        (opened, Err(rpc_error::invalid_state("remote path is a directory"@)))
    } else {
        let stored = RuntimeView {
            files: opened.files.insert((params.serial, params.remote_path), data),
            ..opened
        };
        (
            stored.with_parents(params.serial, params.remote_path).logged(
                params.serial,
                "sync"@,
                push_message(data.len(), params.remote_path),
            ),
            Ok(
                SyncPushResultView {
                    transfer_id: id,
                    accepted_offset: transfer.next_offset,
                    state: transfer.state,
                },
            ),
        )
    }
}

/// What a push request makes of the state, and what it answers.
pub open spec fn push(state: RuntimeView, params: SyncPushParamsView, source: HostFileView) -> (
    RuntimeView,
    Result<SyncPushResultView, RpcErrorView>,
) {
    match push_refusal(params, source) {
        Some(error) => (state, Err(error)),
        None => pushed(state, params, source->Content_0),
    }
}

/// What a pull hands to the host: its answer and the bytes to write.
#[verifier::ext_equal]
pub struct PullDeliveryView {
    pub result: SyncPullResultView,
    pub data: Seq<u8>,
}

/// What a pull request makes of the state, and what it answers.
pub open spec fn pull(state: RuntimeView, params: SyncPullParamsView, absolute: bool) -> (
    RuntimeView,
    Result<PullDeliveryView, RpcErrorView>,
) {
    let key = (params.serial, params.remote_path);
    let fresh = params.transfer_id is None;
    match transfer_refusal(params.remote_path, absolute, params.block_size) {
        Some(error) => (state, Err(error)),
        None => if fresh && !state.files.dom().contains(key) {
            (state, Err(rpc_error::file_not_found(params.remote_path)))
        } else {
            let opened = if fresh {
                state.with_transfer(
                    "pull"@,
                    params.serial,
                    TransferDirection::Pull,
                    params.remote_path,
                    state.files[key],
                )
            } else {
                state
            };
            let id = if fresh {
                state.next_id("pull"@)
            } else {
                params.transfer_id->Some_0
            };
            let transfer = opened.transfers[id];
            if !opened.transfers.dom().contains(id) {
                (opened, Err(rpc_error::transfer_not_found(id)))
            } else if !same_transfer(
                transfer,
                params.serial,
                params.remote_path,
                transfer.total_size,
                TransferDirection::Pull,
            ) {
                (opened, Err(rpc_error::invalid_state("transfer metadata does not match"@)))
            } else {
                (
                    opened,
                    Ok(
                        PullDeliveryView {
                            result: SyncPullResultView {
                                transfer_id: id,
                                total_size: transfer.total_size,
                                received_size: transfer.total_size,
                                state: transfer.state,
                            },
                            data: transfer.data,
                        },
                    ),
                )
            }
        },
    }
}

/// The state of a transfer, for the device that it belongs to.
pub open spec fn status(state: RuntimeView, params: SyncStatusParamsView) -> Result<
    SyncStatusView,
    RpcErrorView,
> {
    let transfer = state.transfers[params.transfer_id];
    if state.transfers.dom().contains(params.transfer_id) && transfer.serial == params.serial {
        Ok(
            SyncStatusView {
                transfer_id: params.transfer_id,
                direction: transfer.direction,
                remote_path: transfer.remote_path,
                next_offset: transfer.next_offset,
                total_size: transfer.total_size,
                state: transfer.state,
            },
        )
    } else {
        Err(rpc_error::transfer_not_found(params.transfer_id))
    }
}

/// What a request for a directory makes of the state, and what it answers.
pub open spec fn mkdir(state: RuntimeView, params: SyncMkdirParamsView) -> (
    RuntimeView,
    Result<SyncMkdirResultView, RpcErrorView>,
) {
    let key = (params.serial, params.remote_path);
    if !path::is_normalized(params.remote_path) {
        (
            state,
            Err(
                rpc_error::invalid_params(
                    "remote_path must be a normalized relative logical path"@,
                ),
            ),
        )
    } else if state.files.dom().contains(key) {
        (state, Err(rpc_error::invalid_state("remote path is a file"@)))
    } else {
        let above = state.with_parents(params.serial, params.remote_path);
        (
            RuntimeView { directories: above.directories.insert(key, ()), ..above },
            Ok(
                SyncMkdirResultView {
                    remote_path: params.remote_path,
                    created: !state.directories.dom().contains(key),
                },
            ),
        )
    }
}

/// Whether a directory lies below a prefix under a name.
pub open spec fn directory_below(
    state: RuntimeView,
    serial: Seq<char>,
    prefix: Seq<char>,
    name: Seq<char>,
) -> bool {
    exists|full: Seq<char>|
        state.directories.dom().contains((serial, full)) && #[trigger] path::child_name(full, prefix)
            == Some(name)
}

/// Whether a file lies below a prefix under a name.
pub open spec fn file_below(
    state: RuntimeView,
    serial: Seq<char>,
    prefix: Seq<char>,
    name: Seq<char>,
) -> bool {
    exists|full: Seq<char>|
        state.files.dom().contains((serial, full)) && #[trigger] path::child_name(full, prefix)
            == Some(name)
}

/// How a directory lists a name: as a file only when nothing lies below it.
pub open spec fn listed_as(
    state: RuntimeView,
    serial: Seq<char>,
    prefix: Seq<char>,
    name: Seq<char>,
) -> SyncEntryView {
    if !directory_below(state, serial, prefix, name) && state.files.dom().contains(
        (serial, prefix + name),
    ) {
        SyncEntryView {
            name,
            kind: SyncEntryKind::File,
            size: state.files[(serial, prefix + name)].len() as u64,
        }
    } else {
        SyncEntryView { name, kind: SyncEntryKind::Directory, size: 0 }
    }
}

/// Whether a directory has a name that comes after the cursor.
pub open spec fn listed(
    state: RuntimeView,
    serial: Seq<char>,
    prefix: Seq<char>,
    cursor: Option<Seq<char>>,
    name: Seq<char>,
) -> bool {
    &&& directory_below(state, serial, prefix, name) || file_below(state, serial, prefix, name)
    &&& cursor matches Some(last) ==> text::before(last, name)
}

/// Whether these are the names of a directory after the cursor, each once and
/// in ascending order, with what each stands for.
pub open spec fn is_listing(
    state: RuntimeView,
    serial: Seq<char>,
    prefix: Seq<char>,
    cursor: Option<Seq<char>>,
    entries: Seq<SyncEntryView>,
) -> bool {
    &&& forall|i: int, j: int|
        0 <= i < j < entries.len() ==> text::before(
            (#[trigger] entries[i]).name,
            (#[trigger] entries[j]).name,
        )
    &&& forall|i: int|
        0 <= i < entries.len() ==> listed(
            state,
            serial,
            prefix,
            cursor,
            (#[trigger] entries[i]).name,
        ) && entries[i] == listed_as(state, serial, prefix, entries[i].name)
    &&& forall|name: Seq<char>|
        #[trigger] listed(state, serial, prefix, cursor, name) ==> exists|i: int|
            0 <= i < entries.len() && (#[trigger] entries[i]).name == name
}

/// Why a listing is refused.
pub open spec fn list_refusal(state: RuntimeView, params: SyncListParamsView) -> Option<
    RpcErrorView,
> {
    if !path::is_normalized(params.remote_path) {
        Some(
            rpc_error::invalid_params("remote_path must be a normalized relative logical path"@),
        )
    } else if params.limit == 0 || params.limit > MAX_LIST_LIMIT {
        Some(rpc_error::invalid_params("directory list limit must be between 1 and 1024"@))
    } else if !state.directories.dom().contains((params.serial, params.remote_path)) {
        Some(rpc_error::file_not_found(params.remote_path))
    } else {
        None
    }
}

/// One page of a listing.
pub open spec fn page(
    entries: Seq<SyncEntryView>,
    remote_path: Seq<char>,
    limit: u32,
) -> SyncListResultView {
    if entries.len() > limit {
        SyncListResultView {
            remote_path,
            entries: entries.take(limit as int),
            next_cursor: Some(entries[limit - 1].name),
        }
    } else {
        SyncListResultView { remote_path, entries, next_cursor: None }
    }
}

/// The answer to a request for a page of a directory.
pub open spec fn is_list_answer(
    state: RuntimeView,
    params: SyncListParamsView,
    answer: Result<SyncListResultView, RpcErrorView>,
) -> bool {
    match list_refusal(state, params) {
        Some(error) => answer == Err::<SyncListResultView, RpcErrorView>(error),
        None => exists|entries: Seq<SyncEntryView>|
            #[trigger] is_listing(
                state,
                params.serial,
                params.remote_path + seq!['/'],
                params.cursor,
                entries,
            ) && answer == Ok::<SyncListResultView, RpcErrorView>(
                page(entries, params.remote_path, params.limit),
            ),
    }
}

/// The application that an installation of this bundle leaves.
pub open spec fn installed_app(
    state: RuntimeView,
    serial: Seq<char>,
    id: Seq<char>,
    version: Seq<char>,
    bundle_root: Seq<char>,
) -> AppRuntimeView {
    let app = state.apps[(serial, id)];
    if !state.apps.dom().contains((serial, id)) {
        AppRuntimeView {
            version,
            bundle_root,
            history: Seq::empty(),
            state: AppState::Stopped,
            pid: None,
        }
    } else if app.bundle_root == bundle_root {
        app
    } else {
        AppRuntimeView {
            version,
            bundle_root,
            history: app.history.push(
                AppVersionView { version: app.version, bundle_root: app.bundle_root },
            ),
            state: AppState::Stopped,
            pid: None,
        }
    }
}

/// The process that an installation of this bundle ends.
pub open spec fn replaced_process(
    state: RuntimeView,
    serial: Seq<char>,
    id: Seq<char>,
    bundle_root: Seq<char>,
) -> Option<u32> {
    if state.apps.dom().contains((serial, id)) && state.apps[(serial, id)].bundle_root
        != bundle_root {
        state.apps[(serial, id)].pid
    } else {
        None
    }
}

/// What an installation makes of the state, and what it answers.
pub open spec fn install(
    state: RuntimeView,
    params: AppInstallParamsView,
    bundle: HostBundleView,
) -> (RuntimeView, Result<AppSummaryView, RpcErrorView>) {
    match bundle {
        HostBundleView::NotAbsolute => (
            state,
            Err(rpc_error::invalid_params("local_path must be absolute"@)),
        ),
        HostBundleView::Unreadable(kind) => (
            state,
            Err(rpc_error::host_file("open"@, params.bundle_path, kind)),
        ),
        HostBundleView::Rejected { reason, detail } => (
            state,
            Err(rpc_error::install_failed("verify"@, reason, detail)),
        ),
        HostBundleView::Verified { application, id, version, bundle_root } => if !application {
            (
                state,
                Err(
                    rpc_error::install_failed(
                        "verify"@,
                        "bundle_kind"@,
                        "app install accepts application bundles only"@,
                    ),
                ),
            )
        } else {
            let app = installed_app(state, params.serial, id, version, bundle_root);
            (
                state.without_process(
                    params.serial,
                    replaced_process(state, params.serial, id, bundle_root),
                ).with_app(params.serial, id, app).logged(
                    params.serial,
                    id,
                    "installed "@ + app.version,
                ),
                Ok(summary(app, id)),
            )
        },
    }
}

/// What starting an application makes of the state, and what it answers.
pub open spec fn start(state: RuntimeView, params: AppTargetParamsView) -> (
    RuntimeView,
    Result<AppSummaryView, RpcErrorView>,
) {
    let key = (params.serial, params.app_id);
    let app = state.apps[key];
    if !state.apps.dom().contains(key) {
        (state, Err(rpc_error::app_not_found(params.app_id)))
    } else if app.state != AppState::Stopped {
        (state, Ok(summary(app, params.app_id)))
    } else {
        let pid = state.next_pid;
        let running = AppRuntimeView { pid: Some(pid), state: AppState::Running, ..app };
        let process = ProcessSummaryView {
            pid,
            name: params.app_id,
            app_id: Some(params.app_id),
            state: ProcessState::Running,
        };
        (
            RuntimeView {
                next_pid: after_pid(pid),
                processes: state.processes.insert((params.serial, pid), process),
                ..state
            }.with_app(params.serial, params.app_id, running).logged(
                params.serial,
                params.app_id,
                "started"@,
            ),
            Ok(summary(running, params.app_id)),
        )
    }
}

/// What stopping an application makes of the state, and what it answers.
pub open spec fn stop(state: RuntimeView, params: AppTargetParamsView) -> (
    RuntimeView,
    Result<AppSummaryView, RpcErrorView>,
) {
    let key = (params.serial, params.app_id);
    let app = state.apps[key];
    let stopped = AppRuntimeView { pid: None, state: AppState::Stopped, ..app };
    if !state.apps.dom().contains(key) {
        (state, Err(rpc_error::app_not_found(params.app_id)))
    } else {
        (
            state.without_process(params.serial, app.pid).with_app(
                params.serial,
                params.app_id,
                stopped,
            ).logged(params.serial, params.app_id, "stopped"@),
            Ok(summary(stopped, params.app_id)),
        )
    }
}

/// What restarting an application makes of the state, and what it answers.
pub open spec fn restart(state: RuntimeView, params: AppTargetParamsView) -> (
    RuntimeView,
    Result<AppSummaryView, RpcErrorView>,
) {
    if stop(state, params).1 is Err {
        stop(state, params)
    } else {
        start(stop(state, params).0, params)
    }
}

/// What rolling an application back makes of the state, and what it answers.
pub open spec fn rollback(state: RuntimeView, params: AppTargetParamsView) -> (
    RuntimeView,
    Result<AppSummaryView, RpcErrorView>,
) {
    let key = (params.serial, params.app_id);
    let app = state.apps[key];
    let previous = app.history.last();
    let restored = AppRuntimeView {
        version: previous.version,
        bundle_root: previous.bundle_root,
        history: app.history.drop_last(),
        state: AppState::Stopped,
        pid: None,
    };
    if !state.apps.dom().contains(key) {
        (state, Err(rpc_error::app_not_found(params.app_id)))
    } else if app.history.len() == 0 {
        (
            state,
            Err(
                RpcErrorView {
                    code: ErrorCode::NoRollbackAvailable,
                    message: "No rollback available"@,
                    detail: ErrorDetailView::AppId(params.app_id),
                },
            ),
        )
    } else {
        (
            state.without_process(params.serial, app.pid).with_app(
                params.serial,
                params.app_id,
                restored,
            ).logged(params.serial, params.app_id, "rolled back"@),
            Ok(summary(restored, params.app_id)),
        )
    }
}

/// What removing an application makes of the state, and what it answers.
pub open spec fn uninstall(state: RuntimeView, params: AppTargetParamsView) -> (
    RuntimeView,
    Result<AppSummaryView, RpcErrorView>,
) {
    let key = (params.serial, params.app_id);
    let app = state.apps[key];
    if !state.apps.dom().contains(key) {
        (state, Err(rpc_error::app_not_found(params.app_id)))
    } else {
        let removed = RuntimeView { apps: state.apps.remove(key), ..state };
        (
            removed.without_process(params.serial, app.pid).logged(
                params.serial,
                params.app_id,
                "uninstalled"@,
            ),
            Ok(summary(app, params.app_id)),
        )
    }
}

/// Whether these are the applications of a device, each once and in ascending
/// order of their identifiers.
pub open spec fn is_app_list(
    state: RuntimeView,
    serial: Seq<char>,
    apps: Seq<AppSummaryView>,
) -> bool {
    &&& forall|i: int, j: int|
        0 <= i < j < apps.len() ==> text::before(
            (#[trigger] apps[i]).app_id,
            (#[trigger] apps[j]).app_id,
        )
    &&& forall|i: int|
        0 <= i < apps.len() ==> state.apps.dom().contains((serial, (#[trigger] apps[i]).app_id))
            && apps[i] == summary(state.apps[(serial, apps[i].app_id)], apps[i].app_id)
    &&& forall|app_id: Seq<char>|
        #[trigger] state.apps.dom().contains((serial, app_id)) ==> exists|i: int|
            0 <= i < apps.len() && (#[trigger] apps[i]).app_id == app_id
}

/// The identifier of a run of an application.
pub open spec fn run_id(pid: Option<u32>) -> Seq<char> {
    "fake-"@ + number::decimal(
        match pid {
            Some(number) => number as nat,
            None => 0,
        },
    )
}

/// A piece of an output stream with nothing in it.
pub open spec fn empty_chunk(cursor: u64) -> AppLogChunkView {
    AppLogChunkView { cursor, next_cursor: cursor, data_base64: Seq::empty(), capped: false }
}

/// The captured output of an application: always empty, from the start again
/// when another run is asked for.
pub open spec fn app_log(state: RuntimeView, params: AppLogParamsView) -> Result<
    AppLogSnapshotView,
    RpcErrorView,
> {
    let key = (params.serial, params.app_id);
    let app = state.apps[key];
    let reset = params.run_id != Some(run_id(app.pid));
    if !state.apps.dom().contains(key) {
        Err(rpc_error::app_not_found(params.app_id))
    } else {
        Ok(
            AppLogSnapshotView {
                app_id: params.app_id,
                run_id: run_id(app.pid),
                reset,
                state: app.state,
                pid: app.pid,
                stdout: empty_chunk(
                    if reset {
                        0
                    } else {
                        params.stdout_cursor
                    },
                ),
                stderr: empty_chunk(
                    if reset {
                        0
                    } else {
                        params.stderr_cursor
                    },
                ),
            },
        )
    }
}

/// Whether these are the processes of a device, in ascending order of their
/// numbers.
pub open spec fn is_process_list(
    state: RuntimeView,
    serial: Seq<char>,
    pids: Seq<u32>,
    processes: Seq<ProcessSummaryView>,
) -> bool {
    &&& pids.len() == processes.len()
    &&& forall|i: int, j: int| 0 <= i < j < pids.len() ==> #[trigger] pids[i] < #[trigger] pids[j]
    &&& forall|i: int|
        0 <= i < pids.len() ==> state.processes.dom().contains((serial, #[trigger] pids[i]))
            && processes[i] == state.processes[(serial, pids[i])]
    &&& forall|pid: u32|
        #[trigger] state.processes.dom().contains((serial, pid)) ==> pids.contains(pid)
}

/// Whether these are the processes of a device.
pub open spec fn lists_processes(
    state: RuntimeView,
    serial: Seq<char>,
    processes: Seq<ProcessSummaryView>,
) -> bool {
    exists|pids: Seq<u32>| #[trigger] is_process_list(state, serial, pids, processes)
}

/// A signal that can be sent to a process.
#[derive(Clone, Copy, Debug, PartialEq, Eq, Structural)]
pub enum ProcessSignal {
    Term,
    Kill,
    Interrupt,
    Hangup,
}

/// The name of a signal.
pub open spec fn signal_name(signal: ProcessSignal) -> Seq<char> {
    match signal {
        ProcessSignal::Term => "TERM"@,
        ProcessSignal::Kill => "KILL"@,
        ProcessSignal::Interrupt => "INT"@,
        ProcessSignal::Hangup => "HUP"@,
    }
}

/// The signal with a name.
pub open spec fn signal_named(name: Seq<char>) -> Option<ProcessSignal> {
    if name == "TERM"@ {
        Some(ProcessSignal::Term)
    } else if name == "KILL"@ {
        Some(ProcessSignal::Kill)
    } else if name == "INT"@ {
        Some(ProcessSignal::Interrupt)
    } else if name == "HUP"@ {
        Some(ProcessSignal::Hangup)
    } else {
        None
    }
}

/// The line that a signal leaves in the log.
pub open spec fn signal_message(signal: ProcessSignal, pid: u32) -> Seq<char> {
    "signal "@ + signal_name(signal) + " sent to "@ + number::decimal(pid as nat)
}

/// The state after a process has ended.
pub open spec fn ended(state: RuntimeView, serial: Seq<char>, process: ProcessSummaryView, pid: u32) -> RuntimeView {
    let gone = state.without_process(serial, Some(pid));
    match process.app_id {
        Some(app_id) => if gone.apps.dom().contains((serial, app_id)) {
            gone.with_app(
                serial,
                app_id,
                AppRuntimeView {
                    state: AppState::Stopped,
                    pid: None,
                    ..gone.apps[(serial, app_id)]
                },
            )
        } else {
            gone
        },
        None => gone,
    }
}

/// What a signal makes of the state, and what it answers.
pub open spec fn signal(state: RuntimeView, params: ProcessSignalParamsView) -> (
    RuntimeView,
    Result<ProcessSummaryView, RpcErrorView>,
) {
    let key = (params.serial, params.pid);
    let process = state.processes[key];
    match signal_named(params.signal) {
        None => (
            state,
            Err(
                RpcErrorView {
                    code: ErrorCode::InvalidSignal,
                    message: "Invalid signal"@,
                    detail: ErrorDetailView::Signal(params.signal),
                },
            ),
        ),
        Some(kind) => if !state.processes.dom().contains(key) {
            (state, Err(rpc_error::process_not_found(params.pid)))
        } else {
            let after = if kind == ProcessSignal::Term || kind == ProcessSignal::Kill {
                ended(state, params.serial, process, params.pid)
            } else {
                state
            };
            (
                after.logged(params.serial, process.name, signal_message(kind, params.pid)),
                Ok(process),
            )
        },
    }
}

/// The log lines from a cursor on.
pub open spec fn lines_from(lines: Seq<LogEntryView>, start: u64) -> Seq<LogEntryView>
    decreases lines.len(),
{
    if lines.len() == 0 {
        lines
    } else if lines.last().cursor >= start {
        lines_from(lines.drop_last(), start).push(lines.last())
    } else {
        lines_from(lines.drop_last(), start)
    }
}

/// The cursor of the oldest log line.
pub open spec fn oldest_cursor(lines: Seq<LogEntryView>) -> u64 {
    if lines.len() == 0 {
        1
    } else {
        lines[0].cursor
    }
}

/// Where a log request without a cursor starts: so that the latest lines fit.
pub open spec fn latest_start(lines: Seq<LogEntryView>, limit: u32) -> u64 {
    let end: u64 = if lines.len() == 0 {
        1
    } else {
        after(lines.last().cursor)
    };
    let start: u64 = if end >= limit {
        (end - limit) as u64
    } else {
        0
    };
    if start < oldest_cursor(lines) {
        oldest_cursor(lines)
    } else {
        start
    }
}

/// A piece of a log that starts at a cursor.
pub open spec fn snapshot(lines: Seq<LogEntryView>, start: u64, limit: u32) -> LogSnapshotView {
    let matching = lines_from(lines, start);
    let entries = if matching.len() > limit {
        matching.take(limit as int)
    } else {
        matching
    };
    LogSnapshotView {
        entries,
        next_cursor: if entries.len() == 0 {
            start
        } else {
            after(entries.last().cursor)
        },
        has_more: matching.len() > limit,
    }
}

/// The answer to a request for a piece of the log.
pub open spec fn tail(state: RuntimeView, params: LogTailParamsView) -> Result<
    LogSnapshotView,
    RpcErrorView,
> {
    let limit: u32 = match params.limit {
        Some(value) => value,
        None => 100,
    };
    let lines = state.log_of(params.serial);
    if limit == 0 || limit > MAX_LOG_SNAPSHOT {
        Err(rpc_error::invalid_params("limit must be between 1 and 1000"@))
    } else {
        match params.cursor {
            Some(cursor) => if cursor < oldest_cursor(lines) {
                Err(
                    RpcErrorView {
                        code: ErrorCode::LogCursorExpired,
                        message: "Log cursor expired"@,
                        detail: ErrorDetailView::OldestCursor(oldest_cursor(lines)),
                    },
                )
            } else {
                Ok(snapshot(lines, cursor, limit))
            },
            None => Ok(snapshot(lines, latest_start(lines, limit), limit)),
        }
    }
}

} // verus!
