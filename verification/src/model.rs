//! The values that requests carry and results return.
//!
//! Each structure with text in it has a model in which every string is its
//! sequence of characters; contracts speak of the models.

use crate::text;
use crate::text::{clone_all, clone_optional};
use vstd::prelude::*;

verus! {

/// How a device can be reached.
#[derive(Clone, Copy, Debug, PartialEq, Eq, Structural)]
pub enum DeviceState {
    Online,
    Offline,
    Unauthorized,
}

/// Which way a transfer moves a file.
#[derive(Clone, Copy, Debug, PartialEq, Eq, Structural)]
pub enum TransferDirection {
    Push,
    Pull,
}

/// How far a transfer has come.
#[derive(Clone, Copy, Debug, PartialEq, Eq, Structural)]
pub enum TransferState {
    Active,
    Complete,
}

/// What an installed application is doing.
#[derive(Clone, Copy, Debug, PartialEq, Eq, Structural)]
pub enum AppState {
    Stopped,
    Running,
    Failed,
}

/// What a device process is doing.
#[derive(Clone, Copy, Debug, PartialEq, Eq, Structural)]
pub enum ProcessState {
    Running,
}

/// What a directory entry names.
#[derive(Clone, Copy, Debug, PartialEq, Eq, Structural)]
pub enum SyncEntryKind {
    File,
    Directory,
}

/// What a transfer is busy with.
#[derive(Clone, Copy, Debug, PartialEq, Eq, Structural)]
pub enum SyncProgressPhase {
    Hashing,
    Transferring,
}

/// One device as listed.
#[derive(Debug)]
pub struct DeviceSummary {
    pub serial: String,
    pub model: String,
    pub state: DeviceState,
    pub transport: String,
}

/// The model of [`DeviceSummary`].
#[verifier::ext_equal]
pub struct DeviceSummaryView {
    pub serial: Seq<char>,
    pub model: Seq<char>,
    pub state: DeviceState,
    pub transport: Seq<char>,
}

impl View for DeviceSummary {
    type V = DeviceSummaryView;

    open spec fn view(&self) -> DeviceSummaryView {
        DeviceSummaryView {
            serial: self.serial@,
            model: self.model@,
            state: self.state,
            transport: self.transport@,
        }
    }
}

impl DeviceSummary {
    /// A copy with the same contents.
    pub fn duplicate(&self) -> (copy: Self)
        ensures
            copy@ == self@,
    {
        DeviceSummary {
            serial: self.serial.clone(),
            model: self.model.clone(),
            state: self.state,
            transport: self.transport.clone(),
        }
    }
}

/// The models of a sequence of [`DeviceSummary`].
pub open spec fn device_summary_views(items: Seq<DeviceSummary>) -> Seq<DeviceSummaryView> {
    Seq::new(items.len(), |i: int| items[i]@)
}

/// What a device and the host have agreed on.
#[derive(Debug)]
pub struct DeviceFeatures {
    pub serial: String,
    pub protocol_version: u32,
    pub features: Vec<String>,
}

/// The model of [`DeviceFeatures`].
#[verifier::ext_equal]
pub struct DeviceFeaturesView {
    pub serial: Seq<char>,
    pub protocol_version: u32,
    pub features: Seq<Seq<char>>,
}

impl View for DeviceFeatures {
    type V = DeviceFeaturesView;

    open spec fn view(&self) -> DeviceFeaturesView {
        DeviceFeaturesView {
            serial: self.serial@,
            protocol_version: self.protocol_version,
            features: text::all(self.features@),
        }
    }
}

impl DeviceFeatures {
    /// A copy with the same contents.
    pub fn duplicate(&self) -> (copy: Self)
        ensures
            copy@ == self@,
    {
        DeviceFeatures {
            serial: self.serial.clone(),
            protocol_version: self.protocol_version,
            features: clone_all(&self.features),
        }
    }
}

/// A request that names a device.
#[derive(Debug)]
pub struct SerialParams {
    pub serial: String,
}

/// The model of [`SerialParams`].
#[verifier::ext_equal]
pub struct SerialParamsView {
    pub serial: Seq<char>,
}

impl View for SerialParams {
    type V = SerialParamsView;

    open spec fn view(&self) -> SerialParamsView {
        SerialParamsView {
            serial: self.serial@,
        }
    }
}

/// One variable in the environment of a process.
#[derive(Debug)]
pub struct EnvironmentVariable {
    pub name: String,
    pub value: String,
}

/// The model of [`EnvironmentVariable`].
#[verifier::ext_equal]
pub struct EnvironmentVariableView {
    pub name: Seq<char>,
    pub value: Seq<char>,
}

impl View for EnvironmentVariable {
    type V = EnvironmentVariableView;

    open spec fn view(&self) -> EnvironmentVariableView {
        EnvironmentVariableView {
            name: self.name@,
            value: self.value@,
        }
    }
}

/// The models of a sequence of [`EnvironmentVariable`].
pub open spec fn environment_variable_views(items: Seq<EnvironmentVariable>) -> Seq<EnvironmentVariableView> {
    Seq::new(items.len(), |i: int| items[i]@)
}

/// A request to run one process.
#[derive(Debug)]
pub struct ExecParams {
    pub serial: String,
    pub argv: Vec<String>,
    pub cwd: Option<String>,
    pub environment: Vec<EnvironmentVariable>,
    pub timeout_ms: u64,
}

/// The model of [`ExecParams`].
#[verifier::ext_equal]
pub struct ExecParamsView {
    pub serial: Seq<char>,
    pub argv: Seq<Seq<char>>,
    pub cwd: Option<Seq<char>>,
    pub environment: Seq<EnvironmentVariableView>,
    pub timeout_ms: u64,
}

impl View for ExecParams {
    type V = ExecParamsView;

    open spec fn view(&self) -> ExecParamsView {
        ExecParamsView {
            serial: self.serial@,
            argv: text::all(self.argv@),
            cwd: text::optional(self.cwd),
            environment: environment_variable_views(self.environment@),
            timeout_ms: self.timeout_ms,
        }
    }
}

/// What a finished process left behind.
#[derive(Debug)]
pub struct ExecResult {
    pub exit_code: i32,
    pub stdout: String,
    pub stderr: String,
    pub duration_ms: u64,
}

/// The model of [`ExecResult`].
#[verifier::ext_equal]
pub struct ExecResultView {
    pub exit_code: i32,
    pub stdout: Seq<char>,
    pub stderr: Seq<char>,
    pub duration_ms: u64,
}

impl View for ExecResult {
    type V = ExecResultView;

    open spec fn view(&self) -> ExecResultView {
        ExecResultView {
            exit_code: self.exit_code,
            stdout: self.stdout@,
            stderr: self.stderr@,
            duration_ms: self.duration_ms,
        }
    }
}

/// A request to send a host file to a device.
#[derive(Debug)]
pub struct SyncPushParams {
    pub serial: String,
    pub local_path: String,
    pub remote_path: String,
    pub transfer_id: Option<String>,
    pub block_size: u32,
}

/// The model of [`SyncPushParams`].
#[verifier::ext_equal]
pub struct SyncPushParamsView {
    pub serial: Seq<char>,
    pub local_path: Seq<char>,
    pub remote_path: Seq<char>,
    pub transfer_id: Option<Seq<char>>,
    pub block_size: u32,
}

impl View for SyncPushParams {
    type V = SyncPushParamsView;

    open spec fn view(&self) -> SyncPushParamsView {
        SyncPushParamsView {
            serial: self.serial@,
            local_path: self.local_path@,
            remote_path: self.remote_path@,
            transfer_id: text::optional(self.transfer_id),
            block_size: self.block_size,
        }
    }
}

/// How a push ended.
#[derive(Debug)]
pub struct SyncPushResult {
    pub transfer_id: String,
    pub accepted_offset: u64,
    pub state: TransferState,
}

/// The model of [`SyncPushResult`].
#[verifier::ext_equal]
pub struct SyncPushResultView {
    pub transfer_id: Seq<char>,
    pub accepted_offset: u64,
    pub state: TransferState,
}

impl View for SyncPushResult {
    type V = SyncPushResultView;

    open spec fn view(&self) -> SyncPushResultView {
        SyncPushResultView {
            transfer_id: self.transfer_id@,
            accepted_offset: self.accepted_offset,
            state: self.state,
        }
    }
}

/// A request to fetch a device file.
#[derive(Debug)]
pub struct SyncPullParams {
    pub serial: String,
    pub remote_path: String,
    pub local_path: String,
    pub transfer_id: Option<String>,
    pub block_size: u32,
}

/// The model of [`SyncPullParams`].
#[verifier::ext_equal]
pub struct SyncPullParamsView {
    pub serial: Seq<char>,
    pub remote_path: Seq<char>,
    pub local_path: Seq<char>,
    pub transfer_id: Option<Seq<char>>,
    pub block_size: u32,
}

impl View for SyncPullParams {
    type V = SyncPullParamsView;

    open spec fn view(&self) -> SyncPullParamsView {
        SyncPullParamsView {
            serial: self.serial@,
            remote_path: self.remote_path@,
            local_path: self.local_path@,
            transfer_id: text::optional(self.transfer_id),
            block_size: self.block_size,
        }
    }
}

/// How a pull ended.
#[derive(Debug)]
pub struct SyncPullResult {
    pub transfer_id: String,
    pub total_size: u64,
    pub received_size: u64,
    pub state: TransferState,
}

/// The model of [`SyncPullResult`].
#[verifier::ext_equal]
pub struct SyncPullResultView {
    pub transfer_id: Seq<char>,
    pub total_size: u64,
    pub received_size: u64,
    pub state: TransferState,
}

impl View for SyncPullResult {
    type V = SyncPullResultView;

    open spec fn view(&self) -> SyncPullResultView {
        SyncPullResultView {
            transfer_id: self.transfer_id@,
            total_size: self.total_size,
            received_size: self.received_size,
            state: self.state,
        }
    }
}

/// A request for the state of a transfer.
#[derive(Debug)]
pub struct SyncStatusParams {
    pub serial: String,
    pub transfer_id: String,
}

/// The model of [`SyncStatusParams`].
#[verifier::ext_equal]
pub struct SyncStatusParamsView {
    pub serial: Seq<char>,
    pub transfer_id: Seq<char>,
}

impl View for SyncStatusParams {
    type V = SyncStatusParamsView;

    open spec fn view(&self) -> SyncStatusParamsView {
        SyncStatusParamsView {
            serial: self.serial@,
            transfer_id: self.transfer_id@,
        }
    }
}

/// The state of a transfer.
#[derive(Debug)]
pub struct SyncStatus {
    pub transfer_id: String,
    pub direction: TransferDirection,
    pub remote_path: String,
    pub next_offset: u64,
    pub total_size: u64,
    pub state: TransferState,
}

/// The model of [`SyncStatus`].
#[verifier::ext_equal]
pub struct SyncStatusView {
    pub transfer_id: Seq<char>,
    pub direction: TransferDirection,
    pub remote_path: Seq<char>,
    pub next_offset: u64,
    pub total_size: u64,
    pub state: TransferState,
}

impl View for SyncStatus {
    type V = SyncStatusView;

    open spec fn view(&self) -> SyncStatusView {
        SyncStatusView {
            transfer_id: self.transfer_id@,
            direction: self.direction,
            remote_path: self.remote_path@,
            next_offset: self.next_offset,
            total_size: self.total_size,
            state: self.state,
        }
    }
}

/// A request for one page of a directory.
#[derive(Debug)]
pub struct SyncListParams {
    pub serial: String,
    pub remote_path: String,
    pub cursor: Option<String>,
    pub limit: u32,
}

/// The model of [`SyncListParams`].
#[verifier::ext_equal]
pub struct SyncListParamsView {
    pub serial: Seq<char>,
    pub remote_path: Seq<char>,
    pub cursor: Option<Seq<char>>,
    pub limit: u32,
}

impl View for SyncListParams {
    type V = SyncListParamsView;

    open spec fn view(&self) -> SyncListParamsView {
        SyncListParamsView {
            serial: self.serial@,
            remote_path: self.remote_path@,
            cursor: text::optional(self.cursor),
            limit: self.limit,
        }
    }
}

/// One name in a directory.
#[derive(Debug)]
pub struct SyncEntry {
    pub name: String,
    pub kind: SyncEntryKind,
    pub size: u64,
}

/// The model of [`SyncEntry`].
#[verifier::ext_equal]
pub struct SyncEntryView {
    pub name: Seq<char>,
    pub kind: SyncEntryKind,
    pub size: u64,
}

impl View for SyncEntry {
    type V = SyncEntryView;

    open spec fn view(&self) -> SyncEntryView {
        SyncEntryView {
            name: self.name@,
            kind: self.kind,
            size: self.size,
        }
    }
}

impl SyncEntry {
    /// A copy with the same contents.
    pub fn duplicate(&self) -> (copy: Self)
        ensures
            copy@ == self@,
    {
        SyncEntry {
            name: self.name.clone(),
            kind: self.kind,
            size: self.size,
        }
    }
}

/// The models of a sequence of [`SyncEntry`].
pub open spec fn sync_entry_views(items: Seq<SyncEntry>) -> Seq<SyncEntryView> {
    Seq::new(items.len(), |i: int| items[i]@)
}

/// One page of a directory.
#[derive(Debug)]
pub struct SyncListResult {
    pub remote_path: String,
    pub entries: Vec<SyncEntry>,
    pub next_cursor: Option<String>,
}

/// The model of [`SyncListResult`].
#[verifier::ext_equal]
pub struct SyncListResultView {
    pub remote_path: Seq<char>,
    pub entries: Seq<SyncEntryView>,
    pub next_cursor: Option<Seq<char>>,
}

impl View for SyncListResult {
    type V = SyncListResultView;

    open spec fn view(&self) -> SyncListResultView {
        SyncListResultView {
            remote_path: self.remote_path@,
            entries: sync_entry_views(self.entries@),
            next_cursor: text::optional(self.next_cursor),
        }
    }
}

/// A request to make a directory.
#[derive(Debug)]
pub struct SyncMkdirParams {
    pub serial: String,
    pub remote_path: String,
}

/// The model of [`SyncMkdirParams`].
#[verifier::ext_equal]
pub struct SyncMkdirParamsView {
    pub serial: Seq<char>,
    pub remote_path: Seq<char>,
}

impl View for SyncMkdirParams {
    type V = SyncMkdirParamsView;

    open spec fn view(&self) -> SyncMkdirParamsView {
        SyncMkdirParamsView {
            serial: self.serial@,
            remote_path: self.remote_path@,
        }
    }
}

/// Whether a directory is new.
#[derive(Debug)]
pub struct SyncMkdirResult {
    pub remote_path: String,
    pub created: bool,
}

/// The model of [`SyncMkdirResult`].
#[verifier::ext_equal]
pub struct SyncMkdirResultView {
    pub remote_path: Seq<char>,
    pub created: bool,
}

impl View for SyncMkdirResult {
    type V = SyncMkdirResultView;

    open spec fn view(&self) -> SyncMkdirResultView {
        SyncMkdirResultView {
            remote_path: self.remote_path@,
            created: self.created,
        }
    }
}

/// A request to install a bundle.
#[derive(Debug)]
pub struct AppInstallParams {
    pub serial: String,
    pub bundle_path: String,
}

/// The model of [`AppInstallParams`].
#[verifier::ext_equal]
pub struct AppInstallParamsView {
    pub serial: Seq<char>,
    pub bundle_path: Seq<char>,
}

impl View for AppInstallParams {
    type V = AppInstallParamsView;

    open spec fn view(&self) -> AppInstallParamsView {
        AppInstallParamsView {
            serial: self.serial@,
            bundle_path: self.bundle_path@,
        }
    }
}

/// A request that names an application.
#[derive(Debug)]
pub struct AppTargetParams {
    pub serial: String,
    pub app_id: String,
}

/// The model of [`AppTargetParams`].
#[verifier::ext_equal]
pub struct AppTargetParamsView {
    pub serial: Seq<char>,
    pub app_id: Seq<char>,
}

impl View for AppTargetParams {
    type V = AppTargetParamsView;

    open spec fn view(&self) -> AppTargetParamsView {
        AppTargetParamsView {
            serial: self.serial@,
            app_id: self.app_id@,
        }
    }
}

/// One application as listed.
#[derive(Debug)]
pub struct AppSummary {
    pub app_id: String,
    pub version: String,
    pub state: AppState,
    pub rollback_available: bool,
    pub pid: Option<u32>,
}

/// The model of [`AppSummary`].
#[verifier::ext_equal]
pub struct AppSummaryView {
    pub app_id: Seq<char>,
    pub version: Seq<char>,
    pub state: AppState,
    pub rollback_available: bool,
    pub pid: Option<u32>,
}

impl View for AppSummary {
    type V = AppSummaryView;

    open spec fn view(&self) -> AppSummaryView {
        AppSummaryView {
            app_id: self.app_id@,
            version: self.version@,
            state: self.state,
            rollback_available: self.rollback_available,
            pid: self.pid,
        }
    }
}

/// The models of a sequence of [`AppSummary`].
pub open spec fn app_summary_views(items: Seq<AppSummary>) -> Seq<AppSummaryView> {
    Seq::new(items.len(), |i: int| items[i]@)
}

/// A request for captured application output.
#[derive(Debug)]
pub struct AppLogParams {
    pub serial: String,
    pub app_id: String,
    pub run_id: Option<String>,
    pub stdout_cursor: u64,
    pub stderr_cursor: u64,
    pub max_bytes: Option<u32>,
}

/// The model of [`AppLogParams`].
#[verifier::ext_equal]
pub struct AppLogParamsView {
    pub serial: Seq<char>,
    pub app_id: Seq<char>,
    pub run_id: Option<Seq<char>>,
    pub stdout_cursor: u64,
    pub stderr_cursor: u64,
    pub max_bytes: Option<u32>,
}

impl View for AppLogParams {
    type V = AppLogParamsView;

    open spec fn view(&self) -> AppLogParamsView {
        AppLogParamsView {
            serial: self.serial@,
            app_id: self.app_id@,
            run_id: text::optional(self.run_id),
            stdout_cursor: self.stdout_cursor,
            stderr_cursor: self.stderr_cursor,
            max_bytes: self.max_bytes,
        }
    }
}

/// A piece of one output stream.
#[derive(Debug)]
pub struct AppLogChunk {
    pub cursor: u64,
    pub next_cursor: u64,
    pub data_base64: String,
    pub capped: bool,
}

/// The model of [`AppLogChunk`].
#[verifier::ext_equal]
pub struct AppLogChunkView {
    pub cursor: u64,
    pub next_cursor: u64,
    pub data_base64: Seq<char>,
    pub capped: bool,
}

impl View for AppLogChunk {
    type V = AppLogChunkView;

    open spec fn view(&self) -> AppLogChunkView {
        AppLogChunkView {
            cursor: self.cursor,
            next_cursor: self.next_cursor,
            data_base64: self.data_base64@,
            capped: self.capped,
        }
    }
}

/// A piece of both output streams.
#[derive(Debug)]
pub struct AppLogSnapshot {
    pub app_id: String,
    pub run_id: String,
    pub reset: bool,
    pub state: AppState,
    pub pid: Option<u32>,
    pub stdout: AppLogChunk,
    pub stderr: AppLogChunk,
}

/// The model of [`AppLogSnapshot`].
#[verifier::ext_equal]
pub struct AppLogSnapshotView {
    pub app_id: Seq<char>,
    pub run_id: Seq<char>,
    pub reset: bool,
    pub state: AppState,
    pub pid: Option<u32>,
    pub stdout: AppLogChunkView,
    pub stderr: AppLogChunkView,
}

impl View for AppLogSnapshot {
    type V = AppLogSnapshotView;

    open spec fn view(&self) -> AppLogSnapshotView {
        AppLogSnapshotView {
            app_id: self.app_id@,
            run_id: self.run_id@,
            reset: self.reset,
            state: self.state,
            pid: self.pid,
            stdout: self.stdout@,
            stderr: self.stderr@,
        }
    }
}

/// One device process.
#[derive(Debug)]
pub struct ProcessSummary {
    pub pid: u32,
    pub name: String,
    pub app_id: Option<String>,
    pub state: ProcessState,
}

/// The model of [`ProcessSummary`].
#[verifier::ext_equal]
pub struct ProcessSummaryView {
    pub pid: u32,
    pub name: Seq<char>,
    pub app_id: Option<Seq<char>>,
    pub state: ProcessState,
}

impl View for ProcessSummary {
    type V = ProcessSummaryView;

    open spec fn view(&self) -> ProcessSummaryView {
        ProcessSummaryView {
            pid: self.pid,
            name: self.name@,
            app_id: text::optional(self.app_id),
            state: self.state,
        }
    }
}

impl ProcessSummary {
    /// A copy with the same contents.
    pub fn duplicate(&self) -> (copy: Self)
        ensures
            copy@ == self@,
    {
        ProcessSummary {
            pid: self.pid,
            name: self.name.clone(),
            app_id: clone_optional(&self.app_id),
            state: self.state,
        }
    }
}

/// The models of a sequence of [`ProcessSummary`].
pub open spec fn process_summary_views(items: Seq<ProcessSummary>) -> Seq<ProcessSummaryView> {
    Seq::new(items.len(), |i: int| items[i]@)
}

/// A request to signal a process.
#[derive(Debug)]
pub struct ProcessSignalParams {
    pub serial: String,
    pub pid: u32,
    pub signal: String,
}

/// The model of [`ProcessSignalParams`].
#[verifier::ext_equal]
pub struct ProcessSignalParamsView {
    pub serial: Seq<char>,
    pub pid: u32,
    pub signal: Seq<char>,
}

impl View for ProcessSignalParams {
    type V = ProcessSignalParamsView;

    open spec fn view(&self) -> ProcessSignalParamsView {
        ProcessSignalParamsView {
            serial: self.serial@,
            pid: self.pid,
            signal: self.signal@,
        }
    }
}

/// One line of the device log.
#[derive(Debug)]
pub struct LogEntry {
    pub cursor: u64,
    pub level: String,
    pub source: String,
    pub message: String,
}

/// The model of [`LogEntry`].
#[verifier::ext_equal]
pub struct LogEntryView {
    pub cursor: u64,
    pub level: Seq<char>,
    pub source: Seq<char>,
    pub message: Seq<char>,
}

impl View for LogEntry {
    type V = LogEntryView;

    open spec fn view(&self) -> LogEntryView {
        LogEntryView {
            cursor: self.cursor,
            level: self.level@,
            source: self.source@,
            message: self.message@,
        }
    }
}

impl LogEntry {
    /// A copy with the same contents.
    pub fn duplicate(&self) -> (copy: Self)
        ensures
            copy@ == self@,
    {
        LogEntry {
            cursor: self.cursor,
            level: self.level.clone(),
            source: self.source.clone(),
            message: self.message.clone(),
        }
    }
}

/// The models of a sequence of [`LogEntry`].
pub open spec fn log_entry_views(items: Seq<LogEntry>) -> Seq<LogEntryView> {
    Seq::new(items.len(), |i: int| items[i]@)
}

/// A request for a piece of the device log.
#[derive(Debug)]
pub struct LogTailParams {
    pub serial: String,
    pub cursor: Option<u64>,
    pub limit: Option<u32>,
}

/// The model of [`LogTailParams`].
#[verifier::ext_equal]
pub struct LogTailParamsView {
    pub serial: Seq<char>,
    pub cursor: Option<u64>,
    pub limit: Option<u32>,
}

impl View for LogTailParams {
    type V = LogTailParamsView;

    open spec fn view(&self) -> LogTailParamsView {
        LogTailParamsView {
            serial: self.serial@,
            cursor: self.cursor,
            limit: self.limit,
        }
    }
}

/// A piece of the device log.
#[derive(Debug)]
pub struct LogSnapshot {
    pub entries: Vec<LogEntry>,
    pub next_cursor: u64,
    pub has_more: bool,
}

/// The model of [`LogSnapshot`].
#[verifier::ext_equal]
pub struct LogSnapshotView {
    pub entries: Seq<LogEntryView>,
    pub next_cursor: u64,
    pub has_more: bool,
}

impl View for LogSnapshot {
    type V = LogSnapshotView;

    open spec fn view(&self) -> LogSnapshotView {
        LogSnapshotView {
            entries: log_entry_views(self.entries@),
            next_cursor: self.next_cursor,
            has_more: self.has_more,
        }
    }
}

/// How far a transfer has come, as told to a client.
#[derive(Debug)]
pub struct SyncProgress {
    pub operation_id: String,
    pub transfer_id: Option<String>,
    pub direction: TransferDirection,
    pub remote_path: String,
    pub phase: SyncProgressPhase,
    pub transferred: u64,
    pub total: u64,
}

/// The model of [`SyncProgress`].
#[verifier::ext_equal]
pub struct SyncProgressView {
    pub operation_id: Seq<char>,
    pub transfer_id: Option<Seq<char>>,
    pub direction: TransferDirection,
    pub remote_path: Seq<char>,
    pub phase: SyncProgressPhase,
    pub transferred: u64,
    pub total: u64,
}

impl View for SyncProgress {
    type V = SyncProgressView;

    open spec fn view(&self) -> SyncProgressView {
        SyncProgressView {
            operation_id: self.operation_id@,
            transfer_id: text::optional(self.transfer_id),
            direction: self.direction,
            remote_path: self.remote_path@,
            phase: self.phase,
            transferred: self.transferred,
            total: self.total,
        }
    }
}

} // verus!
