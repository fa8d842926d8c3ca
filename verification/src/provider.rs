//! Providers of devices: the requests that they serve, and the provider whose
//! devices live in memory.

use crate::model;
use crate::model::{
    AppInstallParams, AppInstallParamsView, AppLogParams, AppLogParamsView, AppLogSnapshot,
    AppLogSnapshotView, AppState, AppSummary, AppSummaryView, AppTargetParams, AppTargetParamsView,
    DeviceFeatures, DeviceFeaturesView, DeviceSummary, DeviceSummaryView, ExecParams,
    ExecParamsView, ExecResult, ExecResultView, LogSnapshot, LogSnapshotView, LogTailParams,
    LogTailParamsView, ProcessSignalParams, ProcessSignalParamsView, ProcessSummary,
    ProcessSummaryView, SerialParams, SerialParamsView, SyncListParams, SyncListParamsView,
    SyncListResult, SyncListResultView, SyncMkdirParams, SyncMkdirParamsView, SyncMkdirResult,
    SyncMkdirResultView, SyncProgressPhase, SyncPullParams, SyncPullParamsView, SyncPullResult,
    SyncPullResultView, SyncPushParams, SyncPushParamsView, SyncPushResult, SyncPushResultView,
    SyncStatus, SyncStatusParams, SyncStatusParamsView, SyncStatusView,
};
use crate::rpc_error;
use crate::rpc_error::{ErrorCode, ErrorDetailView, RpcError, RpcErrorView};
use crate::runtime::laws;
use crate::runtime::model as device;
use crate::runtime::model::{
    HostBundle, HostBundleView, HostFile, HostFileView, PullDeliveryView, RuntimeView,
};
use crate::runtime::{PullDelivery, RuntimeState};
use crate::sorting;
use crate::sorting::sorted_set;
use crate::sync_operation::{HostSyncOperation, SyncOperationView};
use crate::text;
use crate::text::{concat, is_before, join_texts, same_text};
use vstd::prelude::*;

verus! {

/// The model of a value that may be absent.
pub open spec fn optional_view<T: View>(value: Option<T>) -> Option<T::V> {
    match value {
        Some(inner) => Some(inner@),
        None => None,
    }
}

/// A device with what it offers.
#[derive(Debug)]
pub struct DeviceRecord {
    pub summary: DeviceSummary,
    pub protocol_version: u32,
    pub features: Vec<String>,
}

/// The model of [`DeviceRecord`].
#[verifier::ext_equal]
pub struct DeviceRecordView {
    pub summary: DeviceSummaryView,
    pub protocol_version: u32,
    pub features: Seq<Seq<char>>,
}

impl View for DeviceRecord {
    type V = DeviceRecordView;

    open spec fn view(&self) -> DeviceRecordView {
        DeviceRecordView {
            summary: self.summary@,
            protocol_version: self.protocol_version,
            features: text::all(self.features@),
        }
    }
}

/// The models of a sequence of [`DeviceRecord`].
pub open spec fn device_record_views(items: Seq<DeviceRecord>) -> Seq<DeviceRecordView> {
    Seq::new(items.len(), |i: int| items[i]@)
}

/// A request to a device provider.
#[derive(Debug)]
pub enum DeviceOperation {
    List,
    Features(String),
    Ping(String),
    Exec(ExecParams),
    /// With what the host found at the local path.
    SyncPush(SyncPushParams, HostFile),
    /// With whether the local path is absolute.
    SyncPull(SyncPullParams, bool),
    SyncStatus(SyncStatusParams),
    SyncList(SyncListParams),
    SyncMkdir(SyncMkdirParams),
    /// With what the host found at the local path.
    AppInstall(AppInstallParams, HostBundle),
    AppStart(AppTargetParams),
    AppStop(AppTargetParams),
    AppRestart(AppTargetParams),
    AppRollback(AppTargetParams),
    AppUninstall(AppTargetParams),
    AppList(SerialParams),
    AppLog(AppLogParams),
    ProcessList(SerialParams),
    ProcessSignal(ProcessSignalParams),
    LogTail(LogTailParams),
}

/// The model of [`DeviceOperation`].
#[verifier::ext_equal]
pub enum DeviceOperationView {
    List,
    Features(Seq<char>),
    Ping(Seq<char>),
    Exec(ExecParamsView),
    SyncPush(SyncPushParamsView, HostFileView),
    SyncPull(SyncPullParamsView, bool),
    SyncStatus(SyncStatusParamsView),
    SyncList(SyncListParamsView),
    SyncMkdir(SyncMkdirParamsView),
    AppInstall(AppInstallParamsView, HostBundleView),
    AppStart(AppTargetParamsView),
    AppStop(AppTargetParamsView),
    AppRestart(AppTargetParamsView),
    AppRollback(AppTargetParamsView),
    AppUninstall(AppTargetParamsView),
    AppList(SerialParamsView),
    AppLog(AppLogParamsView),
    ProcessList(SerialParamsView),
    ProcessSignal(ProcessSignalParamsView),
    LogTail(LogTailParamsView),
}

impl View for DeviceOperation {
    type V = DeviceOperationView;

    open spec fn view(&self) -> DeviceOperationView {
        match *self {
            DeviceOperation::List => DeviceOperationView::List,
            DeviceOperation::Features(serial) => DeviceOperationView::Features(serial@),
            DeviceOperation::Ping(serial) => DeviceOperationView::Ping(serial@),
            DeviceOperation::Exec(params) => DeviceOperationView::Exec(params@),
            DeviceOperation::SyncPush(params, source) => DeviceOperationView::SyncPush(params@, source@),
            DeviceOperation::SyncPull(params, absolute) => DeviceOperationView::SyncPull(params@, absolute),
            DeviceOperation::SyncStatus(params) => DeviceOperationView::SyncStatus(params@),
            DeviceOperation::SyncList(params) => DeviceOperationView::SyncList(params@),
            DeviceOperation::SyncMkdir(params) => DeviceOperationView::SyncMkdir(params@),
            DeviceOperation::AppInstall(params, bundle) => DeviceOperationView::AppInstall(params@, bundle@),
            DeviceOperation::AppStart(params) => DeviceOperationView::AppStart(params@),
            DeviceOperation::AppStop(params) => DeviceOperationView::AppStop(params@),
            DeviceOperation::AppRestart(params) => DeviceOperationView::AppRestart(params@),
            DeviceOperation::AppRollback(params) => DeviceOperationView::AppRollback(params@),
            DeviceOperation::AppUninstall(params) => DeviceOperationView::AppUninstall(params@),
            DeviceOperation::AppList(params) => DeviceOperationView::AppList(params@),
            DeviceOperation::AppLog(params) => DeviceOperationView::AppLog(params@),
            DeviceOperation::ProcessList(params) => DeviceOperationView::ProcessList(params@),
            DeviceOperation::ProcessSignal(params) => DeviceOperationView::ProcessSignal(params@),
            DeviceOperation::LogTail(params) => DeviceOperationView::LogTail(params@),
        }
    }
}

/// The device that a request is about, if it is about one.
pub open spec fn device_asked(operation: DeviceOperationView) -> Option<Seq<char>> {
    match operation {
        DeviceOperationView::List => None,
        DeviceOperationView::Features(serial) => Some(serial),
        DeviceOperationView::Ping(serial) => Some(serial),
        DeviceOperationView::Exec(params) => Some(params.serial),
        DeviceOperationView::SyncPush(params, _) => Some(params.serial),
        DeviceOperationView::SyncPull(params, _) => Some(params.serial),
        DeviceOperationView::SyncStatus(params) => Some(params.serial),
        DeviceOperationView::SyncList(params) => Some(params.serial),
        DeviceOperationView::SyncMkdir(params) => Some(params.serial),
        DeviceOperationView::AppInstall(params, _) => Some(params.serial),
        DeviceOperationView::AppStart(params) => Some(params.serial),
        DeviceOperationView::AppStop(params) => Some(params.serial),
        DeviceOperationView::AppRestart(params) => Some(params.serial),
        DeviceOperationView::AppRollback(params) => Some(params.serial),
        DeviceOperationView::AppUninstall(params) => Some(params.serial),
        DeviceOperationView::AppList(params) => Some(params.serial),
        DeviceOperationView::AppLog(params) => Some(params.serial),
        DeviceOperationView::ProcessList(params) => Some(params.serial),
        DeviceOperationView::ProcessSignal(params) => Some(params.serial),
        DeviceOperationView::LogTail(params) => Some(params.serial),
    }
}

/// What a device provider answers.
#[derive(Debug)]
pub enum DeviceOperationResult {
    Devices(Vec<DeviceSummary>),
    Features(Option<DeviceFeatures>),
    Ping(bool),
    Exec(Option<ExecResult>),
    SyncPush(SyncPushResult),
    SyncPull(PullDelivery),
    SyncStatus(SyncStatus),
    SyncList(SyncListResult),
    SyncMkdir(SyncMkdirResult),
    App(AppSummary),
    Apps(Vec<AppSummary>),
    AppLog(AppLogSnapshot),
    Processes(Vec<ProcessSummary>),
    Process(ProcessSummary),
    Log(LogSnapshot),
}

/// The model of [`DeviceOperationResult`].
#[verifier::ext_equal]
pub enum DeviceOperationResultView {
    Devices(Seq<DeviceSummaryView>),
    Features(Option<DeviceFeaturesView>),
    Ping(bool),
    Exec(Option<ExecResultView>),
    SyncPush(SyncPushResultView),
    SyncPull(PullDeliveryView),
    SyncStatus(SyncStatusView),
    SyncList(SyncListResultView),
    SyncMkdir(SyncMkdirResultView),
    App(AppSummaryView),
    Apps(Seq<AppSummaryView>),
    AppLog(AppLogSnapshotView),
    Processes(Seq<ProcessSummaryView>),
    Process(ProcessSummaryView),
    Log(LogSnapshotView),
}

impl View for DeviceOperationResult {
    type V = DeviceOperationResultView;

    open spec fn view(&self) -> DeviceOperationResultView {
        match *self {
            DeviceOperationResult::Devices(value) => DeviceOperationResultView::Devices(model::device_summary_views(value@)),
            DeviceOperationResult::Features(value) => DeviceOperationResultView::Features(optional_view(value)),
            DeviceOperationResult::Ping(value) => DeviceOperationResultView::Ping(value),
            DeviceOperationResult::Exec(value) => DeviceOperationResultView::Exec(optional_view(value)),
            DeviceOperationResult::SyncPush(value) => DeviceOperationResultView::SyncPush(value@),
            DeviceOperationResult::SyncPull(value) => DeviceOperationResultView::SyncPull(value@),
            DeviceOperationResult::SyncStatus(value) => DeviceOperationResultView::SyncStatus(value@),
            DeviceOperationResult::SyncList(value) => DeviceOperationResultView::SyncList(value@),
            DeviceOperationResult::SyncMkdir(value) => DeviceOperationResultView::SyncMkdir(value@),
            DeviceOperationResult::App(value) => DeviceOperationResultView::App(value@),
            DeviceOperationResult::Apps(value) => DeviceOperationResultView::Apps(model::app_summary_views(value@)),
            DeviceOperationResult::AppLog(value) => DeviceOperationResultView::AppLog(value@),
            DeviceOperationResult::Processes(value) => DeviceOperationResultView::Processes(model::process_summary_views(value@)),
            DeviceOperationResult::Process(value) => DeviceOperationResultView::Process(value@),
            DeviceOperationResult::Log(value) => DeviceOperationResultView::Log(value@),
        }
    }
}

/// A failure of a provider. What it says is kept from clients unless it was
/// made public.
#[derive(Debug)]
pub struct ProviderError {
    message: String,
    public_message: Option<String>,
}

/// The model of [`ProviderError`].
#[verifier::ext_equal]
pub struct ProviderErrorView {
    pub message: Seq<char>,
    pub public_message: Option<Seq<char>>,
}

impl View for ProviderError {
    type V = ProviderErrorView;

    closed spec fn view(&self) -> ProviderErrorView {
        ProviderErrorView {
            message: self.message@,
            public_message: text::optional(self.public_message),
        }
    }
}

impl ProviderError {
    /// A failure that clients learn nothing of.
    pub fn new(message: &str) -> (error: Self)
        ensures
            error@ == (ProviderErrorView { message: message@, public_message: None }),
    {
        ProviderError { message: message.to_owned(), public_message: None }
    }

    /// A failure that clients are told.
    pub fn public(message: &str) -> (error: Self)
        ensures
            error@ == (ProviderErrorView { message: message@, public_message: Some(message@) }),
    {
        ProviderError { message: message.to_owned(), public_message: Some(message.to_owned()) }
    }

    /// The full text of the failure.
    pub fn to_text(&self) -> (text: String)
        ensures
            text@ == "device provider failed: "@ + self@.message,
    {
        concat("device provider failed: ", self.message.as_str())
    }
}

/// What clients are told of a provider failure.
pub open spec fn public_error(error: ProviderErrorView) -> RpcErrorView {
    rpc_error::plain_error(
        ErrorCode::ServerNotReady,
        match error.public_message {
            Some(message) => message,
            None => "Server not ready"@,
        },
    )
}

/// Turns a provider failure into an answer. Most details can hold host paths or
/// transport internals, so only public messages are passed on.
pub fn provider_rpc_error(error: ProviderError) -> (answer: RpcError)
    ensures
        answer@ == public_error(error@),
{
    match error.public_message {
        Some(message) => RpcError::new(ErrorCode::ServerNotReady, message.as_str()),
        None => RpcError::new(ErrorCode::ServerNotReady, "Server not ready"),
    }
}

/// What a device offers, each feature once and in ascending order.
pub open spec fn is_features_of(features: DeviceFeaturesView, record: DeviceRecordView) -> bool {
    &&& features.serial == record.summary.serial
    &&& features.protocol_version == record.protocol_version
    &&& sorting::is_sorted_set(features.features, record.features)
}

impl DeviceRecord {
    /// What this device offers.
    pub fn features(&self) -> (features: DeviceFeatures)
        ensures
            is_features_of(features@, self@),
    {
        DeviceFeatures {
            serial: self.summary.serial.clone(),
            protocol_version: self.protocol_version,
            features: sorted_set(&self.features),
        }
    }
}

/// Something that serves requests to devices.
pub trait DeviceProvider: Sized {
    /// Whether the provider can serve requests.
    spec fn ready(&self) -> bool;

    /// Whether a request can be answered so, with this effect.
    spec fn performed(
        before: Self,
        operation: DeviceOperationView,
        after: Self,
        answer: Result<DeviceOperationResultView, RpcErrorView>,
    ) -> bool;

    /// Serves one request.
    fn perform(&mut self, operation: DeviceOperation) -> (answer: Result<
        DeviceOperationResult,
        RpcError,
    >)
        requires
            old(self).ready(),
        ensures
            final(self).ready(),
            Self::performed(*old(self), operation@, *final(self), rpc_error::outcome(answer)),
    ;
}

/// The push result in an answer, or an internal error.
pub open spec fn push_in(
    answer: Result<DeviceOperationResultView, RpcErrorView>,
) -> Result<SyncPushResultView, RpcErrorView> {
    match answer {
        Ok(DeviceOperationResultView::SyncPush(result)) => Ok(result),
        Ok(_) => Err(rpc_error::plain_error(ErrorCode::InternalError, "Internal error"@)),
        Err(error) => Err(error),
    }
}

/// The pull result in an answer, or an internal error.
pub open spec fn pull_in(
    answer: Result<DeviceOperationResultView, RpcErrorView>,
) -> Result<PullDeliveryView, RpcErrorView> {
    match answer {
        Ok(DeviceOperationResultView::SyncPull(result)) => Ok(result),
        Ok(_) => Err(rpc_error::plain_error(ErrorCode::InternalError, "Internal error"@)),
        Err(error) => Err(error),
    }
}

impl DeviceOperationResult {
    /// The push result, or an internal error.
    pub fn into_sync_push(self) -> (result: Result<SyncPushResult, RpcError>)
        ensures
            rpc_error::outcome(result) == push_in(Ok(self@)),
    {
        match self {
            DeviceOperationResult::SyncPush(result) => Ok(result),
            _ => Err(RpcError::internal_error()),
        }
    }

    /// The pull result, or an internal error.
    pub fn into_sync_pull(self) -> (result: Result<PullDelivery, RpcError>)
        ensures
            rpc_error::outcome(result) == pull_in(Ok(self@)),
    {
        match self {
            DeviceOperationResult::SyncPull(result) => Ok(result),
            _ => Err(RpcError::internal_error()),
        }
    }
}

/// Serves a push, and sets the transferred bytes to what was accepted.
pub fn sync_push_observed<P: DeviceProvider, H>(
    provider: &mut P,
    params: SyncPushParams,
    source: HostFile,
    observer: &mut HostSyncOperation<H>,
) -> (result: Result<SyncPushResult, RpcError>)
    requires
        old(provider).ready(),
    ensures
        final(provider).ready(),
        exists|answer: Result<DeviceOperationResultView, RpcErrorView>| #[trigger]
            P::performed(
                *old(provider),
                DeviceOperationView::SyncPush(params@, source@),
                *final(provider),
                answer,
            ) && rpc_error::outcome(result) == push_in(answer),
        final(observer)@ == (match result {
            Ok(pushed) => SyncOperationView { transferred: pushed.accepted_offset, ..old(observer)@ },
            Err(_) => old(observer)@,
        }),
{
    let answer = provider.perform(DeviceOperation::SyncPush(params, source));
    assert(P::performed(
        *old(provider),
        DeviceOperationView::SyncPush(params@, source@),
        *provider,
        rpc_error::outcome(answer),
    ));
    let result = answer?.into_sync_push()?;
    observer.transferred(result.accepted_offset);
    Ok(result)
}

/// Whether writing these bytes can have ended so.
pub open spec fn wrote<W: FnOnce(&Vec<u8>) -> Result<(), RpcError>>(
    write: W,
    data: Seq<u8>,
    written: Result<(), RpcErrorView>,
) -> bool {
    exists|bytes: Vec<u8>, outcome: Result<(), RpcError>| #[trigger]
        write.ensures((&bytes,), outcome) && bytes@ == data && rpc_error::outcome(outcome)
            == written
}

/// Whether a pull can have ended so while an observer watched: a failed pull, and one
/// whose bytes could not be written, leave the observer as it was; after the writing it
/// shows what was received.
pub open spec fn pull_observed<H>(
    pulled: Result<PullDeliveryView, RpcErrorView>,
    wrote: spec_fn(Seq<u8>, Result<(), RpcErrorView>) -> bool,
    before: SyncOperationView<H>,
    reached: SyncOperationView<H>,
    after: SyncOperationView<H>,
    result: Result<SyncPullResultView, RpcErrorView>,
) -> bool {
    match pulled {
        Err(error) => result == Err::<SyncPullResultView, _>(error) && after == before,
        Ok(delivery) => match result {
            Ok(answer) => wrote(delivery.data, Ok(())) && answer == delivery.result && after
                == reached,
            Err(error) => wrote(delivery.data, Err(error)) && after == before,
        },
    }
}

/// Serves a pull whose bytes are then written, and sets the transferred bytes to what
/// was received.
pub fn sync_pull_observed<
    P: DeviceProvider,
    H,
    W: FnOnce(&Vec<u8>) -> Result<(), RpcError>,
>(
    provider: &mut P,
    params: SyncPullParams,
    local_is_absolute: bool,
    write: W,
    observer: &mut HostSyncOperation<H>,
) -> (result: Result<SyncPullResult, RpcError>)
    requires
        old(provider).ready(),
        forall|data: &Vec<u8>| write.requires((data,)),
    ensures
        final(provider).ready(),
        exists|answer: Result<DeviceOperationResultView, RpcErrorView>| #[trigger]
            P::performed(
                *old(provider),
                DeviceOperationView::SyncPull(params@, local_is_absolute),
                *final(provider),
                answer,
            ) && pull_observed(
                pull_in(answer),
                |data: Seq<u8>, written: Result<(), RpcErrorView>| wrote(write, data, written),
                old(observer)@,
                SyncOperationView {
                    transferred: pull_in(answer)->Ok_0.result.received_size,
                    ..old(observer)@
                },
                final(observer)@,
                rpc_error::outcome(result),
            ),
{
    let answer = provider.perform(DeviceOperation::SyncPull(params, local_is_absolute));
    assert(P::performed(
        *old(provider),
        DeviceOperationView::SyncPull(params@, local_is_absolute),
        *provider,
        rpc_error::outcome(answer),
    ));
    let delivery = answer?.into_sync_pull()?;
    let written = write(&delivery.data);
    assert(wrote(write, delivery.data@, rpc_error::outcome(written)));
    written?;
    observer.transferred(delivery.result.received_size);
    Ok(delivery.result)
}

/// A provider whose devices live in memory.
pub struct MemoryDeviceProvider {
    devices: Vec<DeviceRecord>,
    runtime: RuntimeState,
}

/// The model of [`MemoryDeviceProvider`].
#[verifier::ext_equal]
pub struct MemoryDeviceProviderView {
    pub devices: Seq<DeviceRecordView>,
    pub runtime: RuntimeView,
}

impl View for MemoryDeviceProvider {
    type V = MemoryDeviceProviderView;

    closed spec fn view(&self) -> MemoryDeviceProviderView {
        MemoryDeviceProviderView {
            devices: device_record_views(self.devices@),
            runtime: self.runtime@,
        }
    }
}

/// The first device with a serial.
pub open spec fn device_with(records: Seq<DeviceRecordView>, serial: Seq<char>) -> Option<
    DeviceRecordView,
>
    decreases records.len(),
{
    if records.len() == 0 {
        None
    } else if records[0].summary.serial == serial {
        Some(records[0])
    } else {
        device_with(records.skip(1), serial)
    }
}

/// The state after every listed device has been connected, in order.
pub open spec fn all_connected(records: Seq<DeviceRecordView>) -> RuntimeView
    decreases records.len(),
{
    if records.len() == 0 {
        RuntimeView::empty()
    } else {
        all_connected(records.drop_last()).logged(
            records.last().summary.serial,
            "bridge"@,
            "device connected"@,
        )
    }
}

/// A list in ascending order of serials with one more device, behind those with
/// the same serial.
pub open spec fn inserted(list: Seq<DeviceSummaryView>, item: DeviceSummaryView) -> Seq<
    DeviceSummaryView,
>
    decreases list.len(),
{
    if list.len() == 0 || !text::before(item.serial, list.last().serial) {
        list.push(item)
    } else {
        inserted(list.drop_last(), item).push(list.last())
    }
}

/// The devices in ascending order of serials; those with the same serial keep
/// their order.
pub open spec fn device_list(records: Seq<DeviceRecordView>) -> Seq<DeviceSummaryView>
    decreases records.len(),
{
    if records.len() == 0 {
        Seq::empty()
    } else {
        inserted(device_list(records.drop_last()), records.last().summary)
    }
}

/// What the in-memory devices answer to a command.
pub open spec fn fake_exec(argv: Seq<Seq<char>>) -> ExecResultView {
    let arguments = text::joined(argv.skip(1), " "@);
    if argv[0] == "echo"@ {
        ExecResultView {
            exit_code: 0,
            stdout: arguments + "\n"@,
            stderr: Seq::empty(),
            duration_ms: 0,
        }
    } else if argv[0] == "false"@ {
        ExecResultView {
            exit_code: 1,
            stdout: Seq::empty(),
            stderr: Seq::empty(),
            duration_ms: 0,
        }
    } else {
        ExecResultView {
            exit_code: 0,
            stdout: "fake exec: "@ + argv[0] + " "@ + arguments + "\n"@,
            stderr: Seq::empty(),
            duration_ms: 0,
        }
    }
}

/// The answer to a request to run a process.
pub open spec fn exec_outcome(records: Seq<DeviceRecordView>, params: ExecParamsView) -> Result<
    Option<ExecResultView>,
    RpcErrorView,
> {
    match device_with(records, params.serial) {
        None => Ok(None),
        Some(record) => if !record.features.contains("exec.v1"@) {
            Err(rpc_error::feature_unavailable(params.serial, "exec.v1"@))
        } else if params.argv.len() == 0 {
            Err(rpc_error::invalid_params("argv is empty"@))
        } else {
            Ok(Some(fake_exec(params.argv)))
        },
    }
}

/// A request that only a known device serves.
pub open spec fn on_device<T>(
    provider: MemoryDeviceProviderView,
    serial: Seq<char>,
    served: (RuntimeView, Result<T, RpcErrorView>),
) -> (RuntimeView, Result<T, RpcErrorView>) {
    if device_with(provider.devices, serial) is Some {
        served
    } else {
        (provider.runtime, Err(rpc_error::device_not_found(serial)))
    }
}

/// The answer with an application summary in it.
pub open spec fn app_answer(result: Result<AppSummaryView, RpcErrorView>) -> Result<
    DeviceOperationResultView,
    RpcErrorView,
> {
    match result {
        Ok(summary) => Ok(DeviceOperationResultView::App(summary)),
        Err(error) => Err(error),
    }
}

/// Whether the in-memory devices answer a request so, with this effect.
pub open spec fn memory_performed(
    before: MemoryDeviceProviderView,
    operation: DeviceOperationView,
    after: MemoryDeviceProviderView,
    answer: Result<DeviceOperationResultView, RpcErrorView>,
) -> bool {
    let state = before.runtime;
    &&& after.devices == before.devices
    &&& match operation {
        DeviceOperationView::List => after.runtime == state && answer == Ok::<_, RpcErrorView>(
            DeviceOperationResultView::Devices(device_list(before.devices)),
        ),
        DeviceOperationView::Features(serial) => after.runtime == state && match device_with(
            before.devices,
            serial,
        ) {
            None => answer == Ok::<_, RpcErrorView>(DeviceOperationResultView::Features(None)),
            Some(record) => answer matches Ok(DeviceOperationResultView::Features(Some(features)))
                && is_features_of(features, record),
        },
        DeviceOperationView::Ping(serial) => after.runtime == state && answer
            == Ok::<_, RpcErrorView>(
            DeviceOperationResultView::Ping(device_with(before.devices, serial) is Some),
        ),
        DeviceOperationView::Exec(params) => after.runtime == state && answer == (
        match exec_outcome(before.devices, params) {
            Ok(result) => Ok(DeviceOperationResultView::Exec(result)),
            Err(error) => Err(error),
        }),
        DeviceOperationView::SyncPush(params, source) => {
            let served = on_device(before, params.serial, device::push(state, params, source));
            after.runtime == served.0 && answer == (match served.1 {
                Ok(result) => Ok(DeviceOperationResultView::SyncPush(result)),
                Err(error) => Err(error),
            })
        },
        DeviceOperationView::SyncPull(params, absolute) => {
            let served = on_device(before, params.serial, device::pull(state, params, absolute));
            after.runtime == served.0 && answer == (match served.1 {
                Ok(result) => Ok(DeviceOperationResultView::SyncPull(result)),
                Err(error) => Err(error),
            })
        },
        DeviceOperationView::SyncStatus(params) => {
            let served = on_device(
                before,
                params.serial,
                (state, device::status(state, params)),
            );
            after.runtime == served.0 && answer == (match served.1 {
                Ok(result) => Ok(DeviceOperationResultView::SyncStatus(result)),
                Err(error) => Err(error),
            })
        },
        DeviceOperationView::SyncList(params) => after.runtime == state && if device_with(
            before.devices,
            params.serial,
        ) is Some {
            match answer {
                Ok(DeviceOperationResultView::SyncList(result)) => device::is_list_answer(
                    state,
                    params,
                    Ok(result),
                ),
                Ok(_) => false,
                Err(error) => device::is_list_answer(state, params, Err(error)),
            }
        } else {
            answer == Err::<DeviceOperationResultView, _>(
                rpc_error::device_not_found(params.serial),
            )
        },
        DeviceOperationView::SyncMkdir(params) => {
            let served = on_device(before, params.serial, device::mkdir(state, params));
            after.runtime == served.0 && answer == (match served.1 {
                Ok(result) => Ok(DeviceOperationResultView::SyncMkdir(result)),
                Err(error) => Err(error),
            })
        },
        DeviceOperationView::AppInstall(params, bundle) => {
            let served = on_device(before, params.serial, device::install(state, params, bundle));
            after.runtime == served.0 && answer == app_answer(served.1)
        },
        DeviceOperationView::AppStart(params) => {
            let served = on_device(before, params.serial, device::start(state, params));
            after.runtime == served.0 && answer == app_answer(served.1)
        },
        DeviceOperationView::AppStop(params) => {
            let served = on_device(before, params.serial, device::stop(state, params));
            after.runtime == served.0 && answer == app_answer(served.1)
        },
        DeviceOperationView::AppRestart(params) => {
            let served = on_device(before, params.serial, device::restart(state, params));
            after.runtime == served.0 && answer == app_answer(served.1)
        },
        DeviceOperationView::AppRollback(params) => {
            let served = on_device(before, params.serial, device::rollback(state, params));
            after.runtime == served.0 && answer == app_answer(served.1)
        },
        DeviceOperationView::AppUninstall(params) => {
            let served = on_device(before, params.serial, device::uninstall(state, params));
            after.runtime == served.0 && answer == app_answer(served.1)
        },
        DeviceOperationView::AppList(params) => after.runtime == state && if device_with(
            before.devices,
            params.serial,
        ) is Some {
            answer matches Ok(DeviceOperationResultView::Apps(apps)) && device::is_app_list(
                state,
                params.serial,
                apps,
            )
        } else {
            answer == Err::<DeviceOperationResultView, _>(
                rpc_error::device_not_found(params.serial),
            )
        },
        DeviceOperationView::AppLog(params) => {
            let served = on_device(
                before,
                params.serial,
                (state, device::app_log(state, params)),
            );
            after.runtime == served.0 && answer == (match served.1 {
                Ok(result) => Ok(DeviceOperationResultView::AppLog(result)),
                Err(error) => Err(error),
            })
        },
        DeviceOperationView::ProcessList(params) => after.runtime == state && if device_with(
            before.devices,
            params.serial,
        ) is Some {
            answer matches Ok(DeviceOperationResultView::Processes(processes))
                && device::lists_processes(state, params.serial, processes)
        } else {
            answer == Err::<DeviceOperationResultView, _>(
                rpc_error::device_not_found(params.serial),
            )
        },
        DeviceOperationView::ProcessSignal(params) => {
            let served = on_device(before, params.serial, device::signal(state, params));
            after.runtime == served.0 && answer == (match served.1 {
                Ok(result) => Ok(DeviceOperationResultView::Process(result)),
                Err(error) => Err(error),
            })
        },
        DeviceOperationView::LogTail(params) => {
            let served = on_device(before, params.serial, (state, device::tail(state, params)));
            after.runtime == served.0 && answer == (match served.1 {
                Ok(result) => Ok(DeviceOperationResultView::Log(result)),
                Err(error) => Err(error),
            })
        },
    }
}

/// Devices with ascending serials stay so, and keep their number, when one more
/// is inserted.
proof fn inserted_is_sorted(list: Seq<DeviceSummaryView>, item: DeviceSummaryView)
    requires
        forall|i: int, j: int|
            0 <= i < j < list.len() ==> !text::before(
                (#[trigger] list[j]).serial,
                (#[trigger] list[i]).serial,
            ),
    ensures
        inserted(list, item).len() == list.len() + 1,
        forall|i: int, j: int|
            0 <= i < j < inserted(list, item).len() ==> !text::before(
                (#[trigger] inserted(list, item)[j]).serial,
                (#[trigger] inserted(list, item)[i]).serial,
            ),
        forall|i: int|
            0 <= i < inserted(list, item).len() ==> (#[trigger] inserted(list, item)[i]) == item
                || list.contains(inserted(list, item)[i]),
        inserted(list, item).to_multiset() == list.to_multiset().insert(item),
    decreases list.len(),
{
    broadcast use vstd::seq_lib::group_to_multiset_ensures;

    let result = inserted(list, item);
    if list.len() == 0 || !text::before(item.serial, list.last().serial) {
        assert forall|i: int, j: int| 0 <= i < j < result.len() implies !text::before(
            (#[trigger] result[j]).serial,
            (#[trigger] result[i]).serial,
        ) by {
            if j == list.len() && text::before(item.serial, result[i].serial) {
                if i < list.len() - 1 {
                    assert(!text::before(list.last().serial, list[i].serial));
                    text::before_total(list.last().serial, list[i].serial);
                    if text::before(list[i].serial, list.last().serial) {
                        text::before_transitive(item.serial, list[i].serial, list.last().serial);
                    }
                }
            }
        }
    } else {
        let head = list.drop_last();
        inserted_is_sorted(head, item);
        let moved = inserted(head, item);
        assert forall|i: int, j: int| 0 <= i < j < result.len() implies !text::before(
            (#[trigger] result[j]).serial,
            (#[trigger] result[i]).serial,
        ) by {
            if j == moved.len() {
                assert(moved[i] == item || head.contains(moved[i]));
                if moved[i] == item {
                    text::before_asymmetric(item.serial, list.last().serial);
                } else {
                    let k = choose|k: int| 0 <= k < head.len() && head[k] == moved[i];
                    assert(list[k] == moved[i]);
                }
            } else {
                assert(result[i] == moved[i]);
                assert(result[j] == moved[j]);
            }
        }
        assert forall|i: int| 0 <= i < result.len() implies (#[trigger] result[i]) == item
            || list.contains(result[i]) by {
            if i < moved.len() {
                assert(result[i] == moved[i]);
                if moved[i] != item {
                    let k = choose|k: int| 0 <= k < head.len() && head[k] == moved[i];
                    assert(list[k] == moved[i]);
                }
            } else {
                assert(list[list.len() - 1] == result[i]);
            }
        }
        assert(list =~= head.push(list.last()));
        assert(result.to_multiset() =~= list.to_multiset().insert(item));
    }
}

/// Listing keeps every device, in ascending order of serials.
pub proof fn device_list_is_sorted(records: Seq<DeviceRecordView>)
    ensures
        forall|i: int, j: int|
            0 <= i < j < device_list(records).len() ==> !text::before(
                (#[trigger] device_list(records)[j]).serial,
                (#[trigger] device_list(records)[i]).serial,
            ),
        device_list(records).to_multiset() == records.map_values(
            |record: DeviceRecordView| record.summary,
        ).to_multiset(),
    decreases records.len(),
{
    broadcast use vstd::seq_lib::group_to_multiset_ensures;

    let summaries = records.map_values(|record: DeviceRecordView| record.summary);
    if records.len() > 0 {
        let head = records.drop_last();
        device_list_is_sorted(head);
        inserted_is_sorted(device_list(head), records.last().summary);
        assert(summaries =~= head.map_values(|record: DeviceRecordView| record.summary).push(
            records.last().summary,
        ));
    } else {
        assert(summaries =~= Seq::<DeviceSummaryView>::empty());
        assert(device_list(records) =~= summaries);
    }
}

fn insert_device(list: &mut Vec<DeviceSummary>, item: DeviceSummary)
    ensures
        model::device_summary_views(final(list)@) == inserted(
            model::device_summary_views(old(list)@),
            item@,
        ),
{
    let mut position: usize = list.len();
    let ghost before = model::device_summary_views(list@);
    assert(before.take(position as int) =~= before);
    assert(before.skip(position as int) =~= Seq::empty());
    assert(inserted(before, item@) =~= inserted(before, item@) + Seq::empty());
    while position > 0 && is_before(item.serial.as_str(), list[position - 1].serial.as_str())
        invariant
            position <= list@.len(),
            list@ == old(list)@,
            before == model::device_summary_views(list@),
            inserted(before, item@) == inserted(before.take(position as int), item@) + before.skip(
                position as int,
            ),
        decreases position,
    {
        let ghost head = before.take(position as int);
        let ghost last = list@[position - 1]@;
        assert(head.last() == last);
        assert(head.drop_last() =~= before.take(position - 1));
        assert(inserted(before, item@) =~= inserted(before.take(position - 1), item@) + before.skip(
            position - 1,
        ));
        position -= 1;
    }
    let ghost head = before.take(position as int);
    assert(position > 0 ==> head.last() == list@[position - 1]@);
    let ghost inserted_view = item@;
    list.insert(position, item);
    assert(model::device_summary_views(list@) =~= inserted(before, inserted_view));
}

impl MemoryDeviceProvider {
    /// The tables of the devices are in order.
    pub closed spec fn wf(&self) -> bool {
        self.runtime.wf()
    }

    /// A provider of these devices.
    pub fn new(devices: Vec<DeviceRecord>) -> (provider: Self)
        ensures
            provider.wf(),
            provider@ == (MemoryDeviceProviderView {
                devices: device_record_views(devices@),
                runtime: all_connected(device_record_views(devices@)),
            }),
    {
        let mut runtime = RuntimeState::new();
        let ghost records = device_record_views(devices@);
        let mut i: usize = 0;
        while i < devices.len()
            invariant
                i <= devices.len(),
                records == device_record_views(devices@),
                runtime.wf(),
                runtime@ == all_connected(records.take(i as int)),
            decreases devices.len() - i,
        {
            runtime.device_connected(devices[i].summary.serial.as_str());
            assert(records.take(i + 1).drop_last() =~= records.take(i as int));
            i += 1;
        }
        assert(records.take(i as int) =~= records);
        MemoryDeviceProvider { devices, runtime }
    }

    /// The devices of this provider.
    pub fn records(&self) -> (records: &[DeviceRecord])
        ensures
            device_record_views(records@) == self@.devices,
    {
        self.devices.as_slice()
    }

    fn find(&self, serial: &str) -> (record: Option<&DeviceRecord>)
        ensures
            optional_view(record) == device_with(self@.devices, serial@),
    {
        let ghost records = self@.devices;
        let mut i: usize = 0;
        assert(records.skip(0) =~= records);
        while i < self.devices.len()
            invariant
                i <= self.devices.len(),
                records == device_record_views(self.devices@),
                device_with(records, serial@) == device_with(records.skip(i as int), serial@),
            decreases self.devices.len() - i,
        {
            assert(records.skip(i as int)[0] == self.devices@[i as int]@);
            if same_text(self.devices[i].summary.serial.as_str(), serial) {
                return Some(&self.devices[i]);
            }
            assert(records.skip(i as int).skip(1) =~= records.skip(i + 1));
            i += 1;
        }
        None
    }

    fn ensure_device(&self, serial: &str) -> (result: Result<(), RpcError>)
        ensures
            rpc_error::outcome(result) == (if device_with(self@.devices, serial@) is Some {
                Ok(())
            } else {
                Err(rpc_error::device_not_found(serial@))
            }),
    {
        if self.find(serial).is_some() {
            Ok(())
        } else {
            Err(RpcError::device_not_found(serial))
        }
    }

    /// The devices in ascending order of serials.
    pub fn list(&self) -> (devices: Vec<DeviceSummary>)
        ensures
            model::device_summary_views(devices@) == device_list(self@.devices),
    {
        let ghost records = self@.devices;
        let mut devices: Vec<DeviceSummary> = Vec::new();
        let mut i: usize = 0;
        assert(model::device_summary_views(devices@) =~= device_list(records.take(0)));
        while i < self.devices.len()
            invariant
                i <= self.devices.len(),
                records == device_record_views(self.devices@),
                model::device_summary_views(devices@) == device_list(records.take(i as int)),
            decreases self.devices.len() - i,
        {
            let ghost next = records.take(i + 1);
            assert(next.drop_last() =~= records.take(i as int));
            assert(next.last() == self.devices@[i as int]@);
            insert_device(&mut devices, self.devices[i].summary.duplicate());
            i += 1;
        }
        assert(records.take(i as int) =~= records);
        devices
    }

    /// Runs a process.
    pub fn exec(&self, params: &ExecParams) -> (result: Result<Option<ExecResult>, RpcError>)
        ensures
            match result {
                Ok(value) => exec_outcome(self@.devices, params@) == Ok::<_, RpcErrorView>(
                    optional_view(value),
                ),
                Err(error) => exec_outcome(self@.devices, params@) == Err::<
                    Option<ExecResultView>,
                    _,
                >(error@),
            },
    {
        let record = match self.find(params.serial.as_str()) {
            None => {
                return Ok(None);
            },
            Some(record) => record,
        };
        if !has_text(&record.features, "exec.v1") {
            return Err(RpcError::feature_unavailable(params.serial.as_str(), "exec.v1"));
        }
        if params.argv.len() == 0 {
            return Err(RpcError::invalid_params("argv is empty"));
        }
        let arguments = join_texts(&params.argv, 1, " ");
        let command = params.argv[0].as_str();
        assert(params@.argv[0] == command@);
        let result = if same_text(command, "echo") {
            ExecResult {
                exit_code: 0,
                stdout: concat(arguments.as_str(), "\n"),
                stderr: String::new(),
                duration_ms: 0,
            }
        } else if same_text(command, "false") {
            ExecResult {
                exit_code: 1,
                stdout: String::new(),
                stderr: String::new(),
                duration_ms: 0,
            }
        } else {
            let mut stdout = concat("fake exec: ", command);
            stdout.append(" ");
            stdout.append(arguments.as_str());
            stdout.append("\n");
            ExecResult { exit_code: 0, stdout, stderr: String::new(), duration_ms: 0 }
        };
        Ok(Some(result))
    }

    /// Serves a push while an observer watches. `local_size` is the size of the
    /// local file, or 0 where it cannot be told.
    pub fn sync_push_observed<H>(
        &mut self,
        params: &SyncPushParams,
        source: &HostFile,
        local_size: u64,
        observer: &mut HostSyncOperation<H>,
    ) -> (result: Result<SyncPushResult, RpcError>)
        requires
            old(self).wf(),
        ensures
            final(self).wf(),
            final(self)@.devices == old(self)@.devices,
            old(observer)@.cancelled ==> {
                &&& final(self)@.runtime == old(self)@.runtime
                &&& rpc_error::outcome(result) == Err::<SyncPushResultView, _>(
                    rpc_error::plain_error(ErrorCode::TransferCancelled, "Transfer cancelled"@),
                )
                &&& final(observer)@ == (SyncOperationView {
                    phase: SyncProgressPhase::Hashing,
                    transferred: 0,
                    total: local_size,
                    ..old(observer)@
                })
            },
            !old(observer)@.cancelled ==> {
                &&& (final(self)@.runtime, rpc_error::outcome(result)) == on_device(
                    old(self)@,
                    params@.serial,
                    device::push(old(self)@.runtime, params@, source@),
                )
                &&& final(observer)@ == (match rpc_error::outcome(result) {
                    Ok(pushed) => SyncOperationView {
                        phase: SyncProgressPhase::Transferring,
                        transferred: pushed.accepted_offset,
                        total: local_size,
                        transfer_id: Some(pushed.transfer_id),
                        ..old(observer)@
                    },
                    Err(_) => SyncOperationView {
                        phase: SyncProgressPhase::Transferring,
                        transferred: 0,
                        total: local_size,
                        ..old(observer)@
                    },
                })
            },
    {
        observer.phase(SyncProgressPhase::Hashing, 0, local_size);
        if observer.is_cancelled() {
            return Err(RpcError::new(ErrorCode::TransferCancelled, "Transfer cancelled"));
        }
        observer.transferred(local_size);
        observer.phase(SyncProgressPhase::Transferring, 0, local_size);
        self.ensure_device(params.serial.as_str())?;
        let result = self.runtime.sync_push(params, source)?;
        observer.transferred(result.accepted_offset);
        observer.transfer_id(result.transfer_id.clone());
        Ok(result)
    }

    /// Serves a pull, whose bytes are then written, while an observer watches.
    pub fn sync_pull_observed<H, W: FnOnce(&Vec<u8>) -> Result<(), RpcError>>(
        &mut self,
        params: &SyncPullParams,
        local_is_absolute: bool,
        write: W,
        observer: &mut HostSyncOperation<H>,
    ) -> (result: Result<SyncPullResult, RpcError>)
        requires
            old(self).wf(),
            forall|data: &Vec<u8>| write.requires((data,)),
        ensures
            final(self).wf(),
            final(self)@.devices == old(self)@.devices,
            old(observer)@.cancelled ==> {
                &&& final(self)@.runtime == old(self)@.runtime
                &&& final(observer)@ == pull_begun(old(observer)@)
                &&& rpc_error::outcome(result) == Err::<SyncPullResultView, _>(
                    rpc_error::plain_error(ErrorCode::TransferCancelled, "Transfer cancelled"@),
                )
            },
            !old(observer)@.cancelled ==> {
                let pulled = on_device(
                    old(self)@,
                    params@.serial,
                    device::pull(old(self)@.runtime, params@, local_is_absolute),
                );
                &&& final(self)@.runtime == pulled.0
                &&& pull_observed(
                    pulled.1,
                    |data: Seq<u8>, written: Result<(), RpcErrorView>| wrote(write, data, written),
                    pull_begun(old(observer)@),
                    SyncOperationView {
                        transferred: pulled.1->Ok_0.result.received_size,
                        total: pulled.1->Ok_0.result.total_size,
                        transfer_id: Some(pulled.1->Ok_0.result.transfer_id),
                        ..pull_begun(old(observer)@)
                    },
                    final(observer)@,
                    rpc_error::outcome(result),
                )
            },
    {
        observer.phase(SyncProgressPhase::Transferring, 0, 0);
        if observer.is_cancelled() {
            return Err(RpcError::new(ErrorCode::TransferCancelled, "Transfer cancelled"));
        }
        self.ensure_device(params.serial.as_str())?;
        let delivery = self.runtime.sync_pull(params, local_is_absolute)?;
        let written = write(&delivery.data);
        assert(wrote(write, delivery.data@, rpc_error::outcome(written)));
        written?;
        observer.transfer_id(delivery.result.transfer_id.clone());
        observer.phase(
            SyncProgressPhase::Transferring,
            delivery.result.received_size,
            delivery.result.total_size,
        );
        Ok(delivery.result)
    }
}

/// An observer at the beginning of a pull, whose size is not known yet.
pub open spec fn pull_begun<H>(observer: SyncOperationView<H>) -> SyncOperationView<H> {
    SyncOperationView {
        phase: SyncProgressPhase::Transferring,
        transferred: 0,
        total: 0,
        ..observer
    }
}

/// Whether a text is among others.
pub fn has_text(texts: &Vec<String>, wanted: &str) -> (found: bool)
    ensures
        found == text::all(texts@).contains(wanted@),
{
    let mut i: usize = 0;
    while i < texts.len()
        invariant
            i <= texts.len(),
            forall|k: int| 0 <= k < i ==> (#[trigger] texts@[k])@ != wanted@,
        decreases texts.len() - i,
    {
        if same_text(texts[i].as_str(), wanted) {
            assert(text::all(texts@)[i as int] == wanted@);
            return true;
        }
        i += 1;
    }
    false
}

impl DeviceProvider for MemoryDeviceProvider {
    open spec fn ready(&self) -> bool {
        self.wf()
    }

    open spec fn performed(
        before: Self,
        operation: DeviceOperationView,
        after: Self,
        answer: Result<DeviceOperationResultView, RpcErrorView>,
    ) -> bool {
        memory_performed(before@, operation, after@, answer)
    }

    fn perform(&mut self, operation: DeviceOperation) -> (answer: Result<
        DeviceOperationResult,
        RpcError,
    >) {
        self.serve(operation)
    }
}

impl MemoryDeviceProvider {
    fn processes(&self, params: &SerialParams) -> (answer: Result<DeviceOperationResult, RpcError>)
        requires
            self.wf(),
        ensures
            memory_performed(
                self@,
                DeviceOperationView::ProcessList(params@),
                self@,
                rpc_error::outcome(answer),
            ),
    {
        self.ensure_device(params.serial.as_str())?;
        let processes = self.runtime.process_list(params);
        Ok(DeviceOperationResult::Processes(processes))
    }

    fn apps(&self, params: &SerialParams) -> (answer: Result<DeviceOperationResult, RpcError>)
        requires
            self.wf(),
        ensures
            memory_performed(
                self@,
                DeviceOperationView::AppList(params@),
                self@,
                rpc_error::outcome(answer),
            ),
    {
        self.ensure_device(params.serial.as_str())?;
        Ok(DeviceOperationResult::Apps(self.runtime.app_list(params)))
    }

    fn listing(&self, params: &SyncListParams) -> (answer: Result<DeviceOperationResult, RpcError>)
        requires
            self.wf(),
        ensures
            memory_performed(
                self@,
                DeviceOperationView::SyncList(params@),
                self@,
                rpc_error::outcome(answer),
            ),
    {
        self.ensure_device(params.serial.as_str())?;
        Ok(DeviceOperationResult::SyncList(self.runtime.sync_list(params)?))
    }

    fn serve(&mut self, operation: DeviceOperation) -> (answer: Result<
        DeviceOperationResult,
        RpcError,
    >)
        requires
            old(self).wf(),
        ensures
            final(self).wf(),
            memory_performed(old(self)@, operation@, final(self)@, rpc_error::outcome(answer)),
    {
        match operation {
            DeviceOperation::List => Ok(DeviceOperationResult::Devices(self.list())),
            DeviceOperation::Features(serial) => match self.find(serial.as_str()) {
                Some(record) => Ok(DeviceOperationResult::Features(Some(record.features()))),
                None => Ok(DeviceOperationResult::Features(None)),
            },
            DeviceOperation::Ping(serial) => Ok(
                DeviceOperationResult::Ping(self.find(serial.as_str()).is_some()),
            ),
            DeviceOperation::Exec(params) => match self.exec(&params) {
                Ok(result) => Ok(DeviceOperationResult::Exec(result)),
                Err(error) => Err(error),
            },
            DeviceOperation::SyncPush(params, source) => {
                self.ensure_device(params.serial.as_str())?;
                Ok(DeviceOperationResult::SyncPush(self.runtime.sync_push(&params, &source)?))
            },
            DeviceOperation::SyncPull(params, absolute) => {
                self.ensure_device(params.serial.as_str())?;
                Ok(DeviceOperationResult::SyncPull(self.runtime.sync_pull(&params, absolute)?))
            },
            DeviceOperation::SyncStatus(params) => {
                self.ensure_device(params.serial.as_str())?;
                Ok(DeviceOperationResult::SyncStatus(self.runtime.sync_status(&params)?))
            },
            DeviceOperation::SyncList(params) => self.listing(&params),
            DeviceOperation::SyncMkdir(params) => {
                self.ensure_device(params.serial.as_str())?;
                Ok(DeviceOperationResult::SyncMkdir(self.runtime.sync_mkdir(&params)?))
            },
            DeviceOperation::AppInstall(params, bundle) => {
                self.ensure_device(params.serial.as_str())?;
                Ok(DeviceOperationResult::App(self.runtime.app_install(&params, &bundle)?))
            },
            DeviceOperation::AppStart(params) => {
                self.ensure_device(params.serial.as_str())?;
                Ok(DeviceOperationResult::App(self.runtime.app_start(&params)?))
            },
            DeviceOperation::AppStop(params) => {
                self.ensure_device(params.serial.as_str())?;
                Ok(DeviceOperationResult::App(self.runtime.app_stop(&params)?))
            },
            DeviceOperation::AppRestart(params) => {
                self.ensure_device(params.serial.as_str())?;
                Ok(DeviceOperationResult::App(self.runtime.app_restart(&params)?))
            },
            DeviceOperation::AppRollback(params) => {
                self.ensure_device(params.serial.as_str())?;
                Ok(DeviceOperationResult::App(self.runtime.app_rollback(&params)?))
            },
            DeviceOperation::AppUninstall(params) => {
                self.ensure_device(params.serial.as_str())?;
                Ok(DeviceOperationResult::App(self.runtime.app_uninstall(&params)?))
            },
            DeviceOperation::AppList(params) => self.apps(&params),
            DeviceOperation::AppLog(params) => {
                self.ensure_device(params.serial.as_str())?;
                Ok(DeviceOperationResult::AppLog(self.runtime.app_log(&params)?))
            },
            DeviceOperation::ProcessList(params) => self.processes(&params),
            DeviceOperation::ProcessSignal(params) => {
                self.ensure_device(params.serial.as_str())?;
                Ok(DeviceOperationResult::Process(self.runtime.process_signal(&params)?))
            },
            DeviceOperation::LogTail(params) => {
                self.ensure_device(params.serial.as_str())?;
                Ok(DeviceOperationResult::Log(self.runtime.log_tail(&params)?))
            },
        }
    }
}

/// A request for a device that is not there changes nothing and is not answered as if
/// it were: a ping, a question for features and a command find nothing, and everything
/// else says which device is missing.
pub proof fn missing_devices_answer_nothing(
    before: MemoryDeviceProviderView,
    operation: DeviceOperationView,
    after: MemoryDeviceProviderView,
    answer: Result<DeviceOperationResultView, RpcErrorView>,
)
    requires
        memory_performed(before, operation, after, answer),
        device_asked(operation) is Some,
        device_with(before.devices, device_asked(operation)->0) is None,
    ensures
        after == before,
        match operation {
            DeviceOperationView::Ping(_) => answer == Ok::<_, RpcErrorView>(
                DeviceOperationResultView::Ping(false),
            ),
            DeviceOperationView::Features(_) => answer == Ok::<_, RpcErrorView>(
                DeviceOperationResultView::Features(None),
            ),
            DeviceOperationView::Exec(_) => answer == Ok::<_, RpcErrorView>(
                DeviceOperationResultView::Exec(None),
            ),
            _ => answer matches Err(error) && error.code == ErrorCode::DeviceNotFound && error.detail
                == ErrorDetailView::Serial(device_asked(operation)->0),
        },
{
}

/// A device is found by its serial: the one that is found has it, and where none is
/// found no device has it.
pub proof fn records_are_found_by_their_serial(records: Seq<DeviceRecordView>, serial: Seq<char>)
    ensures
        match device_with(records, serial) {
            Some(record) => record.summary.serial == serial && records.contains(record),
            None => forall|i: int|
                0 <= i < records.len() ==> (#[trigger] records[i]).summary.serial != serial,
        },
    decreases records.len(),
{
    if records.len() > 0 && records[0].summary.serial != serial {
        let rest = records.skip(1);
        records_are_found_by_their_serial(rest, serial);
        match device_with(records, serial) {
            Some(record) => {
                let i = choose|i: int| 0 <= i < rest.len() && rest[i] == record;
                assert(records[i + 1] == record);
            },
            None => {
                assert forall|i: int| 0 <= i < records.len() implies (
                #[trigger] records[i]).summary.serial != serial by {
                    if i > 0 {
                        assert(rest[i - 1] == records[i]);
                    }
                }
            },
        }
    } else if records.len() > 0 {
        assert(records[0] == device_with(records, serial)->0);
    }
}

/// A question changes nothing, whatever it finds; no request adds or removes a device.
pub proof fn questions_change_nothing(
    before: MemoryDeviceProviderView,
    operation: DeviceOperationView,
    after: MemoryDeviceProviderView,
    answer: Result<DeviceOperationResultView, RpcErrorView>,
)
    requires
        memory_performed(before, operation, after, answer),
    ensures
        after.devices == before.devices,
        operation is List || operation is Features || operation is Ping || operation is SyncStatus
            || operation is SyncList || operation is AppList || operation is AppLog || operation
            is ProcessList || operation is LogTail ==> after == before,
{
}

/// Every device is listed, once, and says of itself what it is: its own features, and
/// that it is there.
pub proof fn devices_answer_for_themselves(
    before: MemoryDeviceProviderView,
    serial: Seq<char>,
    after: MemoryDeviceProviderView,
    listed: Result<DeviceOperationResultView, RpcErrorView>,
    offered: Result<DeviceOperationResultView, RpcErrorView>,
    pinged: Result<DeviceOperationResultView, RpcErrorView>,
)
    requires
        memory_performed(before, DeviceOperationView::List, after, listed),
        memory_performed(before, DeviceOperationView::Features(serial), after, offered),
        memory_performed(before, DeviceOperationView::Ping(serial), after, pinged),
    ensures
        listed matches Ok(DeviceOperationResultView::Devices(devices)) && devices.to_multiset()
            == before.devices.map_values(
            |record: DeviceRecordView| record.summary,
        ).to_multiset(),
        pinged matches Ok(DeviceOperationResultView::Ping(there)) && (there <==> exists|i: int|
            0 <= i < before.devices.len() && (#[trigger] before.devices[i]).summary.serial
                == serial),
        offered matches Ok(DeviceOperationResultView::Features(Some(features)))
            ==> features.serial == serial,
        offered matches Ok(DeviceOperationResultView::Features(found)) && (found is Some <==> pinged
            == Ok::<_, RpcErrorView>(DeviceOperationResultView::Ping(true))),
{
    device_list_is_sorted(before.devices);
    records_are_found_by_their_serial(before.devices, serial);
    if let Some(record) = device_with(before.devices, serial) {
        let i = choose|i: int| 0 <= i < before.devices.len() && before.devices[i] == record;
        assert(before.devices[i].summary.serial == serial);
    }
}

/// What has been pushed to a device can be pulled from it, byte for byte.
pub proof fn served_pushes_can_be_pulled(
    before: MemoryDeviceProviderView,
    push: SyncPushParamsView,
    source: HostFileView,
    between: MemoryDeviceProviderView,
    pushed: Result<DeviceOperationResultView, RpcErrorView>,
    pull: SyncPullParamsView,
    after: MemoryDeviceProviderView,
    pulled: Result<DeviceOperationResultView, RpcErrorView>,
)
    requires
        memory_performed(before, DeviceOperationView::SyncPush(push, source), between, pushed),
        pushed is Ok,
        memory_performed(between, DeviceOperationView::SyncPull(pull, true), after, pulled),
        pull.serial == push.serial,
        pull.remote_path == push.remote_path,
        pull.transfer_id is None,
        1 <= pull.block_size <= device::MAX_SYNC_BLOCK_SIZE,
    ensures
        pulled matches Ok(DeviceOperationResultView::SyncPull(delivery)) && source
            == HostFileView::Content(delivery.data) && delivery.result.received_size
            == delivery.data.len() as u64,
{
    laws::pull_returns_what_was_pushed(before.runtime, push, source, pull);
}

/// An application that was restarted runs, as does a stopped one that was started; one
/// that was stopped or rolled back does not run, and one that was removed is gone. The
/// answer is about the application that was named.
pub proof fn applications_do_as_asked(
    before: MemoryDeviceProviderView,
    operation: DeviceOperationView,
    target: AppTargetParamsView,
    after: MemoryDeviceProviderView,
    answer: Result<DeviceOperationResultView, RpcErrorView>,
)
    requires
        memory_performed(before, operation, after, answer),
        answer is Ok,
        operation == DeviceOperationView::AppStart(target) || operation
            == DeviceOperationView::AppStop(target) || operation
            == DeviceOperationView::AppRestart(target) || operation
            == DeviceOperationView::AppRollback(target) || operation
            == DeviceOperationView::AppUninstall(target),
    ensures
        answer matches Ok(DeviceOperationResultView::App(app)) && app.app_id == target.app_id,
        ({
            let key = (target.serial, target.app_id);
            let app = answer->Ok_0->App_0;
            let running = after.runtime.apps[key].state == AppState::Running;
            &&& before.runtime.apps.dom().contains(key)
            &&& operation is AppUninstall <==> !after.runtime.apps.dom().contains(key)
            &&& operation is AppRestart ==> running && app.state == AppState::Running
            &&& operation is AppStart ==> app.state != AppState::Stopped && app.state
                == after.runtime.apps[key].state
            &&& operation is AppStart && before.runtime.apps[key].state == AppState::Stopped
                ==> running
            &&& operation is AppStop || operation is AppRollback ==> !running && app.state
                == AppState::Stopped && app.pid is None
            &&& operation is AppRollback ==> after.runtime.apps[key].history.len() + 1
                == before.runtime.apps[key].history.len()
            &&& operation is AppStart || operation is AppStop || operation is AppRestart
                ==> after.runtime.apps[key].history == before.runtime.apps[key].history
                && after.runtime.apps[key].bundle_root == before.runtime.apps[key].bundle_root
        }),
{
}

/// Of a failure that is not meant for clients they learn the same whatever it says; one
/// that is meant for them is told as it is.
pub proof fn private_failures_stay_private(left: Seq<char>, right: Seq<char>, told: Seq<char>)
    ensures
        public_error(ProviderErrorView { message: left, public_message: None }) == public_error(
            ProviderErrorView { message: right, public_message: None },
        ),
        public_error(ProviderErrorView { message: left, public_message: Some(told) }).message
            == told,
        public_error(ProviderErrorView { message: left, public_message: None }).code
            == ErrorCode::ServerNotReady,
{
}

/// An answer of another kind never counts as a transfer.
pub proof fn only_transfers_count_as_transfers(
    answer: Result<DeviceOperationResultView, RpcErrorView>,
)
    ensures
        push_in(answer) matches Ok(result) ==> answer == Ok::<_, RpcErrorView>(
            DeviceOperationResultView::SyncPush(result),
        ),
        pull_in(answer) matches Ok(result) ==> answer == Ok::<_, RpcErrorView>(
            DeviceOperationResultView::SyncPull(result),
        ),
        answer matches Err(error) ==> push_in(answer) == Err::<SyncPushResultView, _>(error)
            && pull_in(answer) == Err::<PullDeliveryView, _>(error),
        answer is Ok && answer->Ok_0 is SyncPush ==> push_in(answer) is Ok,
        answer is Ok && answer->Ok_0 is SyncPull ==> pull_in(answer) is Ok,
{
}

/// An observed pull succeeds where the device delivers and the bytes delivered are written,
/// and then shows what was received; where either fails it fails so, and the observer is
/// left as it was.
pub proof fn observed_pulls_are_written<H>(
    pulled: Result<PullDeliveryView, RpcErrorView>,
    wrote: spec_fn(Seq<u8>, Result<(), RpcErrorView>) -> bool,
    before: SyncOperationView<H>,
    reached: SyncOperationView<H>,
    after: SyncOperationView<H>,
    result: Result<SyncPullResultView, RpcErrorView>,
)
    requires
        pull_observed(pulled, wrote, before, reached, after, result),
    ensures
        result matches Ok(answer) ==> (pulled matches Ok(delivery) && answer == delivery.result
            && wrote(delivery.data, Ok(())) && after == reached),
        result matches Err(error) ==> after == before && (pulled == Err::<PullDeliveryView, _>(
            error,
        ) || (pulled matches Ok(delivery) && wrote(delivery.data, Err(error)))),
{
}

} // verus!
