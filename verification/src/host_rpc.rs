//! Request and reply dispatch on the local link.

use crate::methods;
use crate::methods::Method;
use crate::model;
use crate::model::{
    AppInstallParams, AppInstallParamsView, AppLogParams, AppLogParamsView, AppLogSnapshot,
    AppLogSnapshotView, AppSummary, AppSummaryView, AppTargetParams, AppTargetParamsView,
    DeviceFeatures, DeviceFeaturesView, DeviceSummary, DeviceSummaryView, ExecParams,
    ExecParamsView, ExecResult, ExecResultView, LogSnapshot, LogSnapshotView, LogTailParams,
    LogTailParamsView, ProcessSignalParams, ProcessSignalParamsView, ProcessSummary,
    ProcessSummaryView, SerialParams, SerialParamsView, SyncListParams, SyncListParamsView,
    SyncListResult, SyncListResultView, SyncMkdirParams, SyncMkdirParamsView, SyncMkdirResult,
    SyncMkdirResultView, SyncPullParams, SyncPullParamsView, SyncPushParams, SyncPushParamsView,
    SyncPushResult, SyncPushResultView, SyncStatus, SyncStatusParams, SyncStatusParamsView,
    SyncStatusView,
};
use crate::provider::{
    has_text, DeviceOperation, DeviceOperationResult, DeviceOperationResultView,
    DeviceOperationView, DeviceProvider,
};
use crate::rpc_error;
use crate::rpc_error::{ErrorCode, ErrorDetailView, RpcError, RpcErrorView};
use crate::runtime::model::{HostBundle, HostBundleView, HostFile, HostFileView, PullDeliveryView};
use crate::runtime::PullDelivery;
use vstd::prelude::*;

verus! {

/// The version of the interface that the host service offers.
pub const API_VERSION: &'static str = "v1";

/// What a server says of itself.
#[derive(Debug)]
pub struct ServerVersion {
    pub name: String,
    pub version: String,
    pub api_version: String,
}

/// The model of [`ServerVersion`].
#[verifier::ext_equal]
pub struct ServerVersionView {
    pub name: Seq<char>,
    pub version: Seq<char>,
    pub api_version: Seq<char>,
}

impl View for ServerVersion {
    type V = ServerVersionView;

    open spec fn view(&self) -> ServerVersionView {
        ServerVersionView {
            name: self.name@,
            version: self.version@,
            api_version: self.api_version@,
        }
    }
}

/// The parameters of a request, read in the shape that its method takes.
#[derive(Debug)]
pub enum Params {
    /// There are none.
    Absent,
    /// An empty object or array.
    Empty,
    /// Something that does not have the shape.
    Malformed,
    Serial(SerialParams),
    Exec(ExecParams),
    SyncPush(SyncPushParams, HostFile),
    SyncPull(SyncPullParams, bool),
    SyncStatus(SyncStatusParams),
    SyncList(SyncListParams),
    SyncMkdir(SyncMkdirParams),
    AppInstall(AppInstallParams, HostBundle),
    AppTarget(AppTargetParams),
    AppLog(AppLogParams),
    ProcessSignal(ProcessSignalParams),
    LogTail(LogTailParams),
}

/// The model of [`Params`].
#[verifier::ext_equal]
pub enum ParamsView {
    Absent,
    Empty,
    Malformed,
    Serial(SerialParamsView),
    Exec(ExecParamsView),
    SyncPush(SyncPushParamsView, HostFileView),
    SyncPull(SyncPullParamsView, bool),
    SyncStatus(SyncStatusParamsView),
    SyncList(SyncListParamsView),
    SyncMkdir(SyncMkdirParamsView),
    AppInstall(AppInstallParamsView, HostBundleView),
    AppTarget(AppTargetParamsView),
    AppLog(AppLogParamsView),
    ProcessSignal(ProcessSignalParamsView),
    LogTail(LogTailParamsView),
}

impl View for Params {
    type V = ParamsView;

    open spec fn view(&self) -> ParamsView {
        match *self {
            Params::Absent => ParamsView::Absent,
            Params::Empty => ParamsView::Empty,
            Params::Malformed => ParamsView::Malformed,
            Params::Serial(params) => ParamsView::Serial(params@),
            Params::Exec(params) => ParamsView::Exec(params@),
            Params::SyncPush(params, source) => ParamsView::SyncPush(params@, source@),
            Params::SyncPull(params, absolute) => ParamsView::SyncPull(params@, absolute),
            Params::SyncStatus(params) => ParamsView::SyncStatus(params@),
            Params::SyncList(params) => ParamsView::SyncList(params@),
            Params::SyncMkdir(params) => ParamsView::SyncMkdir(params@),
            Params::AppInstall(params, bundle) => ParamsView::AppInstall(params@, bundle@),
            Params::AppTarget(params) => ParamsView::AppTarget(params@),
            Params::AppLog(params) => ParamsView::AppLog(params@),
            Params::ProcessSignal(params) => ParamsView::ProcessSignal(params@),
            Params::LogTail(params) => ParamsView::LogTail(params@),
        }
    }
}

/// The result of a request.
#[derive(Debug)]
pub enum Reply {
    /// The server or the device is there.
    Pong,
    /// The server runs, under this process number.
    Running(u32),
    /// The server will stop.
    Stopping,
    Version(ServerVersion),
    Devices(Vec<DeviceSummary>),
    Features(DeviceFeatures),
    Exec(ExecResult),
    SyncPush(SyncPushResult),
    SyncPull(PullDelivery),
    SyncStatus(SyncStatus),
    SyncList(SyncListResult),
    SyncMkdir(SyncMkdirResult),
    App(AppSummary),
    Apps(Vec<AppSummary>),
    AppLog(AppLogSnapshot),
    Processes(Vec<ProcessSummary>),
    Process(ProcessSummary),
    Log(LogSnapshot),
}

/// The model of [`Reply`].
#[verifier::ext_equal]
pub enum ReplyView {
    Pong,
    Running(u32),
    Stopping,
    Version(ServerVersionView),
    Devices(Seq<DeviceSummaryView>),
    Features(DeviceFeaturesView),
    Exec(ExecResultView),
    SyncPush(SyncPushResultView),
    SyncPull(PullDeliveryView),
    SyncStatus(SyncStatusView),
    SyncList(SyncListResultView),
    SyncMkdir(SyncMkdirResultView),
    App(AppSummaryView),
    Apps(Seq<AppSummaryView>),
    AppLog(AppLogSnapshotView),
    Processes(Seq<ProcessSummaryView>),
    Process(ProcessSummaryView),
    Log(LogSnapshotView),
}

impl View for Reply {
    type V = ReplyView;

    open spec fn view(&self) -> ReplyView {
        match *self {
            Reply::Pong => ReplyView::Pong,
            Reply::Running(pid) => ReplyView::Running(pid),
            Reply::Stopping => ReplyView::Stopping,
            Reply::Version(value) => ReplyView::Version(value@),
            Reply::Devices(value) => ReplyView::Devices(model::device_summary_views(value@)),
            Reply::Features(value) => ReplyView::Features(value@),
            Reply::Exec(value) => ReplyView::Exec(value@),
            Reply::SyncPush(value) => ReplyView::SyncPush(value@),
            Reply::SyncPull(value) => ReplyView::SyncPull(value@),
            Reply::SyncStatus(value) => ReplyView::SyncStatus(value@),
            Reply::SyncList(value) => ReplyView::SyncList(value@),
            Reply::SyncMkdir(value) => ReplyView::SyncMkdir(value@),
            Reply::App(value) => ReplyView::App(value@),
            Reply::Apps(value) => ReplyView::Apps(model::app_summary_views(value@)),
            Reply::AppLog(value) => ReplyView::AppLog(value@),
            Reply::Processes(value) => ReplyView::Processes(model::process_summary_views(value@)),
            Reply::Process(value) => ReplyView::Process(value@),
            Reply::Log(value) => ReplyView::Log(value@),
        }
    }
}

/// What the server knows of itself.
#[derive(Debug)]
pub struct ServerState {
    stop_requested: bool,
    version: String,
    pid: u32,
}

/// The model of [`ServerState`].
#[verifier::ext_equal]
pub struct ServerStateView {
    pub stop_requested: bool,
    pub version: Seq<char>,
    pub pid: u32,
}

impl View for ServerState {
    type V = ServerStateView;

    closed spec fn view(&self) -> ServerStateView {
        ServerStateView {
            stop_requested: self.stop_requested,
            version: self.version@,
            pid: self.pid,
        }
    }
}

impl ServerState {
    /// A running server of this version, under this process number.
    pub fn new(version: String, pid: u32) -> (server: Self)
        ensures
            server@ == (ServerStateView { stop_requested: false, version: version@, pid }),
    {
        ServerState { stop_requested: false, version, pid }
    }
}

/// Whether a client has asked the server to stop.
pub fn server_stop_requested(server: &ServerState) -> (requested: bool)
    ensures
        requested == server@.stop_requested,
{
    server.stop_requested
}

/// Forgets a request to stop.
pub fn reset_server_stop_requested(server: &mut ServerState)
    ensures
        final(server)@ == (ServerStateView { stop_requested: false, ..old(server)@ }),
{
    server.stop_requested = false;
}

/// What becomes of a request.
pub enum Route {
    /// It is refused.
    Refused(RpcErrorView),
    /// It is answered without a device.
    Direct(ReplyView),
    /// It asks the server to stop.
    Stop,
    /// A device provider serves it.
    One(DeviceOperationView),
    /// A device runs a process, if it has the feature.
    Run(ExecParamsView),
}

/// Whether parameters are as good as none.
pub open spec fn no_params(params: ParamsView) -> bool {
    params == ParamsView::Absent || params == ParamsView::Empty
}

/// Why a request without parameters is refused, if it is.
pub open spec fn without_params(params: ParamsView, route: Route) -> Route {
    if no_params(params) {
        route
    } else {
        Route::Refused(rpc_error::invalid_params("method takes no params"@))
    }
}

/// Why parameters of the wrong shape are refused.
pub open spec fn wrong_params(params: ParamsView, expected: Seq<char>) -> Route {
    if params == ParamsView::Absent {
        Route::Refused(rpc_error::invalid_params("missing params object"@))
    } else {
        Route::Refused(rpc_error::invalid_params(expected))
    }
}

/// What becomes of a request for one device.
pub open spec fn for_serial(serial: Seq<char>, operation: DeviceOperationView) -> Route {
    if serial.len() == 0 {
        Route::Refused(rpc_error::invalid_params("serial must not be empty"@))
    } else {
        Route::One(operation)
    }
}

/// What becomes of a request.
pub open spec fn route(server: ServerStateView, method: Seq<char>, params: ParamsView) -> Route {
    match methods::method_named(method) {
        Some(Method::ServerPing) => without_params(params, Route::Direct(ReplyView::Pong)),
        Some(Method::ServerVersion) => without_params(
            params,
            Route::Direct(
                ReplyView::Version(
                    ServerVersionView {
                        name: "kindlebridge-server"@,
                        version: server.version,
                        api_version: API_VERSION@,
                    },
                ),
            ),
        ),
        Some(Method::ServerStatus) => without_params(
            params,
            Route::Direct(ReplyView::Running(server.pid)),
        ),
        Some(Method::ServerStop) => without_params(params, Route::Stop),
        Some(Method::DeviceList) => without_params(params, Route::One(DeviceOperationView::List)),
        Some(Method::DeviceFeatures) => match params {
            ParamsView::Serial(params) => for_serial(
                params.serial,
                DeviceOperationView::Features(params.serial),
            ),
            _ => wrong_params(params, "expected { serial: string }"@),
        },
        Some(Method::DevicePing) => match params {
            ParamsView::Serial(params) => for_serial(
                params.serial,
                DeviceOperationView::Ping(params.serial),
            ),
            _ => wrong_params(params, "device ping params"@),
        },
        Some(Method::ExecRun) => match params {
            ParamsView::Exec(params) => if params.serial.len() == 0 || params.argv.len() == 0
                || params.timeout_ms == 0 {
                Route::Refused(
                    rpc_error::invalid_params(
                        "serial and argv must be non-empty; timeout_ms must be positive"@,
                    ),
                )
            } else {
                Route::Run(params)
            },
            _ => wrong_params(
                params,
                "expected serial, non-empty argv, cwd, environment, timeout_ms"@,
            ),
        },
        Some(Method::SyncPush) => match params {
            ParamsView::SyncPush(params, source) => Route::One(DeviceOperationView::SyncPush(params, source)),
            _ => wrong_params(params, "sync push params"@),
        },
        Some(Method::SyncPull) => match params {
            ParamsView::SyncPull(params, absolute) => Route::One(DeviceOperationView::SyncPull(params, absolute)),
            _ => wrong_params(params, "sync pull params"@),
        },
        Some(Method::SyncStatus) => match params {
            ParamsView::SyncStatus(params) => Route::One(DeviceOperationView::SyncStatus(params)),
            _ => wrong_params(params, "sync status params"@),
        },
        Some(Method::SyncList) => match params {
            ParamsView::SyncList(params) => Route::One(DeviceOperationView::SyncList(params)),
            _ => wrong_params(params, "sync list params"@),
        },
        Some(Method::SyncMkdir) => match params {
            ParamsView::SyncMkdir(params) => Route::One(DeviceOperationView::SyncMkdir(params)),
            _ => wrong_params(params, "sync mkdir params"@),
        },
        Some(Method::AppInstall) => match params {
            ParamsView::AppInstall(params, bundle) => Route::One(DeviceOperationView::AppInstall(params, bundle)),
            _ => wrong_params(params, "app install params"@),
        },
        Some(Method::AppStart) => match params {
            ParamsView::AppTarget(params) => Route::One(DeviceOperationView::AppStart(params)),
            _ => wrong_params(params, "app target params"@),
        },
        Some(Method::AppStop) => match params {
            ParamsView::AppTarget(params) => Route::One(DeviceOperationView::AppStop(params)),
            _ => wrong_params(params, "app target params"@),
        },
        Some(Method::AppRestart) => match params {
            ParamsView::AppTarget(params) => Route::One(DeviceOperationView::AppRestart(params)),
            _ => wrong_params(params, "app target params"@),
        },
        Some(Method::AppRollback) => match params {
            ParamsView::AppTarget(params) => Route::One(DeviceOperationView::AppRollback(params)),
            _ => wrong_params(params, "app target params"@),
        },
        Some(Method::AppUninstall) => match params {
            ParamsView::AppTarget(params) => Route::One(DeviceOperationView::AppUninstall(params)),
            _ => wrong_params(params, "app target params"@),
        },
        Some(Method::AppList) => match params {
            ParamsView::Serial(params) => Route::One(DeviceOperationView::AppList(params)),
            _ => wrong_params(params, "serial params"@),
        },
        Some(Method::AppLog) => match params {
            ParamsView::AppLog(params) => Route::One(DeviceOperationView::AppLog(params)),
            _ => wrong_params(params, "app log params"@),
        },
        Some(Method::ProcessList) => match params {
            ParamsView::Serial(params) => Route::One(DeviceOperationView::ProcessList(params)),
            _ => wrong_params(params, "serial params"@),
        },
        Some(Method::ProcessSignal) => match params {
            ParamsView::ProcessSignal(params) => Route::One(DeviceOperationView::ProcessSignal(params)),
            _ => wrong_params(params, "process signal params"@),
        },
        Some(Method::LogTail) => match params {
            ParamsView::LogTail(params) => Route::One(DeviceOperationView::LogTail(params)),
            _ => wrong_params(params, "log tail params"@),
        },
        _ => Route::Refused(rpc_error::method_not_found(method)),
    }
}

/// The internal error.
pub open spec fn internal() -> RpcErrorView {
    rpc_error::plain_error(ErrorCode::InternalError, "Internal error"@)
}

/// The reply that an answer of the provider makes. An answer of the wrong kind
/// is an internal error; a device that the provider does not know is not found.
pub open spec fn reply_from(
    operation: DeviceOperationView,
    answer: Result<DeviceOperationResultView, RpcErrorView>,
) -> Result<ReplyView, RpcErrorView> {
    match answer {
        Err(error) => Err(error),
        Ok(result) => match (operation, result) {
            (DeviceOperationView::List, DeviceOperationResultView::Devices(devices)) => Ok(
                ReplyView::Devices(devices),
            ),
            (
                DeviceOperationView::Features(serial),
                DeviceOperationResultView::Features(found),
            ) => match found {
                Some(features) => Ok(ReplyView::Features(features)),
                None => Err(rpc_error::device_not_found(serial)),
            },
            (DeviceOperationView::Ping(serial), DeviceOperationResultView::Ping(found)) => if found {
                Ok(ReplyView::Pong)
            } else {
                Err(rpc_error::device_not_found(serial))
            },
            (DeviceOperationView::Exec(params), DeviceOperationResultView::Exec(found)) =>
                match found {
                Some(result) => Ok(ReplyView::Exec(result)),
                None => Err(rpc_error::device_not_found(params.serial)),
            },
            (
                DeviceOperationView::SyncPush(_, _),
                DeviceOperationResultView::SyncPush(value),
            ) => Ok(ReplyView::SyncPush(value)),
            (
                DeviceOperationView::SyncPull(_, _),
                DeviceOperationResultView::SyncPull(value),
            ) => Ok(ReplyView::SyncPull(value)),
            (
                DeviceOperationView::SyncStatus(_),
                DeviceOperationResultView::SyncStatus(value),
            ) => Ok(ReplyView::SyncStatus(value)),
            (DeviceOperationView::SyncList(_), DeviceOperationResultView::SyncList(value)) => Ok(
                ReplyView::SyncList(value),
            ),
            (DeviceOperationView::SyncMkdir(_), DeviceOperationResultView::SyncMkdir(value)) => Ok(
                ReplyView::SyncMkdir(value),
            ),
            (DeviceOperationView::AppInstall(_, _), DeviceOperationResultView::App(value)) => Ok(
                ReplyView::App(value),
            ),
            (DeviceOperationView::AppStart(_), DeviceOperationResultView::App(value)) => Ok(
                ReplyView::App(value),
            ),
            (DeviceOperationView::AppStop(_), DeviceOperationResultView::App(value)) => Ok(
                ReplyView::App(value),
            ),
            (DeviceOperationView::AppRestart(_), DeviceOperationResultView::App(value)) => Ok(
                ReplyView::App(value),
            ),
            (DeviceOperationView::AppRollback(_), DeviceOperationResultView::App(value)) => Ok(
                ReplyView::App(value),
            ),
            (DeviceOperationView::AppUninstall(_), DeviceOperationResultView::App(value)) => Ok(
                ReplyView::App(value),
            ),
            (DeviceOperationView::AppList(_), DeviceOperationResultView::Apps(value)) => Ok(
                ReplyView::Apps(value),
            ),
            (DeviceOperationView::AppLog(_), DeviceOperationResultView::AppLog(value)) => Ok(
                ReplyView::AppLog(value),
            ),
            (
                DeviceOperationView::ProcessList(_),
                DeviceOperationResultView::Processes(value),
            ) => Ok(ReplyView::Processes(value)),
            (
                DeviceOperationView::ProcessSignal(_),
                DeviceOperationResultView::Process(value),
            ) => Ok(ReplyView::Process(value)),
            (DeviceOperationView::LogTail(_), DeviceOperationResultView::Log(value)) => Ok(
                ReplyView::Log(value),
            ),
            _ => Err(internal()),
        },
    }
}

/// Whether one request to the provider can give this reply, with this effect.
pub open spec fn served_once<P: DeviceProvider>(
    before: P,
    operation: DeviceOperationView,
    after: P,
    reply: Result<ReplyView, RpcErrorView>,
) -> bool {
    exists|answer: Result<DeviceOperationResultView, RpcErrorView>| #[trigger]
        P::performed(before, operation, after, answer) && reply == reply_from(operation, answer)
}

/// Whether running a process can give this reply, with this effect: the features
/// of the device are asked for first, and only a device that has the feature is
/// asked to run the process.
pub open spec fn served_run<P: DeviceProvider>(
    before: P,
    params: ExecParamsView,
    after: P,
    reply: Result<ReplyView, RpcErrorView>,
) -> bool {
    let asked = DeviceOperationView::Features(params.serial);
    exists|between: P, known: Result<ReplyView, RpcErrorView>| #[trigger]
        served_once(before, asked, between, known) && match known {
            Ok(ReplyView::Features(features)) => if features.features.contains("exec.v1"@) {
                served_once(between, DeviceOperationView::Exec(params), after, reply)
            } else {
                after == between && reply == Err::<ReplyView, _>(
                    rpc_error::feature_unavailable(params.serial, "exec.v1"@),
                )
            },
            Ok(_) => false,
            Err(error) => after == between && reply == Err::<ReplyView, _>(error),
        }
}

/// Whether a request can be answered so, with this effect on the server and on
/// the provider.
pub open spec fn dispatched<P: DeviceProvider>(
    server_before: ServerStateView,
    before: P,
    method: Seq<char>,
    params: ParamsView,
    server_after: ServerStateView,
    after: P,
    reply: Result<ReplyView, RpcErrorView>,
) -> bool {
    match route(server_before, method, params) {
        Route::Refused(error) => server_after == server_before && after == before && reply == Err::<
            ReplyView,
            _,
        >(error),
        Route::Direct(answer) => server_after == server_before && after == before && reply == Ok::<
            _,
            RpcErrorView,
        >(answer),
        Route::Stop => after == before && server_after == (ServerStateView {
            stop_requested: true,
            ..server_before
        }) && reply == Ok::<_, RpcErrorView>(ReplyView::Stopping),
        Route::One(operation) => server_after == server_before && served_once(
            before,
            operation,
            after,
            reply,
        ),
        Route::Run(params) => server_after == server_before && served_run(
            before,
            params,
            after,
            reply,
        ),
    }
}

/// Asks the provider once, and turns its answer into a reply.
fn serve_once<P: DeviceProvider>(provider: &mut P, operation: DeviceOperation) -> (reply: Result<
    Reply,
    RpcError,
>)
    requires
        old(provider).ready(),
    ensures
        final(provider).ready(),
        served_once(*old(provider), operation@, *final(provider), rpc_error::outcome(reply)),
{
    let ghost asked = operation@;
    let expected = Expected::of(&operation);
    let answer = provider.perform(operation);
    assert(P::performed(*old(provider), asked, *provider, rpc_error::outcome(answer)));
    expected.reply(Ghost(asked), answer?)
}

/// The kind of answer that an operation calls for.
enum Expected {
    Devices,
    Features(String),
    Ping(String),
    Exec(String),
    SyncPush,
    SyncPull,
    SyncStatus,
    SyncList,
    SyncMkdir,
    App,
    Apps,
    AppLog,
    Processes,
    Process,
    Log,
}

impl Expected {
    spec fn fits(&self, operation: DeviceOperationView) -> bool {
        match operation {
            DeviceOperationView::List => self == Expected::Devices,
            DeviceOperationView::Features(serial) => self matches Expected::Features(own) && own@
                == serial,
            DeviceOperationView::Ping(serial) => self matches Expected::Ping(own) && own@ == serial,
            DeviceOperationView::Exec(params) => self matches Expected::Exec(own) && own@
                == params.serial,
            DeviceOperationView::SyncPush(_, _) => self == Expected::SyncPush,
            DeviceOperationView::SyncPull(_, _) => self == Expected::SyncPull,
            DeviceOperationView::SyncStatus(_) => self == Expected::SyncStatus,
            DeviceOperationView::SyncList(_) => self == Expected::SyncList,
            DeviceOperationView::SyncMkdir(_) => self == Expected::SyncMkdir,
            DeviceOperationView::AppInstall(_, _) => self == Expected::App,
            DeviceOperationView::AppStart(_) => self == Expected::App,
            DeviceOperationView::AppStop(_) => self == Expected::App,
            DeviceOperationView::AppRestart(_) => self == Expected::App,
            DeviceOperationView::AppRollback(_) => self == Expected::App,
            DeviceOperationView::AppUninstall(_) => self == Expected::App,
            DeviceOperationView::AppList(_) => self == Expected::Apps,
            DeviceOperationView::AppLog(_) => self == Expected::AppLog,
            DeviceOperationView::ProcessList(_) => self == Expected::Processes,
            DeviceOperationView::ProcessSignal(_) => self == Expected::Process,
            DeviceOperationView::LogTail(_) => self == Expected::Log,
        }
    }

    fn of(operation: &DeviceOperation) -> (expected: Self)
        ensures
            expected.fits(operation@),
    {
        match operation {
            DeviceOperation::List => Expected::Devices,
            DeviceOperation::Features(serial) => Expected::Features(serial.clone()),
            DeviceOperation::Ping(serial) => Expected::Ping(serial.clone()),
            DeviceOperation::Exec(params) => Expected::Exec(params.serial.clone()),
            DeviceOperation::SyncPush(_, _) => Expected::SyncPush,
            DeviceOperation::SyncPull(_, _) => Expected::SyncPull,
            DeviceOperation::SyncStatus(_) => Expected::SyncStatus,
            DeviceOperation::SyncList(_) => Expected::SyncList,
            DeviceOperation::SyncMkdir(_) => Expected::SyncMkdir,
            DeviceOperation::AppInstall(_, _) => Expected::App,
            DeviceOperation::AppStart(_) => Expected::App,
            DeviceOperation::AppStop(_) => Expected::App,
            DeviceOperation::AppRestart(_) => Expected::App,
            DeviceOperation::AppRollback(_) => Expected::App,
            DeviceOperation::AppUninstall(_) => Expected::App,
            DeviceOperation::AppList(_) => Expected::Apps,
            DeviceOperation::AppLog(_) => Expected::AppLog,
            DeviceOperation::ProcessList(_) => Expected::Processes,
            DeviceOperation::ProcessSignal(_) => Expected::Process,
            DeviceOperation::LogTail(_) => Expected::Log,
        }
    }

    fn reply(self, operation: Ghost<DeviceOperationView>, result: DeviceOperationResult) -> (reply:
        Result<Reply, RpcError>)
        requires
            self.fits(operation@),
        ensures
            rpc_error::outcome(reply) == reply_from(operation@, Ok(result@)),
    {
        match (self, result) {
            (Expected::Devices, DeviceOperationResult::Devices(value)) => Ok(Reply::Devices(value)),
            (Expected::Features(serial), DeviceOperationResult::Features(found)) => match found {
                Some(features) => Ok(Reply::Features(features)),
                None => Err(RpcError::device_not_found(serial.as_str())),
            },
            (Expected::Ping(serial), DeviceOperationResult::Ping(found)) => {
                if found {
                    Ok(Reply::Pong)
                } else {
                    Err(RpcError::device_not_found(serial.as_str()))
                }
            },
            (Expected::Exec(serial), DeviceOperationResult::Exec(found)) => match found {
                Some(result) => Ok(Reply::Exec(result)),
                None => Err(RpcError::device_not_found(serial.as_str())),
            },
            (Expected::SyncPush, DeviceOperationResult::SyncPush(value)) => Ok(
                Reply::SyncPush(value),
            ),
            (Expected::SyncPull, DeviceOperationResult::SyncPull(value)) => Ok(
                Reply::SyncPull(value),
            ),
            (Expected::SyncStatus, DeviceOperationResult::SyncStatus(value)) => Ok(
                Reply::SyncStatus(value),
            ),
            (Expected::SyncList, DeviceOperationResult::SyncList(value)) => Ok(
                Reply::SyncList(value),
            ),
            (Expected::SyncMkdir, DeviceOperationResult::SyncMkdir(value)) => Ok(
                Reply::SyncMkdir(value),
            ),
            (Expected::App, DeviceOperationResult::App(value)) => Ok(Reply::App(value)),
            (Expected::Apps, DeviceOperationResult::Apps(value)) => Ok(Reply::Apps(value)),
            (Expected::AppLog, DeviceOperationResult::AppLog(value)) => Ok(Reply::AppLog(value)),
            (Expected::Processes, DeviceOperationResult::Processes(value)) => Ok(
                Reply::Processes(value),
            ),
            (Expected::Process, DeviceOperationResult::Process(value)) => Ok(Reply::Process(value)),
            (Expected::Log, DeviceOperationResult::Log(value)) => Ok(Reply::Log(value)),
            _ => Err(RpcError::internal_error()),
        }
    }
}

/// What becomes of a request.
enum Planned {
    Refused(RpcError),
    Direct(Reply),
    Stop,
    One(DeviceOperation),
    Run(ExecParams),
}

impl View for Planned {
    type V = Route;

    closed spec fn view(&self) -> Route {
        match *self {
            Planned::Refused(error) => Route::Refused(error@),
            Planned::Direct(reply) => Route::Direct(reply@),
            Planned::Stop => Route::Stop,
            Planned::One(operation) => Route::One(operation@),
            Planned::Run(params) => Route::Run(params@),
        }
    }
}

fn require_empty_params(params: &Params, planned: Planned) -> (checked: Planned)
    ensures
        checked@ == without_params(params@, planned@),
{
    match params {
        Params::Absent => planned,
        Params::Empty => planned,
        _ => Planned::Refused(RpcError::invalid_params("method takes no params")),
    }
}

fn refuse_params(params: &Params, expected: &str) -> (refusal: Planned)
    ensures
        refusal@ == wrong_params(params@, expected@),
{
    match params {
        Params::Absent => Planned::Refused(RpcError::invalid_params("missing params object")),
        _ => Planned::Refused(RpcError::invalid_params(expected)),
    }
}

fn plan(server: &ServerState, method: &str, params: Params) -> (planned: Planned)
    ensures
        planned@ == route(server@, method@, params@),
{
    let known = match Method::parse(method) {
        None => {
            return Planned::Refused(RpcError::method_not_found(method));
        },
        Some(known) => known,
    };
    match known {
        Method::ServerPing => require_empty_params(&params, Planned::Direct(Reply::Pong)),
        Method::ServerVersion => {
            let version = ServerVersion {
                name: "kindlebridge-server".to_owned(),
                version: server.version.clone(),
                api_version: API_VERSION.to_owned(),
            };
            require_empty_params(&params, Planned::Direct(Reply::Version(version)))
        },
        Method::ServerStatus => require_empty_params(
            &params,
            Planned::Direct(Reply::Running(server.pid)),
        ),
        Method::ServerStop => require_empty_params(&params, Planned::Stop),
        Method::DeviceList => require_empty_params(&params, Planned::One(DeviceOperation::List)),
        Method::DeviceFeatures => match params {
            Params::Serial(params) => {
                if params.serial.as_str().is_empty() {
                    Planned::Refused(RpcError::invalid_params("serial must not be empty"))
                } else {
                    Planned::One(DeviceOperation::Features(params.serial))
                }
            },
            _ => refuse_params(&params, "expected { serial: string }"),
        },
        Method::DevicePing => match params {
            Params::Serial(params) => {
                if params.serial.as_str().is_empty() {
                    Planned::Refused(RpcError::invalid_params("serial must not be empty"))
                } else {
                    Planned::One(DeviceOperation::Ping(params.serial))
                }
            },
            _ => refuse_params(&params, "device ping params"),
        },
        Method::ExecRun => match params {
            Params::Exec(params) => {
                if params.serial.as_str().is_empty() || params.argv.len() == 0 || params.timeout_ms
                    == 0 {
                    Planned::Refused(
                        RpcError::invalid_params(
                            "serial and argv must be non-empty; timeout_ms must be positive",
                        ),
                    )
                } else {
                    Planned::Run(params)
                }
            },
            _ => refuse_params(
                &params,
                "expected serial, non-empty argv, cwd, environment, timeout_ms",
            ),
        },
        Method::SyncPush => match params {
            Params::SyncPush(params, source) => Planned::One(DeviceOperation::SyncPush(params, source)),
            _ => refuse_params(&params, "sync push params"),
        },
        Method::SyncPull => match params {
            Params::SyncPull(params, absolute) => Planned::One(DeviceOperation::SyncPull(params, absolute)),
            _ => refuse_params(&params, "sync pull params"),
        },
        Method::SyncStatus => match params {
            Params::SyncStatus(params) => Planned::One(DeviceOperation::SyncStatus(params)),
            _ => refuse_params(&params, "sync status params"),
        },
        Method::SyncList => match params {
            Params::SyncList(params) => Planned::One(DeviceOperation::SyncList(params)),
            _ => refuse_params(&params, "sync list params"),
        },
        Method::SyncMkdir => match params {
            Params::SyncMkdir(params) => Planned::One(DeviceOperation::SyncMkdir(params)),
            _ => refuse_params(&params, "sync mkdir params"),
        },
        Method::AppInstall => match params {
            Params::AppInstall(params, bundle) => Planned::One(DeviceOperation::AppInstall(params, bundle)),
            _ => refuse_params(&params, "app install params"),
        },
        Method::AppStart => match params {
            Params::AppTarget(params) => Planned::One(DeviceOperation::AppStart(params)),
            _ => refuse_params(&params, "app target params"),
        },
        Method::AppStop => match params {
            Params::AppTarget(params) => Planned::One(DeviceOperation::AppStop(params)),
            _ => refuse_params(&params, "app target params"),
        },
        Method::AppRestart => match params {
            Params::AppTarget(params) => Planned::One(DeviceOperation::AppRestart(params)),
            _ => refuse_params(&params, "app target params"),
        },
        Method::AppRollback => match params {
            Params::AppTarget(params) => Planned::One(DeviceOperation::AppRollback(params)),
            _ => refuse_params(&params, "app target params"),
        },
        Method::AppUninstall => match params {
            Params::AppTarget(params) => Planned::One(DeviceOperation::AppUninstall(params)),
            _ => refuse_params(&params, "app target params"),
        },
        Method::AppList => match params {
            Params::Serial(params) => Planned::One(DeviceOperation::AppList(params)),
            _ => refuse_params(&params, "serial params"),
        },
        Method::AppLog => match params {
            Params::AppLog(params) => Planned::One(DeviceOperation::AppLog(params)),
            _ => refuse_params(&params, "app log params"),
        },
        Method::ProcessList => match params {
            Params::Serial(params) => Planned::One(DeviceOperation::ProcessList(params)),
            _ => refuse_params(&params, "serial params"),
        },
        Method::ProcessSignal => match params {
            Params::ProcessSignal(params) => Planned::One(DeviceOperation::ProcessSignal(params)),
            _ => refuse_params(&params, "process signal params"),
        },
        Method::LogTail => match params {
            Params::LogTail(params) => Planned::One(DeviceOperation::LogTail(params)),
            _ => refuse_params(&params, "log tail params"),
        },
        _ => Planned::Refused(RpcError::method_not_found(method)),
    }
}

/// Runs a process on a device that has the feature.
fn serve_run<P: DeviceProvider>(provider: &mut P, params: ExecParams) -> (reply: Result<
    Reply,
    RpcError,
>)
    requires
        old(provider).ready(),
    ensures
        final(provider).ready(),
        served_run(*old(provider), params@, *final(provider), rpc_error::outcome(reply)),
{
    let known = serve_once(provider, DeviceOperation::Features(params.serial.clone()));
    let ghost between = *provider;
    let ghost asked = DeviceOperationView::Features(params@.serial);
    assert(served_once(*old(provider), asked, between, rpc_error::outcome(known)));
    let features = match known {
        Ok(Reply::Features(features)) => features,
        Ok(_) => {
            return Err(RpcError::internal_error());
        },
        Err(error) => {
            return Err(error);
        },
    };
    if !has_text(&features.features, "exec.v1") {
        return Err(RpcError::feature_unavailable(params.serial.as_str(), "exec.v1"));
    }
    serve_once(provider, DeviceOperation::Exec(params))
}

/// Serves one request: what the server can answer itself it answers, the rest
/// goes to the device provider.
pub fn dispatch<P: DeviceProvider>(
    server: &mut ServerState,
    provider: &mut P,
    method: &str,
    params: Params,
) -> (reply: Result<Reply, RpcError>)
    requires
        old(provider).ready(),
    ensures
        final(provider).ready(),
        dispatched(
            old(server)@,
            *old(provider),
            method@,
            params@,
            final(server)@,
            *final(provider),
            rpc_error::outcome(reply),
        ),
{
    match plan(server, method, params) {
        Planned::Refused(error) => Err(error),
        Planned::Direct(reply) => Ok(reply),
        Planned::Stop => {
            server.stop_requested = true;
            Ok(Reply::Stopping)
        },
        Planned::One(operation) => serve_once(provider, operation),
        Planned::Run(params) => serve_run(provider, params),
    }
}

/// What a client calls a request.
#[derive(Debug)]
pub enum RequestId {
    Null,
    Number(i64),
    Text(String),
}

/// A request; one without an identifier is a notification.
#[derive(Debug)]
pub struct RpcRequest {
    pub id: Option<RequestId>,
    pub method: String,
    pub params: Params,
}

/// The answer to a request.
#[derive(Debug)]
pub struct RpcResponse {
    pub id: RequestId,
    pub result: Result<Reply, RpcError>,
}

/// Whether a response carries a reply to the request with an identifier. A request
/// without one has no response.
pub open spec fn responds(
    id: Option<RequestId>,
    reply: Result<ReplyView, RpcErrorView>,
    response: Option<RpcResponse>,
) -> bool {
    match id {
        Some(id) => response matches Some(sent) && sent.id == id && rpc_error::outcome(
            sent.result,
        ) == reply,
        None => response is None,
    }
}

/// Serves one request. A notification is served too, but has no response.
pub fn handle_request<P: DeviceProvider>(
    server: &mut ServerState,
    provider: &mut P,
    request: RpcRequest,
) -> (response: Option<RpcResponse>)
    requires
        old(provider).ready(),
    ensures
        final(provider).ready(),
        exists|reply: Result<ReplyView, RpcErrorView>| #[trigger]
            dispatched(
                old(server)@,
                *old(provider),
                request.method@,
                request.params@,
                final(server)@,
                *final(provider),
                reply,
            ) && responds(request.id, reply, response),
{
    let result = dispatch(server, provider, request.method.as_str(), request.params);
    assert(dispatched(
        old(server)@,
        *old(provider),
        request.method@,
        request.params@,
        server@,
        *provider,
        rpc_error::outcome(result),
    ));
    match request.id {
        Some(id) => Some(RpcResponse { id, result }),
        None => None,
    }
}

/// What a frame from a client holds.
#[derive(Debug)]
pub enum Frame {
    /// Bytes that are not JSON.
    NotJson,
    /// JSON that is no request, with what is wrong with it.
    NotARequest(RpcError),
    /// A request.
    Request(RpcRequest),
}

/// Serves one frame. One that holds no request is answered with an error under
/// the null identifier.
pub fn serve_frame<P: DeviceProvider>(
    server: &mut ServerState,
    provider: &mut P,
    frame: Frame,
) -> (response: Option<RpcResponse>)
    requires
        old(provider).ready(),
    ensures
        final(provider).ready(),
        match frame {
            Frame::NotJson => *final(provider) == *old(provider) && final(server)@ == old(server)@
                && responds(
                Some(RequestId::Null),
                Err(rpc_error::plain_error(ErrorCode::ParseError, "Parse error"@)),
                response,
            ),
            Frame::NotARequest(error) => *final(provider) == *old(provider) && final(server)@ == old(
                server,
            )@ && responds(Some(RequestId::Null), Err(error@), response),
            Frame::Request(request) => exists|reply: Result<ReplyView, RpcErrorView>| #[trigger]
                dispatched(
                    old(server)@,
                    *old(provider),
                    request.method@,
                    request.params@,
                    final(server)@,
                    *final(provider),
                    reply,
                ) && responds(request.id, reply, response),
        },
{
    match frame {
        Frame::NotJson => Some(
            RpcResponse { id: RequestId::Null, result: Err(RpcError::parse_error()) },
        ),
        Frame::NotARequest(error) => Some(
            RpcResponse { id: RequestId::Null, result: Err(error) },
        ),
        Frame::Request(request) => handle_request(server, provider, request),
    }
}

/// A request does what its name says, with the parameters that came with it: each
/// method reaches the provider as the operation of that name, and a device is named by
/// a serial.
pub proof fn methods_do_what_their_names_say(
    server: ServerStateView,
    method: Seq<char>,
    params: ParamsView,
)
    ensures
        method == "v1.server.ping"@ && params is Absent ==> route(server, method, params)
            == Route::Direct(ReplyView::Pong),
        method == "v1.server.status"@ && params is Absent ==> route(server, method, params)
            == Route::Direct(ReplyView::Running(server.pid)),
        method == "v1.server.version"@ && params is Absent ==> (route(server, method, params)
            matches Route::Direct(ReplyView::Version(version)) && version.version == server.version),
        method == "v1.server.stop"@ && params is Absent ==> route(server, method, params)
            == Route::Stop,
        method == "v1.device.list"@ && params is Absent ==> route(server, method, params)
            == Route::One(DeviceOperationView::List),
        method == "v1.device.features"@ ==> (params matches ParamsView::Serial(given)
            ==> given.serial.len() > 0 ==> route(server, method, params) == Route::One(
            DeviceOperationView::Features(given.serial),
        )),
        method == "v1.device.ping"@ ==> (params matches ParamsView::Serial(given)
            ==> given.serial.len() > 0 ==> route(server, method, params) == Route::One(
            DeviceOperationView::Ping(given.serial),
        )),
        method == "v1.exec.run"@ ==> (params matches ParamsView::Exec(given) ==> given.serial.len()
            > 0 && given.argv.len() > 0 && given.timeout_ms > 0 ==> route(server, method, params)
            == Route::Run(given)),
        method == "v1.sync.push"@ ==> (params matches ParamsView::SyncPush(given, file) ==> route(server, method, params)
            == Route::One(DeviceOperationView::SyncPush(given, file))),
        method == "v1.sync.pull"@ ==> (params matches ParamsView::SyncPull(given, absolute) ==> route(server, method, params)
            == Route::One(DeviceOperationView::SyncPull(given, absolute))),
        method == "v1.sync.status"@ ==> (params matches ParamsView::SyncStatus(given) ==> route(server, method, params)
            == Route::One(DeviceOperationView::SyncStatus(given))),
        method == "v1.sync.list"@ ==> (params matches ParamsView::SyncList(given) ==> route(server, method, params)
            == Route::One(DeviceOperationView::SyncList(given))),
        method == "v1.sync.mkdir"@ ==> (params matches ParamsView::SyncMkdir(given) ==> route(server, method, params)
            == Route::One(DeviceOperationView::SyncMkdir(given))),
        method == "v1.app.install"@ ==> (params matches ParamsView::AppInstall(given, bundle) ==> route(server, method, params)
            == Route::One(DeviceOperationView::AppInstall(given, bundle))),
        method == "v1.app.start"@ ==> (params matches ParamsView::AppTarget(given) ==> route(server, method, params)
            == Route::One(DeviceOperationView::AppStart(given))),
        method == "v1.app.stop"@ ==> (params matches ParamsView::AppTarget(given) ==> route(server, method, params)
            == Route::One(DeviceOperationView::AppStop(given))),
        method == "v1.app.restart"@ ==> (params matches ParamsView::AppTarget(given) ==> route(server, method, params)
            == Route::One(DeviceOperationView::AppRestart(given))),
        method == "v1.app.rollback"@ ==> (params matches ParamsView::AppTarget(given) ==> route(server, method, params)
            == Route::One(DeviceOperationView::AppRollback(given))),
        method == "v1.app.uninstall"@ ==> (params matches ParamsView::AppTarget(given) ==> route(server, method, params)
            == Route::One(DeviceOperationView::AppUninstall(given))),
        method == "v1.app.list"@ ==> (params matches ParamsView::Serial(given) ==> route(server, method, params)
            == Route::One(DeviceOperationView::AppList(given))),
        method == "v1.app.log"@ ==> (params matches ParamsView::AppLog(given) ==> route(server, method, params)
            == Route::One(DeviceOperationView::AppLog(given))),
        method == "v1.process.list"@ ==> (params matches ParamsView::Serial(given) ==> route(server, method, params)
            == Route::One(DeviceOperationView::ProcessList(given))),
        method == "v1.process.signal"@ ==> (params matches ParamsView::ProcessSignal(given) ==> route(server, method, params)
            == Route::One(DeviceOperationView::ProcessSignal(given))),
        method == "v1.log.tail"@ ==> (params matches ParamsView::LogTail(given) ==> route(server, method, params)
            == Route::One(DeviceOperationView::LogTail(given))),
{
    methods::names_are_distinct(Method::ServerPing);
    methods::names_are_distinct(Method::ServerVersion);
    methods::names_are_distinct(Method::ServerStatus);
    methods::names_are_distinct(Method::ServerStop);
    methods::names_are_distinct(Method::DeviceList);
    methods::names_are_distinct(Method::DeviceFeatures);
    methods::names_are_distinct(Method::DevicePing);
    methods::names_are_distinct(Method::ExecRun);
    methods::names_are_distinct(Method::SyncPush);
    methods::names_are_distinct(Method::SyncPull);
    methods::names_are_distinct(Method::SyncStatus);
    methods::names_are_distinct(Method::SyncList);
    methods::names_are_distinct(Method::SyncMkdir);
    methods::names_are_distinct(Method::AppInstall);
    methods::names_are_distinct(Method::AppStart);
    methods::names_are_distinct(Method::AppStop);
    methods::names_are_distinct(Method::AppRestart);
    methods::names_are_distinct(Method::AppRollback);
    methods::names_are_distinct(Method::AppUninstall);
    methods::names_are_distinct(Method::AppList);
    methods::names_are_distinct(Method::AppLog);
    methods::names_are_distinct(Method::ProcessList);
    methods::names_are_distinct(Method::ProcessSignal);
    methods::names_are_distinct(Method::LogTail);
}

/// Parameters that do not fit are refused as such, and an unknown method by its name.
pub proof fn unfitting_requests_are_refused(
    server: ServerStateView,
    method: Seq<char>,
    params: ParamsView,
)
    ensures
        methods::method_named(method) is None ==> (route(server, method, params)
            matches Route::Refused(error) && error.code == ErrorCode::MethodNotFound && error.detail
            == ErrorDetailView::Method(method)),
        params is Malformed ==> route(server, method, params) is Refused,
        route(server, method, params) matches Route::Refused(error) ==> error.code
            == ErrorCode::InvalidParams || error.code == ErrorCode::MethodNotFound,
        route(server, method, params) matches Route::Run(given) ==> given.serial.len() > 0
            && given.argv.len() > 0 && given.timeout_ms > 0,
        route(server, method, params) matches Route::One(operation) ==> (operation
            matches DeviceOperationView::Ping(serial) ==> serial.len() > 0),
        route(server, method, params) matches Route::One(operation) ==> (operation
            matches DeviceOperationView::Features(serial) ==> serial.len() > 0),
{
}

/// A refused request changes nothing, neither at the server nor at a device; only a
/// request to stop makes the server stop, and no request changes what it is.
pub proof fn refused_requests_are_without_effect<P: DeviceProvider>(
    server_before: ServerStateView,
    before: P,
    method: Seq<char>,
    params: ParamsView,
    server_after: ServerStateView,
    after: P,
    reply: Result<ReplyView, RpcErrorView>,
)
    requires
        dispatched(server_before, before, method, params, server_after, after, reply),
    ensures
        params is Malformed ==> reply is Err && after == before && server_after == server_before,
        methods::method_named(method) is None ==> reply is Err && after == before && server_after
            == server_before,
        server_after.version == server_before.version,
        server_after.pid == server_before.pid,
        server_after.stop_requested && !server_before.stop_requested ==> method
            == "v1.server.stop"@ && reply == Ok::<_, RpcErrorView>(ReplyView::Stopping),
        server_before.stop_requested ==> server_after.stop_requested,
        method == "v1.server.stop"@ && params is Absent ==> server_after.stop_requested && after
            == before,
{
    methods::names_are_distinct(Method::ServerStop);
}

/// The provider is asked once for a request, and what it answers is what the client is
/// told: an error as it came, a result as it came. A device that it does not know is
/// not found.
pub proof fn provider_answers_are_told(
    operation: DeviceOperationView,
    answer: Result<DeviceOperationResultView, RpcErrorView>,
)
    ensures
        answer matches Err(error) ==> reply_from(operation, answer) == Err::<ReplyView, _>(error),
        reply_from(operation, answer) matches Ok(reply) ==> answer is Ok && match answer->Ok_0 {
            DeviceOperationResultView::Devices(given) => reply == ReplyView::Devices(given),
            DeviceOperationResultView::Features(given) => given is Some && reply
                == ReplyView::Features(given->0),
            DeviceOperationResultView::Ping(there) => there && reply == ReplyView::Pong,
            DeviceOperationResultView::Exec(given) => given is Some && reply == ReplyView::Exec(
                given->0,
            ),
            DeviceOperationResultView::SyncPush(given) => reply == ReplyView::SyncPush(given),
            DeviceOperationResultView::SyncPull(given) => reply == ReplyView::SyncPull(given),
            DeviceOperationResultView::SyncStatus(given) => reply == ReplyView::SyncStatus(given),
            DeviceOperationResultView::SyncList(given) => reply == ReplyView::SyncList(given),
            DeviceOperationResultView::SyncMkdir(given) => reply == ReplyView::SyncMkdir(given),
            DeviceOperationResultView::App(given) => reply == ReplyView::App(given),
            DeviceOperationResultView::Apps(given) => reply == ReplyView::Apps(given),
            DeviceOperationResultView::AppLog(given) => reply == ReplyView::AppLog(given),
            DeviceOperationResultView::Processes(given) => reply == ReplyView::Processes(given),
            DeviceOperationResultView::Process(given) => reply == ReplyView::Process(given),
            DeviceOperationResultView::Log(given) => reply == ReplyView::Log(given),
        },
        answer matches Ok(DeviceOperationResultView::Exec(None)) ==> (operation
            matches DeviceOperationView::Exec(params) ==> reply_from(operation, answer) == Err::<
            ReplyView,
            _,
        >(rpc_error::device_not_found(params.serial))),
        answer matches Ok(DeviceOperationResultView::App(given)) ==> (operation is AppInstall
            || operation is AppStart || operation is AppStop || operation is AppRestart || operation
            is AppRollback || operation is AppUninstall ==> reply_from(operation, answer) == Ok::<
            _,
            RpcErrorView,
        >(ReplyView::App(given))),
{
}

/// A process is run only on a device that offers it: otherwise the device is asked for
/// nothing but its features, and the client learns what is missing.
pub proof fn processes_run_where_they_are_offered<P: DeviceProvider>(
    before: P,
    params: ExecParamsView,
    after: P,
    reply: Result<ReplyView, RpcErrorView>,
)
    requires
        served_run(before, params, after, reply),
    ensures
        exists|between: P, known: Result<ReplyView, RpcErrorView>|
            {
                &&& #[trigger] served_once(
                    before,
                    DeviceOperationView::Features(params.serial),
                    between,
                    known,
                )
                &&& known matches Ok(ReplyView::Features(features)) ==> {
                    &&& !features.features.contains("exec.v1"@) ==> after == between && (reply
                        matches Err(error) && error.code == ErrorCode::FeatureUnavailable)
                    &&& features.features.contains("exec.v1"@) ==> served_once(
                        between,
                        DeviceOperationView::Exec(params),
                        after,
                        reply,
                    )
                }
                &&& known matches Err(error) ==> after == between && reply == Err::<ReplyView, _>(
                    error,
                )
            },
{
    let (between, known) = choose|between: P, known: Result<ReplyView, RpcErrorView>|
        {
            &&& #[trigger] served_once(
                before,
                DeviceOperationView::Features(params.serial),
                between,
                known,
            )
            &&& match known {
                Ok(ReplyView::Features(features)) => if features.features.contains("exec.v1"@) {
                    served_once(between, DeviceOperationView::Exec(params), after, reply)
                } else {
                    after == between && reply == Err::<ReplyView, _>(
                        rpc_error::feature_unavailable(params.serial, "exec.v1"@),
                    )
                },
                Ok(_) => false,
                Err(error) => after == between && reply == Err::<ReplyView, _>(error),
            }
        };
    assert(served_once(before, DeviceOperationView::Features(params.serial), between, known));
}

/// A response goes out under the identifier of its request, and only one that has an
/// identifier is answered.
pub proof fn responses_belong_to_their_requests(
    id: Option<RequestId>,
    reply: Result<ReplyView, RpcErrorView>,
    response: Option<RpcResponse>,
)
    requires
        responds(id, reply, response),
    ensures
        response is Some <==> id is Some,
        response matches Some(sent) ==> Some(sent.id) == id && (sent.result is Ok <==> reply is Ok)
            && (reply matches Err(error) ==> sent.result is Err && sent.result->Err_0@ == error),
{
}

} // verus!
