//! Requests of the tool to the server.

use crate::host_rpc::{ServerVersion, ServerVersionView};
use crate::methods::Method;
use crate::model;
use crate::model::{
    AppInstallParams, AppInstallParamsView, AppLogParams, AppLogParamsView, AppLogSnapshot,
    AppLogSnapshotView, AppSummary, AppSummaryView, AppTargetParams, AppTargetParamsView,
    DeviceFeatures, DeviceFeaturesView, DeviceSummary, DeviceSummaryView, ExecParams,
    ExecParamsView, ExecResult, ExecResultView, LogSnapshot, LogSnapshotView, LogTailParams,
    LogTailParamsView, ProcessSignalParams, ProcessSignalParamsView, ProcessSummary,
    ProcessSummaryView, SerialParams, SerialParamsView, SyncListParams, SyncListParamsView,
    SyncListResult, SyncListResultView, SyncMkdirParams, SyncMkdirParamsView, SyncMkdirResult,
    SyncMkdirResultView, SyncPullParams, SyncPullParamsView, SyncPullResult, SyncPullResultView,
    SyncPushParams, SyncPushParamsView, SyncPushResult, SyncPushResultView, SyncStatus,
    SyncStatusParams, SyncStatusParamsView, SyncStatusView,
};
use crate::number;
use crate::number::to_signed_decimal;
use crate::text;
use crate::text::concat;
use vstd::prelude::*;

verus! {

/// A request to the server.
#[derive(Debug)]
pub enum RpcCall {
    ServerPing,
    ServerVersion,
    ServerStatus,
    ServerStop,
    DeviceList,
    DevicePing(SerialParams),
    DeviceFeatures(SerialParams),
    ExecRun(ExecParams),
    SyncPush(SyncPushParams),
    SyncPull(SyncPullParams),
    SyncStatus(SyncStatusParams),
    SyncList(SyncListParams),
    SyncMkdir(SyncMkdirParams),
    AppInstall(AppInstallParams),
    AppStart(AppTargetParams),
    AppStop(AppTargetParams),
    AppRestart(AppTargetParams),
    AppRollback(AppTargetParams),
    AppUninstall(AppTargetParams),
    AppList(SerialParams),
    AppLog(AppLogParams),
    ProcessList(SerialParams),
    ProcessSignal(ProcessSignalParams),
    LogTail(LogTailParams),
}

/// The model of [`RpcCall`].
#[verifier::ext_equal]
pub enum RpcCallView {
    ServerPing,
    ServerVersion,
    ServerStatus,
    ServerStop,
    DeviceList,
    DevicePing(SerialParamsView),
    DeviceFeatures(SerialParamsView),
    ExecRun(ExecParamsView),
    SyncPush(SyncPushParamsView),
    SyncPull(SyncPullParamsView),
    SyncStatus(SyncStatusParamsView),
    SyncList(SyncListParamsView),
    SyncMkdir(SyncMkdirParamsView),
    AppInstall(AppInstallParamsView),
    AppStart(AppTargetParamsView),
    AppStop(AppTargetParamsView),
    AppRestart(AppTargetParamsView),
    AppRollback(AppTargetParamsView),
    AppUninstall(AppTargetParamsView),
    AppList(SerialParamsView),
    AppLog(AppLogParamsView),
    ProcessList(SerialParamsView),
    ProcessSignal(ProcessSignalParamsView),
    LogTail(LogTailParamsView),
}

impl View for RpcCall {
    type V = RpcCallView;

    open spec fn view(&self) -> RpcCallView {
        match *self {
            RpcCall::ServerPing => RpcCallView::ServerPing,
            RpcCall::ServerVersion => RpcCallView::ServerVersion,
            RpcCall::ServerStatus => RpcCallView::ServerStatus,
            RpcCall::ServerStop => RpcCallView::ServerStop,
            RpcCall::DeviceList => RpcCallView::DeviceList,
            RpcCall::DevicePing(params) => RpcCallView::DevicePing(params@),
            RpcCall::DeviceFeatures(params) => RpcCallView::DeviceFeatures(params@),
            RpcCall::ExecRun(params) => RpcCallView::ExecRun(params@),
            RpcCall::SyncPush(params) => RpcCallView::SyncPush(params@),
            RpcCall::SyncPull(params) => RpcCallView::SyncPull(params@),
            RpcCall::SyncStatus(params) => RpcCallView::SyncStatus(params@),
            RpcCall::SyncList(params) => RpcCallView::SyncList(params@),
            RpcCall::SyncMkdir(params) => RpcCallView::SyncMkdir(params@),
            RpcCall::AppInstall(params) => RpcCallView::AppInstall(params@),
            RpcCall::AppStart(params) => RpcCallView::AppStart(params@),
            RpcCall::AppStop(params) => RpcCallView::AppStop(params@),
            RpcCall::AppRestart(params) => RpcCallView::AppRestart(params@),
            RpcCall::AppRollback(params) => RpcCallView::AppRollback(params@),
            RpcCall::AppUninstall(params) => RpcCallView::AppUninstall(params@),
            RpcCall::AppList(params) => RpcCallView::AppList(params@),
            RpcCall::AppLog(params) => RpcCallView::AppLog(params@),
            RpcCall::ProcessList(params) => RpcCallView::ProcessList(params@),
            RpcCall::ProcessSignal(params) => RpcCallView::ProcessSignal(params@),
            RpcCall::LogTail(params) => RpcCallView::LogTail(params@),
        }
    }
}

/// The method of a request.
pub open spec fn method_of(call: RpcCallView) -> Method {
    match call {
        RpcCallView::ServerPing => Method::ServerPing,
        RpcCallView::ServerVersion => Method::ServerVersion,
        RpcCallView::ServerStatus => Method::ServerStatus,
        RpcCallView::ServerStop => Method::ServerStop,
        RpcCallView::DeviceList => Method::DeviceList,
        RpcCallView::DevicePing(_) => Method::DevicePing,
        RpcCallView::DeviceFeatures(_) => Method::DeviceFeatures,
        RpcCallView::ExecRun(_) => Method::ExecRun,
        RpcCallView::SyncPush(_) => Method::SyncPush,
        RpcCallView::SyncPull(_) => Method::SyncPull,
        RpcCallView::SyncStatus(_) => Method::SyncStatus,
        RpcCallView::SyncList(_) => Method::SyncList,
        RpcCallView::SyncMkdir(_) => Method::SyncMkdir,
        RpcCallView::AppInstall(_) => Method::AppInstall,
        RpcCallView::AppStart(_) => Method::AppStart,
        RpcCallView::AppStop(_) => Method::AppStop,
        RpcCallView::AppRestart(_) => Method::AppRestart,
        RpcCallView::AppRollback(_) => Method::AppRollback,
        RpcCallView::AppUninstall(_) => Method::AppUninstall,
        RpcCallView::AppList(_) => Method::AppList,
        RpcCallView::AppLog(_) => Method::AppLog,
        RpcCallView::ProcessList(_) => Method::ProcessList,
        RpcCallView::ProcessSignal(_) => Method::ProcessSignal,
        RpcCallView::LogTail(_) => Method::LogTail,
    }
}

impl RpcCall {
    /// The method of this request.
    pub fn method(&self) -> (method: Method)
        ensures
            method == method_of(self@),
    {
        match self {
            RpcCall::ServerPing => Method::ServerPing,
            RpcCall::ServerVersion => Method::ServerVersion,
            RpcCall::ServerStatus => Method::ServerStatus,
            RpcCall::ServerStop => Method::ServerStop,
            RpcCall::DeviceList => Method::DeviceList,
            RpcCall::DevicePing(_) => Method::DevicePing,
            RpcCall::DeviceFeatures(_) => Method::DeviceFeatures,
            RpcCall::ExecRun(_) => Method::ExecRun,
            RpcCall::SyncPush(_) => Method::SyncPush,
            RpcCall::SyncPull(_) => Method::SyncPull,
            RpcCall::SyncStatus(_) => Method::SyncStatus,
            RpcCall::SyncList(_) => Method::SyncList,
            RpcCall::SyncMkdir(_) => Method::SyncMkdir,
            RpcCall::AppInstall(_) => Method::AppInstall,
            RpcCall::AppStart(_) => Method::AppStart,
            RpcCall::AppStop(_) => Method::AppStop,
            RpcCall::AppRestart(_) => Method::AppRestart,
            RpcCall::AppRollback(_) => Method::AppRollback,
            RpcCall::AppUninstall(_) => Method::AppUninstall,
            RpcCall::AppList(_) => Method::AppList,
            RpcCall::AppLog(_) => Method::AppLog,
            RpcCall::ProcessList(_) => Method::ProcessList,
            RpcCall::ProcessSignal(_) => Method::ProcessSignal,
            RpcCall::LogTail(_) => Method::LogTail,
        }
    }
}

/// What the server returned, read in the shape that the request calls for.
#[derive(Debug)]
pub enum CallResult {
    /// It does not have the shape.
    Unreadable,
    /// Whether the answer says that all is well.
    Ping(bool),
    Version(ServerVersion),
    /// The process number of the server, or 0.
    Status(u64),
    Devices(Vec<DeviceSummary>),
    Features(DeviceFeatures),
    Exec(ExecResult),
    SyncPush(SyncPushResult),
    SyncPull(SyncPullResult),
    SyncStatus(SyncStatus),
    SyncList(SyncListResult),
    SyncMkdir(SyncMkdirResult),
    App(AppSummary),
    Apps(Vec<AppSummary>),
    AppLog(AppLogSnapshot),
    Processes(Vec<ProcessSummary>),
    Process(ProcessSummary),
    Log(LogSnapshot),
}

/// The model of [`CallResult`].
#[verifier::ext_equal]
pub enum CallResultView {
    Unreadable,
    Ping(bool),
    Version(ServerVersionView),
    Status(u64),
    Devices(Seq<DeviceSummaryView>),
    Features(DeviceFeaturesView),
    Exec(ExecResultView),
    SyncPush(SyncPushResultView),
    SyncPull(SyncPullResultView),
    SyncStatus(SyncStatusView),
    SyncList(SyncListResultView),
    SyncMkdir(SyncMkdirResultView),
    App(AppSummaryView),
    Apps(Seq<AppSummaryView>),
    AppLog(AppLogSnapshotView),
    Processes(Seq<ProcessSummaryView>),
    Process(ProcessSummaryView),
    Log(LogSnapshotView),
}

impl View for CallResult {
    type V = CallResultView;

    open spec fn view(&self) -> CallResultView {
        match *self {
            CallResult::Unreadable => CallResultView::Unreadable,
            CallResult::Ping(value) => CallResultView::Ping(value),
            CallResult::Version(value) => CallResultView::Version(value@),
            CallResult::Status(value) => CallResultView::Status(value),
            CallResult::Devices(value) => CallResultView::Devices(model::device_summary_views(value@)),
            CallResult::Features(value) => CallResultView::Features(value@),
            CallResult::Exec(value) => CallResultView::Exec(value@),
            CallResult::SyncPush(value) => CallResultView::SyncPush(value@),
            CallResult::SyncPull(value) => CallResultView::SyncPull(value@),
            CallResult::SyncStatus(value) => CallResultView::SyncStatus(value@),
            CallResult::SyncList(value) => CallResultView::SyncList(value@),
            CallResult::SyncMkdir(value) => CallResultView::SyncMkdir(value@),
            CallResult::App(value) => CallResultView::App(value@),
            CallResult::Apps(value) => CallResultView::Apps(model::app_summary_views(value@)),
            CallResult::AppLog(value) => CallResultView::AppLog(value@),
            CallResult::Processes(value) => CallResultView::Processes(model::process_summary_views(value@)),
            CallResult::Process(value) => CallResultView::Process(value@),
            CallResult::Log(value) => CallResultView::Log(value@),
        }
    }
}

/// An answer of the server: the result, and its text as indented JSON.
#[derive(Debug)]
pub struct RpcReply {
    pub pretty: String,
    pub result: CallResult,
}

/// The model of [`RpcReply`].
#[verifier::ext_equal]
pub struct RpcReplyView {
    pub pretty: Seq<char>,
    pub result: CallResultView,
}

impl View for RpcReply {
    type V = RpcReplyView;

    open spec fn view(&self) -> RpcReplyView {
        RpcReplyView { pretty: self.pretty@, result: self.result@ }
    }
}

/// An error answer of the server.
#[derive(Debug)]
pub struct ServerError {
    pub code: i64,
    pub message: String,
    /// What it says about its cause, as JSON.
    pub data: Option<String>,
}

/// The model of [`ServerError`].
#[verifier::ext_equal]
pub struct ServerErrorView {
    pub code: i64,
    pub message: Seq<char>,
    pub data: Option<Seq<char>>,
}

impl View for ServerError {
    type V = ServerErrorView;

    open spec fn view(&self) -> ServerErrorView {
        ServerErrorView {
            code: self.code,
            message: self.message@,
            data: text::optional(self.data),
        }
    }
}

/// Why a request failed.
#[derive(Debug)]
pub enum ClientError {
    /// The server answered with an error.
    Rpc(ServerError),
    /// The server could not be reached, or broke off.
    Transport(String),
    /// The answer is no answer.
    InvalidResponse,
}

/// The model of [`ClientError`].
#[verifier::ext_equal]
pub enum ClientErrorView {
    Rpc(ServerErrorView),
    Transport(Seq<char>),
    InvalidResponse,
}

impl View for ClientError {
    type V = ClientErrorView;

    open spec fn view(&self) -> ClientErrorView {
        match *self {
            ClientError::Rpc(error) => ClientErrorView::Rpc(error@),
            ClientError::Transport(message) => ClientErrorView::Transport(message@),
            ClientError::InvalidResponse => ClientErrorView::InvalidResponse,
        }
    }
}

/// An error answer in full.
pub open spec fn server_error_text(error: ServerErrorView) -> Seq<char> {
    let head = error.message + " ("@ + number::signed_decimal(error.code as int) + ")"@;
    match error.data {
        Some(data) => head + ": "@ + data,
        None => head,
    }
}

/// What the user is told of a failed request.
pub open spec fn client_message(error: ClientErrorView) -> Seq<char> {
    match error {
        ClientErrorView::Rpc(error) => server_error_text(error),
        ClientErrorView::Transport(message) => message,
        ClientErrorView::InvalidResponse => "invalid RPC response"@,
    }
}

impl ClientError {
    /// What the user is told.
    pub fn to_text(&self) -> (text: String)
        ensures
            text@ == client_message(self@),
    {
        match self {
            ClientError::Rpc(error) => {
                let mut text = concat(error.message.as_str(), " (");
                text.append(to_signed_decimal(error.code).as_str());
                text.append(")");
                if let Some(data) = &error.data {
                    text.append(": ");
                    text.append(data.as_str());
                }
                text
            },
            ClientError::Transport(message) => message.clone(),
            ClientError::InvalidResponse => "invalid RPC response".to_owned(),
        }
    }
}

/// One request with its answer.
#[verifier::ext_equal]
pub struct Exchange {
    pub call: RpcCallView,
    pub reply: Result<RpcReplyView, ClientErrorView>,
}

/// The model of an answer.
pub open spec fn reply_view(reply: Result<RpcReply, ClientError>) -> Result<
    RpcReplyView,
    ClientErrorView,
> {
    match reply {
        Ok(value) => Ok(value@),
        Err(error) => Err(error@),
    }
}

/// Something that sends requests to the server.
pub trait RpcCaller {
    /// The requests so far, each with its answer.
    spec fn exchanges(&self) -> Seq<Exchange>;

    /// Sends one request and waits for its answer.
    fn call(&mut self, call: RpcCall) -> (reply: Result<RpcReply, ClientError>)
        ensures
            final(self).exchanges() == old(self).exchanges().push(
                Exchange { call: call@, reply: reply_view(reply) },
            ),
    ;
}

/// A client that hands each request to a function, and keeps nothing but the
/// knowledge of what was asked and answered.
pub struct Client<F: Fn(RpcCall) -> Result<RpcReply, ClientError>> {
    send: F,
    history: Ghost<Seq<Exchange>>,
}

impl<F: Fn(RpcCall) -> Result<RpcReply, ClientError>> Client<F> {
    /// The function takes any request.
    #[verifier::type_invariant]
    spec fn takes_any_request(self) -> bool {
        forall|call: RpcCall| #[trigger] self.send.requires((call,))
    }

    /// Whether the function can answer a request so.
    pub closed spec fn answers(&self, call: RpcCall, reply: Result<RpcReply, ClientError>) -> bool {
        self.send.ensures((call,), reply)
    }

    /// A client that has sent nothing.
    pub fn new(send: F) -> (client: Self)
        requires
            forall|call: RpcCall| #[trigger] send.requires((call,)),
        ensures
            client.exchanges() == Seq::<Exchange>::empty(),
    {
        Client { send, history: Ghost(Seq::empty()) }
    }
}

impl<F: Fn(RpcCall) -> Result<RpcReply, ClientError>> RpcCaller for Client<F> {
    closed spec fn exchanges(&self) -> Seq<Exchange> {
        self.history@
    }

    fn call(&mut self, call: RpcCall) -> (reply: Result<RpcReply, ClientError>)
        ensures
            old(self).answers(call, reply),
    {
        proof {
            use_type_invariant(&*self);
        }
        let ghost asked = call@;
        let reply = (self.send)(call);
        self.history = Ghost(self.history@.push(Exchange { call: asked, reply: reply_view(reply) }));
        reply
    }
}

} // verus!
