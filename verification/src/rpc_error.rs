//! Errors as a client of the host service sees them.

use vstd::prelude::*;

verus! {

/// The kind of an error, as a client can tell errors apart.
#[derive(Clone, Copy, Debug, PartialEq, Eq, Structural)]
pub enum ErrorCode {
    ParseError,
    InvalidParams,
    MethodNotFound,
    InternalError,
    ServerNotReady,
    DeviceNotFound,
    FeatureUnavailable,
    InvalidState,
    TransferNotFound,
    TransferCancelled,
    ChecksumMismatch,
    FileNotFound,
    AppNotFound,
    AppInstallFailed,
    NoRollbackAvailable,
    ProcessNotFound,
    InvalidSignal,
    LogCursorExpired,
    Other(i64),
}

/// What an error says about its cause.
#[derive(Debug)]
pub enum ErrorDetail {
    Nothing,
    /// A sentence, under the name `detail`.
    Detail(String),
    /// The requested method, under the name `method`.
    Method(String),
    /// The device, under the name `serial`.
    Serial(String),
    /// The device and the feature that it lacks.
    Feature { serial: String, feature: String },
    TransferId(String),
    RemotePath(String),
    AppId(String),
    Pid(u32),
    Signal(String),
    OldestCursor(u64),
    /// A host file operation and the kind of its failure.
    HostFile { operation: String, path: String, kind: String },
    /// A host path and what is wrong with it.
    HostPath { path: String, detail: String },
    /// Where and why an installation failed.
    Install { stage: String, reason: String, detail: String },
    /// How far an upload came.
    Upload { transfer_id: String, accepted_offset: u64, total_size: u64 },
    /// What a device sent, as JSON text.
    Json(String),
}

/// The model of [`ErrorDetail`].
#[verifier::ext_equal]
pub enum ErrorDetailView {
    Nothing,
    Detail(Seq<char>),
    Method(Seq<char>),
    Serial(Seq<char>),
    Feature { serial: Seq<char>, feature: Seq<char> },
    TransferId(Seq<char>),
    RemotePath(Seq<char>),
    AppId(Seq<char>),
    Pid(u32),
    Signal(Seq<char>),
    OldestCursor(u64),
    HostFile { operation: Seq<char>, path: Seq<char>, kind: Seq<char> },
    HostPath { path: Seq<char>, detail: Seq<char> },
    Install { stage: Seq<char>, reason: Seq<char>, detail: Seq<char> },
    Upload { transfer_id: Seq<char>, accepted_offset: u64, total_size: u64 },
    Json(Seq<char>),
}

impl View for ErrorDetail {
    type V = ErrorDetailView;

    open spec fn view(&self) -> ErrorDetailView {
        match *self {
            ErrorDetail::Nothing => ErrorDetailView::Nothing,
            ErrorDetail::Detail(text) => ErrorDetailView::Detail(text@),
            ErrorDetail::Method(text) => ErrorDetailView::Method(text@),
            ErrorDetail::Serial(text) => ErrorDetailView::Serial(text@),
            ErrorDetail::Feature { serial, feature } => ErrorDetailView::Feature {
                serial: serial@,
                feature: feature@,
            },
            ErrorDetail::TransferId(text) => ErrorDetailView::TransferId(text@),
            ErrorDetail::RemotePath(text) => ErrorDetailView::RemotePath(text@),
            ErrorDetail::AppId(text) => ErrorDetailView::AppId(text@),
            ErrorDetail::Pid(pid) => ErrorDetailView::Pid(pid),
            ErrorDetail::Signal(text) => ErrorDetailView::Signal(text@),
            ErrorDetail::OldestCursor(cursor) => ErrorDetailView::OldestCursor(cursor),
            ErrorDetail::HostFile { operation, path, kind } => ErrorDetailView::HostFile {
                operation: operation@,
                path: path@,
                kind: kind@,
            },
            ErrorDetail::HostPath { path, detail } => ErrorDetailView::HostPath {
                path: path@,
                detail: detail@,
            },
            ErrorDetail::Install { stage, reason, detail } => ErrorDetailView::Install {
                stage: stage@,
                reason: reason@,
                detail: detail@,
            },
            ErrorDetail::Upload { transfer_id, accepted_offset, total_size } =>
                ErrorDetailView::Upload {
                transfer_id: transfer_id@,
                accepted_offset,
                total_size,
            },
            ErrorDetail::Json(text) => ErrorDetailView::Json(text@),
        }
    }
}

/// An error answer: its code, its message and what it says of the cause.
#[derive(Debug)]
pub struct RpcError {
    pub code: ErrorCode,
    pub message: String,
    pub detail: ErrorDetail,
}

/// The model of [`RpcError`].
#[verifier::ext_equal]
pub struct RpcErrorView {
    pub code: ErrorCode,
    pub message: Seq<char>,
    pub detail: ErrorDetailView,
}

impl View for RpcError {
    type V = RpcErrorView;

    open spec fn view(&self) -> RpcErrorView {
        RpcErrorView { code: self.code, message: self.message@, detail: self.detail@ }
    }
}

/// The model of a result: that of its value or that of its error.
pub open spec fn outcome<T: View>(result: Result<T, RpcError>) -> Result<T::V, RpcErrorView> {
    match result {
        Ok(value) => Ok(value@),
        Err(error) => Err(error@),
    }
}

/// The model of an error that carries nothing but its message.
pub open spec fn plain_error(code: ErrorCode, message: Seq<char>) -> RpcErrorView {
    RpcErrorView { code, message, detail: ErrorDetailView::Nothing }
}

/// The model of [`RpcError::invalid_params`].
pub open spec fn invalid_params(detail: Seq<char>) -> RpcErrorView {
    RpcErrorView {
        code: ErrorCode::InvalidParams,
        message: "Invalid params"@,
        detail: ErrorDetailView::Detail(detail),
    }
}

/// The model of [`RpcError::invalid_state`].
pub open spec fn invalid_state(detail: Seq<char>) -> RpcErrorView {
    RpcErrorView {
        code: ErrorCode::InvalidState,
        message: "Invalid state"@,
        detail: ErrorDetailView::Detail(detail),
    }
}

/// The model of [`RpcError::method_not_found`].
pub open spec fn method_not_found(method: Seq<char>) -> RpcErrorView {
    RpcErrorView {
        code: ErrorCode::MethodNotFound,
        message: "Method not found"@,
        detail: ErrorDetailView::Method(method),
    }
}

/// The model of [`RpcError::device_not_found`].
pub open spec fn device_not_found(serial: Seq<char>) -> RpcErrorView {
    RpcErrorView {
        code: ErrorCode::DeviceNotFound,
        message: "Device not found"@,
        detail: ErrorDetailView::Serial(serial),
    }
}

/// The model of [`RpcError::feature_unavailable`].
pub open spec fn feature_unavailable(serial: Seq<char>, feature: Seq<char>) -> RpcErrorView {
    RpcErrorView {
        code: ErrorCode::FeatureUnavailable,
        message: "Feature unavailable"@,
        detail: ErrorDetailView::Feature { serial, feature },
    }
}

/// The model of [`RpcError::transfer_not_found`].
pub open spec fn transfer_not_found(transfer_id: Seq<char>) -> RpcErrorView {
    RpcErrorView {
        code: ErrorCode::TransferNotFound,
        message: "Transfer not found"@,
        detail: ErrorDetailView::TransferId(transfer_id),
    }
}

/// The model of [`RpcError::file_not_found`].
pub open spec fn file_not_found(remote_path: Seq<char>) -> RpcErrorView {
    RpcErrorView {
        code: ErrorCode::FileNotFound,
        message: "File not found"@,
        detail: ErrorDetailView::RemotePath(remote_path),
    }
}

/// The model of [`RpcError::app_not_found`].
pub open spec fn app_not_found(app_id: Seq<char>) -> RpcErrorView {
    RpcErrorView {
        code: ErrorCode::AppNotFound,
        message: "App not found"@,
        detail: ErrorDetailView::AppId(app_id),
    }
}

/// The model of [`RpcError::process_not_found`].
pub open spec fn process_not_found(pid: u32) -> RpcErrorView {
    RpcErrorView {
        code: ErrorCode::ProcessNotFound,
        message: "Process not found"@,
        detail: ErrorDetailView::Pid(pid),
    }
}

/// The model of [`RpcError::host_file`].
pub open spec fn host_file(operation: Seq<char>, path: Seq<char>, kind: Seq<char>) -> RpcErrorView {
    RpcErrorView {
        code: ErrorCode::InvalidState,
        message: "Host file operation failed"@,
        detail: ErrorDetailView::HostFile { operation, path, kind },
    }
}

/// The model of [`RpcError::install_failed`].
pub open spec fn install_failed(
    stage: Seq<char>,
    reason: Seq<char>,
    detail: Seq<char>,
) -> RpcErrorView {
    RpcErrorView {
        code: ErrorCode::AppInstallFailed,
        message: "Application install failed"@,
        detail: ErrorDetailView::Install { stage, reason, detail },
    }
}

impl RpcError {
    /// An error that carries nothing but its message.
    pub fn new(code: ErrorCode, message: &str) -> (error: Self)
        ensures
            error@ == plain_error(code, message@),
    {
        RpcError { code, message: message.to_owned(), detail: ErrorDetail::Nothing }
    }

    /// The request was not JSON.
    pub fn parse_error() -> (error: Self)
        ensures
            error@ == plain_error(ErrorCode::ParseError, "Parse error"@),
    {
        Self::new(ErrorCode::ParseError, "Parse error")
    }

    /// Something that should not happen happened.
    pub fn internal_error() -> (error: Self)
        ensures
            error@ == plain_error(ErrorCode::InternalError, "Internal error"@),
    {
        Self::new(ErrorCode::InternalError, "Internal error")
    }

    /// The parameters of a request are not acceptable.
    pub fn invalid_params(detail: &str) -> (error: Self)
        ensures
            error@ == invalid_params(detail@),
    {
        RpcError {
            code: ErrorCode::InvalidParams,
            message: "Invalid params".to_owned(),
            detail: ErrorDetail::Detail(detail.to_owned()),
        }
    }

    /// The request does not fit the state that it met.
    pub fn invalid_state(detail: &str) -> (error: Self)
        ensures
            error@ == invalid_state(detail@),
    {
        RpcError {
            code: ErrorCode::InvalidState,
            message: "Invalid state".to_owned(),
            detail: ErrorDetail::Detail(detail.to_owned()),
        }
    }

    /// No method has the requested name.
    pub fn method_not_found(method: &str) -> (error: Self)
        ensures
            error@ == method_not_found(method@),
    {
        RpcError {
            code: ErrorCode::MethodNotFound,
            message: "Method not found".to_owned(),
            detail: ErrorDetail::Method(method.to_owned()),
        }
    }

    /// No device has the requested serial.
    pub fn device_not_found(serial: &str) -> (error: Self)
        ensures
            error@ == device_not_found(serial@),
    {
        RpcError {
            code: ErrorCode::DeviceNotFound,
            message: "Device not found".to_owned(),
            detail: ErrorDetail::Serial(serial.to_owned()),
        }
    }

    /// A device lacks a feature that the request needs.
    pub fn feature_unavailable(serial: &str, feature: &str) -> (error: Self)
        ensures
            error@ == feature_unavailable(serial@, feature@),
    {
        RpcError {
            code: ErrorCode::FeatureUnavailable,
            message: "Feature unavailable".to_owned(),
            detail: ErrorDetail::Feature { serial: serial.to_owned(), feature: feature.to_owned() },
        }
    }

    /// No transfer has the requested identifier.
    pub fn transfer_not_found(transfer_id: &str) -> (error: Self)
        ensures
            error@ == transfer_not_found(transfer_id@),
    {
        RpcError {
            code: ErrorCode::TransferNotFound,
            message: "Transfer not found".to_owned(),
            detail: ErrorDetail::TransferId(transfer_id.to_owned()),
        }
    }

    /// No device file has the requested path.
    pub fn file_not_found(remote_path: &str) -> (error: Self)
        ensures
            error@ == file_not_found(remote_path@),
    {
        RpcError {
            code: ErrorCode::FileNotFound,
            message: "File not found".to_owned(),
            detail: ErrorDetail::RemotePath(remote_path.to_owned()),
        }
    }

    /// No application has the requested identifier.
    pub fn app_not_found(app_id: &str) -> (error: Self)
        ensures
            error@ == app_not_found(app_id@),
    {
        RpcError {
            code: ErrorCode::AppNotFound,
            message: "App not found".to_owned(),
            detail: ErrorDetail::AppId(app_id.to_owned()),
        }
    }

    /// No process has the requested identifier.
    pub fn process_not_found(pid: u32) -> (error: Self)
        ensures
            error@ == process_not_found(pid),
    {
        RpcError {
            code: ErrorCode::ProcessNotFound,
            message: "Process not found".to_owned(),
            detail: ErrorDetail::Pid(pid),
        }
    }

    /// An operation on a host file failed.
    pub fn host_file(operation: &str, path: &str, kind: &str) -> (error: Self)
        ensures
            error@ == host_file(operation@, path@, kind@),
    {
        RpcError {
            code: ErrorCode::InvalidState,
            message: "Host file operation failed".to_owned(),
            detail: ErrorDetail::HostFile {
                operation: operation.to_owned(),
                path: path.to_owned(),
                kind: kind.to_owned(),
            },
        }
    }

    /// A bundle could not be installed.
    pub fn install_failed(stage: &str, reason: &str, detail: &str) -> (error: Self)
        ensures
            error@ == install_failed(stage@, reason@, detail@),
    {
        RpcError {
            code: ErrorCode::AppInstallFailed,
            message: "Application install failed".to_owned(),
            detail: ErrorDetail::Install {
                stage: stage.to_owned(),
                reason: reason.to_owned(),
                detail: detail.to_owned(),
            },
        }
    }
}

/// Every error says of what kind it is and what it is about, so that a client can tell
/// a missing device from a missing feature, file, transfer, application or process, and
/// wrong parameters from a wrong state.
pub proof fn errors_say_what_they_are_about(
    what: Seq<char>,
    feature: Seq<char>,
    detail: Seq<char>,
    pid: u32,
)
    ensures
        invalid_params(what).code == ErrorCode::InvalidParams && invalid_params(what).detail
            == ErrorDetailView::Detail(what),
        invalid_state(what).code == ErrorCode::InvalidState && invalid_state(what).detail
            == ErrorDetailView::Detail(what),
        method_not_found(what).code == ErrorCode::MethodNotFound && method_not_found(what).detail
            == ErrorDetailView::Method(what),
        device_not_found(what).code == ErrorCode::DeviceNotFound && device_not_found(what).detail
            == ErrorDetailView::Serial(what),
        feature_unavailable(what, feature).code == ErrorCode::FeatureUnavailable
            && feature_unavailable(what, feature).detail == (ErrorDetailView::Feature {
            serial: what,
            feature,
        }),
        transfer_not_found(what).code == ErrorCode::TransferNotFound && transfer_not_found(
            what,
        ).detail == ErrorDetailView::TransferId(what),
        file_not_found(what).code == ErrorCode::FileNotFound && file_not_found(what).detail
            == ErrorDetailView::RemotePath(what),
        app_not_found(what).code == ErrorCode::AppNotFound && app_not_found(what).detail
            == ErrorDetailView::AppId(what),
        process_not_found(pid).code == ErrorCode::ProcessNotFound && process_not_found(pid).detail
            == ErrorDetailView::Pid(pid),
        host_file(what, feature, detail).code == ErrorCode::InvalidState && host_file(
            what,
            feature,
            detail,
        ).detail == (ErrorDetailView::HostFile { operation: what, path: feature, kind: detail }),
        install_failed(what, feature, detail).code == ErrorCode::AppInstallFailed
            && install_failed(what, feature, detail).detail == (ErrorDetailView::Install {
            stage: what,
            reason: feature,
            detail,
        }),
{
}

} // verus!
