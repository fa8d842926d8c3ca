//! Why a command fails.

use crate::cli::rpc::{ClientError, ClientErrorView};
use crate::number;
use crate::number::to_signed_decimal;
use crate::text;
use crate::text::{clone_optional, concat};
use vstd::pervasive::unreached;
use vstd::prelude::*;

verus! {

/// Why a command fails.
#[derive(Debug)]
pub enum CliError {
    /// The request to the server failed.
    Rpc(ClientError),
    /// The server returned something else than a result of this kind.
    InvalidResult { kind: String },
    /// The block size is out of range.
    InvalidBlockSize,
    /// The device path is absolute and not below the sync root.
    RemotePathOutsideSyncRoot(String),
    /// The current host directory cannot be told.
    CurrentDirectory(String),
    /// The update binary cannot be used.
    InvalidUpdateBinary(String),
    /// A shell needs the streaming path.
    StreamingShellRequired,
    /// The device refused a step of an update.
    UpdateRejected { step: String, message: String },
    /// The development project cannot be used.
    Project(String),
    /// The build command failed.
    BuildFailed { exit_code: i32, detail: String },
    /// A directory cannot be resumed under one identifier.
    DirectoryResumeUnsupported,
    /// The local directory cannot be used.
    LocalTree(String),
    /// A device path is not acceptable.
    InvalidRemotePath { path: String, reason: String },
    /// The device sent a path that is not acceptable.
    InvalidDeviceSyncPath { path: String, reason: String },
    /// Two device paths differ in case only.
    RemotePathCollision { first: String, second: String },
    /// The device sent two paths that differ in case only.
    DevicePathCollision { first: String, second: String },
    /// A device directory has too many entries.
    RemoteTreeTooLarge(String),
    /// A device directory changed while it was pulled.
    RemoteTreeChanged(String),
}

/// The model of [`CliError`].
#[verifier::ext_equal]
pub enum CliErrorView {
    Rpc(ClientErrorView),
    InvalidResult { kind: Seq<char> },
    InvalidBlockSize,
    RemotePathOutsideSyncRoot(Seq<char>),
    CurrentDirectory(Seq<char>),
    InvalidUpdateBinary(Seq<char>),
    StreamingShellRequired,
    UpdateRejected { step: Seq<char>, message: Seq<char> },
    Project(Seq<char>),
    BuildFailed { exit_code: i32, detail: Seq<char> },
    DirectoryResumeUnsupported,
    LocalTree(Seq<char>),
    InvalidRemotePath { path: Seq<char>, reason: Seq<char> },
    InvalidDeviceSyncPath { path: Seq<char>, reason: Seq<char> },
    RemotePathCollision { first: Seq<char>, second: Seq<char> },
    DevicePathCollision { first: Seq<char>, second: Seq<char> },
    RemoteTreeTooLarge(Seq<char>),
    RemoteTreeChanged(Seq<char>),
}

impl View for CliError {
    type V = CliErrorView;

    open spec fn view(&self) -> CliErrorView {
        match *self {
            CliError::Rpc(error) => CliErrorView::Rpc(error@),
            CliError::InvalidResult { kind } => CliErrorView::InvalidResult { kind: kind@ },
            CliError::InvalidBlockSize => CliErrorView::InvalidBlockSize,
            CliError::RemotePathOutsideSyncRoot(text) => CliErrorView::RemotePathOutsideSyncRoot(text@),
            CliError::CurrentDirectory(text) => CliErrorView::CurrentDirectory(text@),
            CliError::InvalidUpdateBinary(text) => CliErrorView::InvalidUpdateBinary(text@),
            CliError::StreamingShellRequired => CliErrorView::StreamingShellRequired,
            CliError::UpdateRejected { step, message } => CliErrorView::UpdateRejected { step: step@, message: message@ },
            CliError::Project(text) => CliErrorView::Project(text@),
            CliError::BuildFailed { exit_code, detail } => CliErrorView::BuildFailed { exit_code, detail: detail@ },
            CliError::DirectoryResumeUnsupported => CliErrorView::DirectoryResumeUnsupported,
            CliError::LocalTree(text) => CliErrorView::LocalTree(text@),
            CliError::InvalidRemotePath { path, reason } => CliErrorView::InvalidRemotePath { path: path@, reason: reason@ },
            CliError::InvalidDeviceSyncPath { path, reason } => CliErrorView::InvalidDeviceSyncPath { path: path@, reason: reason@ },
            CliError::RemotePathCollision { first, second } => CliErrorView::RemotePathCollision { first: first@, second: second@ },
            CliError::DevicePathCollision { first, second } => CliErrorView::DevicePathCollision { first: first@, second: second@ },
            CliError::RemoteTreeTooLarge(text) => CliErrorView::RemoteTreeTooLarge(text@),
            CliError::RemoteTreeChanged(text) => CliErrorView::RemoteTreeChanged(text@),
        }
    }
}

/// The model of the result of a command.
pub open spec fn outcome<T: View>(result: Result<T, CliError>) -> Result<T::V, CliErrorView> {
    match result {
        Ok(value) => Ok(value@),
        Err(error) => Err(error@),
    }
}

/// The machine-readable code of a failed command.
pub open spec fn code_of(error: CliErrorView) -> Seq<char> {
    match error {
        CliErrorView::Rpc(_) => "RPC_TRANSPORT_ERROR"@,
        CliErrorView::InvalidResult { .. } => "INVALID_SERVER_RESULT"@,
        CliErrorView::InvalidBlockSize => "INVALID_BLOCK_SIZE"@,
        CliErrorView::RemotePathOutsideSyncRoot(_) => "INVALID_REMOTE_PATH"@,
        CliErrorView::CurrentDirectory(_) => "HOST_IO_ERROR"@,
        CliErrorView::InvalidUpdateBinary(_) => "INVALID_UPDATE_BINARY"@,
        CliErrorView::StreamingShellRequired => "STREAMING_SHELL_REQUIRED"@,
        CliErrorView::UpdateRejected { .. } => "UPDATE_REJECTED"@,
        CliErrorView::Project(_) => "INVALID_PROJECT"@,
        CliErrorView::BuildFailed { .. } => "BUILD_FAILED"@,
        CliErrorView::DirectoryResumeUnsupported => "DIRECTORY_RESUME_UNSUPPORTED"@,
        CliErrorView::LocalTree(_) => "INVALID_LOCAL_TREE"@,
        CliErrorView::InvalidRemotePath { .. } => "INVALID_REMOTE_PATH"@,
        CliErrorView::InvalidDeviceSyncPath { .. } => "INVALID_SERVER_RESULT"@,
        CliErrorView::RemotePathCollision { .. } => "REMOTE_PATH_COLLISION"@,
        CliErrorView::DevicePathCollision { .. } => "REMOTE_PATH_COLLISION"@,
        CliErrorView::RemoteTreeTooLarge(_) => "REMOTE_TREE_TOO_LARGE"@,
        CliErrorView::RemoteTreeChanged(_) => "REMOTE_TREE_CHANGED"@,
    }
}

/// The machine-readable code of a failed command.
pub fn command_error_code(error: &CliError) -> (code: &'static str)
    ensures
        code@ == code_of(error@),
{
    match error {
        CliError::Rpc(_) => "RPC_TRANSPORT_ERROR",
        CliError::InvalidResult { .. } => "INVALID_SERVER_RESULT",
        CliError::InvalidBlockSize => "INVALID_BLOCK_SIZE",
        CliError::RemotePathOutsideSyncRoot(_) => "INVALID_REMOTE_PATH",
        CliError::CurrentDirectory(_) => "HOST_IO_ERROR",
        CliError::InvalidUpdateBinary(_) => "INVALID_UPDATE_BINARY",
        CliError::StreamingShellRequired => "STREAMING_SHELL_REQUIRED",
        CliError::UpdateRejected { .. } => "UPDATE_REJECTED",
        CliError::Project(_) => "INVALID_PROJECT",
        CliError::BuildFailed { .. } => "BUILD_FAILED",
        CliError::DirectoryResumeUnsupported => "DIRECTORY_RESUME_UNSUPPORTED",
        CliError::LocalTree(_) => "INVALID_LOCAL_TREE",
        CliError::InvalidRemotePath { .. } => "INVALID_REMOTE_PATH",
        CliError::InvalidDeviceSyncPath { .. } => "INVALID_SERVER_RESULT",
        CliError::RemotePathCollision { .. } => "REMOTE_PATH_COLLISION",
        CliError::DevicePathCollision { .. } => "REMOTE_PATH_COLLISION",
        CliError::RemoteTreeTooLarge(_) => "REMOTE_TREE_TOO_LARGE",
        CliError::RemoteTreeChanged(_) => "REMOTE_TREE_CHANGED",
    }
}

/// What the user is told of a failed command.
pub open spec fn message_of(error: CliErrorView) -> Seq<char> {
    match error {
        CliErrorView::Rpc(error) => crate::cli::rpc::client_message(error),
        CliErrorView::InvalidResult { kind } => "server returned an invalid "@ + kind + " result"@,
        CliErrorView::InvalidBlockSize => "block size must be between 1 and 1048576 bytes; omit --block-size for the latency-safe USB default"@,
        CliErrorView::RemotePathOutsideSyncRoot(text) => "device path must be relative or below /mnt/us/kindlebridge-data: "@ + text,
        CliErrorView::CurrentDirectory(text) => "could not resolve the current host directory: "@ + text,
        CliErrorView::InvalidUpdateBinary(text) => "invalid update binary: "@ + text,
        CliErrorView::StreamingShellRequired => "shell requires the streaming shell.v2 path through the shared local server"@,
        CliErrorView::UpdateRejected { step, message } => "device rejected the "@ + step + " step: "@ + message,
        CliErrorView::Project(text) => "could not load the development project: "@ + text,
        CliErrorView::BuildFailed { exit_code, detail } => "build command failed with exit code "@ + number::signed_decimal(exit_code as int) + detail,
        CliErrorView::DirectoryResumeUnsupported => "directory sync cannot use one --resume ID; rerun the directory command without --resume"@,
        CliErrorView::LocalTree(text) => "could not sync local directory: "@ + text,
        CliErrorView::InvalidRemotePath { path, reason } => "invalid device path "@ + path + ": "@ + reason,
        CliErrorView::InvalidDeviceSyncPath { path, reason } => "device returned an invalid sync path "@ + path + ": "@ + reason,
        CliErrorView::RemotePathCollision { first, second } => "device paths collide: "@ + first + " and "@ + second,
        CliErrorView::DevicePathCollision { first, second } => "device returned colliding paths: "@ + first + " and "@ + second,
        CliErrorView::RemoteTreeTooLarge(text) => "device directory contains more than 100000 entries: "@ + text,
        CliErrorView::RemoteTreeChanged(text) => "device directory changed during sync: "@ + text,
    }
}

impl CliError {
    /// What the user is told.
    pub fn to_text(&self) -> (text: String)
        ensures
            text@ == message_of(self@),
    {
        match self {
            CliError::Rpc(error) => error.to_text(),
            CliError::InvalidResult { kind } => {
                let mut full = concat("server returned an invalid ", kind.as_str());
                full.append(" result");
                full
            },
            CliError::InvalidBlockSize => "block size must be between 1 and 1048576 bytes; omit --block-size for the latency-safe USB default".to_owned(),
            CliError::RemotePathOutsideSyncRoot(text) => concat("device path must be relative or below /mnt/us/kindlebridge-data: ", text.as_str()),
            CliError::CurrentDirectory(text) => concat("could not resolve the current host directory: ", text.as_str()),
            CliError::InvalidUpdateBinary(text) => concat("invalid update binary: ", text.as_str()),
            CliError::StreamingShellRequired => "shell requires the streaming shell.v2 path through the shared local server".to_owned(),
            CliError::UpdateRejected { step, message } => {
                let mut full = concat("device rejected the ", step.as_str());
                full.append(" step: ");
                full.append(message.as_str());
                full
            },
            CliError::Project(text) => concat("could not load the development project: ", text.as_str()),
            CliError::BuildFailed { exit_code, detail } => {
                let mut full = concat("build command failed with exit code ", to_signed_decimal(*exit_code as i64).as_str());
                full.append(detail.as_str());
                full
            },
            CliError::DirectoryResumeUnsupported => "directory sync cannot use one --resume ID; rerun the directory command without --resume".to_owned(),
            CliError::LocalTree(text) => concat("could not sync local directory: ", text.as_str()),
            CliError::InvalidRemotePath { path, reason } => {
                let mut full = concat("invalid device path ", path.as_str());
                full.append(": ");
                full.append(reason.as_str());
                full
            },
            CliError::InvalidDeviceSyncPath { path, reason } => {
                let mut full = concat("device returned an invalid sync path ", path.as_str());
                full.append(": ");
                full.append(reason.as_str());
                full
            },
            CliError::RemotePathCollision { first, second } => {
                let mut full = concat("device paths collide: ", first.as_str());
                full.append(" and ");
                full.append(second.as_str());
                full
            },
            CliError::DevicePathCollision { first, second } => {
                let mut full = concat("device returned colliding paths: ", first.as_str());
                full.append(" and ");
                full.append(second.as_str());
                full
            },
            CliError::RemoteTreeTooLarge(text) => concat("device directory contains more than 100000 entries: ", text.as_str()),
            CliError::RemoteTreeChanged(text) => concat("device directory changed during sync: ", text.as_str()),
        }
    }
}

/// Why a run of the tool fails.
#[derive(Debug)]
pub enum RunError {
    /// A command failed.
    Command(CliError),
    /// The arguments do not fit together.
    Arguments(String),
    /// The server could not be started.
    Startup(String),
    /// Something else went wrong.
    Message(String),
}

/// The model of [`RunError`].
#[verifier::ext_equal]
pub enum RunErrorView {
    Command(CliErrorView),
    Arguments(Seq<char>),
    Startup(Seq<char>),
    Message(Seq<char>),
}

impl View for RunError {
    type V = RunErrorView;

    open spec fn view(&self) -> RunErrorView {
        match *self {
            RunError::Command(error) => RunErrorView::Command(error@),
            RunError::Arguments(text) => RunErrorView::Arguments(text@),
            RunError::Startup(text) => RunErrorView::Startup(text@),
            RunError::Message(text) => RunErrorView::Message(text@),
        }
    }
}

/// The kind and the code of a failed run, for machines. An error answer of the
/// server has a code of its own.
pub open spec fn classification(error: RunErrorView) -> (Seq<char>, Option<Seq<char>>) {
    match error {
        RunErrorView::Command(CliErrorView::Rpc(ClientErrorView::Rpc(_))) => ("rpc"@, None),
        RunErrorView::Command(CliErrorView::Rpc(_)) => (
            "transport"@,
            Some("RPC_TRANSPORT_ERROR"@),
        ),
        RunErrorView::Command(error) => ("command"@, Some(code_of(error))),
        RunErrorView::Arguments(_) => ("arguments"@, Some("INVALID_ARGUMENTS"@)),
        RunErrorView::Startup(_) => ("startup"@, Some("SERVER_START_FAILED"@)),
        RunErrorView::Message(_) => ("cli"@, Some("COMMAND_FAILED"@)),
    }
}

/// What the user is told of a failed run.
pub open spec fn run_message(error: RunErrorView) -> Seq<char> {
    match error {
        RunErrorView::Command(error) => message_of(error),
        RunErrorView::Arguments(text) => text,
        RunErrorView::Startup(text) => text,
        RunErrorView::Message(text) => text,
    }
}

impl RunError {
    /// The kind and the code of this failure, for machines.
    pub fn classify(&self) -> (class: (&'static str, Option<&'static str>))
        ensures
            class.0@ == classification(self@).0,
            match class.1 {
                Some(code) => classification(self@).1 == Some(code@),
                None => classification(self@).1 is None,
            },
    {
        match self {
            RunError::Command(error) => match error {
                CliError::Rpc(ClientError::Rpc(_)) => ("rpc", None),
                CliError::Rpc(_) => ("transport", Some("RPC_TRANSPORT_ERROR")),
                _ => ("command", Some(command_error_code(error))),
            },
            RunError::Arguments(_) => ("arguments", Some("INVALID_ARGUMENTS")),
            RunError::Startup(_) => ("startup", Some("SERVER_START_FAILED")),
            RunError::Message(_) => ("cli", Some("COMMAND_FAILED")),
        }
    }

    /// What the user is told.
    pub fn to_text(&self) -> (text: String)
        ensures
            text@ == run_message(self@),
    {
        match self {
            RunError::Command(error) => error.to_text(),
            RunError::Arguments(text) => text.clone(),
            RunError::Startup(text) => text.clone(),
            RunError::Message(text) => text.clone(),
        }
    }
}

/// The code of a failed run.
#[derive(Debug)]
pub enum ReportCode {
    Name(&'static str),
    /// The code of an error answer of the server.
    Number(i64),
}

/// A failed run, for machines.
#[derive(Debug)]
pub struct ErrorReport {
    pub kind: &'static str,
    pub code: ReportCode,
    pub message: String,
    /// What an error answer of the server says about its cause, as JSON.
    pub data: Option<String>,
}

/// Whether a report tells of a failed run.
pub open spec fn is_report(error: RunErrorView, report: ErrorReport) -> bool {
    &&& report.kind@ == classification(error).0
    &&& match error {
        RunErrorView::Command(CliErrorView::Rpc(ClientErrorView::Rpc(answer))) => {
            &&& report.code == ReportCode::Number(answer.code)
            &&& report.message@ == answer.message
            &&& text::optional(report.data) == answer.data
        },
        _ => {
            &&& report.code matches ReportCode::Name(code) && classification(error).1 == Some(code@)
            &&& report.message@ == run_message(error)
            &&& report.data is None
        },
    }
}

/// Reports a failed run to machines.
pub fn json_error(error: &RunError) -> (report: ErrorReport)
    ensures
        is_report(error@, report),
{
    if let RunError::Command(CliError::Rpc(ClientError::Rpc(answer))) = error {
        return ErrorReport {
            kind: "rpc",
            code: ReportCode::Number(answer.code),
            message: answer.message.clone(),
            data: clone_optional(&answer.data),
        };
    }
    let class = error.classify();
    let code = match class.1 {
        Some(code) => code,
        None => unreached(),
    };
    ErrorReport {
        kind: class.0,
        code: ReportCode::Name(code),
        message: error.to_text(),
        data: None,
    }
}

/// The user learns what a command failed over: the paths, the step, the exit code and
/// what the host or the device said are in the message.
pub proof fn failures_name_their_cause(error: CliErrorView)
    ensures
        match error {
            CliErrorView::Rpc(ClientErrorView::Rpc(answer)) => text::mentions(
                message_of(error),
                answer.message,
            ) && text::mentions(message_of(error), number::signed_decimal(answer.code as int)) && (
            answer.data matches Some(data) ==> text::mentions(message_of(error), data)),
            CliErrorView::Rpc(ClientErrorView::Transport(said)) => message_of(error) == said,
            CliErrorView::InvalidResult { kind } => text::mentions(message_of(error), kind),
            CliErrorView::RemotePathOutsideSyncRoot(path) => text::mentions(message_of(error), path),
            CliErrorView::CurrentDirectory(said) => text::mentions(message_of(error), said),
            CliErrorView::InvalidUpdateBinary(said) => text::mentions(message_of(error), said),
            CliErrorView::UpdateRejected { step, message } => text::mentions(message_of(error), step)
                && text::mentions(message_of(error), message),
            CliErrorView::Project(said) => text::mentions(message_of(error), said),
            CliErrorView::BuildFailed { exit_code, detail } => text::mentions(
                message_of(error),
                number::signed_decimal(exit_code as int),
            ) && text::mentions(message_of(error), detail),
            CliErrorView::LocalTree(said) => text::mentions(message_of(error), said),
            CliErrorView::InvalidRemotePath { path, reason } => text::mentions(message_of(error), path)
                && text::mentions(message_of(error), reason),
            CliErrorView::InvalidDeviceSyncPath { path, reason } => text::mentions(
                message_of(error),
                path,
            ) && text::mentions(message_of(error), reason),
            CliErrorView::RemotePathCollision { first, second } => text::mentions(
                message_of(error),
                first,
            ) && text::mentions(message_of(error), second),
            CliErrorView::DevicePathCollision { first, second } => text::mentions(
                message_of(error),
                first,
            ) && text::mentions(message_of(error), second),
            CliErrorView::RemoteTreeTooLarge(path) => text::mentions(message_of(error), path),
            CliErrorView::RemoteTreeChanged(path) => text::mentions(message_of(error), path),
            _ => message_of(error).len() > 0,
        },
{
    let empty = Seq::<char>::empty();
    let full = message_of(error);
    match error {
        CliErrorView::Rpc(ClientErrorView::Rpc(answer)) => {
            let number = number::signed_decimal(answer.code as int);
            let tail = match answer.data {
                Some(data) => ": "@ + data,
                None => empty,
            };
            text::mentioned(empty, answer.message, " ("@ + number + ")"@ + tail);
            assert(full =~= empty + answer.message + (" ("@ + number + ")"@ + tail));
            text::mentioned(answer.message + " ("@, number, ")"@ + tail);
            assert(full =~= answer.message + " ("@ + number + (")"@ + tail));
            if let Some(data) = answer.data {
                text::mentioned(answer.message + " ("@ + number + ")"@ + ": "@, data, empty);
                assert(full =~= answer.message + " ("@ + number + ")"@ + ": "@ + data + empty);
            }
        },
        CliErrorView::Rpc(ClientErrorView::InvalidResponse) => {
            reveal_strlit("invalid RPC response");
        },
        CliErrorView::InvalidResult { kind } => {
            text::mentioned("server returned an invalid "@, kind, " result"@);
        },
        CliErrorView::InvalidBlockSize => {
            reveal_strlit(
                "block size must be between 1 and 1048576 bytes; omit --block-size for the latency-safe USB default",
            );
        },
        CliErrorView::StreamingShellRequired => {
            reveal_strlit(
                "shell requires the streaming shell.v2 path through the shared local server",
            );
        },
        CliErrorView::DirectoryResumeUnsupported => {
            reveal_strlit(
                "directory sync cannot use one --resume ID; rerun the directory command without --resume",
            );
        },
        CliErrorView::RemotePathOutsideSyncRoot(part) => {
            text::at_the_end("device path must be relative or below /mnt/us/kindlebridge-data: "@, part);
        },
        CliErrorView::CurrentDirectory(part) => {
            text::at_the_end("could not resolve the current host directory: "@, part);
        },
        CliErrorView::InvalidUpdateBinary(part) => {
            text::at_the_end("invalid update binary: "@, part);
        },
        CliErrorView::UpdateRejected { step, message } => {
            text::both_mentioned("device rejected the "@, step, " step: "@, message);
        },
        CliErrorView::Project(part) => {
            text::at_the_end("could not load the development project: "@, part);
        },
        CliErrorView::BuildFailed { exit_code, detail } => {
            let number = number::signed_decimal(exit_code as int);
            text::both_mentioned("build command failed with exit code "@, number, empty, detail);
            assert(full =~= "build command failed with exit code "@ + number + empty + detail);
        },
        CliErrorView::LocalTree(part) => {
            text::at_the_end("could not sync local directory: "@, part);
        },
        CliErrorView::InvalidRemotePath { path, reason } => {
            text::both_mentioned("invalid device path "@, path, ": "@, reason);
        },
        CliErrorView::InvalidDeviceSyncPath { path, reason } => {
            text::both_mentioned("device returned an invalid sync path "@, path, ": "@, reason);
        },
        CliErrorView::RemotePathCollision { first, second } => {
            text::both_mentioned("device paths collide: "@, first, " and "@, second);
        },
        CliErrorView::DevicePathCollision { first, second } => {
            text::both_mentioned("device returned colliding paths: "@, first, " and "@, second);
        },
        CliErrorView::RemoteTreeTooLarge(part) => {
            text::at_the_end("device directory contains more than 100000 entries: "@, part);
        },
        CliErrorView::RemoteTreeChanged(part) => {
            text::at_the_end("device directory changed during sync: "@, part);
        },
        _ => {},
    }
}

/// Machines can tell failures apart: what the server answered is reported with its own
/// number, message and data, a lost connection, wrong arguments, a server that did not
/// start and a failed command each have a kind of their own, and only an error answer
/// has no name.
pub proof fn reports_tell_failures_apart(
    left: RunErrorView,
    right: RunErrorView,
    report: ErrorReport,
    other: ErrorReport,
)
    requires
        is_report(left, report),
        is_report(right, other),
        report.kind@ == other.kind@,
    ensures
        left is Arguments <==> right is Arguments,
        left is Startup <==> right is Startup,
        left is Message <==> right is Message,
        left is Command && right is Command ==> (left->Command_0 is Rpc <==> right->Command_0
            is Rpc),
        report.code is Number <==> other.code is Number,
        left matches RunErrorView::Command(CliErrorView::Rpc(ClientErrorView::Rpc(answer)))
            ==> report.code == ReportCode::Number(answer.code) && report.message@
            == answer.message && text::optional(report.data) == answer.data,
        report.data is Some ==> report.code is Number,
        report.code is Name ==> report.message@ == run_message(left),
{
    reveal_strlit("rpc");
    reveal_strlit("transport");
    reveal_strlit("command");
    reveal_strlit("arguments");
    reveal_strlit("startup");
    reveal_strlit("cli");
    assert("rpc"@[0] == 'r');
    assert("transport"@[0] == 't');
    assert("command"@.len() == 7);
    assert("arguments"@[0] == 'a');
    assert("startup"@[0] == 's');
    assert("cli"@.len() == 3);
    assert("cli"@[0] == 'c');
}

} // verus!
