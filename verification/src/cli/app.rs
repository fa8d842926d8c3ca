//! The application commands.

use crate::cli::args::AppCommand;
use crate::cli::error;
use crate::cli::error::{CliError, CliErrorView};
use crate::cli::execute::{ask, invalid, invalid_result, one_call, shown_as};
use crate::cli::host_path::HostPath;
use crate::cli::output;
use crate::cli::output::{format_app, format_apps};
use crate::cli::rpc::{
    CallResult, CallResultView, RpcCall, RpcCallView, RpcCaller, RpcReply, RpcReplyView,
};
use crate::codec;
use crate::codec::{decode_base64, to_lossy_text};
use crate::model::{
    AppInstallParams, AppInstallParamsView, AppLogParams, AppLogParamsView, AppLogSnapshotView,
    AppSummary, AppTargetParams, AppTargetParamsView, SerialParams, SerialParamsView,
};
use vstd::prelude::*;

verus! {

/// Decodes captured application output.
pub fn decode_log(encoded: &str) -> (result: Result<Vec<u8>, CliError>)
    ensures
        match codec::base64_bytes(encoded@) {
            Some(bytes) => result matches Ok(decoded) && decoded@ == bytes,
            None => result matches Err(error) && error@ == invalid("app log"@),
        },
{
    match decode_base64(encoded) {
        Ok(bytes) => Ok(bytes),
        Err(_) => Err(invalid_result("app log")),
    }
}

/// One application, as JSON or for the user.
pub fn format_result(pretty: String, app: &AppSummary, json_output: bool) -> (text: String)
    ensures
        text@ == (if json_output {
            pretty@
        } else {
            output::app_text(app@)
        }),
{
    if json_output {
        pretty
    } else {
        format_app(app)
    }
}

/// Why an application command is refused before anything is sent, if it is.
pub open spec fn app_refusal(command: AppCommand, bundle: HostPath) -> Option<CliErrorView> {
    match command {
        AppCommand::Install { .. } => match bundle {
            HostPath::Unresolved(message) => Some(CliErrorView::CurrentDirectory(message@)),
            HostPath::Absolute(_) => None,
        },
        AppCommand::Log { follow, .. } => if follow {
            Some(CliErrorView::Project("app log --follow requires the streaming CLI path"@))
        } else {
            None
        },
        _ => None,
    }
}

/// An application on a device.
pub open spec fn target(serial: Seq<char>, app_id: Seq<char>) -> AppTargetParamsView {
    AppTargetParamsView { serial, app_id }
}

/// The request of an application command.
pub open spec fn app_call(command: AppCommand, bundle: HostPath) -> RpcCallView {
    match command {
        AppCommand::Install { serial, .. } => RpcCallView::AppInstall(
            AppInstallParamsView { serial: serial@, bundle_path: bundle->Absolute_0@ },
        ),
        AppCommand::Start { serial, app_id } => RpcCallView::AppStart(target(serial@, app_id@)),
        AppCommand::Stop { serial, app_id } => RpcCallView::AppStop(target(serial@, app_id@)),
        AppCommand::Restart { serial, app_id } => RpcCallView::AppRestart(target(serial@, app_id@)),
        AppCommand::Rollback { serial, app_id } => RpcCallView::AppRollback(
            target(serial@, app_id@),
        ),
        AppCommand::Uninstall { serial, app_id } => RpcCallView::AppUninstall(
            target(serial@, app_id@),
        ),
        AppCommand::Log { serial, app_id, follow: _, max_bytes } => RpcCallView::AppLog(
            AppLogParamsView {
                serial: serial@,
                app_id: app_id@,
                run_id: None,
                stdout_cursor: 0,
                stderr_cursor: 0,
                max_bytes: Some(max_bytes),
            },
        ),
        AppCommand::List { serial } => RpcCallView::AppList(SerialParamsView { serial: serial@ }),
    }
}

/// What the answer about one application shows.
pub open spec fn one_app_shown(kind: Seq<char>, json: bool, reply: RpcReplyView) -> Result<
    Seq<char>,
    CliErrorView,
> {
    match reply.result {
        CallResultView::App(app) => Ok(shown_as(json, reply, output::app_text(app))),
        _ => Err(invalid(kind)),
    }
}

/// The captured output of an application, for the user: the standard output and
/// then the standard error.
pub open spec fn captured_text(snapshot: AppLogSnapshotView) -> Result<Seq<char>, CliErrorView> {
    match (
        codec::base64_bytes(snapshot.stdout.data_base64),
        codec::base64_bytes(snapshot.stderr.data_base64),
    ) {
        (Some(stdout), Some(stderr)) => Ok(codec::lossy_text(stdout) + codec::lossy_text(stderr)),
        _ => Err(invalid("app log"@)),
    }
}

/// What an application command shows.
pub open spec fn app_shown(command: AppCommand, json: bool, reply: RpcReplyView) -> Result<
    Seq<char>,
    CliErrorView,
> {
    match command {
        AppCommand::Install { .. } => one_app_shown("app install"@, json, reply),
        AppCommand::List { .. } => match reply.result {
            CallResultView::Apps(apps) => Ok(shown_as(json, reply, output::app_table(apps))),
            _ => Err(invalid("app list"@)),
        },
        AppCommand::Log { .. } => match reply.result {
            CallResultView::AppLog(snapshot) => if json {
                Ok(reply.pretty)
            } else {
                captured_text(snapshot)
            },
            _ => Err(invalid("app log"@)),
        },
        _ => one_app_shown("app operation"@, json, reply),
    }
}

fn show_app(reply: RpcReply, kind: &str, json_output: bool) -> (result: Result<String, CliError>)
    ensures
        error::outcome(result) == one_app_shown(kind@, json_output, reply@),
{
    match &reply.result {
        CallResult::App(app) => Ok(format_result(reply.pretty, app, json_output)),
        _ => Err(invalid_result(kind)),
    }
}

fn show_log(reply: RpcReply, json_output: bool) -> (result: Result<String, CliError>)
    ensures
        error::outcome(result) == (match reply@.result {
            CallResultView::AppLog(snapshot) => if json_output {
                Ok(reply@.pretty)
            } else {
                captured_text(snapshot)
            },
            _ => Err(invalid("app log"@)),
        }),
{
    match &reply.result {
        CallResult::AppLog(snapshot) => {
            if json_output {
                return Ok(reply.pretty);
            }
            let stdout = decode_log(snapshot.stdout.data_base64.as_str())?;
            let stderr = decode_log(snapshot.stderr.data_base64.as_str())?;
            let mut text = to_lossy_text(stdout.as_slice());
            text.append(to_lossy_text(stderr.as_slice()).as_str());
            Ok(text)
        },
        _ => Err(invalid_result("app log")),
    }
}

fn target_params(serial: &String, app_id: &String) -> (params: AppTargetParams)
    ensures
        params@ == target(serial@, app_id@),
{
    AppTargetParams { serial: serial.clone(), app_id: app_id.clone() }
}

/// Runs an application command. The bundle is the path of an installation as the
/// user means it.
pub fn execute_app<C: RpcCaller>(
    caller: &mut C,
    command: &AppCommand,
    bundle: HostPath,
    json_output: bool,
) -> (result: Result<String, CliError>)
    ensures
        match app_refusal(*command, bundle) {
            Some(refusal) => final(caller).exchanges() == old(caller).exchanges() && error::outcome(
                result,
            ) == Err::<Seq<char>, _>(refusal),
            None => one_call(
                old(caller).exchanges(),
                final(caller).exchanges(),
                app_call(*command, bundle),
                |reply: RpcReplyView| app_shown(*command, json_output, reply),
                error::outcome(result),
            ),
        },
{
    match command {
        AppCommand::Install { serial, .. } => {
            let bundle_path = match bundle {
                HostPath::Absolute(path) => path,
                HostPath::Unresolved(message) => {
                    return Err(CliError::CurrentDirectory(message));
                },
            };
            let params = AppInstallParams { serial: serial.clone(), bundle_path };
            let reply = ask(caller, RpcCall::AppInstall(params))?;
            show_app(reply, "app install", json_output)
        },
        AppCommand::List { serial } => {
            let reply = ask(caller, RpcCall::AppList(SerialParams { serial: serial.clone() }))?;
            match &reply.result {
                CallResult::Apps(apps) => {
                    if json_output {
                        Ok(reply.pretty)
                    } else {
                        Ok(format_apps(apps))
                    }
                },
                _ => Err(invalid_result("app list")),
            }
        },
        AppCommand::Log { serial, app_id, follow, max_bytes } => {
            if *follow {
                return Err(
                    CliError::Project(
                        "app log --follow requires the streaming CLI path".to_owned(),
                    ),
                );
            }
            let params = AppLogParams {
                serial: serial.clone(),
                app_id: app_id.clone(),
                run_id: None,
                stdout_cursor: 0,
                stderr_cursor: 0,
                max_bytes: Some(*max_bytes),
            };
            let reply = ask(caller, RpcCall::AppLog(params))?;
            show_log(reply, json_output)
        },
        AppCommand::Start { serial, app_id } => {
            let reply = ask(caller, RpcCall::AppStart(target_params(serial, app_id)))?;
            show_app(reply, "app operation", json_output)
        },
        AppCommand::Stop { serial, app_id } => {
            let reply = ask(caller, RpcCall::AppStop(target_params(serial, app_id)))?;
            show_app(reply, "app operation", json_output)
        },
        AppCommand::Restart { serial, app_id } => {
            let reply = ask(caller, RpcCall::AppRestart(target_params(serial, app_id)))?;
            show_app(reply, "app operation", json_output)
        },
        AppCommand::Rollback { serial, app_id } => {
            let reply = ask(caller, RpcCall::AppRollback(target_params(serial, app_id)))?;
            show_app(reply, "app operation", json_output)
        },
        AppCommand::Uninstall { serial, app_id } => {
            let reply = ask(caller, RpcCall::AppUninstall(target_params(serial, app_id)))?;
            show_app(reply, "app operation", json_output)
        },
    }
}

} // verus!
