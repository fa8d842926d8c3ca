//! Running commands against the server.

use crate::cli::args::{DeviceCommand, LogCommand, ProcessCommand, ServerCommand};
use crate::cli::error;
use crate::cli::error::{CliError, CliErrorView};
use crate::cli::output;
use crate::cli::output::{
    format_devices, format_exec, format_features, format_log, format_processes,
    format_server_identity, format_signal, format_sync_status, CommandOutput,
};
use crate::cli::rpc::{
    CallResult, CallResultView, ClientErrorView, Exchange, RpcCall, RpcCallView, RpcCaller, RpcReply,
    RpcReplyView,
};
use crate::codec;
use crate::model::{
    ExecParams, ExecParamsView, LogTailParams, LogTailParamsView, ProcessSignalParams,
    ProcessSignalParamsView, SerialParams, SerialParamsView, SyncStatusParams, SyncStatusParamsView,
};
use crate::number;
use crate::number::to_decimal;
use crate::text;
use crate::text::{clone_all, concat};
use vstd::prelude::*;

verus! {

/// Whether one request was sent, with this answer.
pub open spec fn asked(
    before: Seq<Exchange>,
    after: Seq<Exchange>,
    call: RpcCallView,
    reply: Result<RpcReplyView, ClientErrorView>,
) -> bool {
    after == before.push(Exchange { call, reply })
}

/// Whether a command sent exactly this request and ended as its answer says: a
/// failed request fails the command.
pub open spec fn one_call<T>(
    before: Seq<Exchange>,
    after: Seq<Exchange>,
    call: RpcCallView,
    shown: spec_fn(RpcReplyView) -> Result<T, CliErrorView>,
    result: Result<T, CliErrorView>,
) -> bool {
    exists|reply: Result<RpcReplyView, ClientErrorView>| #[trigger]
        asked(before, after, call, reply) && result == (match reply {
            Ok(answer) => shown(answer),
            Err(error) => Err(CliErrorView::Rpc(error)),
        })
}

/// The answer that a request got, as far as the command can tell.
pub open spec fn answer_of(reply: Result<RpcReply, CliError>) -> Result<
    RpcReplyView,
    ClientErrorView,
> {
    match reply {
        Ok(answer) => Ok(answer@),
        Err(error) => Err(error@->Rpc_0),
    }
}

/// Sends one request. A failed one fails the command.
pub(crate) fn ask<C: RpcCaller>(caller: &mut C, call: RpcCall) -> (reply: Result<
    RpcReply,
    CliError,
>)
    ensures
        match reply {
            Ok(answer) => asked(
                old(caller).exchanges(),
                final(caller).exchanges(),
                call@,
                Ok(answer@),
            ),
            Err(error) => error@ matches CliErrorView::Rpc(failure) && asked(
                old(caller).exchanges(),
                final(caller).exchanges(),
                call@,
                Err(failure),
            ),
        },
{
    match caller.call(call) {
        Ok(answer) => Ok(answer),
        Err(error) => Err(CliError::Rpc(error)),
    }
}

/// The error of an answer that does not have the shape that the request calls
/// for.
pub open spec fn invalid(kind: Seq<char>) -> CliErrorView {
    CliErrorView::InvalidResult { kind }
}

pub(crate) fn invalid_result(kind: &str) -> (error: CliError)
    ensures
        error@ == invalid(kind@),
{
    CliError::InvalidResult { kind: kind.to_owned() }
}

/// The answer as JSON, or what the user is shown.
pub open spec fn shown_as(json: bool, reply: RpcReplyView, human: Seq<char>) -> Seq<char> {
    if json {
        reply.pretty
    } else {
        human
    }
}

/// The request of a server command.
pub open spec fn server_call(command: ServerCommand) -> RpcCallView {
    match command {
        ServerCommand::Ping => RpcCallView::ServerPing,
        ServerCommand::Version => RpcCallView::ServerVersion,
        ServerCommand::Status => RpcCallView::ServerStatus,
        ServerCommand::Stop => RpcCallView::ServerStop,
    }
}

/// What a ping shows.
pub open spec fn ping_shown(json: bool, reply: RpcReplyView) -> Result<Seq<char>, CliErrorView> {
    if reply.result == CallResultView::Ping(true) {
        Ok(shown_as(json, reply, "pong"@))
    } else {
        Err(invalid("ping"@))
    }
}

/// What a server command shows.
pub open spec fn server_shown(command: ServerCommand, json: bool, reply: RpcReplyView) -> Result<
    Seq<char>,
    CliErrorView,
> {
    match command {
        ServerCommand::Ping => ping_shown(json, reply),
        ServerCommand::Version => match reply.result {
            CallResultView::Version(version) => Ok(
                shown_as(json, reply, output::version_text(version)),
            ),
            _ => Err(invalid("version"@)),
        },
        ServerCommand::Status => Ok(
            shown_as(
                json,
                reply,
                "running (pid "@ + number::decimal(
                    match reply.result {
                        CallResultView::Status(pid) => pid as nat,
                        _ => 0,
                    },
                ) + ")"@,
            ),
        ),
        ServerCommand::Stop => Ok(shown_as(json, reply, "stopping"@)),
    }
}

fn is_pong(reply: &RpcReply) -> (pong: bool)
    ensures
        pong == (reply@.result == CallResultView::Ping(true)),
{
    match &reply.result {
        CallResult::Ping(ok) => *ok,
        _ => false,
    }
}

/// Runs a server command.
pub fn execute_server<C: RpcCaller>(
    caller: &mut C,
    command: ServerCommand,
    json_output: bool,
) -> (result: Result<String, CliError>)
    ensures
        one_call(
            old(caller).exchanges(),
            final(caller).exchanges(),
            server_call(command),
            |reply: RpcReplyView| server_shown(command, json_output, reply),
            error::outcome(result),
        ),
{
    let call = match command {
        ServerCommand::Ping => RpcCall::ServerPing,
        ServerCommand::Version => RpcCall::ServerVersion,
        ServerCommand::Status => RpcCall::ServerStatus,
        ServerCommand::Stop => RpcCall::ServerStop,
    };
    let reply = ask(caller, call)?;
    match command {
        ServerCommand::Ping => {
            if !is_pong(&reply) {
                return Err(invalid_result("ping"));
            }
            if json_output {
                Ok(reply.pretty)
            } else {
                Ok("pong".to_owned())
            }
        },
        ServerCommand::Version => match &reply.result {
            CallResult::Version(version) => {
                if json_output {
                    Ok(reply.pretty)
                } else {
                    Ok(format_server_identity(version))
                }
            },
            _ => Err(invalid_result("version")),
        },
        ServerCommand::Status => {
            if json_output {
                return Ok(reply.pretty);
            }
            let pid: u64 = match &reply.result {
                CallResult::Status(pid) => *pid,
                _ => 0,
            };
            let mut text = concat("running (pid ", to_decimal(pid).as_str());
            text.append(")");
            Ok(text)
        },
        ServerCommand::Stop => {
            if json_output {
                Ok(reply.pretty)
            } else {
                Ok("stopping".to_owned())
            }
        },
    }
}

/// The request of a device command.
pub open spec fn device_call(command: DeviceCommand) -> RpcCallView {
    match command {
        DeviceCommand::List => RpcCallView::DeviceList,
        DeviceCommand::Ping { serial } => RpcCallView::DevicePing(
            SerialParamsView { serial: serial@ },
        ),
        DeviceCommand::Features { serial } => RpcCallView::DeviceFeatures(
            SerialParamsView { serial: serial@ },
        ),
    }
}

/// What a device command shows.
pub open spec fn device_shown(command: DeviceCommand, json: bool, reply: RpcReplyView) -> Result<
    Seq<char>,
    CliErrorView,
> {
    match command {
        DeviceCommand::List => match reply.result {
            CallResultView::Devices(devices) => Ok(
                shown_as(json, reply, output::device_table(devices)),
            ),
            _ => Err(invalid("device list"@)),
        },
        DeviceCommand::Ping { serial } => ping_shown(json, reply),
        DeviceCommand::Features { serial } => match reply.result {
            CallResultView::Features(features) => Ok(
                shown_as(json, reply, output::features_text(features)),
            ),
            _ => Err(invalid("device features"@)),
        },
    }
}

/// Runs a device command.
pub fn execute_device<C: RpcCaller>(
    caller: &mut C,
    command: &DeviceCommand,
    json_output: bool,
) -> (result: Result<String, CliError>)
    ensures
        one_call(
            old(caller).exchanges(),
            final(caller).exchanges(),
            device_call(*command),
            |reply: RpcReplyView| device_shown(*command, json_output, reply),
            error::outcome(result),
        ),
{
    match command {
        DeviceCommand::List => {
            let reply = ask(caller, RpcCall::DeviceList)?;
            match &reply.result {
                CallResult::Devices(devices) => {
                    if json_output {
                        Ok(reply.pretty)
                    } else {
                        Ok(format_devices(devices))
                    }
                },
                _ => Err(invalid_result("device list")),
            }
        },
        DeviceCommand::Ping { serial } => {
            let reply = ask(caller, RpcCall::DevicePing(SerialParams { serial: serial.clone() }))?;
            if !is_pong(&reply) {
                return Err(invalid_result("ping"));
            }
            if json_output {
                Ok(reply.pretty)
            } else {
                Ok("pong".to_owned())
            }
        },
        DeviceCommand::Features { serial } => {
            let reply = ask(
                caller,
                RpcCall::DeviceFeatures(SerialParams { serial: serial.clone() }),
            )?;
            match &reply.result {
                CallResult::Features(features) => {
                    if json_output {
                        Ok(reply.pretty)
                    } else {
                        Ok(format_features(features))
                    }
                },
                _ => Err(invalid_result("device features")),
            }
        },
    }
}

impl View for CommandOutput {
    type V = (Seq<char>, i32);

    open spec fn view(&self) -> (Seq<char>, i32) {
        (self.output@, self.exit_code)
    }
}

/// The request to run a process.
pub open spec fn exec_call(serial: Seq<char>, argv: Seq<Seq<char>>, timeout_ms: u64) -> RpcCallView {
    RpcCallView::ExecRun(
        ExecParamsView { serial, argv, cwd: None, environment: Seq::empty(), timeout_ms },
    )
}

/// What running a process shows, and its exit code.
pub open spec fn exec_shown(json: bool, reply: RpcReplyView) -> Result<
    (Seq<char>, i32),
    CliErrorView,
> {
    match reply.result {
        CallResultView::Exec(result) => Ok(
            (shown_as(json, reply, output::exec_text(result)), result.exit_code),
        ),
        _ => Err(invalid("exec"@)),
    }
}

/// Runs one process on a device. The exit code of the tool is that of the
/// process.
pub fn execute_exec<C: RpcCaller>(
    caller: &mut C,
    serial: &String,
    argv: &Vec<String>,
    timeout_ms: u64,
    json_output: bool,
) -> (result: Result<CommandOutput, CliError>)
    ensures
        one_call(
            old(caller).exchanges(),
            final(caller).exchanges(),
            exec_call(serial@, text::all(argv@), timeout_ms),
            |reply: RpcReplyView| exec_shown(json_output, reply),
            error::outcome(result),
        ),
{
    let params = ExecParams {
        serial: serial.clone(),
        argv: clone_all(argv),
        cwd: None,
        environment: Vec::new(),
        timeout_ms,
    };
    assert(params@.environment =~= Seq::empty());
    let reply = ask(caller, RpcCall::ExecRun(params))?;
    match &reply.result {
        CallResult::Exec(exec) => {
            let exit_code: i32 = exec.exit_code;
            let output = if json_output {
                reply.pretty
            } else {
                format_exec(exec)
            };
            Ok(CommandOutput { output, exit_code })
        },
        _ => Err(invalid_result("exec")),
    }
}

/// The request of a process command.
pub open spec fn process_call(command: ProcessCommand) -> RpcCallView {
    match command {
        ProcessCommand::List { serial } => RpcCallView::ProcessList(
            SerialParamsView { serial: serial@ },
        ),
        ProcessCommand::Signal { serial, pid, signal } => RpcCallView::ProcessSignal(
            ProcessSignalParamsView { serial: serial@, pid, signal: signal@ },
        ),
    }
}

/// What a process command shows.
pub open spec fn process_shown(command: ProcessCommand, json: bool, reply: RpcReplyView) -> Result<
    Seq<char>,
    CliErrorView,
> {
    match command {
        ProcessCommand::List { serial } => match reply.result {
            CallResultView::Processes(processes) => Ok(
                shown_as(json, reply, output::process_table(processes)),
            ),
            _ => Err(invalid("process list"@)),
        },
        ProcessCommand::Signal { serial, pid, signal } => match reply.result {
            CallResultView::Process(process) => Ok(
                shown_as(json, reply, output::signal_text(signal@, process)),
            ),
            _ => Err(invalid("process signal"@)),
        },
    }
}

/// Runs a process command.
pub fn execute_process<C: RpcCaller>(
    caller: &mut C,
    command: &ProcessCommand,
    json_output: bool,
) -> (result: Result<String, CliError>)
    ensures
        one_call(
            old(caller).exchanges(),
            final(caller).exchanges(),
            process_call(*command),
            |reply: RpcReplyView| process_shown(*command, json_output, reply),
            error::outcome(result),
        ),
{
    match command {
        ProcessCommand::List { serial } => {
            let reply = ask(caller, RpcCall::ProcessList(SerialParams { serial: serial.clone() }))?;
            match &reply.result {
                CallResult::Processes(processes) => {
                    if json_output {
                        Ok(reply.pretty)
                    } else {
                        Ok(format_processes(processes))
                    }
                },
                _ => Err(invalid_result("process list")),
            }
        },
        ProcessCommand::Signal { serial, pid, signal } => {
            let reply = ask(
                caller,
                RpcCall::ProcessSignal(
                    ProcessSignalParams {
                        serial: serial.clone(),
                        pid: *pid,
                        signal: signal.clone(),
                    },
                ),
            )?;
            match &reply.result {
                CallResult::Process(process) => {
                    if json_output {
                        Ok(reply.pretty)
                    } else {
                        Ok(format_signal(signal.as_str(), process))
                    }
                },
                _ => Err(invalid_result("process signal")),
            }
        },
    }
}

/// The request of a log command.
pub open spec fn log_call(command: LogCommand) -> RpcCallView {
    match command {
        LogCommand::Tail { serial, cursor, limit } => RpcCallView::LogTail(
            LogTailParamsView { serial: serial@, cursor, limit: Some(limit) },
        ),
    }
}

/// What a log command shows.
pub open spec fn log_shown(json: bool, reply: RpcReplyView) -> Result<Seq<char>, CliErrorView> {
    match reply.result {
        CallResultView::Log(snapshot) => Ok(
            shown_as(json, reply, output::log_lines(snapshot.entries)),
        ),
        _ => Err(invalid("log tail"@)),
    }
}

/// Runs a log command.
pub fn execute_log<C: RpcCaller>(
    caller: &mut C,
    command: &LogCommand,
    json_output: bool,
) -> (result: Result<String, CliError>)
    ensures
        one_call(
            old(caller).exchanges(),
            final(caller).exchanges(),
            log_call(*command),
            |reply: RpcReplyView| log_shown(json_output, reply),
            error::outcome(result),
        ),
{
    match command {
        LogCommand::Tail { serial, cursor, limit } => {
            let reply = ask(
                caller,
                RpcCall::LogTail(
                    LogTailParams { serial: serial.clone(), cursor: *cursor, limit: Some(*limit) },
                ),
            )?;
            match &reply.result {
                CallResult::Log(snapshot) => {
                    if json_output {
                        Ok(reply.pretty)
                    } else {
                        Ok(format_log(&snapshot.entries))
                    }
                },
                _ => Err(invalid_result("log tail")),
            }
        },
    }
}

/// What the status of a transfer shows.
pub open spec fn status_shown(json: bool, reply: RpcReplyView) -> Result<Seq<char>, CliErrorView> {
    match reply.result {
        CallResultView::SyncStatus(status) => Ok(
            shown_as(json, reply, codec::lower_case(output::status_words(status))),
        ),
        _ => Err(invalid("sync status"@)),
    }
}

/// Shows the status of a transfer.
pub fn execute_sync_status<C: RpcCaller>(
    caller: &mut C,
    serial: &String,
    transfer_id: &String,
    json_output: bool,
) -> (result: Result<String, CliError>)
    ensures
        one_call(
            old(caller).exchanges(),
            final(caller).exchanges(),
            RpcCallView::SyncStatus(
                SyncStatusParamsView { serial: serial@, transfer_id: transfer_id@ },
            ),
            |reply: RpcReplyView| status_shown(json_output, reply),
            error::outcome(result),
        ),
{
    let reply = ask(
        caller,
        RpcCall::SyncStatus(
            SyncStatusParams { serial: serial.clone(), transfer_id: transfer_id.clone() },
        ),
    )?;
    match &reply.result {
        CallResult::SyncStatus(status) => {
            if json_output {
                Ok(reply.pretty)
            } else {
                Ok(format_sync_status(status))
            }
        },
        _ => Err(invalid_result("sync status")),
    }
}

} // verus!
