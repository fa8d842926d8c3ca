//! What holds of every command, whatever the server answers.

use crate::cli::args::{
    AppCommand, DaemonCommand, DeviceCommand, LogCommand, ProcessCommand, SyncCommand,
    TopLevelCommand,
};
use crate::cli::command;
use crate::cli::command::{executed, facts_fit, Executed, HostFacts};
use crate::cli::error::{CliError, CliErrorView};
use crate::cli::execute;
use crate::cli::host_path::HostPath;
use crate::cli::local_tree;
use crate::cli::rpc;
use crate::cli::rpc::{CallResultView, ClientErrorView, Exchange, RpcCallView, RpcReplyView};
use crate::cli::sync;
use crate::cli::sync::{LocalSource, TransferSummaryView, TransferredView, TreeTotalsView};
use crate::host_rpc;
use crate::host_rpc::{ParamsView, ReplyView, Route, ServerStateView};
use crate::logical_path;
use crate::methods;
use crate::model::{
    AppInstallParamsView, AppTargetParamsView, LogTailParamsView, ProcessSignalParamsView,
    TransferDirection,
};
use crate::provider::DeviceOperationView;
use crate::runtime::model::{HostBundleView, HostFileView};
use crate::text;
use vstd::prelude::*;

verus! {

/// The device that a request is about.
pub open spec fn device_of(call: RpcCallView) -> Option<Seq<char>> {
    match call {
        RpcCallView::ServerPing => None,
        RpcCallView::ServerVersion => None,
        RpcCallView::ServerStatus => None,
        RpcCallView::ServerStop => None,
        RpcCallView::DeviceList => None,
        RpcCallView::DevicePing(params) => Some(params.serial),
        RpcCallView::DeviceFeatures(params) => Some(params.serial),
        RpcCallView::ExecRun(params) => Some(params.serial),
        RpcCallView::SyncPush(params) => Some(params.serial),
        RpcCallView::SyncPull(params) => Some(params.serial),
        RpcCallView::SyncStatus(params) => Some(params.serial),
        RpcCallView::SyncList(params) => Some(params.serial),
        RpcCallView::SyncMkdir(params) => Some(params.serial),
        RpcCallView::AppInstall(params) => Some(params.serial),
        RpcCallView::AppStart(params) => Some(params.serial),
        RpcCallView::AppStop(params) => Some(params.serial),
        RpcCallView::AppRestart(params) => Some(params.serial),
        RpcCallView::AppRollback(params) => Some(params.serial),
        RpcCallView::AppUninstall(params) => Some(params.serial),
        RpcCallView::AppList(params) => Some(params.serial),
        RpcCallView::AppLog(params) => Some(params.serial),
        RpcCallView::ProcessList(params) => Some(params.serial),
        RpcCallView::ProcessSignal(params) => Some(params.serial),
        RpcCallView::LogTail(params) => Some(params.serial),
    }
}

/// The device that the user names.
pub open spec fn named_device(command: TopLevelCommand) -> Option<Seq<char>> {
    match command {
        TopLevelCommand::Server(_) => None,
        TopLevelCommand::Device(args) => match args.command {
            DeviceCommand::List => None,
            DeviceCommand::Ping { serial } => Some(serial@),
            DeviceCommand::Features { serial } => Some(serial@),
        },
        TopLevelCommand::Exec(args) => Some(args.serial@),
        TopLevelCommand::Shell(args) => Some(args.serial@),
        TopLevelCommand::Sync(args) => match args.command {
            SyncCommand::Push { serial, .. } => Some(serial@),
            SyncCommand::Pull { serial, .. } => Some(serial@),
            SyncCommand::Status { serial, .. } => Some(serial@),
        },
        TopLevelCommand::Daemon(args) => match args.command {
            DaemonCommand::Stage { serial, .. } => Some(serial@),
        },
        TopLevelCommand::App(args) => match args.command {
            AppCommand::Install { serial, .. } => Some(serial@),
            AppCommand::Start { serial, .. } => Some(serial@),
            AppCommand::Stop { serial, .. } => Some(serial@),
            AppCommand::Restart { serial, .. } => Some(serial@),
            AppCommand::Rollback { serial, .. } => Some(serial@),
            AppCommand::Uninstall { serial, .. } => Some(serial@),
            AppCommand::Log { serial, .. } => Some(serial@),
            AppCommand::List { serial } => Some(serial@),
        },
        TopLevelCommand::Process(args) => match args.command {
            ProcessCommand::List { serial } => Some(serial@),
            ProcessCommand::Signal { serial, .. } => Some(serial@),
        },
        TopLevelCommand::Log(args) => match args.command {
            LogCommand::Tail { serial, .. } => Some(serial@),
        },
        TopLevelCommand::Run(args) => Some(args.serial@),
    }
}

/// Whether all that was sent is about this device, or about none.
pub open spec fn all_about(
    before: Seq<Exchange>,
    after: Seq<Exchange>,
    device: Option<Seq<char>>,
) -> bool {
    &&& before.is_prefix_of(after)
    &&& forall|i: int|
        before.len() <= i < after.len() ==> device_of((#[trigger] after[i]).call) == device
}

proof fn pushed_trees_ask_one_device(
    before: Seq<Exchange>,
    after: Seq<Exchange>,
    serial: Seq<char>,
    directories: Seq<Seq<char>>,
    files: Seq<sync::PathPair>,
    block_size: u32,
    count: nat,
    totals: Result<TreeTotalsView, CliErrorView>,
)
    requires
        sync::tree_pushed(
            before,
            after,
            sync::push_tree_calls(serial, directories, files, block_size),
            count,
            totals,
        ),
    ensures
        all_about(before, after, Some(serial)),
{
    let calls = sync::push_tree_calls(serial, directories, files, block_size);
    let replies = choose|replies: Seq<Result<RpcReplyView, ClientErrorView>>| #[trigger]
        sync::pushed_with(before, after, calls, count, replies, totals);
    assert forall|i: int| before.len() <= i < after.len() implies device_of(
        (#[trigger] after[i]).call,
    ) == Some(serial) by {
        let k = i - before.len();
        assert(after[i] == sync::exchanges_of(calls, replies)[k]);
        assert(after[i].call == calls[k]);
    }
}

/// Every request of a command is about the device that the user named, and about no other.
pub proof fn commands_ask_the_named_device(
    before: Seq<Exchange>,
    after: Seq<Exchange>,
    command: TopLevelCommand,
    host: HostFacts,
    json: bool,
    result: Result<Executed, CliError>,
)
    requires
        executed(before, after, command, host, json, result),
        facts_fit(command, host),
    ensures
        all_about(before, after, named_device(command)),
{
    if let TopLevelCommand::Sync(args) = command {
        if let SyncCommand::Push { serial, remote_path, block_size, resume, .. } = args.command {
            let local = host->Source_local;
            let source = host->source;
            if sync::push_refusal(
                block_size as nat,
                local,
                remote_path@,
                source,
                text::optional(resume),
            ) is None {
                if let LocalSource::Directory(Ok(tree)) = source {
                    let root = logical_path::normalized(remote_path@)->Ok_0;
                    let all = text::all(tree.directories@) + local_tree::relatives(tree.files@);
                    if local_tree::device_paths(root, all) is Ok {
                        let paths = local_tree::device_paths(root, all)->Ok_0;
                        let count = tree.directories@.len() + 1;
                        let outcome = command::as_transfer(result)->Some_0;
                        assert(sync::directory_pushed(
                            before,
                            after,
                            serial@,
                            local->Absolute_0@,
                            root,
                            block_size as u32,
                            tree,
                            outcome,
                        ));
                        let totals = choose|totals: Result<TreeTotalsView, CliErrorView>| #[trigger]
                            sync::tree_pushed(
                                before,
                                after,
                                sync::push_tree_calls(
                                    serial@,
                                    paths.take(count as int),
                                    sync::pairs_for(tree, paths),
                                    block_size as u32,
                                ),
                                count as nat,
                                totals,
                            );
                        pushed_trees_ask_one_device(
                            before,
                            after,
                            serial@,
                            paths.take(count as int),
                            sync::pairs_for(tree, paths),
                            block_size as u32,
                            count as nat,
                            totals,
                        );
                    }
                }
            }
        }
    }
}

/// With JSON output a command that asks once shows the answer of the server as it is.
pub proof fn json_output_is_the_answer(
    before: Seq<Exchange>,
    after: Seq<Exchange>,
    command: TopLevelCommand,
    host: HostFacts,
    shown: String,
)
    requires
        executed(before, after, command, host, true, Ok(Executed::Text(shown))),
    ensures
        after.len() == before.len() + 1,
        before.is_prefix_of(after),
        after.last().reply matches Ok(answer) && shown@ == answer.pretty,
{
}

/// A command whose request fails, fails with just that failure; one that is refused before
/// it asks sends nothing.
pub proof fn failed_requests_fail_the_command(
    before: Seq<Exchange>,
    after: Seq<Exchange>,
    command: TopLevelCommand,
    host: HostFacts,
    json: bool,
    result: Result<Executed, CliError>,
)
    requires
        executed(before, after, command, host, json, result),
        !(command is Sync),
        !(command is Daemon),
        !(command is Run),
    ensures
        after == before ==> result is Err,
        after != before ==> after.len() == before.len() + 1 && (after.last().reply matches Err(
            failure,
        ) ==> (result matches Err(error) && error@ == CliErrorView::Rpc(failure))),
        result matches Err(error) ==> (error@ matches CliErrorView::Rpc(failure) ==> after.len()
            == before.len() + 1 && after.last().reply == Err::<RpcReplyView, _>(failure)),
{
}

/// What the user says is what is asked for: the one request of a command carries its
/// arguments as they were given, to the method that is named after the command.
pub proof fn requests_carry_the_arguments(
    before: Seq<Exchange>,
    after: Seq<Exchange>,
    command: TopLevelCommand,
    host: HostFacts,
    json: bool,
    result: Result<Executed, CliError>,
)
    requires
        executed(before, after, command, host, json, result),
        facts_fit(command, host),
        after != before,
    ensures
        ({
            let call = after.last().call;
            match command {
                TopLevelCommand::Exec(args) => call matches RpcCallView::ExecRun(params)
                    && params.argv == text::all(args.argv@) && params.timeout_ms == args.timeout_ms
                    && params.cwd is None && params.environment.len() == 0,
                TopLevelCommand::Process(args) => match args.command {
                    ProcessCommand::List { serial } => call is ProcessList,
                    ProcessCommand::Signal { serial, pid, signal } => call
                        == RpcCallView::ProcessSignal(
                        ProcessSignalParamsView { serial: serial@, pid, signal: signal@ },
                    ),
                },
                TopLevelCommand::Log(args) => match args.command {
                    LogCommand::Tail { serial, cursor, limit } => call == RpcCallView::LogTail(
                        LogTailParamsView { serial: serial@, cursor, limit: Some(limit) },
                    ),
                },
                TopLevelCommand::Device(args) => match args.command {
                    DeviceCommand::List => call is DeviceList,
                    DeviceCommand::Ping { .. } => call is DevicePing,
                    DeviceCommand::Features { .. } => call is DeviceFeatures,
                },
                TopLevelCommand::App(args) => match args.command {
                    AppCommand::Install { serial, .. } => call == RpcCallView::AppInstall(
                        AppInstallParamsView {
                            serial: serial@,
                            bundle_path: host->Path_0->Absolute_0@,
                        },
                    ),
                    AppCommand::Start { serial, app_id } => call == RpcCallView::AppStart(
                        AppTargetParamsView { serial: serial@, app_id: app_id@ },
                    ),
                    AppCommand::Stop { serial, app_id } => call == RpcCallView::AppStop(
                        AppTargetParamsView { serial: serial@, app_id: app_id@ },
                    ),
                    AppCommand::Restart { serial, app_id } => call == RpcCallView::AppRestart(
                        AppTargetParamsView { serial: serial@, app_id: app_id@ },
                    ),
                    AppCommand::Rollback { serial, app_id } => call == RpcCallView::AppRollback(
                        AppTargetParamsView { serial: serial@, app_id: app_id@ },
                    ),
                    AppCommand::Uninstall { serial, app_id } => call == RpcCallView::AppUninstall(
                        AppTargetParamsView { serial: serial@, app_id: app_id@ },
                    ),
                    AppCommand::Log { app_id, max_bytes, .. } => call matches RpcCallView::AppLog(
                        params,
                    ) && params.app_id == app_id@ && params.max_bytes == Some(max_bytes)
                        && params.run_id is None && params.stdout_cursor == 0
                        && params.stderr_cursor == 0,
                    AppCommand::List { .. } => call is AppList,
                },
                _ => true,
            }
        }),
{
}

/// A file is pushed as the user says: from the host path that is meant, to the device path
/// that is meant, as a continuation exactly if one is asked for; and the user is told what
/// the device said of it.
pub proof fn pushed_files_are_those_named(
    before: Seq<Exchange>,
    after: Seq<Exchange>,
    serial: Seq<char>,
    local: HostPath,
    remote: Seq<char>,
    block_size: nat,
    resume: Option<Seq<char>>,
    summary: TransferSummaryView,
)
    requires
        sync::pushed(
            before,
            after,
            serial,
            local,
            remote,
            block_size,
            resume,
            LocalSource::File,
            false,
            Ok(TransferredView::File(summary)),
        ),
    ensures
        after.len() == before.len() + 1,
        before.is_prefix_of(after),
        after.last().call matches RpcCallView::SyncPush(params) && params.serial == serial
            && params.local_path == local->Absolute_0@ && logical_path::normalized(remote) == Ok::<
            _,
            Seq<char>,
        >(params.remote_path) && params.transfer_id == resume && params.block_size == block_size,
        after.last().reply matches Ok(answer) && answer.result matches CallResultView::SyncPush(
            result,
        ) && summary.bytes == result.accepted_offset && summary.transfer_id == result.transfer_id,
        summary.direction == TransferDirection::Push,
        summary.path == after.last().call->SyncPush_0.remote_path,
        summary.resumed == resume is Some,
{
}

/// A file is pulled as the user says: from the device path that is meant, to the host path
/// that is meant and is free, as a continuation exactly if one is asked for; and the user is
/// told what the device said of it.
pub proof fn pulled_files_are_those_named(
    before: Seq<Exchange>,
    after: Seq<Exchange>,
    serial: Seq<char>,
    local: HostPath,
    remote: Seq<char>,
    block_size: u32,
    resume: Option<Seq<char>>,
    destination: sync::Destination,
    summary: TransferSummaryView,
)
    requires
        sync::pulled(
            before,
            after,
            serial,
            local,
            remote,
            block_size,
            resume,
            destination,
            false,
            Ok(TransferredView::File(summary)),
        ),
    ensures
        destination != sync::Destination::Exists,
        after.len() == before.len() + 1,
        before.is_prefix_of(after),
        after.last().call matches RpcCallView::SyncPull(params) && params.serial == serial
            && params.local_path == local->Absolute_0@ && logical_path::normalized(remote) == Ok::<
            _,
            Seq<char>,
        >(params.remote_path) && params.transfer_id == resume && params.block_size == block_size,
        after.last().reply matches Ok(answer) && answer.result matches CallResultView::SyncPull(
            result,
        ) && summary.bytes == result.received_size && summary.transfer_id == result.transfer_id,
        summary.direction == TransferDirection::Pull,
        summary.path == local->Absolute_0@,
        summary.resumed == resume is Some,
{
}

/// The exit code of the tool is that of the process which it ran, and what is shown begins
/// with what the process printed.
pub proof fn exec_ends_as_its_process(
    json: bool,
    reply: RpcReplyView,
    shown: Seq<char>,
    exit_code: i32,
)
    requires
        execute::exec_shown(json, reply) == Ok::<_, CliErrorView>((shown, exit_code)),
    ensures
        reply.result matches CallResultView::Exec(process) && exit_code == process.exit_code && (
        json ==> shown == reply.pretty) && (!json && exit_code != 0 ==> (process.stdout
            + process.stderr).is_prefix_of(shown)),
{
    if let CallResultView::Exec(process) = reply.result {
        crate::cli::output::process_output_is_shown(process);
    }
}

/// What the server makes of a request that arrives under the name of its method.
pub open spec fn routed(server: ServerStateView, call: RpcCallView, params: ParamsView) -> Route {
    host_rpc::route(server, methods::name_of(rpc::method_of(call)), params)
}

/// The server does what the tool asks for: every request reaches the devices as the
/// operation that it is, with its own parameters and with what the host found at its
/// path.
pub proof fn requests_are_served_as_asked(
    server: ServerStateView,
    call: RpcCallView,
    file: HostFileView,
    bundle: HostBundleView,
    absolute: bool,
)
    ensures
        call is ServerPing ==> routed(server, call, ParamsView::Absent) == Route::Direct(
            ReplyView::Pong,
        ),
        call is ServerStatus ==> routed(server, call, ParamsView::Absent) == Route::Direct(
            ReplyView::Running(server.pid),
        ),
        call is ServerStop ==> routed(server, call, ParamsView::Absent) == Route::Stop,
        call is DeviceList ==> routed(server, call, ParamsView::Absent) == Route::One(
            DeviceOperationView::List,
        ),
        call matches RpcCallView::DevicePing(params) ==> params.serial.len() > 0 ==> routed(
            server,
            call,
            ParamsView::Serial(params),
        ) == Route::One(DeviceOperationView::Ping(params.serial)),
        call matches RpcCallView::DeviceFeatures(params) ==> params.serial.len() > 0 ==> routed(
            server,
            call,
            ParamsView::Serial(params),
        ) == Route::One(DeviceOperationView::Features(params.serial)),
        call matches RpcCallView::ExecRun(params) ==> params.serial.len() > 0 && params.argv.len()
            > 0 && params.timeout_ms > 0 ==> routed(server, call, ParamsView::Exec(params))
            == Route::Run(params),
        call matches RpcCallView::SyncPush(params) ==> routed(server, call, ParamsView::SyncPush(params, file)) == Route::One(
            DeviceOperationView::SyncPush(params, file),
        ),
        call matches RpcCallView::SyncPull(params) ==> routed(server, call, ParamsView::SyncPull(params, absolute)) == Route::One(
            DeviceOperationView::SyncPull(params, absolute),
        ),
        call matches RpcCallView::SyncStatus(params) ==> routed(server, call, ParamsView::SyncStatus(params)) == Route::One(
            DeviceOperationView::SyncStatus(params),
        ),
        call matches RpcCallView::SyncList(params) ==> routed(server, call, ParamsView::SyncList(params)) == Route::One(
            DeviceOperationView::SyncList(params),
        ),
        call matches RpcCallView::SyncMkdir(params) ==> routed(server, call, ParamsView::SyncMkdir(params)) == Route::One(
            DeviceOperationView::SyncMkdir(params),
        ),
        call matches RpcCallView::AppInstall(params) ==> routed(server, call, ParamsView::AppInstall(params, bundle)) == Route::One(
            DeviceOperationView::AppInstall(params, bundle),
        ),
        call matches RpcCallView::AppStart(params) ==> routed(server, call, ParamsView::AppTarget(params)) == Route::One(
            DeviceOperationView::AppStart(params),
        ),
        call matches RpcCallView::AppStop(params) ==> routed(server, call, ParamsView::AppTarget(params)) == Route::One(
            DeviceOperationView::AppStop(params),
        ),
        call matches RpcCallView::AppRestart(params) ==> routed(server, call, ParamsView::AppTarget(params)) == Route::One(
            DeviceOperationView::AppRestart(params),
        ),
        call matches RpcCallView::AppRollback(params) ==> routed(server, call, ParamsView::AppTarget(params)) == Route::One(
            DeviceOperationView::AppRollback(params),
        ),
        call matches RpcCallView::AppUninstall(params) ==> routed(server, call, ParamsView::AppTarget(params)) == Route::One(
            DeviceOperationView::AppUninstall(params),
        ),
        call matches RpcCallView::AppList(params) ==> routed(server, call, ParamsView::Serial(params)) == Route::One(
            DeviceOperationView::AppList(params),
        ),
        call matches RpcCallView::AppLog(params) ==> routed(server, call, ParamsView::AppLog(params)) == Route::One(
            DeviceOperationView::AppLog(params),
        ),
        call matches RpcCallView::ProcessList(params) ==> routed(server, call, ParamsView::Serial(params)) == Route::One(
            DeviceOperationView::ProcessList(params),
        ),
        call matches RpcCallView::ProcessSignal(params) ==> routed(server, call, ParamsView::ProcessSignal(params)) == Route::One(
            DeviceOperationView::ProcessSignal(params),
        ),
        call matches RpcCallView::LogTail(params) ==> routed(server, call, ParamsView::LogTail(params)) == Route::One(
            DeviceOperationView::LogTail(params),
        ),
{
    methods::names_are_distinct(rpc::method_of(call));
}

} // verus!
