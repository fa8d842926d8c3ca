//! Running any command.

use crate::cli::app;
use crate::cli::app::execute_app;
use crate::cli::args::{DaemonCommand, SyncCommand, TopLevelCommand};
use crate::cli::daemon;
use crate::cli::daemon::{execute_daemon, StageReport, StageReportView};
use crate::cli::development;
use crate::cli::development::{
    run_project_once, BuildOutcome, BuiltBundle, ProjectPlan, RunReport, RunReportView,
};
use crate::cli::directory_pull::{DirectoryPull, PullSettings};
use crate::cli::error;
use crate::cli::error::{CliError, CliErrorView};
use crate::cli::execute;
use crate::cli::execute::{
    execute_device, execute_exec, execute_log, execute_process, execute_server, execute_sync_status,
    one_call,
};
use crate::cli::host_path::HostPath;
use crate::cli::rpc::{ClientErrorView, Exchange, RpcCallView, RpcCaller, RpcReplyView};
use crate::cli::sync;
use crate::cli::sync::{
    execute_pull, execute_push, Destination, LocalSource, Transferred, TransferredView,
};
use crate::logical_path;
use crate::model::SyncStatusParamsView;
use crate::text;
use vstd::pervasive::unreached;
use vstd::prelude::*;

verus! {

/// What a command needs to know of the host.
pub enum HostFacts {
    Nothing,
    /// The host path of a command as the user means it.
    Path(HostPath),
    /// The source of a push.
    Source { local: HostPath, source: LocalSource },
    /// The destination of a pull, and the separator of host paths.
    Target { local: HostPath, destination: Destination, separator: char },
    /// The digest and the size of a daemon binary.
    Binary(Result<(String, u64), CliError>),
    /// A project, how its build ended, and its bundle.
    Project {
        plan: Result<ProjectPlan, CliError>,
        build: BuildOutcome,
        bundle: Result<BuiltBundle, String>,
    },
}

/// Whether the facts are those that a command needs.
pub open spec fn facts_fit(command: TopLevelCommand, host: HostFacts) -> bool {
    match command {
        TopLevelCommand::Sync(args) => match args.command {
            SyncCommand::Push { .. } => host is Source,
            SyncCommand::Pull { .. } => host is Target,
            SyncCommand::Status { .. } => true,
        },
        TopLevelCommand::Daemon(_) => host is Binary,
        TopLevelCommand::App(args) => args.command is Install ==> host is Path,
        TopLevelCommand::Run(_) => host is Project,
        _ => true,
    }
}

/// What a command came to.
pub enum Executed {
    /// Text to be printed.
    Text(String),
    /// A finished transfer.
    Transferred(Transferred),
    /// A directory pull that goes on step by step, once its destination is made.
    Pulling(DirectoryPull),
    /// A staged update.
    Staged(StageReport),
    /// A project that runs.
    Ran(RunReport),
}

/// The outcome as text.
pub open spec fn as_text(result: Result<Executed, CliError>) -> Option<
    Result<Seq<char>, CliErrorView>,
> {
    match result {
        Ok(Executed::Text(text)) => Some(Ok(text@)),
        Err(error) => Some(Err(error@)),
        _ => None,
    }
}

/// The outcome as text with an exit code.
pub open spec fn as_status(result: Result<(Executed, i32), CliError>) -> Option<
    Result<(Seq<char>, i32), CliErrorView>,
> {
    match result {
        Ok((Executed::Text(text), exit_code)) => Some(Ok((text@, exit_code))),
        Err(error) => Some(Err(error@)),
        _ => None,
    }
}

/// The outcome as that of a transfer.
pub open spec fn as_transfer(result: Result<Executed, CliError>) -> Option<
    Result<TransferredView, CliErrorView>,
> {
    match result {
        Ok(Executed::Transferred(transferred)) => Some(Ok(transferred@)),
        Err(error) => Some(Err(error@)),
        _ => None,
    }
}

/// The outcome as that of an update.
pub open spec fn as_update(result: Result<Executed, CliError>) -> Option<
    Result<StageReportView, CliErrorView>,
> {
    match result {
        Ok(Executed::Staged(report)) => Some(Ok(report@)),
        Err(error) => Some(Err(error@)),
        _ => None,
    }
}

/// The outcome as that of a project run.
pub open spec fn as_run(result: Result<Executed, CliError>) -> Option<
    Result<RunReportView, CliErrorView>,
> {
    match result {
        Ok(Executed::Ran(report)) => Some(Ok(report@)),
        Err(error) => Some(Err(error@)),
        _ => None,
    }
}

/// Whether a command failed with this error and sent nothing.
pub open spec fn refused(
    before: Seq<Exchange>,
    after: Seq<Exchange>,
    error: CliErrorView,
    result: Result<Executed, CliError>,
) -> bool {
    after == before && (result matches Err(e) && e@ == error)
}

/// What running a process shows.
pub open spec fn exec_text_shown(json: bool, reply: RpcReplyView) -> Result<
    Seq<char>,
    CliErrorView,
> {
    match execute::exec_shown(json, reply) {
        Ok((text, _)) => Ok(text),
        Err(error) => Err(error),
    }
}

/// Whether a sync command ended so.
pub open spec fn sync_executed(
    before: Seq<Exchange>,
    after: Seq<Exchange>,
    command: SyncCommand,
    host: HostFacts,
    json: bool,
    result: Result<Executed, CliError>,
) -> bool {
    match command {
        SyncCommand::Push { serial, local_path: _, remote_path, block_size, resume } => as_transfer(
            result,
        ) matches Some(outcome) && sync::pushed(
            before,
            after,
            serial@,
            host->Source_local,
            remote_path@,
            block_size as nat,
            text::optional(resume),
            host->source,
            json,
            outcome,
        ),
        SyncCommand::Pull {
            serial,
            remote_path,
            local_path: _,
            block_size,
            resume,
            recursive,
        } => if recursive {
            match sync::pull_tree_refusal(
                block_size,
                host->Target_local,
                remote_path@,
                host->destination,
            ) {
                Some(refusal) => refused(before, after, refusal, result),
                None => {
                    &&& after == before
                    &&& result matches Ok(Executed::Pulling(pull))
                    &&& pull.begins(
                        PullSettings {
                            serial: serial@,
                            remote_root: logical_path::normalized(remote_path@)->Ok_0,
                            local_root: host->Target_local->Absolute_0@,
                            separator: host->separator,
                            block_size,
                        },
                    )
                },
            }
        } else {
            as_transfer(result) matches Some(outcome) && sync::pulled(
                before,
                after,
                serial@,
                host->Target_local,
                remote_path@,
                block_size,
                text::optional(resume),
                host->destination,
                json,
                outcome,
            )
        },
        SyncCommand::Status { serial, transfer_id } => as_text(result) matches Some(outcome)
            && one_call(
            before,
            after,
            RpcCallView::SyncStatus(
                SyncStatusParamsView { serial: serial@, transfer_id: transfer_id@ },
            ),
            |reply: RpcReplyView| execute::status_shown(json, reply),
            outcome,
        ),
    }
}

/// Whether a command ended so.
pub open spec fn executed(
    before: Seq<Exchange>,
    after: Seq<Exchange>,
    command: TopLevelCommand,
    host: HostFacts,
    json: bool,
    result: Result<Executed, CliError>,
) -> bool {
    match command {
        TopLevelCommand::Server(args) => as_text(result) matches Some(outcome) && one_call(
            before,
            after,
            execute::server_call(args.command),
            |reply: RpcReplyView| execute::server_shown(args.command, json, reply),
            outcome,
        ),
        TopLevelCommand::Device(args) => as_text(result) matches Some(outcome) && one_call(
            before,
            after,
            execute::device_call(args.command),
            |reply: RpcReplyView| execute::device_shown(args.command, json, reply),
            outcome,
        ),
        TopLevelCommand::Exec(args) => as_text(result) matches Some(outcome) && one_call(
            before,
            after,
            execute::exec_call(args.serial@, text::all(args.argv@), args.timeout_ms),
            |reply: RpcReplyView| exec_text_shown(json, reply),
            outcome,
        ),
        TopLevelCommand::Shell(_) => refused(
            before,
            after,
            CliErrorView::StreamingShellRequired,
            result,
        ),
        TopLevelCommand::Sync(args) => sync_executed(
            before,
            after,
            args.command,
            host,
            json,
            result,
        ),
        TopLevelCommand::Daemon(args) => match (args.command, host->Binary_0) {
            (DaemonCommand::Stage { .. }, Err(error)) => refused(before, after, error@, result),
            (DaemonCommand::Stage { serial, device_binary }, Ok((digest, size))) => as_update(
                result,
            ) matches Some(outcome) && daemon::staged(
                before,
                after,
                serial@,
                device_binary@,
                digest@,
                size,
                outcome,
            ),
        },
        TopLevelCommand::App(args) => match app::app_refusal(args.command, host->Path_0) {
            Some(refusal) => refused(before, after, refusal, result),
            None => as_text(result) matches Some(outcome) && one_call(
                before,
                after,
                app::app_call(args.command, host->Path_0),
                |reply: RpcReplyView| app::app_shown(args.command, json, reply),
                outcome,
            ),
        },
        TopLevelCommand::Process(args) => as_text(result) matches Some(outcome) && one_call(
            before,
            after,
            execute::process_call(args.command),
            |reply: RpcReplyView| execute::process_shown(args.command, json, reply),
            outcome,
        ),
        TopLevelCommand::Log(args) => as_text(result) matches Some(outcome) && one_call(
            before,
            after,
            execute::log_call(args.command),
            |reply: RpcReplyView| execute::log_shown(json, reply),
            outcome,
        ),
        TopLevelCommand::Run(args) => match host->plan {
            Err(error) => refused(before, after, error@, result),
            Ok(plan) => as_run(result) matches Some(outcome) && development::project_ran(
                before,
                after,
                args.serial@,
                development::program_of(text::all(plan.build@)),
                host->build,
                host->bundle,
                outcome,
            ),
        },
    }
}

fn text_of(result: Result<String, CliError>) -> (outcome: Result<Executed, CliError>)
    ensures
        as_text(outcome) == Some(error::outcome(result)),
{
    match result {
        Ok(text) => Ok(Executed::Text(text)),
        Err(error) => Err(error),
    }
}

fn transfer_of(result: Result<Transferred, CliError>) -> (outcome: Result<Executed, CliError>)
    ensures
        as_transfer(outcome) == Some(error::outcome(result)),
{
    match result {
        Ok(transferred) => Ok(Executed::Transferred(transferred)),
        Err(error) => Err(error),
    }
}

fn execute_sync<C: RpcCaller>(
    caller: &mut C,
    command: &SyncCommand,
    host: HostFacts,
    json_output: bool,
) -> (result: Result<Executed, CliError>)
    requires
        match *command {
            SyncCommand::Push { .. } => host is Source,
            SyncCommand::Pull { .. } => host is Target,
            SyncCommand::Status { .. } => true,
        },
    ensures
        sync_executed(
            old(caller).exchanges(),
            final(caller).exchanges(),
            *command,
            host,
            json_output,
            result,
        ),
{
    match command {
        SyncCommand::Push { serial, local_path: _, remote_path, block_size, resume } => match host {
            HostFacts::Source { local, source } => transfer_of(
                execute_push(
                    caller,
                    serial,
                    local,
                    remote_path.as_str(),
                    *block_size,
                    resume,
                    source,
                    json_output,
                ),
            ),
            _ => unreached(),
        },
        SyncCommand::Pull {
            serial,
            remote_path,
            local_path: _,
            block_size,
            resume,
            recursive,
        } => {
            match host {
                HostFacts::Target { local, destination, separator } => {
                    if *recursive {
                        let begun = DirectoryPull::begin(
                            serial.as_str(),
                            remote_path.as_str(),
                            local,
                            *block_size,
                            destination,
                            separator,
                        );
                        match begun {
                            Ok(pull) => Ok(Executed::Pulling(pull)),
                            Err(error) => Err(error),
                        }
                    } else {
                        transfer_of(
                            execute_pull(
                                caller,
                                serial,
                                remote_path.as_str(),
                                local,
                                *block_size,
                                resume,
                                destination,
                                json_output,
                            ),
                        )
                    }
                },
                _ => unreached(),
            }
        },
        SyncCommand::Status { serial, transfer_id } => text_of(
            execute_sync_status(caller, serial, transfer_id, json_output),
        ),
    }
}

/// Runs a command. What it needs to know of the host comes with it.
pub fn execute<C: RpcCaller>(
    caller: &mut C,
    command: &TopLevelCommand,
    host: HostFacts,
    json_output: bool,
) -> (result: Result<Executed, CliError>)
    requires
        facts_fit(*command, host),
    ensures
        executed(
            old(caller).exchanges(),
            final(caller).exchanges(),
            *command,
            host,
            json_output,
            result,
        ),
{
    match command {
        TopLevelCommand::Server(args) => text_of(execute_server(caller, args.command, json_output)),
        TopLevelCommand::Device(args) => text_of(execute_device(caller, &args.command, json_output)),
        TopLevelCommand::Exec(args) => {
            let ghost before = caller.exchanges();
            let ran = execute_exec(
                caller,
                &args.serial,
                &args.argv,
                args.timeout_ms,
                json_output,
            );
            let ghost outcome = error::outcome(ran);
            let result = match ran {
                Ok(ran) => Ok(Executed::Text(ran.output)),
                Err(error) => Err(error),
            };
            proof {
                let call = execute::exec_call(args.serial@, text::all(args.argv@), args.timeout_ms);
                let reply = choose|reply: Result<RpcReplyView, ClientErrorView>| #[trigger]
                    execute::asked(before, caller.exchanges(), call, reply) && outcome == (
                    match reply {
                        Ok(answer) => execute::exec_shown(json_output, answer),
                        Err(error) => Err(CliErrorView::Rpc(error)),
                    });
                assert(execute::asked(before, caller.exchanges(), call, reply));
            }
            result
        },
        TopLevelCommand::Shell(_) => Err(CliError::StreamingShellRequired),
        TopLevelCommand::Sync(args) => execute_sync(caller, &args.command, host, json_output),
        TopLevelCommand::Daemon(args) => match &args.command {
            DaemonCommand::Stage { serial, device_binary } => match host {
                HostFacts::Binary(Ok((digest, size))) => {
                    let staged = execute_daemon(caller, serial, device_binary, &digest, size);
                    match staged {
                        Ok(report) => Ok(Executed::Staged(report)),
                        Err(error) => Err(error),
                    }
                },
                HostFacts::Binary(Err(error)) => Err(error),
                _ => unreached(),
            },
        },
        TopLevelCommand::App(args) => match host {
            HostFacts::Path(bundle) => text_of(
                execute_app(caller, &args.command, bundle, json_output),
            ),
            _ => text_of(
                execute_app(
                    caller,
                    &args.command,
                    HostPath::Unresolved(String::new()),
                    json_output,
                ),
            ),
        },
        TopLevelCommand::Process(args) => text_of(
            execute_process(caller, &args.command, json_output),
        ),
        TopLevelCommand::Log(args) => text_of(execute_log(caller, &args.command, json_output)),
        TopLevelCommand::Run(args) => match host {
            HostFacts::Project { plan, build, bundle } => {
                let plan = plan?;
                let ran = run_project_once(caller, args, &plan, build, bundle);
                match ran {
                    Ok(report) => Ok(Executed::Ran(report)),
                    Err(error) => Err(error),
                }
            },
            _ => unreached(),
        },
    }
}

/// Runs a command that ends with an exit code: that of the process which it ran,
/// or else 0.
pub fn execute_with_status<C: RpcCaller>(
    caller: &mut C,
    command: &TopLevelCommand,
    host: HostFacts,
    json_output: bool,
) -> (result: Result<(Executed, i32), CliError>)
    requires
        facts_fit(*command, host),
    ensures
        match *command {
            TopLevelCommand::Exec(args) => as_status(result) matches Some(outcome) && one_call(
                old(caller).exchanges(),
                final(caller).exchanges(),
                execute::exec_call(args.serial@, text::all(args.argv@), args.timeout_ms),
                |reply: RpcReplyView| execute::exec_shown(json_output, reply),
                outcome,
            ),
            _ => executed(
                old(caller).exchanges(),
                final(caller).exchanges(),
                *command,
                host,
                json_output,
                match result {
                    Ok((output, _)) => Ok(output),
                    Err(error) => Err(error),
                },
            ) && (result matches Ok((_, exit_code)) ==> exit_code == 0),
        },
{
    match command {
        TopLevelCommand::Exec(args) => {
            let ran = execute_exec(
                caller,
                &args.serial,
                &args.argv,
                args.timeout_ms,
                json_output,
            );
            match ran {
                Ok(ran) => Ok((Executed::Text(ran.output), ran.exit_code)),
                Err(error) => Err(error),
            }
        },
        _ => match execute(caller, command, host, json_output) {
            Ok(output) => Ok((output, 0)),
            Err(error) => Err(error),
        },
    }
}

} // verus!
