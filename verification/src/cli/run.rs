//! How the tool goes about a command line.

use crate::cli::args::{AppCommand, Cli, ServerCommand, TopLevelCommand};
use crate::cli::error::{RunError, RunErrorView};
use crate::cli::output::CommandOutput;
use crate::text;
use crate::text::{concat, trim};
use vstd::prelude::*;

verus! {

/// How the tool goes about a command.
#[derive(Clone, Copy, Debug, PartialEq, Eq, Structural)]
pub enum Route {
    /// A private server is started for the one command.
    PrivateServer,
    /// The shared server is asked, if it runs; afterwards the tool waits until it has
    /// stopped, where it was told to.
    RunningServer { stops: bool },
    /// A shell is opened.
    Shell,
    /// The output of an application is written as it is.
    AppLog { follow: bool },
    /// A project is built and deployed whenever its sources change.
    Watch,
    /// The shared server is asked, and started where it does not run.
    SharedServer,
}

/// How the tool goes about a command, or why it does not.
pub open spec fn route_of(json: bool, server_stdio: bool, command: TopLevelCommand) -> Result<
    Route,
    RunErrorView,
> {
    if server_stdio {
        match command {
            TopLevelCommand::Shell(_) => Err(
                RunErrorView::Arguments(
                    "--server-stdio does not support streaming shell; use the shared local server"@,
                ),
            ),
            TopLevelCommand::Run(args) => if args.watch {
                Err(
                    RunErrorView::Arguments(
                        "--server-stdio does not support run --watch; use the shared local server"@,
                    ),
                )
            } else {
                Ok(Route::PrivateServer)
            },
            _ => Ok(Route::PrivateServer),
        }
    } else {
        match command {
            TopLevelCommand::Server(args) => match args.command {
                ServerCommand::Status => Ok(Route::RunningServer { stops: false }),
                ServerCommand::Stop => Ok(Route::RunningServer { stops: true }),
                _ => Ok(Route::SharedServer),
            },
            TopLevelCommand::Shell(_) => Ok(Route::Shell),
            TopLevelCommand::App(args) => match args.command {
                AppCommand::Log { serial: _, app_id: _, follow, max_bytes: _ } => if json && follow {
                    Err(
                        RunErrorView::Arguments(
                            "app log --follow streams raw bytes and does not support --json"@,
                        ),
                    )
                } else if json {
                    Ok(Route::SharedServer)
                } else {
                    Ok(Route::AppLog { follow })
                },
                _ => Ok(Route::SharedServer),
            },
            TopLevelCommand::Run(args) => if args.watch {
                Ok(Route::Watch)
            } else {
                Ok(Route::SharedServer)
            },
            _ => Ok(Route::SharedServer),
        }
    }
}

/// Decides how the tool goes about a command line.
pub fn route(cli: &Cli) -> (result: Result<Route, RunError>)
    ensures
        match route_of(cli.json, cli.server_stdio, cli.command) {
            Ok(route) => result == Ok::<_, RunError>(route),
            Err(refusal) => result matches Err(error) && error@ == refusal,
        },
{
    if cli.server_stdio {
        return match &cli.command {
            TopLevelCommand::Shell(_) => Err(
                RunError::Arguments(
                    "--server-stdio does not support streaming shell; use the shared local server".to_owned(),
                ),
            ),
            TopLevelCommand::Run(args) => {
                if args.watch {
                    Err(
                        RunError::Arguments(
                            "--server-stdio does not support run --watch; use the shared local server".to_owned(),
                        ),
                    )
                } else {
                    Ok(Route::PrivateServer)
                }
            },
            _ => Ok(Route::PrivateServer),
        };
    }
    match &cli.command {
        TopLevelCommand::Server(args) => match args.command {
            ServerCommand::Status => Ok(Route::RunningServer { stops: false }),
            ServerCommand::Stop => Ok(Route::RunningServer { stops: true }),
            _ => Ok(Route::SharedServer),
        },
        TopLevelCommand::Shell(_) => Ok(Route::Shell),
        TopLevelCommand::App(args) => match &args.command {
            AppCommand::Log { follow, .. } => {
                if cli.json && *follow {
                    Err(
                        RunError::Arguments(
                            "app log --follow streams raw bytes and does not support --json".to_owned(),
                        ),
                    )
                } else if cli.json {
                    Ok(Route::SharedServer)
                } else {
                    Ok(Route::AppLog { follow: *follow })
                }
            },
            _ => Ok(Route::SharedServer),
        },
        TopLevelCommand::Run(args) => {
            if args.watch {
                Ok(Route::Watch)
            } else {
                Ok(Route::SharedServer)
            }
        },
        _ => Ok(Route::SharedServer),
    }
}

/// What the user is told of a server that does not run.
pub fn not_running() -> (output: CommandOutput)
    ensures
        output.output@ == "not running"@,
        output.exit_code == 0,
{
    CommandOutput { output: "not running".to_owned(), exit_code: 0 }
}

/// Whether the server looks for USB devices.
pub open spec fn automatic_usb(cli: Cli) -> bool {
    !cli.no_usb && cli.devices_file is None && cli.tcp_device@.len() == 0
}

/// The arguments that name the device inventory.
pub open spec fn file_arguments(path: Option<Seq<char>>) -> Seq<Seq<char>> {
    match path {
        Some(path) => seq!["--devices-file"@, path],
        None => Seq::empty(),
    }
}

/// The arguments that name one device each.
pub open spec fn device_flags(addresses: Seq<Seq<char>>) -> Seq<Seq<char>>
    decreases addresses.len(),
{
    if addresses.len() == 0 {
        Seq::empty()
    } else {
        device_flags(addresses.drop_last()) + seq!["--tcp-device"@, addresses.last()]
    }
}

/// The arguments of the server that say where the devices are.
pub open spec fn device_arguments(cli: Cli) -> Seq<Seq<char>> {
    let file = file_arguments(text::optional(cli.devices_file));
    let usb = if automatic_usb(cli) {
        match cli.usb_serial {
            Some(serial) => seq!["--usb"@, "--usb-serial"@, serial@],
            None => seq!["--usb"@],
        }
    } else {
        Seq::empty()
    };
    file + device_flags(text::all(cli.tcp_device@)) + usb
}

/// The arguments of the server that say where the devices are. A USB serial number
/// makes sense only where USB devices are looked for.
pub fn append_device_arguments(cli: &Cli) -> (result: Result<Vec<String>, RunError>)
    ensures
        if cli.usb_serial is Some && !automatic_usb(*cli) {
            result matches Err(error) && error@ == RunErrorView::Arguments(
                "--usb-serial requires automatic USB mode (remove --no-usb/--tcp-device)"@,
            )
        } else {
            result matches Ok(arguments) && text::all(arguments@) == device_arguments(*cli)
        },
{
    let mut arguments: Vec<String> = Vec::new();
    if let Some(path) = &cli.devices_file {
        arguments.push("--devices-file".to_owned());
        arguments.push(path.clone());
    }
    let ghost file = file_arguments(text::optional(cli.devices_file));
    let ghost addresses = text::all(cli.tcp_device@);
    assert(addresses.take(0) =~= Seq::<Seq<char>>::empty());
    assert(text::all(arguments@) =~= file + device_flags(addresses.take(0)));
    let mut i: usize = 0;
    while i < cli.tcp_device.len()
        invariant
            i <= cli.tcp_device@.len(),
            addresses == text::all(cli.tcp_device@),
            text::all(arguments@) == file + device_flags(addresses.take(i as int)),
        decreases cli.tcp_device@.len() - i,
    {
        let ghost before = text::all(arguments@);
        arguments.push("--tcp-device".to_owned());
        arguments.push(cli.tcp_device[i].clone());
        assert(addresses.take(i + 1).drop_last() =~= addresses.take(i as int));
        assert(text::all(arguments@) =~= before + seq!["--tcp-device"@, addresses[i as int]]);
        assert(text::all(arguments@) =~= file + device_flags(addresses.take(i + 1)));
        i += 1;
    }
    assert(addresses.take(i as int) =~= addresses);
    let ghost before = text::all(arguments@);
    let automatic = !cli.no_usb && cli.devices_file.is_none() && cli.tcp_device.len() == 0;
    if automatic {
        arguments.push("--usb".to_owned());
        if let Some(serial) = &cli.usb_serial {
            arguments.push("--usb-serial".to_owned());
            arguments.push(serial.clone());
        }
    } else if cli.usb_serial.is_some() {
        return Err(
            RunError::Arguments(
                "--usb-serial requires automatic USB mode (remove --no-usb/--tcp-device)".to_owned(),
            ),
        );
    }
    assert(text::all(arguments@) =~= device_arguments(*cli));
    Ok(arguments)
}

/// The arguments of a private server.
pub fn private_server_arguments(cli: &Cli) -> (result: Result<Vec<String>, RunError>)
    ensures
        if cli.usb_serial is Some && !automatic_usb(*cli) {
            result matches Err(error) && error@ == RunErrorView::Arguments(
                "--usb-serial requires automatic USB mode (remove --no-usb/--tcp-device)"@,
            )
        } else {
            result matches Ok(arguments) && text::all(arguments@) == device_arguments(*cli).push(
                "--stdio"@,
            )
        },
{
    let mut arguments = append_device_arguments(cli)?;
    let ghost before = text::all(arguments@);
    arguments.push("--stdio".to_owned());
    assert(text::all(arguments@) =~= before.push("--stdio"@));
    Ok(arguments)
}

/// Takes how a private server ended: one that failed fails the command, whatever the
/// command came to. The status is the text for the user.
pub fn check_private_server(success: bool, status: &str, stderr: &str) -> (result: Result<
    (),
    RunError,
>)
    ensures
        if success {
            result is Ok
        } else {
            result matches Err(error) && error@ == RunErrorView::Startup(
                if text::trimmed(stderr@).len() == 0 {
                    "server exited with "@ + status@
                } else {
                    "server exited with "@ + status@ + ": "@ + text::trimmed(stderr@)
                },
            )
        },
{
    if success {
        return Ok(());
    }
    let detail = trim(stderr);
    let mut message = concat("server exited with ", status);
    if !detail.as_str().is_empty() {
        message.append(": ");
        message.append(detail.as_str());
    }
    Err(RunError::Startup(message))
}

/// The failure of a program that could not be started.
pub fn start_failure(program: &str, error: &str) -> (failure: RunError)
    ensures
        failure@ == RunErrorView::Startup("could not start "@ + program@ + ": "@ + error@),
{
    let mut message = concat("could not start ", program);
    message.append(": ");
    message.append(error);
    RunError::Startup(message)
}

/// Whether the flag of a device with its address is the given one of those that begin at a
/// place of the arguments.
pub open spec fn names_device(
    arguments: Seq<Seq<char>>,
    start: int,
    i: int,
    address: Seq<char>,
) -> bool {
    arguments[start + 2 * i] == "--tcp-device"@ && arguments[start + 2 * i + 1] == address
}

/// Each device address is handed to the server behind its own flag, in the order given, and
/// behind the inventory where there is one; USB devices are looked for exactly when neither
/// is given and the user does not forbid it.
pub proof fn device_arguments_name_every_source(cli: Cli)
    ensures
        ({
            let arguments = device_arguments(cli);
            let file: int = if cli.devices_file is Some {
                2
            } else {
                0
            };
            let count = cli.tcp_device@.len() as int;
            let usb: int = if cli.no_usb || cli.devices_file is Some || count > 0 {
                0
            } else if cli.usb_serial is Some {
                3
            } else {
                1
            };
            &&& arguments.len() == file + 2 * count + usb
            &&& cli.devices_file matches Some(path) ==> arguments[0] == "--devices-file"@
                && arguments[1] == path@
            &&& forall|i: int|
                0 <= i < count ==> names_device(
                    arguments,
                    file,
                    i,
                    (#[trigger] cli.tcp_device@[i])@,
                )
            &&& usb > 0 ==> arguments[0] == "--usb"@
            &&& usb == 3 ==> arguments[1] == "--usb-serial"@ && arguments[2]
                == cli.usb_serial->Some_0@
        }),
{
    let addresses = text::all(cli.tcp_device@);
    flags_name_devices(addresses);
    let file = file_arguments(text::optional(cli.devices_file));
    let flags = device_flags(addresses);
    let arguments = device_arguments(cli);
    assert forall|i: int| 0 <= i < cli.tcp_device@.len() implies names_device(
        arguments,
        file.len() as int,
        i,
        (#[trigger] cli.tcp_device@[i])@,
    ) by {
        assert(addresses[i] == cli.tcp_device@[i]@);
        assert(names_device(flags, 0, i, addresses[i]));
        assert(arguments[file.len() as int + 2 * i] == flags[2 * i]);
        assert(arguments[file.len() as int + 2 * i + 1] == flags[2 * i + 1]);
    }
}

proof fn flags_name_devices(addresses: Seq<Seq<char>>)
    ensures
        device_flags(addresses).len() == 2 * addresses.len(),
        forall|i: int|
            0 <= i < addresses.len() ==> names_device(
                device_flags(addresses),
                0,
                i,
                #[trigger] addresses[i],
            ),
    decreases addresses.len(),
{
    if addresses.len() > 0 {
        let fewer = addresses.drop_last();
        flags_name_devices(fewer);
        let flags = device_flags(addresses);
        assert forall|i: int| 0 <= i < addresses.len() implies names_device(
            flags,
            0,
            i,
            #[trigger] addresses[i],
        ) by {
            if i < fewer.len() {
                assert(fewer[i] == addresses[i]);
                assert(names_device(device_flags(fewer), 0, i, fewer[i]));
                assert(flags[2 * i] == device_flags(fewer)[2 * i]);
                assert(flags[2 * i + 1] == device_flags(fewer)[2 * i + 1]);
            }
        }
    }
}

/// What needs a stream goes through the shared server alone: with a private server it is
/// refused, and nothing else is. The status and the end of the shared server never start
/// one.
pub proof fn routes_fit_their_commands(json: bool, command: TopLevelCommand)
    ensures
        ({
            let streams = command is Shell || (command matches TopLevelCommand::Run(args)
                && args.watch);
            &&& streams ==> route_of(json, true, command) is Err
            &&& !streams ==> route_of(json, true, command) == Ok::<_, RunErrorView>(
                Route::PrivateServer,
            )
        }),
        route_of(json, false, command) matches Ok(route) ==> {
            &&& !(route is PrivateServer)
            &&& route is Shell <==> command is Shell
            &&& route is Watch <==> (command matches TopLevelCommand::Run(args) && args.watch)
            &&& route is RunningServer <==> (command matches TopLevelCommand::Server(args) && (
            args.command == ServerCommand::Status || args.command == ServerCommand::Stop))
            &&& route matches Route::RunningServer { stops } ==> (
            stops <==> command->Server_0.command == ServerCommand::Stop)
            &&& route matches Route::AppLog { follow } ==> !json && (
            command matches TopLevelCommand::App(args) && args.command matches AppCommand::Log {
                follow: asked,
                ..
            } && asked == follow)
        },
        route_of(json, false, command) is Err <==> json && ((command matches TopLevelCommand::App(
            args,
        ) && args.command matches AppCommand::Log { follow, .. } && follow)),
{
}

} // verus!
