//! What the user asks for.

use vstd::prelude::*;

verus! {

/// The whole command line.
#[derive(Debug)]
pub struct Cli {
    /// Emit machine-readable JSON.
    pub json: bool,
    /// Path or name of the server program.
    pub server: String,
    /// Use one private server instead of the shared local service.
    pub server_stdio: bool,
    /// A development device inventory for the private server.
    pub devices_file: Option<String>,
    /// Development device daemons to connect to.
    pub tcp_device: Vec<String>,
    /// Do not look for USB devices.
    pub no_usb: bool,
    /// The exact serial number of the USB device to use.
    pub usb_serial: Option<String>,
    pub command: TopLevelCommand,
}

/// One command.
#[derive(Debug)]
pub enum TopLevelCommand {
    /// Inspect the host server.
    Server(ServerArgs),
    /// Inspect connected devices.
    Device(DeviceArgs),
    /// Run one non-interactive process on a device.
    Exec(ExecArgs),
    /// Open a persistent shell.
    Shell(ShellArgs),
    /// Transfer files and directory trees.
    Sync(SyncArgs),
    /// Stage device daemon updates.
    Daemon(DaemonArgs),
    /// Install and control applications.
    App(AppArgs),
    /// Inspect and signal device processes.
    Process(ProcessArgs),
    /// Read a piece of the device log.
    Log(LogArgs),
    /// Build, deploy and start the current application project.
    Run(RunArgs),
}

#[derive(Debug)]
pub struct RunArgs {
    pub serial: String,
    /// The manifest of the project.
    pub manifest: String,
    /// Rebuild and redeploy when watched paths change.
    pub watch: bool,
}

#[derive(Debug)]
pub struct DaemonArgs {
    pub command: DaemonCommand,
}

#[derive(Debug)]
pub enum DaemonCommand {
    /// Upload and verify a daemon in the inactive slot.
    Stage { serial: String, device_binary: String },
}

#[derive(Debug)]
pub struct ExecArgs {
    pub serial: String,
    /// Process timeout in milliseconds.
    pub timeout_ms: u64,
    pub argv: Vec<String>,
}

#[derive(Debug)]
pub struct ShellArgs {
    pub serial: String,
    /// One shell command instead of an interactive shell.
    pub command: Option<String>,
    /// How often a terminal is asked for: twice forces one.
    pub tty: u8,
    /// No terminal.
    pub no_tty: bool,
    /// Do not read local input.
    pub no_stdin: bool,
    /// The line-leading local escape character, or `none`.
    pub escape: String,
    /// Emit one JSON object per stream event.
    pub ndjson: bool,
}

#[derive(Debug)]
pub struct SyncArgs {
    pub command: SyncCommand,
}

#[allow(inconsistent_fields)]
#[derive(Debug)]
pub enum SyncCommand {
    /// Push a local file or directory tree to a device.
    Push {
        serial: String,
        /// The local source file or directory.
        local_path: String,
        remote_path: String,
        block_size: usize,
        resume: Option<String>,
    },
    /// Pull a device file or directory tree.
    Pull {
        serial: String,
        remote_path: String,
        /// The local destination, which must not already exist.
        local_path: String,
        block_size: u32,
        resume: Option<String>,
        recursive: bool,
    },
    /// Inspect a transfer.
    Status { serial: String, transfer_id: String },
}

#[derive(Debug)]
pub struct AppArgs {
    pub command: AppCommand,
}

#[derive(Debug)]
pub enum AppCommand {
    Install { serial: String, bundle_path: String },
    Start { serial: String, app_id: String },
    Stop { serial: String, app_id: String },
    Restart { serial: String, app_id: String },
    Rollback { serial: String, app_id: String },
    Uninstall { serial: String, app_id: String },
    /// Print captured application output.
    Log { serial: String, app_id: String, follow: bool, max_bytes: u32 },
    List { serial: String },
}

#[derive(Debug)]
pub struct ProcessArgs {
    pub command: ProcessCommand,
}

#[derive(Debug)]
pub enum ProcessCommand {
    List { serial: String },
    Signal { serial: String, pid: u32, signal: String },
}

#[derive(Debug)]
pub struct LogArgs {
    pub command: LogCommand,
}

#[derive(Debug)]
pub enum LogCommand {
    Tail { serial: String, cursor: Option<u64>, limit: u32 },
}

#[derive(Debug)]
pub struct ServerArgs {
    pub command: ServerCommand,
}

#[derive(Clone, Copy, Debug, PartialEq, Eq, Structural)]
pub enum ServerCommand {
    /// Check whether the server responds.
    Ping,
    /// Print server and interface versions.
    Version,
    /// Show the shared local server process.
    Status,
    /// Ask the shared local server to exit.
    Stop,
}

#[derive(Debug)]
pub struct DeviceArgs {
    pub command: DeviceCommand,
}

#[derive(Debug)]
pub enum DeviceCommand {
    /// List known devices.
    List,
    /// Round-trip one control frame through a device.
    Ping { serial: String },
    /// Print the negotiated features of a device.
    Features { serial: String },
}

} // verus!
