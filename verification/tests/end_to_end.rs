use std::cell::RefCell;
use std::collections::HashMap;
use std::rc::Rc;

use kindlebridge::cli::args::{
    AppArgs, AppCommand, DeviceArgs, DeviceCommand, LogArgs, LogCommand, ProcessArgs,
    ProcessCommand, ServerArgs, ServerCommand, SyncArgs, SyncCommand, TopLevelCommand,
};
use kindlebridge::cli::command::{execute, Executed, HostFacts};
use kindlebridge::cli::host_path::HostPath;
use kindlebridge::cli::rpc::{
    CallResult, Client, ClientError, RpcCall, RpcCaller, RpcReply, ServerError,
};
use kindlebridge::cli::sync::{Destination, LocalSource, Transferred};
use kindlebridge::fake_device::{provider, SERIAL};
use kindlebridge::host_rpc::{
    handle_request, Params, Reply, RequestId, RpcRequest, ServerState,
};
use kindlebridge::methods::Method;
use kindlebridge::model::{
    AppState, ExecParams, ProcessSignalParams, SerialParams, SyncStatusParams,
};
use kindlebridge::provider::MemoryDeviceProvider;
use kindlebridge::rpc_error::ErrorCode;
use kindlebridge::runtime::model::{HostBundle, HostFile};

/// A server and a host in the same process.
struct Bench {
    server: ServerState,
    provider: MemoryDeviceProvider,
    files: HashMap<String, Vec<u8>>,
    bundles: HashMap<String, (String, String)>,
    last_app: Option<(AppState, Option<u32>, String)>,
}

impl Bench {
    fn params(&self, call: RpcCall) -> Params {
        match call {
            RpcCall::ServerPing
            | RpcCall::ServerVersion
            | RpcCall::ServerStatus
            | RpcCall::ServerStop
            | RpcCall::DeviceList => Params::Absent,
            RpcCall::DevicePing(params)
            | RpcCall::DeviceFeatures(params)
            | RpcCall::AppList(params)
            | RpcCall::ProcessList(params) => Params::Serial(params),
            RpcCall::ExecRun(params) => Params::Exec(params),
            RpcCall::SyncPush(params) => {
                let file = match self.files.get(&params.local_path) {
                    Some(bytes) => HostFile::Content(bytes.clone()),
                    None => HostFile::Unreadable("NotFound".to_owned()),
                };
                Params::SyncPush(params, file)
            }
            RpcCall::SyncPull(params) => Params::SyncPull(params, true),
            RpcCall::SyncStatus(params) => Params::SyncStatus(params),
            RpcCall::SyncList(params) => Params::SyncList(params),
            RpcCall::SyncMkdir(params) => Params::SyncMkdir(params),
            RpcCall::AppInstall(params) => {
                let bundle = match self.bundles.get(&params.bundle_path) {
                    Some((id, version)) => HostBundle::Verified {
                        application: true,
                        id: id.clone(),
                        version: version.clone(),
                        bundle_root: format!("root-{version}"),
                    },
                    None => HostBundle::Unreadable("NotFound".to_owned()),
                };
                Params::AppInstall(params, bundle)
            }
            RpcCall::AppStart(params)
            | RpcCall::AppStop(params)
            | RpcCall::AppRestart(params)
            | RpcCall::AppRollback(params)
            | RpcCall::AppUninstall(params) => Params::AppTarget(params),
            RpcCall::AppLog(params) => Params::AppLog(params),
            RpcCall::ProcessSignal(params) => Params::ProcessSignal(params),
            RpcCall::LogTail(params) => Params::LogTail(params),
        }
    }

    fn result(&mut self, reply: Reply, local: Option<String>) -> CallResult {
        match reply {
            Reply::Pong => CallResult::Ping(true),
            Reply::Running(pid) => CallResult::Status(u64::from(pid)),
            Reply::Stopping => CallResult::Unreadable,
            Reply::Version(version) => CallResult::Version(version),
            Reply::Devices(devices) => CallResult::Devices(devices),
            Reply::Features(features) => CallResult::Features(features),
            Reply::Exec(result) => CallResult::Exec(result),
            Reply::SyncPush(result) => CallResult::SyncPush(result),
            Reply::SyncPull(delivery) => {
                self.files.insert(local.unwrap(), delivery.data);
                CallResult::SyncPull(delivery.result)
            }
            Reply::SyncStatus(status) => CallResult::SyncStatus(status),
            Reply::SyncList(result) => CallResult::SyncList(result),
            Reply::SyncMkdir(result) => CallResult::SyncMkdir(result),
            Reply::App(app) => {
                self.last_app = Some((app.state, app.pid, app.version.clone()));
                CallResult::App(app)
            }
            Reply::Apps(apps) => CallResult::Apps(apps),
            Reply::AppLog(snapshot) => CallResult::AppLog(snapshot),
            Reply::Processes(processes) => CallResult::Processes(processes),
            Reply::Process(process) => CallResult::Process(process),
            Reply::Log(snapshot) => CallResult::Log(snapshot),
        }
    }

    fn serve(&mut self, call: RpcCall) -> Result<RpcReply, ClientError> {
        let method = call.method();
        let local = match &call {
            RpcCall::SyncPull(params) => Some(params.local_path.clone()),
            _ => None,
        };
        let params = self.params(call);
        let response = handle_request(
            &mut self.server,
            &mut self.provider,
            RpcRequest {
                id: Some(RequestId::Number(1)),
                method: method.name().to_owned(),
                params,
            },
        )
        .unwrap();
        match response.result {
            Ok(reply) => Ok(RpcReply {
                pretty: method.name().to_owned(),
                result: self.result(reply, local),
            }),
            Err(error) => Err(ClientError::Rpc(ServerError {
                code: match error.code {
                    ErrorCode::ProcessNotFound => -32010,
                    other => panic!("unexpected {other:?}"),
                },
                message: error.message,
                data: None,
            })),
        }
    }
}

type Send = Box<dyn Fn(RpcCall) -> Result<RpcReply, ClientError>>;
type Tool = Client<Send>;

fn client() -> (Tool, Rc<RefCell<Bench>>) {
    let bench = Rc::new(RefCell::new(Bench {
        server: ServerState::new("0.1.0".to_owned(), 1),
        provider: provider(),
        files: HashMap::new(),
        bundles: HashMap::new(),
        last_app: None,
    }));
    let served = Rc::clone(&bench);
    let send: Send = Box::new(move |call| served.borrow_mut().serve(call));
    (Client::new(send), bench)
}

fn app_command(
    client: &mut Tool,
    bench: &Rc<RefCell<Bench>>,
    command: AppCommand,
    bundle: &str,
) -> (AppState, Option<u32>, String) {
    execute(
        client,
        &TopLevelCommand::App(AppArgs { command }),
        HostFacts::Path(HostPath::Absolute(bundle.to_owned())),
        true,
    )
    .unwrap();
    bench.borrow_mut().last_app.take().unwrap()
}

fn show(client: &mut Tool, command: TopLevelCommand) -> String {
    match execute(client, &command, HostFacts::Nothing, false).unwrap() {
        Executed::Text(text) => text,
        _ => panic!("expected text"),
    }
}

fn serial() -> SerialParams {
    SerialParams {
        serial: SERIAL.to_owned(),
    }
}

#[test]
fn all_v1_discovery_methods_work_over_stdio_and_cli_rpc() {
    let (mut client, _) = client();
    assert!(matches!(
        client.call(RpcCall::ServerPing).unwrap().result,
        CallResult::Ping(true)
    ));
    match client.call(RpcCall::ServerVersion).unwrap().result {
        CallResult::Version(version) => assert_eq!(version.api_version, "v1"),
        other => panic!("unexpected {other:?}"),
    }
    match client.call(RpcCall::DeviceList).unwrap().result {
        CallResult::Devices(devices) => {
            assert_eq!(devices.len(), 1);
            assert_eq!(devices[0].serial, SERIAL);
        }
        other => panic!("unexpected {other:?}"),
    }
    assert!(matches!(
        client.call(RpcCall::DevicePing(serial())).unwrap().result,
        CallResult::Ping(true)
    ));
    match client.call(RpcCall::DeviceFeatures(serial())).unwrap().result {
        CallResult::Features(features) => assert_eq!(
            features.features,
            [
                "app.install.v1",
                "app.list.v1",
                "app.restart.v1",
                "app.rollback.v1",
                "app.start.v1",
                "app.stop.v1",
                "app.uninstall.v1",
                "exec.v1",
                "log.tail.v1",
                "process.list.v1",
                "process.signal.v1",
                "rpc.v1",
                "sync.v1"
            ]
        ),
        other => panic!("unexpected {other:?}"),
    }
    let exec = client
        .call(RpcCall::ExecRun(ExecParams {
            serial: SERIAL.to_owned(),
            argv: vec!["echo".to_owned(), "hello".to_owned(), "kindle".to_owned()],
            cwd: None,
            environment: Vec::new(),
            timeout_ms: 1000,
        }))
        .unwrap();
    match exec.result {
        CallResult::Exec(result) => {
            assert_eq!(result.exit_code, 0);
            assert_eq!(result.stdout, "hello kindle\n");
        }
        other => panic!("unexpected {other:?}"),
    }

    let output = show(
        &mut client,
        TopLevelCommand::Device(DeviceArgs {
            command: DeviceCommand::Features {
                serial: SERIAL.to_owned(),
            },
        }),
    );
    assert!(output.starts_with(SERIAL));
    assert_eq!(
        show(
            &mut client,
            TopLevelCommand::Device(DeviceArgs {
                command: DeviceCommand::Ping {
                    serial: SERIAL.to_owned(),
                },
            })
        ),
        "pong"
    );
    assert_eq!(
        show(
            &mut client,
            TopLevelCommand::Server(ServerArgs {
                command: ServerCommand::Ping,
            })
        ),
        "pong"
    );
}

#[test]
fn stateful_sync_app_process_and_log_flow_works_over_stdio() {
    let (mut client, bench) = client();
    let payload: Vec<u8> = (0_u16..4096).flat_map(u16::to_le_bytes).collect();
    bench
        .borrow_mut()
        .files
        .insert("/tmp/source.bin".to_owned(), payload.clone());

    let pushed = execute(
        &mut client,
        &TopLevelCommand::Sync(SyncArgs {
            command: SyncCommand::Push {
                serial: SERIAL.to_owned(),
                local_path: "/tmp/source.bin".to_owned(),
                remote_path: "dev/payload.bin".to_owned(),
                block_size: 257,
                resume: None,
            },
        }),
        HostFacts::Source {
            local: HostPath::Absolute("/tmp/source.bin".to_owned()),
            source: LocalSource::File,
        },
        false,
    )
    .unwrap();
    let transfer_id = match pushed {
        Executed::Transferred(Transferred::File(summary)) => summary.transfer_id,
        _ => panic!("expected a file"),
    };
    let status = client
        .call(RpcCall::SyncStatus(SyncStatusParams {
            serial: SERIAL.to_owned(),
            transfer_id,
        }))
        .unwrap();
    match status.result {
        CallResult::SyncStatus(status) => assert_eq!(status.next_offset, payload.len() as u64),
        other => panic!("unexpected {other:?}"),
    }

    execute(
        &mut client,
        &TopLevelCommand::Sync(SyncArgs {
            command: SyncCommand::Pull {
                serial: SERIAL.to_owned(),
                remote_path: "dev/payload.bin".to_owned(),
                local_path: "/tmp/pulled.bin".to_owned(),
                block_size: 193,
                resume: None,
                recursive: false,
            },
        }),
        HostFacts::Target {
            local: HostPath::Absolute("/tmp/pulled.bin".to_owned()),
            destination: Destination::Free,
            separator: '/',
        },
        false,
    )
    .unwrap();
    assert_eq!(bench.borrow().files["/tmp/pulled.bin"], payload);

    let app_id = "org.kindlebridge.e2e";
    for (path, version) in [("/tmp/v1.kbb", "1.0.0"), ("/tmp/v2.kbb", "2.0.0")] {
        bench
            .borrow_mut()
            .bundles
            .insert(path.to_owned(), (app_id.to_owned(), version.to_owned()));
    }
    let target = || (SERIAL.to_owned(), app_id.to_owned());
    let install = |client: &mut Tool, path: &str| {
        app_command(
            client,
            &bench,
            AppCommand::Install {
                serial: SERIAL.to_owned(),
                bundle_path: path.to_owned(),
            },
            path,
        )
    };
    let start = |client: &mut Tool| {
        let (serial, app_id) = target();
        app_command(client, &bench, AppCommand::Start { serial, app_id }, "")
    };
    assert_eq!(install(&mut client, "/tmp/v1.kbb").0, AppState::Stopped);
    let first_pid = start(&mut client).1.unwrap();
    let (serial_text, id) = target();
    let restarted = app_command(
        &mut client,
        &bench,
        AppCommand::Restart {
            serial: serial_text,
            app_id: id,
        },
        "",
    );
    assert_ne!(restarted.1, Some(first_pid));
    let (serial_text, id) = target();
    assert_eq!(
        app_command(
            &mut client,
            &bench,
            AppCommand::Stop {
                serial: serial_text,
                app_id: id,
            },
            ""
        )
        .0,
        AppState::Stopped
    );
    install(&mut client, "/tmp/v2.kbb");
    let (serial_text, id) = target();
    assert_eq!(
        app_command(
            &mut client,
            &bench,
            AppCommand::Rollback {
                serial: serial_text,
                app_id: id,
            },
            ""
        )
        .2,
        "1.0.0"
    );
    let pid = start(&mut client).1.unwrap();

    match client.call(RpcCall::ProcessList(serial())).unwrap().result {
        CallResult::Processes(processes) => assert_eq!(processes[0].pid, pid),
        other => panic!("unexpected {other:?}"),
    }
    let killed = show(
        &mut client,
        TopLevelCommand::Process(ProcessArgs {
            command: ProcessCommand::Signal {
                serial: SERIAL.to_owned(),
                pid,
                signal: "KILL".to_owned(),
            },
        }),
    );
    assert!(killed.starts_with(&format!("sent KILL to {pid} (")));
    let error = client
        .call(RpcCall::ProcessSignal(ProcessSignalParams {
            serial: SERIAL.to_owned(),
            pid,
            signal: "KILL".to_owned(),
        }))
        .unwrap_err();
    assert!(matches!(
        error,
        ClientError::Rpc(error) if error.code == -32010
    ));

    let (serial_text, id) = target();
    app_command(
        &mut client,
        &bench,
        AppCommand::Uninstall {
            serial: serial_text,
            app_id: id,
        },
        "",
    );
    match client.call(RpcCall::AppList(serial())).unwrap().result {
        CallResult::Apps(apps) => assert!(apps.is_empty()),
        other => panic!("unexpected {other:?}"),
    }
    let logs = show(
        &mut client,
        TopLevelCommand::Log(LogArgs {
            command: LogCommand::Tail {
                serial: SERIAL.to_owned(),
                cursor: None,
                limit: 3,
            },
        }),
    );
    assert!(!logs.is_empty());
    assert!(logs.lines().count() <= 3);
    assert_eq!(Method::LogTail.name(), "v1.log.tail");
}
