use kindlebridge::host_rpc::{
    handle_request, reset_server_stop_requested, serve_frame, server_stop_requested, Frame, Params,
    Reply, RequestId, RpcRequest, RpcResponse, ServerState,
};
use kindlebridge::link::PROTOCOL_VERSION;
use kindlebridge::methods::Method;
use kindlebridge::model::{
    AppInstallParams, AppTargetParams, DeviceState, DeviceSummary, ExecParams, SerialParams,
    SyncPullParams, SyncPushParams, TransferDirection,
};
use kindlebridge::provider::{
    provider_rpc_error, sync_pull_observed, DeviceRecord, MemoryDeviceProvider, ProviderError,
};
use kindlebridge::rpc_error::{ErrorCode, ErrorDetail, RpcError};
use kindlebridge::runtime::model::{HostBundle, HostFile};
use kindlebridge::sync_operation::HostSyncOperation;

fn provider() -> MemoryDeviceProvider {
    MemoryDeviceProvider::new(vec![DeviceRecord {
        summary: DeviceSummary {
            serial: "KT6-TEST".to_owned(),
            model: "KT6".to_owned(),
            state: DeviceState::Online,
            transport: "usb".to_owned(),
        },
        protocol_version: PROTOCOL_VERSION,
        features: vec!["sync.v1".to_owned(), "exec.v1".to_owned()],
    }])
}

fn server() -> ServerState {
    ServerState::new("0.1.0".to_owned(), 42)
}

fn call_on(
    server: &mut ServerState,
    provider: &mut MemoryDeviceProvider,
    method: &str,
    params: Params,
) -> Result<Reply, RpcError> {
    handle_request(
        server,
        provider,
        RpcRequest {
            id: Some(RequestId::Number(1)),
            method: method.to_owned(),
            params,
        },
    )
    .expect("calls have responses")
    .result
}

fn call(method: &str, params: Params) -> Result<Reply, RpcError> {
    call_on(&mut server(), &mut provider(), method, params)
}

fn serial(serial: &str) -> Params {
    Params::Serial(SerialParams {
        serial: serial.to_owned(),
    })
}

#[test]
fn malformed_typed_params_preserve_the_public_error() {
    let error = call(Method::ExecRun.name(), Params::Malformed).unwrap_err();
    let expected = RpcError::invalid_params(
        "expected serial, non-empty argv, cwd, environment, timeout_ms",
    );
    assert_eq!(error.code, ErrorCode::InvalidParams);
    assert_eq!(error.code, expected.code);
    assert_eq!(error.message, expected.message);
    assert!(matches!(
        error.detail,
        ErrorDetail::Detail(detail)
            if detail == "expected serial, non-empty argv, cwd, environment, timeout_ms"
    ));
}

#[test]
fn unknown_method_preserves_method_not_found() {
    let error = call("v1.unknown", Params::Absent).unwrap_err();
    assert_eq!(error.code, ErrorCode::MethodNotFound);
    assert!(matches!(error.detail, ErrorDetail::Method(method) if method == "v1.unknown"));
}

#[test]
fn notifications_execute_without_a_response() {
    let mut server = server();
    reset_server_stop_requested(&mut server);
    let response = handle_request(
        &mut server,
        &mut provider(),
        RpcRequest {
            id: None,
            method: Method::ServerStop.name().to_owned(),
            params: Params::Absent,
        },
    );

    assert!(response.is_none());
    assert!(server_stop_requested(&server));
    reset_server_stop_requested(&mut server);
    assert!(!server_stop_requested(&server));
}

#[test]
fn ping_is_public_rpc() {
    assert!(matches!(
        call(Method::ServerPing.name(), Params::Absent),
        Ok(Reply::Pong)
    ));
}

#[test]
fn device_ping_requires_a_known_device() {
    assert!(matches!(
        call(Method::DevicePing.name(), serial("KT6-TEST")),
        Ok(Reply::Pong)
    ));
    let missing =
        call(Method::DevicePing.name(), serial("missing")).expect_err("missing device must fail");
    assert_eq!(missing.code, ErrorCode::DeviceNotFound);
}

#[test]
fn provider_errors_are_private_unless_marked_for_the_cli() {
    let private = provider_rpc_error(ProviderError::new("C:\\private\\transport-detail"));
    assert_eq!(private.code, ErrorCode::ServerNotReady);
    assert_eq!(private.message, "Server not ready");

    let public = provider_rpc_error(ProviderError::public(
        "Incompatible KindleBridge daemon protocol 2; host requires 3",
    ));
    assert_eq!(public.code, ErrorCode::ServerNotReady);
    assert_eq!(
        public.message,
        "Incompatible KindleBridge daemon protocol 2; host requires 3"
    );
}

#[test]
fn missing_device_has_stable_error_code() {
    let error = call(Method::DeviceFeatures.name(), serial("missing")).unwrap_err();
    assert_eq!(error.code, ErrorCode::DeviceNotFound);
}

#[test]
fn malformed_json_produces_parse_error() {
    let RpcResponse { id, result } =
        serve_frame(&mut server(), &mut provider(), Frame::NotJson).unwrap();
    assert!(matches!(id, RequestId::Null));
    assert_eq!(result.unwrap_err().code, ErrorCode::ParseError);
}

#[test]
fn a_frame_without_a_request_is_answered_under_the_null_identifier() {
    let RpcResponse { id, result } = serve_frame(
        &mut server(),
        &mut provider(),
        Frame::NotARequest(RpcError::new(ErrorCode::InvalidParams, "jsonrpc must be 2.0")),
    )
    .unwrap();
    assert!(matches!(id, RequestId::Null));
    assert_eq!(result.unwrap_err().message, "jsonrpc must be 2.0");
}

#[test]
fn exec_is_a_typed_public_rpc_method() {
    assert_eq!(Method::ExecRun.name(), "v1.exec.run");
    let reply = call(
        Method::ExecRun.name(),
        Params::Exec(ExecParams {
            serial: "KT6-TEST".to_owned(),
            argv: vec!["echo".to_owned(), "hello".to_owned(), "kindle".to_owned()],
            cwd: None,
            environment: Vec::new(),
            timeout_ms: 1000,
        }),
    )
    .unwrap();
    match reply {
        Reply::Exec(result) => {
            assert_eq!(result.exit_code, 0);
            assert_eq!(result.stdout, "hello kindle\n");
        }
        other => panic!("unexpected {other:?}"),
    }
}

#[test]
fn server_version_and_status_come_from_the_server_itself() {
    match call(Method::ServerVersion.name(), Params::Absent).unwrap() {
        Reply::Version(version) => {
            assert_eq!(version.name, "kindlebridge-server");
            assert_eq!(version.version, "0.1.0");
            assert_eq!(version.api_version, "v1");
        }
        other => panic!("unexpected {other:?}"),
    }
    assert!(matches!(
        call(Method::ServerStatus.name(), Params::Empty),
        Ok(Reply::Running(42))
    ));
}

fn push(transfer_id: Option<String>) -> SyncPushParams {
    SyncPushParams {
        serial: "KT6-TEST".to_owned(),
        local_path: "/tmp/kindlebridge-memory-provider.bin".to_owned(),
        remote_path: "resume.bin".to_owned(),
        transfer_id,
        block_size: 65_536,
    }
}

#[test]
fn path_based_push_retry_is_idempotent_and_detects_source_changes() {
    let mut server = server();
    let mut provider = provider();
    let mut push_bytes = |transfer_id: Option<String>, bytes: &[u8]| {
        call_on(
            &mut server,
            &mut provider,
            Method::SyncPush.name(),
            Params::SyncPush(push(transfer_id), HostFile::Content(bytes.to_vec())),
        )
    };
    let accepted = match push_bytes(None, b"abcdef").unwrap() {
        Reply::SyncPush(result) => result,
        other => panic!("unexpected {other:?}"),
    };
    match push_bytes(Some(accepted.transfer_id.clone()), b"abcdef").unwrap() {
        Reply::SyncPush(result) => {
            assert_eq!(result.accepted_offset, accepted.accepted_offset)
        }
        other => panic!("unexpected {other:?}"),
    }

    let error = push_bytes(Some(accepted.transfer_id), b"changed").unwrap_err();
    assert_eq!(error.code, ErrorCode::InvalidState);
}

#[test]
fn failed_rollback_preserves_the_installed_app() {
    let mut server = server();
    let mut provider = provider();
    call_on(
        &mut server,
        &mut provider,
        Method::AppInstall.name(),
        Params::AppInstall(
            AppInstallParams {
                serial: "KT6-TEST".to_owned(),
                bundle_path: "/tmp/kindlebridge-memory-app.kbb".to_owned(),
            },
            HostBundle::Verified {
                application: true,
                id: "org.example.app".to_owned(),
                version: "1.0.0".to_owned(),
                bundle_root: "root-1".to_owned(),
            },
        ),
    )
    .unwrap();
    let error = call_on(
        &mut server,
        &mut provider,
        Method::AppRollback.name(),
        Params::AppTarget(AppTargetParams {
            serial: "KT6-TEST".to_owned(),
            app_id: "org.example.app".to_owned(),
        }),
    )
    .unwrap_err();
    assert_eq!(error.code, ErrorCode::NoRollbackAvailable);
    match call_on(
        &mut server,
        &mut provider,
        Method::AppList.name(),
        serial("KT6-TEST"),
    )
    .unwrap()
    {
        Reply::Apps(apps) => assert_eq!(apps.len(), 1),
        other => panic!("unexpected {other:?}"),
    }
}

#[test]
fn a_pull_is_reported_once_its_bytes_are_written() {
    let mut provider = provider();
    let mut server = server();
    call_on(
        &mut server,
        &mut provider,
        Method::SyncPush.name(),
        Params::SyncPush(push(None), HostFile::Content(b"abcdef".to_vec())),
    )
    .unwrap();
    let params = SyncPullParams {
        serial: "KT6-TEST".to_owned(),
        remote_path: push(None).remote_path,
        local_path: "/tmp/destination".to_owned(),
        transfer_id: None,
        block_size: 65_536,
    };
    let progress = |operation: &HostSyncOperation<()>| {
        let shown = operation.snapshot("op".to_owned(), TransferDirection::Pull, String::new());
        (shown.transferred, shown.total, shown.transfer_id.is_some())
    };
    let mut operation = HostSyncOperation::new();
    let full = |_: &Vec<u8>| Err(RpcError::host_file("write", "/tmp/destination", "Full"));
    assert!(provider
        .sync_pull_observed(&params, true, full, &mut operation)
        .is_err());
    assert_eq!(progress(&operation), (0, 0, false));
    let mut written = Vec::new();
    let write = |data: &Vec<u8>| {
        written.extend_from_slice(data);
        Ok(())
    };
    let result = provider
        .sync_pull_observed(&params, true, write, &mut operation)
        .unwrap();
    assert_eq!(result.received_size, 6);
    assert_eq!(written, b"abcdef");
    assert_eq!(progress(&operation), (6, 6, true));

    let mut observer = HostSyncOperation::<()>::new();
    let result = sync_pull_observed(&mut provider, params, true, |_| Ok(()), &mut observer);
    assert_eq!(result.unwrap().total_size, 6);
    assert_eq!(progress(&observer), (6, 0, false));
}
