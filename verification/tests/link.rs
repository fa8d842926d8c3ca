use kindlebridge::device_session::{
    session_answer, shell_receive, shell_send, BundleUpload, ConnectedDeviceProvider,
    DeviceMethod, DeviceShellEvent, SessionAnswer, SessionRequest, ShellPacket, ShellPayload,
    ShellSend, UploadBundle,
};
use kindlebridge::link::{
    after_usb_attempt, expect, expect_reply, finish_call, link_rpc_error, recovery_marker,
    usb_failure_message, validate_device_hello, CallReply, Candidate, Command, DeviceHello,
    ErrorClass, Header, HelloPayload, LinkError, Negotiation, DEFAULT_CONNECTION_WINDOW,
    PROTOCOL_VERSION,
};
use kindlebridge::model::{
    AppInstallParams, AppTargetParams, ExecParams, SyncPushResult, TransferState,
};
use kindlebridge::provider::{DeviceOperation, DeviceOperationResult};
use kindlebridge::rpc_error::{ErrorCode, ErrorDetail, RpcError};
use kindlebridge::runtime::model::HostBundle;
use kindlebridge::usb_recovery::{
    drain_usb_recovery_inbound, recovery_fill, recovery_outcome, usb_buffer_config, CountingWriter,
    DrainStep, InboundRead, RecoveryDrain, RecoveryExchange, USB_HANDSHAKE_TIMEOUT_MS,
    USB_RECOVERY_DRAIN_POLL_MS, USB_RECOVERY_TIMEOUT_MS,
};

const TEST_SESSION_ID: &str = "000102030405060708090a0b0c0d0e0f";
const STALE_SESSION_ID: &str = "f0e0d0c0b0a090807060504030201000";
const MAX_HOST_TO_DEVICE_PAYLOAD: usize = 1024 * 1024;

fn hello(serial: &str, session_id: &str) -> DeviceHello {
    DeviceHello {
        protocol_version: PROTOCOL_VERSION,
        session_id: session_id.to_owned(),
        serial: serial.to_owned(),
        model: "KT6".to_owned(),
        firmware: "5.17.1.0.4".to_owned(),
        target: "kindlehf".to_owned(),
        features: vec!["sync.v1".to_owned()],
        initial_connection_window: DEFAULT_CONNECTION_WINDOW,
    }
}

fn header(command: Command, sequence: u32) -> Header {
    Header {
        command,
        stream_id: 0,
        sequence,
        end_stream: false,
    }
}

#[test]
fn rejects_a_mismatched_device_protocol() {
    let hello = DeviceHello {
        protocol_version: PROTOCOL_VERSION - 1,
        session_id: TEST_SESSION_ID.to_owned(),
        serial: "KT6-PROTOCOL-TEST".to_owned(),
        model: "KT6".to_owned(),
        firmware: "5.17.1.0.4".to_owned(),
        target: "kindlehf".to_owned(),
        features: Vec::new(),
        initial_connection_window: DEFAULT_CONNECTION_WINDOW,
    };
    assert!(matches!(
        validate_device_hello(&hello, TEST_SESSION_ID),
        Err(LinkError::IncompatibleProtocol {
            device,
            host
        }) if device == PROTOCOL_VERSION - 1 && host == PROTOCOL_VERSION
    ));
    let message =
        usb_failure_message(&validate_device_hello(&hello, TEST_SESSION_ID).unwrap_err()).unwrap();
    assert_eq!(
        message,
        "Incompatible KindleBridge daemon protocol 2; host requires 3. Install the matching KindleBridge package"
    );
}

#[test]
fn usb_bulk_io_bounds_the_complete_initial_handshake() {
    let buffers = usb_buffer_config();
    assert_eq!(buffers.transfer_size, 16 * 1024);
    assert_eq!(buffers.read_queue_depth, 4);
    assert_eq!(buffers.write_queue_depth, 4);
    assert_eq!(buffers.read_timeout_ms, USB_HANDSHAKE_TIMEOUT_MS);
    assert_eq!(buffers.write_timeout_ms, USB_HANDSHAKE_TIMEOUT_MS);
    assert!(USB_RECOVERY_TIMEOUT_MS > USB_HANDSHAKE_TIMEOUT_MS);
    assert_ne!(USB_RECOVERY_TIMEOUT_MS, u64::MAX);
}

#[test]
fn usb_recovery_drains_stale_inbound_while_writing_the_resync_burst() {
    let mut drain = RecoveryDrain::new();
    let mut inbound_chunks = 0;
    let mut outbound = 0_u64;
    let mut reads = vec![
        InboundRead::Bytes(1),
        InboundRead::Idle,
        InboundRead::Bytes(1),
    ]
    .into_iter();
    let mut chunks = recovery_fill(MAX_HOST_TO_DEVICE_PAYLOAD).into_iter();
    loop {
        let read = reads.next().unwrap_or(InboundRead::Idle);
        inbound_chunks += u32::from(matches!(read, InboundRead::Bytes(_)));
        let done = match chunks.next() {
            Some(chunk) => {
                outbound += chunk as u64;
                false
            }
            None => true,
        };
        match drain_usb_recovery_inbound(&mut drain, read, done) {
            DrainStep::Continue => {}
            DrainStep::Finished => break,
            DrainStep::Failed(reason) => panic!("unexpected {reason}"),
        }
    }
    assert_eq!(inbound_chunks, 2);
    assert_eq!(drain.bytes, 2);
    assert_eq!(outbound, MAX_HOST_TO_DEVICE_PAYLOAD as u64);
    assert_eq!(USB_RECOVERY_DRAIN_POLL_MS, 250);
    assert!(recovery_outcome(RecoveryExchange {
        outbound: Ok(()),
        inbound: Some(Ok(())),
        drain,
        outbound_bytes: outbound,
    })
    .is_ok());
}

#[test]
fn a_failed_recovery_tells_how_far_it_came() {
    let mut drain = RecoveryDrain::new();
    drain_usb_recovery_inbound(&mut drain, InboundRead::Bytes(7), false);
    drain_usb_recovery_inbound(&mut drain, InboundRead::Idle, false);
    let error = recovery_outcome(RecoveryExchange {
        outbound: Err("OUT remained blocked by stale IN".to_owned()),
        inbound: Some(Err("later".to_owned())),
        drain,
        outbound_bytes: 16,
    })
    .unwrap_err();
    assert!(matches!(
        error,
        LinkError::UsbRecoveryFailed { inbound_bytes: 7, inbound_timeouts: 1, outbound_bytes: 16, reason }
            if reason == "OUT remained blocked by stale IN"
    ));
}

#[test]
fn usb_recovery_burst_covers_one_maximum_host_frame_and_ends_on_a_boundary() {
    let chunks = recovery_fill(MAX_HOST_TO_DEVICE_PAYLOAD);
    assert_eq!(chunks.iter().sum::<usize>(), MAX_HOST_TO_DEVICE_PAYLOAD);
    assert!(chunks.iter().all(|chunk| *chunk == 16 * 1024));
    assert_eq!(recovery_fill(16 * 1024 + 1), [16 * 1024, 1]);
    expect(recovery_marker(), Command::Ping, 0).unwrap();
    assert!(expect(header(Command::Pong, 0), Command::Ping, 0).is_err());
}

#[test]
fn recovered_usb_handshake_discards_stale_inbound_frames_before_hello() {
    let negotiation = Negotiation::new(TEST_SESSION_ID.to_owned(), true);
    assert_eq!(negotiation.hello().session_id, TEST_SESSION_ID);
    assert!(matches!(
        negotiation.consider(
            header(Command::Ping, 9),
            HelloPayload::Undecodable("not a HELLO".to_owned())
        ),
        Candidate::Stale
    ));
    assert!(matches!(
        negotiation.consider(
            header(Command::Hello, 0),
            HelloPayload::Decoded(hello("KT6-USB-RECOVERED", STALE_SESSION_ID))
        ),
        Candidate::Stale
    ));
    match negotiation.consider(
        header(Command::Hello, 0),
        HelloPayload::Decoded(hello("KT6-USB-RECOVERED", TEST_SESSION_ID)),
    ) {
        Candidate::Opens(received) => {
            assert_eq!(received.serial, "KT6-USB-RECOVERED");
            assert_eq!(received.session_id, TEST_SESSION_ID);
        }
        other => panic!("unexpected {other:?}"),
    }
}

#[test]
fn connected_devices_are_listed_in_order_and_a_serial_is_taken_once() {
    let mut provider: ConnectedDeviceProvider<u8> = ConnectedDeviceProvider::new();
    provider.add(1, hello("KT6-B", TEST_SESSION_ID), "tcp").unwrap();
    provider.add(2, hello("KT6-A", TEST_SESSION_ID), "usb").unwrap();
    assert!(provider.add(3, hello("KT6-A", TEST_SESSION_ID), "usb").is_err());
    let serials: Vec<String> = provider
        .list()
        .into_iter()
        .map(|device| device.serial)
        .collect();
    assert_eq!(serials, ["KT6-A", "KT6-B"]);
    assert!(provider.features("KT6-B").is_some());
    assert!(provider.features("missing").is_none());
    assert!(provider.require_feature("KT6-A", "sync.v1").is_ok());
    assert!(provider.require_feature("KT6-A", "exec.v1").is_err());
}

fn connected() -> ConnectedDeviceProvider<u8> {
    let mut provider = ConnectedDeviceProvider::new();
    let mut hello = hello("KT6-A", TEST_SESSION_ID);
    hello.features = vec![
        "sync.v1".to_owned(),
        "app.start.v1".to_owned(),
        "sync.v1".to_owned(),
    ];
    provider.connect(Ok((7, hello)), "").unwrap();
    provider
}

fn target(serial: &str) -> AppTargetParams {
    AppTargetParams {
        serial: serial.to_owned(),
        app_id: "a".to_owned(),
    }
}

#[test]
fn a_session_that_cannot_be_opened_fails_the_provider() {
    let mut provider = connected();
    let failure = provider.connect(Err(LinkError::InvalidHello), "").unwrap_err();
    assert_eq!(
        failure.to_text(),
        "device provider failed: device HELLO is incompatible"
    );
    let failure = provider
        .connect(Ok((8, hello("KT6-A", TEST_SESSION_ID))), "")
        .unwrap_err();
    assert_eq!(
        failure.to_text(),
        "device provider failed: duplicate device serial KT6-A"
    );
    assert_eq!(provider.list().len(), 1);

    let none: ConnectedDeviceProvider<u8> =
        ConnectedDeviceProvider::connect_usb(Err(LinkError::UsbDeviceNotFound(
            "no device".to_owned(),
        )))
        .unwrap();
    assert!(none.list().is_empty());
    assert!(!none.is_online(|_| true));
    let one =
        ConnectedDeviceProvider::connect_usb(Ok((1, hello("KT6-A", TEST_SESSION_ID)))).unwrap();
    assert_eq!(one.list()[0].transport, "usb");
    assert!(one.is_online(|session| *session == 1));
    let failed: Result<ConnectedDeviceProvider<u8>, _> =
        ConnectedDeviceProvider::connect_usb(Err(LinkError::SequenceExhausted));
    assert_eq!(
        failed.err().unwrap().to_text(),
        "device provider failed: Could not establish KindleBridge protocol 3. Ensure development mode is active and install the matching KindleBridge package"
    );
}

#[test]
fn requests_go_to_devices_that_offer_what_they_need() {
    let provider = connected();
    assert!(matches!(
        provider.perform(DeviceOperation::List),
        Ok(SessionRequest::Answered(DeviceOperationResult::Devices(devices))) if devices.len() == 1
    ));
    match provider.perform(DeviceOperation::Features("KT6-A".to_owned())) {
        Ok(SessionRequest::Answered(DeviceOperationResult::Features(Some(features)))) => {
            assert_eq!(features.features, ["app.start.v1", "sync.v1"])
        }
        other => panic!("unexpected {other:?}"),
    }
    assert!(matches!(
        provider.perform(DeviceOperation::Ping("KT6-A".to_owned())),
        Ok(SessionRequest::Ping(serial)) if serial == "KT6-A"
    ));
    assert!(matches!(
        provider.perform(DeviceOperation::Ping("missing".to_owned())),
        Ok(SessionRequest::Answered(DeviceOperationResult::Ping(false)))
    ));
    let exec = |serial: &str| {
        DeviceOperation::Exec(ExecParams {
            serial: serial.to_owned(),
            argv: vec!["true".to_owned()],
            cwd: None,
            environment: Vec::new(),
            timeout_ms: 1,
        })
    };
    assert!(matches!(
        provider.perform(exec("KT6-A")),
        Ok(SessionRequest::Call(DeviceOperation::Exec(_)))
    ));
    assert!(matches!(
        provider.perform(exec("missing")),
        Ok(SessionRequest::Answered(DeviceOperationResult::Exec(None)))
    ));
    assert!(matches!(
        provider.perform(DeviceOperation::AppStart(target("KT6-A"))),
        Ok(SessionRequest::Call(DeviceOperation::AppStart(_)))
    ));
    let refused = provider
        .perform(DeviceOperation::AppStop(target("KT6-A")))
        .unwrap_err();
    assert_eq!(refused.code, ErrorCode::FeatureUnavailable);
    assert!(matches!(
        refused.detail,
        ErrorDetail::Feature { serial, feature } if serial == "KT6-A" && feature == "app.stop.v1"
    ));
    assert_eq!(
        provider
            .perform(DeviceOperation::AppStart(target("missing")))
            .unwrap_err()
            .code,
        ErrorCode::DeviceNotFound
    );
    let install = DeviceOperation::AppInstall(
        AppInstallParams {
            serial: "KT6-A".to_owned(),
            bundle_path: "/tmp/a.kbb".to_owned(),
        },
        HostBundle::NotAbsolute,
    );
    assert_eq!(
        provider.perform(install).unwrap_err().code,
        ErrorCode::FeatureUnavailable
    );
    assert_eq!(
        provider.open_shell("KT6-A").unwrap_err().code,
        ErrorCode::FeatureUnavailable
    );
    assert_eq!(DeviceMethod::Shell.feature(), "shell.v2");
}

#[test]
fn answers_of_a_session_become_answers_for_clients() {
    assert!(matches!(
        session_answer(SessionAnswer::Pong),
        Ok(DeviceOperationResult::Ping(true))
    ));
    assert_eq!(
        session_answer(SessionAnswer::Unreadable).unwrap_err().code,
        ErrorCode::InternalError
    );
    assert_eq!(
        session_answer(SessionAnswer::Failed(LinkError::Io("reset".to_owned())))
            .unwrap_err()
            .message,
        "Device link is unavailable"
    );
    let remote = LinkError::Remote(RpcError::new(ErrorCode::AppNotFound, "App not found"));
    assert_eq!(link_rpc_error(remote).code, ErrorCode::AppNotFound);
}

#[test]
fn a_call_needs_a_final_data_frame_and_a_close() {
    let data = Header {
        command: Command::Data,
        stream_id: 5,
        sequence: 1,
        end_stream: true,
    };
    let close = Header {
        command: Command::Close,
        ..data
    };
    let result = || CallReply::Result("{}".to_owned());
    assert_eq!(finish_call(5, data, close, result()).unwrap(), "{}");
    let text = |data, close, reply| finish_call(5, data, close, reply).unwrap_err().to_text("");
    assert_eq!(
        text(close, close, result()),
        "unexpected command or stream identifier"
    );
    assert_eq!(
        text(data, data, result()),
        "unexpected command or stream identifier"
    );
    let unfinished = Header {
        end_stream: false,
        ..data
    };
    assert_eq!(
        text(unfinished, close, result()),
        "device reply did not end the stream"
    );
    assert!(expect_reply(unfinished, 5).is_err());
    assert_eq!(
        text(data, close, CallReply::Undecodable("eof".to_owned())),
        "invalid device reply payload: eof"
    );
    assert!(matches!(
        finish_call(
            5,
            data,
            close,
            CallReply::Error(RpcError::new(ErrorCode::InvalidState, "busy"))
        ),
        Err(LinkError::Remote(error)) if error.message == "busy"
    ));
}

#[test]
fn a_usb_handshake_is_tried_at_most_twice() {
    let timeout = || LinkError::Transport(ErrorClass::Timeout, "timed out".to_owned());
    after_usb_attempt(false, timeout()).unwrap();
    assert!(after_usb_attempt(true, timeout()).is_err());
    assert!(after_usb_attempt(false, LinkError::InvalidHello).is_err());
    assert!(after_usb_attempt(
        false,
        LinkError::Transport(ErrorClass::Other, "odd".to_owned())
    )
    .is_err());
    assert!(LinkError::unexpected("odd frame").allows_usb_handshake_recovery());
}

#[test]
fn link_failures_have_texts() {
    assert_eq!(
        LinkError::UsbRecoveryFailed {
            inbound_bytes: 1,
            inbound_timeouts: 2,
            outbound_bytes: 3,
            reason: "stuck".to_owned(),
        }
        .to_text(""),
        "USB recovery failed after draining 1 inbound bytes across 2 idle timeouts and writing 3 outbound bytes: stuck"
    );
    assert_eq!(
        LinkError::IncompatibleProtocol { device: 2, host: 3 }.to_text(""),
        "incompatible device protocol 2; host requires 3"
    );
    let refusal = RpcError::new(ErrorCode::InvalidState, "busy");
    assert_eq!(
        LinkError::Remote(refusal).to_text("RpcError { message: \"busy\" }"),
        "device call failed: RpcError { message: \"busy\" }"
    );
    let mut writer = CountingWriter::new("sink");
    writer.wrote(5);
    writer.wrote(7);
    assert_eq!(writer.bytes_written(), 12);
    assert_eq!(writer.into_inner(), "sink");
}

#[test]
fn a_bundle_is_uploaded_whole_before_it_is_installed() {
    let params = AppInstallParams {
        serial: "KT6-A".to_owned(),
        bundle_path: "/tmp/a.kbb".to_owned(),
    };
    let upload = BundleUpload::check(
        &params,
        UploadBundle::Verified {
            application: true,
            total_size: 9,
            file_hash: "d".to_owned(),
        },
    )
    .unwrap();
    assert_eq!(upload.push().remote_path, "packages/kbb/d.kbb");
    let pushed = |accepted_offset| SyncPushResult {
        transfer_id: "push-1".to_owned(),
        accepted_offset,
        state: TransferState::Complete,
    };
    assert_eq!(upload.install(&pushed(9)).unwrap().file_hash, "d");
    assert_eq!(
        upload.install(&pushed(8)).unwrap_err().message,
        "Bundle upload did not complete"
    );
    let refuse = |bundle| BundleUpload::check(&params, bundle).unwrap_err();
    assert_eq!(
        refuse(UploadBundle::NotAbsolute).code,
        ErrorCode::InvalidParams
    );
    assert_eq!(refuse(UploadBundle::NotAFile).code, ErrorCode::InvalidParams);
    assert_eq!(
        refuse(UploadBundle::Verified {
            application: false,
            total_size: 9,
            file_hash: "d".to_owned(),
        })
        .code,
        ErrorCode::AppInstallFailed
    );
    assert_eq!(
        refuse(UploadBundle::Rejected {
            reason: "Signature".to_owned(),
            detail: "bad".to_owned(),
        })
        .code,
        ErrorCode::AppInstallFailed
    );
}

#[test]
fn shell_packets_go_in_their_direction() {
    assert!(matches!(
        shell_send(&ShellPacket::CloseStdin, Ok(())),
        ShellSend::Send
    ));
    assert!(matches!(
        shell_send(&ShellPacket::Stdout(Vec::new()), Ok(())),
        ShellSend::Refused(error)
            if error.to_text() == "device provider failed: invalid host shell packet direction"
    ));
    assert!(matches!(
        shell_send(&ShellPacket::CloseStdin, Err("closed twice".to_owned())),
        ShellSend::Reset(reason, _) if reason == "closed twice"
    ));
    assert!(matches!(
        shell_receive(
            Command::Data,
            ShellPayload::Packet(ShellPacket::Stdout(b"x".to_vec())),
            b""
        ),
        Ok(DeviceShellEvent::Packet(ShellPacket::Stdout(_)))
    ));
    let failure = shell_receive(
        Command::Data,
        ShellPayload::Malformed("odd packet".to_owned()),
        b"",
    )
    .unwrap_err();
    assert_eq!(failure.reset.as_deref(), Some("odd packet"));
    let failure = shell_receive(
        Command::Reset,
        ShellPayload::Malformed(String::new()),
        b"quota\xff",
    )
    .unwrap_err();
    assert_eq!(failure.reset, None);
    assert_eq!(
        failure.error.to_text(),
        "device provider failed: device reset shell stream: quota\u{fffd}"
    );
    let failure = shell_receive(
        Command::Ping,
        ShellPayload::Malformed(String::new()),
        b"",
    )
    .unwrap_err();
    assert_eq!(
        failure.error.to_text(),
        "device provider failed: unexpected Ping on shell stream"
    );
}
