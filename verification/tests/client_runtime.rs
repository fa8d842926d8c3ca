use std::cell::{Cell, RefCell};
use std::rc::Rc;

use base64::engine::general_purpose::STANDARD as BASE64;
use base64::Engine;
use kindlebridge::client_runtime::{
    begin_sync, client_lost, client_route, shell_output, shell_params, sync_params, ClientRoute,
    ClientRuntime, Parsed, ReportStep, ShellOutput, StreamAction, StreamChannel,
    StreamNotification, SyncOpening, SyncReport,
};
use kindlebridge::device_session::{DeviceShellEvent, ShellExit, ShellPacket, TerminalSize};
use kindlebridge::host_rpc::RequestId;
use kindlebridge::methods::Method;
use kindlebridge::model::{SyncProgressPhase, TransferDirection};
use kindlebridge::provider::ProviderError;
use kindlebridge::rpc_error::ErrorCode;
use kindlebridge::sync_operation::{HostSyncOperation, SyncObserver};

type Hook = Rc<dyn Fn()>;

#[derive(Default)]
struct FakeShell {
    closed: Cell<bool>,
    sent: RefCell<Vec<ShellPacket>>,
}

type Observer = Rc<RefCell<SyncObserver<Hook>>>;

fn observer() -> Observer {
    Rc::new(RefCell::new(SyncObserver::new()))
}

fn cancel(observer: &Observer) {
    let hooks = observer.borrow_mut().cancel();
    for hook in hooks {
        hook();
    }
}

fn shut_down(runtime: &mut ClientRuntime<Rc<FakeShell>, Observer>) {
    let (shells, operations) = runtime.shutdown();
    for shell in shells {
        shell.closed.set(true);
    }
    for operation in operations {
        cancel(&operation);
    }
}

#[test]
fn client_runtime_shutdown_is_idempotent_and_clears_all_work() {
    let shell = Rc::new(FakeShell::default());
    let first = observer();
    let second = observer();
    let mut runtime = ClientRuntime::new(1024);
    runtime.track_shell("shell".to_owned(), Rc::clone(&shell));
    runtime.track_sync("first".to_owned(), Rc::clone(&first));
    runtime.track_sync("second".to_owned(), Rc::clone(&second));

    shut_down(&mut runtime);
    shut_down(&mut runtime);

    assert!(shell.closed.get());
    assert!(first.borrow().is_cancelled());
    assert!(second.borrow().is_cancelled());
    assert!(runtime.is_idle());
}

#[test]
fn dropping_client_runtime_closes_shells_and_cancels_sync_jobs() {
    let shell = Rc::new(FakeShell::default());
    let operation = observer();
    {
        let mut runtime = ClientRuntime::new(1024);
        runtime.track_shell("shell".to_owned(), Rc::clone(&shell));
        runtime.track_sync("sync".to_owned(), Rc::clone(&operation));
        shut_down(&mut runtime);
    }

    assert!(shell.closed.get());
    assert!(operation.borrow().is_cancelled());
}

fn hooks_run_once_and_late_hooks_run_immediately() {
    let mut operation: HostSyncOperation<Hook> = HostSyncOperation::new();
    let calls = Rc::new(Cell::new(0));
    let count = |calls: &Rc<Cell<u32>>| -> Hook {
        let calls = Rc::clone(calls);
        Rc::new(move || calls.set(calls.get() + 1))
    };
    if let Some(hook) = operation.on_cancel(count(&calls)) {
        hook();
    }
    assert_eq!(calls.get(), 0);

    for hook in operation.cancel() {
        hook();
    }
    for hook in operation.cancel() {
        hook();
    }
    if let Some(hook) = operation.on_cancel(count(&calls)) {
        hook();
    }

    assert_eq!(calls.get(), 2);
}

#[test]
fn lib_cancellation_hooks_run_once_and_late_hooks_run_immediately() {
    hooks_run_once_and_late_hooks_run_immediately();
}

#[test]
fn sync_operation_cancellation_hooks_run_once_and_late_hooks_run_immediately() {
    hooks_run_once_and_late_hooks_run_immediately();
}

#[test]
fn shell_input_notifications_return_credit_and_close_only_the_target_stream() {
    let shell = Rc::new(FakeShell::default());
    let mut runtime: ClientRuntime<Rc<FakeShell>, Observer> = ClientRuntime::new(1024);
    runtime.track_shell("stream-a".to_owned(), Rc::clone(&shell));
    let mut credits = Vec::new();
    let mut closed = Vec::new();

    let notifications = vec![
        StreamNotification::Write {
            stream_id: "stream-a".to_owned(),
            data: BASE64.encode(b"input\0"),
        },
        StreamNotification::Resize {
            stream_id: "stream-a".to_owned(),
            size: TerminalSize {
                rows: 41,
                columns: 119,
                pixel_width: 0,
                pixel_height: 0,
            },
        },
        StreamNotification::CloseInput {
            stream_id: "stream-a".to_owned(),
        },
        StreamNotification::Close {
            stream_id: "stream-a".to_owned(),
        },
    ];
    for notification in notifications {
        match runtime.handle_stream_notification(notification) {
            StreamAction::Ignore => panic!("every notification is for the stream"),
            StreamAction::Write {
                stream_id,
                packet,
                credit,
            } => {
                assert_eq!(stream_id, "stream-a");
                shell.sent.borrow_mut().push(packet);
                credits.push(credit);
            }
            StreamAction::Send { stream_id, packet } => {
                assert_eq!(stream_id, "stream-a");
                shell.sent.borrow_mut().push(packet);
            }
            StreamAction::Close {
                shell,
                closed: ended,
            } => {
                shell.closed.set(true);
                closed.push(ended);
            }
        }
    }

    assert_eq!(
        *shell.sent.borrow(),
        [
            ShellPacket::Stdin(b"input\0".to_vec()),
            ShellPacket::Resize(TerminalSize {
                rows: 41,
                columns: 119,
                pixel_width: 0,
                pixel_height: 0,
            }),
            ShellPacket::CloseStdin,
        ]
    );
    assert_eq!(credits, [6]);
    assert!(runtime.is_idle());
    assert!(shell.closed.get());
    assert_eq!(closed.len(), 1);
    assert_eq!(closed[0].stream_id, "stream-a");
    assert_eq!(closed[0].reason.as_deref(), Some("closed by client"));
}

#[test]
fn notifications_that_cannot_be_served_are_ignored() {
    let mut runtime: ClientRuntime<Rc<FakeShell>, Observer> = ClientRuntime::new(4);
    runtime.track_shell("stream-a".to_owned(), Rc::new(FakeShell::default()));
    for notification in [
        StreamNotification::Malformed,
        StreamNotification::Close {
            stream_id: "stream-b".to_owned(),
        },
        StreamNotification::Write {
            stream_id: "stream-a".to_owned(),
            data: "not base64!".to_owned(),
        },
        StreamNotification::Write {
            stream_id: "stream-a".to_owned(),
            data: BASE64.encode(b"too large"),
        },
    ] {
        assert!(matches!(
            runtime.handle_stream_notification(notification),
            StreamAction::Ignore
        ));
    }
    assert!(!runtime.is_idle());
}

#[test]
fn at_most_four_transfers_are_open_at_once() {
    let mut runtime: ClientRuntime<Rc<FakeShell>, u8> = ClientRuntime::new(1024);
    let mut identifiers = Vec::new();
    for number in 0..4 {
        match runtime.open_sync(Some(RequestId::Number(number)), number as u8) {
            SyncOpening::Started(RequestId::Number(answered), identifier) => {
                assert_eq!(answered, number);
                assert_eq!(identifier.len(), 32);
                identifiers.push(identifier);
            }
            other => panic!("unexpected {other:?}"),
        }
    }
    match runtime.open_sync(Some(RequestId::Number(9)), 9) {
        SyncOpening::Refused(RequestId::Number(9), error) => {
            assert_eq!(error.code, ErrorCode::InvalidState);
            assert_eq!(
                error.message,
                "Too many active sync operations for this client"
            );
        }
        other => panic!("unexpected {other:?}"),
    }
    assert_eq!(runtime.sync_to_cancel(&identifiers[2]), Some(&2));
    runtime.finish_sync(&identifiers[2]);
    assert_eq!(runtime.sync_to_cancel(&identifiers[2]), None);
    assert!(matches!(
        runtime.open_sync(Some(RequestId::Number(10)), 10),
        SyncOpening::Started(..)
    ));
    assert!(matches!(runtime.open_sync(None, 11), SyncOpening::Ignored));
}

#[test]
fn shell_open_streams_data_exit_and_close_notifications() {
    let mut runtime: ClientRuntime<Rc<FakeShell>, Observer> = ClientRuntime::new(1024);
    let opened = runtime.open_shell(Rc::new(FakeShell::default())).unwrap();
    assert_eq!(opened.stream_id.len(), 32);
    assert_eq!(opened.send_credit, 256 * 1024);
    assert_eq!(opened.receive_credit, 256 * 1024);

    match shell_output(Ok(DeviceShellEvent::Packet(ShellPacket::Stdout(
        b"out\0".to_vec(),
    )))) {
        ShellOutput::Data { channel, data } => {
            assert_eq!(channel, StreamChannel::Stdout);
            assert_eq!(data, BASE64.encode(b"out\0"));
        }
        other => panic!("unexpected {other:?}"),
    }
    match shell_output(Ok(DeviceShellEvent::Packet(ShellPacket::Stderr(
        b"err\0".to_vec(),
    )))) {
        ShellOutput::Data { channel, data } => {
            assert_eq!(channel, StreamChannel::Stderr);
            assert_eq!(data, BASE64.encode(b"err\0"));
        }
        other => panic!("unexpected {other:?}"),
    }
    match shell_output(Ok(DeviceShellEvent::Packet(ShellPacket::Exit(ShellExit {
        exit_code: 37,
        signal: 0,
    })))) {
        ShellOutput::Exit(status) => assert_eq!(status.exit_code, 37),
        other => panic!("unexpected {other:?}"),
    }
    match shell_output(Ok(DeviceShellEvent::Closed)) {
        ShellOutput::End(reason) => assert_eq!(reason, None),
        other => panic!("unexpected {other:?}"),
    }
    let closed = runtime
        .finish_stream(opened.stream_id.clone(), None)
        .unwrap();
    assert_eq!(closed.stream_id, opened.stream_id);
    assert_eq!(closed.reason, None);
    assert!(runtime.is_idle());
}

#[test]
fn a_failing_shell_ends_its_stream_with_the_reason() {
    match shell_output(Err(ProviderError::new("cable pulled"))) {
        ShellOutput::End(reason) => assert_eq!(
            reason.as_deref(),
            Some("device provider failed: cable pulled")
        ),
        other => panic!("unexpected {other:?}"),
    }
    match shell_output(Ok(DeviceShellEvent::Packet(ShellPacket::CloseStdin))) {
        ShellOutput::End(reason) => {
            assert_eq!(reason.as_deref(), Some("invalid device shell packet"))
        }
        other => panic!("unexpected {other:?}"),
    }
}

#[test]
fn streaming_methods_have_routes_of_their_own() {
    assert!(matches!(
        client_route(Method::ShellOpen.name()),
        ClientRoute::ShellOpen
    ));
    assert!(shell_params::<u8>(Parsed::Absent).is_err());
    assert!(shell_params::<u8>(Parsed::Malformed).is_err());
    assert_eq!(shell_params(Parsed::Value(7)).unwrap(), 7);
    assert!(sync_params::<u8>(TransferDirection::Push, Parsed::Malformed).is_err());
    assert_eq!(
        sync_params(TransferDirection::Pull, Parsed::Value(7)).unwrap(),
        7
    );
}

#[test]
fn sync_stream_emits_progress_before_its_final_response() {
    let mut operation: HostSyncOperation<Hook> = HostSyncOperation::new();
    begin_sync(&mut operation, TransferDirection::Push, 16);
    let mut report = SyncReport::new(
        "operation-1".to_owned(),
        TransferDirection::Push,
        "progress.bin".to_owned(),
    );
    let first = report.progress(&operation);
    assert_eq!(first.operation_id, "operation-1");
    assert_eq!(first.phase, SyncProgressPhase::Hashing);
    assert_eq!((first.transferred, first.total), (0, 16));
    assert!(matches!(
        report.sent(true, &mut operation),
        ReportStep::Wait(100)
    ));
    let step: ReportStep<Hook> = report.waited(false);
    assert!(matches!(step, ReportStep::Report));
    assert!(matches!(
        report.sent(true, &mut operation),
        ReportStep::Wait(100)
    ));
    operation.phase(SyncProgressPhase::Transferring, 16, 16);
    let step: ReportStep<Hook> = report.waited(true);
    assert!(matches!(step, ReportStep::Report));
    assert_eq!(report.progress(&operation).transferred, 16);
    assert!(matches!(
        report.sent(false, &mut operation),
        ReportStep::Respond
    ));
    assert!(!operation.is_cancelled());
}

#[test]
fn a_transfer_is_cancelled_when_its_client_is_gone() {
    let mut operation: HostSyncOperation<Hook> = HostSyncOperation::new();
    let calls = Rc::new(Cell::new(0));
    let counted = Rc::clone(&calls);
    assert!(operation
        .on_cancel(Rc::new(move || counted.set(counted.get() + 1)))
        .is_none());
    let mut report = SyncReport::new(
        "operation-1".to_owned(),
        TransferDirection::Pull,
        "progress.bin".to_owned(),
    );
    match report.sent(false, &mut operation) {
        ReportStep::Cancel(hooks) => {
            for hook in hooks {
                hook();
            }
        }
        _ => panic!("expected a cancellation"),
    }
    assert_eq!(calls.get(), 1);
    assert!(operation.is_cancelled());
    let step: ReportStep<Hook> = report.waited(false);
    assert!(matches!(step, ReportStep::Wait(100)));
    assert_eq!(client_lost(), "client connection was lost");
}

#[test]
fn an_open_stream_can_be_found() {
    let mut runtime: ClientRuntime<u8, u8> = ClientRuntime::new(1024);
    runtime.track_shell("stream-a".to_owned(), 5);
    assert_eq!(runtime.find_stream(&"stream-a".to_owned()), Some(&5));
    assert_eq!(runtime.find_stream(&"stream-b".to_owned()), None);
}
