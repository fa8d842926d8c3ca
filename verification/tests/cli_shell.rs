use std::cell::RefCell;

use base64::engine::general_purpose::STANDARD as BASE64;
use base64::Engine;
use kindlebridge::cli::args::ShellArgs;
use kindlebridge::cli::error::RunError;
use kindlebridge::cli::rpc::{CallResult, Client, ClientError, RpcCall, RpcReply};
use kindlebridge::cli::shell::{
    check_open_reply, check_shell_arguments, input_closed, input_packets, input_source,
    require_shell, shell_exit_code, shell_open, terminal_step, InputCredit, InputSource, OpenReply,
    ShellMode, ShellSession, ShellStep, StreamCredit, StreamData, StreamEnd, StreamEvent,
    StreamExit, Taken, TerminalEvent, TerminalStep,
};
use kindlebridge::cli::terminal::{encode_key, parse_escape, EscapeFilter, Key, KeyCode};
use kindlebridge::client_runtime::{ShellOpenResult, StreamChannel};
use kindlebridge::device_session::ShellExit;
use kindlebridge::model::DeviceFeatures;

fn escape_filter_closes_only_for_line_leading_tilde_dot() {
    let mut filter = EscapeFilter::new(Some(b'~'));
    assert_eq!(filter.push(b"echo ~.\r").data, b"echo ~.\r");
    let first = filter.push(b"~");
    assert!(first.data.is_empty());
    assert!(!first.close);
    assert!(filter.push(b".").close);
}

#[test]
fn shell_escape_filter_closes_only_for_line_leading_tilde_dot() {
    escape_filter_closes_only_for_line_leading_tilde_dot();
}

#[test]
fn main_escape_filter_closes_only_for_line_leading_tilde_dot() {
    escape_filter_closes_only_for_line_leading_tilde_dot();
}

fn doubled_escape_sends_one_literal_escape() {
    let mut filter = EscapeFilter::new(Some(b'~'));
    let filtered = filter.push(b"~~hello");
    assert_eq!(filtered.data, b"~hello");
    assert!(!filtered.close);
}

#[test]
fn shell_doubled_escape_sends_one_literal_escape() {
    doubled_escape_sends_one_literal_escape();
}

#[test]
fn main_doubled_escape_sends_one_literal_escape() {
    doubled_escape_sends_one_literal_escape();
}

#[test]
fn disabled_escape_forwards_line_leading_tilde_dot() {
    let mut filter = EscapeFilter::new(None);
    let filtered = filter.push(b"~.\r");
    assert_eq!(filtered.data, b"~.\r");
    assert!(!filtered.close);
}

#[test]
fn input_can_be_typed_in_pieces() {
    let input = b"ls\r~xy\r~~z~.\n~";
    let mut whole = EscapeFilter::new(Some(b'~'));
    let expected = whole.push(input);
    for cut in 0..input.len() {
        let mut filter = EscapeFilter::new(Some(b'~'));
        let first = filter.push(&input[..cut]);
        let second = filter.push(&input[cut..]);
        assert_eq!([first.data, second.data].concat(), expected.data);
        assert_eq!(first.close || second.close, expected.close);
    }
}

#[test]
fn bytes_behind_the_closing_escape_are_dropped() {
    let mut filter = EscapeFilter::new(Some(b'~'));
    let filtered = filter.push(b"a\r~.rm -rf /");
    assert_eq!(filtered.data, b"a\r");
    assert!(filtered.close);
}

#[test]
fn escape_parser_accepts_one_ascii_byte_or_none() {
    assert_eq!(parse_escape("none").unwrap(), None);
    assert_eq!(parse_escape("NONE").unwrap(), None);
    assert_eq!(parse_escape("^").unwrap(), Some(b'^'));
    assert!(matches!(parse_escape("~~"), Err(RunError::Arguments(_))));
    assert!(matches!(parse_escape("λ"), Err(RunError::Arguments(_))));
    assert!(matches!(parse_escape(""), Err(RunError::Arguments(_))));
}

fn key(code: KeyCode) -> Key {
    Key {
        code,
        control: false,
        alt: false,
    }
}

#[test]
fn key_encoder_preserves_unicode_and_control_keys() {
    assert_eq!(encode_key(key(KeyCode::Char('你'))), "你".as_bytes());
    assert_eq!(
        encode_key(Key {
            control: true,
            ..key(KeyCode::Char('c'))
        }),
        b"\x03"
    );
    assert_eq!(encode_key(key(KeyCode::Up)), b"\x1b[A");
}

#[test]
fn every_key_has_its_console_sequence() {
    assert_eq!(
        encode_key(Key {
            alt: true,
            ..key(KeyCode::Char('x'))
        }),
        b"\x1bx"
    );
    assert_eq!(
        encode_key(Key {
            control: true,
            ..key(KeyCode::Char('?'))
        }),
        b"\x7f"
    );
    assert!(encode_key(Key {
        control: true,
        ..key(KeyCode::Char('é'))
    })
    .is_empty());
    let sequences: [(KeyCode, &[u8]); 16] = [
        (KeyCode::Enter, b"\r"),
        (KeyCode::Tab, b"\t"),
        (KeyCode::BackTab, b"\x1b[Z"),
        (KeyCode::Backspace, b"\x7f"),
        (KeyCode::Esc, b"\x1b"),
        (KeyCode::Down, b"\x1b[B"),
        (KeyCode::Right, b"\x1b[C"),
        (KeyCode::Left, b"\x1b[D"),
        (KeyCode::Home, b"\x1b[H"),
        (KeyCode::End, b"\x1b[F"),
        (KeyCode::Delete, b"\x1b[3~"),
        (KeyCode::Insert, b"\x1b[2~"),
        (KeyCode::PageUp, b"\x1b[5~"),
        (KeyCode::PageDown, b"\x1b[6~"),
        (KeyCode::Other, b""),
        (KeyCode::F(13), b""),
    ];
    for (code, bytes) in sequences {
        assert_eq!(encode_key(key(code)), bytes);
    }
    let functions: [&[u8]; 12] = [
        b"\x1bOP", b"\x1bOQ", b"\x1bOR", b"\x1bOS", b"\x1b[15~", b"\x1b[17~", b"\x1b[18~",
        b"\x1b[19~", b"\x1b[20~", b"\x1b[21~", b"\x1b[23~", b"\x1b[24~",
    ];
    for (index, bytes) in functions.iter().enumerate() {
        assert_eq!(encode_key(key(KeyCode::F(index as u8 + 1))), *bytes);
    }
}

fn input_credit_blocks_until_the_server_consumes_bytes() {
    let mut credit = InputCredit::new(4);
    assert_eq!(credit.take(4), Taken::Granted);
    assert_eq!(credit.take(1), Taken::Wait);
    credit.restore(1);
    assert_eq!(credit.take(1), Taken::Granted);
}

#[test]
fn shell_input_credit_blocks_until_the_server_consumes_bytes() {
    input_credit_blocks_until_the_server_consumes_bytes();
}

#[test]
fn main_input_credit_blocks_until_the_server_consumes_bytes() {
    input_credit_blocks_until_the_server_consumes_bytes();
}

fn stopping_input_credit_unblocks_a_waiting_reader() {
    let mut credit = InputCredit::new(0);
    assert_eq!(credit.take(1), Taken::Wait);
    credit.stop();
    assert_eq!(credit.take(1), Taken::Refused);
    assert_eq!(input_closed().to_text(), "shell input stream was closed");
}

#[test]
fn shell_stopping_input_credit_unblocks_a_waiting_reader() {
    stopping_input_credit_unblocks_a_waiting_reader();
}

#[test]
fn main_stopping_input_credit_unblocks_a_waiting_reader() {
    stopping_input_credit_unblocks_a_waiting_reader();
}

#[test]
fn input_credit_never_exceeds_its_beginning() {
    let mut credit = InputCredit::new(4);
    credit.restore(u32::MAX);
    assert_eq!(credit.take(5), Taken::Wait);
    assert_eq!(credit.take(4), Taken::Granted);
}

#[test]
fn input_packets_hold_the_input() {
    let data: Vec<u8> = (0..=255).collect();
    let packets = input_packets(&data, 100);
    let sizes: Vec<u32> = packets.iter().map(|packet| packet.bytes).collect();
    assert_eq!(sizes, [100, 100, 56]);
    let sent: Vec<u8> = packets
        .iter()
        .flat_map(|packet| BASE64.decode(&packet.data).unwrap())
        .collect();
    assert_eq!(sent, data);
    assert!(input_packets(&[], 100).is_empty());
}

fn args() -> ShellArgs {
    ShellArgs {
        serial: "KT6-TEST".to_owned(),
        command: None,
        tty: 0,
        no_tty: false,
        no_stdin: false,
        escape: "~".to_owned(),
        ndjson: false,
    }
}

#[test]
fn shell_arguments_are_checked_before_anything_is_sent() {
    assert_eq!(check_shell_arguments(&args(), false).unwrap(), Some(b'~'));
    assert_eq!(
        check_shell_arguments(&args(), true).unwrap_err().to_text(),
        "streaming shell does not support --json; use --ndjson or exec"
    );
    let odd = ShellArgs {
        escape: "ab".to_owned(),
        ..args()
    };
    assert_eq!(
        check_shell_arguments(&odd, false).unwrap_err().to_text(),
        "-e expects one ASCII character or 'none'"
    );
}

#[test]
fn a_shell_gets_a_terminal_when_it_is_typed_into_or_forced() {
    let open = |args: &ShellArgs, typed| shell_open(args, typed, Ok((0, 24))).unwrap().open;
    let typed = open(&args(), true);
    assert_eq!(typed.mode, ShellMode::Pty);
    assert_eq!(typed.argv, ["/bin/sh", "-l"]);
    let size = typed.terminal_size.unwrap();
    assert_eq!((size.rows, size.columns), (24, 1));
    assert_eq!(typed.cwd, "/tmp/root");
    assert_eq!(typed.term, "linux");

    let redirected = ShellArgs {
        command: Some("uname -a".to_owned()),
        tty: 1,
        ..args()
    };
    let raw = open(&redirected, false);
    assert_eq!(raw.mode, ShellMode::Raw);
    assert_eq!(raw.argv, ["/bin/sh", "-lc", "uname -a"]);
    assert!(raw.terminal_size.is_none());

    let forced = ShellArgs { tty: 2, ..args() };
    assert_eq!(open(&forced, false).mode, ShellMode::Pty);
    let refused = ShellArgs {
        no_tty: true,
        tty: 2,
        ..args()
    };
    assert_eq!(open(&refused, true).mode, ShellMode::Raw);
    assert_eq!(
        shell_open(&args(), true, Err("no terminal".to_owned()))
            .unwrap_err()
            .to_text(),
        "could not read terminal size: no terminal"
    );
    assert!(shell_open(&refused, true, Err("no terminal".to_owned())).is_ok());
}

type Send = Box<dyn Fn(RpcCall) -> Result<RpcReply, ClientError>>;

fn one_reply(reply: Result<RpcReply, ClientError>) -> Client<Send> {
    let reply = RefCell::new(Some(reply));
    let send: Send = Box::new(move |call| {
        assert!(matches!(call, RpcCall::DeviceFeatures(params) if params.serial == "KT6-TEST"));
        reply.borrow_mut().take().unwrap()
    });
    Client::new(send)
}

#[test]
fn a_device_must_offer_the_shell() {
    let offering = |features: &[&str]| {
        one_reply(Ok(RpcReply {
            pretty: String::new(),
            result: CallResult::Features(DeviceFeatures {
                serial: "KT6-TEST".to_owned(),
                protocol_version: 3,
                features: features.iter().map(|feature| feature.to_string()).collect(),
            }),
        }))
    };
    require_shell(&mut offering(&["exec.v1", "shell.v2"]), "KT6-TEST").unwrap();
    assert_eq!(
        require_shell(&mut offering(&["shell.v1"]), "KT6-TEST")
            .unwrap_err()
            .to_text(),
        "incompatible device daemon: shell.v2 is required; install the matching KindleBridge package"
    );
    let mut odd = one_reply(Ok(RpcReply {
        pretty: String::new(),
        result: CallResult::Unreadable,
    }));
    assert_eq!(
        require_shell(&mut odd, "KT6-TEST").unwrap_err().to_text(),
        "server returned invalid device features"
    );
    let mut gone = one_reply(Err(ClientError::Transport("closed".to_owned())));
    assert_eq!(
        require_shell(&mut gone, "KT6-TEST").unwrap_err().to_text(),
        "closed"
    );
}

fn opened() -> ShellOpenResult {
    ShellOpenResult {
        stream_id: "stream-a".to_owned(),
        send_credit: 4,
        receive_credit: 4,
    }
}

#[test]
fn each_answer_to_an_open_request_is_told() {
    assert_eq!(
        check_open_reply(OpenReply::Opened(opened())).unwrap().stream_id,
        "stream-a"
    );
    let refusal = |reply| check_open_reply(reply).unwrap_err().to_text();
    assert_eq!(
        refusal(OpenReply::Ended),
        "local server closed during shell open"
    );
    assert_eq!(refusal(OpenReply::NoResponse), "invalid shell open response");
    assert_eq!(refusal(OpenReply::NoResult), "invalid shell open result");
    assert_eq!(refusal(OpenReply::Refused("busy".to_owned())), "busy");
    assert_eq!(refusal(OpenReply::Unreadable("eof".to_owned())), "eof");
}

fn data(stream_id: &str, text: &str) -> StreamEvent {
    StreamEvent::Data(Some(StreamData {
        stream_id: stream_id.to_owned(),
        channel: StreamChannel::Stderr,
        data: text.to_owned(),
    }))
}

fn end(stream_id: &str, reason: Option<&str>) -> StreamEvent {
    StreamEvent::Closed(Some(StreamEnd {
        stream_id: stream_id.to_owned(),
        reason: reason.map(str::to_owned),
    }))
}

#[test]
fn a_shell_writes_its_output_and_exits_as_its_process_did() {
    let mut session = ShellSession::new(&opened(), false);
    match session.receive(data("stream-a", &BASE64.encode(b"err\0"))).unwrap() {
        ShellStep::Write { channel, data } => {
            assert_eq!(channel, StreamChannel::Stderr);
            assert_eq!(data, b"err\0");
        }
        other => panic!("unexpected {other:?}"),
    }
    assert!(matches!(
        session.receive(data("stream-b", "not base64!")),
        Ok(ShellStep::Nothing)
    ));
    assert!(matches!(
        session.receive(StreamEvent::Credit(Some(StreamCredit {
            stream_id: "stream-a".to_owned(),
            bytes: 3,
        }))),
        Ok(ShellStep::Restore(3))
    ));
    assert!(matches!(
        session.receive(StreamEvent::Exit(Some(StreamExit {
            stream_id: "stream-a".to_owned(),
            status: ShellExit {
                exit_code: 0,
                signal: 9,
            },
        }))),
        Ok(ShellStep::Nothing)
    ));
    assert!(matches!(
        session.receive(end("stream-b", None)),
        Ok(ShellStep::Nothing)
    ));
    assert!(matches!(
        session.receive(end("stream-a", Some("lost"))),
        Ok(ShellStep::Finished(137))
    ));
}

#[test]
fn a_shell_that_ends_without_an_exit_code_has_failed_unless_the_user_closed_it() {
    let mut session = ShellSession::new(&opened(), true);
    assert!(matches!(
        session.receive(data("stream-a", &BASE64.encode(b"out"))),
        Ok(ShellStep::Nothing)
    ));
    assert!(matches!(
        session.receive(end("stream-a", Some("closed by client"))),
        Ok(ShellStep::Finished(0))
    ));
    let failure = |event| {
        ShellSession::new(&opened(), false)
            .receive(event)
            .unwrap_err()
            .to_text()
    };
    assert_eq!(
        failure(end("stream-a", None)),
        "shell connection closed before an exit status was received"
    );
    assert_eq!(
        failure(data("stream-a", "not base64!")),
        "invalid base64 stream data"
    );
    assert_eq!(
        failure(StreamEvent::Ended),
        "local server closed the shell stream"
    );
    assert_eq!(failure(StreamEvent::Malformed), "invalid stream notification");
    assert_eq!(failure(StreamEvent::Data(None)), "invalid stream data event");
    assert_eq!(failure(StreamEvent::Exit(None)), "invalid stream exit event");
    assert_eq!(
        failure(StreamEvent::Closed(None)),
        "invalid stream closed event"
    );
    assert_eq!(
        failure(StreamEvent::Credit(None)),
        "invalid stream credit event"
    );
    assert_eq!(
        failure(StreamEvent::Unreadable("broken".to_owned())),
        "broken"
    );
}

#[test]
fn exit_codes_of_signals_count_from_128() {
    let code = |exit_code, signal| shell_exit_code(ShellExit { exit_code, signal });
    assert_eq!(code(37, 0), 37);
    assert_eq!(code(37, 15), 143);
    assert_eq!(code(0, i32::MAX as u32 - 128), i32::MAX);
    assert_eq!(code(0, i32::MAX as u32 - 127), 255);
    assert_eq!(code(0, u32::MAX), 255);
}

#[test]
fn terminal_events_become_input() {
    assert_eq!(input_source(true, ShellMode::Pty, true), InputSource::Closed);
    assert_eq!(
        input_source(false, ShellMode::Pty, true),
        InputSource::Terminal
    );
    assert_eq!(
        input_source(false, ShellMode::Pty, false),
        InputSource::Stream
    );
    assert_eq!(input_source(false, ShellMode::Raw, true), InputSource::Stream);

    let mut filter = EscapeFilter::new(Some(b'~'));
    match terminal_step(&mut filter, TerminalEvent::Key(key(KeyCode::Char('~')))) {
        TerminalStep::Send { data, close, .. } => {
            assert!(data.is_empty());
            assert!(!close);
        }
        other => panic!("unexpected {other:?}"),
    }
    match terminal_step(&mut filter, TerminalEvent::Paste(b".".to_vec())) {
        TerminalStep::Send {
            data,
            close,
            must_arrive,
        } => {
            assert!(data.is_empty());
            assert!(close);
            assert!(!must_arrive);
        }
        other => panic!("unexpected {other:?}"),
    }
    match terminal_step(&mut filter, TerminalEvent::Resize(80, 0)) {
        TerminalStep::Resize(size) => assert_eq!((size.columns, size.rows), (80, 1)),
        other => panic!("unexpected {other:?}"),
    }
    assert!(matches!(
        terminal_step(&mut filter, TerminalEvent::Other),
        TerminalStep::Nothing
    ));
}
