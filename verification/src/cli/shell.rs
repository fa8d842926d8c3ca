//! The interactive shell.

use crate::cli::args::ShellArgs;
use crate::cli::error::{RunError, RunErrorView};
use crate::cli::execute::asked;
use crate::cli::rpc;
use crate::cli::rpc::{
    CallResult, CallResultView, ClientErrorView, RpcCall, RpcCallView, RpcCaller, RpcReplyView,
};
use crate::cli::terminal;
use crate::cli::terminal::{encode_key, parse_escape, EscapeFilter, EscapeFilterView, Key};
use crate::client_runtime::{ShellOpenResult, StreamChannel};
use crate::codec;
use crate::codec::{decode_base64, encode_base64};
use crate::device_session::{ShellExit, TerminalSize};
use crate::model::{SerialParams, SerialParamsView};
use crate::provider::has_text;
use crate::text;
use crate::text::{concat, same_text};
use vstd::prelude::*;

verus! {

/// Whether a shell has a terminal.
#[derive(Clone, Copy, Debug, PartialEq, Eq, Structural)]
pub enum ShellMode {
    Pty,
    Raw,
}

/// The shell that the user asks for.
#[derive(Debug)]
pub struct ShellOpen {
    pub mode: ShellMode,
    pub argv: Vec<String>,
    pub terminal_size: Option<TerminalSize>,
    pub cwd: String,
    pub term: String,
}

/// The request to open a shell.
#[derive(Debug)]
pub struct ShellOpenParams {
    pub serial: String,
    pub open: ShellOpen,
}

/// The escape character of a shell, where the arguments fit together.
pub open spec fn shell_setting(escape: Seq<char>, json: bool) -> Result<Option<u8>, RunErrorView> {
    if json {
        Err(
            RunErrorView::Arguments(
                "streaming shell does not support --json; use --ndjson or exec"@,
            ),
        )
    } else {
        match terminal::escape_of(escape) {
            Some(escape) => Ok(escape),
            None => Err(RunErrorView::Arguments("-e expects one ASCII character or 'none'"@)),
        }
    }
}

/// Checks the arguments of a shell before anything is sent.
pub fn check_shell_arguments(args: &ShellArgs, json_output: bool) -> (result: Result<
    Option<u8>,
    RunError,
>)
    ensures
        match shell_setting(args.escape@, json_output) {
            Ok(escape) => result == Ok::<_, RunError>(escape),
            Err(refusal) => result matches Err(error) && error@ == refusal,
        },
{
    if json_output {
        return Err(
            RunError::Arguments(
                "streaming shell does not support --json; use --ndjson or exec".to_owned(),
            ),
        );
    }
    parse_escape(args.escape.as_str())
}

/// Why a device has no shell, if it has none, by the answer to a question for what
/// it offers.
pub open spec fn shell_refusal(reply: Result<RpcReplyView, ClientErrorView>) -> Option<
    RunErrorView,
> {
    match reply {
        Err(error) => Some(RunErrorView::Message(rpc::client_message(error))),
        Ok(answer) => match answer.result {
            CallResultView::Features(features) => if features.features.contains("shell.v2"@) {
                None
            } else {
                Some(
                    RunErrorView::Message(
                        "incompatible device daemon: shell.v2 is required; install the matching KindleBridge package"@,
                    ),
                )
            },
            _ => Some(RunErrorView::Message("server returned invalid device features"@)),
        },
    }
}

/// Asks a device whether it offers the shell.
pub fn require_shell<C: RpcCaller>(caller: &mut C, serial: &str) -> (result: Result<(), RunError>)
    ensures
        exists|reply: Result<RpcReplyView, ClientErrorView>| #[trigger]
            asked(
                old(caller).exchanges(),
                final(caller).exchanges(),
                RpcCallView::DeviceFeatures(SerialParamsView { serial: serial@ }),
                reply,
            ) && match shell_refusal(reply) {
                Some(refusal) => result matches Err(error) && error@ == refusal,
                None => result is Ok,
            },
{
    let reply = caller.call(
        RpcCall::DeviceFeatures(SerialParams { serial: serial.to_owned() }),
    );
    let ghost view = rpc::reply_view(reply);
    assert(asked(
        old(caller).exchanges(),
        caller.exchanges(),
        RpcCallView::DeviceFeatures(SerialParamsView { serial: serial@ }),
        view,
    ));
    match reply {
        Err(error) => Err(RunError::Message(error.to_text())),
        Ok(answer) => match answer.result {
            CallResult::Features(features) => {
                if has_text(&features.features, "shell.v2") {
                    Ok(())
                } else {
                    Err(
                        RunError::Message(
                            "incompatible device daemon: shell.v2 is required; install the matching KindleBridge package".to_owned(),
                        ),
                    )
                }
            },
            _ => Err(RunError::Message("server returned invalid device features".to_owned())),
        },
    }
}

/// Whether a shell gets a terminal: one that is typed into does unless the user
/// says otherwise, and the user can force one.
pub open spec fn has_terminal(no_tty: bool, tty: u8, stdin_is_terminal: bool) -> bool {
    !no_tty && (stdin_is_terminal || tty >= 2)
}

/// The command of a shell.
pub open spec fn shell_argv(command: Option<Seq<char>>) -> Seq<Seq<char>> {
    match command {
        Some(command) => seq!["/bin/sh"@, "-lc"@, command],
        None => seq!["/bin/sh"@, "-l"@],
    }
}

/// A terminal of this many columns and rows, and at least one of each.
pub open spec fn terminal_of(columns: u16, rows: u16) -> TerminalSize {
    TerminalSize {
        rows: if rows < 1 {
            1
        } else {
            rows
        },
        columns: if columns < 1 {
            1
        } else {
            columns
        },
        pixel_width: 0,
        pixel_height: 0,
    }
}

/// The size of a terminal of this many columns and rows.
pub fn terminal_size(columns: u16, rows: u16) -> (size: TerminalSize)
    ensures
        size == terminal_of(columns, rows),
{
    TerminalSize {
        rows: if rows < 1 {
            1
        } else {
            rows
        },
        columns: if columns < 1 {
            1
        } else {
            columns
        },
        pixel_width: 0,
        pixel_height: 0,
    }
}

/// Whether this is the shell that the user asks for.
pub open spec fn is_shell_open(
    args: ShellArgs,
    stdin_is_terminal: bool,
    local_size: Result<(u16, u16), String>,
    result: Result<ShellOpenParams, RunError>,
) -> bool {
    let pty = has_terminal(args.no_tty, args.tty, stdin_is_terminal);
    match (pty, local_size) {
        (true, Err(message)) => result matches Err(error) && error@ == RunErrorView::Message(
            "could not read terminal size: "@ + message@,
        ),
        _ => {
            &&& result matches Ok(params)
            &&& result->Ok_0.serial@ == args.serial@
            &&& result->Ok_0.open.mode == if pty {
                ShellMode::Pty
            } else {
                ShellMode::Raw
            }
            &&& text::all(result->Ok_0.open.argv@) == shell_argv(text::optional(args.command))
            &&& result->Ok_0.open.terminal_size == if pty {
                Some(terminal_of(local_size->Ok_0.0, local_size->Ok_0.1))
            } else {
                None
            }
            &&& result->Ok_0.open.cwd@ == "/tmp/root"@
            &&& result->Ok_0.open.term@ == "linux"@
        },
    }
}

/// The shell that the user asks for. The size of the local terminal, in columns and
/// rows, matters where the shell has one.
pub fn shell_open(
    args: &ShellArgs,
    stdin_is_terminal: bool,
    local_size: Result<(u16, u16), String>,
) -> (result: Result<ShellOpenParams, RunError>)
    ensures
        is_shell_open(*args, stdin_is_terminal, local_size, result),
{
    let pty = !args.no_tty && (stdin_is_terminal || args.tty >= 2);
    let size = if pty {
        match local_size {
            Ok((columns, rows)) => Some(terminal_size(columns, rows)),
            Err(message) => {
                return Err(
                    RunError::Message(concat("could not read terminal size: ", message.as_str())),
                );
            },
        }
    } else {
        None
    };
    let mut argv: Vec<String> = Vec::new();
    argv.push("/bin/sh".to_owned());
    match &args.command {
        Some(command) => {
            argv.push("-lc".to_owned());
            argv.push(command.clone());
        },
        None => {
            argv.push("-l".to_owned());
        },
    }
    assert(text::all(argv@) =~= shell_argv(text::optional(args.command)));
    let mode = if pty {
        ShellMode::Pty
    } else {
        ShellMode::Raw
    };
    Ok(
        ShellOpenParams {
            serial: args.serial.clone(),
            open: ShellOpen {
                mode,
                argv,
                terminal_size: size,
                cwd: "/tmp/root".to_owned(),
                term: "linux".to_owned(),
            },
        },
    )
}

/// The answer to the request to open a shell.
#[derive(Debug)]
pub enum OpenReply {
    /// It could not be read.
    Unreadable(String),
    /// There was none.
    Ended,
    /// It is no answer.
    NoResponse,
    /// It is an error.
    Refused(String),
    /// It is a result of another shape.
    NoResult,
    Opened(ShellOpenResult),
}

/// Takes the answer to the request to open a shell.
pub fn check_open_reply(reply: OpenReply) -> (result: Result<ShellOpenResult, RunError>)
    ensures
        match reply {
            OpenReply::Opened(opened) => result == Ok::<_, RunError>(opened),
            _ => result matches Err(error) && error@ == RunErrorView::Message(
                match reply {
                    OpenReply::Unreadable(message) => message@,
                    OpenReply::Ended => "local server closed during shell open"@,
                    OpenReply::NoResponse => "invalid shell open response"@,
                    OpenReply::Refused(message) => message@,
                    _ => "invalid shell open result"@,
                },
            ),
        },
{
    match reply {
        OpenReply::Opened(opened) => Ok(opened),
        OpenReply::Unreadable(message) => Err(RunError::Message(message)),
        OpenReply::Ended => Err(
            RunError::Message("local server closed during shell open".to_owned()),
        ),
        OpenReply::NoResponse => Err(RunError::Message("invalid shell open response".to_owned())),
        OpenReply::Refused(message) => Err(RunError::Message(message)),
        OpenReply::NoResult => Err(RunError::Message("invalid shell open result".to_owned())),
    }
}

/// What the server says of the streams. What is absent could not be read.
#[derive(Debug)]
pub enum StreamEvent {
    /// The connection failed.
    Unreadable(String),
    /// The connection ended.
    Ended,
    /// It is no notification.
    Malformed,
    Data(Option<StreamData>),
    Exit(Option<StreamExit>),
    Closed(Option<StreamEnd>),
    Credit(Option<StreamCredit>),
    /// It is about something else.
    Other,
}

/// Output of a shell, in base64.
#[derive(Debug)]
pub struct StreamData {
    pub stream_id: String,
    pub channel: StreamChannel,
    pub data: String,
}

/// How the process of a shell ended.
#[derive(Debug)]
pub struct StreamExit {
    pub stream_id: String,
    pub status: ShellExit,
}

/// Why a stream ended.
#[derive(Debug)]
pub struct StreamEnd {
    pub stream_id: String,
    pub reason: Option<String>,
}

/// Input that the server has taken.
#[derive(Debug)]
pub struct StreamCredit {
    pub stream_id: String,
    pub bytes: u32,
}

/// What an event calls for.
#[derive(Debug)]
pub enum ShellStep {
    Nothing,
    /// Bytes are written to this local stream.
    Write { channel: StreamChannel, data: Vec<u8> },
    /// So many bytes more may be sent.
    Restore(u32),
    /// The shell is over, with this exit code.
    Finished(i32),
}

/// The exit code that the end of a process stands for: a signal counts from 128.
pub open spec fn exit_code_of(status: ShellExit) -> i32 {
    if status.signal == 0 {
        status.exit_code
    } else if status.signal <= i32::MAX - 128 {
        (128 + status.signal) as i32
    } else {
        255
    }
}

/// The exit code that the end of a process stands for.
pub fn shell_exit_code(status: ShellExit) -> (code: i32)
    ensures
        code == exit_code_of(status),
{
    if status.signal == 0 {
        status.exit_code
    } else {
        let code: u32 = 128u32.saturating_add(status.signal);
        if code <= 0x7fff_ffff {
            code as i32
        } else {
            255
        }
    }
}

/// A shell that is open.
#[derive(Debug)]
pub struct ShellSession {
    stream_id: String,
    ndjson: bool,
    exit_status: Option<i32>,
}

/// The model of [`ShellSession`].
#[verifier::ext_equal]
pub struct ShellSessionView {
    pub stream_id: Seq<char>,
    /// Whether events are printed as they are, and output is not written.
    pub ndjson: bool,
    /// The exit code of the process, once it has ended.
    pub exit_status: Option<i32>,
}

impl View for ShellSession {
    type V = ShellSessionView;

    closed spec fn view(&self) -> ShellSessionView {
        ShellSessionView {
            stream_id: self.stream_id@,
            ndjson: self.ndjson,
            exit_status: self.exit_status,
        }
    }
}

/// How a shell ends when its stream is closed for a reason. A shell whose exit code
/// is not known has failed, unless the user closed it.
pub open spec fn shell_end(exit_status: Option<i32>, reason: Option<Seq<char>>) -> Result<
    i32,
    RunErrorView,
> {
    match exit_status {
        Some(code) => Ok(code),
        None => if reason == Some("closed by client"@) {
            Ok(0)
        } else {
            Err(
                RunErrorView::Message(
                    "shell connection closed before an exit status was received"@,
                ),
            )
        },
    }
}

/// The failure that an event comes to, if it does.
pub open spec fn event_failure(session: ShellSessionView, event: StreamEvent) -> Option<
    RunErrorView,
> {
    match event {
        StreamEvent::Unreadable(message) => Some(RunErrorView::Message(message@)),
        StreamEvent::Ended => Some(RunErrorView::Message("local server closed the shell stream"@)),
        StreamEvent::Malformed => Some(RunErrorView::Message("invalid stream notification"@)),
        StreamEvent::Data(None) => Some(RunErrorView::Message("invalid stream data event"@)),
        StreamEvent::Data(Some(data)) => if data.stream_id@ == session.stream_id
            && codec::base64_bytes(data.data@) is None {
            Some(RunErrorView::Message("invalid base64 stream data"@))
        } else {
            None
        },
        StreamEvent::Exit(None) => Some(RunErrorView::Message("invalid stream exit event"@)),
        StreamEvent::Closed(None) => Some(RunErrorView::Message("invalid stream closed event"@)),
        StreamEvent::Closed(Some(end)) => if end.stream_id@ == session.stream_id {
            match shell_end(session.exit_status, text::optional(end.reason)) {
                Ok(_) => None,
                Err(error) => Some(error),
            }
        } else {
            None
        },
        StreamEvent::Credit(None) => Some(RunErrorView::Message("invalid stream credit event"@)),
        _ => None,
    }
}

/// Whether a step is what an event calls for.
pub open spec fn is_step(session: ShellSessionView, event: StreamEvent, step: ShellStep) -> bool {
    match event {
        StreamEvent::Data(Some(data)) => if data.stream_id@ == session.stream_id
            && !session.ndjson {
            step matches ShellStep::Write { channel, data: bytes } && channel == data.channel
                && codec::base64_bytes(data.data@) == Some(bytes@)
        } else {
            step is Nothing
        },
        StreamEvent::Closed(Some(end)) => if end.stream_id@ == session.stream_id {
            step matches ShellStep::Finished(code) && shell_end(
                session.exit_status,
                text::optional(end.reason),
            ) == Ok::<_, RunErrorView>(code)
        } else {
            step is Nothing
        },
        StreamEvent::Credit(Some(credit)) => if credit.stream_id@ == session.stream_id {
            step == ShellStep::Restore(credit.bytes)
        } else {
            step is Nothing
        },
        _ => step is Nothing,
    }
}

/// The session after an event: it keeps how its process ended.
pub open spec fn session_after(session: ShellSessionView, event: StreamEvent) -> ShellSessionView {
    match event {
        StreamEvent::Exit(Some(exit)) => if exit.stream_id@ == session.stream_id {
            ShellSessionView { exit_status: Some(exit_code_of(exit.status)), ..session }
        } else {
            session
        },
        _ => session,
    }
}

fn failure<T>(message: &str) -> (result: Result<T, RunError>)
    ensures
        result matches Err(error) && error@ == RunErrorView::Message(message@),
{
    Err(RunError::Message(message.to_owned()))
}

impl ShellSession {
    /// A shell that has just been opened.
    pub fn new(opened: &ShellOpenResult, ndjson: bool) -> (session: Self)
        ensures
            session@ == (ShellSessionView {
                stream_id: opened.stream_id@,
                ndjson,
                exit_status: None,
            }),
    {
        ShellSession { stream_id: opened.stream_id.clone(), ndjson, exit_status: None }
    }

    /// Takes an event.
    pub fn receive(&mut self, event: StreamEvent) -> (result: Result<ShellStep, RunError>)
        ensures
            final(self)@ == session_after(old(self)@, event),
            match event_failure(old(self)@, event) {
                Some(failure) => result matches Err(error) && error@ == failure,
                None => result matches Ok(step) && is_step(old(self)@, event, step),
            },
    {
        match event {
            StreamEvent::Unreadable(message) => Err(RunError::Message(message)),
            StreamEvent::Ended => failure("local server closed the shell stream"),
            StreamEvent::Malformed => failure("invalid stream notification"),
            StreamEvent::Data(None) => failure("invalid stream data event"),
            StreamEvent::Data(Some(data)) => {
                if !same_text(data.stream_id.as_str(), self.stream_id.as_str()) {
                    return Ok(ShellStep::Nothing);
                }
                match decode_base64(data.data.as_str()) {
                    Err(_) => failure("invalid base64 stream data"),
                    Ok(bytes) => {
                        if self.ndjson {
                            Ok(ShellStep::Nothing)
                        } else {
                            Ok(ShellStep::Write { channel: data.channel, data: bytes })
                        }
                    },
                }
            },
            StreamEvent::Exit(None) => failure("invalid stream exit event"),
            StreamEvent::Exit(Some(exit)) => {
                if same_text(exit.stream_id.as_str(), self.stream_id.as_str()) {
                    self.exit_status = Some(shell_exit_code(exit.status));
                }
                Ok(ShellStep::Nothing)
            },
            StreamEvent::Closed(None) => failure("invalid stream closed event"),
            StreamEvent::Closed(Some(end)) => {
                if !same_text(end.stream_id.as_str(), self.stream_id.as_str()) {
                    return Ok(ShellStep::Nothing);
                }
                if let Some(code) = self.exit_status {
                    return Ok(ShellStep::Finished(code));
                }
                match end.reason {
                    Some(reason) => {
                        if same_text(reason.as_str(), "closed by client") {
                            Ok(ShellStep::Finished(0))
                        } else {
                            failure("shell connection closed before an exit status was received")
                        }
                    },
                    None => failure("shell connection closed before an exit status was received"),
                }
            },
            StreamEvent::Credit(None) => failure("invalid stream credit event"),
            StreamEvent::Credit(Some(credit)) => {
                if same_text(credit.stream_id.as_str(), self.stream_id.as_str()) {
                    Ok(ShellStep::Restore(credit.bytes))
                } else {
                    Ok(ShellStep::Nothing)
                }
            },
            StreamEvent::Other => Ok(ShellStep::Nothing),
        }
    }
}

/// How the input of a shell is read.
#[derive(Clone, Copy, Debug, PartialEq, Eq, Structural)]
pub enum InputSource {
    /// Not at all: it is closed at once.
    Closed,
    /// Key by key, from the terminal.
    Terminal,
    /// Byte by byte, until it ends; then it is closed.
    Stream,
}

/// Decides how the input of a shell is read.
pub fn input_source(no_stdin: bool, mode: ShellMode, stdin_is_terminal: bool) -> (source:
    InputSource)
    ensures
        source == (if no_stdin {
            InputSource::Closed
        } else if mode == ShellMode::Pty && stdin_is_terminal {
            InputSource::Terminal
        } else {
            InputSource::Stream
        }),
{
    if no_stdin {
        InputSource::Closed
    } else if mode == ShellMode::Pty && stdin_is_terminal {
        InputSource::Terminal
    } else {
        InputSource::Stream
    }
}

/// What happens at the local terminal.
#[derive(Debug)]
pub enum TerminalEvent {
    /// A key is pressed, or repeats.
    Key(Key),
    /// Bytes are pasted.
    Paste(Vec<u8>),
    /// The terminal has so many columns and rows now.
    Resize(u16, u16),
    Other,
}

/// What an event at the local terminal calls for.
#[derive(Debug)]
pub enum TerminalStep {
    Nothing,
    /// The bytes are sent where there are any, and then the shell is closed where it
    /// is to be. Where the bytes must arrive, a failure to send them ends the input.
    Send { data: Vec<u8>, close: bool, must_arrive: bool },
    /// The device is told the size of the terminal.
    Resize(TerminalSize),
}

/// Whether a step is what an event at the local terminal calls for.
pub open spec fn is_terminal_step(
    before: EscapeFilterView,
    event: TerminalEvent,
    after: EscapeFilterView,
    step: TerminalStep,
) -> bool {
    match event {
        TerminalEvent::Key(key) => {
            let (sent, closes, left) = terminal::filter_bytes(before, terminal::key_bytes(key));
            &&& after == left
            &&& step matches TerminalStep::Send { data, close, must_arrive } && data@ == sent
                && close == closes && must_arrive
        },
        TerminalEvent::Paste(pasted) => {
            let (sent, closes, left) = terminal::filter_bytes(before, pasted@);
            &&& after == left
            &&& step matches TerminalStep::Send { data, close, must_arrive } && data@ == sent
                && close == closes && !must_arrive
        },
        TerminalEvent::Resize(columns, rows) => {
            &&& after == before
            &&& step == TerminalStep::Resize(terminal_of(columns, rows))
        },
        TerminalEvent::Other => after == before && step is Nothing,
    }
}

/// Decides what an event at the local terminal calls for.
pub fn terminal_step(filter: &mut EscapeFilter, event: TerminalEvent) -> (step: TerminalStep)
    ensures
        is_terminal_step(old(filter)@, event, final(filter)@, step),
{
    match event {
        TerminalEvent::Key(key) => {
            let bytes = encode_key(key);
            let filtered = filter.push(bytes.as_slice());
            TerminalStep::Send { data: filtered.data, close: filtered.close, must_arrive: true }
        },
        TerminalEvent::Paste(pasted) => {
            let filtered = filter.push(pasted.as_slice());
            TerminalStep::Send { data: filtered.data, close: filtered.close, must_arrive: false }
        },
        TerminalEvent::Resize(columns, rows) => TerminalStep::Resize(terminal_size(columns, rows)),
        TerminalEvent::Other => TerminalStep::Nothing,
    }
}

/// A piece of input on its way to the server: its base64 text, and the credit that
/// it takes.
#[derive(Debug)]
pub struct InputPacket {
    pub data: String,
    pub bytes: u32,
}

/// Bytes cut into pieces of a size, of which the last may be smaller.
pub open spec fn pieces(data: Seq<u8>, size: nat) -> Seq<Seq<u8>>
    decreases data.len(),
{
    if data.len() == 0 || size == 0 {
        Seq::empty()
    } else if data.len() <= size {
        seq![data]
    } else {
        seq![data.take(size as int)] + pieces(data.skip(size as int), size)
    }
}

/// Whether packets carry pieces.
pub open spec fn carry(packets: Seq<InputPacket>, pieces: Seq<Seq<u8>>) -> bool {
    &&& packets.len() == pieces.len()
    &&& forall|i: int|
        0 <= i < packets.len() ==> (#[trigger] packets[i]).bytes == pieces[i].len()
            && packets[i].data@ == codec::base64_text(pieces[i]) && codec::base64_bytes(
            packets[i].data@,
        ) == Some(pieces[i])
}

/// Cuts input into packets of at most this many bytes.
pub fn input_packets(data: &[u8], largest: usize) -> (packets: Vec<InputPacket>)
    requires
        0 < largest <= 0x1000_0000,
    ensures
        carry(packets@, pieces(data@, largest as nat)),
{
    let mut packets: Vec<InputPacket> = Vec::new();
    let mut start: usize = 0;
    let ghost whole = pieces(data@, largest as nat);
    assert(data@.skip(0) =~= data@);
    assert(Seq::<Seq<u8>>::empty() + whole =~= whole);
    assert(whole.take(0) =~= Seq::<Seq<u8>>::empty());
    while start < data.len()
        invariant
            0 < largest <= 0x1000_0000,
            start <= data@.len(),
            packets@.len() <= whole.len(),
            whole == whole.take(packets@.len() as int) + pieces(
                data@.skip(start as int),
                largest as nat,
            ),
            carry(packets@, whole.take(packets@.len() as int)),
        decreases data@.len() - start,
    {
        let rest: usize = data.len() - start;
        let count: usize = if rest < largest {
            rest
        } else {
            largest
        };
        let ghost left = data@.skip(start as int);
        let ghost sent = packets@.len() as int;
        let ghost later = pieces(data@.skip(start + count), largest as nat);
        let piece = vstd::slice::slice_subrange(data, start, start + count);
        proof {
            assert(piece@ =~= left.take(count as int));
            assert(left.skip(count as int) =~= data@.skip(start + count));
            if left.len() <= largest {
                assert(left.take(count as int) =~= left);
                assert(later =~= Seq::<Seq<u8>>::empty());
            }
            assert(pieces(left, largest as nat) =~= seq![piece@] + later);
            assert(whole[sent] == piece@) by {
                assert(whole[sent] == (whole.take(sent) + pieces(left, largest as nat))[sent]);
            }
            assert(whole.take(sent + 1) =~= whole.take(sent).push(piece@));
            assert(whole =~= whole.take(sent + 1) + later) by {
                assert(whole =~= whole.take(sent) + (seq![piece@] + later));
            }
        }
        let packet = InputPacket { data: encode_base64(piece), bytes: count as u32 };
        packets.push(packet);
        proof {
            let taken = whole.take(sent + 1);
            assert forall|i: int| 0 <= i < packets@.len() implies (#[trigger] packets@[i]).bytes
                == taken[i].len() && packets@[i].data@ == codec::base64_text(taken[i])
                && codec::base64_bytes(packets@[i].data@) == Some(taken[i]) by {
                if i < sent {
                    assert(taken[i] == whole.take(sent)[i]);
                }
            }
        }
        start += count;
    }
    assert(data@.skip(start as int) =~= Seq::<u8>::empty());
    assert(whole =~= whole.take(packets@.len() as int));
    packets
}

/// The bytes of several pieces, one behind the other.
pub open spec fn rejoined(pieces: Seq<Seq<u8>>) -> Seq<u8>
    decreases pieces.len(),
{
    if pieces.len() == 0 {
        Seq::empty()
    } else {
        pieces[0] + rejoined(pieces.skip(1))
    }
}

/// Cutting input into packets loses nothing, keeps the order, and makes no packet
/// that is empty or too large.
pub proof fn packets_hold_the_input(data: Seq<u8>, size: nat)
    requires
        size > 0,
    ensures
        rejoined(pieces(data, size)) == data,
        forall|i: int|
            0 <= i < pieces(data, size).len() ==> 0 < (#[trigger] pieces(data, size)[i]).len()
                <= size,
    decreases data.len(),
{
    let cut = pieces(data, size);
    if data.len() == 0 {
        assert(data =~= Seq::empty());
    } else if data.len() <= size {
        assert(cut.skip(1) =~= Seq::<Seq<u8>>::empty());
        assert(rejoined(cut.skip(1)) =~= Seq::<u8>::empty());
        assert(rejoined(cut) =~= data);
    } else {
        let rest = data.skip(size as int);
        packets_hold_the_input(rest, size);
        assert(cut.skip(1) =~= pieces(rest, size));
        assert(data.take(size as int) + rest =~= data);
        assert forall|i: int| 0 <= i < cut.len() implies 0 < (#[trigger] cut[i]).len()
            <= size by {
            if i > 0 {
                assert(cut[i] == pieces(rest, size)[i - 1]);
            }
        }
    }
}

/// How much input the server still takes.
#[derive(Debug)]
pub struct InputCredit {
    maximum: u32,
    bytes: u32,
    stopped: bool,
}

/// The model of [`InputCredit`].
#[verifier::ext_equal]
pub struct InputCreditView {
    pub maximum: u32,
    pub bytes: u32,
    pub stopped: bool,
}

impl View for InputCredit {
    type V = InputCreditView;

    closed spec fn view(&self) -> InputCreditView {
        InputCreditView { maximum: self.maximum, bytes: self.bytes, stopped: self.stopped }
    }
}

/// What becomes of a wish to send so many bytes, and the credit afterwards.
pub open spec fn credit_taken(credit: InputCreditView, bytes: u32) -> (Taken, InputCreditView) {
    if credit.stopped {
        (Taken::Refused, credit)
    } else if credit.bytes < bytes {
        (Taken::Wait, credit)
    } else {
        (Taken::Granted, InputCreditView { bytes: (credit.bytes - bytes) as u32, ..credit })
    }
}

/// The credit after so many bytes were given back.
pub open spec fn credit_restored(credit: InputCreditView, bytes: u32) -> InputCreditView {
    InputCreditView {
        bytes: if credit.bytes + bytes > credit.maximum {
            credit.maximum
        } else {
            (credit.bytes + bytes) as u32
        },
        ..credit
    }
}

/// What becomes of a wish to send.
#[derive(Clone, Copy, Debug, PartialEq, Eq, Structural)]
pub enum Taken {
    /// The bytes may be sent.
    Granted,
    /// They may not be sent yet.
    Wait,
    /// They may never be sent.
    Refused,
}

impl InputCredit {
    /// The most bytes that the server ever takes.
    pub closed spec fn maximum(&self) -> u32 {
        self.maximum
    }

    /// The bytes that may be sent.
    pub closed spec fn bytes(&self) -> u32 {
        self.bytes
    }

    /// Whether no more is sent.
    pub closed spec fn stopped(&self) -> bool {
        self.stopped
    }

    /// There is never more credit than at the beginning.
    pub open spec fn wf(&self) -> bool {
        self.bytes() <= self.maximum()
    }

    /// The credit at the beginning.
    pub fn new(initial: u32) -> (credit: Self)
        ensures
            credit.wf(),
            credit.maximum() == initial,
            credit.bytes() == initial,
            !credit.stopped(),
            credit@ == (InputCreditView { maximum: initial, bytes: initial, stopped: false }),
    {
        InputCredit { maximum: initial, bytes: initial, stopped: false }
    }

    /// Takes credit, if there is enough.
    pub fn take(&mut self, bytes: u32) -> (taken: Taken)
        requires
            old(self).wf(),
        ensures
            final(self).wf(),
            final(self).maximum() == old(self).maximum(),
            final(self).stopped() == old(self).stopped(),
            taken == (if old(self).stopped() {
                Taken::Refused
            } else if old(self).bytes() < bytes {
                Taken::Wait
            } else {
                Taken::Granted
            }),
            final(self).bytes() == old(self).bytes() - if taken == Taken::Granted {
                bytes as int
            } else {
                0
            },
            (taken, final(self)@) == credit_taken(old(self)@, bytes),
    {
        if self.stopped {
            Taken::Refused
        } else if self.bytes < bytes {
            Taken::Wait
        } else {
            self.bytes = self.bytes - bytes;
            Taken::Granted
        }
    }

    /// Gives credit back.
    pub fn restore(&mut self, bytes: u32)
        requires
            old(self).wf(),
        ensures
            final(self).wf(),
            final(self).maximum() == old(self).maximum(),
            final(self).stopped() == old(self).stopped(),
            final(self).bytes() == if old(self).bytes() + bytes > old(self).maximum() {
                old(self).maximum() as int
            } else {
                old(self).bytes() + bytes
            },
            final(self)@ == credit_restored(old(self)@, bytes),
    {
        let bytes: u32 = self.bytes.saturating_add(bytes);
        self.bytes = if bytes > self.maximum {
            self.maximum
        } else {
            bytes
        };
    }

    /// Ends the input: from now on nothing is sent.
    pub fn stop(&mut self)
        requires
            old(self).wf(),
        ensures
            final(self).wf(),
            final(self).maximum() == old(self).maximum(),
            final(self).bytes() == old(self).bytes(),
            final(self).stopped(),
            final(self)@ == (InputCreditView { stopped: true, ..old(self)@ }),
    {
        self.stopped = true;
    }
}

/// Why input is not sent once the shell is over.
pub fn input_closed() -> (error: RunError)
    ensures
        error@ == RunErrorView::Message("shell input stream was closed"@),
{
    RunError::Message("shell input stream was closed".to_owned())
}

/// A shell whose process has ended exits as its process did, however its stream is
/// closed afterwards.
pub proof fn shell_exits_as_its_process_did(
    session: ShellSessionView,
    exit: StreamExit,
    end: StreamEnd,
    step: ShellStep,
)
    requires
        exit.stream_id@ == session.stream_id,
        end.stream_id@ == session.stream_id,
        is_step(
            session_after(session, StreamEvent::Exit(Some(exit))),
            StreamEvent::Closed(Some(end)),
            step,
        ),
    ensures
        event_failure(
            session_after(session, StreamEvent::Exit(Some(exit))),
            StreamEvent::Closed(Some(end)),
        ) is None,
        step == ShellStep::Finished(exit_code_of(exit.status)),
{
}

/// What the server says of another stream changes nothing.
pub proof fn other_streams_change_nothing(
    session: ShellSessionView,
    event: StreamEvent,
    step: ShellStep,
)
    requires
        event matches StreamEvent::Data(Some(data)) ==> data.stream_id@ != session.stream_id,
        event matches StreamEvent::Exit(Some(exit)) ==> exit.stream_id@ != session.stream_id,
        event matches StreamEvent::Closed(Some(end)) ==> end.stream_id@ != session.stream_id,
        event matches StreamEvent::Credit(Some(credit)) ==> credit.stream_id@ != session.stream_id,
        is_step(session, event, step),
    ensures
        session_after(session, event) == session,
        step is Nothing,
{
}

/// The session after events of its server, one behind the other.
pub open spec fn session_after_all(
    session: ShellSessionView,
    events: Seq<StreamEvent>,
) -> ShellSessionView
    decreases events.len(),
{
    if events.len() == 0 {
        session
    } else {
        session_after(session_after_all(session, events.drop_last()), events.last())
    }
}

/// Whether these steps are what the events of the server called for.
pub open spec fn steps_taken(
    session: ShellSessionView,
    events: Seq<StreamEvent>,
    steps: Seq<ShellStep>,
) -> bool
    decreases events.len(),
{
    if events.len() == 0 {
        steps.len() == 0
    } else {
        let before = session_after_all(session, events.drop_last());
        &&& steps.len() == events.len()
        &&& steps_taken(session, events.drop_last(), steps.drop_last())
        &&& event_failure(before, events.last()) is None
        &&& is_step(before, events.last(), steps.last())
    }
}

/// The bytes that the server delivers on a channel of a stream.
pub open spec fn delivered(
    events: Seq<StreamEvent>,
    stream_id: Seq<char>,
    channel: StreamChannel,
) -> Seq<u8>
    decreases events.len(),
{
    if events.len() == 0 {
        Seq::empty()
    } else {
        delivered(events.drop_last(), stream_id, channel) + match events.last() {
            StreamEvent::Data(Some(data)) => if data.stream_id@ == stream_id && data.channel
                == channel {
                codec::base64_bytes(data.data@)->Some_0
            } else {
                Seq::empty()
            },
            _ => Seq::empty(),
        }
    }
}

/// The bytes that are written to a local stream.
pub open spec fn written(steps: Seq<ShellStep>, channel: StreamChannel) -> Seq<u8>
    decreases steps.len(),
{
    if steps.len() == 0 {
        Seq::empty()
    } else {
        written(steps.drop_last(), channel) + match steps.last() {
            ShellStep::Write { channel: to, data } => if to == channel {
                data@
            } else {
                Seq::empty()
            },
            _ => Seq::empty(),
        }
    }
}

/// What the device prints arrives as it was printed: on each of the two channels, the bytes
/// that are written are those that the server delivered for this shell, in order and
/// nothing else; and no event is output that carries none.
pub proof fn shell_output_arrives_as_it_was_printed(
    session: ShellSessionView,
    events: Seq<StreamEvent>,
    steps: Seq<ShellStep>,
    channel: StreamChannel,
)
    requires
        !session.ndjson,
        steps_taken(session, events, steps),
    ensures
        written(steps, channel) == delivered(events, session.stream_id, channel),
        session_after_all(session, events).stream_id == session.stream_id,
        !session_after_all(session, events).ndjson,
    decreases events.len(),
{
    if events.len() > 0 {
        shell_output_arrives_as_it_was_printed(
            session,
            events.drop_last(),
            steps.drop_last(),
            channel,
        );
    }
}

/// How the last report of an ended process says that it ended.
pub open spec fn last_exit(events: Seq<StreamEvent>, stream_id: Seq<char>) -> Option<ShellExit>
    decreases events.len(),
{
    if events.len() == 0 {
        None
    } else {
        match events.last() {
            StreamEvent::Exit(Some(exit)) if exit.stream_id@ == stream_id => Some(exit.status),
            _ => last_exit(events.drop_last(), stream_id),
        }
    }
}

/// A shell exits as its process ended on the device: with its exit code, or with 128 and
/// the number of the signal that ended it. Without a report of that it fails, unless the
/// user has closed it.
pub proof fn shell_exit_code_is_that_of_the_process(
    opened: ShellSessionView,
    events: Seq<StreamEvent>,
    end: StreamEnd,
    step: ShellStep,
)
    requires
        opened.exit_status is None,
        end.stream_id@ == opened.stream_id,
    ensures
        ({
            let session = session_after_all(opened, events);
            let closed = StreamEvent::Closed(Some(end));
            match last_exit(events, opened.stream_id) {
                Some(status) => {
                    &&& event_failure(session, closed) is None
                    &&& is_step(session, closed, step) ==> (step matches ShellStep::Finished(code)
                        && (status.signal == 0 ==> code == status.exit_code) && (0 < status.signal
                        < 0x7fff_ff80 ==> code == 128 + status.signal))
                },
                None => {
                    &&& event_failure(session, closed) is None <==> (end.reason matches Some(reason)
                        && reason@ == "closed by client"@)
                    &&& event_failure(session, closed) is None && is_step(session, closed, step)
                        ==> step == ShellStep::Finished(0)
                },
            }
        }),
{
    exit_is_kept(opened, events);
}

proof fn exit_is_kept(session: ShellSessionView, events: Seq<StreamEvent>)
    ensures
        session_after_all(session, events).stream_id == session.stream_id,
        session_after_all(session, events).exit_status == (match last_exit(
            events,
            session.stream_id,
        ) {
            Some(status) => Some(exit_code_of(status)),
            None => session.exit_status,
        }),
    decreases events.len(),
{
    if events.len() > 0 {
        exit_is_kept(session, events.drop_last());
    }
}

/// Input flows within its credit. What is granted is under way until it is given back, and
/// never more than the server takes at most; giving back what was granted restores the
/// credit, and giving back more adds nothing. What waits changes nothing, and once the
/// input has ended nothing is granted.
pub proof fn input_stays_within_its_credit(credit: InputCreditView, bytes: u32, more: u32)
    requires
        credit.bytes <= credit.maximum,
    ensures
        ({
            let (taken, after) = credit_taken(credit, bytes);
            let under_way = credit.maximum - credit.bytes;
            &&& taken == Taken::Granted ==> {
                &&& !credit.stopped
                &&& under_way + bytes <= credit.maximum
                &&& after.maximum - after.bytes == under_way + bytes
                &&& credit_restored(after, bytes) == credit
            }
            &&& taken != Taken::Granted ==> after == credit
            &&& !credit.stopped && under_way + bytes <= credit.maximum ==> taken == Taken::Granted
            &&& credit.stopped ==> taken == Taken::Refused
        }),
        credit_restored(credit, more).bytes >= credit.bytes,
        credit_restored(credit, more).bytes <= credit.maximum,
        credit.bytes + more <= credit.maximum ==> credit_restored(credit, more).bytes
            == credit.bytes + more,
        credit_restored(credit, more).stopped == credit.stopped,
{
}

/// The bytes that an event at the local terminal stands for.
pub open spec fn typed(event: TerminalEvent) -> Seq<u8> {
    match event {
        TerminalEvent::Key(key) => terminal::key_bytes(key),
        TerminalEvent::Paste(pasted) => pasted@,
        _ => Seq::empty(),
    }
}

/// All that several events at the local terminal stand for.
pub open spec fn typed_in_all(events: Seq<TerminalEvent>) -> Seq<u8>
    decreases events.len(),
{
    if events.len() == 0 {
        Seq::empty()
    } else {
        typed_in_all(events.drop_last()) + typed(events.last())
    }
}

/// The bytes that several steps send.
pub open spec fn sent_in_all(steps: Seq<TerminalStep>) -> Seq<u8>
    decreases steps.len(),
{
    if steps.len() == 0 {
        Seq::empty()
    } else {
        sent_in_all(steps.drop_last()) + match steps.last() {
            TerminalStep::Send { data, .. } => data@,
            _ => Seq::empty(),
        }
    }
}

/// Keys and pasted text are one stream of input: what is sent, over all events, is what the
/// escape filter makes of all that was typed and pasted, and the shell is closed just where
/// the filter says so. Changes of the size take nothing away from it.
pub proof fn terminal_input_is_one_stream(
    filters: Seq<EscapeFilterView>,
    events: Seq<TerminalEvent>,
    steps: Seq<TerminalStep>,
)
    requires
        filters.len() == events.len() + 1,
        steps.len() == events.len(),
        forall|i: int|
            0 <= i < events.len() ==> is_terminal_step(
                filters[i],
                events[i],
                #[trigger] filters[i + 1],
                steps[i],
            ),
        forall|i: int|
            0 <= i < steps.len() - 1 ==> !((#[trigger] steps[i]) matches TerminalStep::Send {
                close,
                ..
            } && close),
    ensures
        ({
            let (sent, closed, last) = terminal::filter_bytes(filters[0], typed_in_all(events));
            &&& sent_in_all(steps) == sent
            &&& filters.last() == last
            &&& steps.len() > 0 ==> (closed <==> (steps.last() matches TerminalStep::Send {
                close,
                ..
            } && close))
        }),
    decreases events.len(),
{
    if events.len() > 0 {
        let n = events.len() - 1;
        let earlier = filters.drop_last();
        assert forall|i: int| 0 <= i < events.drop_last().len() implies is_terminal_step(
            earlier[i],
            events.drop_last()[i],
            #[trigger] earlier[i + 1],
            steps.drop_last()[i],
        ) by {
            assert(earlier[i + 1] == filters[i + 1]);
        }
        assert forall|i: int| 0 <= i < steps.drop_last().len() - 1 implies !((
        #[trigger] steps.drop_last()[i]) matches TerminalStep::Send { close, .. } && close) by {
            assert(steps.drop_last()[i] == steps[i]);
        }
        terminal_input_is_one_stream(earlier, events.drop_last(), steps.drop_last());
        let before = typed_in_all(events.drop_last());
        assert(filters[n + 1] == filters.last());
        assert(is_terminal_step(filters[n], events[n], filters[n + 1], steps[n]));
        if n > 0 {
            assert(steps.drop_last().last() == steps[n - 1]);
        } else {
            assert(before =~= Seq::empty());
        }
        terminal::input_can_come_in_pieces(filters[0], before, typed(events.last()));
        let (_, _, between) = terminal::filter_bytes(filters[0], before);
        assert(between == filters[n]);
        let piece = terminal::filter_bytes(between, typed(events.last()));
        assert(sent_in_all(steps) =~= terminal::filter_bytes(filters[0], before).0 + piece.0);
    } else {
        assert(typed_in_all(events) =~= Seq::empty());
    }
}

/// The shell that is opened is the one that was asked for: on the device that was named,
/// with the command as one argument where there is one, and with a terminal of the local
/// size exactly where the user types into one or forces it, and does not forbid it.
pub proof fn shells_are_opened_as_asked(
    args: ShellArgs,
    stdin_is_terminal: bool,
    local_size: Result<(u16, u16), String>,
    result: Result<ShellOpenParams, RunError>,
)
    requires
        is_shell_open(args, stdin_is_terminal, local_size, result),
    ensures
        result matches Ok(params) ==> {
            &&& params.serial@ == args.serial@
            &&& params.open.argv@[0]@ == "/bin/sh"@
            &&& args.command matches Some(command) ==> params.open.argv@.len() == 3
                && params.open.argv@[2]@ == command@
            &&& args.command is None ==> params.open.argv@.len() == 2
            &&& args.no_tty ==> params.open.mode == ShellMode::Raw
            &&& !args.no_tty && stdin_is_terminal ==> params.open.mode == ShellMode::Pty
            &&& !args.no_tty && args.tty >= 2 ==> params.open.mode == ShellMode::Pty
            &&& !stdin_is_terminal && args.tty < 2 ==> params.open.mode == ShellMode::Raw
            &&& params.open.terminal_size is Some <==> params.open.mode == ShellMode::Pty
            &&& params.open.terminal_size matches Some(size) ==> (
            local_size matches Ok((columns, rows)) ==> {
                &&& columns >= 1 ==> size.columns == columns
                &&& rows >= 1 ==> size.rows == rows
                &&& size.columns >= 1
                &&& size.rows >= 1
            })
        },
        result is Err ==> local_size is Err && !args.no_tty,
{
    if let Ok(params) = result {
        let argv = text::all(params.open.argv@);
        let expected = shell_argv(text::optional(args.command));
        assert(argv.len() == expected.len());
        assert(argv[0] == expected[0]);
        if args.command is Some {
            assert(argv[2] == expected[2]);
        }
    }
}

/// A device has a shell only if it says so itself, and a shell never answers in JSON.
pub proof fn only_devices_with_a_shell_are_used(
    reply: Result<RpcReplyView, ClientErrorView>,
    escape: Seq<char>,
)
    ensures
        shell_refusal(reply) is None <==> reply is Ok && reply->Ok_0.result is Features
            && reply->Ok_0.result->Features_0.features.contains("shell.v2"@),
        shell_setting(escape, true) is Err,
        shell_setting(escape, false) is Ok <==> terminal::escape_of(escape) is Some,
{
}

/// Input goes out whole and in order: what the packets hold is the input, each holds at
/// least one byte and at most as many as are allowed, and says how many it holds.
pub proof fn packets_carry_the_input(packets: Seq<InputPacket>, data: Seq<u8>, largest: nat)
    requires
        largest > 0,
        carry(packets, pieces(data, largest)),
    ensures
        rejoined(
            Seq::new(packets.len(), |i: int| codec::base64_bytes(packets[i].data@)->Some_0),
        ) == data,
        forall|i: int|
            0 <= i < packets.len() ==> 0 < (#[trigger] packets[i]).bytes <= largest
                && codec::base64_bytes(packets[i].data@) is Some && packets[i].bytes
                == codec::base64_bytes(packets[i].data@)->Some_0.len(),
{
    packets_hold_the_input(data, largest);
    let held = Seq::new(packets.len(), |i: int| codec::base64_bytes(packets[i].data@)->Some_0);
    assert forall|i: int| 0 <= i < packets.len() implies held[i] == pieces(data, largest)[i] && 0 < (
    #[trigger] packets[i]).bytes <= largest by {
        assert(0 < pieces(data, largest)[i].len() <= largest);
    }
    assert(held =~= pieces(data, largest));
}

} // verus!
