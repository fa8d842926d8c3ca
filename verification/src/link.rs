//! The link to a device: its errors, its frames and its opening handshake.

use crate::codec;
use crate::codec::is_valid_session_id;
use crate::number;
use crate::number::to_decimal;
use crate::rpc_error;
use crate::rpc_error::{ErrorCode, RpcError, RpcErrorView};
use crate::text;
use crate::text::{concat, same_text};
use vstd::prelude::*;

verus! {

/// The protocol revision that the host speaks.
pub const PROTOCOL_VERSION: u32 = 3;

/// The window of a stream: 8 MiB.
pub const DEFAULT_STREAM_WINDOW: u32 = 8388608;

/// The window of a connection: 16 MiB.
pub const DEFAULT_CONNECTION_WINDOW: u32 = 16777216;

/// How the transport below the link failed.
#[derive(Clone, Copy, Debug, PartialEq, Eq, Structural)]
pub enum ErrorClass {
    CleanEof,
    Timeout,
    Truncated,
    Protocol,
    Io,
    Other,
}

/// A failure on the link to a device.
#[derive(Debug)]
pub enum LinkError {
    /// The connection failed.
    Connection(String),
    /// A host file or byte stream failed.
    Io(String),
    /// The frame transport failed.
    Transport(ErrorClass, String),
    /// The protocol state machine refused a frame.
    Protocol(String),
    /// A frame could not be built or read.
    Wire(String),
    /// Recovering the USB link failed.
    UsbRecoveryFailed {
        inbound_bytes: u64,
        inbound_timeouts: u64,
        outbound_bytes: u64,
        reason: String,
    },
    /// A value could not be encoded.
    Json(String),
    /// No matching USB device is attached.
    UsbDeviceNotFound(String),
    /// The USB transport failed.
    Usb(String),
    /// A payload could not be read as what it should hold.
    InvalidPayload { label: String, detail: String },
    /// The opening message of the device is not acceptable.
    InvalidHello,
    /// The device speaks another protocol revision.
    IncompatibleProtocol { device: u32, host: u32 },
    /// No session identifier could be made.
    SessionIdUnavailable,
    /// A frame came that does not fit.
    UnexpectedFrame(String),
    /// A counter has reached its end.
    SequenceExhausted,
    /// The device itself refused.
    Remote(RpcError),
}

/// The model of [`LinkError`].
#[verifier::ext_equal]
pub enum LinkErrorView {
    Connection(Seq<char>),
    Io(Seq<char>),
    Transport(ErrorClass, Seq<char>),
    Protocol(Seq<char>),
    Wire(Seq<char>),
    UsbRecoveryFailed {
        inbound_bytes: u64,
        inbound_timeouts: u64,
        outbound_bytes: u64,
        reason: Seq<char>,
    },
    Json(Seq<char>),
    UsbDeviceNotFound(Seq<char>),
    Usb(Seq<char>),
    InvalidPayload { label: Seq<char>, detail: Seq<char> },
    InvalidHello,
    IncompatibleProtocol { device: u32, host: u32 },
    SessionIdUnavailable,
    UnexpectedFrame(Seq<char>),
    SequenceExhausted,
    Remote(RpcErrorView),
}

impl View for LinkError {
    type V = LinkErrorView;

    open spec fn view(&self) -> LinkErrorView {
        match *self {
            LinkError::Connection(message) => LinkErrorView::Connection(message@),
            LinkError::Io(message) => LinkErrorView::Io(message@),
            LinkError::Transport(class, message) => LinkErrorView::Transport(class, message@),
            LinkError::Protocol(message) => LinkErrorView::Protocol(message@),
            LinkError::Wire(message) => LinkErrorView::Wire(message@),
            LinkError::UsbRecoveryFailed {
                inbound_bytes,
                inbound_timeouts,
                outbound_bytes,
                reason,
            } => LinkErrorView::UsbRecoveryFailed {
                inbound_bytes,
                inbound_timeouts,
                outbound_bytes,
                reason: reason@,
            },
            LinkError::Json(message) => LinkErrorView::Json(message@),
            LinkError::UsbDeviceNotFound(text) => LinkErrorView::UsbDeviceNotFound(text@),
            LinkError::Usb(message) => LinkErrorView::Usb(message@),
            LinkError::InvalidPayload { label, detail } => LinkErrorView::InvalidPayload {
                label: label@,
                detail: detail@,
            },
            LinkError::InvalidHello => LinkErrorView::InvalidHello,
            LinkError::IncompatibleProtocol { device, host } =>
                LinkErrorView::IncompatibleProtocol { device, host },
            LinkError::SessionIdUnavailable => LinkErrorView::SessionIdUnavailable,
            LinkError::UnexpectedFrame(message) => LinkErrorView::UnexpectedFrame(message@),
            LinkError::SequenceExhausted => LinkErrorView::SequenceExhausted,
            LinkError::Remote(error) => LinkErrorView::Remote(error@),
        }
    }
}

/// The model of a result on the link.
pub open spec fn outcome<T: View>(result: Result<T, LinkError>) -> Result<T::V, LinkErrorView> {
    match result {
        Ok(value) => Ok(value@),
        Err(error) => Err(error@),
    }
}

/// What clients are told when the link is gone.
pub open spec fn link_is_gone() -> RpcErrorView {
    rpc_error::plain_error(ErrorCode::ServerNotReady, "Device link is unavailable"@)
}

/// What clients are told of a link failure: what the device said, or only that
/// the link is gone.
pub open spec fn told_of(error: LinkErrorView) -> RpcErrorView {
    match error {
        LinkErrorView::Remote(error) => error,
        _ => link_is_gone(),
    }
}

/// Turns a link failure into an answer for clients.
pub fn link_rpc_error(error: LinkError) -> (answer: RpcError)
    ensures
        answer@ == told_of(error@),
{
    match error {
        LinkError::Remote(error) => error,
        _ => RpcError::new(ErrorCode::ServerNotReady, "Device link is unavailable"),
    }
}

/// Whether a failed USB handshake may be tried once more after a recovery: when
/// frames of an abandoned session can have caused it.
pub open spec fn recoverable(error: LinkErrorView) -> bool {
    match error {
        LinkErrorView::Transport(class, _) => class != ErrorClass::Other,
        LinkErrorView::UnexpectedFrame(_) => true,
        _ => false,
    }
}

impl LinkError {
    /// An unfitting frame.
    pub fn unexpected(message: &str) -> (error: Self)
        ensures
            error@ == LinkErrorView::UnexpectedFrame(message@),
    {
        LinkError::UnexpectedFrame(message.to_owned())
    }

    /// Whether a failed USB handshake may be tried once more after a recovery.
    pub fn allows_usb_handshake_recovery(&self) -> (allowed: bool)
        ensures
            allowed == recoverable(self@),
    {
        match self {
            LinkError::Transport(class, _) => match class {
                ErrorClass::CleanEof => true,
                ErrorClass::Timeout => true,
                ErrorClass::Truncated => true,
                ErrorClass::Protocol => true,
                ErrorClass::Io => true,
                ErrorClass::Other => false,
            },
            LinkError::UnexpectedFrame(_) => true,
            _ => false,
        }
    }
}

/// The kind of a frame.
#[derive(Clone, Copy, Debug, PartialEq, Eq, Structural)]
pub enum Command {
    Hello,
    Open,
    Data,
    Credit,
    Close,
    Reset,
    Ping,
    Pong,
    GoAway,
}

/// The head of a frame.
#[derive(Clone, Copy, Debug, PartialEq, Eq, Structural)]
pub struct Header {
    pub command: Command,
    pub stream_id: u32,
    pub sequence: u32,
    pub end_stream: bool,
}

/// Whether a frame has this kind and comes on this stream.
pub open spec fn expected(header: Header, command: Command, stream_id: u32) -> Result<
    (),
    LinkErrorView,
> {
    if header.command == command && header.stream_id == stream_id {
        Ok(())
    } else {
        Err(LinkErrorView::UnexpectedFrame("unexpected command or stream identifier"@))
    }
}

/// Checks the kind and the stream of a frame.
pub fn expect(header: Header, command: Command, stream_id: u32) -> (result: Result<(), LinkError>)
    ensures
        outcome(result) == expected(header, command, stream_id),
{
    if header.command == command && header.stream_id == stream_id {
        Ok(())
    } else {
        Err(LinkError::unexpected("unexpected command or stream identifier"))
    }
}

/// Checks that a reply on a stream is a data frame that ends it.
pub fn expect_reply(header: Header, stream_id: u32) -> (result: Result<(), LinkError>)
    ensures
        outcome(result) == (if header.command != Command::Data || header.stream_id != stream_id {
            Err(LinkErrorView::UnexpectedFrame("unexpected command or stream identifier"@))
        } else if !header.end_stream {
            Err(LinkErrorView::UnexpectedFrame("device reply did not end the stream"@))
        } else {
            Ok(())
        }),
{
    expect(header, Command::Data, stream_id)?;
    if !header.end_stream {
        return Err(LinkError::unexpected("device reply did not end the stream"));
    }
    Ok(())
}

/// The opening message of the host.
#[derive(Debug)]
pub struct HostHello {
    pub protocol_version: u32,
    pub session_id: String,
    pub client_name: String,
    pub initial_connection_window: u32,
}

/// The opening message of a device.
#[derive(Debug)]
pub struct DeviceHello {
    pub protocol_version: u32,
    pub session_id: String,
    pub serial: String,
    pub model: String,
    pub firmware: String,
    pub target: String,
    pub features: Vec<String>,
    pub initial_connection_window: u32,
}

/// The model of [`DeviceHello`].
#[verifier::ext_equal]
pub struct DeviceHelloView {
    pub protocol_version: u32,
    pub session_id: Seq<char>,
    pub serial: Seq<char>,
    pub model: Seq<char>,
    pub features: Seq<Seq<char>>,
    pub initial_connection_window: u32,
}

impl View for DeviceHello {
    type V = DeviceHelloView;

    open spec fn view(&self) -> DeviceHelloView {
        DeviceHelloView {
            protocol_version: self.protocol_version,
            session_id: self.session_id@,
            serial: self.serial@,
            model: self.model@,
            features: text::all(self.features@),
            initial_connection_window: self.initial_connection_window,
        }
    }
}

/// Why the opening message of a device is refused, if it is.
pub open spec fn hello_refusal(hello: DeviceHelloView, session_id: Seq<char>) -> Option<
    LinkErrorView,
> {
    if hello.protocol_version != PROTOCOL_VERSION {
        Some(
            LinkErrorView::IncompatibleProtocol {
                device: hello.protocol_version,
                host: PROTOCOL_VERSION,
            },
        )
    } else if codec::is_session_id(hello.session_id) && hello.session_id == session_id
        && hello.serial.len() > 0 && hello.model.len() > 0 && 1 <= hello.initial_connection_window
        <= DEFAULT_CONNECTION_WINDOW {
        None
    } else {
        Some(LinkErrorView::InvalidHello)
    }
}

/// Checks the opening message of a device.
pub fn validate_device_hello(hello: &DeviceHello, expected_session_id: &str) -> (result: Result<
    (),
    LinkError,
>)
    ensures
        outcome(result) == (match hello_refusal(hello@, expected_session_id@) {
            None => Ok(()),
            Some(error) => Err(error),
        }),
{
    if hello.protocol_version != PROTOCOL_VERSION {
        return Err(
            LinkError::IncompatibleProtocol {
                device: hello.protocol_version,
                host: PROTOCOL_VERSION,
            },
        );
    }
    if !is_valid_session_id(hello.session_id.as_str()) || !same_text(
        hello.session_id.as_str(),
        expected_session_id,
    ) || hello.serial.as_str().is_empty() || hello.model.as_str().is_empty()
        || hello.initial_connection_window == 0 || hello.initial_connection_window
        > DEFAULT_CONNECTION_WINDOW {
        return Err(LinkError::InvalidHello);
    }
    Ok(())
}

/// The opening handshake of one session.
pub struct Negotiation {
    session_id: String,
    discard_stale_frames: bool,
}

/// What a candidate for the opening message of the device holds: a decoded
/// message, or why it could not be decoded.
#[derive(Debug)]
pub enum HelloPayload {
    Decoded(DeviceHello),
    Undecodable(String),
}

/// What becomes of a candidate for the opening message of the device.
#[derive(Debug)]
pub enum Candidate {
    /// It belongs to an abandoned session: the next frame is read.
    Stale,
    /// It opens the session.
    Opens(DeviceHello),
    /// The handshake fails.
    Fails(LinkError),
}

/// Whether this is what becomes of a candidate for the opening message of the device.
/// While stale frames are passed over, only an opening message under the session's own
/// identifier is considered.
pub open spec fn judged(
    session_id: Seq<char>,
    discards: bool,
    header: Header,
    payload: HelloPayload,
    candidate: Candidate,
) -> bool {
    let opening = header.command == Command::Hello && header.stream_id == 0;
    let own = payload matches HelloPayload::Decoded(hello) && hello@.session_id == session_id;
    if discards && !(opening && own) {
        candidate == Candidate::Stale
    } else if !opening {
        candidate matches Candidate::Fails(error) && error@ == LinkErrorView::UnexpectedFrame(
            "unexpected command or stream identifier"@,
        )
    } else {
        match payload {
            HelloPayload::Undecodable(detail) => candidate matches Candidate::Fails(error)
                && error@ == (LinkErrorView::InvalidPayload {
                label: "device HELLO"@,
                detail: detail@,
            }),
            HelloPayload::Decoded(hello) => match hello_refusal(hello@, session_id) {
                None => candidate == Candidate::Opens(hello),
                Some(refusal) => candidate matches Candidate::Fails(error) && error@ == refusal,
            },
        }
    }
}

impl Negotiation {
    /// The identifier of the session.
    pub closed spec fn session(&self) -> Seq<char> {
        self.session_id@
    }

    /// Whether frames of abandoned sessions are passed over.
    pub closed spec fn discards(&self) -> bool {
        self.discard_stale_frames
    }

    /// A handshake under a session identifier.
    pub fn new(session_id: String, discard_stale_frames: bool) -> (negotiation: Self)
        ensures
            negotiation.session() == session_id@,
            negotiation.discards() == discard_stale_frames,
    {
        Negotiation { session_id, discard_stale_frames }
    }

    /// The message that the host opens with.
    pub fn hello(&self) -> (hello: HostHello)
        ensures
            hello.protocol_version == PROTOCOL_VERSION,
            hello.session_id@ == self.session(),
            hello.client_name@ == "kindlebridge-server"@,
            hello.initial_connection_window == DEFAULT_CONNECTION_WINDOW,
    {
        HostHello {
            protocol_version: PROTOCOL_VERSION,
            session_id: self.session_id.clone(),
            client_name: "kindlebridge-server".to_owned(),
            initial_connection_window: DEFAULT_CONNECTION_WINDOW,
        }
    }

    /// Judges a frame that can be the opening message of the device. While
    /// stale frames are passed over, only an opening message under this session's
    /// own identifier is considered.
    pub fn consider(&self, header: Header, payload: HelloPayload) -> (candidate: Candidate)
        ensures
            judged(self.session(), self.discards(), header, payload, candidate),
    {
        if self.discard_stale_frames {
            let own = match &payload {
                HelloPayload::Decoded(hello) => hello.session_id == self.session_id,
                HelloPayload::Undecodable(_) => false,
            };
            if header.command != Command::Hello || header.stream_id != 0 || !own {
                return Candidate::Stale;
            }
        }
        if let Err(error) = expect(header, Command::Hello, 0) {
            return Candidate::Fails(error);
        }
        match payload {
            HelloPayload::Undecodable(detail) => Candidate::Fails(
                LinkError::InvalidPayload { label: "device HELLO".to_owned(), detail },
            ),
            HelloPayload::Decoded(hello) => {
                match validate_device_hello(&hello, self.session_id.as_str()) {
                    Ok(()) => Candidate::Opens(hello),
                    Err(error) => Candidate::Fails(error),
                }
            },
        }
    }
}

/// What the CLI is told when the device speaks another protocol revision.
pub open spec fn incompatible_message(device: u32, host: u32) -> Seq<char> {
    "Incompatible KindleBridge daemon protocol "@ + number::decimal(device as nat)
        + "; host requires "@ + number::decimal(host as nat)
        + ". Install the matching KindleBridge package"@
}

/// What the CLI is told when no session could be opened.
pub open spec fn unestablished_message() -> Seq<char> {
    "Could not establish KindleBridge protocol "@ + number::decimal(PROTOCOL_VERSION as nat)
        + ". Ensure development mode is active and install the matching KindleBridge package"@
}

/// What the CLI is told when a USB session cannot be opened: nothing when no
/// device is attached.
pub open spec fn usb_failure(error: LinkErrorView) -> Option<Seq<char>> {
    match error {
        LinkErrorView::UsbDeviceNotFound(_) => None,
        LinkErrorView::IncompatibleProtocol { device, host } => Some(
            incompatible_message(device, host),
        ),
        _ => Some(unestablished_message()),
    }
}

/// What the CLI is told when a USB session cannot be opened.
pub fn usb_failure_message(error: &LinkError) -> (message: Option<String>)
    ensures
        text::optional(message) == usb_failure(error@),
{
    match error {
        LinkError::UsbDeviceNotFound(_) => None,
        LinkError::IncompatibleProtocol { device, host } => {
            let mut message = concat(
                "Incompatible KindleBridge daemon protocol ",
                to_decimal(*device as u64).as_str(),
            );
            message.append("; host requires ");
            message.append(to_decimal(*host as u64).as_str());
            message.append(". Install the matching KindleBridge package");
            Some(message)
        },
        _ => {
            let mut message = concat(
                "Could not establish KindleBridge protocol ",
                to_decimal(PROTOCOL_VERSION as u64).as_str(),
            );
            message.append(
                ". Ensure development mode is active and install the matching KindleBridge package",
            );
            Some(message)
        },
    }
}

/// The text of a link failure. Where the device itself refused, `said` is the debug
/// form of what it said.
pub open spec fn message_of(error: LinkErrorView, said: Seq<char>) -> Seq<char> {
    match error {
        LinkErrorView::Connection(text) => text,
        LinkErrorView::Io(text) => text,
        LinkErrorView::Transport(_, text) => text,
        LinkErrorView::Protocol(text) => text,
        LinkErrorView::Wire(text) => text,
        LinkErrorView::UsbRecoveryFailed {
            inbound_bytes,
            inbound_timeouts,
            outbound_bytes,
            reason,
        } => "USB recovery failed after draining "@ + number::decimal(inbound_bytes as nat)
            + " inbound bytes across "@ + number::decimal(inbound_timeouts as nat)
            + " idle timeouts and writing "@ + number::decimal(outbound_bytes as nat)
            + " outbound bytes: "@ + reason,
        LinkErrorView::Json(text) => text,
        LinkErrorView::UsbDeviceNotFound(text) => text,
        LinkErrorView::Usb(text) => text,
        LinkErrorView::InvalidPayload { label, detail } => "invalid "@ + label + " payload: "@
            + detail,
        LinkErrorView::InvalidHello => "device HELLO is incompatible"@,
        LinkErrorView::IncompatibleProtocol { device, host } => "incompatible device protocol "@
            + number::decimal(device as nat) + "; host requires "@ + number::decimal(host as nat),
        LinkErrorView::SessionIdUnavailable => "a USB session identifier could not be generated"@,
        LinkErrorView::UnexpectedFrame(text) => text,
        LinkErrorView::SequenceExhausted => "sequence space exhausted"@,
        LinkErrorView::Remote(_) => "device call failed: "@ + said,
    }
}

impl LinkError {
    /// The text of this failure. Where the device itself refused, `said` is the debug
    /// form of what it said.
    pub fn to_text(&self, said: &str) -> (text: String)
        ensures
            text@ == message_of(self@, said@),
    {
        match self {
            LinkError::Connection(text) => text.clone(),
            LinkError::Io(text) => text.clone(),
            LinkError::Transport(_, text) => text.clone(),
            LinkError::Protocol(text) => text.clone(),
            LinkError::Wire(text) => text.clone(),
            LinkError::UsbRecoveryFailed {
                inbound_bytes,
                inbound_timeouts,
                outbound_bytes,
                reason,
            } => {
                let mut text = concat(
                    "USB recovery failed after draining ",
                    to_decimal(*inbound_bytes).as_str(),
                );
                text.append(" inbound bytes across ");
                text.append(to_decimal(*inbound_timeouts).as_str());
                text.append(" idle timeouts and writing ");
                text.append(to_decimal(*outbound_bytes).as_str());
                text.append(" outbound bytes: ");
                text.append(reason.as_str());
                text
            },
            LinkError::Json(text) => text.clone(),
            LinkError::UsbDeviceNotFound(text) => text.clone(),
            LinkError::Usb(text) => text.clone(),
            LinkError::InvalidPayload { label, detail } => {
                let mut text = concat("invalid ", label.as_str());
                text.append(" payload: ");
                text.append(detail.as_str());
                text
            },
            LinkError::InvalidHello => "device HELLO is incompatible".to_owned(),
            LinkError::IncompatibleProtocol { device, host } => {
                let mut text = concat(
                    "incompatible device protocol ",
                    to_decimal(*device as u64).as_str(),
                );
                text.append("; host requires ");
                text.append(to_decimal(*host as u64).as_str());
                text
            },
            LinkError::SessionIdUnavailable => {
                "a USB session identifier could not be generated".to_owned()
            },
            LinkError::UnexpectedFrame(text) => text.clone(),
            LinkError::SequenceExhausted => "sequence space exhausted".to_owned(),
            LinkError::Remote(_) => concat("device call failed: ", said),
        }
    }
}

/// Whether this says if a USB session is tried once more after an attempt failed.
pub open spec fn is_usb_retry(
    recovered: bool,
    error: LinkError,
    again: Result<(), LinkError>,
) -> bool {
    if !recovered && recoverable(error@) {
        again is Ok
    } else {
        again == Err::<(), _>(error)
    }
}

/// Decides whether a USB session is tried once more after an attempt failed, then
/// with a recovery of the link: only the first attempt can be followed by another.
pub fn after_usb_attempt(recovered: bool, error: LinkError) -> (again: Result<(), LinkError>)
    ensures
        is_usb_retry(recovered, error, again),
{
    if !recovered && error.allows_usb_handshake_recovery() {
        Ok(())
    } else {
        Err(error)
    }
}

/// The frame behind the fill of a recovery: it gives the device a boundary before the
/// opening message, and at a boundary the device passes it over.
pub fn recovery_marker() -> (header: Header)
    ensures
        header == (Header {
            command: Command::Ping,
            stream_id: 0,
            sequence: 0,
            end_stream: false,
        }),
{
    Header { command: Command::Ping, stream_id: 0, sequence: 0, end_stream: false }
}

/// What the device answers to a call.
#[derive(Debug)]
pub enum CallReply {
    /// Nothing that can be read, and why.
    Undecodable(String),
    /// The result, as JSON.
    Result(String),
    Error(RpcError),
}

/// The model of [`CallReply`].
#[verifier::ext_equal]
pub enum CallReplyView {
    Undecodable(Seq<char>),
    Result(Seq<char>),
    Error(RpcErrorView),
}

impl View for CallReply {
    type V = CallReplyView;

    open spec fn view(&self) -> CallReplyView {
        match *self {
            CallReply::Undecodable(detail) => CallReplyView::Undecodable(detail@),
            CallReply::Result(json) => CallReplyView::Result(json@),
            CallReply::Error(error) => CallReplyView::Error(error@),
        }
    }
}

/// What a call on a stream comes to: one data frame that ends the stream, one frame
/// that closes it, and a reply that can be read.
pub open spec fn call_result(
    stream_id: u32,
    data: Header,
    close: Header,
    reply: CallReplyView,
) -> Result<Seq<char>, LinkErrorView> {
    let unfitting = LinkErrorView::UnexpectedFrame("unexpected command or stream identifier"@);
    if data.command != Command::Data || data.stream_id != stream_id {
        Err(unfitting)
    } else if !data.end_stream {
        Err(LinkErrorView::UnexpectedFrame("device reply did not end the stream"@))
    } else if close.command != Command::Close || close.stream_id != stream_id {
        Err(unfitting)
    } else {
        match reply {
            CallReplyView::Undecodable(detail) => Err(
                LinkErrorView::InvalidPayload { label: "device reply"@, detail },
            ),
            CallReplyView::Result(json) => Ok(json),
            CallReplyView::Error(error) => Err(LinkErrorView::Remote(error)),
        }
    }
}

/// Takes the frames that answer a call, and the reply in the first of them.
pub fn finish_call(stream_id: u32, data: Header, close: Header, reply: CallReply) -> (result:
    Result<String, LinkError>)
    ensures
        outcome(result) == call_result(stream_id, data, close, reply@),
{
    expect_reply(data, stream_id)?;
    expect(close, Command::Close, stream_id)?;
    match reply {
        CallReply::Undecodable(detail) => Err(
            LinkError::InvalidPayload { label: "device reply".to_owned(), detail },
        ),
        CallReply::Result(json) => Ok(json),
        CallReply::Error(error) => Err(LinkError::Remote(error)),
    }
}

/// A session opens only with a message of its own: one under its identifier, in the
/// host's protocol revision, from a device that says who it is. While frames of an
/// abandoned session may still come, none of them makes the handshake fail; otherwise
/// none is passed over.
pub proof fn sessions_open_with_their_own_hello(
    session_id: Seq<char>,
    discards: bool,
    header: Header,
    payload: HelloPayload,
    candidate: Candidate,
)
    requires
        judged(session_id, discards, header, payload, candidate),
    ensures
        candidate matches Candidate::Opens(hello) ==> {
            &&& payload == HelloPayload::Decoded(hello)
            &&& header.command == Command::Hello
            &&& header.stream_id == 0
            &&& hello@.session_id == session_id
            &&& hello@.protocol_version == 3
            &&& hello@.serial.len() > 0
            &&& hello@.model.len() > 0
            &&& 1 <= hello@.initial_connection_window <= 16 * 1024 * 1024
        },
        candidate is Stale ==> discards,
        discards && header.command != Command::Hello ==> candidate is Stale,
        discards ==> (payload matches HelloPayload::Decoded(hello) ==> (hello@.session_id
            != session_id ==> candidate is Stale)),
        !discards && header.command != Command::Hello ==> candidate is Fails,
        !discards ==> (payload matches HelloPayload::Decoded(hello) ==> (hello@.session_id
            != session_id ==> candidate is Fails)),
        payload matches HelloPayload::Decoded(hello) ==> (header.command == Command::Hello
            && header.stream_id == 0 && hello@.session_id == session_id && hello@.protocol_version
            != 3 ==> candidate is Fails && candidate->Fails_0@ == (
        LinkErrorView::IncompatibleProtocol { device: hello@.protocol_version, host: 3 })),
{
}

/// An acceptable opening message opens its session, whether or not frames of abandoned
/// sessions are passed over.
pub proof fn acceptable_hellos_open_their_session(
    session_id: Seq<char>,
    discards: bool,
    header: Header,
    hello: DeviceHello,
    candidate: Candidate,
)
    requires
        judged(session_id, discards, header, HelloPayload::Decoded(hello), candidate),
        header.command == Command::Hello,
        header.stream_id == 0,
        codec::is_session_id(session_id),
        hello@.session_id == session_id,
        hello@.protocol_version == 3,
        hello@.serial.len() > 0,
        hello@.model.len() > 0,
        1 <= hello@.initial_connection_window <= 16 * 1024 * 1024,
    ensures
        candidate == Candidate::Opens(hello),
{
}

/// A call has a result only when its stream carried one complete reply and was then
/// closed, both on that stream; the result is what the reply holds, and a refusal of
/// the device stays a refusal.
pub proof fn calls_end_with_one_reply(
    stream_id: u32,
    data: Header,
    close: Header,
    reply: CallReplyView,
)
    ensures
        call_result(stream_id, data, close, reply) matches Ok(json) ==> {
            &&& reply == CallReplyView::Result(json)
            &&& data.command == Command::Data
            &&& data.stream_id == stream_id
            &&& data.end_stream
            &&& close.command == Command::Close
            &&& close.stream_id == stream_id
        },
        call_result(stream_id, data, close, reply) matches Err(LinkErrorView::Remote(error))
            ==> reply == CallReplyView::Error(error),
        data.command == Command::Data && data.stream_id == stream_id && data.end_stream
            && close.command == Command::Close && close.stream_id == stream_id ==> match reply {
            CallReplyView::Result(json) => call_result(stream_id, data, close, reply) == Ok::<
                _,
                LinkErrorView,
            >(json),
            CallReplyView::Error(error) => call_result(stream_id, data, close, reply) == Err::<
                Seq<char>,
                _,
            >(LinkErrorView::Remote(error)),
            CallReplyView::Undecodable(_) => call_result(stream_id, data, close, reply) is Err,
        },
{
}

/// Clients are told what the device itself said; of any other failure they learn the
/// same, whatever it was.
pub proof fn clients_learn_what_the_device_said(said: RpcErrorView, left: LinkErrorView, right: LinkErrorView)
    ensures
        told_of(LinkErrorView::Remote(said)) == said,
        !(left is Remote) && !(right is Remote) ==> told_of(left) == told_of(right),
        !(left is Remote) ==> told_of(left).code == ErrorCode::ServerNotReady && told_of(left).detail
            is Nothing,
{
}

/// A USB session is tried twice at most, and again only after what an abandoned session
/// can have caused: a device that is absent, refuses, or speaks another revision is not
/// asked again.
pub proof fn usb_sessions_are_tried_twice_at_most(
    recovered: bool,
    error: LinkError,
    again: Result<(), LinkError>,
)
    requires
        is_usb_retry(recovered, error, again),
    ensures
        recovered ==> again is Err,
        error is UsbDeviceNotFound || error is IncompatibleProtocol || error is InvalidHello || error
            is Remote || error is InvalidPayload || error is UsbRecoveryFailed ==> again is Err,
        !recovered && (error is UnexpectedFrame || error matches LinkError::Transport(
            ErrorClass::Timeout,
            _,
        )) ==> again is Ok,
        again matches Err(failure) ==> failure == error,
{
}

/// Who has no device attached is told nothing of it. A device with another protocol is told
/// with both versions, and any other failure in one way, which names none of its causes.
pub proof fn usb_failures_are_told(error: LinkErrorView, other: LinkErrorView)
    ensures
        usb_failure(error) is None <==> error is UsbDeviceNotFound,
        error matches LinkErrorView::IncompatibleProtocol { device, host } ==> (usb_failure(error)
            matches Some(message) && text::mentions(message, number::decimal(device as nat))
            && text::mentions(message, number::decimal(host as nat))),
        usb_failure(error) is Some && usb_failure(other) is Some && !(
        error is IncompatibleProtocol) && !(other is IncompatibleProtocol) ==> usb_failure(error)
            == usb_failure(other),
{
    if let LinkErrorView::IncompatibleProtocol { device, host } = error {
        let first = number::decimal(device as nat);
        let second = number::decimal(host as nat);
        let head = "Incompatible KindleBridge daemon protocol "@;
        let middle = "; host requires "@;
        let tail = ". Install the matching KindleBridge package"@;
        let message = head + first + middle + second + tail;
        assert(message =~= head + first + (middle + second + tail));
        text::mentioned(head, first, middle + second + tail);
        text::mentioned(head + first + middle, second, tail);
    }
}

} // verus!
