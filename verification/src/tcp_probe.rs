//! The probe of a link over TCP.

use crate::bytes::same_bytes;
use crate::link::{Command, Header};
use crate::number;
use crate::number::{parse_unsigned, to_decimal};
use crate::probe;
use crate::probe::{
    byte_count, is_control, test_payload, DEFAULT_PROBE_PAYLOAD, MAX_PROBE_PAYLOAD,
};
use crate::text;
use crate::text::{concat, same_text};
use vstd::pervasive::unreached;
use vstd::prelude::*;

verus! {

/// The rounds of a probe unless others are asked for.
pub const DEFAULT_ROUNDS: u32 = 64;

/// The most rounds of a probe.
pub const MAX_ROUNDS: u32 = 100000;

/// What a probe is to do.
#[derive(Debug)]
pub struct Arguments {
    pub address: String,
    pub payload_size: u32,
    pub rounds: u32,
}

/// The model of [`Arguments`].
#[verifier::ext_equal]
pub struct ArgumentsView {
    pub address: Seq<char>,
    pub payload_size: u32,
    pub rounds: u32,
}

impl View for Arguments {
    type V = ArgumentsView;

    open spec fn view(&self) -> ArgumentsView {
        ArgumentsView {
            address: self.address@,
            payload_size: self.payload_size,
            rounds: self.rounds,
        }
    }
}

/// Why a probe fails.
#[derive(Debug)]
pub enum ProbeClientError {
    Usage,
    InvalidAddress,
    MissingOptionValue(String),
    InvalidOptionValue(String),
    InvalidPayloadSize(u32),
    InvalidRounds(u32),
    UnexpectedHello,
    MismatchedPong(u32),
    SequenceExhausted,
    ByteCountOverflow,
    FrameConstruction,
    TransportWrite,
    WriterPanicked,
}

/// The model of [`ProbeClientError`].
#[verifier::ext_equal]
pub enum ProbeClientErrorView {
    Usage,
    InvalidAddress,
    MissingOptionValue(Seq<char>),
    InvalidOptionValue(Seq<char>),
    InvalidPayloadSize(u32),
    InvalidRounds(u32),
    UnexpectedHello,
    MismatchedPong(u32),
    SequenceExhausted,
    ByteCountOverflow,
    FrameConstruction,
    TransportWrite,
    WriterPanicked,
}

impl View for ProbeClientError {
    type V = ProbeClientErrorView;

    open spec fn view(&self) -> ProbeClientErrorView {
        match *self {
            ProbeClientError::Usage => ProbeClientErrorView::Usage,
            ProbeClientError::InvalidAddress => ProbeClientErrorView::InvalidAddress,
            ProbeClientError::MissingOptionValue(option) => {
                ProbeClientErrorView::MissingOptionValue(option@)
            },
            ProbeClientError::InvalidOptionValue(option) => {
                ProbeClientErrorView::InvalidOptionValue(option@)
            },
            ProbeClientError::InvalidPayloadSize(size) => ProbeClientErrorView::InvalidPayloadSize(
                size,
            ),
            ProbeClientError::InvalidRounds(rounds) => ProbeClientErrorView::InvalidRounds(rounds),
            ProbeClientError::UnexpectedHello => ProbeClientErrorView::UnexpectedHello,
            ProbeClientError::MismatchedPong(sequence) => ProbeClientErrorView::MismatchedPong(
                sequence,
            ),
            ProbeClientError::SequenceExhausted => ProbeClientErrorView::SequenceExhausted,
            ProbeClientError::ByteCountOverflow => ProbeClientErrorView::ByteCountOverflow,
            ProbeClientError::FrameConstruction => ProbeClientErrorView::FrameConstruction,
            ProbeClientError::TransportWrite => ProbeClientErrorView::TransportWrite,
            ProbeClientError::WriterPanicked => ProbeClientErrorView::WriterPanicked,
        }
    }
}

/// What the user is told of a failed probe.
pub open spec fn message_of(error: ProbeClientErrorView) -> Seq<char> {
    match error {
        ProbeClientErrorView::Usage => {
            "usage: kindlebridge-tcp-probe IP:PORT [--payload-size BYTES] [--rounds N]"@
        },
        ProbeClientErrorView::InvalidAddress => "address must be an IP address and port"@,
        ProbeClientErrorView::MissingOptionValue(option) => option + " requires a value"@,
        ProbeClientErrorView::InvalidOptionValue(option) => option + " must be an integer"@,
        ProbeClientErrorView::InvalidPayloadSize(size) => "payload size "@ + number::decimal(
            size as nat,
        ) + " is outside 1..=1048576"@,
        ProbeClientErrorView::InvalidRounds(rounds) => "round count "@ + number::decimal(
            rounds as nat,
        ) + " is outside 1..=100000"@,
        ProbeClientErrorView::UnexpectedHello => "device returned an invalid probe HELLO"@,
        ProbeClientErrorView::MismatchedPong(sequence) => {
            "device returned a mismatched PONG for sequence "@ + number::decimal(sequence as nat)
        },
        ProbeClientErrorView::SequenceExhausted => "probe sequence space exhausted"@,
        ProbeClientErrorView::ByteCountOverflow => "probe byte count overflowed"@,
        ProbeClientErrorView::FrameConstruction => "failed to construct probe frame"@,
        ProbeClientErrorView::TransportWrite => "probe writer transport failed"@,
        ProbeClientErrorView::WriterPanicked => "probe writer thread panicked"@,
    }
}

impl ProbeClientError {
    /// What the user is told.
    pub fn to_text(&self) -> (text: String)
        ensures
            text@ == message_of(self@),
    {
        match self {
            ProbeClientError::Usage => {
                "usage: kindlebridge-tcp-probe IP:PORT [--payload-size BYTES] [--rounds N]".to_owned()
            },
            ProbeClientError::InvalidAddress => "address must be an IP address and port".to_owned(),
            ProbeClientError::MissingOptionValue(option) => concat(
                option.as_str(),
                " requires a value",
            ),
            ProbeClientError::InvalidOptionValue(option) => concat(
                option.as_str(),
                " must be an integer",
            ),
            ProbeClientError::InvalidPayloadSize(size) => {
                let mut text = concat("payload size ", to_decimal(*size as u64).as_str());
                text.append(" is outside 1..=1048576");
                text
            },
            ProbeClientError::InvalidRounds(rounds) => {
                let mut text = concat("round count ", to_decimal(*rounds as u64).as_str());
                text.append(" is outside 1..=100000");
                text
            },
            ProbeClientError::UnexpectedHello => "device returned an invalid probe HELLO".to_owned(),
            ProbeClientError::MismatchedPong(sequence) => concat(
                "device returned a mismatched PONG for sequence ",
                to_decimal(*sequence as u64).as_str(),
            ),
            ProbeClientError::SequenceExhausted => "probe sequence space exhausted".to_owned(),
            ProbeClientError::ByteCountOverflow => "probe byte count overflowed".to_owned(),
            ProbeClientError::FrameConstruction => "failed to construct probe frame".to_owned(),
            ProbeClientError::TransportWrite => "probe writer transport failed".to_owned(),
            ProbeClientError::WriterPanicked => "probe writer thread panicked".to_owned(),
        }
    }
}

/// The position of the first argument that reads so, if there is one.
pub open spec fn position_of(arguments: Seq<Seq<char>>, option: Seq<char>) -> Option<nat>
    decreases arguments.len(),
{
    if arguments.len() == 0 {
        None
    } else if arguments[0] == option {
        Some(0)
    } else {
        match position_of(arguments.skip(1), option) {
            Some(position) => Some(position + 1),
            None => None,
        }
    }
}

/// The value of an option: the argument behind it, or else the default.
pub open spec fn u32_option(arguments: Seq<Seq<char>>, option: Seq<char>, default: u32) -> Result<
    nat,
    ProbeClientErrorView,
> {
    match position_of(arguments, option) {
        None => Ok(default as nat),
        Some(position) => if position + 1 >= arguments.len() {
            Err(ProbeClientErrorView::MissingOptionValue(option))
        } else {
            match number::unsigned(arguments[position as int + 1], 10, u32::MAX as nat) {
                Some(value) => Ok(value),
                None => Err(ProbeClientErrorView::InvalidOptionValue(option)),
            }
        },
    }
}

fn find_option(arguments: &Vec<String>, option: &str) -> (position: Option<usize>)
    ensures
        match position {
            Some(i) => i < arguments@.len() && position_of(text::all(arguments@), option@) == Some(
                i as nat,
            ),
            None => position_of(text::all(arguments@), option@) is None,
        },
{
    let ghost all = text::all(arguments@);
    let mut i: usize = 0;
    assert(all.skip(0) =~= all);
    while i < arguments.len()
        invariant
            i <= arguments@.len(),
            all == text::all(arguments@),
            position_of(all, option@) == (match position_of(all.skip(i as int), option@) {
                Some(position) => Some(position + i as nat),
                None => None,
            }),
        decreases arguments@.len() - i,
    {
        assert(all.skip(i as int)[0] == arguments@[i as int]@);
        assert(all.skip(i as int).skip(1) =~= all.skip(i + 1));
        if same_text(arguments[i].as_str(), option) {
            return Some(i);
        }
        i += 1;
    }
    assert(all.skip(i as int).len() == 0);
    None
}

fn parse_u32_option(arguments: &Vec<String>, option: &str, default: u32) -> (result: Result<
    u32,
    ProbeClientError,
>)
    ensures
        match u32_option(text::all(arguments@), option@, default) {
            Ok(value) => result matches Ok(v) && v == value,
            Err(failure) => result matches Err(error) && error@ == failure,
        },
{
    match find_option(arguments, option) {
        None => Ok(default),
        Some(i) => {
            if i >= arguments.len() - 1 {
                return Err(ProbeClientError::MissingOptionValue(option.to_owned()));
            }
            match parse_unsigned(arguments[i + 1].as_str(), 10, u32::MAX as u64) {
                Some(value) => Ok(value as u32),
                None => Err(ProbeClientError::InvalidOptionValue(option.to_owned())),
            }
        },
    }
}

/// What the arguments of a probe say.
pub open spec fn arguments_of(arguments: Seq<Seq<char>>, is_address: bool) -> Result<
    ArgumentsView,
    ProbeClientErrorView,
> {
    if arguments.len() == 0 {
        Err(ProbeClientErrorView::Usage)
    } else if !is_address {
        Err(ProbeClientErrorView::InvalidAddress)
    } else {
        match (
            u32_option(arguments, "--payload-size"@, DEFAULT_PROBE_PAYLOAD),
            u32_option(arguments, "--rounds"@, DEFAULT_ROUNDS),
        ) {
            (Err(error), _) => Err(error),
            (Ok(_), Err(error)) => Err(error),
            (Ok(payload_size), Ok(rounds)) => if payload_size == 0 || payload_size
                > MAX_PROBE_PAYLOAD {
                Err(ProbeClientErrorView::InvalidPayloadSize(payload_size as u32))
            } else if rounds == 0 || rounds > MAX_ROUNDS {
                Err(ProbeClientErrorView::InvalidRounds(rounds as u32))
            } else {
                Ok(
                    ArgumentsView {
                        address: arguments[0],
                        payload_size: payload_size as u32,
                        rounds: rounds as u32,
                    },
                )
            },
        }
    }
}

/// Reads the arguments of a probe. Whether the first one is an IP address and a port
/// is for the host to say.
pub fn parse_arguments(arguments: &Vec<String>, is_address: bool) -> (result: Result<
    Arguments,
    ProbeClientError,
>)
    ensures
        match arguments_of(text::all(arguments@), is_address) {
            Ok(parsed) => result matches Ok(value) && value@ == parsed,
            Err(failure) => result matches Err(error) && error@ == failure,
        },
{
    if arguments.len() == 0 {
        return Err(ProbeClientError::Usage);
    }
    if !is_address {
        return Err(ProbeClientError::InvalidAddress);
    }
    let payload_size: u32 = parse_u32_option(arguments, "--payload-size", DEFAULT_PROBE_PAYLOAD)?;
    let rounds: u32 = parse_u32_option(arguments, "--rounds", DEFAULT_ROUNDS)?;
    if payload_size == 0 || payload_size > MAX_PROBE_PAYLOAD {
        return Err(ProbeClientError::InvalidPayloadSize(payload_size));
    }
    if rounds == 0 || rounds > MAX_ROUNDS {
        return Err(ProbeClientError::InvalidRounds(rounds));
    }
    Ok(Arguments { address: arguments[0].clone(), payload_size, rounds })
}

/// Checks the greeting of the device.
pub fn check_hello(header: Header) -> (result: Result<(), ProbeClientError>)
    ensures
        if probe::is_hello(header) {
            result is Ok
        } else {
            result matches Err(error) && error@ == ProbeClientErrorView::UnexpectedHello
        },
{
    if is_control(header, Command::Hello, 0) {
        Ok(())
    } else {
        Err(ProbeClientError::UnexpectedHello)
    }
}

/// The number of the frame of a round, counted from 0.
pub fn sequence_of(round: u32) -> (result: Result<u32, ProbeClientError>)
    ensures
        if round < u32::MAX {
            result matches Ok(sequence) && sequence == round + 1
        } else {
            result matches Err(error) && error@ == ProbeClientErrorView::SequenceExhausted
        },
{
    match round.checked_add(1) {
        Some(sequence) => Ok(sequence),
        None => Err(ProbeClientError::SequenceExhausted),
    }
}

/// Checks the answer to a ping: it brings back what was sent.
pub fn check_pong(header: Header, payload: &[u8], sequence: u32, payload_size: u32) -> (result:
    Result<(), ProbeClientError>)
    ensures
        if probe::is_pong(header, sequence) && payload@ == probe::pattern(payload_size as nat) {
            result is Ok
        } else {
            result matches Err(error) && error@ == ProbeClientErrorView::MismatchedPong(sequence)
        },
{
    if is_control(header, Command::Pong, sequence) && same_bytes(
        payload,
        test_payload(payload_size as usize).as_slice(),
    ) {
        Ok(())
    } else {
        Err(ProbeClientError::MismatchedPong(sequence))
    }
}

/// A probe that is accepted is bounded, and its frames can be numbered.
pub proof fn accepted_probes_are_bounded(arguments: Seq<Seq<char>>, is_address: bool)
    requires
        arguments_of(arguments, is_address) is Ok,
    ensures
        0 < arguments_of(arguments, is_address)->Ok_0.payload_size <= MAX_PROBE_PAYLOAD,
        0 < arguments_of(arguments, is_address)->Ok_0.rounds <= MAX_ROUNDS,
        arguments_of(arguments, is_address)->Ok_0.rounds < u32::MAX,
{
}

/// What came of an action of a probe.
#[derive(Debug)]
pub enum ProbeEvent {
    /// A frame with its payload.
    Frame(Header, Vec<u8>),
    /// The pings are being sent.
    Started,
    /// The sending of the pings has ended, with this failure if it failed.
    Written(Option<ProbeClientError>),
    /// The farewell has been sent.
    Left,
}

/// The model of [`ProbeEvent`].
#[verifier::ext_equal]
pub enum ProbeEventView {
    Frame(Header, Seq<u8>),
    Started,
    Written(Option<ProbeClientErrorView>),
    Left,
}

impl View for ProbeEvent {
    type V = ProbeEventView;

    open spec fn view(&self) -> ProbeEventView {
        match *self {
            ProbeEvent::Frame(header, payload) => ProbeEventView::Frame(header, payload@),
            ProbeEvent::Started => ProbeEventView::Started,
            ProbeEvent::Written(None) => ProbeEventView::Written(None),
            ProbeEvent::Written(Some(error)) => ProbeEventView::Written(Some(error@)),
            ProbeEvent::Left => ProbeEventView::Left,
        }
    }
}

/// What a probe needs done next.
#[derive(Debug)]
pub enum ProbeAction {
    /// Send a greeting with this text and wait for a frame.
    Greet(String),
    /// Read the greeting of the device as JSON, and begin to send pings with this
    /// payload, numbered from 1 to the number of rounds, while frames come. The time
    /// counts from here.
    Start { hello: Vec<u8>, payload: Vec<u8>, rounds: u32 },
    /// Wait for a frame.
    Receive,
    /// Wait until the pings have been sent.
    Join,
    /// Send a farewell with this number. The time ends here.
    Leave(u32),
    /// The probe is complete: the bytes that went in each direction.
    Report(u64),
    /// The probe has failed.
    Fail(ProbeClientError),
}

/// The model of [`ProbeAction`].
#[verifier::ext_equal]
pub enum ProbeActionView {
    Greet(Seq<char>),
    Start { hello: Seq<u8>, payload: Seq<u8>, rounds: u32 },
    Receive,
    Join,
    Leave(u32),
    Report(u64),
    Fail(ProbeClientErrorView),
}

impl View for ProbeAction {
    type V = ProbeActionView;

    open spec fn view(&self) -> ProbeActionView {
        match *self {
            ProbeAction::Greet(text) => ProbeActionView::Greet(text@),
            ProbeAction::Start { hello, payload, rounds } => ProbeActionView::Start {
                hello: hello@,
                payload: payload@,
                rounds,
            },
            ProbeAction::Receive => ProbeActionView::Receive,
            ProbeAction::Join => ProbeActionView::Join,
            ProbeAction::Leave(sequence) => ProbeActionView::Leave(sequence),
            ProbeAction::Report(bytes) => ProbeActionView::Report(bytes),
            ProbeAction::Fail(error) => ProbeActionView::Fail(error@),
        }
    }
}

/// Where a probe stands.
#[derive(Clone, Copy, Debug, PartialEq, Eq, Structural)]
pub enum ProbeStage {
    /// It waits for the greeting of the device.
    Greeting,
    /// It waits until the pings are being sent.
    Starting,
    /// It waits for an answer, after so many of them.
    Receiving(u32),
    /// It waits until the pings have been sent.
    Joining,
    /// It waits until the farewell has been sent.
    Leaving,
    Over,
}

/// Whether an event answers the action of a stage.
pub open spec fn answers(stage: ProbeStage, event: ProbeEventView) -> bool {
    match stage {
        ProbeStage::Greeting => event is Frame,
        ProbeStage::Starting => event is Started,
        ProbeStage::Receiving(_) => event is Frame,
        ProbeStage::Joining => event is Written,
        ProbeStage::Leaving => event is Left,
        ProbeStage::Over => false,
    }
}

/// The probe goes on after so many answers: it waits for the next one, or after the
/// last one for the pings.
pub open spec fn awaits(rounds: u32, received: u32) -> (ProbeStage, ProbeActionView) {
    if received < rounds {
        (ProbeStage::Receiving(received), ProbeActionView::Receive)
    } else {
        (ProbeStage::Joining, ProbeActionView::Join)
    }
}

/// The probe has failed.
pub open spec fn failed(error: ProbeClientErrorView) -> (ProbeStage, ProbeActionView) {
    (ProbeStage::Over, ProbeActionView::Fail(error))
}

/// What an event leads to.
pub open spec fn probe_next(
    payload_size: u32,
    rounds: u32,
    stage: ProbeStage,
    event: ProbeEventView,
) -> (ProbeStage, ProbeActionView) {
    match (stage, event) {
        (ProbeStage::Greeting, ProbeEventView::Frame(header, hello)) => if probe::is_hello(header) {
            (
                ProbeStage::Starting,
                ProbeActionView::Start {
                    hello,
                    payload: probe::pattern(payload_size as nat),
                    rounds,
                },
            )
        } else {
            failed(ProbeClientErrorView::UnexpectedHello)
        },
        (ProbeStage::Starting, ProbeEventView::Started) => awaits(rounds, 0),
        (
            ProbeStage::Receiving(received),
            ProbeEventView::Frame(header, payload),
        ) => if received == u32::MAX {
            failed(ProbeClientErrorView::SequenceExhausted)
        } else if probe::is_pong(header, (received + 1) as u32) && payload == probe::pattern(
            payload_size as nat,
        ) {
            awaits(rounds, (received + 1) as u32)
        } else {
            failed(ProbeClientErrorView::MismatchedPong((received + 1) as u32))
        },
        (ProbeStage::Joining, ProbeEventView::Written(Some(error))) => failed(error),
        (ProbeStage::Joining, ProbeEventView::Written(None)) => if rounds == u32::MAX {
            failed(ProbeClientErrorView::SequenceExhausted)
        } else {
            (ProbeStage::Leaving, ProbeActionView::Leave((rounds + 1) as u32))
        },
        (ProbeStage::Leaving, ProbeEventView::Left) => (
            ProbeStage::Over,
            ProbeActionView::Report((payload_size * rounds) as u64),
        ),
        _ => arbitrary(),
    }
}

/// A probe of a link over TCP, from the greeting to the report.
#[derive(Debug)]
pub struct TcpProbe {
    payload_size: u32,
    rounds: u32,
    stage: ProbeStage,
}

impl TcpProbe {
    /// The size of a payload.
    pub closed spec fn payload_size(&self) -> u32 {
        self.payload_size
    }

    /// The number of rounds.
    pub closed spec fn rounds(&self) -> u32 {
        self.rounds
    }

    /// Where it stands.
    pub closed spec fn stage(&self) -> ProbeStage {
        self.stage
    }

    /// Begins with a greeting.
    pub fn begin(arguments: &Arguments) -> (next: (TcpProbe, ProbeAction))
        ensures
            next.0.payload_size() == arguments.payload_size,
            next.0.rounds() == arguments.rounds,
            next.0.stage() == ProbeStage::Greeting,
            next.1@ == ProbeActionView::Greet("kindlebridge-tcp-probe/0.1"@),
    {
        let probe = TcpProbe {
            payload_size: arguments.payload_size,
            rounds: arguments.rounds,
            stage: ProbeStage::Greeting,
        };
        (probe, ProbeAction::Greet("kindlebridge-tcp-probe/0.1".to_owned()))
    }

    fn fail(&mut self, error: ProbeClientError) -> (action: ProbeAction)
        ensures
            final(self).payload_size() == old(self).payload_size(),
            final(self).rounds() == old(self).rounds(),
            (final(self).stage(), action@) == failed(error@),
    {
        self.stage = ProbeStage::Over;
        ProbeAction::Fail(error)
    }

    fn await_answer(&mut self, received: u32) -> (action: ProbeAction)
        ensures
            final(self).payload_size() == old(self).payload_size(),
            final(self).rounds() == old(self).rounds(),
            (final(self).stage(), action@) == awaits(old(self).rounds(), received),
    {
        if received < self.rounds {
            self.stage = ProbeStage::Receiving(received);
            ProbeAction::Receive
        } else {
            self.stage = ProbeStage::Joining;
            ProbeAction::Join
        }
    }

    /// Takes what came of the last action, and decides on the next.
    pub fn advance(&mut self, event: ProbeEvent) -> (action: ProbeAction)
        requires
            answers(old(self).stage(), event@),
        ensures
            final(self).payload_size() == old(self).payload_size(),
            final(self).rounds() == old(self).rounds(),
            (final(self).stage(), action@) == probe_next(
                old(self).payload_size(),
                old(self).rounds(),
                old(self).stage(),
                event@,
            ),
    {
        match (self.stage, event) {
            (ProbeStage::Greeting, ProbeEvent::Frame(header, hello)) => match check_hello(header) {
                Err(error) => self.fail(error),
                Ok(()) => {
                    self.stage = ProbeStage::Starting;
                    let payload = test_payload(self.payload_size as usize);
                    ProbeAction::Start { hello, payload, rounds: self.rounds }
                },
            },
            (ProbeStage::Starting, ProbeEvent::Started) => self.await_answer(0),
            (ProbeStage::Receiving(received), ProbeEvent::Frame(header, payload)) => {
                let sequence: u32 = match sequence_of(received) {
                    Ok(sequence) => sequence,
                    Err(error) => {
                        return self.fail(error);
                    },
                };
                match check_pong(header, payload.as_slice(), sequence, self.payload_size) {
                    Ok(()) => self.await_answer(sequence),
                    Err(error) => self.fail(error),
                }
            },
            (ProbeStage::Joining, ProbeEvent::Written(Some(error))) => self.fail(error),
            (ProbeStage::Joining, ProbeEvent::Written(None)) => match sequence_of(self.rounds) {
                Err(error) => self.fail(error),
                Ok(sequence) => {
                    self.stage = ProbeStage::Leaving;
                    ProbeAction::Leave(sequence)
                },
            },
            (ProbeStage::Leaving, ProbeEvent::Left) => {
                self.stage = ProbeStage::Over;
                ProbeAction::Report(byte_count(self.payload_size, self.rounds))
            },
            _ => unreached(),
        }
    }
}

/// Whether frames are the answers to the pings, in order and each with what was sent.
pub open spec fn all_answered(payload_size: u32, frames: Seq<(Header, Seq<u8>)>) -> bool {
    forall|i: int|
        0 <= i < frames.len() ==> {
            let frame = #[trigger] frames[i];
            &&& frame.0.command == Command::Pong
            &&& frame.0.stream_id == 0
            &&& frame.0.sequence == i + 1
            &&& frame.1 == probe::pattern(payload_size as nat)
        }
}

/// Where frames, one behind the other, lead once the pings are being sent.
pub open spec fn stage_after(
    payload_size: u32,
    rounds: u32,
    frames: Seq<(Header, Seq<u8>)>,
) -> ProbeStage
    decreases frames.len(),
{
    if frames.len() == 0 {
        probe_next(payload_size, rounds, ProbeStage::Starting, ProbeEventView::Started).0
    } else {
        let before = stage_after(payload_size, rounds, frames.drop_last());
        if before is Receiving {
            probe_next(
                payload_size,
                rounds,
                before,
                ProbeEventView::Frame(frames.last().0, frames.last().1),
            ).0
        } else {
            before
        }
    }
}

/// A probe waits for one answer to each ping, in order, and goes on only with those
/// that bring back what was sent; the first that does not ends it.
pub proof fn every_ping_is_answered(
    payload_size: u32,
    rounds: u32,
    frames: Seq<(Header, Seq<u8>)>,
)
    requires
        frames.len() <= rounds < u32::MAX,
    ensures
        stage_after(payload_size, rounds, frames) == (if !all_answered(payload_size, frames) {
            ProbeStage::Over
        } else if frames.len() < rounds {
            ProbeStage::Receiving(frames.len() as u32)
        } else {
            ProbeStage::Joining
        }),
    decreases frames.len(),
{
    if frames.len() > 0 {
        let head = frames.drop_last();
        every_ping_is_answered(payload_size, rounds, head);
        assert(frames[frames.len() - 1] == frames.last());
        if all_answered(payload_size, frames) {
            assert forall|i: int| 0 <= i < head.len() implies {
                let frame = #[trigger] head[i];
                &&& frame.0.command == Command::Pong
                &&& frame.0.stream_id == 0
                &&& frame.0.sequence == i + 1
                &&& frame.1 == probe::pattern(payload_size as nat)
            } by {
                assert(head[i] == frames[i]);
            }
        } else if all_answered(payload_size, head) {
            let i = choose|i: int|
                0 <= i < frames.len() && {
                    let frame = #[trigger] frames[i];
                    !(frame.0.command == Command::Pong && frame.0.stream_id == 0
                        && frame.0.sequence == i + 1 && frame.1 == probe::pattern(
                        payload_size as nat,
                    ))
                };
            if i < head.len() {
                assert(head[i] == frames[i]);
            }
        }
    }
}

/// A probe reports once every ping has been answered and the device has been told
/// goodbye, under the number behind the last ping; it reports every byte that went out.
/// A failure to send is its failure.
pub proof fn completed_probes_report_every_byte(
    payload_size: u32,
    rounds: u32,
    stage: ProbeStage,
    event: ProbeEventView,
)
    requires
        answers(stage, event),
        rounds < u32::MAX,
    ensures
        ({
            let next = probe_next(payload_size, rounds, stage, event);
            &&& next.1 is Report ==> stage == ProbeStage::Leaving
            &&& next.1 is Leave ==> stage == ProbeStage::Joining && event
                == ProbeEventView::Written(None)
            &&& next.1 matches ProbeActionView::Report(bytes) ==> bytes == payload_size * rounds
            &&& next.1 matches ProbeActionView::Leave(sequence) ==> sequence == rounds + 1
            &&& next.1 matches ProbeActionView::Start { hello, payload, rounds: pings } ==> {
                &&& event matches ProbeEventView::Frame(header, greeting)
                &&& greeting == hello
                &&& header.command == Command::Hello
                &&& payload.len() == payload_size
                &&& pings == rounds
            }
            &&& event matches ProbeEventView::Written(Some(error)) ==> next.1
                == ProbeActionView::Fail(error)
            &&& next.1 is Fail <==> next.0 == ProbeStage::Over && !(next.1 is Report)
        }),
{
    assert(payload_size * rounds <= 0xffff_ffff * 0xffff_ffff) by (nonlinear_arith)
        requires
            payload_size <= 0xffff_ffff,
            rounds <= 0xffff_ffff,
    ;
}

/// An option is taken from where it stands: its value is the argument behind it, and
/// without it the default holds.
pub proof fn options_are_taken_from_behind_their_name(
    before: Seq<Seq<char>>,
    option: Seq<char>,
    value: u32,
    after: Seq<Seq<char>>,
    default: u32,
)
    requires
        !before.contains(option),
    ensures
        u32_option(before, option, default) == Ok::<_, ProbeClientErrorView>(default as nat),
        u32_option(
            before + seq![option, number::decimal(value as nat)] + after,
            option,
            default,
        ) == Ok::<_, ProbeClientErrorView>(value as nat),
        u32_option(before + seq![option], option, default) == Err::<nat, _>(
            ProbeClientErrorView::MissingOptionValue(option),
        ),
{
    let pair = seq![option, number::decimal(value as nat)];
    first_position(before, option, pair + after);
    first_position(before, option, seq![option]);
    assert(before + pair + after =~= before + (pair + after));
    no_position(before, option);
    number::decimal_reads_back(value as nat, u32::MAX as nat);
}

proof fn no_position(arguments: Seq<Seq<char>>, option: Seq<char>)
    requires
        !arguments.contains(option),
    ensures
        position_of(arguments, option) is None,
    decreases arguments.len(),
{
    if arguments.len() > 0 {
        assert(arguments.contains(arguments[0]));
        let rest = arguments.skip(1);
        assert forall|i: int| 0 <= i < rest.len() implies rest[i] != option by {
            assert(arguments[i + 1] == rest[i]);
        }
        no_position(rest, option);
    }
}

proof fn first_position(before: Seq<Seq<char>>, option: Seq<char>, rest: Seq<Seq<char>>)
    requires
        !before.contains(option),
        rest.len() > 0,
        rest[0] == option,
    ensures
        position_of(before + rest, option) == Some(before.len()),
    decreases before.len(),
{
    let all = before + rest;
    if before.len() == 0 {
        assert(all =~= rest);
    } else {
        assert(before.contains(before[0]));
        let tail = before.skip(1);
        assert forall|i: int| 0 <= i < tail.len() implies tail[i] != option by {
            assert(before[i + 1] == tail[i]);
        }
        first_position(tail, option, rest);
        assert(all.skip(1) =~= tail + rest);
    }
}

} // verus!
