//! The throughput probe of a link over USB.

use crate::bytes::same_bytes;
use crate::link::{Command, Header};
use crate::number;
use crate::number::{parse_unsigned, to_decimal};
use crate::path::{starts_with, text_from};
use crate::probe;
use crate::probe::{
    byte_count, is_control, test_payload, DEFAULT_PROBE_PAYLOAD, MAX_PROBE_PAYLOAD,
};
use crate::text;
use crate::text::{concat, quote, same_text};
use crate::usb_recovery::BufferConfig;
use vstd::pervasive::unreached;
use vstd::prelude::*;

verus! {

/// The vendor of the devices unless another is asked for.
pub const KINDLE_VENDOR_ID: u16 = 0x1949;

/// The product unless another is asked for.
pub const KT6_PRODUCT_ID: u16 = 0x9981;

/// The rounds of a probe unless others are asked for.
pub const DEFAULT_ROUNDS: u32 = 128;

/// The most rounds of a probe.
pub const MAX_ROUNDS: u32 = 99998;

/// The size of a transfer that the device takes safely.
pub const KT6_SAFE_TRANSFER_SIZE: usize = 16384;

/// The number of transfers that the device takes safely at once.
pub const KT6_SAFE_QUEUE_DEPTH: usize = 4;

/// In which direction a probe sends.
#[derive(Clone, Copy, Debug, PartialEq, Eq, Structural)]
pub enum ProbeMode {
    Duplex,
    HostToDevice,
    DeviceToHost,
}

/// The mode of this name, if there is one.
pub open spec fn mode_of(value: Seq<char>) -> Option<ProbeMode> {
    if value == "duplex"@ {
        Some(ProbeMode::Duplex)
    } else if value == "host-to-device"@ || value == "h2d"@ {
        Some(ProbeMode::HostToDevice)
    } else if value == "device-to-host"@ || value == "d2h"@ {
        Some(ProbeMode::DeviceToHost)
    } else {
        None
    }
}

/// The name of a mode.
pub open spec fn mode_name(mode: ProbeMode) -> Seq<char> {
    match mode {
        ProbeMode::Duplex => "duplex"@,
        ProbeMode::HostToDevice => "host-to-device"@,
        ProbeMode::DeviceToHost => "device-to-host"@,
    }
}

impl ProbeMode {
    /// Reads the name of a mode.
    pub fn parse(value: &str) -> (result: Result<Self, ProbeError>)
        ensures
            match mode_of(value@) {
                Some(mode) => result == Ok::<_, ProbeError>(mode),
                None => result matches Err(error) && error@ == ProbeErrorView::InvalidMode(value@),
            },
    {
        if same_text(value, "duplex") {
            Ok(ProbeMode::Duplex)
        } else if same_text(value, "host-to-device") || same_text(value, "h2d") {
            Ok(ProbeMode::HostToDevice)
        } else if same_text(value, "device-to-host") || same_text(value, "d2h") {
            Ok(ProbeMode::DeviceToHost)
        } else {
            Err(ProbeError::InvalidMode(value.to_owned()))
        }
    }

    /// The name of this mode.
    pub fn name(self) -> (name: &'static str)
        ensures
            name@ == mode_name(self),
    {
        match self {
            ProbeMode::Duplex => "duplex",
            ProbeMode::HostToDevice => "host-to-device",
            ProbeMode::DeviceToHost => "device-to-host",
        }
    }
}

/// The name of a mode is read as that mode.
pub proof fn mode_names_read_back(mode: ProbeMode)
    ensures
        mode_of(mode_name(mode)) == Some(mode),
{
    reveal_strlit("duplex");
    reveal_strlit("host-to-device");
    reveal_strlit("device-to-host");
    reveal_strlit("h2d");
    assert("duplex"@.len() == 6);
    assert("host-to-device"@[0] == 'h');
    assert("device-to-host"@[0] == 'd');
    assert("duplex"@ != "host-to-device"@);
    assert("duplex"@ != "device-to-host"@);
    assert("host-to-device"@ != "device-to-host"@);
    assert("h2d"@ != "device-to-host"@);
}

/// What a probe is to do.
#[derive(Debug)]
pub struct Arguments {
    pub vendor_id: u16,
    pub product_id: u16,
    pub serial: Option<String>,
    pub mode: ProbeMode,
    pub payload_size: u32,
    pub rounds: u32,
}

/// The model of [`Arguments`].
#[verifier::ext_equal]
pub struct ArgumentsView {
    pub vendor_id: u16,
    pub product_id: u16,
    pub serial: Option<Seq<char>>,
    pub mode: ProbeMode,
    pub payload_size: u32,
    pub rounds: u32,
}

impl View for Arguments {
    type V = ArgumentsView;

    open spec fn view(&self) -> ArgumentsView {
        ArgumentsView {
            vendor_id: self.vendor_id,
            product_id: self.product_id,
            serial: text::optional(self.serial),
            mode: self.mode,
            payload_size: self.payload_size,
            rounds: self.rounds,
        }
    }
}

/// Why a probe fails.
#[derive(Debug)]
pub enum ProbeError {
    InvalidOption(String),
    InvalidMode(String),
    InvalidPayloadSize(u32),
    InvalidRounds(u32),
    UnexpectedHello,
    MismatchedPong(u32),
    UnexpectedGoAway,
    SequenceExhausted,
    ByteCountOverflow,
    WriterPanicked,
    Writer(String),
}

/// The model of [`ProbeError`].
#[verifier::ext_equal]
pub enum ProbeErrorView {
    InvalidOption(Seq<char>),
    InvalidMode(Seq<char>),
    InvalidPayloadSize(u32),
    InvalidRounds(u32),
    UnexpectedHello,
    MismatchedPong(u32),
    UnexpectedGoAway,
    SequenceExhausted,
    ByteCountOverflow,
    WriterPanicked,
    Writer(Seq<char>),
}

impl View for ProbeError {
    type V = ProbeErrorView;

    open spec fn view(&self) -> ProbeErrorView {
        match *self {
            ProbeError::InvalidOption(name) => ProbeErrorView::InvalidOption(name@),
            ProbeError::InvalidMode(value) => ProbeErrorView::InvalidMode(value@),
            ProbeError::InvalidPayloadSize(size) => ProbeErrorView::InvalidPayloadSize(size),
            ProbeError::InvalidRounds(rounds) => ProbeErrorView::InvalidRounds(rounds),
            ProbeError::UnexpectedHello => ProbeErrorView::UnexpectedHello,
            ProbeError::MismatchedPong(sequence) => ProbeErrorView::MismatchedPong(sequence),
            ProbeError::UnexpectedGoAway => ProbeErrorView::UnexpectedGoAway,
            ProbeError::SequenceExhausted => ProbeErrorView::SequenceExhausted,
            ProbeError::ByteCountOverflow => ProbeErrorView::ByteCountOverflow,
            ProbeError::WriterPanicked => ProbeErrorView::WriterPanicked,
            ProbeError::Writer(message) => ProbeErrorView::Writer(message@),
        }
    }
}

/// What the user is told of a failed probe.
pub open spec fn message_of(error: ProbeErrorView) -> Seq<char> {
    match error {
        ProbeErrorView::InvalidOption(name) => "invalid or missing "@ + name + " value"@,
        ProbeErrorView::InvalidMode(value) => "invalid probe mode "@ + text::quoted(value)
            + "; expected duplex, host-to-device, or device-to-host"@,
        ProbeErrorView::InvalidPayloadSize(size) => "payload size "@ + number::decimal(size as nat)
            + " is outside 1..=1048576"@,
        ProbeErrorView::InvalidRounds(rounds) => "round count "@ + number::decimal(rounds as nat)
            + " is outside 1..=99998"@,
        ProbeErrorView::UnexpectedHello => "device returned an invalid HELLO"@,
        ProbeErrorView::MismatchedPong(sequence) => "device returned a mismatched PONG for "@
            + number::decimal(sequence as nat),
        ProbeErrorView::UnexpectedGoAway => "device returned an invalid GOAWAY"@,
        ProbeErrorView::SequenceExhausted => "probe sequence exhausted"@,
        ProbeErrorView::ByteCountOverflow => "probe byte count overflowed"@,
        ProbeErrorView::WriterPanicked => "USB writer thread panicked"@,
        ProbeErrorView::Writer(message) => "USB writer failed: "@ + message,
    }
}

impl ProbeError {
    /// What the user is told.
    pub fn to_text(&self) -> (text: String)
        ensures
            text@ == message_of(self@),
    {
        match self {
            ProbeError::InvalidOption(name) => {
                let mut text = concat("invalid or missing ", name.as_str());
                text.append(" value");
                text
            },
            ProbeError::InvalidMode(value) => {
                let mut text = concat("invalid probe mode ", quote(value.as_str()).as_str());
                text.append("; expected duplex, host-to-device, or device-to-host");
                text
            },
            ProbeError::InvalidPayloadSize(size) => {
                let mut text = concat("payload size ", to_decimal(*size as u64).as_str());
                text.append(" is outside 1..=1048576");
                text
            },
            ProbeError::InvalidRounds(rounds) => {
                let mut text = concat("round count ", to_decimal(*rounds as u64).as_str());
                text.append(" is outside 1..=99998");
                text
            },
            ProbeError::UnexpectedHello => "device returned an invalid HELLO".to_owned(),
            ProbeError::MismatchedPong(sequence) => concat(
                "device returned a mismatched PONG for ",
                to_decimal(*sequence as u64).as_str(),
            ),
            ProbeError::UnexpectedGoAway => "device returned an invalid GOAWAY".to_owned(),
            ProbeError::SequenceExhausted => "probe sequence exhausted".to_owned(),
            ProbeError::ByteCountOverflow => "probe byte count overflowed".to_owned(),
            ProbeError::WriterPanicked => "USB writer thread panicked".to_owned(),
            ProbeError::Writer(message) => concat("USB writer failed: ", message.as_str()),
        }
    }
}

/// How the probe buffers: sizes that the device takes safely, and the usual time
/// limits.
pub fn probe_buffer_config(read_timeout_ms: u64, write_timeout_ms: u64) -> (config: BufferConfig)
    ensures
        config == (BufferConfig {
            transfer_size: KT6_SAFE_TRANSFER_SIZE,
            read_queue_depth: KT6_SAFE_QUEUE_DEPTH,
            write_queue_depth: KT6_SAFE_QUEUE_DEPTH,
            read_timeout_ms,
            write_timeout_ms,
        }),
{
    BufferConfig {
        transfer_size: KT6_SAFE_TRANSFER_SIZE,
        read_queue_depth: KT6_SAFE_QUEUE_DEPTH,
        write_queue_depth: KT6_SAFE_QUEUE_DEPTH,
        read_timeout_ms,
        write_timeout_ms,
    }
}

/// The value of an option: the argument behind the first one that is the option and
/// has an argument behind it.
pub open spec fn value_of(arguments: Seq<Seq<char>>, name: Seq<char>) -> Option<Seq<char>>
    decreases arguments.len(),
{
    if arguments.len() < 2 {
        None
    } else if arguments[0] == name {
        Some(arguments[1])
    } else {
        value_of(arguments.skip(1), name)
    }
}

fn option_value(arguments: &Vec<String>, name: &str) -> (value: Option<String>)
    ensures
        text::optional(value) == value_of(text::all(arguments@), name@),
{
    let ghost all = text::all(arguments@);
    let mut i: usize = 1;
    assert(all.skip(0) =~= all);
    while i < arguments.len()
        invariant
            1 <= i,
            all == text::all(arguments@),
            i <= arguments@.len() || i == 1,
            value_of(all, name@) == value_of(all.skip(i - 1), name@),
        decreases arguments@.len() - i,
    {
        let ghost rest = all.skip(i - 1);
        assert(rest[0] == arguments@[i - 1]@);
        assert(rest[1] == arguments@[i as int]@);
        assert(rest.skip(1) =~= all.skip(i as int));
        if same_text(arguments[i - 1].as_str(), name) {
            return Some(arguments[i].clone());
        }
        i += 1;
    }
    assert(all.skip(i - 1).len() < 2);
    None
}

/// A number without the prefix that it may have.
pub open spec fn without_hex_prefix(value: Seq<char>) -> Seq<char> {
    if "0x"@.is_prefix_of(value) {
        value.skip(2)
    } else {
        value
    }
}

/// The value of an option that is a hexadecimal number.
pub open spec fn hex_option(arguments: Seq<Seq<char>>, name: Seq<char>, default: u16) -> Result<
    nat,
    ProbeErrorView,
> {
    match value_of(arguments, name) {
        None => Ok(default as nat),
        Some(value) => match number::unsigned(without_hex_prefix(value), 16, u16::MAX as nat) {
            Some(number) => Ok(number),
            None => Err(ProbeErrorView::InvalidOption(name)),
        },
    }
}

fn parse_hex_option(arguments: &Vec<String>, name: &str, default: u16) -> (result: Result<
    u16,
    ProbeError,
>)
    ensures
        match hex_option(text::all(arguments@), name@, default) {
            Ok(value) => result matches Ok(v) && v == value,
            Err(failure) => result matches Err(error) && error@ == failure,
        },
{
    match option_value(arguments, name) {
        None => Ok(default),
        Some(value) => {
            proof {
                reveal_strlit("0x");
            }
            let digits = if starts_with(value.as_str(), "0x") {
                text_from(value.as_str(), 2)
            } else {
                value.clone()
            };
            match parse_unsigned(digits.as_str(), 16, u16::MAX as u64) {
                Some(number) => Ok(number as u16),
                None => Err(ProbeError::InvalidOption(name.to_owned())),
            }
        },
    }
}

/// The value of an option that is a decimal number.
pub open spec fn u32_option(arguments: Seq<Seq<char>>, name: Seq<char>, default: u32) -> Result<
    nat,
    ProbeErrorView,
> {
    match value_of(arguments, name) {
        None => Ok(default as nat),
        Some(value) => match number::unsigned(value, 10, u32::MAX as nat) {
            Some(number) => Ok(number),
            None => Err(ProbeErrorView::InvalidOption(name)),
        },
    }
}

fn parse_u32_option(arguments: &Vec<String>, name: &str, default: u32) -> (result: Result<
    u32,
    ProbeError,
>)
    ensures
        match u32_option(text::all(arguments@), name@, default) {
            Ok(value) => result matches Ok(v) && v == value,
            Err(failure) => result matches Err(error) && error@ == failure,
        },
{
    match option_value(arguments, name) {
        None => Ok(default),
        Some(value) => match parse_unsigned(value.as_str(), 10, u32::MAX as u64) {
            Some(number) => Ok(number as u32),
            None => Err(ProbeError::InvalidOption(name.to_owned())),
        },
    }
}

/// The mode that the arguments ask for.
pub open spec fn mode_option(arguments: Seq<Seq<char>>) -> Result<ProbeMode, ProbeErrorView> {
    let value = match value_of(arguments, "--mode"@) {
        Some(value) => value,
        None => "duplex"@,
    };
    match mode_of(value) {
        Some(mode) => Ok(mode),
        None => Err(ProbeErrorView::InvalidMode(value)),
    }
}

/// What the arguments of a probe say: the first that cannot be understood is told.
pub open spec fn arguments_of(arguments: Seq<Seq<char>>) -> Result<ArgumentsView, ProbeErrorView> {
    match (
        hex_option(arguments, "--vid"@, KINDLE_VENDOR_ID),
        hex_option(arguments, "--pid"@, KT6_PRODUCT_ID),
        mode_option(arguments),
        u32_option(arguments, "--payload-size"@, DEFAULT_PROBE_PAYLOAD),
        u32_option(arguments, "--rounds"@, DEFAULT_ROUNDS),
    ) {
        (Err(error), _, _, _, _) => Err(error),
        (_, Err(error), _, _, _) => Err(error),
        (_, _, Err(error), _, _) => Err(error),
        (_, _, _, Err(error), _) => Err(error),
        (_, _, _, _, Err(error)) => Err(error),
        (Ok(vendor_id), Ok(product_id), Ok(mode), Ok(payload_size), Ok(rounds)) => if payload_size
            == 0 || payload_size > MAX_PROBE_PAYLOAD {
            Err(ProbeErrorView::InvalidPayloadSize(payload_size as u32))
        } else if rounds == 0 || rounds > MAX_ROUNDS {
            Err(ProbeErrorView::InvalidRounds(rounds as u32))
        } else {
            Ok(
                ArgumentsView {
                    vendor_id: vendor_id as u16,
                    product_id: product_id as u16,
                    serial: value_of(arguments, "--serial"@),
                    mode,
                    payload_size: payload_size as u32,
                    rounds: rounds as u32,
                },
            )
        },
    }
}

/// Reads the arguments of a probe.
pub fn parse_arguments(arguments: &Vec<String>) -> (result: Result<Arguments, ProbeError>)
    ensures
        match arguments_of(text::all(arguments@)) {
            Ok(parsed) => result matches Ok(value) && value@ == parsed,
            Err(failure) => result matches Err(error) && error@ == failure,
        },
{
    let vendor_id: u16 = parse_hex_option(arguments, "--vid", KINDLE_VENDOR_ID)?;
    let product_id: u16 = parse_hex_option(arguments, "--pid", KT6_PRODUCT_ID)?;
    let serial = option_value(arguments, "--serial");
    let mode = match option_value(arguments, "--mode") {
        Some(value) => ProbeMode::parse(value.as_str())?,
        None => ProbeMode::parse("duplex")?,
    };
    let payload_size: u32 = parse_u32_option(arguments, "--payload-size", DEFAULT_PROBE_PAYLOAD)?;
    let rounds: u32 = parse_u32_option(arguments, "--rounds", DEFAULT_ROUNDS)?;
    if payload_size == 0 || payload_size > MAX_PROBE_PAYLOAD {
        return Err(ProbeError::InvalidPayloadSize(payload_size));
    }
    if rounds == 0 || rounds > MAX_ROUNDS {
        return Err(ProbeError::InvalidRounds(rounds));
    }
    Ok(Arguments { vendor_id, product_id, serial, mode, payload_size, rounds })
}

/// The greeting of a probe.
pub open spec fn greeting(arguments: ArgumentsView) -> Seq<char> {
    "kindlebridge-usb-bench/0.2;mode="@ + mode_name(arguments.mode) + ";payload="@
        + number::decimal(arguments.payload_size as nat) + ";rounds="@ + number::decimal(
        arguments.rounds as nat,
    )
}

/// The greeting of a probe.
pub fn hello_payload(arguments: &Arguments) -> (text: String)
    ensures
        text@ == greeting(arguments@),
{
    let mut text = concat("kindlebridge-usb-bench/0.2;mode=", arguments.mode.name());
    text.append(";payload=");
    text.append(to_decimal(arguments.payload_size as u64).as_str());
    text.append(";rounds=");
    text.append(to_decimal(arguments.rounds as u64).as_str());
    text
}

/// What the host sends in each round, and what it expects back.
pub open spec fn payloads(mode: ProbeMode, size: nat) -> (Seq<u8>, Seq<u8>) {
    match mode {
        ProbeMode::Duplex => (probe::pattern(size), probe::pattern(size)),
        ProbeMode::HostToDevice => (probe::pattern(size), Seq::empty()),
        ProbeMode::DeviceToHost => (Seq::empty(), probe::pattern(size)),
    }
}

/// What the host sends in each round, and what it expects back.
pub fn round_payloads(mode: ProbeMode, size: u32) -> (result: (Vec<u8>, Vec<u8>))
    ensures
        (result.0@, result.1@) == payloads(mode, size as nat),
{
    let sent = match mode {
        ProbeMode::DeviceToHost => Vec::new(),
        _ => test_payload(size as usize),
    };
    let expected = match mode {
        ProbeMode::HostToDevice => Vec::new(),
        _ => test_payload(size as usize),
    };
    assert(sent@ =~= payloads(mode, size as nat).0);
    assert(expected@ =~= payloads(mode, size as nat).1);
    (sent, expected)
}

/// Checks the greeting of the device.
pub fn check_hello(header: Header) -> (result: Result<(), ProbeError>)
    ensures
        if probe::is_hello(header) {
            result is Ok
        } else {
            result matches Err(error) && error@ == ProbeErrorView::UnexpectedHello
        },
{
    if is_control(header, Command::Hello, 0) {
        Ok(())
    } else {
        Err(ProbeError::UnexpectedHello)
    }
}

/// The number of the frame of a round, counted from 0.
pub fn sequence_of(round: u32) -> (result: Result<u32, ProbeError>)
    ensures
        if round < u32::MAX {
            result matches Ok(sequence) && sequence == round + 1
        } else {
            result matches Err(error) && error@ == ProbeErrorView::SequenceExhausted
        },
{
    match round.checked_add(1) {
        Some(sequence) => Ok(sequence),
        None => Err(ProbeError::SequenceExhausted),
    }
}

/// Checks the answer to a ping: it brings what is expected.
pub fn check_pong(header: Header, payload: &[u8], sequence: u32, expected: &[u8]) -> (result:
    Result<(), ProbeError>)
    ensures
        if probe::is_pong(header, sequence) && payload@ == expected@ {
            result is Ok
        } else {
            result matches Err(error) && error@ == ProbeErrorView::MismatchedPong(sequence)
        },
{
    if is_control(header, Command::Pong, sequence) && same_bytes(payload, expected) {
        Ok(())
    } else {
        Err(ProbeError::MismatchedPong(sequence))
    }
}

/// Checks the farewell of the device.
pub fn check_goaway(header: Header, sequence: u32) -> (result: Result<(), ProbeError>)
    ensures
        if probe::is_goaway(header, sequence) {
            result is Ok
        } else {
            result matches Err(error) && error@ == ProbeErrorView::UnexpectedGoAway
        },
{
    if is_control(header, Command::GoAway, sequence) {
        Ok(())
    } else {
        Err(ProbeError::UnexpectedGoAway)
    }
}

/// The bytes that went to the device and came from it.
pub fn totals(mode: ProbeMode, payload_size: u32, rounds: u32) -> (bytes: (u64, u64))
    ensures
        bytes.0 == payloads(mode, payload_size as nat).0.len() * rounds,
        bytes.1 == payloads(mode, payload_size as nat).1.len() * rounds,
{
    let all: u64 = byte_count(payload_size, rounds);
    match mode {
        ProbeMode::Duplex => (all, all),
        ProbeMode::HostToDevice => (all, 0),
        ProbeMode::DeviceToHost => (0, all),
    }
}

/// How sending the pings ended.
#[derive(Debug)]
pub enum Written {
    Sent,
    Panicked,
    Failed(String),
}

/// What came of an action of a probe.
#[derive(Debug)]
pub enum BenchEvent {
    /// A frame with its payload.
    Frame(Header, Vec<u8>),
    /// The pings are being sent.
    Started,
    /// The sending of the pings has ended.
    Written(Written),
}

/// The model of [`BenchEvent`].
#[verifier::ext_equal]
pub enum BenchEventView {
    Frame(Header, Seq<u8>),
    Started,
    Sent,
    Panicked,
    Failed(Seq<char>),
}

impl View for BenchEvent {
    type V = BenchEventView;

    open spec fn view(&self) -> BenchEventView {
        match *self {
            BenchEvent::Frame(header, payload) => BenchEventView::Frame(header, payload@),
            BenchEvent::Started => BenchEventView::Started,
            BenchEvent::Written(Written::Sent) => BenchEventView::Sent,
            BenchEvent::Written(Written::Panicked) => BenchEventView::Panicked,
            BenchEvent::Written(Written::Failed(message)) => BenchEventView::Failed(message@),
        }
    }
}

/// What a probe needs done next.
#[derive(Debug)]
pub enum BenchAction {
    /// Send a greeting with this text and wait for a frame.
    Greet(String),
    /// Begin to send pings with this payload, numbered from 1 to the number of rounds,
    /// while frames come. The time counts from here.
    Start { payload: Vec<u8>, rounds: u32 },
    /// Wait for a frame.
    Receive,
    /// Wait until the pings have been sent.
    Join,
    /// Send a farewell with this number and wait for a frame. The time ends here.
    Leave(u32),
    /// The probe is complete: the bytes that went to the device and came from it.
    Report { host_to_device: u64, device_to_host: u64 },
    /// The probe has failed.
    Fail(ProbeError),
}

/// The model of [`BenchAction`].
#[verifier::ext_equal]
pub enum BenchActionView {
    Greet(Seq<char>),
    Start { payload: Seq<u8>, rounds: u32 },
    Receive,
    Join,
    Leave(u32),
    Report { host_to_device: u64, device_to_host: u64 },
    Fail(ProbeErrorView),
}

impl View for BenchAction {
    type V = BenchActionView;

    open spec fn view(&self) -> BenchActionView {
        match *self {
            BenchAction::Greet(text) => BenchActionView::Greet(text@),
            BenchAction::Start { payload, rounds } => BenchActionView::Start {
                payload: payload@,
                rounds,
            },
            BenchAction::Receive => BenchActionView::Receive,
            BenchAction::Join => BenchActionView::Join,
            BenchAction::Leave(sequence) => BenchActionView::Leave(sequence),
            BenchAction::Report { host_to_device, device_to_host } => BenchActionView::Report {
                host_to_device,
                device_to_host,
            },
            BenchAction::Fail(error) => BenchActionView::Fail(error@),
        }
    }
}

/// Where a probe stands.
#[derive(Clone, Copy, Debug, PartialEq, Eq, Structural)]
pub enum BenchStage {
    /// It waits for the greeting of the device.
    Greeting,
    /// It waits until the pings are being sent.
    Starting,
    /// It waits for an answer, after so many of them.
    Receiving(u32),
    /// It waits until the pings have been sent.
    Joining,
    /// It waits for the farewell with this number.
    Leaving(u32),
    Over,
}

/// Whether an event answers the action of a stage.
pub open spec fn answers(stage: BenchStage, event: BenchEventView) -> bool {
    match stage {
        BenchStage::Greeting => event is Frame,
        BenchStage::Starting => event is Started,
        BenchStage::Receiving(_) => event is Frame,
        BenchStage::Joining => event is Sent || event is Panicked || event is Failed,
        BenchStage::Leaving(_) => event is Frame,
        BenchStage::Over => false,
    }
}

/// The probe goes on after so many answers: it waits for the next one, or after the
/// last one for the pings.
pub open spec fn awaits(rounds: u32, received: u32) -> (BenchStage, BenchActionView) {
    if received < rounds {
        (BenchStage::Receiving(received), BenchActionView::Receive)
    } else {
        (BenchStage::Joining, BenchActionView::Join)
    }
}

/// The probe has failed.
pub open spec fn failed(error: ProbeErrorView) -> (BenchStage, BenchActionView) {
    (BenchStage::Over, BenchActionView::Fail(error))
}

/// What an event leads to.
pub open spec fn bench_next(
    mode: ProbeMode,
    payload_size: u32,
    rounds: u32,
    stage: BenchStage,
    event: BenchEventView,
) -> (BenchStage, BenchActionView) {
    let (sent, expected) = payloads(mode, payload_size as nat);
    match (stage, event) {
        (BenchStage::Greeting, BenchEventView::Frame(header, _)) => if probe::is_hello(header) {
            (BenchStage::Starting, BenchActionView::Start { payload: sent, rounds })
        } else {
            failed(ProbeErrorView::UnexpectedHello)
        },
        (BenchStage::Starting, BenchEventView::Started) => awaits(rounds, 0),
        (
            BenchStage::Receiving(received),
            BenchEventView::Frame(header, payload),
        ) => if received == u32::MAX {
            failed(ProbeErrorView::SequenceExhausted)
        } else if probe::is_pong(header, (received + 1) as u32) && payload == expected {
            awaits(rounds, (received + 1) as u32)
        } else {
            failed(ProbeErrorView::MismatchedPong((received + 1) as u32))
        },
        (BenchStage::Joining, BenchEventView::Panicked) => failed(ProbeErrorView::WriterPanicked),
        (BenchStage::Joining, BenchEventView::Failed(message)) => failed(
            ProbeErrorView::Writer(message),
        ),
        (BenchStage::Joining, BenchEventView::Sent) => if rounds == u32::MAX {
            failed(ProbeErrorView::SequenceExhausted)
        } else {
            (BenchStage::Leaving((rounds + 1) as u32), BenchActionView::Leave((rounds + 1) as u32))
        },
        (BenchStage::Leaving(sequence), BenchEventView::Frame(header, _)) => if probe::is_goaway(
            header,
            sequence,
        ) {
            (
                BenchStage::Over,
                BenchActionView::Report {
                    host_to_device: (sent.len() * rounds) as u64,
                    device_to_host: (expected.len() * rounds) as u64,
                },
            )
        } else {
            failed(ProbeErrorView::UnexpectedGoAway)
        },
        _ => arbitrary(),
    }
}

/// A probe of a link over USB, from the greeting to the report.
#[derive(Debug)]
pub struct UsbBench {
    mode: ProbeMode,
    payload_size: u32,
    rounds: u32,
    expected: Vec<u8>,
    stage: BenchStage,
}

impl UsbBench {
    /// In which direction it sends.
    pub closed spec fn mode(&self) -> ProbeMode {
        self.mode
    }

    /// The size of a payload.
    pub closed spec fn payload_size(&self) -> u32 {
        self.payload_size
    }

    /// The number of rounds.
    pub closed spec fn rounds(&self) -> u32 {
        self.rounds
    }

    /// Where it stands.
    pub closed spec fn stage(&self) -> BenchStage {
        self.stage
    }

    /// What is expected of each round is known.
    pub closed spec fn wf(&self) -> bool {
        self.expected@ == payloads(self.mode, self.payload_size as nat).1
    }

    /// Begins with a greeting.
    pub fn begin(arguments: &Arguments) -> (next: (UsbBench, BenchAction))
        ensures
            next.0.wf(),
            next.0.mode() == arguments.mode,
            next.0.payload_size() == arguments.payload_size,
            next.0.rounds() == arguments.rounds,
            next.0.stage() == BenchStage::Greeting,
            next.1@ == BenchActionView::Greet(greeting(arguments@)),
    {
        let expected = round_payloads(arguments.mode, arguments.payload_size).1;
        let bench = UsbBench {
            mode: arguments.mode,
            payload_size: arguments.payload_size,
            rounds: arguments.rounds,
            expected,
            stage: BenchStage::Greeting,
        };
        (bench, BenchAction::Greet(hello_payload(arguments)))
    }

    fn fail(&mut self, error: ProbeError) -> (action: BenchAction)
        requires
            old(self).wf(),
        ensures
            final(self).wf(),
            final(self).mode() == old(self).mode(),
            final(self).payload_size() == old(self).payload_size(),
            final(self).rounds() == old(self).rounds(),
            (final(self).stage(), action@) == failed(error@),
    {
        self.stage = BenchStage::Over;
        BenchAction::Fail(error)
    }

    fn await_answer(&mut self, received: u32) -> (action: BenchAction)
        requires
            old(self).wf(),
        ensures
            final(self).wf(),
            final(self).mode() == old(self).mode(),
            final(self).payload_size() == old(self).payload_size(),
            final(self).rounds() == old(self).rounds(),
            (final(self).stage(), action@) == awaits(old(self).rounds(), received),
    {
        if received < self.rounds {
            self.stage = BenchStage::Receiving(received);
            BenchAction::Receive
        } else {
            self.stage = BenchStage::Joining;
            BenchAction::Join
        }
    }

    /// Takes what came of the last action, and decides on the next.
    pub fn advance(&mut self, event: BenchEvent) -> (action: BenchAction)
        requires
            old(self).wf(),
            answers(old(self).stage(), event@),
        ensures
            final(self).wf(),
            final(self).mode() == old(self).mode(),
            final(self).payload_size() == old(self).payload_size(),
            final(self).rounds() == old(self).rounds(),
            (final(self).stage(), action@) == bench_next(
                old(self).mode(),
                old(self).payload_size(),
                old(self).rounds(),
                old(self).stage(),
                event@,
            ),
    {
        match (self.stage, event) {
            (BenchStage::Greeting, BenchEvent::Frame(header, _)) => match check_hello(header) {
                Err(error) => self.fail(error),
                Ok(()) => {
                    self.stage = BenchStage::Starting;
                    let payload = round_payloads(self.mode, self.payload_size).0;
                    BenchAction::Start { payload, rounds: self.rounds }
                },
            },
            (BenchStage::Starting, BenchEvent::Started) => self.await_answer(0),
            (BenchStage::Receiving(received), BenchEvent::Frame(header, payload)) => {
                let sequence: u32 = match sequence_of(received) {
                    Ok(sequence) => sequence,
                    Err(error) => {
                        return self.fail(error);
                    },
                };
                match check_pong(header, payload.as_slice(), sequence, self.expected.as_slice()) {
                    Ok(()) => self.await_answer(sequence),
                    Err(error) => self.fail(error),
                }
            },
            (BenchStage::Joining, BenchEvent::Written(Written::Panicked)) => self.fail(
                ProbeError::WriterPanicked,
            ),
            (BenchStage::Joining, BenchEvent::Written(Written::Failed(message))) => self.fail(
                ProbeError::Writer(message),
            ),
            (BenchStage::Joining, BenchEvent::Written(Written::Sent)) => {
                match sequence_of(self.rounds) {
                    Err(error) => self.fail(error),
                    Ok(sequence) => {
                        self.stage = BenchStage::Leaving(sequence);
                        BenchAction::Leave(sequence)
                    },
                }
            },
            (BenchStage::Leaving(sequence), BenchEvent::Frame(header, _)) => {
                match check_goaway(header, sequence) {
                    Err(error) => self.fail(error),
                    Ok(()) => {
                        self.stage = BenchStage::Over;
                        let bytes = totals(self.mode, self.payload_size, self.rounds);
                        BenchAction::Report { host_to_device: bytes.0, device_to_host: bytes.1 }
                    },
                }
            },
            _ => unreached(),
        }
    }
}

/// Where a probe stands after these answers; one that has ended takes no more.
pub open spec fn answered(
    mode: ProbeMode,
    payload_size: u32,
    rounds: u32,
    stage: BenchStage,
    frames: Seq<(Header, Seq<u8>)>,
) -> BenchStage
    decreases frames.len(),
{
    if frames.len() == 0 || stage == BenchStage::Over {
        stage
    } else {
        let event = BenchEventView::Frame(frames[0].0, frames[0].1);
        answered(
            mode,
            payload_size,
            rounds,
            bench_next(mode, payload_size, rounds, stage, event).0,
            frames.skip(1),
        )
    }
}

/// A probe gets to its farewell by the answers of all its rounds: those from `received`
/// on, numbered one by one up to the last, each with the payload that is expected.
pub proof fn every_round_is_answered(
    mode: ProbeMode,
    payload_size: u32,
    rounds: u32,
    received: u32,
    frames: Seq<(Header, Seq<u8>)>,
)
    requires
        received < rounds,
        frames.len() == rounds - received,
    ensures
        (answered(mode, payload_size, rounds, BenchStage::Receiving(received), frames)
            == BenchStage::Joining) == (forall|i: int|
            0 <= i < frames.len() ==> {
                &&& probe::is_pong((#[trigger] frames[i]).0, (received + i + 1) as u32)
                &&& frames[i].1 == payloads(mode, payload_size as nat).1
            }),
    decreases frames.len(),
{
    let expected = payloads(mode, payload_size as nat).1;
    let first = frames[0];
    let rest = frames.skip(1);
    let event = BenchEventView::Frame(first.0, first.1);
    let stage = BenchStage::Receiving(received);
    let next = bench_next(mode, payload_size, rounds, stage, event).0;
    if probe::is_pong(first.0, (received + 1) as u32) && first.1 == expected {
        let done = (received + 1) as u32;
        if done < rounds {
            every_round_is_answered(mode, payload_size, rounds, done, rest);
            assert forall|i: int| 0 <= i < frames.len() && (forall|k: int|
                0 <= k < rest.len() ==> probe::is_pong((#[trigger] rest[k]).0, (done + k + 1) as u32)
                    && rest[k].1 == expected) implies probe::is_pong(
                (#[trigger] frames[i]).0,
                (received + i + 1) as u32,
            ) && frames[i].1 == expected by {
                if i > 0 {
                    assert(rest[i - 1] == frames[i]);
                }
            }
            assert forall|k: int| 0 <= k < rest.len() && (forall|i: int|
                0 <= i < frames.len() ==> probe::is_pong(
                    (#[trigger] frames[i]).0,
                    (received + i + 1) as u32,
                ) && frames[i].1 == expected) implies probe::is_pong(
                (#[trigger] rest[k]).0,
                (done + k + 1) as u32,
            ) && rest[k].1 == expected by {
                assert(rest[k] == frames[k + 1]);
            }
        } else {
            assert(rest.len() == 0);
            assert(answered(mode, payload_size, rounds, next, rest) == next);
        }
    } else {
        assert(answered(mode, payload_size, rounds, next, rest) == BenchStage::Over);
    }
}

/// What was found of a device on the bus.
#[derive(Clone, Copy, Debug, PartialEq, Eq, Structural)]
pub struct Selection {
    pub interface_number: u8,
    pub alternate_setting: u8,
    pub bulk_in_address: u8,
    pub bulk_out_address: u8,
    pub bulk_in_max_packet_size: usize,
    pub bulk_out_max_packet_size: usize,
}

/// What a probe reports, but for the rates.
#[derive(Debug)]
pub struct Report {
    pub vendor_id: u16,
    pub product_id: u16,
    pub interface_number: u8,
    pub alternate_setting: u8,
    pub bulk_in_address: u8,
    pub bulk_out_address: u8,
    pub max_packet_size: usize,
    pub queue_depth_each_direction: usize,
    pub transfer_size: usize,
    pub mode: &'static str,
    pub rounds: u32,
    pub payload_size: u32,
    pub host_to_device_bytes: u64,
    pub device_to_host_bytes: u64,
    pub elapsed_millis: u64,
}

/// The smaller of two sizes.
pub open spec fn smaller(left: usize, right: usize) -> usize {
    if left <= right {
        left
    } else {
        right
    }
}

fn smaller_of(left: usize, right: usize) -> (size: usize)
    ensures
        size == smaller(left, right),
{
    if left <= right {
        left
    } else {
        right
    }
}

/// Reports a complete probe. Both directions are limited by the smaller of their
/// packets and queues.
pub fn report(
    arguments: &Arguments,
    selection: Selection,
    buffers: BufferConfig,
    host_to_device_bytes: u64,
    device_to_host_bytes: u64,
    elapsed_millis: u128,
) -> (report: Report)
    ensures
        report.vendor_id == arguments.vendor_id,
        report.product_id == arguments.product_id,
        report.interface_number == selection.interface_number,
        report.alternate_setting == selection.alternate_setting,
        report.bulk_in_address == selection.bulk_in_address,
        report.bulk_out_address == selection.bulk_out_address,
        report.max_packet_size == smaller(
            selection.bulk_in_max_packet_size,
            selection.bulk_out_max_packet_size,
        ),
        report.queue_depth_each_direction == smaller(
            buffers.read_queue_depth,
            buffers.write_queue_depth,
        ),
        report.transfer_size == buffers.transfer_size,
        report.mode@ == mode_name(arguments.mode),
        report.rounds == arguments.rounds,
        report.payload_size == arguments.payload_size,
        report.host_to_device_bytes == host_to_device_bytes,
        report.device_to_host_bytes == device_to_host_bytes,
        report.elapsed_millis == (if elapsed_millis <= u64::MAX {
            elapsed_millis as u64
        } else {
            u64::MAX
        }),
{
    Report {
        vendor_id: arguments.vendor_id,
        product_id: arguments.product_id,
        interface_number: selection.interface_number,
        alternate_setting: selection.alternate_setting,
        bulk_in_address: selection.bulk_in_address,
        bulk_out_address: selection.bulk_out_address,
        max_packet_size: smaller_of(
            selection.bulk_in_max_packet_size,
            selection.bulk_out_max_packet_size,
        ),
        queue_depth_each_direction: smaller_of(buffers.read_queue_depth, buffers.write_queue_depth),
        transfer_size: buffers.transfer_size,
        mode: arguments.mode.name(),
        rounds: arguments.rounds,
        payload_size: arguments.payload_size,
        host_to_device_bytes,
        device_to_host_bytes,
        elapsed_millis: if elapsed_millis <= u64::MAX as u128 {
            elapsed_millis as u64
        } else {
            u64::MAX
        },
    }
}

/// A probe that is accepted is bounded in size and in number, so that its frames, and
/// the farewell behind them, can be numbered.
pub proof fn accepted_probes_are_bounded(arguments: Seq<Seq<char>>)
    ensures
        arguments_of(arguments) matches Ok(parsed) ==> {
            &&& 1 <= parsed.payload_size <= 1024 * 1024
            &&& 1 <= parsed.rounds <= 99998
            &&& parsed.serial == value_of(arguments, "--serial"@)
        },
        arguments.len() == 0 ==> arguments_of(arguments) == Ok::<_, ProbeErrorView>(
            ArgumentsView {
                vendor_id: 0x1949,
                product_id: 0x9981,
                serial: None,
                mode: ProbeMode::Duplex,
                payload_size: 262144,
                rounds: 128,
            },
        ),
{
}

/// An option is taken from where it stands: its value is the argument behind it, and
/// without it there is none.
pub proof fn options_are_taken_from_behind_their_name(
    before: Seq<Seq<char>>,
    name: Seq<char>,
    value: Seq<char>,
    after: Seq<Seq<char>>,
)
    requires
        !before.contains(name),
    ensures
        value_of(before, name) is None,
        value_of(before + seq![name, value] + after, name) == Some(value),
        value_of(before + seq![name], name) is None,
    decreases before.len(),
{
    let all = before + seq![name, value] + after;
    let cut = before + seq![name];
    if before.len() > 0 {
        let rest = before.skip(1);
        assert forall|i: int| 0 <= i < rest.len() implies rest[i] != name by {
            assert(before[i + 1] == rest[i]);
        }
        options_are_taken_from_behind_their_name(rest, name, value, after);
        assert(before.contains(before[0]));
        assert(all[0] == before[0]);
        assert(cut[0] == before[0]);
        assert(all.skip(1) =~= rest + seq![name, value] + after);
        assert(cut.skip(1) =~= rest + seq![name]);
    } else {
        assert(all[0] == name && all[1] == value);
    }
}

/// The bytes of a probe go only in the direction of its mode: all of them there, and
/// none the other way. Both directions carry the same in a probe of both.
pub proof fn probes_send_in_their_direction(mode: ProbeMode, size: nat)
    ensures
        mode == ProbeMode::HostToDevice ==> payloads(mode, size).0.len() == size && payloads(
            mode,
            size,
        ).1.len() == 0,
        mode == ProbeMode::DeviceToHost ==> payloads(mode, size).0.len() == 0 && payloads(
            mode,
            size,
        ).1.len() == size,
        mode == ProbeMode::Duplex ==> payloads(mode, size).0 == payloads(mode, size).1 && payloads(
            mode,
            size,
        ).0.len() == size,
        payloads(mode, size).0.len() > 0 ==> payloads(mode, size).0 == probe::pattern(size),
        payloads(mode, size).1.len() > 0 ==> payloads(mode, size).1 == probe::pattern(size),
{
}

/// A probe reports once the device has answered its farewell, under the number behind
/// the last ping, and it reports every byte that went each way. A failure to send is
/// its failure.
pub proof fn completed_probes_report_every_byte(
    mode: ProbeMode,
    payload_size: u32,
    rounds: u32,
    stage: BenchStage,
    event: BenchEventView,
)
    requires
        answers(stage, event),
        rounds < u32::MAX,
    ensures
        ({
            let next = bench_next(mode, payload_size, rounds, stage, event);
            let both = payload_size * rounds;
            &&& next.1 matches BenchActionView::Report { host_to_device, device_to_host } ==> {
                &&& stage matches BenchStage::Leaving(sequence)
                &&& event matches BenchEventView::Frame(header, _)
                &&& header.command == Command::GoAway
                &&& header.sequence == sequence
                &&& host_to_device == if mode == ProbeMode::DeviceToHost {
                    0
                } else {
                    both
                }
                &&& device_to_host == if mode == ProbeMode::HostToDevice {
                    0
                } else {
                    both
                }
            }
            &&& next.1 matches BenchActionView::Leave(sequence) ==> {
                &&& stage == BenchStage::Joining
                &&& event is Sent
                &&& sequence == rounds + 1
                &&& next.0 == BenchStage::Leaving(sequence)
            }
            &&& stage == BenchStage::Joining && !(event is Sent) ==> next.1 is Fail
        }),
{
    assert(payload_size * rounds <= 0xffff_ffff * 0xffff_ffff) by (nonlinear_arith)
        requires
            payload_size <= 0xffff_ffff,
            rounds <= 0xffff_ffff,
    ;
}

} // verus!
