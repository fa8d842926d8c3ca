//! Recovering a USB link whose last session was abandoned in the middle of a
//! frame.
//!
//! The host fills the device's input with zeros up to the size of the largest
//! frame, and drains what the device still has to say, both at once: doing one
//! before the other could block both ends.

use crate::link;
use crate::link::{LinkError, LinkErrorView};
use vstd::prelude::*;

verus! {

/// The size of one USB transfer. It fits an order-2 page allocation on the
/// device; larger ones make it fragile.
pub const USB_TRANSFER_SIZE: usize = 16384;

/// The number of reads in flight.
pub const USB_READ_QUEUE_DEPTH: usize = 4;

/// The number of writes in flight.
pub const USB_WRITE_QUEUE_DEPTH: usize = 4;

/// How long the opening handshake waits, in milliseconds.
pub const USB_HANDSHAKE_TIMEOUT_MS: u64 = 2000;

/// How long a recovery waits, in milliseconds.
pub const USB_RECOVERY_TIMEOUT_MS: u64 = 10000;

/// How long a recovery waits for one inbound transfer, in milliseconds.
pub const USB_RECOVERY_DRAIN_POLL_MS: u64 = 250;

/// How a USB transport buffers.
#[derive(Clone, Copy, Debug, PartialEq, Eq, Structural)]
pub struct BufferConfig {
    pub transfer_size: usize,
    pub read_queue_depth: usize,
    pub write_queue_depth: usize,
    pub read_timeout_ms: u64,
    pub write_timeout_ms: u64,
}

/// How the transport buffers during the opening handshake.
pub fn usb_buffer_config() -> (config: BufferConfig)
    ensures
        config == (BufferConfig {
            transfer_size: USB_TRANSFER_SIZE,
            read_queue_depth: USB_READ_QUEUE_DEPTH,
            write_queue_depth: USB_WRITE_QUEUE_DEPTH,
            read_timeout_ms: USB_HANDSHAKE_TIMEOUT_MS,
            write_timeout_ms: USB_HANDSHAKE_TIMEOUT_MS,
        }),
{
    BufferConfig {
        transfer_size: USB_TRANSFER_SIZE,
        read_queue_depth: USB_READ_QUEUE_DEPTH,
        write_queue_depth: USB_WRITE_QUEUE_DEPTH,
        read_timeout_ms: USB_HANDSHAKE_TIMEOUT_MS,
        write_timeout_ms: USB_HANDSHAKE_TIMEOUT_MS,
    }
}

/// A writer together with the number of bytes that it has taken.
pub struct CountingWriter<W> {
    inner: W,
    bytes_written: u64,
}

impl<W> CountingWriter<W> {
    /// The writer.
    pub closed spec fn inner(&self) -> W {
        self.inner
    }

    /// The number of bytes.
    pub closed spec fn count(&self) -> u64 {
        self.bytes_written
    }

    /// A writer that has taken nothing.
    pub fn new(inner: W) -> (writer: Self)
        ensures
            writer.inner() == inner,
            writer.count() == 0,
    {
        CountingWriter { inner, bytes_written: 0 }
    }

    /// The number of bytes that the writer has taken.
    pub fn bytes_written(&self) -> (count: u64)
        ensures
            count == self.count(),
    {
        self.bytes_written
    }

    /// Notes that the writer has taken more bytes. The count stops at the end of
    /// its range.
    pub fn wrote(&mut self, written: usize)
        ensures
            final(self).inner() == old(self).inner(),
            final(self).count() == (if old(self).count() + written > u64::MAX {
                u64::MAX as int
            } else {
                old(self).count() + written
            }),
    {
        self.bytes_written = self.bytes_written.saturating_add(written as u64);
    }

    /// The writer itself.
    pub fn into_inner(self) -> (inner: W)
        ensures
            inner == self.inner(),
    {
        self.inner
    }
}

/// The number of bytes in some chunks.
pub open spec fn sum(chunks: Seq<usize>) -> nat
    decreases chunks.len(),
{
    if chunks.len() == 0 {
        0
    } else {
        sum(chunks.drop_last()) + chunks.last() as nat
    }
}

/// The sizes of the zero-filled chunks that cover one frame of the largest
/// payload: full transfers, and what is left.
pub fn recovery_fill(largest_payload: usize) -> (chunks: Vec<usize>)
    ensures
        sum(chunks@) == largest_payload,
        forall|i: int|
            0 <= i < chunks@.len() - 1 ==> #[trigger] chunks@[i] == USB_TRANSFER_SIZE,
        forall|i: int| 0 <= i < chunks@.len() ==> 0 < #[trigger] chunks@[i] <= USB_TRANSFER_SIZE,
{
    let mut chunks: Vec<usize> = Vec::new();
    let mut remaining: usize = largest_payload;
    while remaining > 0
        invariant
            remaining <= largest_payload,
            sum(chunks@) + remaining == largest_payload,
            remaining > 0 ==> forall|i: int|
                0 <= i < chunks@.len() ==> #[trigger] chunks@[i] == USB_TRANSFER_SIZE,
            forall|i: int|
                0 <= i < chunks@.len() - 1 ==> #[trigger] chunks@[i] == USB_TRANSFER_SIZE,
            forall|i: int|
                0 <= i < chunks@.len() ==> 0 < #[trigger] chunks@[i] <= USB_TRANSFER_SIZE,
        decreases remaining,
    {
        let length: usize = if remaining < USB_TRANSFER_SIZE {
            remaining
        } else {
            USB_TRANSFER_SIZE
        };
        let ghost before = chunks@;
        chunks.push(length);
        assert(chunks@.drop_last() =~= before);
        remaining -= length;
    }
    chunks
}

/// What one read from the device gave.
#[derive(Debug)]
pub enum InboundRead {
    /// So many bytes; none at the end of the stream.
    Bytes(usize),
    /// The read was interrupted.
    Interrupted,
    /// Nothing came in time.
    Idle,
    /// The read failed.
    Failed(String),
}

/// How a drain goes on.
#[derive(Debug)]
pub enum DrainStep {
    Continue,
    Finished,
    Failed(String),
}

/// What has been drained from the device.
#[derive(Clone, Copy, Debug, PartialEq, Eq, Structural)]
pub struct RecoveryDrain {
    pub bytes: u64,
    pub timeouts: u64,
}

impl RecoveryDrain {
    /// Nothing yet.
    pub fn new() -> (drain: Self)
        ensures
            drain == (RecoveryDrain { bytes: 0, timeouts: 0 }),
    {
        RecoveryDrain { bytes: 0, timeouts: 0 }
    }
}

/// A counter that wraps around.
pub open spec fn wrapped(value: u64, more: nat) -> u64 {
    ((value + more) % 0x1_0000_0000_0000_0000) as u64
}

/// Whether this is what one read from the device makes of a drain.
pub open spec fn is_drain_step(
    before: RecoveryDrain,
    read: InboundRead,
    outbound_done: bool,
    after: RecoveryDrain,
    step: DrainStep,
) -> bool {
    match read {
        InboundRead::Bytes(length) => if length == 0 {
            step == DrainStep::Finished && after == before
        } else {
            step == DrainStep::Continue && after == (RecoveryDrain {
                bytes: wrapped(before.bytes, length as nat),
                ..before
            })
        },
        InboundRead::Interrupted => step == DrainStep::Continue && after == before,
        InboundRead::Idle => after == (RecoveryDrain {
            timeouts: wrapped(before.timeouts, 1),
            ..before
        }) && step == (if outbound_done {
            DrainStep::Finished
        } else {
            DrainStep::Continue
        }),
        InboundRead::Failed(reason) => step == DrainStep::Failed(reason) && after == before,
    }
}

/// Takes one read from the device. A quiet moment ends the drain only when the
/// host has written all it has to write: before that the device can begin
/// another batch.
pub fn drain_usb_recovery_inbound(
    drain: &mut RecoveryDrain,
    read: InboundRead,
    outbound_done: bool,
) -> (step: DrainStep)
    ensures
        is_drain_step(*old(drain), read, outbound_done, *final(drain), step),
{
    match read {
        InboundRead::Bytes(length) => {
            if length == 0 {
                DrainStep::Finished
            } else {
                drain.bytes = drain.bytes.wrapping_add(length as u64);
                DrainStep::Continue
            }
        },
        InboundRead::Interrupted => DrainStep::Continue,
        InboundRead::Idle => {
            drain.timeouts = drain.timeouts.wrapping_add(1);
            if outbound_done {
                DrainStep::Finished
            } else {
                DrainStep::Continue
            }
        },
        InboundRead::Failed(reason) => DrainStep::Failed(reason),
    }
}

/// How the two directions of a recovery ended.
#[derive(Debug)]
pub struct RecoveryExchange {
    /// How writing ended.
    pub outbound: Result<(), String>,
    /// How draining ended, if it came to an end.
    pub inbound: Option<Result<(), String>>,
    pub drain: RecoveryDrain,
    pub outbound_bytes: u64,
}

/// The failure of a recovery, with how far it came.
pub open spec fn recovery_failed(exchange: RecoveryExchange, reason: Seq<char>) -> LinkErrorView {
    LinkErrorView::UsbRecoveryFailed {
        inbound_bytes: exchange.drain.bytes,
        inbound_timeouts: exchange.drain.timeouts,
        outbound_bytes: exchange.outbound_bytes,
        reason,
    }
}

/// How a recovery ended as a whole.
pub open spec fn recovered(exchange: RecoveryExchange) -> Result<(), LinkErrorView> {
    match exchange.inbound {
        None => Err(LinkErrorView::UnexpectedFrame("USB recovery reader panicked"@)),
        Some(inbound) => match exchange.outbound {
            Err(reason) => Err(recovery_failed(exchange, reason@)),
            Ok(()) => match inbound {
                Err(reason) => Err(recovery_failed(exchange, reason@)),
                Ok(()) => Ok(()),
            },
        },
    }
}

/// How a recovery ended as a whole: a failure to write counts before a failure
/// to drain.
pub fn recovery_outcome(exchange: RecoveryExchange) -> (result: Result<(), LinkError>)
    ensures
        link::outcome(result) == recovered(exchange),
{
    let inbound = match exchange.inbound {
        None => {
            return Err(LinkError::unexpected("USB recovery reader panicked"));
        },
        Some(inbound) => inbound,
    };
    let reason = match exchange.outbound {
        Err(reason) => reason,
        Ok(()) => match inbound {
            Err(reason) => reason,
            Ok(()) => {
                return Ok(());
            },
        },
    };
    Err(
        LinkError::UsbRecoveryFailed {
            inbound_bytes: exchange.drain.bytes,
            inbound_timeouts: exchange.drain.timeouts,
            outbound_bytes: exchange.outbound_bytes,
            reason,
        },
    )
}

/// Whether reads, one behind the other, make these of a drain and none of them ends it.
/// The flags say whether all had been written at each of them.
pub open spec fn drained(states: Seq<RecoveryDrain>, reads: Seq<(InboundRead, bool)>) -> bool {
    &&& states.len() == reads.len() + 1
    &&& forall|i: int|
        0 <= i < reads.len() ==> is_drain_step(
            states[i],
            (#[trigger] reads[i]).0,
            reads[i].1,
            states[i + 1],
            DrainStep::Continue,
        )
}

/// The bytes that reads have given.
pub open spec fn bytes_read(reads: Seq<(InboundRead, bool)>) -> nat
    decreases reads.len(),
{
    if reads.len() == 0 {
        0
    } else {
        bytes_read(reads.drop_last()) + match reads.last().0 {
            InboundRead::Bytes(length) => length as nat,
            _ => 0nat,
        }
    }
}

/// How many reads found nothing in time.
pub open spec fn quiet_reads(reads: Seq<(InboundRead, bool)>) -> nat
    decreases reads.len(),
{
    if reads.len() == 0 {
        0
    } else {
        quiet_reads(reads.drop_last()) + match reads.last().0 {
            InboundRead::Idle => 1nat,
            _ => 0nat,
        }
    }
}

/// A drain counts every byte and every quiet moment, and nothing else.
pub proof fn drained_bytes_are_counted(
    states: Seq<RecoveryDrain>,
    reads: Seq<(InboundRead, bool)>,
)
    requires
        drained(states, reads),
        states[0] == (RecoveryDrain { bytes: 0, timeouts: 0 }),
        bytes_read(reads) <= u64::MAX,
        quiet_reads(reads) <= u64::MAX,
    ensures
        states.last().bytes == bytes_read(reads),
        states.last().timeouts == quiet_reads(reads),
    decreases reads.len(),
{
    if reads.len() > 0 {
        let last = reads.len() - 1;
        assert forall|i: int| 0 <= i < reads.drop_last().len() implies is_drain_step(
            states.drop_last()[i],
            (#[trigger] reads.drop_last()[i]).0,
            reads.drop_last()[i].1,
            states.drop_last()[i + 1],
            DrainStep::Continue,
        ) by {
            assert(reads[i] == reads.drop_last()[i]);
        }
        drained_bytes_are_counted(states.drop_last(), reads.drop_last());
        assert(reads[last] == reads.last());
        assert(states.drop_last().last() == states[last]);
    }
}

/// A drain goes on as long as bytes come or the host still writes, and ends well only
/// at the end of the stream or at a quiet moment after all has been written. A failed
/// read fails it, with its reason.
pub proof fn drains_end_when_all_is_quiet(
    before: RecoveryDrain,
    read: InboundRead,
    outbound_done: bool,
    after: RecoveryDrain,
    step: DrainStep,
)
    requires
        is_drain_step(before, read, outbound_done, after, step),
    ensures
        step is Finished <==> read == InboundRead::Bytes(0) || (read is Idle && outbound_done),
        read matches InboundRead::Failed(reason) ==> step == DrainStep::Failed(reason),
        step is Failed ==> read is Failed,
        !(read is Idle) ==> after.timeouts == before.timeouts,
        !(read is Bytes) ==> after.bytes == before.bytes,
{
}

/// A recovery has succeeded only when both directions have; a failed one tells how far
/// it came, and why writing failed before why reading did.
pub proof fn recoveries_succeed_both_ways(exchange: RecoveryExchange)
    ensures
        recovered(exchange) is Ok <==> exchange.outbound is Ok && exchange.inbound is Some
            && exchange.inbound->0 is Ok,
        exchange.inbound is Some ==> (exchange.outbound matches Err(reason) ==> recovered(exchange)
            == Err::<(), _>(
            LinkErrorView::UsbRecoveryFailed {
                inbound_bytes: exchange.drain.bytes,
                inbound_timeouts: exchange.drain.timeouts,
                outbound_bytes: exchange.outbound_bytes,
                reason: reason@,
            },
        )),
        exchange.outbound is Ok ==> (exchange.inbound matches Some(Err(reason)) ==> recovered(
            exchange,
        ) == Err::<(), _>(
            LinkErrorView::UsbRecoveryFailed {
                inbound_bytes: exchange.drain.bytes,
                inbound_timeouts: exchange.drain.timeouts,
                outbound_bytes: exchange.outbound_bytes,
                reason: reason@,
            },
        )),
{
}

} // verus!
