//! One push over a stream of the device link, from hashing the source to the
//! device's word that it has the file.
//!
//! [`PushSource`] and [`PushStream`] decide. Their caller does what they ask for, on
//! the stream or on the source, and hands back what came of it.

use crate::codec;
use crate::link;
use crate::link::{expect, Command, Header, LinkError, LinkErrorView};
use crate::model::{
    SyncProgressPhase, SyncPushParams, SyncPushParamsView, SyncPushResult, SyncPushResultView,
};
use crate::rpc_error;
use crate::rpc_error::{ErrorCode, RpcError};
use crate::sync_client;
use crate::sync_client::{
    check_cancelled, take_reply, FileHash, PushOffer, PushOfferView, PushTransfer, PushTransferView,
    SyncReply, SyncReplyView, SyncRequest, SyncRequestView,
};
use crate::sync_operation::{HostSyncOperation, SyncOperationView};
use vstd::pervasive::unreached;
use vstd::prelude::*;

verus! {

/// The source of a push while its digest is taken.
pub struct PushSource {
    params: SyncPushParams,
    total_size: u64,
    hash: FileHash,
}

/// The model of [`PushSource`].
#[verifier::ext_equal]
pub struct PushSourceView {
    pub params: SyncPushParamsView,
    pub total_size: u64,
    /// What has been read.
    pub content: Seq<u8>,
}

impl View for PushSource {
    type V = PushSourceView;

    closed spec fn view(&self) -> PushSourceView {
        PushSourceView {
            params: self.params@,
            total_size: self.total_size,
            content: self.hash.content(),
        }
    }
}

impl PushSource {
    /// No more has been read than the source holds.
    pub closed spec fn wf(&self) -> bool {
        self.hash.wf() && self.hash.length() == self.total_size
    }

    /// Begins with a source that has been opened: only a file can be pushed.
    pub fn begin<H>(
        params: SyncPushParams,
        is_file: bool,
        total_size: u64,
        operation: &mut HostSyncOperation<H>,
    ) -> (result: Result<PushSource, RpcError>)
        ensures
            result matches Ok(source) ==> source.wf(),
            rpc_error::outcome(result) == (if is_file {
                Ok(
                    PushSourceView { params: params@, total_size, content: Seq::empty() },
                )
            } else {
                Err(rpc_error::invalid_params("local_path must name a file"@))
            }),
            final(operation)@ == (if is_file {
                SyncOperationView {
                    phase: SyncProgressPhase::Hashing,
                    transferred: 0,
                    total: total_size,
                    ..old(operation)@
                }
            } else {
                old(operation)@
            }),
    {
        if !is_file {
            return Err(RpcError::invalid_params("local_path must name a file"));
        }
        operation.phase(SyncProgressPhase::Hashing, 0, total_size);
        Ok(PushSource { params, total_size, hash: FileHash::new(total_size) })
    }

    /// How many bytes of the source to read next, unless the push has been cancelled:
    /// 0 when all have been read.
    pub fn wanted<H>(&self, operation: &HostSyncOperation<H>) -> (wanted: Result<usize, RpcError>)
        requires
            self.wf(),
        ensures
            rpc_error::outcome(wanted) == (if self@.content.len() == self@.total_size {
                Ok(0usize)
            } else if operation@.cancelled {
                Err(sync_client::cancelled())
            } else {
                Ok(sync_client::next_read(self@.total_size - self@.content.len()) as usize)
            }),
    {
        let wanted: usize = self.hash.wanted();
        if wanted > 0 && operation.is_cancelled() {
            return Err(RpcError::new(ErrorCode::TransferCancelled, "Transfer cancelled"));
        }
        Ok(wanted)
    }

    /// Takes bytes that were read. A source that ends early is refused.
    pub fn read<H>(&mut self, bytes: &[u8], operation: &mut HostSyncOperation<H>) -> (result: Result<
        (),
        RpcError,
    >)
        requires
            old(self).wf(),
            bytes@.len() <= old(self)@.total_size - old(self)@.content.len(),
        ensures
            final(self).wf(),
            final(self)@ == (PushSourceView {
                content: old(self)@.content + bytes@,
                ..old(self)@
            }),
            rpc_error::outcome(result) == (if bytes@.len() == 0 {
                Err(rpc_error::invalid_params("local file ended while hashing"@))
            } else {
                Ok(())
            }),
            final(operation)@ == (if bytes@.len() == 0 {
                old(operation)@
            } else {
                SyncOperationView {
                    transferred: final(self)@.content.len() as u64,
                    ..old(operation)@
                }
            }),
    {
        if bytes.len() == 0 {
            assert(old(self)@.content + bytes@ =~= old(self)@.content);
            return Err(RpcError::invalid_params("local file ended while hashing"));
        }
        self.hash.feed(bytes);
        operation.transferred(self.hash.read());
        Ok(())
    }

    /// Goes on to send the source once all of it has been read.
    pub fn finish<H>(self, operation: &mut HostSyncOperation<H>) -> (next: (PushStream, PushAction))
        requires
            self.wf(),
            self@.content.len() == self@.total_size,
        ensures
            next.0.wf(),
            next.0@ == (PushStreamView {
                block_size: self@.params.block_size,
                stage: PushStage::Opening {
                    offer: offer_of(
                        self@.params,
                        self@.total_size,
                        codec::blake3_hex(self@.content),
                    ),
                },
            }),
            next.1@ == PushActionView::Open,
            final(operation)@ == (SyncOperationView {
                phase: SyncProgressPhase::Transferring,
                transferred: 0,
                total: self@.total_size,
                ..old(operation)@
            }),
    {
        operation.phase(SyncProgressPhase::Transferring, 0, self.total_size);
        let file_hash = self.hash.digest();
        PushStream::begin(&self.params, self.total_size, file_hash.as_str())
    }
}

/// What is offered to the device.
pub open spec fn offer_of(
    params: SyncPushParamsView,
    total_size: u64,
    file_hash: Seq<char>,
) -> PushOfferView {
    sync_client::push_offer(params, total_size, file_hash)
}

/// What came of an action of a push.
#[derive(Debug)]
pub enum PushEvent {
    /// What was to be done failed.
    Failed(LinkError),
    /// The stream is open, under this identifier.
    Opened(u32),
    /// A frame with an answer of the device, or why it cannot be read.
    Replied(Header, Result<SyncReply, String>),
    /// The source is at the offset.
    Sought,
    /// Bytes of the source; none at its end.
    Read(Vec<u8>),
    /// The frame has been sent.
    Sent,
    /// A frame came.
    Closed(Header),
}

/// The model of [`PushEvent`].
#[verifier::ext_equal]
pub enum PushEventView {
    Failed(LinkErrorView),
    Opened(u32),
    Replied(Header, Result<SyncReplyView, Seq<char>>),
    Sought,
    Read(Seq<u8>),
    Sent,
    Closed(Header),
}

impl View for PushEvent {
    type V = PushEventView;

    open spec fn view(&self) -> PushEventView {
        match *self {
            PushEvent::Failed(error) => PushEventView::Failed(error@),
            PushEvent::Opened(stream_id) => PushEventView::Opened(stream_id),
            PushEvent::Replied(header, reply) => PushEventView::Replied(
                header,
                sync_client::decoded(reply),
            ),
            PushEvent::Sought => PushEventView::Sought,
            PushEvent::Read(bytes) => PushEventView::Read(bytes@),
            PushEvent::Sent => PushEventView::Sent,
            PushEvent::Closed(header) => PushEventView::Closed(header),
        }
    }
}

/// What a push needs done next.
#[derive(Debug)]
pub enum PushAction {
    /// Open the stream, and see that a cancellation ends it.
    Open,
    /// Send this request and wait for the answer.
    Ask(SyncRequest),
    /// Go to this offset of the source.
    Seek(u64),
    /// Read up to this many bytes of the source.
    Read(u32),
    /// Send these bytes, which end the host's side of the stream if they are the last.
    Send { data: Vec<u8>, last: bool },
    /// Wait for the frame with the device's last answer.
    AwaitCompletion,
    /// Wait for the frame that closes the stream.
    AwaitClose,
    /// Reset the stream: the push has failed so.
    Reset(LinkError),
    /// The push has failed so.
    Fail(LinkError),
    /// The push is complete.
    Done(SyncPushResult),
}

/// The model of [`PushAction`].
#[verifier::ext_equal]
pub enum PushActionView {
    Open,
    Ask(SyncRequestView),
    Seek(u64),
    Read(u32),
    Send { data: Seq<u8>, last: bool },
    AwaitCompletion,
    AwaitClose,
    Reset(LinkErrorView),
    Fail(LinkErrorView),
    Done(SyncPushResultView),
}

impl View for PushAction {
    type V = PushActionView;

    open spec fn view(&self) -> PushActionView {
        match *self {
            PushAction::Open => PushActionView::Open,
            PushAction::Ask(request) => PushActionView::Ask(request@),
            PushAction::Seek(offset) => PushActionView::Seek(offset),
            PushAction::Read(wanted) => PushActionView::Read(wanted),
            PushAction::Send { data, last } => PushActionView::Send { data: data@, last },
            PushAction::AwaitCompletion => PushActionView::AwaitCompletion,
            PushAction::AwaitClose => PushActionView::AwaitClose,
            PushAction::Reset(error) => PushActionView::Reset(error@),
            PushAction::Fail(error) => PushActionView::Fail(error@),
            PushAction::Done(result) => PushActionView::Done(result@),
        }
    }
}

/// Where a push stands: what it waits for.
enum Stage {
    Opening { offer: PushOffer },
    Asking { stream_id: u32, offer: PushOffer },
    Seeking { stream_id: u32, transfer: PushTransfer },
    Reading { stream_id: u32, transfer: PushTransfer },
    Sending { stream_id: u32, transfer: PushTransfer },
    Completing { stream_id: u32, transfer: PushTransfer },
    Closing { stream_id: u32, result: SyncPushResult },
    Over,
}

/// Where a push stands.
#[verifier::ext_equal]
pub enum PushStage {
    Opening { offer: PushOfferView },
    Asking { stream_id: u32, offer: PushOfferView },
    Seeking { stream_id: u32, transfer: PushTransferView },
    Reading { stream_id: u32, transfer: PushTransferView },
    Sending { stream_id: u32, transfer: PushTransferView },
    Completing { stream_id: u32, transfer: PushTransferView },
    Closing { stream_id: u32, result: SyncPushResultView },
    Over,
}

impl View for Stage {
    type V = PushStage;

    closed spec fn view(&self) -> PushStage {
        match *self {
            Stage::Opening { offer } => PushStage::Opening { offer: offer@ },
            Stage::Asking { stream_id, offer } => PushStage::Asking { stream_id, offer: offer@ },
            Stage::Seeking { stream_id, transfer } => PushStage::Seeking {
                stream_id,
                transfer: transfer@,
            },
            Stage::Reading { stream_id, transfer } => PushStage::Reading {
                stream_id,
                transfer: transfer@,
            },
            Stage::Sending { stream_id, transfer } => PushStage::Sending {
                stream_id,
                transfer: transfer@,
            },
            Stage::Completing { stream_id, transfer } => PushStage::Completing {
                stream_id,
                transfer: transfer@,
            },
            Stage::Closing { stream_id, result } => PushStage::Closing {
                stream_id,
                result: result@,
            },
            Stage::Over => PushStage::Over,
        }
    }
}

/// Whether an event answers the action of a stage. Anything that was to be done can
/// fail.
pub open spec fn answers(stage: PushStage, event: PushEventView) -> bool {
    match (stage, event) {
        (PushStage::Over, _) => false,
        (_, PushEventView::Failed(_)) => true,
        (PushStage::Opening { .. }, PushEventView::Opened(_)) => true,
        (PushStage::Asking { .. }, PushEventView::Replied(_, _)) => true,
        (PushStage::Seeking { .. }, PushEventView::Sought) => true,
        (PushStage::Reading { .. }, PushEventView::Read(_)) => true,
        (PushStage::Sending { .. }, PushEventView::Sent) => true,
        (PushStage::Completing { .. }, PushEventView::Replied(_, _)) => true,
        (PushStage::Closing { .. }, PushEventView::Closed(_)) => true,
        _ => false,
    }
}

/// What an event leads to.
#[verifier::ext_equal]
#[verifier::reject_recursive_types(H)]
pub struct PushNext<H> {
    pub stage: PushStage,
    pub action: PushActionView,
    pub operation: SyncOperationView<H>,
}

/// The push has failed.
pub open spec fn failed<H>(error: LinkErrorView, operation: SyncOperationView<H>) -> PushNext<H> {
    PushNext { stage: PushStage::Over, action: PushActionView::Fail(error), operation }
}

/// The stream is open: the request goes out, unless the push has been cancelled.
pub open spec fn opened<H>(
    stream_id: u32,
    offer: PushOfferView,
    operation: SyncOperationView<H>,
) -> PushNext<H> {
    if operation.cancelled {
        failed(LinkErrorView::Remote(sync_client::cancelled()), operation)
    } else {
        PushNext {
            stage: PushStage::Asking { stream_id, offer },
            action: PushActionView::Ask(sync_client::push_request(offer)),
            operation,
        }
    }
}

/// The device has answered the request.
pub open spec fn replied<H>(
    stream_id: u32,
    offer: PushOfferView,
    header: Header,
    reply: Result<SyncReplyView, Seq<char>>,
    operation: SyncOperationView<H>,
) -> PushNext<H> {
    match sync_client::reply_in(stream_id, header, reply, "sync reply"@) {
        Err(error) => failed(error, operation),
        Ok(reply) => match sync_client::push_accepted(offer, reply) {
            Err(error) => failed(error, operation),
            Ok(transfer) => PushNext {
                stage: PushStage::Seeking { stream_id, transfer },
                action: PushActionView::Seek(transfer.sent),
                operation: sync_client::started(
                    transfer.transfer_id,
                    transfer.sent,
                    transfer.total_size,
                    operation,
                ),
            },
        },
    }
}

/// The push reads its next block, unless it has been cancelled.
pub open spec fn reads<H>(
    block_size: u32,
    stream_id: u32,
    transfer: PushTransferView,
    operation: SyncOperationView<H>,
) -> PushNext<H> {
    if operation.cancelled {
        PushNext {
            stage: PushStage::Over,
            action: PushActionView::Reset(LinkErrorView::Remote(sync_client::cancelled())),
            operation,
        }
    } else {
        PushNext {
            stage: PushStage::Reading { stream_id, transfer },
            action: PushActionView::Read(block_size),
            operation,
        }
    }
}

/// What an event leads to.
pub open spec fn push_next<H>(
    block_size: u32,
    stage: PushStage,
    event: PushEventView,
    operation: SyncOperationView<H>,
) -> PushNext<H> {
    match (stage, event) {
        (_, PushEventView::Failed(error)) => failed(error, operation),
        (PushStage::Opening { offer }, PushEventView::Opened(stream_id)) => opened(
            stream_id,
            offer,
            operation,
        ),
        (
            PushStage::Asking { stream_id, offer },
            PushEventView::Replied(header, reply),
        ) => replied(stream_id, offer, header, reply, operation),
        (
            PushStage::Seeking { stream_id, transfer },
            PushEventView::Sought,
        ) => if transfer.sent == transfer.total_size {
            PushNext {
                stage: PushStage::Sending { stream_id, transfer },
                action: PushActionView::Send { data: Seq::empty(), last: true },
                operation,
            }
        } else {
            reads(block_size, stream_id, transfer, operation)
        },
        (
            PushStage::Reading { stream_id, transfer },
            PushEventView::Read(bytes),
        ) => match sync_client::push_read(transfer, bytes.len()) {
            Err(error) => failed(error, operation),
            Ok(after) => PushNext {
                stage: PushStage::Sending { stream_id, transfer: after },
                action: PushActionView::Send { data: bytes, last: after.sent == after.total_size },
                operation,
            },
        },
        (PushStage::Sending { stream_id, transfer }, PushEventView::Sent) => {
            let counted = SyncOperationView { transferred: transfer.sent, ..operation };
            if transfer.sent == transfer.total_size {
                PushNext {
                    stage: PushStage::Completing { stream_id, transfer },
                    action: PushActionView::AwaitCompletion,
                    operation: counted,
                }
            } else {
                reads(block_size, stream_id, transfer, counted)
            }
        },
        (
            PushStage::Completing { stream_id, transfer },
            PushEventView::Replied(header, reply),
        ) => match sync_client::reply_in(stream_id, header, reply, "sync completion"@) {
            Err(error) => failed(error, operation),
            Ok(reply) => match sync_client::push_completed(transfer, reply) {
                Err(error) => failed(error, operation),
                Ok(result) => PushNext {
                    stage: PushStage::Closing { stream_id, result },
                    action: PushActionView::AwaitClose,
                    operation,
                },
            },
        },
        (
            PushStage::Closing { stream_id, result },
            PushEventView::Closed(header),
        ) => match link::expected(header, Command::Close, stream_id) {
            Err(error) => failed(error, operation),
            Ok(()) => PushNext {
                stage: PushStage::Over,
                action: PushActionView::Done(result),
                operation,
            },
        },
        _ => arbitrary(),
    }
}

/// A push over a stream of the device link.
pub struct PushStream {
    block_size: u32,
    stage: Stage,
}

/// The model of [`PushStream`].
#[verifier::ext_equal]
pub struct PushStreamView {
    pub block_size: u32,
    pub stage: PushStage,
}

impl View for PushStream {
    type V = PushStreamView;

    closed spec fn view(&self) -> PushStreamView {
        PushStreamView { block_size: self.block_size, stage: self.stage@ }
    }
}

impl Stage {
    spec fn wf(&self) -> bool {
        match *self {
            Stage::Seeking { transfer, .. } => transfer.wf(),
            Stage::Reading { transfer, .. } => transfer.wf(),
            Stage::Sending { transfer, .. } => transfer.wf(),
            _ => true,
        }
    }
}

/// Whether a push has gone on so.
spec fn taken<H>(
    next: (PushStream, PushAction),
    block_size: u32,
    operation: SyncOperationView<H>,
    expected: PushNext<H>,
) -> bool {
    &&& next.0@ == PushStreamView { block_size, stage: expected.stage }
    &&& next.1@ == expected.action
    &&& operation == expected.operation
}

fn fail<H>(block_size: u32, error: LinkError, operation: &HostSyncOperation<H>) -> (next: (
    PushStream,
    PushAction,
))
    ensures
        next.0.wf(),
        taken(next, block_size, operation@, failed(error@, operation@)),
{
    (PushStream { block_size, stage: Stage::Over }, PushAction::Fail(error))
}

impl PushStream {
    /// What the push holds fits together.
    pub closed spec fn wf(&self) -> bool {
        self.stage.wf()
    }

    /// A push of a file of this size and digest that has not begun, and its first
    /// action.
    pub fn begin(params: &SyncPushParams, total_size: u64, file_hash: &str) -> (next: (
        PushStream,
        PushAction,
    ))
        ensures
            next.0.wf(),
            next.0@ == (PushStreamView {
                block_size: params.block_size,
                stage: PushStage::Opening { offer: offer_of(params@, total_size, file_hash@) },
            }),
            next.1@ == PushActionView::Open,
    {
        let offer = PushOffer::new(params, total_size, file_hash);
        let block_size = params.block_size;
        (PushStream { block_size, stage: Stage::Opening { offer } }, PushAction::Open)
    }

    fn open<H>(block_size: u32, stream_id: u32, offer: PushOffer, operation: &HostSyncOperation<H>)
        -> (next: (PushStream, PushAction))
        ensures
            next.0.wf(),
            taken(next, block_size, operation@, opened(stream_id, offer@, operation@)),
    {
        match check_cancelled(operation) {
            Err(error) => fail(block_size, error, operation),
            Ok(()) => {
                let request = offer.request();
                (
                    PushStream { block_size, stage: Stage::Asking { stream_id, offer } },
                    PushAction::Ask(request),
                )
            },
        }
    }

    fn reply<H>(
        block_size: u32,
        stream_id: u32,
        offer: PushOffer,
        header: Header,
        reply: Result<SyncReply, String>,
        operation: &mut HostSyncOperation<H>,
    ) -> (next: (PushStream, PushAction))
        ensures
            next.0.wf(),
            taken(
                next,
                block_size,
                final(operation)@,
                replied(stream_id, offer@, header, sync_client::decoded(reply), old(operation)@),
            ),
    {
        let answer = match take_reply(stream_id, header, reply, "sync reply") {
            Ok(answer) => answer,
            Err(error) => {
                return fail(block_size, error, operation);
            },
        };
        match offer.accept(answer, operation) {
            Err(error) => fail(block_size, error, operation),
            Ok(transfer) => {
                let offset: u64 = transfer.offset();
                (
                    PushStream { block_size, stage: Stage::Seeking { stream_id, transfer } },
                    PushAction::Seek(offset),
                )
            },
        }
    }

    fn read<H>(
        block_size: u32,
        stream_id: u32,
        transfer: PushTransfer,
        operation: &HostSyncOperation<H>,
    ) -> (next: (PushStream, PushAction))
        requires
            transfer.wf(),
        ensures
            next.0.wf(),
            taken(
                next,
                block_size,
                operation@,
                reads(block_size, stream_id, transfer@, operation@),
            ),
    {
        match check_cancelled(operation) {
            Err(error) => (PushStream { block_size, stage: Stage::Over }, PushAction::Reset(error)),
            Ok(()) => (
                PushStream { block_size, stage: Stage::Reading { stream_id, transfer } },
                PushAction::Read(block_size),
            ),
        }
    }

    /// Takes what came of the last action, and decides on the next.
    pub fn advance<H>(self, event: PushEvent, operation: &mut HostSyncOperation<H>) -> (next: (
        PushStream,
        PushAction,
    ))
        requires
            self.wf(),
            answers(self@.stage, event@),
        ensures
            next.0.wf(),
            ({
                let expected = push_next(self@.block_size, self@.stage, event@, old(operation)@);
                &&& next.0@ == PushStreamView {
                    block_size: self@.block_size,
                    stage: expected.stage,
                }
                &&& next.1@ == expected.action
                &&& final(operation)@ == expected.operation
            }),
    {
        let block_size = self.block_size;
        match (self.stage, event) {
            (_, PushEvent::Failed(error)) => fail(block_size, error, operation),
            (Stage::Opening { offer }, PushEvent::Opened(stream_id)) => Self::open(
                block_size,
                stream_id,
                offer,
                operation,
            ),
            (Stage::Asking { stream_id, offer }, PushEvent::Replied(header, reply)) => Self::reply(
                block_size,
                stream_id,
                offer,
                header,
                reply,
                operation,
            ),
            (Stage::Seeking { stream_id, transfer }, PushEvent::Sought) => {
                if transfer.is_done() {
                    (
                        PushStream { block_size, stage: Stage::Sending { stream_id, transfer } },
                        PushAction::Send { data: Vec::new(), last: true },
                    )
                } else {
                    Self::read(block_size, stream_id, transfer, operation)
                }
            },
            (Stage::Reading { stream_id, transfer }, PushEvent::Read(bytes)) => {
                let mut transfer = transfer;
                match transfer.read(bytes.len()) {
                    Err(error) => fail(block_size, error, operation),
                    Ok(last) => (
                        PushStream { block_size, stage: Stage::Sending { stream_id, transfer } },
                        PushAction::Send { data: bytes, last },
                    ),
                }
            },
            (Stage::Sending { stream_id, transfer }, PushEvent::Sent) => {
                transfer.sent(operation);
                if transfer.is_done() {
                    (
                        PushStream { block_size, stage: Stage::Completing { stream_id, transfer } },
                        PushAction::AwaitCompletion,
                    )
                } else {
                    Self::read(block_size, stream_id, transfer, operation)
                }
            },
            (Stage::Completing { stream_id, transfer }, PushEvent::Replied(header, reply)) => {
                let answer = match take_reply(stream_id, header, reply, "sync completion") {
                    Ok(answer) => answer,
                    Err(error) => {
                        return fail(block_size, error, operation);
                    },
                };
                match transfer.complete(answer) {
                    Err(error) => fail(block_size, error, operation),
                    Ok(result) => (
                        PushStream { block_size, stage: Stage::Closing { stream_id, result } },
                        PushAction::AwaitClose,
                    ),
                }
            },
            (Stage::Closing { stream_id, result }, PushEvent::Closed(header)) => {
                match expect(header, Command::Close, stream_id) {
                    Err(error) => fail(block_size, error, operation),
                    Ok(()) => (
                        PushStream { block_size, stage: Stage::Over },
                        PushAction::Done(result),
                    ),
                }
            },
            _ => unreached(),
        }
    }
}

/// What holds at every stage of a push: no more has been sent than there is, and the
/// device is asked for its last word only when everything has been sent.
pub open spec fn sound(stage: PushStage) -> bool {
    match stage {
        PushStage::Seeking { transfer, .. } => transfer.sent <= transfer.total_size,
        PushStage::Reading { transfer, .. } => transfer.sent < transfer.total_size,
        PushStage::Sending { transfer, .. } => transfer.sent <= transfer.total_size,
        PushStage::Completing { transfer, .. } => transfer.sent == transfer.total_size,
        _ => true,
    }
}

/// A push is complete only once all of the file has been sent and the device has
/// confirmed its size: a new push is sound, and every event keeps it so.
pub proof fn complete_pushes_have_sent_everything<H>(
    block_size: u32,
    stage: PushStage,
    event: PushEventView,
    operation: SyncOperationView<H>,
)
    requires
        sound(stage),
        answers(stage, event),
    ensures
        forall|offer: PushOfferView| sound(PushStage::Opening { offer }),
        ({
            let next = push_next(block_size, stage, event, operation);
            &&& sound(next.stage)
            &&& next.stage matches PushStage::Closing { result, .. } ==> {
                &&& stage matches PushStage::Completing { transfer, .. }
                &&& transfer.sent == transfer.total_size
                &&& result.transfer_id == transfer.transfer_id
                &&& result.accepted_offset == transfer.total_size
            }
            &&& next.action is Done ==> stage is Closing
            &&& next.action matches PushActionView::Send { last, .. } ==> {
                &&& next.stage matches PushStage::Sending { transfer, .. }
                &&& last == (transfer.sent == transfer.total_size)
            }
        }),
{
}

/// A push that has been cancelled sends no request once its stream is open and
/// reads no further block.
pub proof fn cancelled_pushes_read_nothing_more<H>(
    block_size: u32,
    stage: PushStage,
    event: PushEventView,
    operation: SyncOperationView<H>,
)
    requires
        operation.cancelled,
        answers(stage, event),
    ensures
        !(push_next(block_size, stage, event, operation).action is Read),
        stage is Opening ==> push_next(block_size, stage, event, operation).action is Fail,
{
}

/// Where a push stands after these blocks have been read and sent, and what has been
/// sent.
pub open spec fn sends<H>(
    block_size: u32,
    stage: PushStage,
    blocks: Seq<Seq<u8>>,
    operation: SyncOperationView<H>,
) -> (PushStage, Seq<PushActionView>)
    decreases blocks.len(),
{
    if blocks.len() == 0 {
        (stage, Seq::empty())
    } else {
        let read = push_next(block_size, stage, PushEventView::Read(blocks[0]), operation);
        let sent = push_next(block_size, read.stage, PushEventView::Sent, read.operation);
        let later = sends(block_size, sent.stage, blocks.skip(1), sent.operation);
        (later.0, seq![read.action] + later.1)
    }
}

/// The blocks as they go out: in order, and the last one marked.
pub open spec fn sent_blocks(blocks: Seq<Seq<u8>>) -> Seq<PushActionView> {
    Seq::new(
        blocks.len(),
        |i: int| PushActionView::Send { data: blocks[i], last: i == blocks.len() - 1 },
    )
}

/// A source that gives the rest of the file, in whatever blocks, is sent as it was
/// read: every block once and in order, and the one that completes the file ends the
/// stream. The push then waits for the device's word.
pub proof fn every_block_is_sent_once<H>(
    block_size: u32,
    stream_id: u32,
    transfer: PushTransferView,
    blocks: Seq<Seq<u8>>,
    operation: SyncOperationView<H>,
)
    requires
        !operation.cancelled,
        blocks.len() > 0,
        forall|i: int| 0 <= i < blocks.len() ==> (#[trigger] blocks[i]).len() > 0,
        transfer.sent + sync_client::concatenated(blocks).len() == transfer.total_size,
    ensures
        sends(block_size, PushStage::Reading { stream_id, transfer }, blocks, operation) == (
            PushStage::Completing {
                stream_id,
                transfer: PushTransferView { sent: transfer.total_size, ..transfer },
            },
            sent_blocks(blocks),
        ),
    decreases blocks.len(),
{
    let rest = blocks.skip(1);
    sync_client::concatenated_from_front(blocks);
    let read = push_next(
        block_size,
        PushStage::Reading { stream_id, transfer },
        PushEventView::Read(blocks[0]),
        operation,
    );
    let after = PushTransferView { sent: (transfer.sent + blocks[0].len()) as u64, ..transfer };
    let sent = push_next(block_size, read.stage, PushEventView::Sent, read.operation);
    if rest.len() == 0 {
        assert(sends(block_size, sent.stage, rest, sent.operation) == (
            sent.stage,
            Seq::<PushActionView>::empty(),
        ));
    } else {
        sync_client::concatenated_from_front(rest);
        assert(rest[0].len() > 0);
        assert forall|i: int| 0 <= i < rest.len() implies (#[trigger] rest[i]).len() > 0 by {
            assert(rest[i] == blocks[i + 1]);
        }
        assert(sent.stage == PushStage::Reading { stream_id, transfer: after });
        every_block_is_sent_once(block_size, stream_id, after, rest, sent.operation);
    }
    assert(seq![read.action] + sent_blocks(rest) =~= sent_blocks(blocks));
}

/// A push opens with what it offers, and goes on where the device is: the source is read
/// from the offset that the device has, and a device that has everything is sent an
/// empty end. A device that answers something else ends the push, with its own word
/// where it gave one.
pub proof fn pushes_send_what_is_missing<H>(
    block_size: u32,
    stream_id: u32,
    offer: PushOfferView,
    header: Header,
    reply: SyncReplyView,
    operation: SyncOperationView<H>,
)
    requires
        !operation.cancelled,
        header.command == Command::Data,
        header.stream_id == stream_id,
    ensures
        ({
            let asked = push_next(
                block_size,
                PushStage::Opening { offer },
                PushEventView::Opened(stream_id),
                operation,
            );
            let next = push_next(
                block_size,
                asked.stage,
                PushEventView::Replied(header, Ok(reply)),
                asked.operation,
            );
            let begun = push_next(block_size, next.stage, PushEventView::Sought, next.operation);
            &&& asked.action matches PushActionView::Ask(SyncRequestView::Push {
                transfer_id,
                remote_path,
                total_size,
                file_hash,
                block_size: block,
            }) && transfer_id == offer.transfer_id && remote_path == offer.remote_path && total_size
                == offer.total_size && file_hash == offer.file_hash && block == offer.block_size
            &&& reply matches SyncReplyView::Failure(error) ==> next.action
                == PushActionView::Fail(LinkErrorView::Remote(error))
            &&& next.action matches PushActionView::Seek(offset) ==> {
                &&& reply matches SyncReplyView::Ready {
                    transfer_id,
                    offset: has,
                    total_size,
                    file_hash,
                }
                &&& has == offset
                &&& offset <= offer.total_size
                &&& total_size == offer.total_size
                &&& file_hash == offer.file_hash
                &&& next.operation.transfer_id == Some(transfer_id)
                &&& next.operation.transferred == offset
                &&& next.operation.total == offer.total_size
                &&& begun.action == if offset == offer.total_size {
                    PushActionView::Send { data: Seq::empty(), last: true }
                } else {
                    PushActionView::Read(block_size)
                }
            }
            &&& next.action is Seek || next.action is Fail
        }),
{
}

/// A frame of another stream, or of another kind than is due, ends a push, and so does
/// whatever fails on the way; a push that has failed is over.
pub proof fn pushes_take_their_own_frames_only<H>(
    block_size: u32,
    stage: PushStage,
    event: PushEventView,
    operation: SyncOperationView<H>,
)
    requires
        answers(stage, event),
    ensures
        ({
            let next = push_next(block_size, stage, event, operation);
            let stream_id = match stage {
                PushStage::Asking { stream_id, .. } => stream_id,
                PushStage::Completing { stream_id, .. } => stream_id,
                PushStage::Closing { stream_id, .. } => stream_id,
                _ => 0,
            };
            &&& event matches PushEventView::Failed(error) ==> next.action == PushActionView::Fail(
                error,
            )
            &&& event matches PushEventView::Replied(header, _) ==> (header.stream_id != stream_id
                || header.command != Command::Data ==> next.action is Fail)
            &&& event matches PushEventView::Closed(header) ==> (header.stream_id != stream_id
                || header.command != Command::Close ==> next.action is Fail)
            &&& next.action is Fail || next.action is Reset || next.action is Done <==> next.stage
                == PushStage::Over
        }),
{
}

/// What is offered is the whole source: its size and the digest of every byte that was
/// read, to the place that the client named.
pub proof fn whole_sources_are_offered(source: PushSourceView)
    requires
        source.content.len() == source.total_size,
    ensures
        ({
            let offer = offer_of(
                source.params,
                source.total_size,
                codec::blake3_hex(source.content),
            );
            &&& offer.file_hash == codec::blake3_hex(source.content)
            &&& offer.total_size == source.content.len()
            &&& offer.remote_path == source.params.remote_path
            &&& offer.transfer_id == source.params.transfer_id
            &&& offer.block_size == source.params.block_size
        }),
{
}

} // verus!
