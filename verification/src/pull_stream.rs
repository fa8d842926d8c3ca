//! One pull over a stream of the device link, from opening the stream to the
//! file in its place.
//!
//! [`PullStream`] decides. Its caller does what the action asks for, on the
//! stream or on a host file, and hands back what came of it.

use crate::codec;
use crate::link;
use crate::link::{expect, Command, Header, LinkError, LinkErrorView};
use crate::model::{SyncPullParams, SyncPullParamsView, SyncPullResult, SyncPullResultView};
use crate::sync_client;
use crate::sync_client::{
    check_cancelled, check_destination, take_reply, FileHash, PullOffer, PullOfferView, PullStart,
    PullStartView, PullTransfer, PullTransferView, SyncReply, SyncReplyView, SyncRequest,
    SyncRequestView, DEFAULT_SYNC_BLOCK_SIZE,
};
use crate::sync_operation::{HostSyncOperation, SyncOperationView};
use vstd::pervasive::unreached;
use vstd::prelude::*;

verus! {

/// What came of an action of a pull.
#[derive(Debug)]
pub enum PullEvent {
    /// What was to be done failed.
    Failed(LinkError),
    /// The stream is open, under this identifier.
    Opened(u32),
    /// The size of the partial file, if there is one.
    Measured(Option<u64>),
    /// A frame with the answer of the device, or why it cannot be read.
    Replied(Header, Result<SyncReply, String>),
    /// The partial file is open and has this size.
    StagingOpened(u64),
    /// Bytes of the partial file.
    StagingRead(Vec<u8>),
    /// A frame with its payload.
    Received(Header, Vec<u8>),
    /// The payload is in the partial file.
    Written,
    /// The partial file is empty.
    Emptied,
    /// The partial file is on disk, and this is known of the destination.
    Saved { exists: bool, is_regular_file: bool },
    /// The partial file has taken the place of the destination.
    Replaced,
    /// A frame came.
    Closed(Header),
}

/// The model of [`PullEvent`].
#[verifier::ext_equal]
pub enum PullEventView {
    Failed(LinkErrorView),
    Opened(u32),
    Measured(Option<u64>),
    Replied(Header, Result<SyncReplyView, Seq<char>>),
    StagingOpened(u64),
    StagingRead(Seq<u8>),
    Received(Header, Seq<u8>),
    Written,
    Emptied,
    Saved { exists: bool, is_regular_file: bool },
    Replaced,
    Closed(Header),
}

impl View for PullEvent {
    type V = PullEventView;

    open spec fn view(&self) -> PullEventView {
        match *self {
            PullEvent::Failed(error) => PullEventView::Failed(error@),
            PullEvent::Opened(stream_id) => PullEventView::Opened(stream_id),
            PullEvent::Measured(size) => PullEventView::Measured(size),
            PullEvent::Replied(header, reply) => PullEventView::Replied(
                header,
                sync_client::decoded(reply),
            ),
            PullEvent::StagingOpened(size) => PullEventView::StagingOpened(size),
            PullEvent::StagingRead(bytes) => PullEventView::StagingRead(bytes@),
            PullEvent::Received(header, payload) => PullEventView::Received(header, payload@),
            PullEvent::Written => PullEventView::Written,
            PullEvent::Emptied => PullEventView::Emptied,
            PullEvent::Saved { exists, is_regular_file } => PullEventView::Saved {
                exists,
                is_regular_file,
            },
            PullEvent::Replaced => PullEventView::Replaced,
            PullEvent::Closed(header) => PullEventView::Closed(header),
        }
    }
}

/// What a pull needs done next.
#[derive(Debug)]
pub enum PullAction {
    /// Open the stream, and see that a cancellation ends it.
    Open,
    /// Look up the size of this partial file.
    Measure(String),
    /// Send this request, which ends the host's side of the stream, and wait for the
    /// answer.
    Ask(SyncRequest),
    /// Open this partial file, in a directory that is made where there is none, and
    /// without its bytes where it is to start empty.
    OpenStaging { path: String, empty: bool },
    /// Read up to this many bytes of the partial file, each byte once from the
    /// beginning.
    ReadStaging(usize),
    /// Wait for a frame.
    Receive,
    /// Put the payload behind what the partial file holds.
    Write,
    /// Empty the partial file.
    Empty,
    /// Get the partial file on disk, and look at the destination.
    Save,
    /// Put the partial file in the place of the destination, which is removed first
    /// if it is there.
    Replace { staging: String, destination: String, remove: bool },
    /// Wait for the frame that closes the stream.
    AwaitClose,
    /// Reset the stream: the pull has failed so.
    Reset(LinkError),
    /// The pull has failed so.
    Fail(LinkError),
    /// The pull is complete.
    Done(SyncPullResult),
}

/// The model of [`PullAction`].
#[verifier::ext_equal]
pub enum PullActionView {
    Open,
    Measure(Seq<char>),
    Ask(SyncRequestView),
    OpenStaging { path: Seq<char>, empty: bool },
    ReadStaging(usize),
    Receive,
    Write,
    Empty,
    Save,
    Replace { staging: Seq<char>, destination: Seq<char>, remove: bool },
    AwaitClose,
    Reset(LinkErrorView),
    Fail(LinkErrorView),
    Done(SyncPullResultView),
}

impl View for PullAction {
    type V = PullActionView;

    open spec fn view(&self) -> PullActionView {
        match *self {
            PullAction::Open => PullActionView::Open,
            PullAction::Measure(path) => PullActionView::Measure(path@),
            PullAction::Ask(request) => PullActionView::Ask(request@),
            PullAction::OpenStaging { path, empty } => PullActionView::OpenStaging {
                path: path@,
                empty,
            },
            PullAction::ReadStaging(wanted) => PullActionView::ReadStaging(wanted),
            PullAction::Receive => PullActionView::Receive,
            PullAction::Write => PullActionView::Write,
            PullAction::Empty => PullActionView::Empty,
            PullAction::Save => PullActionView::Save,
            PullAction::Replace { staging, destination, remove } => PullActionView::Replace {
                staging: staging@,
                destination: destination@,
                remove,
            },
            PullAction::AwaitClose => PullActionView::AwaitClose,
            PullAction::Reset(error) => PullActionView::Reset(error@),
            PullAction::Fail(error) => PullActionView::Fail(error@),
            PullAction::Done(result) => PullActionView::Done(result@),
        }
    }
}

/// Where a pull stands: what it waits for.
enum Stage {
    Opening,
    Measuring { stream_id: u32 },
    Asking { stream_id: u32, offer: PullOffer },
    Staging { stream_id: u32, start: PullStart },
    Hashing { stream_id: u32, start: PullStart, prefix: FileHash },
    Receiving { stream_id: u32, transfer: PullTransfer },
    Writing { stream_id: u32, transfer: PullTransfer, payload: Vec<u8>, last: bool },
    Emptying,
    Saving { stream_id: u32, transfer: PullTransfer },
    Replacing { stream_id: u32, transfer: PullTransfer },
    Closing { stream_id: u32, result: SyncPullResult },
    Over,
}

/// Where a pull stands.
#[verifier::ext_equal]
pub enum PullStage {
    Opening,
    Measuring { stream_id: u32 },
    Asking { stream_id: u32, offer: PullOfferView },
    Staging { stream_id: u32, start: PullStartView },
    Hashing { stream_id: u32, start: PullStartView, prefix: Seq<u8> },
    Receiving { stream_id: u32, transfer: PullTransferView },
    Writing { stream_id: u32, transfer: PullTransferView, payload: Seq<u8>, last: bool },
    Emptying,
    Saving { stream_id: u32, transfer: PullTransferView },
    Replacing { stream_id: u32, transfer: PullTransferView },
    Closing { stream_id: u32, result: SyncPullResultView },
    Over,
}

impl View for Stage {
    type V = PullStage;

    closed spec fn view(&self) -> PullStage {
        match *self {
            Stage::Opening => PullStage::Opening,
            Stage::Measuring { stream_id } => PullStage::Measuring { stream_id },
            Stage::Asking { stream_id, offer } => PullStage::Asking { stream_id, offer: offer@ },
            Stage::Staging { stream_id, start } => PullStage::Staging { stream_id, start: start@ },
            Stage::Hashing { stream_id, start, prefix } => PullStage::Hashing {
                stream_id,
                start: start@,
                prefix: prefix.content(),
            },
            Stage::Receiving { stream_id, transfer } => PullStage::Receiving {
                stream_id,
                transfer: transfer@,
            },
            Stage::Writing { stream_id, transfer, payload, last } => PullStage::Writing {
                stream_id,
                transfer: transfer@,
                payload: payload@,
                last,
            },
            Stage::Emptying => PullStage::Emptying,
            Stage::Saving { stream_id, transfer } => PullStage::Saving {
                stream_id,
                transfer: transfer@,
            },
            Stage::Replacing { stream_id, transfer } => PullStage::Replacing {
                stream_id,
                transfer: transfer@,
            },
            Stage::Closing { stream_id, result } => PullStage::Closing {
                stream_id,
                result: result@,
            },
            Stage::Over => PullStage::Over,
        }
    }
}

/// Whether an event answers the action of a stage. Anything that was to be done can
/// fail.
pub open spec fn answers(stage: PullStage, event: PullEventView) -> bool {
    match (stage, event) {
        (PullStage::Over, _) => false,
        (_, PullEventView::Failed(_)) => true,
        (PullStage::Opening, PullEventView::Opened(_)) => true,
        (PullStage::Measuring { .. }, PullEventView::Measured(_)) => true,
        (PullStage::Asking { .. }, PullEventView::Replied(_, _)) => true,
        (PullStage::Staging { .. }, PullEventView::StagingOpened(_)) => true,
        (
            PullStage::Hashing { start, prefix, .. },
            PullEventView::StagingRead(bytes),
        ) => bytes.len() <= start.offset - prefix.len(),
        (PullStage::Receiving { .. }, PullEventView::Received(_, _)) => true,
        (PullStage::Writing { .. }, PullEventView::Written) => true,
        (PullStage::Emptying, PullEventView::Emptied) => true,
        (PullStage::Saving { .. }, PullEventView::Saved { .. }) => true,
        (PullStage::Replacing { .. }, PullEventView::Replaced) => true,
        (PullStage::Closing { .. }, PullEventView::Closed(_)) => true,
        _ => false,
    }
}

/// What an event leads to.
#[verifier::ext_equal]
#[verifier::reject_recursive_types(H)]
pub struct PullNext<H> {
    pub stage: PullStage,
    pub action: PullActionView,
    pub operation: SyncOperationView<H>,
}

/// The pull has failed.
pub open spec fn failed<H>(error: LinkErrorView, operation: SyncOperationView<H>) -> PullNext<H> {
    PullNext { stage: PullStage::Over, action: PullActionView::Fail(error), operation }
}

/// The request goes out: the pull goes on behind the bytes that are there.
pub open spec fn asks<H>(
    params: SyncPullParamsView,
    stream_id: u32,
    offset: u64,
    operation: SyncOperationView<H>,
) -> PullNext<H> {
    PullNext {
        stage: PullStage::Asking {
            stream_id,
            offer: PullOfferView {
                transfer_id: params.transfer_id,
                remote_path: params.remote_path,
                local_path: params.local_path,
                block_size: params.block_size,
                offset,
            },
        },
        action: PullActionView::Ask(
            SyncRequestView::Pull {
                transfer_id: params.transfer_id,
                remote_path: params.remote_path,
                offset,
                block_size: params.block_size,
            },
        ),
        operation,
    }
}

/// The stream is open: a cancelled pull sends nothing, and one that continues another
/// looks for its partial file first.
pub open spec fn opened<H>(
    params: SyncPullParamsView,
    stream_id: u32,
    operation: SyncOperationView<H>,
) -> PullNext<H> {
    if operation.cancelled {
        failed(LinkErrorView::Remote(sync_client::cancelled()), operation)
    } else {
        match params.transfer_id {
            None => asks(params, stream_id, 0, operation),
            Some(id) => if sync_client::is_transfer_id(id) {
                PullNext {
                    stage: PullStage::Measuring { stream_id },
                    action: PullActionView::Measure(
                        sync_client::staging_name(params.local_path, id),
                    ),
                    operation,
                }
            } else {
                failed(LinkErrorView::UnexpectedFrame("invalid sync transfer ID"@), operation)
            },
        }
    }
}

/// The device has answered.
pub open spec fn replied<H>(
    stream_id: u32,
    offer: PullOfferView,
    header: Header,
    reply: Result<SyncReplyView, Seq<char>>,
    operation: SyncOperationView<H>,
) -> PullNext<H> {
    match sync_client::reply_in(stream_id, header, reply, "sync reply"@) {
        Err(error) => failed(error, operation),
        Ok(reply) => match sync_client::pull_accepted(offer, reply) {
            Err(error) => failed(error, operation),
            Ok(start) => PullNext {
                stage: PullStage::Staging { stream_id, start },
                action: PullActionView::OpenStaging {
                    path: start.staging,
                    empty: start.offset == 0,
                },
                operation: sync_client::started(
                    start.transfer_id,
                    start.offset,
                    start.total_size,
                    operation,
                ),
            },
        },
    }
}

/// The pull waits for a frame, unless it has been cancelled.
pub open spec fn receives<H>(
    stream_id: u32,
    transfer: PullTransferView,
    operation: SyncOperationView<H>,
) -> PullNext<H> {
    if operation.cancelled {
        PullNext {
            stage: PullStage::Over,
            action: PullActionView::Reset(LinkErrorView::Remote(sync_client::cancelled())),
            operation,
        }
    } else {
        PullNext {
            stage: PullStage::Receiving { stream_id, transfer },
            action: PullActionView::Receive,
            operation,
        }
    }
}

/// So much of the partial file has been hashed; when all of it has, the pull goes on
/// behind it.
pub open spec fn hashes<H>(
    stream_id: u32,
    start: PullStartView,
    prefix: Seq<u8>,
    operation: SyncOperationView<H>,
) -> PullNext<H> {
    if prefix.len() == start.offset {
        receives(stream_id, sync_client::pull_begun(start, prefix), operation)
    } else {
        PullNext {
            stage: PullStage::Hashing { stream_id, start, prefix },
            action: PullActionView::ReadStaging(
                if start.offset - prefix.len() > DEFAULT_SYNC_BLOCK_SIZE {
                    DEFAULT_SYNC_BLOCK_SIZE as usize
                } else {
                    (start.offset - prefix.len()) as usize
                },
            ),
            operation,
        }
    }
}

/// The payload of a frame is in the partial file. The last one ends the pull: a file
/// that is not the announced one is not kept.
pub open spec fn written<H>(
    stream_id: u32,
    transfer: PullTransferView,
    payload: Seq<u8>,
    last: bool,
    operation: SyncOperationView<H>,
) -> PullNext<H> {
    if transfer.received + payload.len() > u64::MAX {
        failed(LinkErrorView::SequenceExhausted, operation)
    } else {
        let after = sync_client::pull_received(transfer, payload);
        let counted = SyncOperationView { transferred: after.received, ..operation };
        if after.received > after.total_size {
            failed(LinkErrorView::UnexpectedFrame("sync pull exceeded declared size"@), counted)
        } else if !last {
            receives(stream_id, after, counted)
        } else if sync_client::pull_verified(after) {
            PullNext {
                stage: PullStage::Saving { stream_id, transfer: after },
                action: PullActionView::Save,
                operation: counted,
            }
        } else {
            PullNext {
                stage: PullStage::Emptying,
                action: PullActionView::Empty,
                operation: counted,
            }
        }
    }
}

/// What an event leads to.
pub open spec fn pull_next<H>(
    params: SyncPullParamsView,
    stage: PullStage,
    event: PullEventView,
    operation: SyncOperationView<H>,
) -> PullNext<H> {
    match (stage, event) {
        (_, PullEventView::Failed(error)) => failed(error, operation),
        (PullStage::Opening, PullEventView::Opened(stream_id)) => opened(
            params,
            stream_id,
            operation,
        ),
        (PullStage::Measuring { stream_id }, PullEventView::Measured(size)) => asks(
            params,
            stream_id,
            match size {
                Some(offset) => offset,
                None => 0,
            },
            operation,
        ),
        (
            PullStage::Asking { stream_id, offer },
            PullEventView::Replied(header, reply),
        ) => replied(stream_id, offer, header, reply, operation),
        (
            PullStage::Staging { stream_id, start },
            PullEventView::StagingOpened(size),
        ) => if size != start.offset {
            failed(
                LinkErrorView::UnexpectedFrame("host staging size changed before resume"@),
                operation,
            )
        } else {
            hashes(stream_id, start, Seq::empty(), operation)
        },
        (
            PullStage::Hashing { stream_id, start, prefix },
            PullEventView::StagingRead(bytes),
        ) => if bytes.len() == 0 {
            failed(LinkErrorView::UnexpectedFrame("host staging file was truncated"@), operation)
        } else {
            hashes(stream_id, start, prefix + bytes, operation)
        },
        (
            PullStage::Receiving { stream_id, transfer },
            PullEventView::Received(header, payload),
        ) => match link::expected(header, Command::Data, stream_id) {
            Err(error) => failed(error, operation),
            Ok(()) => PullNext {
                stage: PullStage::Writing {
                    stream_id,
                    transfer,
                    payload,
                    last: header.end_stream,
                },
                action: PullActionView::Write,
                operation,
            },
        },
        (
            PullStage::Writing { stream_id, transfer, payload, last },
            PullEventView::Written,
        ) => written(stream_id, transfer, payload, last, operation),
        (PullStage::Emptying, PullEventView::Emptied) => failed(
            LinkErrorView::Remote(sync_client::checksum_mismatch()),
            operation,
        ),
        (
            PullStage::Saving { stream_id, transfer },
            PullEventView::Saved { exists, is_regular_file },
        ) => if exists && !is_regular_file {
            failed(
                LinkErrorView::UnexpectedFrame("host destination must be a regular file"@),
                operation,
            )
        } else {
            PullNext {
                stage: PullStage::Replacing { stream_id, transfer },
                action: PullActionView::Replace {
                    staging: transfer.staging,
                    destination: params.local_path,
                    remove: exists,
                },
                operation,
            }
        },
        (PullStage::Replacing { stream_id, transfer }, PullEventView::Replaced) => PullNext {
            stage: PullStage::Closing { stream_id, result: sync_client::pull_result(transfer) },
            action: PullActionView::AwaitClose,
            operation: SyncOperationView { transferred: transfer.received, ..operation },
        },
        (
            PullStage::Closing { stream_id, result },
            PullEventView::Closed(header),
        ) => match link::expected(header, Command::Close, stream_id) {
            Err(error) => failed(error, operation),
            Ok(()) => PullNext {
                stage: PullStage::Over,
                action: PullActionView::Done(result),
                operation,
            },
        },
        _ => arbitrary(),
    }
}

/// A pull over a stream of the device link.
pub struct PullStream {
    params: SyncPullParams,
    stage: Stage,
}

/// The model of [`PullStream`].
#[verifier::ext_equal]
pub struct PullStreamView {
    pub params: SyncPullParamsView,
    pub stage: PullStage,
}

impl View for PullStream {
    type V = PullStreamView;

    closed spec fn view(&self) -> PullStreamView {
        PullStreamView { params: self.params@, stage: self.stage@ }
    }
}

impl Stage {
    spec fn wf(&self) -> bool {
        match *self {
            Stage::Staging { start, .. } => start.wf(),
            Stage::Hashing { start, prefix, .. } => {
                &&& start.wf()
                &&& prefix.wf()
                &&& prefix.length() == start@.offset
            },
            Stage::Receiving { transfer, .. } => transfer.wf(),
            Stage::Writing { transfer, .. } => transfer.wf(),
            _ => true,
        }
    }
}

fn fail<H>(params: SyncPullParams, error: LinkError, operation: &HostSyncOperation<H>) -> (next: (
    PullStream,
    PullAction,
))
    ensures
        next.0.wf(),
        taken(next, params@, operation@, failed(error@, operation@)),
{
    (PullStream { params, stage: Stage::Over }, PullAction::Fail(error))
}

/// Whether a pull has gone on so.
spec fn taken<H>(
    next: (PullStream, PullAction),
    params: SyncPullParamsView,
    operation: SyncOperationView<H>,
    expected: PullNext<H>,
) -> bool {
    &&& next.0@ == PullStreamView { params, stage: expected.stage }
    &&& next.1@ == expected.action
    &&& operation == expected.operation
}

impl PullStream {
    /// What the pull holds fits together.
    pub closed spec fn wf(&self) -> bool {
        self.stage.wf()
    }

    /// A pull that has not begun, and its first action.
    pub fn begin(params: SyncPullParams) -> (next: (PullStream, PullAction))
        ensures
            next.0.wf(),
            next.0@ == (PullStreamView { params: params@, stage: PullStage::Opening }),
            next.1@ == PullActionView::Open,
    {
        (PullStream { params, stage: Stage::Opening }, PullAction::Open)
    }

    /// The payload that is to be written.
    pub fn payload(&self) -> (payload: &[u8])
        ensures
            payload@ == (match self@.stage {
                PullStage::Writing { payload, .. } => payload,
                _ => Seq::empty(),
            }),
    {
        match &self.stage {
            Stage::Writing { payload, .. } => payload.as_slice(),
            _ => &[],
        }
    }

    fn ask<H>(params: SyncPullParams, stream_id: u32, offset: u64, operation: &HostSyncOperation<H>) -> (
    next: (PullStream, PullAction))
        ensures
            next.0.wf(),
            taken(next, params@, operation@, asks(params@, stream_id, offset, operation@)),
    {
        let offer = PullOffer::new(&params, offset);
        let request = offer.request();
        (PullStream { params, stage: Stage::Asking { stream_id, offer } }, PullAction::Ask(request))
    }

    fn open<H>(params: SyncPullParams, stream_id: u32, operation: &HostSyncOperation<H>) -> (next: (
        PullStream,
        PullAction,
    ))
        ensures
            next.0.wf(),
            taken(next, params@, operation@, opened(params@, stream_id, operation@)),
    {
        if let Err(error) = check_cancelled(operation) {
            return fail(params, error, operation);
        }
        match PullOffer::resumed_staging(&params) {
            Err(error) => fail(params, error, operation),
            Ok(None) => Self::ask(params, stream_id, 0, operation),
            Ok(Some(path)) => (
                PullStream { params, stage: Stage::Measuring { stream_id } },
                PullAction::Measure(path),
            ),
        }
    }

    fn reply<H>(
        params: SyncPullParams,
        stream_id: u32,
        offer: PullOffer,
        header: Header,
        reply: Result<SyncReply, String>,
        operation: &mut HostSyncOperation<H>,
    ) -> (next: (PullStream, PullAction))
        ensures
            next.0.wf(),
            taken(
                next,
                params@,
                final(operation)@,
                replied(stream_id, offer@, header, sync_client::decoded(reply), old(operation)@),
            ),
    {
        let answer = match take_reply(stream_id, header, reply, "sync reply") {
            Ok(answer) => answer,
            Err(error) => {
                return fail(params, error, operation);
            },
        };
        match offer.accept(answer, operation) {
            Err(error) => fail(params, error, operation),
            Ok(start) => {
                let path = start.staging().to_owned();
                let empty = start.starts_empty();
                (
                    PullStream { params, stage: Stage::Staging { stream_id, start } },
                    PullAction::OpenStaging { path, empty },
                )
            },
        }
    }

    fn receive<H>(
        params: SyncPullParams,
        stream_id: u32,
        transfer: PullTransfer,
        operation: &HostSyncOperation<H>,
    ) -> (next: (PullStream, PullAction))
        requires
            transfer.wf(),
        ensures
            next.0.wf(),
            taken(next, params@, operation@, receives(stream_id, transfer@, operation@)),
    {
        match check_cancelled(operation) {
            Err(error) => (PullStream { params, stage: Stage::Over }, PullAction::Reset(error)),
            Ok(()) => (
                PullStream { params, stage: Stage::Receiving { stream_id, transfer } },
                PullAction::Receive,
            ),
        }
    }

    fn hash<H>(
        params: SyncPullParams,
        stream_id: u32,
        start: PullStart,
        prefix: FileHash,
        operation: &HostSyncOperation<H>,
    ) -> (next: (PullStream, PullAction))
        requires
            start.wf(),
            prefix.wf(),
            prefix.length() == start@.offset,
        ensures
            next.0.wf(),
            taken(
                next,
                params@,
                operation@,
                hashes(stream_id, start@, prefix.content(), operation@),
            ),
    {
        let wanted: usize = prefix.wanted();
        if wanted == 0 {
            let transfer = start.begin(prefix);
            Self::receive(params, stream_id, transfer, operation)
        } else {
            (
                PullStream { params, stage: Stage::Hashing { stream_id, start, prefix } },
                PullAction::ReadStaging(wanted),
            )
        }
    }

    fn write<H>(
        params: SyncPullParams,
        stream_id: u32,
        transfer: PullTransfer,
        payload: Vec<u8>,
        last: bool,
        operation: &mut HostSyncOperation<H>,
    ) -> (next: (PullStream, PullAction))
        requires
            transfer.wf(),
        ensures
            next.0.wf(),
            taken(
                next,
                params@,
                final(operation)@,
                written(stream_id, transfer@, payload@, last, old(operation)@),
            ),
    {
        let mut transfer = transfer;
        if let Err(error) = transfer.receive(payload.as_slice(), operation) {
            return fail(params, error, operation);
        }
        if !last {
            return Self::receive(params, stream_id, transfer, operation);
        }
        match transfer.verify() {
            Ok(()) => (
                PullStream { params, stage: Stage::Saving { stream_id, transfer } },
                PullAction::Save,
            ),
            Err(_) => (PullStream { params, stage: Stage::Emptying }, PullAction::Empty),
        }
    }

    /// Takes what came of the last action, and decides on the next.
    pub fn advance<H>(self, event: PullEvent, operation: &mut HostSyncOperation<H>) -> (next: (
        PullStream,
        PullAction,
    ))
        requires
            self.wf(),
            answers(self@.stage, event@),
        ensures
            next.0.wf(),
            ({
                let expected = pull_next(self@.params, self@.stage, event@, old(operation)@);
                &&& next.0@ == PullStreamView { params: self@.params, stage: expected.stage }
                &&& next.1@ == expected.action
                &&& final(operation)@ == expected.operation
            }),
    {
        let params = self.params;
        match (self.stage, event) {
            (_, PullEvent::Failed(error)) => fail(params, error, operation),
            (Stage::Opening, PullEvent::Opened(stream_id)) => Self::open(
                params,
                stream_id,
                operation,
            ),
            (Stage::Measuring { stream_id }, PullEvent::Measured(size)) => {
                let offset: u64 = match size {
                    Some(offset) => offset,
                    None => 0,
                };
                Self::ask(params, stream_id, offset, operation)
            },
            (
                Stage::Asking { stream_id, offer },
                PullEvent::Replied(header, reply),
            ) => Self::reply(params, stream_id, offer, header, reply, operation),
            (Stage::Staging { stream_id, start }, PullEvent::StagingOpened(size)) => {
                match start.open(size) {
                    Err(error) => fail(params, error, operation),
                    Ok(prefix) => Self::hash(params, stream_id, start, prefix, operation),
                }
            },
            (Stage::Hashing { stream_id, start, prefix }, PullEvent::StagingRead(bytes)) => {
                if bytes.len() == 0 {
                    let error = LinkError::unexpected("host staging file was truncated");
                    return fail(params, error, operation);
                }
                let mut prefix = prefix;
                prefix.feed(bytes.as_slice());
                Self::hash(params, stream_id, start, prefix, operation)
            },
            (Stage::Receiving { stream_id, transfer }, PullEvent::Received(header, payload)) => {
                match expect(header, Command::Data, stream_id) {
                    Err(error) => fail(params, error, operation),
                    Ok(()) => {
                        let last = header.end_stream;
                        (
                            PullStream {
                                params,
                                stage: Stage::Writing { stream_id, transfer, payload, last },
                            },
                            PullAction::Write,
                        )
                    },
                }
            },
            (Stage::Writing { stream_id, transfer, payload, last }, PullEvent::Written) =>
                Self::write(params, stream_id, transfer, payload, last, operation),
            (Stage::Emptying, PullEvent::Emptied) => fail(
                params,
                sync_client::mismatch(),
                operation,
            ),
            (
                Stage::Saving { stream_id, transfer },
                PullEvent::Saved { exists, is_regular_file },
            ) => {
                match check_destination(exists, is_regular_file) {
                    Err(error) => fail(params, error, operation),
                    Ok(()) => {
                        let staging = transfer.staging().to_owned();
                        let destination = params.local_path.clone();
                        (
                            PullStream { params, stage: Stage::Replacing { stream_id, transfer } },
                            PullAction::Replace { staging, destination, remove: exists },
                        )
                    },
                }
            },
            (Stage::Replacing { stream_id, transfer }, PullEvent::Replaced) => {
                let result = transfer.complete(operation);
                (
                    PullStream { params, stage: Stage::Closing { stream_id, result } },
                    PullAction::AwaitClose,
                )
            },
            (Stage::Closing { stream_id, result }, PullEvent::Closed(header)) => {
                match expect(header, Command::Close, stream_id) {
                    Err(error) => fail(params, error, operation),
                    Ok(()) => (
                        PullStream { params, stage: Stage::Over },
                        PullAction::Done(result),
                    ),
                }
            },
            _ => unreached(),
        }
    }
}

/// What holds at every stage of a pull: the file that is put in place has the
/// announced size and digest, and a complete pull has received all of it.
pub open spec fn sound(stage: PullStage) -> bool {
    match stage {
        PullStage::Saving { transfer, .. } => sync_client::pull_verified(transfer),
        PullStage::Replacing { transfer, .. } => sync_client::pull_verified(transfer),
        PullStage::Closing { result, .. } => result.received_size == result.total_size,
        _ => true,
    }
}

/// Only a verified file is put in place of the destination, and a pull is complete
/// only after that: a new pull is sound, and every event keeps it so.
pub proof fn only_verified_files_are_put_in_place<H>(
    params: SyncPullParamsView,
    stage: PullStage,
    event: PullEventView,
    operation: SyncOperationView<H>,
)
    requires
        sound(stage),
        answers(stage, event),
    ensures
        sound(PullStage::Opening),
        ({
            let next = pull_next(params, stage, event, operation);
            &&& sound(next.stage)
            &&& next.action is Replace ==> {
                &&& next.stage matches PullStage::Replacing { transfer, .. }
                &&& next.action->staging == transfer.staging
                &&& next.action->destination == params.local_path
                &&& transfer.received == transfer.total_size
                &&& codec::blake3_hex(transfer.content) == transfer.file_hash
            }
            &&& next.action matches PullActionView::Done(result) ==> {
                &&& stage is Closing
                &&& result.received_size == result.total_size
            }
            &&& next.stage is Closing ==> stage is Replacing && event is Replaced
        }),
{
}

/// A pull that has been cancelled sends no request once its stream is open and
/// waits for no further frame.
pub proof fn cancelled_pulls_receive_nothing_more<H>(
    params: SyncPullParamsView,
    stage: PullStage,
    event: PullEventView,
    operation: SyncOperationView<H>,
)
    requires
        operation.cancelled,
        answers(stage, event),
    ensures
        !(pull_next(params, stage, event, operation).action is Receive),
        stage is Opening ==> pull_next(params, stage, event, operation).action is Fail,
{
}

/// The payloads of some frames.
pub open spec fn payloads(frames: Seq<(Header, Seq<u8>)>) -> Seq<Seq<u8>> {
    Seq::new(frames.len(), |i: int| frames[i].1)
}

/// Where a pull stands after these frames have come and their payloads have been
/// written.
pub open spec fn arrives<H>(
    params: SyncPullParamsView,
    stage: PullStage,
    frames: Seq<(Header, Seq<u8>)>,
    operation: SyncOperationView<H>,
) -> PullStage
    decreases frames.len(),
{
    if frames.len() == 0 {
        stage
    } else {
        let came = pull_next(
            params,
            stage,
            PullEventView::Received(frames[0].0, frames[0].1),
            operation,
        );
        let kept = pull_next(params, came.stage, PullEventView::Written, came.operation);
        arrives(params, kept.stage, frames.skip(1), kept.operation)
    }
}

/// A pull whose frames hold the rest of the file, cut in whatever way, goes on to put
/// the file in place exactly when the bytes that were there and those that came, in
/// order, have the announced digest. Otherwise the partial file is emptied.
pub proof fn arrived_bytes_decide_a_pull<H>(
    params: SyncPullParamsView,
    stream_id: u32,
    transfer: PullTransferView,
    frames: Seq<(Header, Seq<u8>)>,
    operation: SyncOperationView<H>,
)
    requires
        !operation.cancelled,
        frames.len() > 0,
        forall|i: int| 0 <= i < frames.len() ==> {
            let header = (#[trigger] frames[i]).0;
            &&& header.command == Command::Data
            &&& header.stream_id == stream_id
            &&& header.end_stream == (i == frames.len() - 1)
        },
        transfer.received + sync_client::concatenated(payloads(frames)).len()
            == transfer.total_size,
    ensures
        ({
            let content = transfer.content + sync_client::concatenated(payloads(frames));
            arrives(params, PullStage::Receiving { stream_id, transfer }, frames, operation) == (
            if codec::blake3_hex(content) == transfer.file_hash {
                PullStage::Saving {
                    stream_id,
                    transfer: PullTransferView {
                        content,
                        received: transfer.total_size,
                        ..transfer
                    },
                }
            } else {
                PullStage::Emptying
            })
        }),
    decreases frames.len(),
{
    let rest = frames.skip(1);
    let first = frames[0];
    assert(payloads(frames)[0] == first.1);
    assert(payloads(frames).skip(1) =~= payloads(rest));
    sync_client::concatenated_from_front(payloads(frames));
    let came = pull_next(
        params,
        PullStage::Receiving { stream_id, transfer },
        PullEventView::Received(first.0, first.1),
        operation,
    );
    let kept = pull_next(params, came.stage, PullEventView::Written, came.operation);
    let after = sync_client::pull_received(transfer, first.1);
    let later = sync_client::concatenated(payloads(rest));
    assert(after.content + later =~= transfer.content + sync_client::concatenated(
        payloads(frames),
    ));
    if rest.len() == 0 {
        assert(payloads(rest) =~= Seq::empty());
        assert(after.content + later =~= after.content);
        assert(arrives(params, kept.stage, rest, kept.operation) == kept.stage);
    } else {
        assert forall|i: int| 0 <= i < rest.len() implies ({
            let header = (#[trigger] rest[i]).0;
            &&& header.command == Command::Data
            &&& header.stream_id == stream_id
            &&& header.end_stream == (i == rest.len() - 1)
        }) by {
            assert(rest[i] == frames[i + 1]);
        }
        assert(kept.stage == PullStage::Receiving { stream_id, transfer: after });
        arrived_bytes_decide_a_pull(params, stream_id, after, rest, kept.operation);
    }
}

/// A pull asks for what is missing: a new one for the whole file, and one that continues
/// another for the rest behind the partial file that is kept under its identifier.
pub proof fn pulls_ask_for_what_is_missing<H>(
    params: SyncPullParamsView,
    stream_id: u32,
    kept: Option<u64>,
    operation: SyncOperationView<H>,
)
    requires
        !operation.cancelled,
    ensures
        ({
            let first = pull_next(
                params,
                PullStage::Opening,
                PullEventView::Opened(stream_id),
                operation,
            );
            let measured = pull_next(
                params,
                first.stage,
                PullEventView::Measured(kept),
                first.operation,
            );
            &&& params.transfer_id is None ==> first.action == PullActionView::Ask(
                SyncRequestView::Pull {
                    transfer_id: None,
                    remote_path: params.remote_path,
                    offset: 0,
                    block_size: params.block_size,
                },
            )
            &&& params.transfer_id matches Some(id) ==> {
                &&& !(first.action is Ask)
                &&& first.action is Measure ==> {
                    &&& first.action == PullActionView::Measure(
                        sync_client::staging_name(params.local_path, id),
                    )
                    &&& measured.action == PullActionView::Ask(
                        SyncRequestView::Pull {
                            transfer_id: Some(id),
                            remote_path: params.remote_path,
                            offset: if kept is Some {
                                kept->0
                            } else {
                                0
                            },
                            block_size: params.block_size,
                        },
                    )
                }
                &&& sync_client::is_transfer_id(id) ==> first.action is Measure
            }
        }),
{
}

/// Where a pull stands after these pieces of its partial file have been read.
pub open spec fn reads_back<H>(
    params: SyncPullParamsView,
    stage: PullStage,
    pieces: Seq<Seq<u8>>,
    operation: SyncOperationView<H>,
) -> PullStage
    decreases pieces.len(),
{
    if pieces.len() == 0 {
        stage
    } else {
        let next = pull_next(params, stage, PullEventView::StagingRead(pieces[0]), operation);
        reads_back(params, next.stage, pieces.skip(1), next.operation)
    }
}

/// A pull that continues another counts every byte that is kept, in order and whatever
/// the pieces, before it takes more; a partial file of another size ends it.
pub proof fn kept_bytes_begin_the_file<H>(
    params: SyncPullParamsView,
    stream_id: u32,
    start: PullStartView,
    prefix: Seq<u8>,
    pieces: Seq<Seq<u8>>,
    operation: SyncOperationView<H>,
)
    requires
        !operation.cancelled,
        pieces.len() > 0,
        forall|i: int| 0 <= i < pieces.len() ==> (#[trigger] pieces[i]).len() > 0,
        prefix.len() + sync_client::concatenated(pieces).len() == start.offset,
    ensures
        reads_back(params, PullStage::Hashing { stream_id, start, prefix }, pieces, operation)
            == (PullStage::Receiving {
            stream_id,
            transfer: sync_client::pull_begun(start, prefix + sync_client::concatenated(pieces)),
        }),
    decreases pieces.len(),
{
    let rest = pieces.skip(1);
    sync_client::concatenated_from_front(pieces);
    let stage = PullStage::Hashing { stream_id, start, prefix };
    let next = pull_next(params, stage, PullEventView::StagingRead(pieces[0]), operation);
    let longer = prefix + pieces[0];
    assert(longer + sync_client::concatenated(rest) =~= prefix + sync_client::concatenated(pieces));
    if rest.len() == 0 {
        assert(longer + sync_client::concatenated(rest) =~= longer);
        assert(reads_back(params, next.stage, rest, next.operation) == next.stage);
    } else {
        sync_client::concatenated_from_front(rest);
        assert(rest[0].len() > 0) by {
            assert(rest[0] == pieces[1]);
        }
        assert forall|i: int| 0 <= i < rest.len() implies (#[trigger] rest[i]).len() > 0 by {
            assert(rest[i] == pieces[i + 1]);
        }
        assert(next.stage == PullStage::Hashing { stream_id, start, prefix: longer });
        kept_bytes_begin_the_file(params, stream_id, start, longer, rest, next.operation);
    }
}

/// A frame of another stream, or of another kind than is due, ends a pull, and so does
/// whatever fails on the way and a partial file of another size; nothing but a regular
/// file is replaced, and a pull that has failed is over.
pub proof fn pulls_take_their_own_frames_only<H>(
    params: SyncPullParamsView,
    stage: PullStage,
    event: PullEventView,
    operation: SyncOperationView<H>,
)
    requires
        answers(stage, event),
    ensures
        ({
            let next = pull_next(params, stage, event, operation);
            let stream_id = match stage {
                PullStage::Asking { stream_id, .. } => stream_id,
                PullStage::Receiving { stream_id, .. } => stream_id,
                PullStage::Closing { stream_id, .. } => stream_id,
                _ => 0,
            };
            &&& event matches PullEventView::Failed(error) ==> next.action == PullActionView::Fail(
                error,
            )
            &&& event matches PullEventView::Replied(header, _) ==> (header.stream_id != stream_id
                || header.command != Command::Data ==> next.action is Fail)
            &&& event matches PullEventView::Received(header, _) ==> (header.stream_id != stream_id
                || header.command != Command::Data ==> next.action is Fail)
            &&& event matches PullEventView::Closed(header) ==> (header.stream_id != stream_id
                || header.command != Command::Close ==> next.action is Fail)
            &&& event matches PullEventView::StagingOpened(size) ==> (
            stage matches PullStage::Staging { start, .. } ==> (size != start.offset ==> next.action
                is Fail))
            &&& next.action matches PullActionView::Replace { staging, destination, remove } ==> {
                &&& stage matches PullStage::Saving { transfer, .. }
                &&& staging == transfer.staging
                &&& destination == params.local_path
                &&& event matches PullEventView::Saved { exists, is_regular_file }
                &&& remove == exists
                &&& exists ==> is_regular_file
            }
            &&& next.action is Fail || next.action is Reset || next.action is Done <==> next.stage
                == PullStage::Over
        }),
{
}

} // verus!
