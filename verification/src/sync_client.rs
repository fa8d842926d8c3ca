//! The host side of a file transfer over a device link: what is asked of the
//! device, how its answers are taken, and what is checked of the files.
//!
//! [`crate::push_stream`] and [`crate::pull_stream`] put these steps in order.

use crate::codec;
use crate::codec::{digest_of, feed_hasher, new_hasher};
use crate::link;
use crate::link::{expect, Command, Header, LinkError, LinkErrorView};
use crate::model::{
    SyncProgressPhase, SyncPullParams, SyncPullParamsView, SyncPullResult, SyncPullResultView,
    SyncPushParams, SyncPushParamsView, SyncPushResult, SyncPushResultView, TransferState,
};
use crate::rpc_error;
use crate::rpc_error::{ErrorCode, ErrorDetail, ErrorDetailView, RpcError, RpcErrorView};
use crate::runtime::model::MAX_SYNC_BLOCK_SIZE;
use crate::sync_operation::{HostSyncOperation, SyncOperationView};
use crate::text;
use crate::text::{chars_of, clone_optional, concat};
use vstd::prelude::*;

verus! {

/// The block size of a transfer unless another is asked for: 256 KiB.
pub const DEFAULT_SYNC_BLOCK_SIZE: u32 = 262144;

/// The longest identifier of a transfer.
pub const MAX_TRANSFER_ID: usize = 128;

/// Whether a character can stand in the identifier of a transfer.
pub open spec fn is_id_char(c: char) -> bool {
    'a' <= c <= 'z' || 'A' <= c <= 'Z' || '0' <= c <= '9' || c == '-' || c == '_'
}

/// Whether a text can be the identifier of a transfer, and so part of a file
/// name.
pub open spec fn is_transfer_id(text: Seq<char>) -> bool {
    &&& 0 < text.len() <= MAX_TRANSFER_ID
    &&& forall|i: int| 0 <= i < text.len() ==> is_id_char(#[trigger] text[i])
}

/// Whether a text can be the identifier of a transfer.
pub fn is_valid_transfer_id(text: &str) -> (valid: bool)
    ensures
        valid == is_transfer_id(text@),
{
    let chars = chars_of(text);
    if chars.len() == 0 || chars.len() > MAX_TRANSFER_ID {
        return false;
    }
    let mut i: usize = 0;
    while i < chars.len()
        invariant
            i <= chars.len(),
            chars@ == text@,
            forall|k: int| 0 <= k < i ==> is_id_char(#[trigger] chars@[k]),
        decreases chars.len() - i,
    {
        let c = chars[i];
        if !(('a' <= c && c <= 'z') || ('A' <= c && c <= 'Z') || ('0' <= c && c <= '9') || c == '-'
            || c == '_') {
            return false;
        }
        i += 1;
    }
    true
}

/// Why a transfer is refused before it starts, if it is.
pub open spec fn start_refusal(
    local_is_absolute: bool,
    block_size: u32,
    transfer_id: Option<Seq<char>>,
) -> Option<RpcErrorView> {
    if !local_is_absolute {
        Some(rpc_error::invalid_params("host paths must be absolute"@))
    } else if block_size == 0 || block_size > MAX_SYNC_BLOCK_SIZE {
        Some(rpc_error::invalid_params("block_size must be between 1 and 1048576"@))
    } else if transfer_id matches Some(id) && !is_transfer_id(id) {
        Some(rpc_error::invalid_params("invalid transfer_id"@))
    } else {
        None
    }
}

/// Checks what a transfer is started with.
pub fn validate_start(
    local_is_absolute: bool,
    block_size: u32,
    transfer_id: &Option<String>,
) -> (result: Result<(), RpcError>)
    ensures
        rpc_error::outcome(result) == (match start_refusal(
            local_is_absolute,
            block_size,
            text::optional(*transfer_id),
        ) {
            None => Ok(()),
            Some(error) => Err(error),
        }),
{
    if !local_is_absolute {
        return Err(RpcError::invalid_params("host paths must be absolute"));
    }
    if block_size == 0 || block_size > MAX_SYNC_BLOCK_SIZE {
        return Err(RpcError::invalid_params("block_size must be between 1 and 1048576"));
    }
    match transfer_id {
        Some(id) => {
            if is_valid_transfer_id(id.as_str()) {
                Ok(())
            } else {
                Err(RpcError::invalid_params("invalid transfer_id"))
            }
        },
        None => Ok(()),
    }
}

/// What a client is told when a host file cannot be used.
pub fn host_file_error(operation: &str, path: &str, detail: &str) -> (error: RpcError)
    ensures
        error@ == (RpcErrorView {
            code: ErrorCode::InvalidParams,
            message: "Unable to "@ + operation@ + " host file"@,
            detail: ErrorDetailView::HostPath { path: path@, detail: detail@ },
        }),
{
    let mut message = concat("Unable to ", operation);
    message.append(" host file");
    RpcError {
        code: ErrorCode::InvalidParams,
        message,
        detail: ErrorDetail::HostPath { path: path.to_owned(), detail: detail.to_owned() },
    }
}

/// What a client is told of a cancelled transfer.
pub open spec fn cancelled() -> RpcErrorView {
    rpc_error::plain_error(ErrorCode::TransferCancelled, "Transfer cancelled"@)
}

/// Stops a transfer that has been cancelled.
pub fn check_cancelled<H>(operation: &HostSyncOperation<H>) -> (result: Result<(), LinkError>)
    ensures
        link::outcome(result) == (if operation@.cancelled {
            Err(LinkErrorView::Remote(cancelled()))
        } else {
            Ok(())
        }),
{
    if operation.is_cancelled() {
        Err(LinkError::Remote(RpcError::new(ErrorCode::TransferCancelled, "Transfer cancelled")))
    } else {
        Ok(())
    }
}

/// How many bytes of a file are read at once when this many are left.
pub open spec fn next_read(left: int) -> int {
    if left > DEFAULT_SYNC_BLOCK_SIZE {
        DEFAULT_SYNC_BLOCK_SIZE as int
    } else {
        left
    }
}

/// A file is read to its end and no further: as long as something is left something is
/// read, and never more than is left or than a block.
pub proof fn files_are_read_to_their_end(left: int)
    requires
        left >= 0,
    ensures
        next_read(left) == 0 <==> left == 0,
        0 <= next_read(left) <= left,
        next_read(left) <= 256 * 1024,
        left <= 256 * 1024 ==> next_read(left) == left,
{
}

/// The digest of the first bytes of a host file, as they are read.
pub struct FileHash {
    length: u64,
    hashed: u64,
    hasher: blake3::Hasher,
}

impl FileHash {
    /// The number of bytes to read.
    pub closed spec fn length(&self) -> u64 {
        self.length
    }

    /// The bytes that have been read.
    pub closed spec fn content(&self) -> Seq<u8> {
        codec::hashed(self.hasher)
    }

    /// No more has been read than is to be read.
    pub closed spec fn wf(&self) -> bool {
        self.hashed == codec::hashed(self.hasher).len() && self.hashed <= self.length
    }

    /// A digest of this many bytes, of which none has been read.
    pub fn new(length: u64) -> (hash: Self)
        ensures
            hash.wf(),
            hash.length() == length,
            hash.content() == Seq::<u8>::empty(),
    {
        FileHash { length, hashed: 0, hasher: new_hasher() }
    }

    /// The number of bytes to read next: 0 when all have been read.
    pub fn wanted(&self) -> (wanted: usize)
        requires
            self.wf(),
        ensures
            wanted == next_read(self.length() - self.content().len()),
    {
        let remaining: u64 = self.length - self.hashed;
        if remaining > DEFAULT_SYNC_BLOCK_SIZE as u64 {
            DEFAULT_SYNC_BLOCK_SIZE as usize
        } else {
            remaining as usize
        }
    }

    /// Takes the bytes that come next.
    pub fn feed(&mut self, bytes: &[u8])
        requires
            old(self).wf(),
            bytes@.len() <= old(self).length() - old(self).content().len(),
        ensures
            final(self).wf(),
            final(self).length() == old(self).length(),
            final(self).content() == old(self).content() + bytes@,
    {
        feed_hasher(&mut self.hasher, bytes);
        self.hashed = self.hashed + bytes.len() as u64;
    }

    /// The number of bytes that have been read.
    pub fn read(&self) -> (read: u64)
        requires
            self.wf(),
        ensures
            read == self.content().len(),
    {
        self.hashed
    }

    /// The digest of what has been read.
    pub fn digest(&self) -> (digest: String)
        ensures
            digest@ == codec::blake3_hex(self.content()),
    {
        digest_of(&self.hasher)
    }
}

/// What the host asks of the device.
#[derive(Debug)]
pub enum SyncRequest {
    Push {
        transfer_id: Option<String>,
        remote_path: String,
        total_size: u64,
        file_hash: String,
        block_size: u32,
    },
    Pull { transfer_id: Option<String>, remote_path: String, offset: u64, block_size: u32 },
}

/// The model of [`SyncRequest`].
#[verifier::ext_equal]
pub enum SyncRequestView {
    Push {
        transfer_id: Option<Seq<char>>,
        remote_path: Seq<char>,
        total_size: u64,
        file_hash: Seq<char>,
        block_size: u32,
    },
    Pull { transfer_id: Option<Seq<char>>, remote_path: Seq<char>, offset: u64, block_size: u32 },
}

impl View for SyncRequest {
    type V = SyncRequestView;

    open spec fn view(&self) -> SyncRequestView {
        match *self {
            SyncRequest::Push { transfer_id, remote_path, total_size, file_hash, block_size } =>
                SyncRequestView::Push {
                transfer_id: text::optional(transfer_id),
                remote_path: remote_path@,
                total_size,
                file_hash: file_hash@,
                block_size,
            },
            SyncRequest::Pull { transfer_id, remote_path, offset, block_size } =>
                SyncRequestView::Pull {
                transfer_id: text::optional(transfer_id),
                remote_path: remote_path@,
                offset,
                block_size,
            },
        }
    }
}

/// What the device answers.
#[derive(Debug)]
pub enum SyncReply {
    Ready { transfer_id: String, offset: u64, total_size: u64, file_hash: String },
    Complete { transfer_id: String, next_offset: u64, total_size: u64 },
    Failure(RpcError),
}

/// The model of [`SyncReply`].
#[verifier::ext_equal]
pub enum SyncReplyView {
    Ready { transfer_id: Seq<char>, offset: u64, total_size: u64, file_hash: Seq<char> },
    Complete { transfer_id: Seq<char>, next_offset: u64, total_size: u64 },
    Failure(RpcErrorView),
}

impl View for SyncReply {
    type V = SyncReplyView;

    open spec fn view(&self) -> SyncReplyView {
        match *self {
            SyncReply::Ready { transfer_id, offset, total_size, file_hash } =>
                SyncReplyView::Ready {
                transfer_id: transfer_id@,
                offset,
                total_size,
                file_hash: file_hash@,
            },
            SyncReply::Complete { transfer_id, next_offset, total_size } =>
                SyncReplyView::Complete { transfer_id: transfer_id@, next_offset, total_size },
            SyncReply::Failure(error) => SyncReplyView::Failure(error@),
        }
    }
}

/// The model of an answer that may not be readable.
pub open spec fn decoded(reply: Result<SyncReply, String>) -> Result<SyncReplyView, Seq<char>> {
    match reply {
        Ok(value) => Ok(value@),
        Err(detail) => Err(detail@),
    }
}

/// The answer in a frame: it has to be a data frame of the stream, and readable.
pub open spec fn reply_in(
    stream_id: u32,
    header: Header,
    reply: Result<SyncReplyView, Seq<char>>,
    label: Seq<char>,
) -> Result<SyncReplyView, LinkErrorView> {
    match link::expected(header, Command::Data, stream_id) {
        Err(error) => Err(error),
        Ok(()) => match reply {
            Ok(value) => Ok(value),
            Err(detail) => Err(LinkErrorView::InvalidPayload { label, detail }),
        },
    }
}

/// Takes the answer in a frame.
pub fn take_reply(
    stream_id: u32,
    header: Header,
    reply: Result<SyncReply, String>,
    label: &str,
) -> (result: Result<SyncReply, LinkError>)
    ensures
        link::outcome(result) == reply_in(stream_id, header, decoded(reply), label@),
{
    expect(header, Command::Data, stream_id)?;
    match reply {
        Ok(value) => Ok(value),
        Err(detail) => Err(LinkError::InvalidPayload { label: label.to_owned(), detail }),
    }
}

/// The operation once the device has agreed to the transfer.
pub open spec fn started<H>(
    transfer_id: Seq<char>,
    offset: u64,
    total_size: u64,
    operation: SyncOperationView<H>,
) -> SyncOperationView<H> {
    SyncOperationView {
        transfer_id: Some(transfer_id),
        phase: SyncProgressPhase::Transferring,
        transferred: offset,
        total: total_size,
        ..operation
    }
}

/// Whether the device goes on with the transfer that was asked for.
pub open spec fn continues(requested: Option<Seq<char>>, transfer_id: Seq<char>) -> bool {
    is_transfer_id(transfer_id) && (requested matches Some(id) ==> id == transfer_id)
}

fn check_continues(requested: &Option<String>, transfer_id: &String) -> (result: bool)
    ensures
        result == continues(text::optional(*requested), transfer_id@),
{
    is_valid_transfer_id(transfer_id.as_str()) && match requested {
        Some(id) => *id == *transfer_id,
        None => true,
    }
}

/// A push that the device has not answered yet.
pub struct PushOffer {
    transfer_id: Option<String>,
    remote_path: String,
    block_size: u32,
    total_size: u64,
    file_hash: String,
}

/// The model of [`PushOffer`].
#[verifier::ext_equal]
pub struct PushOfferView {
    pub transfer_id: Option<Seq<char>>,
    pub remote_path: Seq<char>,
    pub block_size: u32,
    pub total_size: u64,
    pub file_hash: Seq<char>,
}

impl View for PushOffer {
    type V = PushOfferView;

    closed spec fn view(&self) -> PushOfferView {
        PushOfferView {
            transfer_id: text::optional(self.transfer_id),
            remote_path: self.remote_path@,
            block_size: self.block_size,
            total_size: self.total_size,
            file_hash: self.file_hash@,
        }
    }
}

/// The model of [`PushTransfer`].
#[verifier::ext_equal]
pub struct PushTransferView {
    pub transfer_id: Seq<char>,
    pub sent: u64,
    pub total_size: u64,
}

/// What a push of a file of this size and digest offers.
pub open spec fn push_offer(
    params: SyncPushParamsView,
    total_size: u64,
    file_hash: Seq<char>,
) -> PushOfferView {
    PushOfferView {
        transfer_id: params.transfer_id,
        remote_path: params.remote_path,
        block_size: params.block_size,
        total_size,
        file_hash,
    }
}

/// The request that opens a push.
pub open spec fn push_request(offer: PushOfferView) -> SyncRequestView {
    SyncRequestView::Push {
        transfer_id: offer.transfer_id,
        remote_path: offer.remote_path,
        total_size: offer.total_size,
        file_hash: offer.file_hash,
        block_size: offer.block_size,
    }
}

/// How the device's first answer to a push is taken.
pub open spec fn push_accepted(offer: PushOfferView, reply: SyncReplyView) -> Result<
    PushTransferView,
    LinkErrorView,
> {
    match reply {
        SyncReplyView::Failure(error) => Err(LinkErrorView::Remote(error)),
        SyncReplyView::Ready { transfer_id, offset, total_size, file_hash } => if total_size
            != offer.total_size || file_hash != offer.file_hash {
            Err(LinkErrorView::UnexpectedFrame("invalid sync push READY"@))
        } else if !continues(offer.transfer_id, transfer_id) || offset > offer.total_size {
            Err(LinkErrorView::UnexpectedFrame("sync push resume mismatch"@))
        } else {
            Ok(PushTransferView { transfer_id, sent: offset, total_size: offer.total_size })
        },
        SyncReplyView::Complete { .. } => Err(
            LinkErrorView::UnexpectedFrame("invalid sync push READY"@),
        ),
    }
}

impl PushOffer {
    /// A push of a file of this size and digest.
    pub fn new(params: &SyncPushParams, total_size: u64, file_hash: &str) -> (offer: Self)
        ensures
            offer@ == push_offer(params@, total_size, file_hash@),
    {
        PushOffer {
            transfer_id: clone_optional(&params.transfer_id),
            remote_path: params.remote_path.clone(),
            block_size: params.block_size,
            total_size,
            file_hash: file_hash.to_owned(),
        }
    }

    /// The request that opens the push.
    pub fn request(&self) -> (request: SyncRequest)
        ensures
            request@ == push_request(self@),
    {
        SyncRequest::Push {
            transfer_id: clone_optional(&self.transfer_id),
            remote_path: self.remote_path.clone(),
            total_size: self.total_size,
            file_hash: self.file_hash.clone(),
            block_size: self.block_size,
        }
    }

    /// Takes the first answer of the device: where the push goes on.
    pub fn accept<H>(self, reply: SyncReply, operation: &mut HostSyncOperation<H>) -> (transfer:
        Result<PushTransfer, LinkError>)
        ensures
            link::outcome(transfer) == push_accepted(self@, reply@),
            transfer matches Ok(started) ==> started.wf(),
            final(operation)@ == (match link::outcome(transfer) {
                Ok(agreed) => started(
                    agreed.transfer_id,
                    agreed.sent,
                    agreed.total_size,
                    old(operation)@,
                ),
                Err(_) => old(operation)@,
            }),
    {
        match reply {
            SyncReply::Failure(error) => Err(LinkError::Remote(error)),
            SyncReply::Ready { transfer_id, offset, total_size, file_hash } => {
                if total_size != self.total_size || file_hash != self.file_hash {
                    return Err(LinkError::unexpected("invalid sync push READY"));
                }
                if !check_continues(&self.transfer_id, &transfer_id) || offset > total_size {
                    return Err(LinkError::unexpected("sync push resume mismatch"));
                }
                operation.transfer_id(transfer_id.clone());
                operation.phase(SyncProgressPhase::Transferring, offset, total_size);
                Ok(PushTransfer { transfer_id, sent: offset, total_size })
            },
            SyncReply::Complete { .. } => Err(LinkError::unexpected("invalid sync push READY")),
        }
    }
}

/// A push whose bytes are being sent.
#[derive(Debug)]
pub struct PushTransfer {
    transfer_id: String,
    sent: u64,
    total_size: u64,
}

impl View for PushTransfer {
    type V = PushTransferView;

    closed spec fn view(&self) -> PushTransferView {
        PushTransferView {
            transfer_id: self.transfer_id@,
            sent: self.sent,
            total_size: self.total_size,
        }
    }
}

/// What reading a block of the source makes of a push: how far it has come.
pub open spec fn push_read(transfer: PushTransferView, count: nat) -> Result<
    PushTransferView,
    LinkErrorView,
> {
    if count == 0 {
        Err(LinkErrorView::UnexpectedFrame("local file ended before its declared size"@))
    } else if transfer.sent + count > u64::MAX {
        Err(LinkErrorView::SequenceExhausted)
    } else if transfer.sent + count > transfer.total_size {
        Err(LinkErrorView::UnexpectedFrame("local file grew during sync"@))
    } else {
        Ok(PushTransferView { sent: (transfer.sent + count) as u64, ..transfer })
    }
}

/// How the device's last answer to a push is taken.
pub open spec fn push_completed(transfer: PushTransferView, reply: SyncReplyView) -> Result<
    SyncPushResultView,
    LinkErrorView,
> {
    match reply {
        SyncReplyView::Failure(error) => Err(LinkErrorView::Remote(error)),
        SyncReplyView::Complete { transfer_id, next_offset, total_size } => if transfer_id
            == transfer.transfer_id && next_offset == transfer.total_size && total_size
            == transfer.total_size {
            Ok(
                SyncPushResultView {
                    transfer_id,
                    accepted_offset: next_offset,
                    state: TransferState::Complete,
                },
            )
        } else {
            Err(LinkErrorView::UnexpectedFrame("invalid sync push completion"@))
        },
        SyncReplyView::Ready { .. } => Err(
            LinkErrorView::UnexpectedFrame("invalid sync push completion"@),
        ),
    }
}

impl PushTransfer {
    /// No more has been sent than there is.
    pub closed spec fn wf(&self) -> bool {
        self.sent <= self.total_size
    }

    /// Where in the source the next block starts.
    pub fn offset(&self) -> (offset: u64)
        ensures
            offset == self@.sent,
    {
        self.sent
    }

    /// Whether everything has been sent.
    pub fn is_done(&self) -> (done: bool)
        ensures
            done == (self@.sent == self@.total_size),
    {
        self.sent == self.total_size
    }

    /// Takes a block that was read from the source: whether it is the last one,
    /// which ends the stream.
    pub fn read(&mut self, count: usize) -> (last: Result<bool, LinkError>)
        requires
            old(self).wf(),
        ensures
            final(self).wf(),
            match push_read(old(self)@, count as nat) {
                Ok(after) => final(self)@ == after && link::outcome(last) == Ok::<_, LinkErrorView>(
                    after.sent == after.total_size,
                ),
                Err(error) => final(self)@ == old(self)@ && link::outcome(last) == Err::<bool, _>(
                    error,
                ),
            },
    {
        if count == 0 {
            return Err(LinkError::unexpected("local file ended before its declared size"));
        }
        let sent: u64 = match self.sent.checked_add(count as u64) {
            Some(sent) => sent,
            None => {
                return Err(LinkError::SequenceExhausted);
            },
        };
        if sent > self.total_size {
            return Err(LinkError::unexpected("local file grew during sync"));
        }
        self.sent = sent;
        Ok(sent == self.total_size)
    }

    /// Notes that what has been read has been sent.
    pub fn sent<H>(&self, operation: &mut HostSyncOperation<H>)
        ensures
            final(operation)@ == (SyncOperationView {
                transferred: self@.sent,
                ..old(operation)@
            }),
    {
        operation.transferred(self.sent);
    }

    /// Takes the last answer of the device.
    pub fn complete(self, reply: SyncReply) -> (result: Result<SyncPushResult, LinkError>)
        ensures
            link::outcome(result) == push_completed(self@, reply@),
    {
        match reply {
            SyncReply::Failure(error) => Err(LinkError::Remote(error)),
            SyncReply::Complete { transfer_id, next_offset, total_size } => {
                if transfer_id == self.transfer_id && next_offset == self.total_size && total_size
                    == self.total_size {
                    Ok(
                        SyncPushResult {
                            transfer_id,
                            accepted_offset: next_offset,
                            state: TransferState::Complete,
                        },
                    )
                } else {
                    Err(LinkError::unexpected("invalid sync push completion"))
                }
            },
            SyncReply::Ready { .. } => Err(LinkError::unexpected("invalid sync push completion")),
        }
    }
}

/// Where the bytes of a pull are kept until it is complete.
pub open spec fn staging_name(destination: Seq<char>, transfer_id: Seq<char>) -> Seq<char> {
    destination + ".kindlebridge."@ + transfer_id + ".part"@
}

/// Where the bytes of a pull are kept until it is complete.
pub fn staging_path(destination: &str, transfer_id: &str) -> (path: Result<String, LinkError>)
    ensures
        link::outcome(path) == (if is_transfer_id(transfer_id@) {
            Ok(staging_name(destination@, transfer_id@))
        } else {
            Err(LinkErrorView::UnexpectedFrame("invalid sync transfer ID"@))
        }),
{
    if !is_valid_transfer_id(transfer_id) {
        return Err(LinkError::unexpected("invalid sync transfer ID"));
    }
    let mut path = concat(destination, ".kindlebridge.");
    path.append(transfer_id);
    path.append(".part");
    Ok(path)
}

/// A pull that the device has not answered yet.
pub struct PullOffer {
    transfer_id: Option<String>,
    remote_path: String,
    local_path: String,
    block_size: u32,
    offset: u64,
}

/// The model of [`PullOffer`].
#[verifier::ext_equal]
pub struct PullOfferView {
    pub transfer_id: Option<Seq<char>>,
    pub remote_path: Seq<char>,
    pub local_path: Seq<char>,
    pub block_size: u32,
    pub offset: u64,
}

impl View for PullOffer {
    type V = PullOfferView;

    closed spec fn view(&self) -> PullOfferView {
        PullOfferView {
            transfer_id: text::optional(self.transfer_id),
            remote_path: self.remote_path@,
            local_path: self.local_path@,
            block_size: self.block_size,
            offset: self.offset,
        }
    }
}

/// The model of [`PullTransfer`].
#[verifier::ext_equal]
pub struct PullTransferView {
    pub transfer_id: Seq<char>,
    pub staging: Seq<char>,
    pub content: Seq<u8>,
    pub received: u64,
    pub total_size: u64,
    pub file_hash: Seq<char>,
}

/// What a pull offers that goes on behind this many bytes.
pub open spec fn pull_offer(params: SyncPullParamsView, offset: u64) -> PullOfferView {
    PullOfferView {
        transfer_id: params.transfer_id,
        remote_path: params.remote_path,
        local_path: params.local_path,
        block_size: params.block_size,
        offset,
    }
}

/// The request that opens a pull.
pub open spec fn pull_request(offer: PullOfferView) -> SyncRequestView {
    SyncRequestView::Pull {
        transfer_id: offer.transfer_id,
        remote_path: offer.remote_path,
        offset: offer.offset,
        block_size: offer.block_size,
    }
}

/// How the device's first answer to a pull is taken, before the bytes that are
/// already there have been hashed.
pub open spec fn pull_accepted(offer: PullOfferView, reply: SyncReplyView) -> Result<
    PullStartView,
    LinkErrorView,
> {
    match reply {
        SyncReplyView::Failure(error) => Err(LinkErrorView::Remote(error)),
        SyncReplyView::Ready { transfer_id, offset, total_size, file_hash } => if !continues(
            offer.transfer_id,
            transfer_id,
        ) || offset != offer.offset || offset > total_size {
            Err(LinkErrorView::UnexpectedFrame("sync pull resume mismatch"@))
        } else {
            Ok(
                PullStartView {
                    transfer_id,
                    staging: staging_name(offer.local_path, transfer_id),
                    offset,
                    total_size,
                    file_hash,
                },
            )
        },
        SyncReplyView::Complete { .. } => Err(
            LinkErrorView::UnexpectedFrame("invalid sync pull READY"@),
        ),
    }
}

impl PullOffer {
    /// The staging file that a continued pull goes on with, if it continues one.
    pub fn resumed_staging(params: &SyncPullParams) -> (path: Result<Option<String>, LinkError>)
        ensures
            match params@.transfer_id {
                None => path matches Ok(None),
                Some(id) => if is_transfer_id(id) {
                    path matches Ok(Some(name)) && name@ == staging_name(params@.local_path, id)
                } else {
                    path matches Err(error) && error@ == LinkErrorView::UnexpectedFrame(
                        "invalid sync transfer ID"@,
                    )
                },
            },
    {
        match &params.transfer_id {
            None => Ok(None),
            Some(id) => match staging_path(params.local_path.as_str(), id.as_str()) {
                Ok(path) => Ok(Some(path)),
                Err(error) => Err(error),
            },
        }
    }

    /// A pull that goes on behind the bytes that are already there.
    pub fn new(params: &SyncPullParams, offset: u64) -> (offer: Self)
        ensures
            offer@ == pull_offer(params@, offset),
    {
        PullOffer {
            transfer_id: clone_optional(&params.transfer_id),
            remote_path: params.remote_path.clone(),
            local_path: params.local_path.clone(),
            block_size: params.block_size,
            offset,
        }
    }

    /// The request that opens the pull.
    pub fn request(&self) -> (request: SyncRequest)
        ensures
            request@ == pull_request(self@),
    {
        SyncRequest::Pull {
            transfer_id: clone_optional(&self.transfer_id),
            remote_path: self.remote_path.clone(),
            offset: self.offset,
            block_size: self.block_size,
        }
    }

    /// Takes the first answer of the device: where the pull goes on.
    pub fn accept<H>(self, reply: SyncReply, operation: &mut HostSyncOperation<H>) -> (start: Result<
        PullStart,
        LinkError,
    >)
        ensures
            link::outcome(start) == pull_accepted(self@, reply@),
            start matches Ok(started) ==> started.wf(),
            final(operation)@ == (match link::outcome(start) {
                Ok(agreed) => started(
                    agreed.transfer_id,
                    agreed.offset,
                    agreed.total_size,
                    old(operation)@,
                ),
                Err(_) => old(operation)@,
            }),
    {
        match reply {
            SyncReply::Failure(error) => Err(LinkError::Remote(error)),
            SyncReply::Ready { transfer_id, offset, total_size, file_hash } => {
                if !check_continues(&self.transfer_id, &transfer_id) || offset != self.offset
                    || offset > total_size {
                    return Err(LinkError::unexpected("sync pull resume mismatch"));
                }
                let staging = staging_path(self.local_path.as_str(), transfer_id.as_str())?;
                operation.transfer_id(transfer_id.clone());
                operation.phase(SyncProgressPhase::Transferring, offset, total_size);
                Ok(PullStart { transfer_id, staging, offset, total_size, file_hash })
            },
            SyncReply::Complete { .. } => Err(LinkError::unexpected("invalid sync pull READY")),
        }
    }
}

/// A pull that the device has accepted.
#[derive(Debug)]
pub struct PullStart {
    transfer_id: String,
    staging: String,
    offset: u64,
    total_size: u64,
    file_hash: String,
}

/// The model of [`PullStart`].
#[verifier::ext_equal]
pub struct PullStartView {
    pub transfer_id: Seq<char>,
    pub staging: Seq<char>,
    pub offset: u64,
    pub total_size: u64,
    pub file_hash: Seq<char>,
}

impl View for PullStart {
    type V = PullStartView;

    closed spec fn view(&self) -> PullStartView {
        PullStartView {
            transfer_id: self.transfer_id@,
            staging: self.staging@,
            offset: self.offset,
            total_size: self.total_size,
            file_hash: self.file_hash@,
        }
    }
}

impl PullStart {
    /// The bytes that are already there are part of the file.
    pub closed spec fn wf(&self) -> bool {
        self.offset <= self.total_size
    }

    /// The file that the bytes are kept in.
    pub fn staging(&self) -> (path: &str)
        ensures
            path@ == self@.staging,
    {
        self.staging.as_str()
    }

    /// Whether the staging file starts empty.
    pub fn starts_empty(&self) -> (empty: bool)
        ensures
            empty == (self@.offset == 0),
    {
        self.offset == 0
    }

    /// Checks the size of the opened staging file, whose bytes are then hashed.
    pub fn open(&self, actual_size: u64) -> (hash: Result<FileHash, LinkError>)
        ensures
            match hash {
                Ok(prefix) => actual_size == self@.offset && prefix.wf() && prefix.length()
                    == self@.offset && prefix.content() == Seq::<u8>::empty(),
                Err(error) => actual_size != self@.offset && error@
                    == LinkErrorView::UnexpectedFrame("host staging size changed before resume"@),
            },
    {
        if actual_size != self.offset {
            return Err(LinkError::unexpected("host staging size changed before resume"));
        }
        Ok(FileHash::new(self.offset))
    }

    /// Goes on with the pull once all the bytes that are already there have been
    /// hashed.
    pub fn begin(self, prefix: FileHash) -> (transfer: PullTransfer)
        requires
            self.wf(),
            prefix.wf(),
            prefix.length() == self@.offset,
            prefix.content().len() == self@.offset,
        ensures
            transfer.wf(),
            transfer@ == pull_begun(self@, prefix.content()),
    {
        PullTransfer {
            transfer_id: self.transfer_id,
            staging: self.staging,
            received: self.offset,
            total_size: self.total_size,
            file_hash: self.file_hash,
            hasher: prefix.hasher,
        }
    }
}

/// A pull whose bytes are arriving.
pub struct PullTransfer {
    transfer_id: String,
    staging: String,
    received: u64,
    total_size: u64,
    file_hash: String,
    hasher: blake3::Hasher,
}

impl View for PullTransfer {
    type V = PullTransferView;

    closed spec fn view(&self) -> PullTransferView {
        PullTransferView {
            transfer_id: self.transfer_id@,
            staging: self.staging@,
            content: codec::hashed(self.hasher),
            received: self.received,
            total_size: self.total_size,
            file_hash: self.file_hash@,
        }
    }
}

/// A pull that goes on behind the bytes that are already there.
pub open spec fn pull_begun(start: PullStartView, prefix: Seq<u8>) -> PullTransferView {
    PullTransferView {
        transfer_id: start.transfer_id,
        staging: start.staging,
        content: prefix,
        received: start.offset,
        total_size: start.total_size,
        file_hash: start.file_hash,
    }
}

/// What a data frame makes of a pull.
pub open spec fn pull_received(transfer: PullTransferView, payload: Seq<u8>) -> PullTransferView {
    PullTransferView {
        content: transfer.content + payload,
        received: (transfer.received + payload.len()) as u64,
        ..transfer
    }
}

/// Whether a pull has given the file that the device announced: all of its bytes
/// are there, and they have the announced digest.
pub open spec fn pull_verified(transfer: PullTransferView) -> bool {
    transfer.received == transfer.total_size && codec::blake3_hex(transfer.content)
        == transfer.file_hash
}

/// What a client is told of a file that is not the announced one.
pub open spec fn checksum_mismatch() -> RpcErrorView {
    rpc_error::plain_error(ErrorCode::ChecksumMismatch, "Checksum mismatch"@)
}

/// The failure of a pull whose file is not the announced one.
pub(crate) fn mismatch() -> (error: LinkError)
    ensures
        error@ == LinkErrorView::Remote(checksum_mismatch()),
{
    LinkError::Remote(RpcError::new(ErrorCode::ChecksumMismatch, "Checksum mismatch"))
}

/// The result of a verified pull.
pub open spec fn pull_result(transfer: PullTransferView) -> SyncPullResultView {
    SyncPullResultView {
        transfer_id: transfer.transfer_id,
        total_size: transfer.total_size,
        received_size: transfer.received,
        state: TransferState::Complete,
    }
}

impl PullTransfer {
    /// The count is that of the bytes.
    pub closed spec fn wf(&self) -> bool {
        self.received == codec::hashed(self.hasher).len()
    }

    /// The file that the bytes are kept in.
    pub fn staging(&self) -> (path: &str)
        ensures
            path@ == self@.staging,
    {
        self.staging.as_str()
    }

    /// Takes the bytes of a data frame, which have been written to the staging
    /// file. More bytes than the device announced end the pull.
    pub fn receive<H>(&mut self, payload: &[u8], operation: &mut HostSyncOperation<H>) -> (result:
        Result<(), LinkError>)
        requires
            old(self).wf(),
        ensures
            old(self)@.received + payload@.len() > u64::MAX ==> {
                &&& link::outcome(result) == Err::<(), _>(LinkErrorView::SequenceExhausted)
                &&& final(operation)@ == old(operation)@
            },
            old(self)@.received + payload@.len() <= u64::MAX ==> {
                &&& final(self).wf()
                &&& final(self)@ == pull_received(old(self)@, payload@)
                &&& final(operation)@ == (SyncOperationView {
                    transferred: final(self)@.received,
                    ..old(operation)@
                })
                &&& link::outcome(result) == (if final(self)@.received > old(self)@.total_size {
                    Err(LinkErrorView::UnexpectedFrame("sync pull exceeded declared size"@))
                } else {
                    Ok(())
                })
            },
    {
        feed_hasher(&mut self.hasher, payload);
        let received: u64 = match self.received.checked_add(payload.len() as u64) {
            Some(received) => received,
            None => {
                return Err(LinkError::SequenceExhausted);
            },
        };
        self.received = received;
        operation.transferred(received);
        if received > self.total_size {
            return Err(LinkError::unexpected("sync pull exceeded declared size"));
        }
        Ok(())
    }

    /// Checks the pulled file at the end of the stream. A file with another size
    /// or digest is refused, and its staging file is to be emptied.
    pub fn verify(&self) -> (result: Result<(), LinkError>)
        ensures
            link::outcome(result) == (if pull_verified(self@) {
                Ok(())
            } else {
                Err(LinkErrorView::Remote(checksum_mismatch()))
            }),
    {
        if self.received == self.total_size {
            let digest = digest_of(&self.hasher);
            if digest == self.file_hash {
                return Ok(());
            }
        }
        Err(mismatch())
    }

    /// The result of the pull, once its file is in place.
    pub fn complete<H>(self, operation: &mut HostSyncOperation<H>) -> (result: SyncPullResult)
        ensures
            result@ == pull_result(self@),
            final(operation)@ == (SyncOperationView {
                transferred: self@.received,
                ..old(operation)@
            }),
    {
        operation.transferred(self.received);
        SyncPullResult {
            transfer_id: self.transfer_id,
            total_size: self.total_size,
            received_size: self.received,
            state: TransferState::Complete,
        }
    }
}

/// Checks what lies at the destination of a pull: only a regular file may be
/// replaced.
pub fn check_destination(exists: bool, is_regular_file: bool) -> (result: Result<(), LinkError>)
    ensures
        link::outcome(result) == (if exists && !is_regular_file {
            Err(LinkErrorView::UnexpectedFrame("host destination must be a regular file"@))
        } else {
            Ok(())
        }),
{
    if exists && !is_regular_file {
        Err(LinkError::unexpected("host destination must be a regular file"))
    } else {
        Ok(())
    }
}

/// The payloads one behind the other.
pub open spec fn concatenated(payloads: Seq<Seq<u8>>) -> Seq<u8>
    decreases payloads.len(),
{
    if payloads.len() == 0 {
        Seq::empty()
    } else {
        concatenated(payloads.drop_last()) + payloads.last()
    }
}

/// The first payload comes before all the others.
pub(crate) proof fn concatenated_from_front(payloads: Seq<Seq<u8>>)
    requires
        payloads.len() > 0,
    ensures
        concatenated(payloads) == payloads[0] + concatenated(payloads.skip(1)),
    decreases payloads.len(),
{
    if payloads.len() == 1 {
        assert(payloads.drop_last() =~= Seq::empty());
        assert(payloads.skip(1) =~= Seq::empty());
    } else {
        concatenated_from_front(payloads.drop_last());
        assert(payloads.drop_last().skip(1) =~= payloads.skip(1).drop_last());
        assert(payloads.skip(1).last() == payloads.last());
    }
    assert(concatenated(payloads) =~= payloads[0] + concatenated(payloads.skip(1)));
}

/// A transfer starts only from an absolute host path, in blocks of at least one byte
/// and at most one mebibyte, and under an identifier that names no other place: it
/// holds no separator, no dot and no drive.
pub proof fn started_transfers_are_bounded(
    local_is_absolute: bool,
    block_size: u32,
    transfer_id: Option<Seq<char>>,
)
    ensures
        start_refusal(local_is_absolute, block_size, transfer_id) is None ==> {
            &&& local_is_absolute
            &&& 1 <= block_size <= 1024 * 1024
            &&& transfer_id matches Some(id) ==> {
                &&& 1 <= id.len() <= 128
                &&& !id.contains('/')
                &&& !id.contains('\\')
                &&& !id.contains('.')
                &&& !id.contains(':')
                &&& !id.contains('\0')
            }
        },
        start_refusal(local_is_absolute, block_size, transfer_id) matches Some(error)
            ==> error.code == ErrorCode::InvalidParams,
        local_is_absolute && 1 <= block_size <= 1024 * 1024 && transfer_id is None
            ==> start_refusal(local_is_absolute, block_size, transfer_id) is None,
        start_refusal(local_is_absolute, block_size, transfer_id) is None ==> start_refusal(
            local_is_absolute,
            block_size,
            None,
        ) is None,
{
    if start_refusal(local_is_absolute, block_size, transfer_id) is None {
        if let Some(id) = transfer_id {
            assert forall|i: int| 0 <= i < id.len() implies {
                let c = #[trigger] id[i];
                c != '/' && c != '\\' && c != '.' && c != ':' && c != '\0'
            } by {
                assert(is_id_char(id[i]));
            }
        }
    }
}

/// Hexadecimal texts of up to sixty-four bytes are identifiers of transfers.
pub proof fn hexadecimal_texts_are_transfer_ids(bytes: Seq<u8>)
    requires
        0 < bytes.len() <= 64,
    ensures
        is_transfer_id(codec::hex(bytes)),
{
    codec::hex_is_lower(bytes);
    let text = codec::hex(bytes);
    assert forall|i: int| 0 <= i < text.len() implies is_id_char(#[trigger] text[i]) by {
        assert(codec::is_lower_hex(text[i]));
    }
}

/// A push opens with the file that it sends: its size, its digest and the place on the
/// device, under the identifier that the client asked for. The device's answer has to
/// repeat them, and where it goes on is what the device already has.
pub proof fn pushes_go_on_where_the_device_is(
    params: SyncPushParamsView,
    total_size: u64,
    file_hash: Seq<char>,
    reply: SyncReplyView,
)
    ensures
        ({
            let offer = push_offer(params, total_size, file_hash);
            let accepted = push_accepted(offer, reply);
            &&& push_request(offer) matches SyncRequestView::Push {
                transfer_id: asked,
                remote_path: place,
                total_size: size,
                file_hash: digest,
                block_size: block,
            } && asked == params.transfer_id && place == params.remote_path && size == total_size
                && digest == file_hash && block == params.block_size
            &&& accepted matches Ok(transfer) ==> {
                &&& reply == SyncReplyView::Ready {
                    transfer_id: transfer.transfer_id,
                    offset: transfer.sent,
                    total_size,
                    file_hash,
                }
                &&& transfer.sent <= transfer.total_size
                &&& transfer.total_size == total_size
                &&& is_transfer_id(transfer.transfer_id)
                &&& params.transfer_id is Some ==> params.transfer_id == Some(transfer.transfer_id)
            }
            &&& reply matches SyncReplyView::Failure(error) ==> accepted == Err::<
                PushTransferView,
                _,
            >(LinkErrorView::Remote(error))
            &&& reply matches SyncReplyView::Ready {
                transfer_id,
                offset,
                total_size: size,
                file_hash: digest,
            } ==> {
                size == total_size && digest == file_hash && offset <= total_size && is_transfer_id(
                    transfer_id,
                ) && (params.transfer_id is None || params.transfer_id == Some(transfer_id))
                    ==> accepted is Ok
            }
        }),
{
}

/// A push ends well only when the device confirms, under the agreed identifier, that it
/// has every byte of the offered file; what it confirms is what the client is told.
pub proof fn completed_pushes_are_confirmed(
    offer: PushOfferView,
    ready: SyncReplyView,
    transfer: PushTransferView,
    reply: SyncReplyView,
)
    requires
        push_accepted(offer, ready) is Ok,
        transfer.transfer_id == push_accepted(offer, ready)->Ok_0.transfer_id,
        transfer.total_size == push_accepted(offer, ready)->Ok_0.total_size,
    ensures
        push_completed(transfer, reply) matches Ok(result) ==> {
            &&& reply == SyncReplyView::Complete {
                transfer_id: result.transfer_id,
                next_offset: offer.total_size,
                total_size: offer.total_size,
            }
            &&& result.accepted_offset == offer.total_size
            &&& result.state == TransferState::Complete
            &&& offer.transfer_id is Some ==> offer.transfer_id == Some(result.transfer_id)
        },
        push_completed(
            transfer,
            SyncReplyView::Complete {
                transfer_id: transfer.transfer_id,
                next_offset: offer.total_size,
                total_size: offer.total_size,
            },
        ) is Ok,
{
}

/// Reading the source brings a push forward by what was read, and by no more than is
/// left; a source that gives nothing, or more than its size, ends it.
pub proof fn pushes_advance_by_what_is_read(transfer: PushTransferView, count: nat)
    requires
        transfer.sent < transfer.total_size,
    ensures
        push_read(transfer, count) is Ok <==> 1 <= count <= transfer.total_size - transfer.sent,
        push_read(transfer, count) matches Ok(after) ==> after.sent - transfer.sent == count
            && after.transfer_id == transfer.transfer_id && after.total_size == transfer.total_size,
{
}

/// Pulls under different identifiers are kept apart, and apart from the file that they
/// replace; the kept file lies beside its destination.
pub proof fn partial_files_are_kept_apart(
    destination: Seq<char>,
    left: Seq<char>,
    right: Seq<char>,
)
    requires
        is_transfer_id(left),
        is_transfer_id(right),
    ensures
        staging_name(destination, left) == staging_name(destination, right) ==> left == right,
        staging_name(destination, left) != destination,
        destination.is_prefix_of(staging_name(destination, left)),
        !staging_name(destination, left).skip(destination.len() as int).contains('/'),
        !staging_name(destination, left).skip(destination.len() as int).contains('\\'),
{
    reveal_strlit(".kindlebridge.");
    reveal_strlit(".part");
    let name = staging_name(destination, left);
    let other = staging_name(destination, right);
    let start = destination.len() as int + 14;
    assert(name.len() == start + left.len() + 5);
    assert(other.len() == start + right.len() + 5);
    if name == other {
        assert(left =~= name.subrange(start, start + left.len()));
        assert(right =~= other.subrange(start, start + right.len()));
    }
    let rest = name.skip(destination.len() as int);
    assert(rest =~= ".kindlebridge."@ + left + ".part"@);
    assert forall|i: int| 0 <= i < rest.len() implies #[trigger] rest[i] != '/' && rest[i] != '\\' by {
        if 14 <= i < 14 + left.len() {
            assert(rest[i] == left[i - 14]);
            assert(is_id_char(left[i - 14]));
        }
    }
}

/// A pull asks for the rest of the file behind the bytes that are kept, and the device
/// has to go on exactly there. What is kept is the start of the file.
pub proof fn pulls_go_on_behind_what_is_kept(
    params: SyncPullParamsView,
    kept: Seq<u8>,
    reply: SyncReplyView,
)
    requires
        kept.len() <= u64::MAX,
    ensures
        ({
            let offer = pull_offer(params, kept.len() as u64);
            let accepted = pull_accepted(offer, reply);
            &&& pull_request(offer) matches SyncRequestView::Pull {
                transfer_id: asked,
                remote_path: place,
                offset,
                block_size: block,
            } && asked == params.transfer_id && place == params.remote_path && offset == kept.len()
                && block == params.block_size
            &&& accepted matches Ok(start) ==> {
                let transfer = pull_begun(start, kept);
                &&& reply == SyncReplyView::Ready {
                    transfer_id: start.transfer_id,
                    offset: kept.len() as u64,
                    total_size: start.total_size,
                    file_hash: start.file_hash,
                }
                &&& kept.len() <= start.total_size
                &&& is_transfer_id(start.transfer_id)
                &&& params.transfer_id is Some ==> params.transfer_id == Some(start.transfer_id)
                &&& start.staging == staging_name(params.local_path, start.transfer_id)
                &&& transfer.content == kept
                &&& transfer.received == kept.len()
                &&& transfer.total_size == start.total_size
                &&& transfer.file_hash == start.file_hash
            }
            &&& reply matches SyncReplyView::Failure(error) ==> accepted == Err::<
                PullStartView,
                _,
            >(LinkErrorView::Remote(error))
        }),
{
}

/// A pulled file is the announced one only with all of its bytes and its digest: a
/// device that has sent less, or something else, is not believed.
pub proof fn pulled_bytes_are_checked(
    start: PullStartView,
    kept: Seq<u8>,
    payload: Seq<u8>,
)
    requires
        start.offset == kept.len(),
        kept.len() + payload.len() <= u64::MAX,
    ensures
        ({
            let transfer = pull_received(pull_begun(start, kept), payload);
            &&& transfer.content == kept + payload
            &&& transfer.received == kept.len() + payload.len()
            &&& pull_verified(transfer) <==> {
                &&& kept.len() + payload.len() == start.total_size
                &&& codec::blake3_hex(kept + payload) == start.file_hash
            }
            &&& pull_verified(transfer) ==> {
                let result = pull_result(transfer);
                &&& result.transfer_id == start.transfer_id
                &&& result.total_size == start.total_size
                &&& result.received_size == start.total_size
                &&& result.state == TransferState::Complete
            }
        }),
{
}

} // verus!
