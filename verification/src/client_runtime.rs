//! The shells and transfers that one local client has open.
//!
//! The runtime decides; its caller owns the threads, moves the frames and runs
//! the shells and transfers behind the handles that the runtime keeps.

use crate::codec;
use crate::codec::{decode_base64, encode_base64, new_session_id};
use crate::device_session::{DeviceShellEvent, ShellExit, ShellPacket, TerminalSize};
use crate::host_rpc;
use crate::host_rpc::{ParamsView, RequestId, Route, ServerStateView};
use crate::methods;
use crate::methods::Method;
use crate::model::{SyncProgress, SyncProgressPhase, SyncProgressView, TransferDirection};
use crate::provider::ProviderError;
use crate::rpc_error;
use crate::rpc_error::{ErrorCode, RpcError, RpcErrorView};
use crate::sync_operation::{HostSyncOperation, SyncOperationView};
use crate::table::Table;
use crate::text;
use vstd::prelude::*;

verus! {

/// The number of transfers that one client can have open.
pub const MAX_CLIENT_SYNC_OPERATIONS: usize = 4;

/// The window of a shell stream: 256 KiB.
pub const SHELL_STREAM_WINDOW: u32 = 262144;

/// A handle that the runtime keeps for its caller.
pub struct Held<T> {
    pub handle: T,
}

impl<T> View for Held<T> {
    type V = T;

    open spec fn view(&self) -> T {
        self.handle
    }
}

/// Where a request of a client goes.
#[derive(Clone, Copy, Debug, PartialEq, Eq, Structural)]
pub enum ClientRoute {
    /// It opens a shell.
    ShellOpen,
    /// It opens a transfer.
    SyncOpen(TransferDirection),
    /// It cancels a transfer.
    SyncCancel,
    /// It concerns an open shell.
    Stream,
    /// It is dispatched to the devices.
    Dispatch,
}

/// Where a request with this method goes.
pub open spec fn route_of(method: Seq<char>) -> ClientRoute {
    match methods::method_named(method) {
        Some(Method::ShellOpen) => ClientRoute::ShellOpen,
        Some(Method::SyncPushStream) => ClientRoute::SyncOpen(TransferDirection::Push),
        Some(Method::SyncPullStream) => ClientRoute::SyncOpen(TransferDirection::Pull),
        Some(Method::SyncCancel) => ClientRoute::SyncCancel,
        Some(Method::StreamWrite) => ClientRoute::Stream,
        Some(Method::StreamResize) => ClientRoute::Stream,
        Some(Method::StreamCloseInput) => ClientRoute::Stream,
        Some(Method::StreamClose) => ClientRoute::Stream,
        _ => ClientRoute::Dispatch,
    }
}

/// Decides where a request goes.
pub fn client_route(method: &str) -> (route: ClientRoute)
    ensures
        route == route_of(method@),
{
    match Method::parse(method) {
        Some(Method::ShellOpen) => ClientRoute::ShellOpen,
        Some(Method::SyncPushStream) => ClientRoute::SyncOpen(TransferDirection::Push),
        Some(Method::SyncPullStream) => ClientRoute::SyncOpen(TransferDirection::Pull),
        Some(Method::SyncCancel) => ClientRoute::SyncCancel,
        Some(Method::StreamWrite) => ClientRoute::Stream,
        Some(Method::StreamResize) => ClientRoute::Stream,
        Some(Method::StreamCloseInput) => ClientRoute::Stream,
        Some(Method::StreamClose) => ClientRoute::Stream,
        _ => ClientRoute::Dispatch,
    }
}

/// The shells and transfers that one client has open, with the largest payload
/// of a shell packet.
pub struct ClientRuntime<S, O> {
    streams: Table<String, Held<S>>,
    sync_jobs: Table<String, Held<O>>,
    largest_packet: usize,
}

/// The model of [`ClientRuntime`].
#[verifier::ext_equal]
#[verifier::reject_recursive_types(S)]
#[verifier::reject_recursive_types(O)]
pub struct ClientRuntimeView<S, O> {
    pub streams: Map<Seq<char>, S>,
    pub sync_jobs: Map<Seq<char>, O>,
    pub largest_packet: usize,
}

impl<S, O> View for ClientRuntime<S, O> {
    type V = ClientRuntimeView<S, O>;

    closed spec fn view(&self) -> ClientRuntimeView<S, O> {
        ClientRuntimeView {
            streams: self.streams@,
            sync_jobs: self.sync_jobs@,
            largest_packet: self.largest_packet,
        }
    }
}

impl<S, O> ClientRuntimeView<S, O> {
    /// The runtime with a shell under an identifier.
    pub open spec fn with_shell(self, stream_id: Seq<char>, shell: S) -> Self {
        ClientRuntimeView { streams: self.streams.insert(stream_id, shell), ..self }
    }

    /// The runtime without the shell under an identifier.
    pub open spec fn without_shell(self, stream_id: Seq<char>) -> Self {
        ClientRuntimeView { streams: self.streams.remove(stream_id), ..self }
    }

    /// The runtime with a transfer under an identifier.
    pub open spec fn with_sync(self, operation_id: Seq<char>, operation: O) -> Self {
        ClientRuntimeView { sync_jobs: self.sync_jobs.insert(operation_id, operation), ..self }
    }

    /// The runtime without the transfer under an identifier.
    pub open spec fn without_sync(self, operation_id: Seq<char>) -> Self {
        ClientRuntimeView { sync_jobs: self.sync_jobs.remove(operation_id), ..self }
    }

    /// The runtime after a shutdown.
    pub open spec fn ended(self) -> Self {
        ClientRuntimeView { streams: Map::empty(), sync_jobs: Map::empty(), ..self }
    }
}

/// A shutdown leaves nothing to hand out, so a second one changes nothing.
pub proof fn shutdown_is_idempotent<S, O>(runtime: ClientRuntimeView<S, O>)
    ensures
        runtime.ended().ended() == runtime.ended(),
        hands_out(runtime.ended().streams, Seq::<S>::empty()),
        hands_out(runtime.ended().sync_jobs, Seq::<O>::empty()),
{
    assert(enumerates(runtime.ended().streams, Seq::<Seq<char>>::empty(), Seq::<S>::empty()));
    assert(enumerates(runtime.ended().sync_jobs, Seq::<Seq<char>>::empty(), Seq::<O>::empty()));
}

/// A client never has more transfers open than it may: opening one more keeps
/// the bound.
pub proof fn open_transfers_stay_bounded<S, O>(
    before: ClientRuntimeView<S, O>,
    id: Option<RequestId>,
    fresh: Option<Seq<char>>,
    operation: O,
    after: ClientRuntimeView<S, O>,
    result: SyncOpening,
)
    requires
        before.sync_jobs.dom().finite(),
        before.sync_jobs.dom().len() <= MAX_CLIENT_SYNC_OPERATIONS,
        opening(before, id, fresh, operation, after, result),
    ensures
        after.sync_jobs.dom().finite(),
        after.sync_jobs.dom().len() <= MAX_CLIENT_SYNC_OPERATIONS,
{
    if let Some(identifier) = fresh {
        assert(before.sync_jobs.insert(identifier, operation).dom()
            =~= before.sync_jobs.dom().insert(identifier));
    }
}

/// What becomes of a request for a transfer.
#[derive(Debug)]
pub enum SyncOpening {
    /// A notification opens nothing.
    Ignored,
    /// The client has too many transfers open.
    Refused(RequestId, RpcError),
    /// No identifier could be made.
    NoIdentifier(RequestId),
    /// The transfer runs under this identifier.
    Started(RequestId, String),
}

/// What a client is told of a transfer too many.
pub open spec fn too_many() -> RpcErrorView {
    rpc_error::plain_error(
        ErrorCode::InvalidState,
        "Too many active sync operations for this client"@,
    )
}

/// What becomes of a request for a transfer, and of the runtime, when the random
/// source gave this identifier.
pub open spec fn opening<S, O>(
    before: ClientRuntimeView<S, O>,
    id: Option<RequestId>,
    fresh: Option<Seq<char>>,
    operation: O,
    after: ClientRuntimeView<S, O>,
    result: SyncOpening,
) -> bool {
    match id {
        None => result == SyncOpening::Ignored && after == before,
        Some(request) => if before.sync_jobs.dom().len() >= MAX_CLIENT_SYNC_OPERATIONS {
            &&& result matches SyncOpening::Refused(answered, error) && answered == request
                && error@ == too_many()
            &&& after == before
        } else {
            match fresh {
                None => result == SyncOpening::NoIdentifier(request) && after == before,
                Some(identifier) => {
                    &&& result matches SyncOpening::Started(answered, given) && answered == request
                        && given@ == identifier
                    &&& after == before.with_sync(identifier, operation)
                },
            }
        },
    }
}

impl<S, O> ClientRuntime<S, O> {
    /// The tables are in order.
    pub closed spec fn wf(&self) -> bool {
        self.streams.wf() && self.sync_jobs.wf()
    }

    /// A client with nothing open.
    pub fn new(largest_packet: usize) -> (runtime: Self)
        ensures
            runtime.wf(),
            runtime@.streams == Map::<Seq<char>, S>::empty(),
            runtime@.sync_jobs == Map::<Seq<char>, O>::empty(),
            runtime@.largest_packet == largest_packet,
    {
        ClientRuntime { streams: Table::new(), sync_jobs: Table::new(), largest_packet }
    }

    /// Keeps a shell under an identifier.
    pub fn track_shell(&mut self, stream_id: String, shell: S)
        requires
            old(self).wf(),
        ensures
            final(self).wf(),
            final(self)@ == old(self)@.with_shell(stream_id@, shell),
    {
        self.streams.insert(stream_id, Held { handle: shell });
    }

    /// Keeps a transfer under an identifier.
    pub fn track_sync(&mut self, operation_id: String, operation: O)
        requires
            old(self).wf(),
        ensures
            final(self).wf(),
            final(self)@ == old(self)@.with_sync(operation_id@, operation),
    {
        self.sync_jobs.insert(operation_id, Held { handle: operation });
    }

    /// Whether nothing is open.
    pub fn is_idle(&self) -> (idle: bool)
        requires
            self.wf(),
        ensures
            idle == (self@.streams.dom() == Set::<Seq<char>>::empty() && self@.sync_jobs.dom()
                == Set::<Seq<char>>::empty()),
    {
        proof {
            self.streams.keys_are_the_domain();
            self.sync_jobs.keys_are_the_domain();
            let streams = self.streams.keys();
            let jobs = self.sync_jobs.keys();
            if streams.len() == 0 {
                assert(self@.streams.dom() =~= Set::<Seq<char>>::empty());
            } else {
                assert(self@.streams.dom().contains(streams[0]));
            }
            if jobs.len() == 0 {
                assert(self@.sync_jobs.dom() =~= Set::<Seq<char>>::empty());
            } else {
                assert(self@.sync_jobs.dom().contains(jobs[0]));
            }
        }
        self.streams.len() == 0 && self.sync_jobs.len() == 0
    }

    /// Ends everything that the client has open: the shells to be closed and the
    /// transfers to be cancelled are handed out, each once, and nothing stays.
    pub fn shutdown(&mut self) -> (ended: (Vec<S>, Vec<O>))
        requires
            old(self).wf(),
        ensures
            final(self).wf(),
            final(self)@ == old(self)@.ended(),
            hands_out(old(self)@.streams, ended.0@),
            hands_out(old(self)@.sync_jobs, ended.1@),
    {
        let streams = drain(&mut self.streams);
        let jobs = drain(&mut self.sync_jobs);
        (streams, jobs)
    }

    /// Opens a transfer under an identifier that the random source gave, if it
    /// gave one.
    pub fn open_sync_as(
        &mut self,
        id: Option<RequestId>,
        fresh: Option<String>,
        operation: O,
    ) -> (result: SyncOpening)
        requires
            old(self).wf(),
        ensures
            final(self).wf(),
            opening(
                old(self)@,
                id,
                text::optional(fresh),
                operation,
                final(self)@,
                result,
            ),
    {
        let request = match id {
            None => {
                return SyncOpening::Ignored;
            },
            Some(request) => request,
        };
        if self.sync_jobs.len() >= MAX_CLIENT_SYNC_OPERATIONS {
            return SyncOpening::Refused(
                request,
                RpcError::new(
                    ErrorCode::InvalidState,
                    "Too many active sync operations for this client",
                ),
            );
        }
        match fresh {
            None => SyncOpening::NoIdentifier(request),
            Some(identifier) => {
                self.track_sync(identifier.clone(), operation);
                SyncOpening::Started(request, identifier)
            },
        }
    }

    /// Opens a transfer under a new random identifier.
    pub fn open_sync(&mut self, id: Option<RequestId>, operation: O) -> (result: SyncOpening)
        requires
            old(self).wf(),
        ensures
            final(self).wf(),
            exists|fresh: Option<Seq<char>>| #[trigger]
                opening(old(self)@, id, fresh, operation, final(self)@, result) && (
                fresh matches Some(identifier) ==> codec::is_session_id(identifier)),
    {
        let fresh = match new_session_id() {
            Ok(identifier) => Some(identifier),
            Err(_) => None,
        };
        let ghost given = text::optional(fresh);
        let result = self.open_sync_as(id, fresh, operation);
        assert(opening(old(self)@, id, given, operation, self@, result));
        result
    }

    /// Forgets a transfer that has ended.
    pub fn finish_sync(&mut self, operation_id: &String)
        requires
            old(self).wf(),
        ensures
            final(self).wf(),
            final(self)@ == old(self)@.without_sync(operation_id@),
    {
        self.sync_jobs.remove(operation_id);
    }

    /// The transfer that a client wants to cancel. An unknown identifier is
    /// ignored.
    pub fn sync_to_cancel(&self, operation_id: &String) -> (operation: Option<&O>)
        requires
            self.wf(),
        ensures
            match operation {
                Some(found) => self@.sync_jobs.dom().contains(operation_id@)
                    && self@.sync_jobs[operation_id@] == *found,
                None => !self@.sync_jobs.dom().contains(operation_id@),
            },
    {
        match self.sync_jobs.get(operation_id) {
            Some(held) => Some(&held.handle),
            None => None,
        }
    }
}

/// Whether these are the handles in a map, each under its own key.
pub open spec fn hands_out<T>(map: Map<Seq<char>, T>, handles: Seq<T>) -> bool {
    exists|keys: Seq<Seq<char>>| #[trigger] enumerates(map, keys, handles)
}

/// Whether these are the keys of a map, each once, with their values.
pub open spec fn enumerates<T>(
    map: Map<Seq<char>, T>,
    keys: Seq<Seq<char>>,
    handles: Seq<T>,
) -> bool {
    &&& keys.len() == handles.len()
    &&& keys.no_duplicates()
    &&& forall|i: int|
        0 <= i < keys.len() ==> map.dom().contains(#[trigger] keys[i]) && map[keys[i]] == handles[i]
    &&& forall|key: Seq<char>| #[trigger] map.dom().contains(key) ==> keys.contains(key)
}

fn drain<T>(table: &mut Table<String, Held<T>>) -> (handles: Vec<T>)
    requires
        old(table).wf(),
    ensures
        final(table).wf(),
        final(table)@ == Map::<Seq<char>, T>::empty(),
        hands_out(old(table)@, handles@),
{
    let mut entries = table.take_all();
    let mut handles: Vec<T> = Vec::new();
    let ghost all = entries@;
    let ghost keys = Seq::new(all.len(), |i: int| all[i].key@);
    while entries.len() > 0
        invariant
            entries@.len() + handles@.len() == all.len(),
            entries@ == all.take(entries@.len() as int),
            forall|i: int|
                entries@.len() <= i < all.len() ==> (#[trigger] all[i]).value@ == handles@[all.len()
                    - 1 - i],
        decreases entries@.len(),
    {
        if let Some(entry) = entries.pop() {
            assert(entries@ =~= all.take(entries@.len() as int));
            handles.push(entry.value.handle);
        }
    }
    proof {
        let reversed = keys.reverse();
        assert(reversed.no_duplicates());
        assert forall|i: int| 0 <= i < reversed.len() implies old(table)@.dom().contains(
            #[trigger] reversed[i],
        ) && old(table)@[reversed[i]] == handles@[i] by {
            let k = all.len() - 1 - i;
            assert(reversed[i] == keys[k]);
            assert(all[k].value@ == handles@[i]);
        }
        assert forall|key: Seq<char>| #[trigger]
            old(table)@.dom().contains(key) implies reversed.contains(key) by {
            let k = choose|k: int| 0 <= k < all.len() && (#[trigger] all[k]).key@ == key;
            assert(keys[k] == key);
            assert(reversed[keys.len() - 1 - k] == key);
        }
        assert(enumerates(old(table)@, reversed, handles@));
    }
    handles
}

/// Parameters as they were read from a request.
#[derive(Debug)]
pub enum Parsed<T> {
    Absent,
    Malformed,
    Value(T),
}

/// Takes the parameters of a request for a transfer.
pub fn sync_params<T>(direction: TransferDirection, parsed: Parsed<T>) -> (params: Result<
    T,
    RpcError,
>)
    ensures
        match parsed {
            Parsed::Value(value) => params == Ok::<T, RpcError>(value),
            Parsed::Absent => params matches Err(error) && error@ == rpc_error::invalid_params(
                match direction {
                    TransferDirection::Push => "missing sync push params"@,
                    TransferDirection::Pull => "missing sync pull params"@,
                },
            ),
            Parsed::Malformed => params matches Err(error) && error@ == rpc_error::invalid_params(
                match direction {
                    TransferDirection::Push => "invalid sync push params"@,
                    TransferDirection::Pull => "invalid sync pull params"@,
                },
            ),
        },
{
    match parsed {
        Parsed::Value(value) => Ok(value),
        Parsed::Absent => match direction {
            TransferDirection::Push => Err(RpcError::invalid_params("missing sync push params")),
            TransferDirection::Pull => Err(RpcError::invalid_params("missing sync pull params")),
        },
        Parsed::Malformed => match direction {
            TransferDirection::Push => Err(RpcError::invalid_params("invalid sync push params")),
            TransferDirection::Pull => Err(RpcError::invalid_params("invalid sync pull params")),
        },
    }
}

/// A transfer in its first phase.
pub open spec fn begun<H>(
    operation: SyncOperationView<H>,
    direction: TransferDirection,
    local_size: u64,
) -> SyncOperationView<H> {
    match direction {
        TransferDirection::Push => SyncOperationView {
            phase: SyncProgressPhase::Hashing,
            transferred: 0,
            total: local_size,
            ..operation
        },
        TransferDirection::Pull => SyncOperationView {
            phase: SyncProgressPhase::Transferring,
            transferred: 0,
            total: 0,
            ..operation
        },
    }
}

/// Sets a transfer to its first phase. `local_size` is the size of the file to
/// push.
pub fn begin_sync<H>(
    operation: &mut HostSyncOperation<H>,
    direction: TransferDirection,
    local_size: u64,
)
    ensures
        final(operation)@ == begun(old(operation)@, direction, local_size),
{
    match direction {
        TransferDirection::Push => operation.phase(SyncProgressPhase::Hashing, 0, local_size),
        TransferDirection::Pull => operation.phase(SyncProgressPhase::Transferring, 0, 0),
    }
}

/// Takes the parameters of a request for a shell.
pub fn shell_params<T>(parsed: Parsed<T>) -> (params: Result<T, RpcError>)
    ensures
        match parsed {
            Parsed::Value(value) => params == Ok::<T, RpcError>(value),
            Parsed::Absent => params matches Err(error) && error@ == rpc_error::invalid_params(
                "missing shell open params"@,
            ),
            Parsed::Malformed => params matches Err(error) && error@ == rpc_error::invalid_params(
                "expected serial and valid shell open fields"@,
            ),
        },
{
    match parsed {
        Parsed::Value(value) => Ok(value),
        Parsed::Absent => Err(RpcError::invalid_params("missing shell open params")),
        Parsed::Malformed => Err(
            RpcError::invalid_params("expected serial and valid shell open fields"),
        ),
    }
}

/// What a client is told of its new shell.
#[derive(Debug)]
pub struct ShellOpenResult {
    pub stream_id: String,
    pub send_credit: u32,
    pub receive_credit: u32,
}

/// What a client says of an open shell, or nothing that can be understood.
#[derive(Debug)]
pub enum StreamNotification {
    Write { stream_id: String, data: String },
    Resize { stream_id: String, size: TerminalSize },
    CloseInput { stream_id: String },
    Close { stream_id: String },
    Malformed,
}

/// What is to be done for a stream notification.
#[derive(Debug)]
pub enum StreamAction<S> {
    /// Nothing: notifications have no error answer.
    Ignore,
    /// The packet is sent; if that succeeds the client gets so many bytes of
    /// credit back.
    Write { stream_id: String, packet: ShellPacket, credit: u32 },
    /// The packet is sent.
    Send { stream_id: String, packet: ShellPacket },
    /// The shell is closed and the client is told.
    Close { shell: S, closed: StreamClosed },
}

/// Tells a client that a stream is closed, and why.
#[derive(Debug)]
pub struct StreamClosed {
    pub stream_id: String,
    pub reason: Option<String>,
}

/// What is to be done for a write whose data decodes to these bytes.
pub open spec fn write_action<S, O>(
    runtime: ClientRuntimeView<S, O>,
    stream_id: Seq<char>,
    decoded: Option<Seq<u8>>,
    action: StreamAction<S>,
) -> bool {
    match decoded {
        Some(bytes) if bytes.len() <= runtime.largest_packet && runtime.streams.dom().contains(
            stream_id,
        ) => {
            &&& action matches StreamAction::Write { stream_id: id, packet, credit }
            &&& id@ == stream_id
            &&& packet matches ShellPacket::Stdin(data) && data@ == bytes
            &&& credit == (if bytes.len() > u32::MAX {
                0
            } else {
                bytes.len() as int
            })
        },
        _ => action == StreamAction::<S>::Ignore,
    }
}

/// Whether a notification on a stream came to this action.
pub open spec fn notified<S, O>(
    before: ClientRuntimeView<S, O>,
    notification: StreamNotification,
    after: ClientRuntimeView<S, O>,
    action: StreamAction<S>,
) -> bool {
    match notification {
        StreamNotification::Write { stream_id, data } => after == before && write_action(
            before,
            stream_id@,
            codec::base64_bytes(data@),
            action,
        ),
        StreamNotification::Resize { stream_id, size } => after == before
            && if before.streams.dom().contains(stream_id@) {
            action == (StreamAction::<S>::Send { stream_id, packet: ShellPacket::Resize(size) })
        } else {
            action == StreamAction::<S>::Ignore
        },
        StreamNotification::CloseInput { stream_id } => after == before
            && if before.streams.dom().contains(stream_id@) {
            action == (StreamAction::<S>::Send { stream_id, packet: ShellPacket::CloseStdin })
        } else {
            action == StreamAction::<S>::Ignore
        },
        StreamNotification::Close { stream_id } => {
            &&& after == before.without_shell(stream_id@)
            &&& if before.streams.dom().contains(stream_id@) {
                &&& action matches StreamAction::Close { shell, closed }
                &&& shell == before.streams[stream_id@]
                &&& closed.stream_id@ == stream_id@
                &&& text::optional(closed.reason) == Some("closed by client"@)
            } else {
                action == StreamAction::<S>::Ignore
            }
        },
        StreamNotification::Malformed => after == before && action == StreamAction::<S>::Ignore,
    }
}

/// Whether the end of the output of a shell came to this: the client is told only if it
/// did not close the shell itself.
pub open spec fn stream_finished<S, O>(
    before: ClientRuntimeView<S, O>,
    stream_id: String,
    reason: Option<String>,
    after: ClientRuntimeView<S, O>,
    closed: Option<StreamClosed>,
) -> bool {
    &&& after == before.without_shell(stream_id@)
    &&& match closed {
        Some(told) => before.streams.dom().contains(stream_id@) && told.stream_id == stream_id
            && told.reason == reason,
        None => !before.streams.dom().contains(stream_id@),
    }
}

/// The stream that a notification names.
pub open spec fn named_stream(notification: StreamNotification) -> Option<Seq<char>> {
    match notification {
        StreamNotification::Write { stream_id, .. } => Some(stream_id@),
        StreamNotification::Resize { stream_id, .. } => Some(stream_id@),
        StreamNotification::CloseInput { stream_id } => Some(stream_id@),
        StreamNotification::Close { stream_id } => Some(stream_id@),
        StreamNotification::Malformed => None,
    }
}

/// A notification touches the stream that it names and nothing else: every other shell and
/// every transfer stays open, only a close takes a shell away, and what is done is done for
/// the named stream. What names no open stream is ignored.
pub proof fn notifications_touch_one_stream<S, O>(
    before: ClientRuntimeView<S, O>,
    notification: StreamNotification,
    after: ClientRuntimeView<S, O>,
    action: StreamAction<S>,
)
    requires
        notified(before, notification, after, action),
    ensures
        after.sync_jobs == before.sync_jobs,
        forall|id: Seq<char>|
            Some(id) != named_stream(notification) && #[trigger] before.streams.dom().contains(id)
                ==> after.streams.dom().contains(id) && after.streams[id] == before.streams[id],
        !(notification is Close) ==> after == before,
        (named_stream(notification) is None || !before.streams.dom().contains(
            named_stream(notification)->Some_0,
        )) ==> action is Ignore && after.streams =~= before.streams,
        match action {
            StreamAction::Ignore => true,
            StreamAction::Write { stream_id, .. } => notification is Write && Some(stream_id@)
                == named_stream(notification),
            StreamAction::Send { stream_id, packet } => Some(stream_id@) == named_stream(
                notification,
            ) && (packet is CloseStdin <==> notification is CloseInput) && (
            notification matches StreamNotification::Resize { size, .. } ==> packet
                == ShellPacket::Resize(size)),
            StreamAction::Close { shell, closed } => {
                &&& notification is Close
                &&& Some(closed.stream_id@) == named_stream(notification)
                &&& shell == before.streams[closed.stream_id@]
                &&& !after.streams.dom().contains(closed.stream_id@)
            },
        },
        notification is Close && before.streams.dom().contains(
            named_stream(notification)->Some_0,
        ) ==> action is Close,
{
}

/// What a client types reaches its shell as it is: the packet holds the bytes that the
/// client has encoded, and the client gets back just the credit that they took.
pub proof fn typed_input_reaches_the_shell<S, O>(
    runtime: ClientRuntimeView<S, O>,
    stream_id: String,
    data: String,
    bytes: Seq<u8>,
    after: ClientRuntimeView<S, O>,
    action: StreamAction<S>,
)
    requires
        runtime.streams.dom().contains(stream_id@),
        codec::base64_bytes(data@) == Some(bytes),
        bytes.len() <= runtime.largest_packet,
        bytes.len() <= u32::MAX,
        notified(runtime, StreamNotification::Write { stream_id, data }, after, action),
    ensures
        action matches StreamAction::Write { stream_id: id, packet, credit } && id@ == stream_id@
            && credit == bytes.len() && (packet matches ShellPacket::Stdin(sent) && sent@ == bytes),
{
}

impl<S, O> ClientRuntime<S, O> {
    /// Keeps a new shell under an identifier, and says what the client is told.
    pub fn shell_opened(&mut self, shell: S, stream_id: String) -> (result: ShellOpenResult)
        requires
            old(self).wf(),
        ensures
            final(self).wf(),
            final(self)@ == old(self)@.with_shell(stream_id@, shell),
            result.stream_id@ == stream_id@,
            result.send_credit == SHELL_STREAM_WINDOW,
            result.receive_credit == SHELL_STREAM_WINDOW,
    {
        self.track_shell(stream_id.clone(), shell);
        ShellOpenResult {
            stream_id,
            send_credit: SHELL_STREAM_WINDOW,
            receive_credit: SHELL_STREAM_WINDOW,
        }
    }

    /// Keeps a new shell under a new random identifier. Without one it is an
    /// internal error.
    pub fn open_shell(&mut self, shell: S) -> (result: Result<ShellOpenResult, RpcError>)
        requires
            old(self).wf(),
        ensures
            final(self).wf(),
            match result {
                Ok(opened) => {
                    &&& codec::is_session_id(opened.stream_id@)
                    &&& opened.send_credit == SHELL_STREAM_WINDOW
                    &&& opened.receive_credit == SHELL_STREAM_WINDOW
                    &&& final(self)@ == old(self)@.with_shell(opened.stream_id@, shell)
                },
                Err(error) => final(self)@ == old(self)@ && error@ == rpc_error::plain_error(
                    ErrorCode::InternalError,
                    "Internal error"@,
                ),
            },
    {
        match new_session_id() {
            Ok(stream_id) => Ok(self.shell_opened(shell, stream_id)),
            Err(_) => Err(RpcError::internal_error()),
        }
    }

    /// The shell under an identifier.
    pub fn find_stream(&self, stream_id: &String) -> (shell: Option<&S>)
        requires
            self.wf(),
        ensures
            match shell {
                Some(found) => self@.streams.dom().contains(stream_id@)
                    && self@.streams[stream_id@] == *found,
                None => !self@.streams.dom().contains(stream_id@),
            },
    {
        match self.streams.get(stream_id) {
            Some(held) => Some(&held.handle),
            None => None,
        }
    }

    /// Takes the data of a write that decoded to these bytes, if it did. Too
    /// many bytes and unknown streams are ignored.
    pub fn stream_write(&self, stream_id: String, decoded: Option<Vec<u8>>) -> (action: StreamAction<
        S,
    >)
        requires
            self.wf(),
        ensures
            write_action(
                self@,
                stream_id@,
                match decoded {
                    Some(bytes) => Some(bytes@),
                    None => None,
                },
                action,
            ),
    {
        match decoded {
            None => StreamAction::Ignore,
            Some(bytes) => {
                let length: usize = bytes.len();
                if length > self.largest_packet || !self.streams.contains(&stream_id) {
                    return StreamAction::Ignore;
                }
                let credit: u32 = if length as u64 > u32::MAX as u64 {
                    0
                } else {
                    length as u32
                };
                StreamAction::Write { stream_id, packet: ShellPacket::Stdin(bytes), credit }
            },
        }
    }

    /// Decides what a notification on a stream calls for. Whatever cannot be
    /// understood or names an unknown stream is ignored, and no other stream is
    /// touched.
    pub fn handle_stream_notification(&mut self, notification: StreamNotification) -> (action:
        StreamAction<S>)
        requires
            old(self).wf(),
        ensures
            final(self).wf(),
            notified(old(self)@, notification, final(self)@, action),
    {
        match notification {
            StreamNotification::Write { stream_id, data } => {
                let decoded = match decode_base64(data.as_str()) {
                    Ok(bytes) => Some(bytes),
                    Err(_) => None,
                };
                self.stream_write(stream_id, decoded)
            },
            StreamNotification::Resize { stream_id, size } => {
                if self.streams.contains(&stream_id) {
                    StreamAction::Send { stream_id, packet: ShellPacket::Resize(size) }
                } else {
                    StreamAction::Ignore
                }
            },
            StreamNotification::CloseInput { stream_id } => {
                if self.streams.contains(&stream_id) {
                    StreamAction::Send { stream_id, packet: ShellPacket::CloseStdin }
                } else {
                    StreamAction::Ignore
                }
            },
            StreamNotification::Close { stream_id } => {
                match self.streams.remove(&stream_id) {
                    Some(held) => StreamAction::Close {
                        shell: held.handle,
                        closed: StreamClosed {
                            stream_id,
                            reason: Some("closed by client".to_owned()),
                        },
                    },
                    None => StreamAction::Ignore,
                }
            },
            StreamNotification::Malformed => StreamAction::Ignore,
        }
    }

    /// Forgets a shell whose output has ended. The client is told only if it did
    /// not close the shell itself.
    pub fn finish_stream(&mut self, stream_id: String, reason: Option<String>) -> (closed: Option<
        StreamClosed,
    >)
        requires
            old(self).wf(),
        ensures
            final(self).wf(),
            stream_finished(old(self)@, stream_id, reason, final(self)@, closed),
    {
        match self.streams.remove(&stream_id) {
            Some(_) => Some(StreamClosed { stream_id, reason }),
            None => None,
        }
    }
}

/// Which output stream of a process some bytes are from.
#[derive(Clone, Copy, Debug, PartialEq, Eq, Structural)]
pub enum StreamChannel {
    Stdout,
    Stderr,
}

/// What the output of a shell calls for.
#[derive(Debug)]
pub enum ShellOutput {
    /// The client is sent data.
    Data { channel: StreamChannel, data: String },
    /// The client is told how the process ended.
    Exit(ShellExit),
    /// The output has ended, for this reason.
    End(Option<String>),
}

/// Whether an event of a shell calls for this.
pub open spec fn is_output(
    event: Result<DeviceShellEvent, ProviderError>,
    output: ShellOutput,
) -> bool {
    match event {
        Ok(DeviceShellEvent::Packet(ShellPacket::Stdout(bytes))) => output matches
            ShellOutput::Data { channel, data } && channel == StreamChannel::Stdout && data@
            == codec::base64_text(bytes@) && codec::base64_bytes(data@) == Some(bytes@),
        Ok(DeviceShellEvent::Packet(ShellPacket::Stderr(bytes))) => output matches
            ShellOutput::Data { channel, data } && channel == StreamChannel::Stderr && data@
            == codec::base64_text(bytes@) && codec::base64_bytes(data@) == Some(bytes@),
        Ok(DeviceShellEvent::Packet(ShellPacket::Exit(status))) => output == ShellOutput::Exit(
            status,
        ),
        Ok(DeviceShellEvent::Packet(_)) => output matches ShellOutput::End(Some(reason)) && reason@
            == "invalid device shell packet"@,
        Ok(DeviceShellEvent::Closed) => output == ShellOutput::End(None),
        Err(error) => output matches ShellOutput::End(Some(reason)) && reason@
            == "device provider failed: "@ + error@.message,
    }
}

/// What a process prints reaches the client on the channel that it was printed on, as data
/// that decodes to just these bytes; how it ended reaches the client as it was; and output
/// ends only where the device closes the shell, fails, or sends what is no output.
pub proof fn printed_output_reaches_the_client(
    event: Result<DeviceShellEvent, ProviderError>,
    output: ShellOutput,
)
    requires
        is_output(event, output),
    ensures
        match output {
            ShellOutput::Data { channel, data } => match channel {
                StreamChannel::Stdout => event matches Ok(DeviceShellEvent::Packet(packet))
                    && packet matches ShellPacket::Stdout(bytes) && codec::base64_bytes(data@)
                    == Some(bytes@),
                StreamChannel::Stderr => event matches Ok(DeviceShellEvent::Packet(packet))
                    && packet matches ShellPacket::Stderr(bytes) && codec::base64_bytes(data@)
                    == Some(bytes@),
            },
            ShellOutput::Exit(status) => event matches Ok(DeviceShellEvent::Packet(packet))
                && packet == ShellPacket::Exit(status),
            ShellOutput::End(reason) => {
                &&& !(event matches Ok(DeviceShellEvent::Packet(ShellPacket::Stdout(_))))
                &&& !(event matches Ok(DeviceShellEvent::Packet(ShellPacket::Stderr(_))))
                &&& !(event matches Ok(DeviceShellEvent::Packet(ShellPacket::Exit(_))))
                &&& reason is None <==> event matches Ok(DeviceShellEvent::Closed)
            },
        },
{
}

/// Decides what an event of a shell calls for.
pub fn shell_output(event: Result<DeviceShellEvent, ProviderError>) -> (output: ShellOutput)
    requires
        event matches Ok(DeviceShellEvent::Packet(ShellPacket::Stdout(bytes))) ==> bytes@.len()
            <= usize::MAX / 4,
        event matches Ok(DeviceShellEvent::Packet(ShellPacket::Stderr(bytes))) ==> bytes@.len()
            <= usize::MAX / 4,
    ensures
        is_output(event, output),
{
    match event {
        Ok(DeviceShellEvent::Packet(packet)) => match packet {
            ShellPacket::Stdout(bytes) => ShellOutput::Data {
                channel: StreamChannel::Stdout,
                data: encode_base64(bytes.as_slice()),
            },
            ShellPacket::Stderr(bytes) => ShellOutput::Data {
                channel: StreamChannel::Stderr,
                data: encode_base64(bytes.as_slice()),
            },
            ShellPacket::Exit(status) => ShellOutput::Exit(status),
            _ => ShellOutput::End(Some("invalid device shell packet".to_owned())),
        },
        Ok(DeviceShellEvent::Closed) => ShellOutput::End(None),
        Err(error) => ShellOutput::End(Some(error.to_text())),
    }
}

/// Why the output of a shell ends when its client can no longer be told.
pub fn client_lost() -> (reason: String)
    ensures
        reason@ == "client connection was lost"@,
{
    "client connection was lost".to_owned()
}

/// How long it is between two reports of a transfer, in milliseconds.
pub const SYNC_REPORT_INTERVAL: u64 = 100;

/// What the report of a transfer is at.
#[derive(Clone, Copy, Debug, PartialEq, Eq, Structural)]
pub enum ReportPhase {
    /// A report is being sent.
    Reporting,
    /// The next report is due later.
    Waiting,
    /// The client can no longer be told; the transfer has been cancelled.
    Silent,
    /// The transfer has ended and the last report is being sent.
    Closing,
    /// The response is sent.
    Responding,
}

/// What is to be done next to report a transfer.
#[derive(Debug)]
pub enum ReportStep<H> {
    /// The client is told how far the transfer is.
    Report,
    /// After so many milliseconds, or when the transfer has ended, it goes on.
    Wait(u64),
    /// The hooks of the cancelled transfer are run, and then it goes on when the
    /// transfer has ended.
    Cancel(Vec<H>),
    /// The response is sent, and the transfer is forgotten.
    Respond,
}

/// What a report is at once it was sent, and reached the client or not.
pub open spec fn phase_after_sent(phase: ReportPhase, reached: bool) -> ReportPhase {
    if phase == ReportPhase::Closing {
        ReportPhase::Responding
    } else if reached {
        ReportPhase::Waiting
    } else {
        ReportPhase::Silent
    }
}

/// Whether this is done once a report was sent.
pub open spec fn is_sent_step<H>(
    phase: ReportPhase,
    reached: bool,
    before: SyncOperationView<H>,
    after: SyncOperationView<H>,
    step: ReportStep<H>,
) -> bool {
    if phase == ReportPhase::Closing {
        step is Respond && after == before
    } else if reached {
        step == ReportStep::<H>::Wait(SYNC_REPORT_INTERVAL) && after == before
    } else {
        after == before.after_cancel() && (step matches ReportStep::Cancel(hooks) && hooks@
            == before.hooks)
    }
}

/// What a report is at after a wait, when the transfer has ended or not.
pub open spec fn phase_after_wait(phase: ReportPhase, ended: bool) -> ReportPhase {
    if ended {
        ReportPhase::Closing
    } else if phase == ReportPhase::Waiting {
        ReportPhase::Reporting
    } else {
        ReportPhase::Silent
    }
}

/// Whether this is done after a wait.
pub open spec fn is_wait_step<H>(phase: ReportPhase, ended: bool, step: ReportStep<H>) -> bool {
    if ended || phase == ReportPhase::Waiting {
        step is Report
    } else {
        step == ReportStep::<H>::Wait(SYNC_REPORT_INTERVAL)
    }
}

/// A transfer is reported until it has ended, and once more before its response: while it
/// runs and the client can be told, every wait leads to a report; the response comes only
/// behind the report that was made after the end. A client that cannot be told cancels the
/// transfer, once, and gets no further report before the end.
pub proof fn reports_go_before_the_response<H>(
    phase: ReportPhase,
    reached: bool,
    ended: bool,
    before: SyncOperationView<H>,
    after: SyncOperationView<H>,
    sent: ReportStep<H>,
    waited: ReportStep<H>,
)
    requires
        is_sent_step(phase, reached, before, after, sent),
        is_wait_step(phase, ended, waited),
    ensures
        phase == ReportPhase::Reporting || phase == ReportPhase::Closing ==> (sent is Respond
            <==> phase == ReportPhase::Closing),
        phase == ReportPhase::Reporting && reached ==> phase_after_sent(phase, reached)
            == ReportPhase::Waiting && after == before,
        phase == ReportPhase::Reporting && !reached ==> {
            &&& after.cancelled
            &&& sent matches ReportStep::Cancel(hooks) && hooks@ == before.hooks
            &&& phase_after_sent(phase, reached) == ReportPhase::Silent
        },
        phase_after_wait(phase, ended) == ReportPhase::Closing <==> ended,
        ended ==> waited is Report,
        phase == ReportPhase::Waiting && !ended ==> waited is Report && phase_after_wait(phase, ended)
            == ReportPhase::Reporting,
        phase == ReportPhase::Silent && !ended ==> waited is Wait && phase_after_wait(phase, ended)
            == ReportPhase::Silent,
        phase_after_sent(ReportPhase::Closing, reached) == ReportPhase::Responding,
{
}

/// Tells a client how a transfer goes, from its beginning to its response.
#[derive(Debug)]
pub struct SyncReport {
    operation_id: String,
    direction: TransferDirection,
    remote_path: String,
    phase: ReportPhase,
}

impl SyncReport {
    /// The identifier of the transfer.
    pub closed spec fn operation_id(&self) -> Seq<char> {
        self.operation_id@
    }

    /// The direction of the transfer.
    pub closed spec fn direction(&self) -> TransferDirection {
        self.direction
    }

    /// The device path of the transfer.
    pub closed spec fn remote_path(&self) -> Seq<char> {
        self.remote_path@
    }

    /// What the report is at.
    pub closed spec fn phase(&self) -> ReportPhase {
        self.phase
    }

    /// Whether this reports the same transfer.
    pub open spec fn reports_as(&self, other: Self) -> bool {
        &&& self.operation_id() == other.operation_id()
        &&& self.direction() == other.direction()
        &&& self.remote_path() == other.remote_path()
    }

    /// A transfer that has just begun, and is reported at once.
    pub fn new(operation_id: String, direction: TransferDirection, remote_path: String) -> (report:
        Self)
        ensures
            report.operation_id() == operation_id@,
            report.direction() == direction,
            report.remote_path() == remote_path@,
            report.phase() == ReportPhase::Reporting,
    {
        SyncReport { operation_id, direction, remote_path, phase: ReportPhase::Reporting }
    }

    /// What the client is told.
    pub fn progress<H>(&self, operation: &HostSyncOperation<H>) -> (progress: SyncProgress)
        ensures
            progress@ == (SyncProgressView {
                operation_id: self.operation_id(),
                transfer_id: operation@.transfer_id,
                direction: self.direction(),
                remote_path: self.remote_path(),
                phase: operation@.phase,
                transferred: operation@.transferred,
                total: operation@.total,
            }),
    {
        operation.snapshot(self.operation_id.clone(), self.direction, self.remote_path.clone())
    }

    /// Takes whether a report reached the client. Where it did not, the transfer is
    /// cancelled, unless it has ended.
    pub fn sent<H>(&mut self, reached: bool, operation: &mut HostSyncOperation<H>) -> (step:
        ReportStep<H>)
        requires
            old(self).phase() == ReportPhase::Reporting || old(self).phase()
                == ReportPhase::Closing,
        ensures
            final(self).reports_as(*old(self)),
            final(self).phase() == phase_after_sent(old(self).phase(), reached),
            is_sent_step(
                old(self).phase(),
                reached,
                old(operation)@,
                final(operation)@,
                step,
            ),
    {
        match self.phase {
            ReportPhase::Closing => {
                self.phase = ReportPhase::Responding;
                ReportStep::Respond
            },
            _ => {
                if reached {
                    self.phase = ReportPhase::Waiting;
                    ReportStep::Wait(SYNC_REPORT_INTERVAL)
                } else {
                    self.phase = ReportPhase::Silent;
                    ReportStep::Cancel(operation.cancel())
                }
            },
        }
    }

    /// Takes whether the transfer has ended: a last report goes before the response.
    pub fn waited<H>(&mut self, ended: bool) -> (step: ReportStep<H>)
        requires
            old(self).phase() == ReportPhase::Waiting || old(self).phase() == ReportPhase::Silent,
        ensures
            final(self).reports_as(*old(self)),
            final(self).phase() == phase_after_wait(old(self).phase(), ended),
            is_wait_step(old(self).phase(), ended, step),
    {
        if ended {
            self.phase = ReportPhase::Closing;
            return ReportStep::Report;
        }
        match self.phase {
            ReportPhase::Waiting => {
                self.phase = ReportPhase::Reporting;
                ReportStep::Report
            },
            _ => ReportStep::Wait(SYNC_REPORT_INTERVAL),
        }
    }
}

/// A request that opens or concerns a shell or a transfer goes to it by its name, and
/// nothing else does; the devices know none of these requests, so that none is served
/// twice.
pub proof fn requests_go_to_one_place(
    method: Seq<char>,
    server: ServerStateView,
    params: ParamsView,
)
    ensures
        method == "v1.shell.open"@ ==> route_of(method) == ClientRoute::ShellOpen,
        method == "v1.sync.push.stream"@ ==> route_of(method) == ClientRoute::SyncOpen(
            TransferDirection::Push,
        ),
        method == "v1.sync.pull.stream"@ ==> route_of(method) == ClientRoute::SyncOpen(
            TransferDirection::Pull,
        ),
        method == "v1.sync.cancel"@ ==> route_of(method) == ClientRoute::SyncCancel,
        method == "v1.stream.write"@ || method == "v1.stream.resize"@ || method
            == "v1.stream.close_input"@ || method == "v1.stream.close"@ ==> route_of(method)
            == ClientRoute::Stream,
        route_of(method) != ClientRoute::Dispatch ==> (host_rpc::route(server, method, params)
            matches Route::Refused(error) && error.code == ErrorCode::MethodNotFound),
        methods::method_named(method) is None ==> route_of(method) == ClientRoute::Dispatch,
{
    methods::names_are_distinct(Method::ShellOpen);
    methods::names_are_distinct(Method::SyncPushStream);
    methods::names_are_distinct(Method::SyncPullStream);
    methods::names_are_distinct(Method::SyncCancel);
    methods::names_are_distinct(Method::StreamWrite);
    methods::names_are_distinct(Method::StreamResize);
    methods::names_are_distinct(Method::StreamCloseInput);
    methods::names_are_distinct(Method::StreamClose);
}

/// What is kept under an identifier is found under it and under no other, until it is
/// forgotten; shells and transfers do not touch each other.
pub proof fn kept_handles_are_found<S, O>(
    runtime: ClientRuntimeView<S, O>,
    id: Seq<char>,
    shell: S,
    operation: O,
    other: Seq<char>,
)
    requires
        other != id,
    ensures
        ({
            let shells = runtime.with_shell(id, shell);
            let transfers = runtime.with_sync(id, operation);
            &&& shells.streams.dom().contains(id) && shells.streams[id] == shell
            &&& shells.streams.dom().contains(other) == runtime.streams.dom().contains(other)
            &&& runtime.streams.dom().contains(other) ==> shells.streams[other]
                == runtime.streams[other]
            &&& shells.sync_jobs == runtime.sync_jobs
            &&& !shells.without_shell(id).streams.dom().contains(id)
            &&& shells.without_shell(id).sync_jobs == runtime.sync_jobs
            &&& !runtime.streams.dom().contains(id) ==> shells.without_shell(id) == runtime
            &&& transfers.sync_jobs.dom().contains(id) && transfers.sync_jobs[id] == operation
            &&& transfers.sync_jobs.dom().contains(other) == runtime.sync_jobs.dom().contains(other)
            &&& runtime.sync_jobs.dom().contains(other) ==> transfers.sync_jobs[other]
                == runtime.sync_jobs[other]
            &&& transfers.streams == runtime.streams
            &&& !transfers.without_sync(id).sync_jobs.dom().contains(id)
            &&& transfers.without_sync(id).streams == runtime.streams
            &&& !runtime.sync_jobs.dom().contains(id) ==> transfers.without_sync(id) == runtime
        }),
{
    if !runtime.streams.dom().contains(id) {
        assert(runtime.with_shell(id, shell).without_shell(id).streams =~= runtime.streams);
    }
    if !runtime.sync_jobs.dom().contains(id) {
        assert(runtime.with_sync(id, operation).without_sync(id).sync_jobs =~= runtime.sync_jobs);
    }
}

/// A client with fewer than four transfers gets one more, under the identifier that it
/// is answered with, and it can cancel it by that; one with four gets none.
pub proof fn opened_transfers_can_be_cancelled<S, O>(
    before: ClientRuntimeView<S, O>,
    id: Option<RequestId>,
    fresh: Option<Seq<char>>,
    operation: O,
    after: ClientRuntimeView<S, O>,
    result: SyncOpening,
)
    requires
        opening(before, id, fresh, operation, after, result),
    ensures
        result matches SyncOpening::Started(request, given) ==> {
            &&& Some(request) == id
            &&& after.sync_jobs.dom().contains(given@)
            &&& after.sync_jobs[given@] == operation
            &&& before.sync_jobs.dom().len() < 4
        },
        !(result is Started) ==> after == before,
        id is Some && before.sync_jobs.dom().len() < 4 && fresh is Some ==> result is Started,
        id is Some && before.sync_jobs.dom().len() >= 4 ==> (result matches SyncOpening::Refused(
            request,
            error,
        ) && Some(request) == id && error@.code == ErrorCode::InvalidState),
        id is None ==> result is Ignored,
        after.streams == before.streams,
{
}

/// A client is told once that a shell is closed: by its own close or by the end of the
/// output, whichever comes first.
pub proof fn closed_shells_are_told_once<S, O>(
    before: ClientRuntimeView<S, O>,
    stream_id: String,
    reason: Option<String>,
    between: ClientRuntimeView<S, O>,
    after: ClientRuntimeView<S, O>,
    action: StreamAction<S>,
    closed: Option<StreamClosed>,
)
    requires
        before.streams.dom().contains(stream_id@),
    ensures
        notified(before, StreamNotification::Close { stream_id }, between, action)
            && stream_finished(between, stream_id, reason, after, closed) ==> action is Close
            && closed is None && after == between,
        stream_finished(before, stream_id, reason, between, closed) && notified(
            between,
            StreamNotification::Close { stream_id },
            after,
            action,
        ) ==> (closed matches Some(told) && told.stream_id == stream_id && told.reason == reason)
            && action is Ignore && after == between,
{
    if notified(before, StreamNotification::Close { stream_id }, between, action)
        && stream_finished(between, stream_id, reason, after, closed) {
        assert(after.streams =~= between.streams);
    }
    if stream_finished(before, stream_id, reason, between, closed) && notified(
        between,
        StreamNotification::Close { stream_id },
        after,
        action,
    ) {
        assert(after.streams =~= between.streams);
    }
}

/// A transfer begins at nothing: a push has its whole file to hash, and what a pull has
/// to receive is not known yet.
pub proof fn transfers_begin_at_nothing<H>(
    operation: SyncOperationView<H>,
    direction: TransferDirection,
    local_size: u64,
)
    ensures
        ({
            let first = begun(operation, direction, local_size);
            &&& first.transferred == 0
            &&& direction == TransferDirection::Push ==> first.total == local_size && first.phase
                == SyncProgressPhase::Hashing
            &&& direction == TransferDirection::Pull ==> first.total == 0 && first.phase
                == SyncProgressPhase::Transferring
            &&& first.cancelled == operation.cancelled
            &&& first.hooks == operation.hooks
            &&& first.transfer_id == operation.transfer_id
        }),
{
}

} // verus!
