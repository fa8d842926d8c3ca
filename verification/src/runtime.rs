//! Devices that live in memory.

pub mod laws;
pub mod model;

use crate::bytes::{clone_bytes, same_bytes};
use crate::model::{
    AppInstallParams, AppLogChunk, AppLogParams, AppLogSnapshot, AppState, AppSummary,
    AppTargetParams, LogEntry, LogEntryView, LogSnapshot, LogTailParams, ProcessSignalParams,
    ProcessState, ProcessSummary, SerialParams, SyncEntry, SyncEntryKind, SyncListParams,
    SyncListResult, SyncMkdirParams, SyncMkdirResult, SyncPullParams, SyncPullResult,
    SyncPushParams, SyncPushResult, SyncStatus, SyncStatusParams, TransferDirection, TransferState,
};
use crate::number::to_decimal;
use crate::path;
use crate::path::{immediate_child, validate_path};
use crate::rpc_error;
use crate::rpc_error::{ErrorCode, ErrorDetail, RpcError};
use crate::table::{Table, TableKey};
use crate::text;
use crate::text::{chars_of, concat, is_before, same_text};
use model::{
    AppRuntime, AppVersion, HostBundle, HostFile, ProcessSignal, PullDeliveryView, RuntimeView,
    Transfer, MAX_LIST_LIMIT, MAX_LOG_ENTRIES, MAX_LOG_SNAPSHOT, MAX_SYNC_BLOCK_SIZE,
};
use vstd::prelude::*;

verus! {

/// A name on a device.
pub struct DeviceKey {
    pub serial: String,
    pub name: String,
}

impl View for DeviceKey {
    type V = (Seq<char>, Seq<char>);

    open spec fn view(&self) -> (Seq<char>, Seq<char>) {
        (self.serial@, self.name@)
    }
}

impl TableKey for DeviceKey {
    open spec fn precedes(left: (Seq<char>, Seq<char>), right: (Seq<char>, Seq<char>)) -> bool {
        text::before(left.0, right.0) || (left.0 == right.0 && text::before(left.1, right.1))
    }

    proof fn irreflexive(key: (Seq<char>, Seq<char>)) {
        text::before_irreflexive(key.0);
        text::before_irreflexive(key.1);
    }

    proof fn transitive(
        a: (Seq<char>, Seq<char>),
        b: (Seq<char>, Seq<char>),
        c: (Seq<char>, Seq<char>),
    ) {
        if text::before(a.0, b.0) && text::before(b.0, c.0) {
            text::before_transitive(a.0, b.0, c.0);
        } else if a.0 == b.0 && b.0 == c.0 {
            text::before_transitive(a.1, b.1, c.1);
        }
    }

    proof fn total(left: (Seq<char>, Seq<char>), right: (Seq<char>, Seq<char>)) {
        text::before_total(left.0, right.0);
        text::before_total(left.1, right.1);
    }

    fn is_before(&self, other: &Self) -> bool {
        is_before(self.serial.as_str(), other.serial.as_str()) || (self.serial == other.serial
            && is_before(self.name.as_str(), other.name.as_str()))
    }
}

/// A process number on a device.
pub struct ProcessKey {
    pub serial: String,
    pub pid: u32,
}

impl View for ProcessKey {
    type V = (Seq<char>, u32);

    open spec fn view(&self) -> (Seq<char>, u32) {
        (self.serial@, self.pid)
    }
}

impl TableKey for ProcessKey {
    open spec fn precedes(left: (Seq<char>, u32), right: (Seq<char>, u32)) -> bool {
        text::before(left.0, right.0) || (left.0 == right.0 && left.1 < right.1)
    }

    proof fn irreflexive(key: (Seq<char>, u32)) {
        text::before_irreflexive(key.0);
    }

    proof fn transitive(a: (Seq<char>, u32), b: (Seq<char>, u32), c: (Seq<char>, u32)) {
        if text::before(a.0, b.0) && text::before(b.0, c.0) {
            text::before_transitive(a.0, b.0, c.0);
        }
    }

    proof fn total(left: (Seq<char>, u32), right: (Seq<char>, u32)) {
        text::before_total(left.0, right.0);
    }

    fn is_before(&self, other: &Self) -> bool {
        is_before(self.serial.as_str(), other.serial.as_str()) || (self.serial == other.serial
            && self.pid < other.pid)
    }
}

impl TableKey for String {
    open spec fn precedes(left: Seq<char>, right: Seq<char>) -> bool {
        text::before(left, right)
    }

    proof fn irreflexive(key: Seq<char>) {
        text::before_irreflexive(key);
    }

    proof fn transitive(a: Seq<char>, b: Seq<char>, c: Seq<char>) {
        text::before_transitive(a, b, c);
    }

    proof fn total(left: Seq<char>, right: Seq<char>) {
        text::before_total(left, right);
    }

    fn is_before(&self, other: &Self) -> bool {
        is_before(self.as_str(), other.as_str())
    }
}

/// The log lines of one device, oldest first.
pub struct LogLines {
    lines: Vec<LogEntry>,
}

impl View for LogLines {
    type V = Seq<LogEntryView>;

    closed spec fn view(&self) -> Seq<LogEntryView> {
        crate::model::log_entry_views(self.lines@)
    }
}

/// The state of the in-memory devices.
pub struct RuntimeState {
    next_transfer: u64,
    next_pid: u32,
    files: Table<DeviceKey, Vec<u8>>,
    directories: Table<DeviceKey, ()>,
    transfers: Table<String, Transfer>,
    apps: Table<DeviceKey, AppRuntime>,
    processes: Table<ProcessKey, ProcessSummary>,
    logs: Table<String, LogLines>,
    next_log_cursor: Table<String, u64>,
}

impl View for RuntimeState {
    type V = RuntimeView;

    closed spec fn view(&self) -> RuntimeView {
        RuntimeView {
            next_transfer: self.next_transfer,
            next_pid: self.next_pid,
            files: self.files@,
            directories: self.directories@,
            transfers: self.transfers@,
            apps: self.apps@,
            processes: self.processes@,
            logs: self.logs@,
            next_log_cursor: self.next_log_cursor@,
        }
    }
}

fn device_key(serial: &str, name: &str) -> (key: DeviceKey)
    ensures
        key@ == (serial@, name@),
{
    DeviceKey { serial: serial.to_owned(), name: name.to_owned() }
}

impl RuntimeState {
    /// Every table is in order.
    pub closed spec fn wf(&self) -> bool {
        &&& self.files.wf()
        &&& self.directories.wf()
        &&& self.transfers.wf()
        &&& self.apps.wf()
        &&& self.processes.wf()
        &&& self.logs.wf()
        &&& self.next_log_cursor.wf()
    }

    /// The state before any request.
    pub fn new() -> (state: Self)
        ensures
            state.wf(),
            state@ == RuntimeView::empty(),
    {
        RuntimeState {
            next_transfer: 1,
            next_pid: 2000,
            files: Table::new(),
            directories: Table::new(),
            transfers: Table::new(),
            apps: Table::new(),
            processes: Table::new(),
            logs: Table::new(),
            next_log_cursor: Table::new(),
        }
    }

    /// Adds a line to the log of a device.
    fn log(&mut self, serial: &str, source: &str, message: &str)
        requires
            old(self).wf(),
        ensures
            final(self).wf(),
            final(self)@ == old(self)@.logged(serial@, source@, message@),
    {
        let cursor: u64 = match self.next_log_cursor.get(&serial.to_owned()) {
            Some(value) => *value,
            None => 1,
        };
        let entry = LogEntry {
            cursor,
            level: "info".to_owned(),
            source: source.to_owned(),
            message: message.to_owned(),
        };
        let ghost entry_view = entry@;
        self.next_log_cursor.insert(serial.to_owned(), cursor.saturating_add(1));
        let mut kept: Vec<LogEntry> = match self.logs.remove(&serial.to_owned()) {
            Some(lines) => lines.lines,
            None => Vec::new(),
        };
        let ghost before = crate::model::log_entry_views(kept@);
        kept.push(entry);
        assert(crate::model::log_entry_views(kept@) =~= before.push(entry_view));
        if kept.len() > MAX_LOG_ENTRIES {
            let ghost full = crate::model::log_entry_views(kept@);
            kept.remove(0);
            assert(crate::model::log_entry_views(kept@) =~= full.drop_first());
        }
        self.logs.insert(serial.to_owned(), LogLines { lines: kept });
        proof {
            assert(before =~= old(self)@.log_of(serial@));
            assert(self@.logs =~= old(self)@.logged(serial@, source@, message@).logs);
        }
    }

    /// Notes that a device has been connected.
    pub fn device_connected(&mut self, serial: &str)
        requires
            old(self).wf(),
        ensures
            final(self).wf(),
            final(self)@ == old(self)@.logged(serial@, "bridge"@, "device connected"@),
    {
        self.log(serial, "bridge", "device connected");
    }

    /// Takes the next transfer identifier.
    fn allocate_transfer_id(&mut self, prefix: &str) -> (id: String)
        requires
            old(self).wf(),
        ensures
            final(self).wf(),
            id@ == old(self)@.next_id(prefix@),
            final(self)@ == (RuntimeView {
                next_transfer: model::after(old(self)@.next_transfer),
                ..old(self)@
            }),
    {
        let mut id = concat(prefix, "-");
        id.append(to_decimal(self.next_transfer).as_str());
        self.next_transfer = self.next_transfer.saturating_add(1);
        id
    }

    /// Takes the next process number.
    fn allocate_pid(&mut self) -> (pid: u32)
        requires
            old(self).wf(),
        ensures
            final(self).wf(),
            pid == old(self)@.next_pid,
            final(self)@ == (RuntimeView { next_pid: model::after_pid(pid), ..old(self)@ }),
    {
        let pid: u32 = self.next_pid;
        self.next_pid = self.next_pid.saturating_add(1);
        pid
    }

    /// Starts or continues a push of a host file, and keeps its bytes.
    pub fn sync_push(&mut self, params: &SyncPushParams, source: &HostFile) -> (result: Result<
        SyncPushResult,
        RpcError,
    >)
        requires
            old(self).wf(),
        ensures
            final(self).wf(),
            (final(self)@, rpc_error::outcome(result)) == model::push(
                old(self)@,
                params@,
                source@,
            ),
    {
        validate_path(params.remote_path.as_str())?;
        let data: &Vec<u8> = match source {
            HostFile::NotAbsolute => {
                return Err(RpcError::invalid_params("local_path must be absolute"));
            },
            HostFile::Unreadable(kind) => {
                validate_block_size(params.block_size)?;
                return Err(
                    RpcError::host_file("read", params.local_path.as_str(), kind.as_str()),
                );
            },
            HostFile::Content(bytes) => {
                validate_block_size(params.block_size)?;
                bytes
            },
        };
        let total_size: u64 = data.len() as u64;
        let transfer_id = match &params.transfer_id {
            Some(id) => id.clone(),
            None => {
                let id = self.allocate_transfer_id("push");
                self.transfers.insert(
                    id.clone(),
                    Transfer {
                        serial: params.serial.clone(),
                        direction: TransferDirection::Push,
                        remote_path: params.remote_path.clone(),
                        total_size,
                        next_offset: total_size,
                        state: TransferState::Complete,
                        data: clone_bytes(data.as_slice()),
                    },
                );
                id
            },
        };
        let ghost opened = self@;
        let (accepted_offset, state): (u64, TransferState) = match self.transfers.get(
            &transfer_id,
        ) {
            None => {
                return Err(RpcError::transfer_not_found(transfer_id.as_str()));
            },
            Some(transfer) => {
                validate_transfer(
                    transfer,
                    params.serial.as_str(),
                    params.remote_path.as_str(),
                    total_size,
                    TransferDirection::Push,
                )?;
                if !same_bytes(transfer.data.as_slice(), data.as_slice()) {
                    return Err(
                        RpcError::invalid_state("resume source does not match accepted data"),
                    );
                }
                (transfer.next_offset, transfer.state)
            },
        };
        let key = device_key(params.serial.as_str(), params.remote_path.as_str());
        if self.directories.contains(&key) {
            return Err(RpcError::invalid_state("remote path is a directory"));
        }
        self.files.insert(key, clone_bytes(data.as_slice()));
        add_parent_directories(
            &mut self.directories,
            params.serial.as_str(),
            params.remote_path.as_str(),
        );
        let mut message = concat("pushed ", to_decimal(total_size).as_str());
        message.append(" bytes to ");
        message.append(params.remote_path.as_str());
        self.log(params.serial.as_str(), "sync", message.as_str());
        Ok(SyncPushResult { transfer_id, accepted_offset, state })
    }

    /// Starts or continues a pull, and hands out the bytes for the host file.
    pub fn sync_pull(&mut self, params: &SyncPullParams, local_is_absolute: bool) -> (result:
        Result<PullDelivery, RpcError>)
        requires
            old(self).wf(),
        ensures
            final(self).wf(),
            (final(self)@, rpc_error::outcome(result)) == model::pull(
                old(self)@,
                params@,
                local_is_absolute,
            ),
    {
        validate_path(params.remote_path.as_str())?;
        if !local_is_absolute {
            return Err(RpcError::invalid_params("local_path must be absolute"));
        }
        validate_block_size(params.block_size)?;
        let transfer_id = match &params.transfer_id {
            Some(id) => id.clone(),
            None => {
                let key = device_key(params.serial.as_str(), params.remote_path.as_str());
                let data: Vec<u8> = match self.files.get(&key) {
                    None => {
                        return Err(RpcError::file_not_found(params.remote_path.as_str()));
                    },
                    Some(bytes) => clone_bytes(bytes.as_slice()),
                };
                let total_size: u64 = data.len() as u64;
                let id = self.allocate_transfer_id("pull");
                self.transfers.insert(
                    id.clone(),
                    Transfer {
                        serial: params.serial.clone(),
                        direction: TransferDirection::Pull,
                        remote_path: params.remote_path.clone(),
                        total_size,
                        next_offset: total_size,
                        state: TransferState::Complete,
                        data,
                    },
                );
                id
            },
        };
        match self.transfers.get(&transfer_id) {
            None => Err(RpcError::transfer_not_found(transfer_id.as_str())),
            Some(transfer) => {
                validate_transfer(
                    transfer,
                    params.serial.as_str(),
                    params.remote_path.as_str(),
                    transfer.total_size,
                    TransferDirection::Pull,
                )?;
                Ok(
                    PullDelivery {
                        result: SyncPullResult {
                            transfer_id,
                            total_size: transfer.total_size,
                            received_size: transfer.total_size,
                            state: transfer.state,
                        },
                        data: clone_bytes(transfer.data.as_slice()),
                    },
                )
            },
        }
    }

    /// The state of a transfer.
    pub fn sync_status(&self, params: &SyncStatusParams) -> (result: Result<SyncStatus, RpcError>)
        requires
            self.wf(),
        ensures
            rpc_error::outcome(result) == model::status(self@, params@),
    {
        match self.transfers.get(&params.transfer_id) {
            Some(transfer) if transfer.serial == params.serial => Ok(
                SyncStatus {
                    transfer_id: params.transfer_id.clone(),
                    direction: transfer.direction,
                    remote_path: transfer.remote_path.clone(),
                    next_offset: transfer.next_offset,
                    total_size: transfer.total_size,
                    state: transfer.state,
                },
            ),
            _ => Err(RpcError::transfer_not_found(params.transfer_id.as_str())),
        }
    }

    /// Makes a directory with all that lie above it.
    pub fn sync_mkdir(&mut self, params: &SyncMkdirParams) -> (result: Result<
        SyncMkdirResult,
        RpcError,
    >)
        requires
            old(self).wf(),
        ensures
            final(self).wf(),
            (final(self)@, rpc_error::outcome(result)) == model::mkdir(old(self)@, params@),
    {
        validate_path(params.remote_path.as_str())?;
        let key = device_key(params.serial.as_str(), params.remote_path.as_str());
        if self.files.contains(&key) {
            return Err(RpcError::invalid_state("remote path is a file"));
        }
        add_parent_directories(
            &mut self.directories,
            params.serial.as_str(),
            params.remote_path.as_str(),
        );
        let created = self.directories.insert(key, ()).is_none();
        proof {
            assert forall|k: int| 0 <= k < params.remote_path@.len() implies #[trigger]
                params.remote_path@.take(k) != params.remote_path@ by {
                assert(params.remote_path@.take(k).len() == k);
            }
        }
        Ok(SyncMkdirResult { remote_path: params.remote_path.clone(), created })
    }

    /// The names directly below a prefix with what each stands for.
    fn names_below(&self, serial: &String, prefix: &String) -> (names: Table<String, SyncEntry>)
        requires
            self.wf(),
        ensures
            names.wf(),
            forall|name: Seq<char>| #[trigger]
                names@.dom().contains(name) <==> (model::directory_below(
                    self@,
                    serial@,
                    prefix@,
                    name,
                ) || model::file_below(self@, serial@, prefix@, name)),
            forall|name: Seq<char>| #[trigger]
                names@.dom().contains(name) ==> names@[name] == model::listed_as(
                    self@,
                    serial@,
                    prefix@,
                    name,
                ),
    {
        proof {
            self.directories.keys_are_the_domain();
            self.files.keys_are_the_domain();
        }
        let mut names: Table<String, SyncEntry> = Table::new();
        let ghost folders = self.directories.keys();
        let ghost paths = self.files.keys();
        let mut i: usize = 0;
        while i < self.directories.len()
            invariant
                self.wf(),
                names.wf(),
                folders == self.directories.keys(),
                i <= folders.len(),
                forall|k: int|
                    0 <= k < folders.len() ==> self.directories@.dom().contains(
                        #[trigger] folders[k],
                    ),
                forall|name: Seq<char>| #[trigger]
                    names@.dom().contains(name) <==> exists|k: int|
                        0 <= k < i && (#[trigger] folders[k]).0 == serial@ && path::child_name(
                            folders[k].1,
                            prefix@,
                        ) == Some(name),
                forall|name: Seq<char>| #[trigger]
                    names@.dom().contains(name) ==> names@[name] == model::listed_as(
                        self@,
                        serial@,
                        prefix@,
                        name,
                    ),
            decreases folders.len() - i,
        {
            let key = self.directories.key_at(i);
            let ghost before = names@;
            if key.serial == *serial {
                if let Some(name) = immediate_child(key.name.as_str(), prefix.as_str()) {
                    assert(folders[i as int] == key@);
                    assert(model::directory_below(self@, serial@, prefix@, name@)) by {
                        assert(self@.directories.dom().contains((serial@, key.name@)));
                    }
                    let entry = SyncEntry {
                        name: name.clone(),
                        kind: SyncEntryKind::Directory,
                        size: 0,
                    };
                    names.insert(name, entry);
                }
            }
            i += 1;
        }
        assert forall|name: Seq<char>| #[trigger]
            names@.dom().contains(name) <==> model::directory_below(
                self@,
                serial@,
                prefix@,
                name,
            ) by {
            if model::directory_below(self@, serial@, prefix@, name) {
                let full = choose|full: Seq<char>|
                    self@.directories.dom().contains((serial@, full)) && #[trigger] path::child_name(
                        full,
                        prefix@,
                    ) == Some(name);
                let k = choose|k: int|
                    0 <= k < folders.len() && #[trigger] folders[k] == (serial@, full);
                assert(folders[k].0 == serial@);
            }
            if names@.dom().contains(name) {
                let k = choose|k: int|
                    0 <= k < i && (#[trigger] folders[k]).0 == serial@ && path::child_name(
                        folders[k].1,
                        prefix@,
                    ) == Some(name);
                assert(self@.directories.dom().contains((serial@, folders[k].1)));
            }
        }
        let mut j: usize = 0;
        while j < self.files.len()
            invariant
                self.wf(),
                names.wf(),
                paths == self.files.keys(),
                j <= paths.len(),
                forall|k: int|
                    0 <= k < paths.len() ==> self.files@.dom().contains(#[trigger] paths[k]),
                forall|name: Seq<char>| #[trigger]
                    names@.dom().contains(name) <==> (model::directory_below(
                        self@,
                        serial@,
                        prefix@,
                        name,
                    ) || exists|k: int|
                        0 <= k < j && (#[trigger] paths[k]).0 == serial@ && path::child_name(
                            paths[k].1,
                            prefix@,
                        ) == Some(name)),
                forall|name: Seq<char>| #[trigger]
                    names@.dom().contains(name) ==> names@[name] == model::listed_as(
                        self@,
                        serial@,
                        prefix@,
                        name,
                    ),
            decreases paths.len() - j,
        {
            let key = self.files.key_at(j);
            if key.serial == *serial {
                if let Some(name) = immediate_child(key.name.as_str(), prefix.as_str()) {
                    assert(paths[j as int] == key@);
                    if !names.contains(&name) {
                        let own = device_key(
                            serial.as_str(),
                            concat(prefix.as_str(), name.as_str()).as_str(),
                        );
                        let entry = match self.files.get(&own) {
                            Some(data) => SyncEntry {
                                name: name.clone(),
                                kind: SyncEntryKind::File,
                                size: data.len() as u64,
                            },
                            None => SyncEntry {
                                name: name.clone(),
                                kind: SyncEntryKind::Directory,
                                size: 0,
                            },
                        };
                        names.insert(name, entry);
                    }
                }
            }
            j += 1;
        }
        assert forall|name: Seq<char>| #[trigger]
            names@.dom().contains(name) <==> (model::directory_below(
                self@,
                serial@,
                prefix@,
                name,
            ) || model::file_below(self@, serial@, prefix@, name)) by {
            if model::file_below(self@, serial@, prefix@, name) {
                let full = choose|full: Seq<char>|
                    self@.files.dom().contains((serial@, full)) && #[trigger] path::child_name(
                        full,
                        prefix@,
                    ) == Some(name);
                let k = choose|k: int|
                    0 <= k < paths.len() && #[trigger] paths[k] == (serial@, full);
                assert(paths[k].0 == serial@);
            }
            if names@.dom().contains(name) && !model::directory_below(
                self@,
                serial@,
                prefix@,
                name,
            ) {
                let k = choose|k: int|
                    0 <= k < j && (#[trigger] paths[k]).0 == serial@ && path::child_name(
                        paths[k].1,
                        prefix@,
                    ) == Some(name);
                assert(self@.files.dom().contains((serial@, paths[k].1)));
            }
        }
        names
    }

    /// One page of a directory.
    pub fn sync_list(&self, params: &SyncListParams) -> (result: Result<SyncListResult, RpcError>)
        requires
            self.wf(),
        ensures
            model::is_list_answer(self@, params@, rpc_error::outcome(result)),
    {
        validate_path(params.remote_path.as_str())?;
        if params.limit == 0 || params.limit > MAX_LIST_LIMIT {
            return Err(
                RpcError::invalid_params("directory list limit must be between 1 and 1024"),
            );
        }
        let key = device_key(params.serial.as_str(), params.remote_path.as_str());
        if !self.directories.contains(&key) {
            return Err(RpcError::file_not_found(params.remote_path.as_str()));
        }
        let prefix = concat(params.remote_path.as_str(), "/");
        proof {
            reveal_strlit("/");
            assert("/"@ =~= seq!['/']);
        }
        let names = self.names_below(&params.serial, &prefix);
        let mut entries = entries_after(&names, &params.cursor);
        let ghost full = crate::model::sync_entry_views(entries@);
        proof {
            let cursor = params@.cursor;
            assert forall|name: Seq<char>| #[trigger]
                model::listed(self@, params.serial@, prefix@, cursor, name) implies exists|a: int|
                0 <= a < full.len() && (#[trigger] full[a]).name == name by {
                assert(names@.dom().contains(name));
                assert(is_after(cursor, name));
            }
            assert(model::is_listing(self@, params.serial@, prefix@, cursor, full));
        }
        let limit: usize = params.limit as usize;
        let mut next_cursor: Option<String> = None;
        if entries.len() > limit {
            next_cursor = Some(entries[limit - 1].name.clone());
            entries.truncate(limit);
            assert(crate::model::sync_entry_views(entries@) =~= full.take(limit as int));
        }
        Ok(SyncListResult { remote_path: params.remote_path.clone(), entries, next_cursor })
    }

    /// Removes a process, if there is one to remove.
    fn remove_process(&mut self, serial: &str, pid: Option<u32>)
        requires
            old(self).wf(),
        ensures
            final(self).wf(),
            final(self)@ == old(self)@.without_process(serial@, pid),
    {
        if let Some(number) = pid {
            self.processes.remove(&ProcessKey { serial: serial.to_owned(), pid: number });
        }
    }

    /// Installs a verified application bundle in place of an earlier one.
    pub fn app_install(&mut self, params: &AppInstallParams, bundle: &HostBundle) -> (result:
        Result<AppSummary, RpcError>)
        requires
            old(self).wf(),
        ensures
            final(self).wf(),
            (final(self)@, rpc_error::outcome(result)) == model::install(
                old(self)@,
                params@,
                bundle@,
            ),
    {
        match bundle {
            HostBundle::NotAbsolute => Err(
                RpcError::invalid_params("local_path must be absolute"),
            ),
            HostBundle::Unreadable(kind) => Err(
                RpcError::host_file("open", params.bundle_path.as_str(), kind.as_str()),
            ),
            HostBundle::Rejected { reason, detail } => Err(
                RpcError::install_failed("verify", reason.as_str(), detail.as_str()),
            ),
            HostBundle::Verified { application, id, version, bundle_root } => {
                if !*application {
                    return Err(
                        RpcError::install_failed(
                            "verify",
                            "bundle_kind",
                            "app install accepts application bundles only",
                        ),
                    );
                }
                let serial = params.serial.as_str();
                let key = device_key(serial, id.as_str());
                let app = match self.apps.remove(&key) {
                    None => AppRuntime {
                        version: version.clone(),
                        bundle_root: bundle_root.clone(),
                        history: Vec::new(),
                        state: AppState::Stopped,
                        pid: None,
                    },
                    Some(app) => {
                        if app.bundle_root == *bundle_root {
                            app
                        } else {
                            let pid = app.pid;
                            let replaced = with_bundle(app, version, bundle_root);
                            self.remove_process(serial, pid);
                            replaced
                        }
                    },
                };
                assert(app@ =~= model::installed_app(
                    old(self)@,
                    serial@,
                    id@,
                    version@,
                    bundle_root@,
                ));
                let summary = app.summary(id.clone());
                self.apps.insert(key, app);
                let message = concat("installed ", summary.version.as_str());
                self.log(serial, id.as_str(), message.as_str());
                assert(self@ =~= model::install(old(self)@, params@, bundle@).0);
                Ok(summary)
            },
        }
    }

    /// Starts an application that is stopped.
    pub fn app_start(&mut self, params: &AppTargetParams) -> (result: Result<AppSummary, RpcError>)
        requires
            old(self).wf(),
        ensures
            final(self).wf(),
            (final(self)@, rpc_error::outcome(result)) == model::start(old(self)@, params@),
    {
        let key = device_key(params.serial.as_str(), params.app_id.as_str());
        let mut app = match self.apps.remove(&key) {
            None => {
                assert(self@ =~= old(self)@);
                return Err(RpcError::app_not_found(params.app_id.as_str()));
            },
            Some(app) => app,
        };
        let ghost before = app@;
        if app.state != AppState::Stopped {
            let summary = app.summary(params.app_id.clone());
            self.apps.insert(key, app);
            assert(self@ =~= old(self)@);
            return Ok(summary);
        }
        let pid: u32 = self.allocate_pid();
        app.pid = Some(pid);
        app.state = AppState::Running;
        let process = ProcessSummary {
            pid,
            name: params.app_id.clone(),
            app_id: Some(params.app_id.clone()),
            state: ProcessState::Running,
        };
        self.processes.insert(ProcessKey { serial: params.serial.clone(), pid }, process);
        let summary = app.summary(params.app_id.clone());
        self.apps.insert(key, app);
        self.log(params.serial.as_str(), params.app_id.as_str(), "started");
        assert(self@ =~= model::start(old(self)@, params@).0);
        Ok(summary)
    }

    /// Stops an application and ends its process.
    pub fn app_stop(&mut self, params: &AppTargetParams) -> (result: Result<AppSummary, RpcError>)
        requires
            old(self).wf(),
        ensures
            final(self).wf(),
            (final(self)@, rpc_error::outcome(result)) == model::stop(old(self)@, params@),
    {
        let key = device_key(params.serial.as_str(), params.app_id.as_str());
        let mut app = match self.apps.remove(&key) {
            None => {
                assert(self@ =~= old(self)@);
                return Err(RpcError::app_not_found(params.app_id.as_str()));
            },
            Some(app) => app,
        };
        self.remove_process(params.serial.as_str(), app.pid);
        app.pid = None;
        app.state = AppState::Stopped;
        let summary = app.summary(params.app_id.clone());
        self.apps.insert(key, app);
        self.log(params.serial.as_str(), params.app_id.as_str(), "stopped");
        assert(self@ =~= model::stop(old(self)@, params@).0);
        Ok(summary)
    }

    /// Stops an application and starts it again.
    pub fn app_restart(&mut self, params: &AppTargetParams) -> (result: Result<
        AppSummary,
        RpcError,
    >)
        requires
            old(self).wf(),
        ensures
            final(self).wf(),
            (final(self)@, rpc_error::outcome(result)) == model::restart(old(self)@, params@),
    {
        self.app_stop(params)?;
        self.app_start(params)
    }

    /// Returns an application to its previous bundle.
    pub fn app_rollback(&mut self, params: &AppTargetParams) -> (result: Result<
        AppSummary,
        RpcError,
    >)
        requires
            old(self).wf(),
        ensures
            final(self).wf(),
            (final(self)@, rpc_error::outcome(result)) == model::rollback(old(self)@, params@),
    {
        let key = device_key(params.serial.as_str(), params.app_id.as_str());
        let mut app = match self.apps.remove(&key) {
            None => {
                assert(self@ =~= old(self)@);
                return Err(RpcError::app_not_found(params.app_id.as_str()));
            },
            Some(app) => app,
        };
        let ghost before = app@;
        match app.history.pop() {
            None => {
                assert(app@ =~= before);
                self.apps.insert(key, app);
                assert(self@ =~= old(self)@);
                Err(
                    RpcError {
                        code: ErrorCode::NoRollbackAvailable,
                        message: "No rollback available".to_owned(),
                        detail: ErrorDetail::AppId(params.app_id.clone()),
                    },
                )
            },
            Some(previous) => {
                self.remove_process(params.serial.as_str(), app.pid);
                app.pid = None;
                app.version = previous.version;
                app.bundle_root = previous.bundle_root;
                app.state = AppState::Stopped;
                assert(model::app_version_views(app.history@) =~= before.history.drop_last());
                let summary = app.summary(params.app_id.clone());
                self.apps.insert(key, app);
                self.log(params.serial.as_str(), params.app_id.as_str(), "rolled back");
                assert(self@ =~= model::rollback(old(self)@, params@).0);
                Ok(summary)
            },
        }
    }

    /// Removes an application and ends its process.
    pub fn app_uninstall(&mut self, params: &AppTargetParams) -> (result: Result<
        AppSummary,
        RpcError,
    >)
        requires
            old(self).wf(),
        ensures
            final(self).wf(),
            (final(self)@, rpc_error::outcome(result)) == model::uninstall(old(self)@, params@),
    {
        let key = device_key(params.serial.as_str(), params.app_id.as_str());
        match self.apps.remove(&key) {
            None => {
                assert(self@ =~= old(self)@);
                Err(RpcError::app_not_found(params.app_id.as_str()))
            },
            Some(app) => {
                self.remove_process(params.serial.as_str(), app.pid);
                let summary = app.summary(params.app_id.clone());
                self.log(params.serial.as_str(), params.app_id.as_str(), "uninstalled");
                assert(self@ =~= model::uninstall(old(self)@, params@).0);
                Ok(summary)
            },
        }
    }

    /// The captured output of an application.
    pub fn app_log(&self, params: &AppLogParams) -> (result: Result<AppLogSnapshot, RpcError>)
        requires
            self.wf(),
        ensures
            rpc_error::outcome(result) == model::app_log(self@, params@),
    {
        let key = device_key(params.serial.as_str(), params.app_id.as_str());
        match self.apps.get(&key) {
            None => Err(RpcError::app_not_found(params.app_id.as_str())),
            Some(app) => {
                let number: u32 = match app.pid {
                    Some(pid) => pid,
                    None => 0,
                };
                let run_id = concat("fake-", to_decimal(number as u64).as_str());
                let reset = match &params.run_id {
                    Some(asked) => *asked != run_id,
                    None => true,
                };
                let stdout_cursor: u64 = if reset {
                    0
                } else {
                    params.stdout_cursor
                };
                let stderr_cursor: u64 = if reset {
                    0
                } else {
                    params.stderr_cursor
                };
                Ok(
                    AppLogSnapshot {
                        app_id: params.app_id.clone(),
                        run_id,
                        reset,
                        state: app.state,
                        pid: app.pid,
                        stdout: empty_app_log_chunk(stdout_cursor),
                        stderr: empty_app_log_chunk(stderr_cursor),
                    },
                )
            },
        }
    }

    /// Signals a process; one that ends it stops its application too.
    pub fn process_signal(&mut self, params: &ProcessSignalParams) -> (result: Result<
        ProcessSummary,
        RpcError,
    >)
        requires
            old(self).wf(),
        ensures
            final(self).wf(),
            (final(self)@, rpc_error::outcome(result)) == model::signal(old(self)@, params@),
    {
        let signal = match ProcessSignal::parse(params.signal.as_str()) {
            None => {
                return Err(
                    RpcError {
                        code: ErrorCode::InvalidSignal,
                        message: "Invalid signal".to_owned(),
                        detail: ErrorDetail::Signal(params.signal.clone()),
                    },
                );
            },
            Some(signal) => signal,
        };
        let key = ProcessKey { serial: params.serial.clone(), pid: params.pid };
        let process = match self.processes.get(&key) {
            None => {
                return Err(RpcError::process_not_found(params.pid));
            },
            Some(process) => process.duplicate(),
        };
        if signal == ProcessSignal::Term || signal == ProcessSignal::Kill {
            self.processes.remove(&key);
            if let Some(app_id) = &process.app_id {
                let app_key = device_key(params.serial.as_str(), app_id.as_str());
                if let Some(mut app) = self.apps.remove(&app_key) {
                    app.state = AppState::Stopped;
                    app.pid = None;
                    self.apps.insert(app_key, app);
                }
            }
            assert(self@ =~= model::ended(old(self)@, params.serial@, process@, params.pid));
        }
        let mut message = concat("signal ", signal.name());
        message.append(" sent to ");
        message.append(to_decimal(params.pid as u64).as_str());
        self.log(params.serial.as_str(), process.name.as_str(), message.as_str());
        Ok(process)
    }

    /// The applications of a device.
    pub fn app_list(&self, params: &SerialParams) -> (apps: Vec<AppSummary>)
        requires
            self.wf(),
        ensures
            model::is_app_list(self@, params.serial@, crate::model::app_summary_views(apps@)),
    {
        let ghost keys = self.apps.keys();
        let ghost serial = params.serial@;
        proof {
            self.apps.keys_are_the_domain();
        }
        let mut apps: Vec<AppSummary> = Vec::new();
        let mut i: usize = 0;
        while i < self.apps.len()
            invariant
                self.wf(),
                keys == self.apps.keys(),
                serial == params.serial@,
                i <= keys.len(),
                forall|k: int, l: int|
                    0 <= k < l < keys.len() ==> DeviceKey::precedes(
                        #[trigger] keys[k],
                        #[trigger] keys[l],
                    ),
                forall|k: int| 0 <= k < keys.len() ==> self.apps@.dom().contains(#[trigger] keys[k]),
                forall|a: int, b: int|
                    0 <= a < b < apps@.len() ==> text::before(
                        (#[trigger] apps@[a]).app_id@,
                        (#[trigger] apps@[b]).app_id@,
                    ),
                forall|a: int|
                    0 <= a < apps@.len() ==> self.apps@.dom().contains(
                        (serial, (#[trigger] apps@[a]).app_id@),
                    ) && apps@[a]@ == model::summary(
                        self.apps@[(serial, apps@[a].app_id@)],
                        apps@[a].app_id@,
                    ),
                forall|a: int, k: int|
                    0 <= a < apps@.len() && i <= k < keys.len() ==> DeviceKey::precedes(
                        (serial, (#[trigger] apps@[a]).app_id@),
                        #[trigger] keys[k],
                    ),
                forall|k: int|
                    0 <= k < i && (#[trigger] keys[k]).0 == serial ==> exists|a: int|
                        0 <= a < apps@.len() && (#[trigger] apps@[a]).app_id@ == keys[k].1,
            decreases keys.len() - i,
        {
            let key = self.apps.key_at(i);
            let ghost earlier = apps@;
            assert(key@ == keys[i as int]);
            if key.serial == params.serial {
                let app = self.apps.value_at(i);
                apps.push(app.summary(key.name.clone()));
                proof {
                    text::before_irreflexive(serial);
                    assert forall|k: int| 0 <= k < i + 1 && (#[trigger] keys[k]).0
                        == serial implies exists|a: int|
                        0 <= a < apps@.len() && (#[trigger] apps@[a]).app_id@ == keys[k].1 by {
                        if k < i {
                            let a = choose|a: int|
                                0 <= a < earlier.len() && (#[trigger] earlier[a]).app_id@
                                    == keys[k].1;
                            assert(apps@[a].app_id@ == keys[k].1);
                        } else {
                            assert(apps@[earlier.len() as int].app_id@ == keys[k].1);
                        }
                    }
                }
            }
            i += 1;
        }
        proof {
            let views = crate::model::app_summary_views(apps@);
            assert forall|app_id: Seq<char>| #[trigger]
                self@.apps.dom().contains((serial, app_id)) implies exists|a: int|
                0 <= a < views.len() && (#[trigger] views[a]).app_id == app_id by {
                let k = choose|k: int|
                    0 <= k < keys.len() && #[trigger] keys[k] == (serial, app_id);
                assert(keys[k].0 == serial);
                let a = choose|a: int|
                    0 <= a < apps@.len() && (#[trigger] apps@[a]).app_id@ == keys[k].1;
                assert(views[a].app_id == app_id);
            }
        }
        apps
    }

    /// The processes of a device.
    pub fn process_list(&self, params: &SerialParams) -> (processes: Vec<ProcessSummary>)
        requires
            self.wf(),
        ensures
            model::lists_processes(
                self@,
                params.serial@,
                crate::model::process_summary_views(processes@),
            ),
    {
        let ghost keys = self.processes.keys();
        let ghost serial = params.serial@;
        proof {
            self.processes.keys_are_the_domain();
        }
        let mut processes: Vec<ProcessSummary> = Vec::new();
        let ghost mut pids: Seq<u32> = Seq::empty();
        let mut i: usize = 0;
        while i < self.processes.len()
            invariant
                self.wf(),
                keys == self.processes.keys(),
                serial == params.serial@,
                i <= keys.len(),
                forall|k: int, l: int|
                    0 <= k < l < keys.len() ==> ProcessKey::precedes(
                        #[trigger] keys[k],
                        #[trigger] keys[l],
                    ),
                forall|k: int|
                    0 <= k < keys.len() ==> self.processes@.dom().contains(#[trigger] keys[k]),
                pids.len() == processes@.len(),
                forall|a: int, b: int|
                    0 <= a < b < pids.len() ==> #[trigger] pids[a] < #[trigger] pids[b],
                forall|a: int|
                    0 <= a < pids.len() ==> self.processes@.dom().contains(
                        (serial, #[trigger] pids[a]),
                    ) && processes@[a]@ == self.processes@[(serial, pids[a])],
                forall|a: int, k: int|
                    0 <= a < pids.len() && i <= k < keys.len() ==> ProcessKey::precedes(
                        (serial, #[trigger] pids[a]),
                        #[trigger] keys[k],
                    ),
                forall|k: int|
                    0 <= k < i && (#[trigger] keys[k]).0 == serial ==> pids.contains(keys[k].1),
            decreases keys.len() - i,
        {
            let key = self.processes.key_at(i);
            let ghost earlier = pids;
            assert(key@ == keys[i as int]);
            if key.serial == params.serial {
                let process = self.processes.value_at(i);
                processes.push(process.duplicate());
                proof {
                    text::before_irreflexive(serial);
                    pids = pids.push(key.pid);
                    assert forall|k: int| 0 <= k < i + 1 && (#[trigger] keys[k]).0
                        == serial implies pids.contains(keys[k].1) by {
                        if k < i {
                            let a = choose|a: int| 0 <= a < earlier.len() && earlier[a] == keys[k].1;
                            assert(pids[a] == keys[k].1);
                        } else {
                            assert(pids[earlier.len() as int] == keys[k].1);
                        }
                    }
                }
            }
            i += 1;
        }
        proof {
            let views = crate::model::process_summary_views(processes@);
            assert forall|pid: u32| #[trigger]
                self@.processes.dom().contains((serial, pid)) implies pids.contains(pid) by {
                let k = choose|k: int| 0 <= k < keys.len() && #[trigger] keys[k] == (serial, pid);
                assert(keys[k].0 == serial);
            }
            assert(model::is_process_list(self@, serial, pids, views));
        }
        processes
    }

    /// A piece of the log of a device.
    pub fn log_tail(&self, params: &LogTailParams) -> (result: Result<LogSnapshot, RpcError>)
        requires
            self.wf(),
        ensures
            rpc_error::outcome(result) == model::tail(self@, params@),
    {
        let limit: u32 = match params.limit {
            Some(value) => value,
            None => 100,
        };
        if limit == 0 || limit > MAX_LOG_SNAPSHOT {
            return Err(RpcError::invalid_params("limit must be between 1 and 1000"));
        }
        let empty = LogLines { lines: Vec::new() };
        assert(empty@ =~= Seq::<LogEntryView>::empty());
        let lines: &LogLines = match self.logs.get(&params.serial) {
            Some(lines) => lines,
            None => &empty,
        };
        let first: u64 = if lines.lines.len() == 0 {
            1
        } else {
            lines.lines[0].cursor
        };
        assert(first == model::oldest_cursor(lines@));
        let start: u64 = match params.cursor {
            Some(cursor) => {
                if cursor < first {
                    return Err(
                        RpcError {
                            code: ErrorCode::LogCursorExpired,
                            message: "Log cursor expired".to_owned(),
                            detail: ErrorDetail::OldestCursor(first),
                        },
                    );
                }
                cursor
            },
            None => {
                let count: usize = lines.lines.len();
                let end: u64 = if count == 0 {
                    1
                } else {
                    lines.lines[count - 1].cursor.saturating_add(1)
                };
                let start: u64 = end.saturating_sub(limit as u64);
                if start < first {
                    first
                } else {
                    start
                }
            },
        };
        Ok(lines.snapshot(start, limit))
    }
}

impl LogLines {
    /// A piece of these lines that starts at a cursor.
    fn snapshot(&self, start: u64, limit: u32) -> (snapshot: LogSnapshot)
        ensures
            snapshot@ == model::snapshot(self@, start, limit),
    {
        let mut entries: Vec<LogEntry> = Vec::new();
        let mut matching: usize = 0;
        let mut i: usize = 0;
        while i < self.lines.len()
            invariant
                i <= self.lines.len(),
                matching <= i,
                matching == model::lines_from(self@.take(i as int), start).len(),
                crate::model::log_entry_views(entries@) == (if matching > limit {
                    model::lines_from(self@.take(i as int), start).take(limit as int)
                } else {
                    model::lines_from(self@.take(i as int), start)
                }),
            decreases self.lines.len() - i,
        {
            let ghost seen = self@.take(i as int);
            let ghost next = self@.take(i + 1);
            let ghost kept = crate::model::log_entry_views(entries@);
            assert(next.drop_last() =~= seen);
            assert(next.last() == self.lines@[i as int]@);
            if self.lines[i].cursor >= start {
                if matching < limit as usize {
                    entries.push(self.lines[i].duplicate());
                    assert(crate::model::log_entry_views(entries@) =~= kept.push(next.last()));
                }
                matching += 1;
                assert(matching > limit ==> model::lines_from(next, start).take(limit as int)
                    =~= kept);
            }
            i += 1;
        }
        assert(self@.take(i as int) =~= self@);
        let count: usize = entries.len();
        let next_cursor: u64 = if count == 0 {
            start
        } else {
            entries[count - 1].cursor.saturating_add(1)
        };
        LogSnapshot { entries, next_cursor, has_more: matching > limit as usize }
    }
}

impl AppRuntime {
    /// The summary of this application.
    fn summary(&self, app_id: String) -> (summary: AppSummary)
        ensures
            summary@ == model::summary(self@, app_id@),
    {
        AppSummary {
            app_id,
            version: self.version.clone(),
            state: self.state,
            rollback_available: self.history.len() > 0,
            pid: self.pid,
        }
    }
}

/// An application with another bundle in place of its present one.
fn with_bundle(app: AppRuntime, version: &String, bundle_root: &String) -> (replaced: AppRuntime)
    ensures
        replaced@ == (model::AppRuntimeView {
            version: version@,
            bundle_root: bundle_root@,
            history: app@.history.push(
                model::AppVersionView { version: app.version@, bundle_root: app.bundle_root@ },
            ),
            state: AppState::Stopped,
            pid: None,
        }),
{
    let mut history = app.history;
    let ghost before = history@;
    history.push(AppVersion { version: app.version, bundle_root: app.bundle_root });
    assert(model::app_version_views(history@) =~= model::app_version_views(before).push(
        model::AppVersionView { version: app.version@, bundle_root: app.bundle_root@ },
    ));
    AppRuntime {
        version: version.clone(),
        bundle_root: bundle_root.clone(),
        history,
        state: AppState::Stopped,
        pid: None,
    }
}

fn empty_app_log_chunk(cursor: u64) -> (chunk: AppLogChunk)
    ensures
        chunk@ == model::empty_chunk(cursor),
{
    AppLogChunk { cursor, next_cursor: cursor, data_base64: String::new(), capped: false }
}

impl ProcessSignal {
    /// The signal with a name.
    pub fn parse(name: &str) -> (signal: Option<ProcessSignal>)
        ensures
            signal == model::signal_named(name@),
    {
        if same_text(name, "TERM") {
            Some(ProcessSignal::Term)
        } else if same_text(name, "KILL") {
            Some(ProcessSignal::Kill)
        } else if same_text(name, "INT") {
            Some(ProcessSignal::Interrupt)
        } else if same_text(name, "HUP") {
            Some(ProcessSignal::Hangup)
        } else {
            None
        }
    }

    /// The name of this signal.
    pub fn name(self) -> (name: &'static str)
        ensures
            name@ == model::signal_name(self),
    {
        match self {
            ProcessSignal::Term => "TERM",
            ProcessSignal::Kill => "KILL",
            ProcessSignal::Interrupt => "INT",
            ProcessSignal::Hangup => "HUP",
        }
    }
}

/// Whether a name comes after a cursor.
pub open spec fn is_after(cursor: Option<Seq<char>>, name: Seq<char>) -> bool {
    cursor matches Some(last) ==> text::before(last, name)
}

/// The entries with names after a cursor, in ascending order.
fn entries_after(names: &Table<String, SyncEntry>, cursor: &Option<String>) -> (entries: Vec<
    SyncEntry,
>)
    requires
        names.wf(),
        forall|name: Seq<char>| #[trigger]
            names@.dom().contains(name) ==> names@[name].name == name,
    ensures
        ({
            let full = crate::model::sync_entry_views(entries@);
            &&& forall|a: int, b: int|
                0 <= a < b < full.len() ==> text::before(
                    (#[trigger] full[a]).name,
                    (#[trigger] full[b]).name,
                )
            &&& forall|a: int|
                0 <= a < full.len() ==> names@.dom().contains((#[trigger] full[a]).name) && is_after(
                    text::optional(*cursor),
                    full[a].name,
                ) && names@[full[a].name] == full[a]
            &&& forall|name: Seq<char>|
                names@.dom().contains(name) && #[trigger] is_after(text::optional(*cursor), name)
                    ==> exists|a: int| 0 <= a < full.len() && (#[trigger] full[a]).name == name
        }),
{
    let ghost keys = names.keys();
    let ghost last = text::optional(*cursor);
    proof {
        names.keys_are_the_domain();
    }
    let mut entries: Vec<SyncEntry> = Vec::new();
    let mut i: usize = 0;
    while i < names.len()
        invariant
            names.wf(),
            keys == names.keys(),
            last == text::optional(*cursor),
            i <= keys.len(),
            forall|k: int, l: int|
                0 <= k < l < keys.len() ==> text::before(#[trigger] keys[k], #[trigger] keys[l]),
            forall|k: int| 0 <= k < keys.len() ==> names@.dom().contains(#[trigger] keys[k]),
            forall|name: Seq<char>| #[trigger]
                names@.dom().contains(name) ==> names@[name].name == name,
            forall|a: int, b: int|
                0 <= a < b < entries@.len() ==> text::before(
                    (#[trigger] entries@[a]).name@,
                    (#[trigger] entries@[b]).name@,
                ),
            forall|a: int|
                0 <= a < entries@.len() ==> is_after(last, (#[trigger] entries@[a]).name@)
                    && names@.dom().contains(entries@[a].name@) && names@[entries@[a].name@]
                    == entries@[a]@,
            forall|a: int, k: int|
                0 <= a < entries@.len() && i <= k < keys.len() ==> text::before(
                    (#[trigger] entries@[a]).name@,
                    #[trigger] keys[k],
                ),
            forall|k: int|
                0 <= k < i && #[trigger] is_after(last, keys[k]) ==> exists|a: int|
                    0 <= a < entries@.len() && (#[trigger] entries@[a]).name@ == keys[k],
        decreases keys.len() - i,
    {
        let entry = names.value_at(i);
        let ghost earlier = entries@;
        assert(entry.name@ == keys[i as int]);
        let wanted = match cursor {
            Some(name) => is_before(name.as_str(), entry.name.as_str()),
            None => true,
        };
        assert(wanted == is_after(last, keys[i as int]));
        if wanted {
            entries.push(entry.duplicate());
            assert forall|k: int| 0 <= k < i + 1 && #[trigger] is_after(
                last,
                keys[k],
            ) implies exists|a: int|
                0 <= a < entries@.len() && (#[trigger] entries@[a]).name@ == keys[k] by {
                if k < i {
                    let a = choose|a: int|
                        0 <= a < earlier.len() && (#[trigger] earlier[a]).name@ == keys[k];
                    assert(entries@[a].name@ == keys[k]);
                } else {
                    assert(entries@[earlier.len() as int].name@ == keys[k]);
                }
            }
        }
        i += 1;
    }
    proof {
        let full = crate::model::sync_entry_views(entries@);
        assert forall|name: Seq<char>|
            names@.dom().contains(name) && #[trigger] is_after(last, name) implies exists|a: int|
            0 <= a < full.len() && (#[trigger] full[a]).name == name by {
            let k = choose|k: int| 0 <= k < keys.len() && #[trigger] keys[k] == name;
            assert(is_after(last, keys[k]));
            let a = choose|a: int|
                0 <= a < entries@.len() && (#[trigger] entries@[a]).name@ == keys[k];
            assert(full[a].name == name);
        }
    }
    entries
}

/// What a pull hands to the host: its answer and the bytes to write.
#[derive(Debug)]
pub struct PullDelivery {
    pub result: SyncPullResult,
    pub data: Vec<u8>,
}

impl View for PullDelivery {
    type V = PullDeliveryView;

    open spec fn view(&self) -> PullDeliveryView {
        PullDeliveryView { result: self.result@, data: self.data@ }
    }
}

/// Adds every directory above a path.
fn add_parent_directories(directories: &mut Table<DeviceKey, ()>, serial: &str, path: &str)
    requires
        old(directories).wf(),
    ensures
        final(directories).wf(),
        final(directories)@ == model::parents_added(old(directories)@, serial@, path@),
{
    let chars = chars_of(path);
    let mut i: usize = 0;
    assert(directories@ =~= Map::new(
        |key: (Seq<char>, Seq<char>)| old(directories)@.dom().contains(key),
        |key: (Seq<char>, Seq<char>)| (),
    ));
    while i < chars.len()
        invariant
            i <= chars.len(),
            chars@ == path@,
            directories.wf(),
            forall|key: (Seq<char>, Seq<char>)| #[trigger]
                directories@.dom().contains(key) <==> (old(directories)@.dom().contains(key) || (
                key.0 == serial@ && exists|k: int|
                    0 <= k < i && path@[k] == '/' && key.1 == #[trigger] path@.take(k))),
        decreases chars.len() - i,
    {
        if chars[i] == '/' {
            let parent = path::text_up_to(path, i);
            let ghost before = directories@;
            directories.insert(device_key(serial, parent.as_str()), ());
            assert(directories@ == before.insert((serial@, path@.take(i as int)), ()));
        }
        i += 1;
    }
    proof {
        let wanted = model::parents_added(old(directories)@, serial@, path@);
        assert(directories@ =~= wanted);
    }
}

/// Checks that a transfer is the one that a request continues.
fn validate_transfer(
    transfer: &Transfer,
    serial: &str,
    path: &str,
    total_size: u64,
    direction: TransferDirection,
) -> (result: Result<(), RpcError>)
    ensures
        rpc_error::outcome(result) == (if model::same_transfer(
            transfer@,
            serial@,
            path@,
            total_size,
            direction,
        ) {
            Ok(())
        } else {
            Err(rpc_error::invalid_state("transfer metadata does not match"@))
        }),
{
    if !same_text(transfer.serial.as_str(), serial) || !same_text(
        transfer.remote_path.as_str(),
        path,
    ) || transfer.total_size != total_size || transfer.direction != direction {
        return Err(RpcError::invalid_state("transfer metadata does not match"));
    }
    Ok(())
}

/// Checks the block size of a transfer.
fn validate_block_size(block_size: u32) -> (result: Result<(), RpcError>)
    ensures
        rpc_error::outcome(result) == (if 1 <= block_size <= MAX_SYNC_BLOCK_SIZE {
            Ok(())
        } else {
            Err(rpc_error::invalid_params("block_size must be between 1 and 1048576"@))
        }),
{
    if 1 <= block_size && block_size <= MAX_SYNC_BLOCK_SIZE {
        Ok(())
    } else {
        Err(RpcError::invalid_params("block_size must be between 1 and 1048576"))
    }
}

} // verus!
