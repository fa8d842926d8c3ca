//! Pulling a directory tree while it is listed.

use crate::cli::error;
use crate::cli::error::{CliError, CliErrorView};
use crate::cli::execute::{ask, asked, invalid, invalid_result};
use crate::cli::host_path;
use crate::cli::host_path::{join_host_path, HostPath};
use crate::cli::local_tree;
use crate::cli::remote_tree::LIST_PAGE;
use crate::cli::rpc::{
    CallResult, CallResultView, ClientErrorView, Exchange, RpcCall, RpcCallView, RpcCaller,
    RpcReplyView,
};
use crate::cli::sync;
use crate::cli::sync::{
    pull_tree_paths, Destination, PathPair, TreeReport, TreeReportView, TreeTotals, TreeTotalsView,
};
use crate::logical_path;
use crate::model;
use crate::model::{
    SyncEntry, SyncEntryKind, SyncEntryView, SyncListParams, SyncListParamsView, SyncPullParams,
    SyncPullParamsView, TransferDirection, TransferState,
};
use crate::path::join;
use crate::text;
use crate::text::{clone_all, clone_optional};
use vstd::prelude::*;

verus! {

/// A directory by its path on the device and its path on the host.
#[derive(Debug)]
struct Place {
    remote: String,
    local: String,
}

spec fn place_views(places: Seq<Place>) -> Seq<PathPair> {
    Seq::new(places.len(), |i: int| (places[i].remote@, places[i].local@))
}

/// The pull of a directory tree that fetches each file as it is listed. Of each
/// directory the entries are taken in the order in which they are listed, and of
/// the directories that wait the one found last comes next.
#[derive(Debug)]
pub struct DirectoryPull {
    serial: String,
    remote_root: String,
    local_root: String,
    separator: char,
    block_size: u32,
    pending: Vec<Place>,
    current: Place,
    entries: Vec<SyncEntry>,
    next: usize,
    page_due: bool,
    cursor: Option<String>,
    directories: usize,
    bytes: u64,
    transfer_ids: Vec<String>,
}

/// What stays the same during a [`DirectoryPull`].
#[verifier::ext_equal]
pub struct PullSettings {
    pub serial: Seq<char>,
    pub remote_root: Seq<char>,
    pub local_root: Seq<char>,
    pub separator: char,
    pub block_size: u32,
}

/// How far a [`DirectoryPull`] has come. Paths are pairs, first on the device and
/// then on the host.
#[verifier::ext_equal]
pub struct DirectoryPullView {
    /// The directories that wait.
    pub pending: Seq<PathPair>,
    /// The directory at hand.
    pub current: PathPair,
    /// The listed entries that are left.
    pub entries: Seq<SyncEntryView>,
    /// Whether the directory at hand has another page, and where it begins.
    pub page: Option<Option<Seq<char>>>,
    pub directories: usize,
    pub bytes: u64,
    pub transfer_ids: Seq<Seq<char>>,
}

/// What one step of a [`DirectoryPull`] came to.
#[derive(Debug)]
pub enum PullStep {
    /// A page has been listed.
    Listed,
    /// This host directory is to be made before the next step.
    MakeDirectory(String),
    /// A file has been fetched.
    Fetched,
    /// The tree is complete.
    Finished(TreeReport),
}

/// The model of [`PullStep`].
#[verifier::ext_equal]
pub enum PullStepView {
    Listed,
    MakeDirectory(Seq<char>),
    Fetched,
    Finished(TreeReportView),
}

impl View for PullStep {
    type V = PullStepView;

    open spec fn view(&self) -> PullStepView {
        match *self {
            PullStep::Listed => PullStepView::Listed,
            PullStep::MakeDirectory(path) => PullStepView::MakeDirectory(path@),
            PullStep::Fetched => PullStepView::Fetched,
            PullStep::Finished(report) => PullStepView::Finished(report@),
        }
    }
}

/// The state in which the pull takes its next step: once a directory is through,
/// the one found last is at hand.
pub open spec fn settled(at: DirectoryPullView) -> DirectoryPullView {
    if at.entries.len() == 0 && at.page is None && at.pending.len() > 0 {
        DirectoryPullView {
            pending: at.pending.drop_last(),
            current: at.pending.last(),
            page: Some(None),
            ..at
        }
    } else {
        at
    }
}

/// The state at the beginning: nothing but the root has been found.
pub open spec fn begun(remote_root: Seq<char>, local_root: Seq<char>) -> DirectoryPullView {
    DirectoryPullView {
        pending: Seq::empty(),
        current: (remote_root, local_root),
        entries: Seq::empty(),
        page: Some(None),
        directories: 1,
        bytes: 0,
        transfer_ids: Seq::empty(),
    }
}

/// The paths of an entry of the directory at hand.
pub open spec fn entry_place(at: DirectoryPullView, name: Seq<char>, separator: char) -> PathPair {
    (local_tree::below(at.current.0, name), host_path::host_joined(at.current.1, name, separator))
}

/// The request for the next page.
pub open spec fn page_call(
    settings: PullSettings,
    at: DirectoryPullView,
    cursor: Option<Seq<char>>,
) -> RpcCallView {
    RpcCallView::SyncList(
        SyncListParamsView {
            serial: settings.serial,
            remote_path: at.current.0,
            cursor,
            limit: LIST_PAGE,
        },
    )
}

/// The request for a file.
pub open spec fn file_call(settings: PullSettings, place: PathPair) -> RpcCallView {
    RpcCallView::SyncPull(
        SyncPullParamsView {
            serial: settings.serial,
            remote_path: place.0,
            local_path: place.1,
            transfer_id: None,
            block_size: settings.block_size,
        },
    )
}

/// The state after the answer with a page.
pub open spec fn page_taken(
    at: DirectoryPullView,
    reply: Result<RpcReplyView, ClientErrorView>,
) -> Result<DirectoryPullView, CliErrorView> {
    match reply {
        Err(error) => Err(CliErrorView::Rpc(error)),
        Ok(answer) => match answer.result {
            CallResultView::SyncList(page) => Ok(
                DirectoryPullView {
                    entries: page.entries,
                    page: match page.next_cursor {
                        Some(cursor) => Some(Some(cursor)),
                        None => None,
                    },
                    ..at
                },
            ),
            _ => Err(invalid("sync directory list"@)),
        },
    }
}

/// The state after the answer to the request for the first entry that is left. A
/// file that does not come whole, in the size that was listed, fails the pull.
pub open spec fn file_taken(
    at: DirectoryPullView,
    reply: Result<RpcReplyView, ClientErrorView>,
) -> Result<DirectoryPullView, CliErrorView> {
    match reply {
        Err(error) => Err(CliErrorView::Rpc(error)),
        Ok(answer) => match answer.result {
            CallResultView::SyncPull(pulled) => if pulled.state != TransferState::Complete
                || pulled.total_size != at.entries[0].size || pulled.received_size
                != at.entries[0].size {
                Err(invalid("sync directory pull size"@))
            } else {
                Ok(
                    DirectoryPullView {
                        entries: at.entries.skip(1),
                        bytes: sync::saturated(at.bytes, pulled.received_size),
                        transfer_ids: at.transfer_ids.push(pulled.transfer_id),
                        ..at
                    },
                )
            },
            _ => Err(invalid("sync directory pull"@)),
        },
    }
}

/// The state after the first entry that is left, a directory.
pub open spec fn directory_taken(settings: PullSettings, at: DirectoryPullView) -> DirectoryPullView {
    DirectoryPullView {
        pending: at.pending.push(entry_place(at, at.entries[0].name, settings.separator)),
        entries: at.entries.skip(1),
        directories: if at.directories < usize::MAX {
            (at.directories + 1) as usize
        } else {
            at.directories
        },
        ..at
    }
}

/// What is reported at the end.
pub open spec fn final_report(settings: PullSettings, at: DirectoryPullView) -> TreeReportView {
    TreeReportView {
        direction: TransferDirection::Pull,
        source: settings.remote_root,
        destination: settings.local_root,
        files: at.transfer_ids.len() as usize,
        directories: at.directories,
        totals: TreeTotalsView {
            created_directories: at.directories as u64,
            bytes: at.bytes,
            transfer_ids: at.transfer_ids,
        },
    }
}

/// Whether one step of a pull ended so. A step that fails leaves the pull where it
/// was.
pub open spec fn advanced(
    settings: PullSettings,
    from: DirectoryPullView,
    to: DirectoryPullView,
    before: Seq<Exchange>,
    after: Seq<Exchange>,
    result: Result<PullStepView, CliErrorView>,
) -> bool {
    let at = settled(from);
    if at.entries.len() > 0 {
        let place = entry_place(at, at.entries[0].name, settings.separator);
        match at.entries[0].kind {
            SyncEntryKind::Directory => {
                &&& after == before
                &&& to == directory_taken(settings, at)
                &&& result == Ok::<_, CliErrorView>(PullStepView::MakeDirectory(place.1))
            },
            SyncEntryKind::File => exists|reply: Result<RpcReplyView, ClientErrorView>| #[trigger]
                asked(before, after, file_call(settings, place), reply) && stepped(
                    at,
                    to,
                    file_taken(at, reply),
                    PullStepView::Fetched,
                    result,
                ),
        }
    } else {
        match at.page {
            Some(cursor) => exists|reply: Result<RpcReplyView, ClientErrorView>| #[trigger]
                asked(before, after, page_call(settings, at, cursor), reply) && stepped(
                    at,
                    to,
                    page_taken(at, reply),
                    PullStepView::Listed,
                    result,
                ),
            None => {
                &&& after == before
                &&& to == at
                &&& result == Ok::<_, CliErrorView>(
                    PullStepView::Finished(final_report(settings, at)),
                )
            },
        }
    }
}

/// Whether a step that hangs on an answer ended as the answer says.
pub open spec fn stepped(
    at: DirectoryPullView,
    to: DirectoryPullView,
    taken: Result<DirectoryPullView, CliErrorView>,
    step: PullStepView,
    result: Result<PullStepView, CliErrorView>,
) -> bool {
    match taken {
        Ok(next) => to == next && result == Ok::<_, CliErrorView>(step),
        Err(error) => to == at && result == Err::<PullStepView, _>(error),
    }
}

fn join_remote_path(root: &str, relative: &str) -> (path: String)
    ensures
        path@ == local_tree::below(root@, relative@),
{
    if relative.is_empty() {
        root.to_owned()
    } else {
        join(root, relative)
    }
}

impl View for DirectoryPull {
    type V = DirectoryPullView;

    closed spec fn view(&self) -> DirectoryPullView {
        DirectoryPullView {
            pending: place_views(self.pending@),
            current: (self.current.remote@, self.current.local@),
            entries: model::sync_entry_views(self.entries@).skip(self.next as int),
            page: if self.page_due {
                Some(text::optional(self.cursor))
            } else {
                None
            },
            directories: self.directories,
            bytes: self.bytes,
            transfer_ids: text::all(self.transfer_ids@),
        }
    }
}

impl DirectoryPull {
    /// The entries that have been taken are entries.
    pub closed spec fn wf(&self) -> bool {
        self.next <= self.entries@.len()
    }

    /// What stays the same.
    pub closed spec fn settings(&self) -> PullSettings {
        PullSettings {
            serial: self.serial@,
            remote_root: self.remote_root@,
            local_root: self.local_root@,
            separator: self.separator,
            block_size: self.block_size,
        }
    }

    /// Whether the pull has these settings and is at its beginning.
    pub open spec fn begins(&self, settings: PullSettings) -> bool {
        &&& self.wf()
        &&& self.settings() == settings
        &&& self@ == begun(settings.remote_root, settings.local_root)
    }

    /// The host directory that the tree is pulled into.
    pub fn destination(&self) -> (path: &str)
        ensures
            path@ == self.settings().local_root,
    {
        self.local_root.as_str()
    }

    /// Begins to pull a tree into a host directory that is made next.
    pub fn begin(
        serial: &str,
        remote_path: &str,
        local: HostPath,
        block_size: u32,
        destination: Destination,
        separator: char,
    ) -> (result: Result<Self, CliError>)
        ensures
            match sync::pull_tree_refusal(block_size, local, remote_path@, destination) {
                Some(refusal) => result matches Err(error) && error@ == refusal,
                None => result matches Ok(pull) && pull.begins(
                    PullSettings {
                        serial: serial@,
                        remote_root: logical_path::normalized(remote_path@)->Ok_0,
                        local_root: local->Absolute_0@,
                        separator,
                        block_size,
                    },
                ),
            },
    {
        let paths = pull_tree_paths(block_size, local, remote_path, destination)?;
        let pull = DirectoryPull {
            serial: serial.to_owned(),
            remote_root: paths.remote.as_str().to_owned(),
            local_root: paths.local.clone(),
            separator,
            block_size,
            pending: Vec::new(),
            current: Place { remote: paths.remote.as_str().to_owned(), local: paths.local },
            entries: Vec::new(),
            next: 0,
            page_due: true,
            cursor: None,
            directories: 1,
            bytes: 0,
            transfer_ids: Vec::new(),
        };
        assert(pull@.pending =~= Seq::empty());
        assert(pull@.entries =~= Seq::empty());
        assert(pull@.transfer_ids =~= Seq::empty());
        Ok(pull)
    }

    fn settle(&mut self)
        requires
            old(self).wf(),
        ensures
            final(self).wf(),
            final(self).settings() == old(self).settings(),
            final(self)@ == settled(old(self)@),
    {
        if self.next >= self.entries.len() && !self.page_due {
            let ghost before = self@;
            let ghost pending = self.pending@;
            if let Some(place) = self.pending.pop() {
                self.current = place;
                self.cursor = None;
                self.page_due = true;
                assert(place_views(self.pending@) =~= place_views(pending).drop_last());
                assert(place_views(pending).last() == (place.remote@, place.local@));
                assert(self@ =~= settled(before));
            }
        }
    }

    fn take_directory(&mut self, local: String)
        requires
            old(self).wf(),
            old(self)@.entries.len() > 0,
            local@ == entry_place(
                old(self)@,
                old(self)@.entries[0].name,
                old(self).settings().separator,
            ).1,
        ensures
            final(self).wf(),
            final(self).settings() == old(self).settings(),
            final(self)@ == directory_taken(old(self).settings(), old(self)@),
    {
        let ghost before = self@;
        let ghost pending = self.pending@;
        let remote = join_remote_path(
            self.current.remote.as_str(),
            self.entries[self.next].name.as_str(),
        );
        let ghost place = (remote@, local@);
        let listed: usize = self.entries.len();
        assert(self.next < listed);
        self.pending.push(Place { remote, local });
        assert(place_views(self.pending@) =~= place_views(pending).push(place));
        self.next += 1;
        if self.directories < usize::MAX {
            self.directories += 1;
        }
        assert(self@.entries =~= before.entries.skip(1));
    }

    /// Takes the next step.
    pub fn advance<C: RpcCaller>(&mut self, caller: &mut C) -> (result: Result<PullStep, CliError>)
        requires
            old(self).wf(),
        ensures
            final(self).wf(),
            final(self).settings() == old(self).settings(),
            advanced(
                old(self).settings(),
                old(self)@,
                final(self)@,
                old(caller).exchanges(),
                final(caller).exchanges(),
                error::outcome(result),
            ),
    {
        let ghost settings = self.settings();
        self.settle();
        let ghost at = self@;
        if self.next < self.entries.len() {
            let entry = &self.entries[self.next];
            assert(at.entries[0] == entry@);
            let local = join_host_path(
                self.current.local.as_str(),
                entry.name.as_str(),
                self.separator,
            );
            match entry.kind {
                SyncEntryKind::Directory => {
                    let path = local.clone();
                    self.take_directory(local);
                    Ok(PullStep::MakeDirectory(path))
                },
                SyncEntryKind::File => {
                    let size: u64 = entry.size;
                    let params = SyncPullParams {
                        serial: self.serial.clone(),
                        remote_path: join_remote_path(
                            self.current.remote.as_str(),
                            entry.name.as_str(),
                        ),
                        local_path: local,
                        transfer_id: None,
                        block_size: self.block_size,
                    };
                    let reply = ask(caller, RpcCall::SyncPull(params))?;
                    match reply.result {
                        CallResult::SyncPull(pulled) => {
                            if pulled.state != TransferState::Complete || pulled.total_size != size
                                || pulled.received_size != size {
                                return Err(invalid_result("sync directory pull size"));
                            }
                            let ghost ids = self.transfer_ids@;
                            let ghost id = pulled.transfer_id@;
                            self.next += 1;
                            self.bytes = self.bytes.saturating_add(pulled.received_size);
                            self.transfer_ids.push(pulled.transfer_id);
                            assert(text::all(self.transfer_ids@) =~= text::all(ids).push(id));
                            assert(self@.entries =~= at.entries.skip(1));
                            Ok(PullStep::Fetched)
                        },
                        _ => Err(invalid_result("sync directory pull")),
                    }
                },
            }
        } else if self.page_due {
            let params = SyncListParams {
                serial: self.serial.clone(),
                remote_path: self.current.remote.clone(),
                cursor: clone_optional(&self.cursor),
                limit: LIST_PAGE,
            };
            let reply = ask(caller, RpcCall::SyncList(params))?;
            match reply.result {
                CallResult::SyncList(page) => {
                    self.entries = page.entries;
                    self.next = 0;
                    self.page_due = page.next_cursor.is_some();
                    self.cursor = page.next_cursor;
                    assert(self@.entries =~= model::sync_entry_views(self.entries@));
                    Ok(PullStep::Listed)
                },
                _ => Err(invalid_result("sync directory list")),
            }
        } else {
            Ok(
                PullStep::Finished(
                    TreeReport {
                        direction: TransferDirection::Pull,
                        source: self.remote_root.clone(),
                        destination: self.local_root.clone(),
                        files: self.transfer_ids.len(),
                        directories: self.directories,
                        totals: TreeTotals {
                            created_directories: self.directories as u64,
                            bytes: self.bytes,
                            transfer_ids: clone_all(&self.transfer_ids),
                        },
                    },
                ),
            )
        }
    }
}

/// A device path with more components, each behind a slash.
pub open spec fn device_path_below(root: Seq<char>, components: Seq<Seq<char>>) -> Seq<char>
    decreases components.len(),
{
    if components.len() == 0 {
        root
    } else {
        device_path_below(root, components.drop_last()) + seq!['/'] + components.last()
    }
}

/// Whether a directory is found at the same components below the root on the host as below
/// the root on the device.
pub open spec fn mirrors(
    settings: PullSettings,
    place: PathPair,
    components: Seq<Seq<char>>,
) -> bool {
    &&& place.0 == device_path_below(settings.remote_root, components)
    &&& place.1 == host_path::path_below(settings.local_root, components, settings.separator)
}

/// Whether a directory is found at the same components on both sides.
pub open spec fn mirrored(settings: PullSettings, place: PathPair) -> bool {
    exists|components: Seq<Seq<char>>| #[trigger] mirrors(settings, place, components)
}

/// Whether every directory of a pull that is known is found at the same components on both
/// sides.
pub open spec fn keeps_places(settings: PullSettings, at: DirectoryPullView) -> bool {
    &&& mirrored(settings, at.current)
    &&& forall|i: int| 0 <= i < at.pending.len() ==> mirrored(settings, #[trigger] at.pending[i])
}

proof fn entries_are_mirrored(
    settings: PullSettings,
    at: DirectoryPullView,
    components: Seq<Seq<char>>,
    name: Seq<char>,
)
    requires
        mirrors(settings, at.current, components),
        name.len() > 0,
    ensures
        mirrors(
            settings,
            entry_place(at, name, settings.separator),
            components.push(name),
        ),
{
    let more = components.push(name);
    assert(more.drop_last() =~= components);
    assert(more.last() == name);
}

/// A pulled tree lies on the host as it lies on the device. From its beginning on, every
/// step takes its entry at the directory at hand, which is found at the same components
/// below both roots: a file is asked for by the path with its name behind them on the
/// device, for the path with its name behind them on the host, and a directory is made at
/// the path with its name behind them. Later the directory is at hand under just these two
/// paths.
pub proof fn pulled_trees_keep_their_shape(
    settings: PullSettings,
    from: DirectoryPullView,
    to: DirectoryPullView,
    before: Seq<Exchange>,
    after: Seq<Exchange>,
    result: Result<PullStepView, CliErrorView>,
)
    requires
        keeps_places(settings, from),
        advanced(settings, from, to, before, after, result),
        forall|i: int| 0 <= i < from.entries.len() ==> (#[trigger] from.entries[i]).name.len() > 0,
    ensures
        keeps_places(settings, begun(settings.remote_root, settings.local_root)),
        keeps_places(settings, to),
        from.entries.len() > 0 ==> exists|components: Seq<Seq<char>>|
            {
                let all = components.push(from.entries[0].name);
                &&& #[trigger] mirrors(settings, from.current, components)
                &&& match from.entries[0].kind {
                    SyncEntryKind::File => after.len() == before.len() + 1 && after.last().call
                        == RpcCallView::SyncPull(
                        SyncPullParamsView {
                            serial: settings.serial,
                            remote_path: device_path_below(settings.remote_root, all),
                            local_path: host_path::path_below(
                                settings.local_root,
                                all,
                                settings.separator,
                            ),
                            transfer_id: None,
                            block_size: settings.block_size,
                        },
                    ),
                    SyncEntryKind::Directory => {
                        let made = host_path::path_below(
                            settings.local_root,
                            all,
                            settings.separator,
                        );
                        &&& after == before
                        &&& result == Ok::<_, CliErrorView>(PullStepView::MakeDirectory(made))
                        &&& to.pending == from.pending.push(
                            (device_path_below(settings.remote_root, all), made),
                        )
                    },
                }
            },
{
    let start = begun(settings.remote_root, settings.local_root);
    assert(mirrors(settings, start.current, Seq::empty()));
    let at = settled(from);
    assert(keeps_places(settings, at));
    if from.entries.len() > 0 {
        assert(at == from);
        let components = choose|components: Seq<Seq<char>>| #[trigger]
            mirrors(settings, from.current, components);
        let name = from.entries[0].name;
        entries_are_mirrored(settings, from, components, name);
        assert(mirrors(settings, from.current, components));
        assert(mirrored(settings, entry_place(from, name, settings.separator)));
        assert(from.entries[0].name.len() > 0);
    }
}

/// What the listings among some requests have shown: how many entries, and how many
/// listings that had nothing behind them.
pub open spec fn listed(exchanges: Seq<Exchange>) -> (nat, nat)
    decreases exchanges.len(),
{
    if exchanges.len() == 0 {
        (0, 0)
    } else {
        let (entries, ends) = listed(exchanges.drop_last());
        match exchanges.last().reply {
            Ok(answer) => match answer.result {
                CallResultView::SyncList(page) => (
                    entries + page.entries.len(),
                    if page.next_cursor is None {
                        ends + 1
                    } else {
                        ends
                    },
                ),
                _ => (entries, ends),
            },
            Err(_) => (entries, ends),
        }
    }
}

/// Whether a pull has accounted for all that the listings since its beginning have shown:
/// every entry has been fetched, made or is left, and every directory has been listed to
/// its end, is at hand or waits.
pub open spec fn accounts_for(at: DirectoryPullView, exchanges: Seq<Exchange>) -> bool {
    let (entries, ends) = listed(exchanges);
    &&& entries + 1 == at.transfer_ids.len() + at.directories + at.entries.len()
    &&& ends + at.pending.len() + if at.page is Some {
        1int
    } else {
        0
    } == at.directories
}

/// Nothing that is listed is left out, and nothing is taken twice: when a pull is complete,
/// it has fetched or made each listed entry, it has listed each directory to its end, the
/// root as well, and it reports as many files and directories.
pub proof fn listed_entries_are_all_taken(
    settings: PullSettings,
    from: DirectoryPullView,
    to: DirectoryPullView,
    before: Seq<Exchange>,
    after: Seq<Exchange>,
    result: Result<PullStepView, CliErrorView>,
)
    requires
        accounts_for(from, before),
        advanced(settings, from, to, before, after, result),
        result is Ok,
        from.directories < usize::MAX,
        from.transfer_ids.len() < usize::MAX,
    ensures
        accounts_for(begun(settings.remote_root, settings.local_root), Seq::empty()),
        accounts_for(to, after),
        result matches Ok(PullStepView::Finished(report)) ==> {
            &&& listed(after).0 == report.files + report.directories - 1
            &&& listed(after).1 == report.directories
            &&& report.source == settings.remote_root
            &&& report.destination == settings.local_root
        },
{
    let at = settled(from);
    assert(accounts_for(at, before));
    if after != before {
        assert(after.drop_last() =~= before);
    }
}

/// A directory whose listing has more behind it is asked for again, from the cursor of the
/// page on and before anything else but the entries of that page; one that comes to hand is
/// asked for from its beginning.
pub proof fn listings_go_on_at_their_cursor(
    settings: PullSettings,
    at: DirectoryPullView,
    reply: Result<RpcReplyView, ClientErrorView>,
)
    requires
        page_taken(at, reply) is Ok,
    ensures
        ({
            let page = reply->Ok_0.result->SyncList_0;
            let next = page_taken(at, reply)->Ok_0;
            &&& next.entries == page.entries
            &&& next.current == at.current
            &&& next.pending == at.pending
            &&& page.next_cursor matches Some(cursor) ==> {
                &&& settled(DirectoryPullView { entries: Seq::empty(), ..next }).page == Some(
                    Some(cursor),
                )
                &&& page_call(settings, next, Some(cursor)) == RpcCallView::SyncList(
                    SyncListParamsView {
                        serial: settings.serial,
                        remote_path: at.current.0,
                        cursor: Some(cursor),
                        limit: LIST_PAGE,
                    },
                )
            }
            &&& page.next_cursor is None && at.pending.len() > 0 ==> {
                let later = settled(DirectoryPullView { entries: Seq::empty(), ..next });
                &&& later.current == at.pending.last()
                &&& later.page matches Some(None)
            }
        }),
{
}

/// A file counts only when the device has delivered it whole, in the size that was listed;
/// its bytes are then added up.
pub proof fn fetched_files_are_whole(
    settings: PullSettings,
    from: DirectoryPullView,
    to: DirectoryPullView,
    before: Seq<Exchange>,
    after: Seq<Exchange>,
)
    requires
        from.entries.len() > 0,
        from.entries[0].kind == SyncEntryKind::File,
        advanced(
            settings,
            from,
            to,
            before,
            after,
            Ok::<_, CliErrorView>(PullStepView::Fetched),
        ),
    ensures
        after.last().reply matches Ok(answer) && answer.result matches CallResultView::SyncPull(
            pulled,
        ) && {
            &&& pulled.state == TransferState::Complete
            &&& pulled.total_size == from.entries[0].size
            &&& pulled.received_size == from.entries[0].size
            &&& to.transfer_ids == from.transfer_ids.push(pulled.transfer_id)
            &&& from.bytes + from.entries[0].size <= u64::MAX ==> to.bytes == from.bytes
                + from.entries[0].size
        },
{
}

/// Every directory of the tree is counted, up to the largest number there is.
pub proof fn directories_are_counted(settings: PullSettings, at: DirectoryPullView)
    ensures
        ({
            let counted = directory_taken(settings, at).directories;
            counted == if at.directories == usize::MAX {
                usize::MAX as int
            } else {
                at.directories + 1
            }
        }),
{
}

} // verus!
