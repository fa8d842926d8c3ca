//! Directory trees on a device.

use crate::cli::error::{CliError, CliErrorView};
use crate::cli::execute;
use crate::cli::execute::{ask, invalid, invalid_result};
use crate::cli::local_tree;
use crate::cli::local_tree::{join_relative_path, MAX_SYNC_TREE_ENTRIES};
use crate::cli::rpc::{
    CallResult, CallResultView, ClientErrorView, Exchange, RpcCall, RpcCallView, RpcCaller,
    RpcReplyView,
};
use crate::logical_path;
use crate::logical_path::LogicalSyncPath;
use crate::model;
use crate::model::{
    SyncEntry, SyncEntryKind, SyncEntryView, SyncListParams, SyncListParamsView, SyncListResult,
    SyncListResultView,
};
use crate::path;
use crate::path::{contains_char, join};
use crate::sorting;
use crate::sorting::{sort_by_text, ByText};
use crate::table::Table;
use crate::text;
use crate::text::{clone_optional, is_before, same_text};
use vstd::prelude::*;

verus! {

/// The number of names that a page of a directory has, unless it is the last.
pub const LIST_PAGE: u32 = 256;

/// A directory on a device, with its path below the root of its tree.
#[derive(Debug)]
pub struct RemoteDirectory {
    pub remote_path: LogicalSyncPath,
    pub relative_path: String,
}

/// The model of [`RemoteDirectory`].
#[verifier::ext_equal]
pub struct RemoteDirectoryView {
    pub remote_path: Seq<char>,
    pub relative_path: Seq<char>,
}

impl View for RemoteDirectory {
    type V = RemoteDirectoryView;

    open spec fn view(&self) -> RemoteDirectoryView {
        RemoteDirectoryView { remote_path: self.remote_path@, relative_path: self.relative_path@ }
    }
}

impl ByText for RemoteDirectory {
    open spec fn rank(&self) -> Seq<char> {
        self.relative_path@
    }

    fn key(&self) -> &str {
        self.relative_path.as_str()
    }
}

impl RemoteDirectory {
    fn duplicate(&self) -> (copy: Self)
        requires
            self.remote_path.wf(),
        ensures
            copy@ == self@,
            copy.remote_path.wf(),
    {
        RemoteDirectory {
            remote_path: self.remote_path.duplicate(),
            relative_path: self.relative_path.clone(),
        }
    }
}

/// A file on a device, with its path below the root of its tree.
#[derive(Debug)]
pub struct RemoteFile {
    pub remote_path: LogicalSyncPath,
    pub relative_path: String,
    pub size: u64,
}

/// The model of [`RemoteFile`].
#[verifier::ext_equal]
pub struct RemoteFileView {
    pub remote_path: Seq<char>,
    pub relative_path: Seq<char>,
    pub size: u64,
}

impl View for RemoteFile {
    type V = RemoteFileView;

    open spec fn view(&self) -> RemoteFileView {
        RemoteFileView {
            remote_path: self.remote_path@,
            relative_path: self.relative_path@,
            size: self.size,
        }
    }
}

impl ByText for RemoteFile {
    open spec fn rank(&self) -> Seq<char> {
        self.relative_path@
    }

    fn key(&self) -> &str {
        self.relative_path.as_str()
    }
}

/// The models of directories.
pub open spec fn directory_views(items: Seq<RemoteDirectory>) -> Seq<RemoteDirectoryView> {
    Seq::new(items.len(), |i: int| items[i]@)
}

/// The models of files.
pub open spec fn file_views(items: Seq<RemoteFile>) -> Seq<RemoteFileView> {
    Seq::new(items.len(), |i: int| items[i]@)
}

/// Everything below a directory on a device, in ascending order.
#[derive(Debug)]
pub struct RemoteTreeManifest {
    pub directories: Vec<RemoteDirectory>,
    pub files: Vec<RemoteFile>,
}

/// A walk over a directory tree on a device.
#[verifier::ext_equal]
pub struct WalkView {
    pub root: Seq<char>,
    pub directories: Seq<RemoteDirectoryView>,
    pub files: Seq<RemoteFileView>,
    /// The device paths so far.
    pub registered: Seq<Seq<char>>,
    /// The directories that are still to be listed; the last one comes next.
    pub pending: Seq<RemoteDirectoryView>,
    /// The directory that is being listed, with the last name of the last page.
    pub current: Option<(RemoteDirectoryView, Option<Seq<char>>)>,
}

/// A walk that has not begun.
pub open spec fn walk_from(root: Seq<char>) -> WalkView {
    let top = RemoteDirectoryView { remote_path: root, relative_path: Seq::empty() };
    WalkView {
        root,
        directories: seq![top],
        files: Seq::empty(),
        registered: seq![root],
        pending: seq![top],
        current: None,
    }
}

/// The walk with the next directory at hand, if one is left.
pub open spec fn resumed(walk: WalkView) -> WalkView {
    if walk.current is None && walk.pending.len() > 0 {
        WalkView {
            pending: walk.pending.drop_last(),
            current: Some((walk.pending.last(), None)),
            ..walk
        }
    } else {
        walk
    }
}

/// The request for the next page.
pub open spec fn page_call(walk: WalkView, serial: Seq<char>) -> RpcCallView {
    RpcCallView::SyncList(
        SyncListParamsView {
            serial,
            remote_path: walk.current->Some_0.0.remote_path,
            cursor: walk.current->Some_0.1,
            limit: LIST_PAGE,
        },
    )
}

/// Why a name in a directory is not acceptable, if it is not.
pub open spec fn name_refusal(name: Seq<char>) -> Option<CliErrorView> {
    match logical_path::refusal(name) {
        Some(reason) => Some(CliErrorView::InvalidDeviceSyncPath { path: name, reason }),
        None => if name.contains('/') {
            Some(
                CliErrorView::InvalidDeviceSyncPath {
                    path: name,
                    reason: "directory entry names must contain one component"@,
                },
            )
        } else {
            None
        },
    }
}

/// What one entry of a page makes of the walk, when this name came before it.
pub open spec fn entry_taken(
    walk: WalkView,
    directory: RemoteDirectoryView,
    previous: Option<Seq<char>>,
    entry: SyncEntryView,
) -> Result<WalkView, CliErrorView> {
    let full = path::joined(directory.remote_path, entry.name);
    let relative = local_tree::relative_path(directory.relative_path, entry.name);
    if walk.directories.len() - 1 + walk.files.len() >= MAX_SYNC_TREE_ENTRIES {
        Err(CliErrorView::RemoteTreeTooLarge(walk.root))
    } else if name_refusal(entry.name) is Some {
        Err(name_refusal(entry.name)->Some_0)
    } else if previous matches Some(last) && !text::before(last, entry.name) {
        Err(invalid("sync directory list ordering"@))
    } else {
        match logical_path::refusal(full) {
            Some(reason) => Err(CliErrorView::InvalidDeviceSyncPath { path: full, reason }),
            None => match local_tree::colliding(walk.registered, full) {
                Some(first) => Err(CliErrorView::DevicePathCollision { first, second: full }),
                None => match entry.kind {
                    SyncEntryKind::Directory => if entry.size != 0 {
                        Err(invalid("sync directory entry size"@))
                    } else {
                        let child = RemoteDirectoryView {
                            remote_path: full,
                            relative_path: relative,
                        };
                        Ok(
                            WalkView {
                                directories: walk.directories.push(child),
                                pending: walk.pending.push(child),
                                registered: walk.registered.push(full),
                                ..walk
                            },
                        )
                    },
                    SyncEntryKind::File => Ok(
                        WalkView {
                            files: walk.files.push(
                                RemoteFileView {
                                    remote_path: full,
                                    relative_path: relative,
                                    size: entry.size,
                                },
                            ),
                            registered: walk.registered.push(full),
                            ..walk
                        },
                    ),
                },
            },
        }
    }
}

/// The name before an entry of a page: that of the entry before it, or the
/// cursor.
pub open spec fn name_before(entries: Seq<SyncEntryView>, cursor: Option<Seq<char>>, i: int) -> Option<
    Seq<char>,
> {
    if i == 0 {
        cursor
    } else {
        Some(entries[i - 1].name)
    }
}

/// What the entries of a page make of the walk.
pub open spec fn entries_taken(
    walk: WalkView,
    directory: RemoteDirectoryView,
    cursor: Option<Seq<char>>,
    entries: Seq<SyncEntryView>,
) -> Result<WalkView, CliErrorView>
    decreases entries.len(),
{
    if entries.len() == 0 {
        Ok(walk)
    } else {
        match entries_taken(walk, directory, cursor, entries.drop_last()) {
            Err(error) => Err(error),
            Ok(before) => entry_taken(
                before,
                directory,
                name_before(entries, cursor, entries.len() - 1),
                entries.last(),
            ),
        }
    }
}

/// What a page makes of the walk. A page with more behind it is full, and its
/// cursor is its last name.
pub open spec fn page_taken(walk: WalkView, page: SyncListResultView) -> Result<
    WalkView,
    CliErrorView,
> {
    let directory = walk.current->Some_0.0;
    let cursor = walk.current->Some_0.1;
    if page.remote_path != directory.remote_path {
        Err(invalid("sync directory list path"@))
    } else if page.entries.len() > LIST_PAGE || (page.next_cursor is Some && page.entries.len()
        != LIST_PAGE) {
        Err(invalid("sync directory list page"@))
    } else {
        match entries_taken(walk, directory, cursor, page.entries) {
            Err(error) => Err(error),
            Ok(taken) => match page.next_cursor {
                None => Ok(WalkView { current: None, ..taken }),
                Some(next) => match name_refusal(next) {
                    Some(refusal) => Err(refusal),
                    None => if page.entries.last().name != next {
                        Err(invalid("sync directory list cursor"@))
                    } else {
                        Ok(WalkView { current: Some((directory, Some(next))), ..taken })
                    },
                },
            },
        }
    }
}

/// What an answer to a request for a page makes of the walk.
pub open spec fn answer_taken(
    walk: WalkView,
    reply: Result<RpcReplyView, ClientErrorView>,
) -> Result<WalkView, CliErrorView> {
    match reply {
        Err(error) => Err(CliErrorView::Rpc(error)),
        Ok(answer) => match answer.result {
            CallResultView::SyncList(page) => page_taken(walk, page),
            _ => Err(invalid("sync directory list"@)),
        },
    }
}

/// What becomes of a walk in the course of these requests and answers: nothing,
/// if the walk would not have sent them.
pub open spec fn walked(walk: WalkView, serial: Seq<char>, exchanges: Seq<Exchange>) -> Option<
    Result<WalkView, CliErrorView>,
>
    decreases exchanges.len(),
{
    if exchanges.len() == 0 {
        Some(Ok(walk))
    } else {
        match walked(walk, serial, exchanges.drop_last()) {
            Some(Ok(before)) => {
                let at_hand = resumed(before);
                if at_hand.current is Some && exchanges.last().call == page_call(at_hand, serial) {
                    Some(answer_taken(at_hand, exchanges.last().reply))
                } else {
                    None
                }
            },
            _ => None,
        }
    }
}

/// Whether a manifest lists what a walk has found, in ascending order.
pub open spec fn lists(manifest: RemoteTreeManifest, walk: WalkView) -> bool {
    &&& sorting::in_order(manifest.directories@)
    &&& sorting::in_order(manifest.files@)
    &&& manifest.directories@.len() == walk.directories.len()
    &&& manifest.files@.len() == walk.files.len()
    &&& forall|item: RemoteDirectoryView| #[trigger]
        directory_views(manifest.directories@).contains(item) <==> walk.directories.contains(item)
    &&& forall|item: RemoteFileView| #[trigger]
        file_views(manifest.files@).contains(item) <==> walk.files.contains(item)
}

/// Whether a tree was walked to its end by these requests and answers, with this
/// result.
pub open spec fn collected(
    root: Seq<char>,
    serial: Seq<char>,
    exchanges: Seq<Exchange>,
    result: Result<RemoteTreeManifest, CliError>,
) -> bool {
    match walked(walk_from(root), serial, exchanges) {
        Some(Ok(walk)) => resumed(walk).current is None && (result matches Ok(manifest) && lists(
            manifest,
            walk,
        )),
        Some(Err(failure)) => result matches Err(error) && error@ == failure,
        None => false,
    }
}

/// A walk over a directory tree on a device.
struct TreeWalk {
    root: LogicalSyncPath,
    directories: Vec<RemoteDirectory>,
    files: Vec<RemoteFile>,
    pending: Vec<RemoteDirectory>,
    folded: Table<String, String>,
    registered: Ghost<Seq<Seq<char>>>,
}

impl TreeWalk {
    spec fn at(&self, current: Option<(RemoteDirectoryView, Option<Seq<char>>)>) -> WalkView {
        WalkView {
            root: self.root@,
            directories: directory_views(self.directories@),
            files: file_views(self.files@),
            registered: self.registered@,
            pending: directory_views(self.pending@),
            current,
        }
    }

    spec fn wf(&self) -> bool {
        &&& self.root.wf()
        &&& self.folded.wf()
        &&& local_tree::folds(self.folded@, self.registered@)
        &&& self.directories@.len() >= 1
        &&& self.directories@.len() - 1 + self.files@.len() <= MAX_SYNC_TREE_ENTRIES
        &&& forall|i: int|
            0 <= i < self.pending@.len() ==> (#[trigger] self.pending@[i]).remote_path.wf()
    }

    /// How much the walk can still find.
    spec fn left(&self) -> int {
        2 * (MAX_SYNC_TREE_ENTRIES - (self.directories@.len() - 1 + self.files@.len()))
            + self.pending@.len()
    }

    fn start(root: &LogicalSyncPath) -> (walk: Self)
        requires
            root.wf(),
        ensures
            walk.wf(),
            walk.at(None) == walk_from(root@),
    {
        let mut folded: Table<String, String> = Table::new();
        let nothing: Ghost<Seq<Seq<char>>> = Ghost(Seq::empty());
        let earlier = local_tree::register_path(root, &mut folded, nothing);
        assert(earlier is None);
        let top = RemoteDirectory { remote_path: root.duplicate(), relative_path: String::new() };
        let mut directories: Vec<RemoteDirectory> = Vec::new();
        directories.push(top.duplicate());
        let mut pending: Vec<RemoteDirectory> = Vec::new();
        pending.push(top);
        let ghost paths = seq![root@];
        let walk = TreeWalk {
            root: root.duplicate(),
            directories,
            files: Vec::new(),
            pending,
            folded,
            registered: Ghost(paths),
        };
        assert(Seq::<Seq<char>>::empty().push(root@) =~= seq![root@]);
        assert(walk.at(None) =~= walk_from(root@));
        walk
    }

    /// Takes one entry of a page.
    fn take_entry(
        &mut self,
        directory: &RemoteDirectory,
        previous: &Option<String>,
        entry: &SyncEntry,
    ) -> (result: Result<(), CliError>)
        requires
            old(self).wf(),
        ensures
            match entry_taken(
                old(self).at(None),
                directory@,
                text::optional(*previous),
                entry@,
            ) {
                Ok(after) => {
                    &&& result is Ok
                    &&& final(self).wf()
                    &&& final(self).at(None) == after
                    &&& final(self).left() < old(self).left()
                },
                Err(failure) => result matches Err(error) && error@ == failure,
            },
    {
        if self.directories.len() - 1 + self.files.len() >= MAX_SYNC_TREE_ENTRIES {
            return Err(CliError::RemoteTreeTooLarge(self.root.as_str().to_owned()));
        }
        let name = parse_device_entry_name(entry.name.as_str())?;
        if let Some(last) = previous {
            if !is_before(last.as_str(), name.as_str()) {
                return Err(invalid_result("sync directory list ordering"));
            }
        }
        let remote_path = join_device_logical_path(&directory.remote_path, name.as_str())?;
        let seen: Ghost<Seq<Seq<char>>> = Ghost(self.registered@);
        match local_tree::register_path(&remote_path, &mut self.folded, seen) {
            Some(first) => {
                return Err(
                    CliError::DevicePathCollision {
                        first,
                        second: remote_path.as_str().to_owned(),
                    },
                );
            },
            None => {},
        }
        let relative_path = join_relative_path(directory.relative_path.as_str(), name.as_str());
        self.registered = Ghost(self.registered@.push(remote_path@));
        let ghost before = *self;
        match entry.kind {
            SyncEntryKind::Directory => {
                if entry.size != 0 {
                    return Err(invalid_result("sync directory entry size"));
                }
                let child = RemoteDirectory { remote_path, relative_path };
                let copy = child.duplicate();
                let ghost view = child@;
                self.directories.push(copy);
                self.pending.push(child);
                assert(directory_views(self.directories@) =~= directory_views(
                    before.directories@,
                ).push(view));
                assert(directory_views(self.pending@) =~= directory_views(before.pending@).push(
                    view,
                ));
            },
            SyncEntryKind::File => {
                let file = RemoteFile { remote_path, relative_path, size: entry.size };
                let ghost view = file@;
                self.files.push(file);
                assert(file_views(self.files@) =~= file_views(before.files@).push(view));
            },
        }
        Ok(())
    }

    /// Takes the entries of a page.
    fn take_entries(
        &mut self,
        directory: &RemoteDirectory,
        cursor: &Option<String>,
        entries: &Vec<SyncEntry>,
    ) -> (result: Result<(), CliError>)
        requires
            old(self).wf(),
        ensures
            match entries_taken(
                old(self).at(None),
                directory@,
                text::optional(*cursor),
                model::sync_entry_views(entries@),
            ) {
                Ok(after) => {
                    &&& result is Ok
                    &&& final(self).wf()
                    &&& final(self).at(None) == after
                    &&& final(self).left() <= old(self).left()
                    &&& entries@.len() > 0 ==> final(self).left() < old(self).left()
                },
                Err(failure) => result matches Err(error) && error@ == failure,
            },
    {
        let ghost all = model::sync_entry_views(entries@);
        let ghost last = text::optional(*cursor);
        let ghost begun = self.at(None);
        let mut previous = clone_optional(cursor);
        let mut i: usize = 0;
        assert(all.take(0) =~= Seq::<SyncEntryView>::empty());
        while i < entries.len()
            invariant
                i <= entries@.len(),
                all == model::sync_entry_views(entries@),
                last == text::optional(*cursor),
                begun == old(self).at(None),
                self.wf(),
                entries_taken(begun, directory@, last, all.take(i as int)) == Ok::<
                    _,
                    CliErrorView,
                >(self.at(None)),
                text::optional(previous) == name_before(all, last, i as int),
                self.left() <= old(self).left(),
                i > 0 ==> self.left() < old(self).left(),
            decreases entries@.len() - i,
        {
            let ghost next = all.take(i + 1);
            assert(next.drop_last() =~= all.take(i as int));
            assert(next.last() == entries@[i as int]@);
            assert(name_before(next, last, i as int) == name_before(all, last, i as int));
            match self.take_entry(directory, &previous, &entries[i]) {
                Err(error) => {
                    proof {
                        entry_failure_counts(begun, directory@, last, all, i + 1);
                    }
                    return Err(error);
                },
                Ok(()) => {},
            }
            previous = Some(entries[i].name.clone());
            i += 1;
        }
        assert(all.take(i as int) =~= all);
        Ok(())
    }
}

/// A failure at a prefix of a page is the failure of the page.
proof fn entry_failure_counts(
    walk: WalkView,
    directory: RemoteDirectoryView,
    cursor: Option<Seq<char>>,
    entries: Seq<SyncEntryView>,
    n: int,
)
    requires
        0 <= n <= entries.len(),
        entries_taken(walk, directory, cursor, entries.take(n)) is Err,
    ensures
        entries_taken(walk, directory, cursor, entries) == entries_taken(
            walk,
            directory,
            cursor,
            entries.take(n),
        ),
    decreases entries.len() - n,
{
    if n < entries.len() {
        assert(entries.take(n + 1).drop_last() =~= entries.take(n));
        entry_failure_counts(walk, directory, cursor, entries, n + 1);
    } else {
        assert(entries.take(n) =~= entries);
    }
}

/// Takes a name in a directory: one component, and acceptable as a path.
pub fn parse_device_entry_name(name: &str) -> (result: Result<LogicalSyncPath, CliError>)
    ensures
        match name_refusal(name@) {
            None => result matches Ok(parsed) && parsed.wf() && parsed@ == name@,
            Some(refusal) => result matches Err(error) && error@ == refusal,
        },
{
    match LogicalSyncPath::parse(name.to_owned()) {
        Err(reason) => Err(CliError::InvalidDeviceSyncPath { path: name.to_owned(), reason }),
        Ok(parsed) => {
            if contains_char(parsed.as_str(), '/') {
                Err(
                    CliError::InvalidDeviceSyncPath {
                        path: name.to_owned(),
                        reason: "directory entry names must contain one component".to_owned(),
                    },
                )
            } else {
                Ok(parsed)
            }
        },
    }
}

/// Joins a name below a directory on the device.
fn join_device_logical_path(root: &LogicalSyncPath, name: &str) -> (result: Result<
    LogicalSyncPath,
    CliError,
>)
    ensures
        ({
            let full = path::joined(root@, name@);
            match logical_path::refusal(full) {
                None => result matches Ok(parsed) && parsed.wf() && parsed@ == full,
                Some(reason) => result matches Err(error) && error@ == (
                CliErrorView::InvalidDeviceSyncPath { path: full, reason }),
            }
        }),
{
    let full = join(root.as_str(), name);
    match LogicalSyncPath::parse(full.clone()) {
        Ok(parsed) => Ok(parsed),
        Err(reason) => Err(CliError::InvalidDeviceSyncPath { path: full, reason }),
    }
}

/// A directory that is being listed, with the last name of the last page.
struct Listing {
    directory: RemoteDirectory,
    cursor: Option<String>,
}

spec fn listing_view(listing: Option<Listing>) -> Option<
    (RemoteDirectoryView, Option<Seq<char>>),
> {
    match listing {
        Some(value) => Some((value.directory@, text::optional(value.cursor))),
        None => None,
    }
}

proof fn current_is_carried(
    walk: WalkView,
    current: Option<(RemoteDirectoryView, Option<Seq<char>>)>,
    directory: RemoteDirectoryView,
    cursor: Option<Seq<char>>,
    entries: Seq<SyncEntryView>,
)
    ensures
        entries_taken(WalkView { current, ..walk }, directory, cursor, entries) == (
        match entries_taken(walk, directory, cursor, entries) {
            Ok(after) => Ok(WalkView { current, ..after }),
            Err(error) => Err(error),
        }),
    decreases entries.len(),
{
    if entries.len() > 0 {
        current_is_carried(walk, current, directory, cursor, entries.drop_last());
    }
}

impl TreeWalk {
    /// Takes a page of a directory: what is listed next of it, if there is more.
    fn take_page(&mut self, listing: Listing, page: &SyncListResult) -> (result: Result<
        Option<Listing>,
        CliError,
    >)
        requires
            old(self).wf(),
            listing.directory.remote_path.wf(),
        ensures
            match page_taken(old(self).at(listing_view(Some(listing))), page@) {
                Ok(after) => {
                    &&& result matches Ok(next)
                    &&& final(self).wf()
                    &&& final(self).at(listing_view(next)) == after
                    &&& final(self).left() <= old(self).left()
                    &&& next matches Some(more) ==> more.directory.remote_path.wf()
                        && final(self).left() < old(self).left()
                },
                Err(failure) => result matches Err(error) && error@ == failure,
            },
    {
        let ghost current = listing_view(Some(listing));
        if !same_text(page.remote_path.as_str(), listing.directory.remote_path.as_str()) {
            return Err(invalid_result("sync directory list path"));
        }
        if page.entries.len() > LIST_PAGE as usize || (page.next_cursor.is_some()
            && page.entries.len() != LIST_PAGE as usize) {
            return Err(invalid_result("sync directory list page"));
        }
        proof {
            current_is_carried(
                self.at(None),
                current,
                listing.directory@,
                text::optional(listing.cursor),
                page@.entries,
            );
            assert(self.at(current) == (WalkView { current, ..self.at(None) }));
        }
        self.take_entries(&listing.directory, &listing.cursor, &page.entries)?;
        match &page.next_cursor {
            None => {
                assert(self.at(None) == (WalkView { current: None, ..self.at(current) }));
                Ok(None)
            },
            Some(next) => {
                let cursor = parse_device_entry_name(next.as_str())?;
                let last: usize = page.entries.len() - 1;
                assert(page@.entries.last() == page.entries@[last as int]@);
                if !same_text(page.entries[last].name.as_str(), cursor.as_str()) {
                    return Err(invalid_result("sync directory list cursor"));
                }
                Ok(
                    Some(
                        Listing {
                            directory: listing.directory,
                            cursor: Some(cursor.as_str().to_owned()),
                        },
                    ),
                )
            },
        }
    }

    /// What the walk has found, in ascending order.
    fn finish(self) -> (manifest: RemoteTreeManifest)
        ensures
            lists(manifest, self.at(None)),
    {
        let directories = sort_by_text(self.directories);
        let files = sort_by_text(self.files);
        proof {
            same_directories(directories@, self.directories@);
            same_files(files@, self.files@);
        }
        RemoteTreeManifest { directories, files }
    }
}

proof fn same_directories(left: Seq<RemoteDirectory>, right: Seq<RemoteDirectory>)
    requires
        left.to_multiset() == right.to_multiset(),
    ensures
        left.len() == right.len(),
        forall|item: RemoteDirectoryView| #[trigger]
            directory_views(left).contains(item) <==> directory_views(right).contains(item),
{
    broadcast use vstd::seq_lib::group_to_multiset_ensures;

    assert(left.to_multiset().len() == left.len());
    assert(right.to_multiset().len() == right.len());
    assert forall|item: RemoteDirectoryView| #[trigger]
        directory_views(left).contains(item) <==> directory_views(right).contains(item) by {
        if directory_views(left).contains(item) {
            let i = choose|i: int|
                0 <= i < directory_views(left).len() && directory_views(left)[i] == item;
            assert(left.contains(left[i]));
            assert(right.to_multiset().count(left[i]) > 0);
            assert(right.contains(left[i]));
            let j = choose|j: int| 0 <= j < right.len() && right[j] == left[i];
            assert(directory_views(right)[j] == item);
        }
        if directory_views(right).contains(item) {
            let i = choose|i: int|
                0 <= i < directory_views(right).len() && directory_views(right)[i] == item;
            assert(right.contains(right[i]));
            assert(left.to_multiset().count(right[i]) > 0);
            assert(left.contains(right[i]));
            let j = choose|j: int| 0 <= j < left.len() && left[j] == right[i];
            assert(directory_views(left)[j] == item);
        }
    }
}

proof fn same_files(left: Seq<RemoteFile>, right: Seq<RemoteFile>)
    requires
        left.to_multiset() == right.to_multiset(),
    ensures
        left.len() == right.len(),
        forall|item: RemoteFileView| #[trigger]
            file_views(left).contains(item) <==> file_views(right).contains(item),
{
    broadcast use vstd::seq_lib::group_to_multiset_ensures;

    assert(left.to_multiset().len() == left.len());
    assert(right.to_multiset().len() == right.len());
    assert forall|item: RemoteFileView| #[trigger]
        file_views(left).contains(item) <==> file_views(right).contains(item) by {
        if file_views(left).contains(item) {
            let i = choose|i: int| 0 <= i < file_views(left).len() && file_views(left)[i] == item;
            assert(left.contains(left[i]));
            assert(right.to_multiset().count(left[i]) > 0);
            assert(right.contains(left[i]));
            let j = choose|j: int| 0 <= j < right.len() && right[j] == left[i];
            assert(file_views(right)[j] == item);
        }
        if file_views(right).contains(item) {
            let i = choose|i: int|
                0 <= i < file_views(right).len() && file_views(right)[i] == item;
            assert(right.contains(right[i]));
            assert(left.to_multiset().count(right[i]) > 0);
            assert(left.contains(right[i]));
            let j = choose|j: int| 0 <= j < left.len() && left[j] == right[i];
            assert(file_views(left)[j] == item);
        }
    }
}

/// Whether a directory tree was collected so, in the course of some requests.
pub open spec fn collects(
    before: Seq<Exchange>,
    after: Seq<Exchange>,
    root: Seq<char>,
    serial: Seq<char>,
    result: Result<RemoteTreeManifest, CliError>,
) -> bool {
    exists|new: Seq<Exchange>| after == before + new && #[trigger] collected(root, serial, new, result)
}

/// Lists everything below a directory on a device, page by page. What the device
/// sends is checked: the pages, the order of the names, the paths, and that no
/// two of them differ in case only.
pub fn collect_remote_tree<C: RpcCaller>(
    caller: &mut C,
    serial: &String,
    remote_root: &LogicalSyncPath,
) -> (result: Result<RemoteTreeManifest, CliError>)
    requires
        remote_root.wf(),
    ensures
        collects(
            old(caller).exchanges(),
            final(caller).exchanges(),
            remote_root@,
            serial@,
            result,
        ),
{
    let ghost begun = caller.exchanges();
    let ghost mut new: Seq<Exchange> = Seq::empty();
    let mut walk = TreeWalk::start(remote_root);
    let mut current: Option<Listing> = None;
    assert(begun + new =~= begun);
    while current.is_some() || walk.pending.len() > 0
        invariant
            walk.wf(),
            current matches Some(listing) ==> listing.directory.remote_path.wf(),
            caller.exchanges() == begun + new,
            begun == old(caller).exchanges(),
            walked(walk_from(remote_root@), serial@, new) == Some(
                Ok::<_, CliErrorView>(walk.at(listing_view(current))),
            ),
        decreases walk.left() + if current is Some {
            1int
        } else {
            0int
        },
    {
        let ghost before = walk.at(listing_view(current));
        let listing = match current {
            Some(listing) => listing,
            None => {
                let ghost pending = walk.pending@;
                match walk.pending.pop() {
                    Some(directory) => {
                        assert(directory_views(walk.pending@) =~= directory_views(
                            pending,
                        ).drop_last());
                        assert(directory == pending[pending.len() - 1]);
                        Listing { directory, cursor: None }
                    },
                    None => {
                        current = None;
                        continue;
                    },
                }
            },
        };
        let ghost at_hand = walk.at(listing_view(Some(listing)));
        assert(at_hand =~= resumed(before));
        let params = SyncListParams {
            serial: serial.clone(),
            remote_path: listing.directory.remote_path.as_str().to_owned(),
            cursor: clone_optional(&listing.cursor),
            limit: LIST_PAGE,
        };
        let ghost call = RpcCallView::SyncList(params@);
        assert(call == page_call(at_hand, serial@));
        let asked = ask(caller, RpcCall::SyncList(params));
        let ghost reply = execute::answer_of(asked);
        let ghost exchange = Exchange { call, reply };
        proof {
            assert(new.push(exchange).drop_last() =~= new);
            assert(begun + new.push(exchange) =~= (begun + new).push(exchange));
            new = new.push(exchange);
            assert(caller.exchanges() == begun + new);
            assert(walked(walk_from(remote_root@), serial@, new) == Some(
                answer_taken(at_hand, reply),
            ));
        }
        let answer = match asked {
            Ok(answer) => answer,
            Err(error) => {
                let result: Result<RemoteTreeManifest, CliError> = Err(error);
                assert(collected(remote_root@, serial@, new, result));
                return result;
            },
        };
        let page = match answer.result {
            CallResult::SyncList(page) => page,
            _ => {
                let result: Result<RemoteTreeManifest, CliError> = Err(
                    invalid_result("sync directory list"),
                );
                assert(collected(remote_root@, serial@, new, result));
                return result;
            },
        };
        match walk.take_page(listing, &page) {
            Ok(next) => {
                current = next;
            },
            Err(error) => {
                let result: Result<RemoteTreeManifest, CliError> = Err(error);
                assert(collected(remote_root@, serial@, new, result));
                return result;
            },
        }
    }
    let ghost end = walk.at(None);
    assert(end == walk.at(listing_view(current)));
    let result: Result<RemoteTreeManifest, CliError> = Ok(walk.finish());
    assert(resumed(end).current is None);
    assert(collected(remote_root@, serial@, new, result));
    result
}

/// Whether a directory or file is where its path below the root says, and may be
/// there.
pub open spec fn placed(root: Seq<char>, remote_path: Seq<char>, relative_path: Seq<char>) -> bool {
    &&& remote_path == local_tree::below(root, relative_path)
    &&& logical_path::refusal(remote_path) is None
}

/// Whether a device can tell two paths apart, whose letter case it ignores.
pub open spec fn apart(left: Seq<char>, right: Seq<char>) -> bool {
    logical_path::fold(left) != logical_path::fold(right)
}

/// What holds of a walk at any time.
spec fn sound(walk: WalkView) -> bool {
    &&& walk.directories.len() >= 1
    &&& walk.directories[0].relative_path.len() == 0
    &&& walk.directories.len() - 1 + walk.files.len() <= MAX_SYNC_TREE_ENTRIES
    &&& forall|i: int|
        0 <= i < walk.directories.len() ==> placed(
            walk.root,
            (#[trigger] walk.directories[i]).remote_path,
            walk.directories[i].relative_path,
        ) && walk.registered.contains(walk.directories[i].remote_path)
    &&& forall|i: int|
        0 <= i < walk.files.len() ==> placed(
            walk.root,
            (#[trigger] walk.files[i]).remote_path,
            walk.files[i].relative_path,
        ) && walk.registered.contains(walk.files[i].remote_path)
    &&& forall|i: int, j: int|
        0 <= i < j < walk.directories.len() ==> apart(
            (#[trigger] walk.directories[i]).remote_path,
            (#[trigger] walk.directories[j]).remote_path,
        )
    &&& forall|i: int, j: int|
        0 <= i < j < walk.files.len() ==> apart(
            (#[trigger] walk.files[i]).remote_path,
            (#[trigger] walk.files[j]).remote_path,
        )
    &&& forall|i: int, j: int|
        0 <= i < walk.directories.len() && 0 <= j < walk.files.len() ==> apart(
            (#[trigger] walk.directories[i]).remote_path,
            (#[trigger] walk.files[j]).remote_path,
        )
    &&& forall|i: int|
        0 <= i < walk.pending.len() ==> placed(
            walk.root,
            (#[trigger] walk.pending[i]).remote_path,
            walk.pending[i].relative_path,
        )
    &&& walk.current matches Some((directory, _)) ==> placed(
        walk.root,
        directory.remote_path,
        directory.relative_path,
    )
}

proof fn names_are_not_empty(name: Seq<char>)
    requires
        name_refusal(name) is None,
    ensures
        name.len() > 0,
{
    if name.len() == 0 {
        let pieces = path::split(name, '/');
        assert(pieces.len() > 0);
        assert(path::is_component(pieces[0]));
    }
}

proof fn children_are_placed(root: Seq<char>, directory: RemoteDirectoryView, name: Seq<char>)
    requires
        directory.remote_path == local_tree::below(root, directory.relative_path),
        name.len() > 0,
    ensures
        path::joined(directory.remote_path, name) == local_tree::below(
            root,
            local_tree::relative_path(directory.relative_path, name),
        ),
{
    if directory.relative_path.len() > 0 {
        assert(path::joined(path::joined(root, directory.relative_path), name) =~= path::joined(
            root,
            path::joined(directory.relative_path, name),
        ));
    }
}

proof fn entry_keeps_sound(
    walk: WalkView,
    directory: RemoteDirectoryView,
    previous: Option<Seq<char>>,
    entry: SyncEntryView,
)
    requires
        sound(walk),
        placed(walk.root, directory.remote_path, directory.relative_path),
        entry_taken(walk, directory, previous, entry) is Ok,
    ensures
        sound(entry_taken(walk, directory, previous, entry)->Ok_0),
        entry_taken(walk, directory, previous, entry)->Ok_0.root == walk.root,
{
    let after = entry_taken(walk, directory, previous, entry)->Ok_0;
    let full = path::joined(directory.remote_path, entry.name);
    names_are_not_empty(entry.name);
    children_are_placed(walk.root, directory, entry.name);
    assert forall|path: Seq<char>| #[trigger] walk.registered.contains(path) implies apart(
        path,
        full,
    ) && after.registered.contains(path) by {
        let i = choose|i: int| 0 <= i < walk.registered.len() && walk.registered[i] == path;
        if logical_path::fold(walk.registered[i]) == logical_path::fold(full) {
            local_tree::colliding_at(walk.registered, full, i);
        }
        assert(after.registered[i] == path);
    }
    assert(after.registered.last() == full);
    assert(after.registered.contains(full));
}

proof fn entries_keep_sound(
    walk: WalkView,
    directory: RemoteDirectoryView,
    cursor: Option<Seq<char>>,
    entries: Seq<SyncEntryView>,
)
    requires
        sound(walk),
        placed(walk.root, directory.remote_path, directory.relative_path),
        entries_taken(walk, directory, cursor, entries) is Ok,
    ensures
        sound(entries_taken(walk, directory, cursor, entries)->Ok_0),
        entries_taken(walk, directory, cursor, entries)->Ok_0.root == walk.root,
    decreases entries.len(),
{
    if entries.len() > 0 {
        entries_keep_sound(walk, directory, cursor, entries.drop_last());
        entry_keeps_sound(
            entries_taken(walk, directory, cursor, entries.drop_last())->Ok_0,
            directory,
            name_before(entries, cursor, entries.len() - 1),
            entries.last(),
        );
    }
}

proof fn walks_are_sound(root: Seq<char>, serial: Seq<char>, exchanges: Seq<Exchange>)
    requires
        logical_path::refusal(root) is None,
        walked(walk_from(root), serial, exchanges) matches Some(Ok(_)),
    ensures
        sound(walked(walk_from(root), serial, exchanges)->Some_0->Ok_0),
        walked(walk_from(root), serial, exchanges)->Some_0->Ok_0.root == root,
    decreases exchanges.len(),
{
    if exchanges.len() == 0 {
        let walk = walk_from(root);
        assert(walk.registered[0] == root);
        assert(walk.registered.contains(root));
    } else {
        walks_are_sound(root, serial, exchanges.drop_last());
        let before = walked(walk_from(root), serial, exchanges.drop_last())->Some_0->Ok_0;
        let at_hand = resumed(before);
        assert(sound(at_hand));
        let page = exchanges.last().reply->Ok_0.result->SyncList_0;
        let directory = at_hand.current->Some_0.0;
        entries_keep_sound(at_hand, directory, at_hand.current->Some_0.1, page.entries);
    }
}

proof fn same_items_same_count<T>(left: Seq<T>, right: Seq<T>)
    requires
        left.len() == right.len(),
        right.no_duplicates(),
        forall|item: T| #[trigger] left.contains(item) <==> right.contains(item),
    ensures
        left.no_duplicates(),
{
    right.unique_seq_to_set();
    assert(left.to_set() =~= right.to_set()) by {
        assert forall|item: T| left.to_set().contains(item) <==> right.to_set().contains(item) by {
            assert(left.contains(item) <==> right.contains(item));
        }
    }
    left.lemma_no_dup_set_cardinality();
}

/// A collected tree begins with its root and has at most the set number of entries
/// below it. Its directories and its files ascend strictly, each lies where its path
/// below the root says, and no two of them have paths that differ in letter case only.
pub proof fn collected_trees_are_in_order(
    root: Seq<char>,
    serial: Seq<char>,
    exchanges: Seq<Exchange>,
    manifest: RemoteTreeManifest,
)
    requires
        logical_path::refusal(root) is None,
        collected(root, serial, exchanges, Ok(manifest)),
    ensures
        ({
            let directories = directory_views(manifest.directories@);
            let files = file_views(manifest.files@);
            &&& directories.len() >= 1
            &&& directories[0] == (RemoteDirectoryView {
                remote_path: root,
                relative_path: Seq::empty(),
            })
            &&& directories.len() - 1 + files.len() <= MAX_SYNC_TREE_ENTRIES
            &&& forall|i: int|
                0 <= i < directories.len() ==> placed(
                    root,
                    (#[trigger] directories[i]).remote_path,
                    directories[i].relative_path,
                )
            &&& forall|i: int|
                0 <= i < files.len() ==> placed(
                    root,
                    (#[trigger] files[i]).remote_path,
                    files[i].relative_path,
                )
            &&& forall|i: int, j: int|
                0 <= i < j < directories.len() ==> text::before(
                    (#[trigger] directories[i]).relative_path,
                    (#[trigger] directories[j]).relative_path,
                ) && apart(directories[i].remote_path, directories[j].remote_path)
            &&& forall|i: int, j: int|
                0 <= i < j < files.len() ==> text::before(
                    (#[trigger] files[i]).relative_path,
                    (#[trigger] files[j]).relative_path,
                ) && apart(files[i].remote_path, files[j].remote_path)
            &&& forall|i: int, j: int|
                0 <= i < directories.len() && 0 <= j < files.len() ==> apart(
                    (#[trigger] directories[i]).remote_path,
                    (#[trigger] files[j]).remote_path,
                )
        }),
{
    let walk = walked(walk_from(root), serial, exchanges)->Some_0->Ok_0;
    let directories = directory_views(manifest.directories@);
    let files = file_views(manifest.files@);
    walks_are_sound(root, serial, exchanges);
    assert(walk.directories.no_duplicates());
    assert(walk.files.no_duplicates());
    same_items_same_count(directories, walk.directories);
    same_items_same_count(files, walk.files);
    assert forall|i: int| 0 <= i < directories.len() implies walk.directories.contains(
        #[trigger] directories[i],
    ) by {
        assert(directories.contains(directories[i]));
    }
    assert forall|i: int| 0 <= i < files.len() implies walk.files.contains(
        #[trigger] files[i],
    ) by {
        assert(files.contains(files[i]));
    }
    assert forall|i: int, j: int| 0 <= i < j < directories.len() implies text::before(
        (#[trigger] directories[i]).relative_path,
        (#[trigger] directories[j]).relative_path,
    ) && apart(directories[i].remote_path, directories[j].remote_path) by {
        assert(directories[i] == manifest.directories@[i]@);
        assert(directories[j] == manifest.directories@[j]@);
        text::before_total(directories[i].relative_path, directories[j].relative_path);
        let a = choose|a: int| 0 <= a < walk.directories.len() && walk.directories[a]
            == directories[i];
        let b = choose|b: int| 0 <= b < walk.directories.len() && walk.directories[b]
            == directories[j];
        assert(a != b);
        if a < b {
            assert(apart(walk.directories[a].remote_path, walk.directories[b].remote_path));
        } else {
            assert(apart(walk.directories[b].remote_path, walk.directories[a].remote_path));
        }
    }
    assert forall|i: int, j: int| 0 <= i < j < files.len() implies text::before(
        (#[trigger] files[i]).relative_path,
        (#[trigger] files[j]).relative_path,
    ) && apart(files[i].remote_path, files[j].remote_path) by {
        assert(files[i] == manifest.files@[i]@);
        assert(files[j] == manifest.files@[j]@);
        text::before_total(files[i].relative_path, files[j].relative_path);
        let a = choose|a: int| 0 <= a < walk.files.len() && walk.files[a] == files[i];
        let b = choose|b: int| 0 <= b < walk.files.len() && walk.files[b] == files[j];
        assert(a != b);
        if a < b {
            assert(apart(walk.files[a].remote_path, walk.files[b].remote_path));
        } else {
            assert(apart(walk.files[b].remote_path, walk.files[a].remote_path));
        }
    }
    assert forall|i: int, j: int| 0 <= i < directories.len() && 0 <= j < files.len() implies apart(
        (#[trigger] directories[i]).remote_path,
        (#[trigger] files[j]).remote_path,
    ) by {
        let a = choose|a: int| 0 <= a < walk.directories.len() && walk.directories[a]
            == directories[i];
        let b = choose|b: int| 0 <= b < walk.files.len() && walk.files[b] == files[j];
        assert(apart(walk.directories[a].remote_path, walk.files[b].remote_path));
    }
    assert(directories.contains(walk.directories[0]));
    let k = choose|k: int| 0 <= k < directories.len() && directories[k] == walk.directories[0];
    if k > 0 {
        assert(text::before(directories[0].relative_path, directories[k].relative_path));
    }
    assert(directories[0].relative_path =~= Seq::empty());
}

/// The page that an answer brought.
pub open spec fn page_of(exchange: Exchange) -> SyncListResultView {
    exchange.reply->Ok_0.result->SyncList_0
}

/// Whether a walk has found an entry of a directory, as what it is.
pub open spec fn found(walk: WalkView, directory: Seq<char>, entry: SyncEntryView) -> bool {
    match entry.kind {
        SyncEntryKind::Directory => exists|i: int|
            0 <= i < walk.directories.len() && (#[trigger] walk.directories[i]).remote_path
                == path::joined(directory, entry.name),
        SyncEntryKind::File => exists|i: int|
            0 <= i < walk.files.len() && (#[trigger] walk.files[i]).remote_path == path::joined(
                directory,
                entry.name,
            ) && walk.files[i].size == entry.size,
    }
}

/// Whether a directory has been listed to its end.
pub open spec fn listed_to_the_end(exchanges: Seq<Exchange>, directory: Seq<char>) -> bool {
    exists|k: int|
        0 <= k < exchanges.len() && page_of(#[trigger] exchanges[k]).remote_path == directory
            && page_of(exchanges[k]).next_cursor is None
}

/// Whether what one walk has found or has still to list, another has too, and whatever
/// else the other has found it has still to list.
spec fn goes_on(before: WalkView, after: WalkView) -> bool {
    &&& before.directories.len() <= after.directories.len()
    &&& before.files.len() <= after.files.len()
    &&& before.pending.len() <= after.pending.len()
    &&& forall|i: int|
        0 <= i < before.directories.len() ==> #[trigger] after.directories[i]
            == before.directories[i]
    &&& forall|i: int|
        0 <= i < before.files.len() ==> #[trigger] after.files[i] == before.files[i]
    &&& forall|i: int|
        0 <= i < before.pending.len() ==> #[trigger] after.pending[i] == before.pending[i]
    &&& forall|i: int|
        before.directories.len() <= i < after.directories.len() ==> after.pending.contains(
            #[trigger] after.directories[i],
        )
    &&& after.current == before.current
}

proof fn found_stays(before: WalkView, after: WalkView, directory: Seq<char>, entry: SyncEntryView)
    requires
        before.directories.len() <= after.directories.len(),
        before.files.len() <= after.files.len(),
        forall|i: int|
            0 <= i < before.directories.len() ==> #[trigger] after.directories[i]
                == before.directories[i],
        forall|i: int|
            0 <= i < before.files.len() ==> #[trigger] after.files[i] == before.files[i],
        found(before, directory, entry),
    ensures
        found(after, directory, entry),
{
    let full = path::joined(directory, entry.name);
    match entry.kind {
        SyncEntryKind::Directory => {
            let i = choose|i: int|
                0 <= i < before.directories.len() && (#[trigger] before.directories[i]).remote_path
                    == full;
            assert(after.directories[i].remote_path == full);
        },
        SyncEntryKind::File => {
            let i = choose|i: int|
                0 <= i < before.files.len() && (#[trigger] before.files[i]).remote_path == full
                    && before.files[i].size == entry.size;
            assert(after.files[i].remote_path == full);
        },
    }
}

proof fn taken_entry_is_found(
    walk: WalkView,
    directory: RemoteDirectoryView,
    previous: Option<Seq<char>>,
    entry: SyncEntryView,
)
    requires
        entry_taken(walk, directory, previous, entry) is Ok,
    ensures
        goes_on(walk, entry_taken(walk, directory, previous, entry)->Ok_0),
        found(
            entry_taken(walk, directory, previous, entry)->Ok_0,
            directory.remote_path,
            entry,
        ),
{
    let after = entry_taken(walk, directory, previous, entry)->Ok_0;
    match entry.kind {
        SyncEntryKind::Directory => {
            let last = walk.directories.len() as int;
            assert(after.directories[last].remote_path == path::joined(
                directory.remote_path,
                entry.name,
            ));
            assert(after.pending.last() == after.directories[last]);
        },
        SyncEntryKind::File => {
            assert(after.files[walk.files.len() as int].size == entry.size);
        },
    }
}

proof fn taken_entries_are_found(
    walk: WalkView,
    directory: RemoteDirectoryView,
    cursor: Option<Seq<char>>,
    entries: Seq<SyncEntryView>,
)
    requires
        entries_taken(walk, directory, cursor, entries) is Ok,
    ensures
        goes_on(walk, entries_taken(walk, directory, cursor, entries)->Ok_0),
        forall|i: int|
            0 <= i < entries.len() ==> found(
                entries_taken(walk, directory, cursor, entries)->Ok_0,
                directory.remote_path,
                #[trigger] entries[i],
            ),
    decreases entries.len(),
{
    if entries.len() > 0 {
        let head = entries.drop_last();
        taken_entries_are_found(walk, directory, cursor, head);
        let before = entries_taken(walk, directory, cursor, head)->Ok_0;
        let previous = name_before(entries, cursor, entries.len() - 1);
        taken_entry_is_found(before, directory, previous, entries.last());
        let after = entries_taken(walk, directory, cursor, entries)->Ok_0;
        assert forall|i: int| 0 <= i < entries.len() implies found(
            after,
            directory.remote_path,
            #[trigger] entries[i],
        ) by {
            if i < head.len() {
                assert(head[i] == entries[i]);
                found_stays(before, after, directory.remote_path, entries[i]);
            }
        }
        assert forall|i: int|
            walk.directories.len() <= i < after.directories.len() implies after.pending.contains(
            #[trigger] after.directories[i],
        ) by {
            if i < before.directories.len() {
                assert(after.directories[i] == before.directories[i]);
                assert(before.pending.contains(before.directories[i]));
                let j = choose|j: int|
                    0 <= j < before.pending.len() && before.pending[j] == before.directories[i];
                assert(after.pending[j] == before.pending[j]);
            }
        }
    }
}

/// Whether a directory of a walk is still to be listed, is being listed, or has been
/// listed to its end.
spec fn seen_to(walk: WalkView, exchanges: Seq<Exchange>, directory: RemoteDirectoryView) -> bool {
    ||| walk.pending.contains(directory)
    ||| walk.current is Some && walk.current->Some_0.0 == directory
    ||| listed_to_the_end(exchanges, directory.remote_path)
}

proof fn walks_leave_nothing_out(root: Seq<char>, serial: Seq<char>, exchanges: Seq<Exchange>)
    requires
        walked(walk_from(root), serial, exchanges) matches Some(Ok(_)),
    ensures
        ({
            let walk = walked(walk_from(root), serial, exchanges)->Some_0->Ok_0;
            &&& forall|k: int, i: int|
                0 <= k < exchanges.len() && 0 <= i < page_of(exchanges[k]).entries.len() ==> found(
                    walk,
                    page_of(exchanges[k]).remote_path,
                    #[trigger] page_of(exchanges[k]).entries[i],
                )
            &&& forall|i: int|
                0 <= i < walk.directories.len() ==> seen_to(
                    walk,
                    exchanges,
                    #[trigger] walk.directories[i],
                )
        }),
    decreases exchanges.len(),
{
    let walk = walked(walk_from(root), serial, exchanges)->Some_0->Ok_0;
    if exchanges.len() == 0 {
        assert(walk.pending[0] == walk.directories[0]);
        assert(walk.pending.contains(walk.directories[0]));
    } else {
        let head = exchanges.drop_last();
        let last = exchanges.len() - 1;
        walks_leave_nothing_out(root, serial, head);
        let before = walked(walk_from(root), serial, head)->Some_0->Ok_0;
        let at_hand = resumed(before);
        let page = page_of(exchanges.last());
        let directory = at_hand.current->Some_0.0;
        let cursor = at_hand.current->Some_0.1;
        taken_entries_are_found(at_hand, directory, cursor, page.entries);
        let taken = entries_taken(at_hand, directory, cursor, page.entries)->Ok_0;
        assert(exchanges[last] == exchanges.last());
        assert(walk.directories == taken.directories && walk.files == taken.files
            && walk.pending == taken.pending);
        assert forall|k: int, i: int|
            0 <= k < exchanges.len() && 0 <= i < page_of(exchanges[k]).entries.len() implies found(
            walk,
            page_of(exchanges[k]).remote_path,
            #[trigger] page_of(exchanges[k]).entries[i],
        ) by {
            if k < last {
                assert(head[k] == exchanges[k]);
                assert(found(
                    before,
                    page_of(head[k]).remote_path,
                    page_of(head[k]).entries[i],
                ));
                found_stays(
                    before,
                    walk,
                    page_of(exchanges[k]).remote_path,
                    page_of(exchanges[k]).entries[i],
                );
            } else {
                let entry = page.entries[i];
                assert(found(taken, directory.remote_path, entry));
                found_stays(taken, walk, directory.remote_path, entry);
            }
        }
        assert forall|i: int| 0 <= i < walk.directories.len() implies seen_to(
            walk,
            exchanges,
            #[trigger] walk.directories[i],
        ) by {
            let item = walk.directories[i];
            if i < at_hand.directories.len() {
                assert(item == before.directories[i]);
                assert(seen_to(before, head, before.directories[i]));
                if before.pending.contains(item) {
                    let j = choose|j: int| 0 <= j < before.pending.len() && before.pending[j] == item;
                    if j < at_hand.pending.len() {
                        assert(at_hand.pending[j] == item);
                        assert(walk.pending[j] == item);
                    } else {
                        assert(directory == item);
                    }
                }
                if listed_to_the_end(head, item.remote_path) {
                    let k = choose|k: int|
                        0 <= k < head.len() && page_of(#[trigger] head[k]).remote_path
                            == item.remote_path && page_of(head[k]).next_cursor is None;
                    assert(exchanges[k] == head[k]);
                }
                if directory == item && page.next_cursor is None {
                    assert(page_of(exchanges[last]).remote_path == item.remote_path);
                }
            } else {
                assert(taken.pending.contains(taken.directories[i]));
            }
        }
    }
}

/// A collected tree leaves nothing out: every entry of every page that the device sent
/// is in it, a file with its size, and every directory in it was listed to its end.
pub proof fn collected_trees_are_complete(
    root: Seq<char>,
    serial: Seq<char>,
    exchanges: Seq<Exchange>,
    manifest: RemoteTreeManifest,
)
    requires
        collected(root, serial, exchanges, Ok(manifest)),
    ensures
        ({
            let directories = directory_views(manifest.directories@);
            let files = file_views(manifest.files@);
            &&& forall|k: int, i: int|
                0 <= k < exchanges.len() && 0 <= i < page_of(exchanges[k]).entries.len() ==> {
                    let entry = #[trigger] page_of(exchanges[k]).entries[i];
                    let full = path::joined(page_of(exchanges[k]).remote_path, entry.name);
                    match entry.kind {
                        SyncEntryKind::Directory => exists|item: RemoteDirectoryView|
                            #[trigger] directories.contains(item) && item.remote_path == full,
                        SyncEntryKind::File => exists|item: RemoteFileView|
                            #[trigger] files.contains(item) && item.remote_path == full && item.size
                                == entry.size,
                    }
                }
            &&& forall|item: RemoteDirectoryView| #[trigger]
                directories.contains(item) ==> listed_to_the_end(exchanges, item.remote_path)
        }),
{
    let walk = walked(walk_from(root), serial, exchanges)->Some_0->Ok_0;
    let directories = directory_views(manifest.directories@);
    let files = file_views(manifest.files@);
    walks_leave_nothing_out(root, serial, exchanges);
    assert forall|k: int, i: int|
        0 <= k < exchanges.len() && 0 <= i < page_of(exchanges[k]).entries.len() implies {
        let entry = #[trigger] page_of(exchanges[k]).entries[i];
        let full = path::joined(page_of(exchanges[k]).remote_path, entry.name);
        match entry.kind {
            SyncEntryKind::Directory => exists|item: RemoteDirectoryView|
                #[trigger] directories.contains(item) && item.remote_path == full,
            SyncEntryKind::File => exists|item: RemoteFileView|
                #[trigger] files.contains(item) && item.remote_path == full && item.size
                    == entry.size,
        }
    } by {
        let entry = page_of(exchanges[k]).entries[i];
        let full = path::joined(page_of(exchanges[k]).remote_path, entry.name);
        assert(found(walk, page_of(exchanges[k]).remote_path, entry));
        match entry.kind {
            SyncEntryKind::Directory => {
                let j = choose|j: int|
                    0 <= j < walk.directories.len() && (#[trigger] walk.directories[j]).remote_path
                        == full;
                assert(walk.directories.contains(walk.directories[j]));
                assert(directories.contains(walk.directories[j]));
            },
            SyncEntryKind::File => {
                let j = choose|j: int|
                    0 <= j < walk.files.len() && (#[trigger] walk.files[j]).remote_path == full
                        && walk.files[j].size == entry.size;
                assert(walk.files.contains(walk.files[j]));
                assert(files.contains(walk.files[j]));
            },
        }
    }
    assert forall|item: RemoteDirectoryView| #[trigger] directories.contains(
        item,
    ) implies listed_to_the_end(exchanges, item.remote_path) by {
        assert(walk.directories.contains(item));
        let j = choose|j: int| 0 <= j < walk.directories.len() && walk.directories[j] == item;
        assert(seen_to(walk, exchanges, walk.directories[j]));
    }
}

/// The pages of a directory follow each other: after one with more behind it the next
/// is asked for behind its last name, and otherwise another directory is begun. Every
/// request goes to the same device.
pub proof fn pages_follow_each_other(root: Seq<char>, serial: Seq<char>, exchanges: Seq<Exchange>)
    requires
        exchanges.len() >= 2,
        walked(walk_from(root), serial, exchanges) is Some,
    ensures
        ({
            let last = exchanges[exchanges.len() - 1].call;
            let page = page_of(exchanges[exchanges.len() - 2]);
            &&& last matches RpcCallView::SyncList(params) && params.serial == serial && match
                page.next_cursor {
                Some(next) => params.remote_path == page.remote_path && params.cursor == Some(next)
                    && page.entries.last().name == next,
                None => params.cursor is None,
            }
        }),
{
    let head = exchanges.drop_last();
    assert(head.last() == exchanges[exchanges.len() - 2]);
    assert(walked(walk_from(root), serial, head) is Some);
}

} // verus!
