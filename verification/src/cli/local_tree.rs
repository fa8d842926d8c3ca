//! Local directory trees on their way to a device.

use crate::cli::error::{CliError, CliErrorView};
use crate::logical_path;
use crate::logical_path::LogicalSyncPath;
use crate::path;
use crate::path::join;
use crate::sorting;
use crate::sorting::{sort_by_text, ByText};
use crate::table::Table;
use crate::text;
use crate::text::concat;
use vstd::prelude::*;

verus! {

/// The largest number of entries of a tree.
pub const MAX_SYNC_TREE_ENTRIES: usize = 100000;

/// A file below the root of a tree.
#[derive(Debug)]
pub struct LocalFile {
    /// Its path below the root, with slashes.
    pub relative: String,
    /// Its path on the host.
    pub path: String,
}

impl ByText for LocalFile {
    open spec fn rank(&self) -> Seq<char> {
        self.relative@
    }

    fn key(&self) -> &str {
        self.relative.as_str()
    }
}

/// A local directory tree: its directories and files, each in ascending order.
#[derive(Debug)]
pub struct LocalTree {
    pub directories: Vec<String>,
    pub files: Vec<LocalFile>,
}

/// What a directory entry is.
#[derive(Debug)]
pub enum LocalKind {
    Symlink,
    Directory,
    File,
    Special,
    /// It cannot be looked at.
    Unreadable(String),
}

/// An entry of a local directory. A name that is no Unicode text is left out.
#[derive(Debug)]
pub struct LocalEntry {
    pub name: Option<String>,
    pub kind: LocalKind,
    pub path: String,
}

/// A name below a path; the root has the empty path.
pub open spec fn relative_path(root: Seq<char>, name: Seq<char>) -> Seq<char> {
    if root.len() == 0 {
        name
    } else {
        path::joined(root, name)
    }
}

/// A name below a path; the root has the empty path.
pub fn join_relative_path(root: &str, name: &str) -> (path: String)
    ensures
        path@ == relative_path(root@, name@),
{
    if root.is_empty() {
        name.to_owned()
    } else {
        join(root, name)
    }
}

/// Why an entry cannot be synced, if it cannot: `seen` entries came before it.
pub open spec fn entry_refusal(seen: nat, entry: LocalEntry) -> Option<CliErrorView> {
    if seen >= MAX_SYNC_TREE_ENTRIES {
        Some(CliErrorView::LocalTree("directory tree contains more than 100000 entries"@))
    } else if entry.name is None {
        Some(CliErrorView::LocalTree("path is not valid Unicode"@))
    } else {
        match entry.kind {
            LocalKind::Unreadable(message) => Some(CliErrorView::LocalTree(message@)),
            LocalKind::Symlink => Some(
                CliErrorView::LocalTree("symbolic links are not supported: "@ + entry.path@),
            ),
            LocalKind::Special => Some(
                CliErrorView::LocalTree("special files are not supported: "@ + entry.path@),
            ),
            LocalKind::Directory => None,
            LocalKind::File => None,
        }
    }
}

/// Whether an entry of the directory with this path below the root was taken so.
pub open spec fn entry_added(
    directories: Seq<String>,
    files: Seq<LocalFile>,
    relative: Seq<char>,
    entry: LocalEntry,
    directories_after: Seq<String>,
    files_after: Seq<LocalFile>,
    result: Result<Option<String>, CliError>,
) -> bool {
    match entry_refusal(directories.len() + files.len(), entry) {
        Some(refusal) => {
            &&& result matches Err(error) && error@ == refusal
            &&& directories_after == directories
            &&& files_after == files
        },
        None => {
            let child = relative_path(relative, entry.name->Some_0@);
            match entry.kind {
                LocalKind::Directory => {
                    &&& result matches Ok(Some(descend)) && descend@ == child
                    &&& text::all(directories_after) == text::all(directories).push(child)
                    &&& files_after == files
                },
                _ => {
                    &&& result matches Ok(None)
                    &&& directories_after == directories
                    &&& exists|file: LocalFile|
                        files_after == #[trigger] files.push(file) && file.relative@ == child
                            && file.path@ == entry.path@
                },
            }
        },
    }
}

/// A local directory tree while it is walked.
pub struct LocalTreeWalk {
    directories: Vec<String>,
    files: Vec<LocalFile>,
}

impl LocalTreeWalk {
    /// The directories found so far.
    pub closed spec fn directories(&self) -> Seq<String> {
        self.directories@
    }

    /// The files found so far.
    pub closed spec fn files(&self) -> Seq<LocalFile> {
        self.files@
    }

    /// The number of entries so far is within bounds.
    pub closed spec fn wf(&self) -> bool {
        self.directories@.len() + self.files@.len() <= MAX_SYNC_TREE_ENTRIES
    }

    /// Nothing found yet.
    pub fn new() -> (walk: Self)
        ensures
            walk.wf(),
            walk.directories() == Seq::<String>::empty(),
            walk.files() == Seq::<LocalFile>::empty(),
    {
        LocalTreeWalk { directories: Vec::new(), files: Vec::new() }
    }

    /// Takes an entry of the directory with this path below the root. For a
    /// directory the answer is its own path, which is to be walked too.
    pub fn add(&mut self, relative: &str, entry: LocalEntry) -> (result: Result<
        Option<String>,
        CliError,
    >)
        requires
            old(self).wf(),
        ensures
            final(self).wf(),
            entry_added(
                old(self).directories(),
                old(self).files(),
                relative@,
                entry,
                final(self).directories(),
                final(self).files(),
                result,
            ),
    {
        if self.directories.len() + self.files.len() >= MAX_SYNC_TREE_ENTRIES {
            return Err(
                CliError::LocalTree(
                    "directory tree contains more than 100000 entries".to_owned(),
                ),
            );
        }
        let name = match entry.name {
            Some(name) => name,
            None => {
                return Err(CliError::LocalTree("path is not valid Unicode".to_owned()));
            },
        };
        let child = join_relative_path(relative, name.as_str());
        match entry.kind {
            LocalKind::Unreadable(message) => Err(CliError::LocalTree(message)),
            LocalKind::Symlink => Err(
                CliError::LocalTree(
                    concat("symbolic links are not supported: ", entry.path.as_str()),
                ),
            ),
            LocalKind::Special => Err(
                CliError::LocalTree(
                    concat("special files are not supported: ", entry.path.as_str()),
                ),
            ),
            LocalKind::Directory => {
                let ghost before = self.directories@;
                self.directories.push(child.clone());
                assert(text::all(self.directories@) =~= text::all(before).push(child@));
                Ok(Some(child))
            },
            LocalKind::File => {
                let file = LocalFile { relative: child, path: entry.path };
                assert(self.files@.push(file) == old(self).files().push(file));
                self.files.push(file);
                Ok(None)
            },
        }
    }

    /// The tree, with its entries in order.
    pub fn finish(self) -> (tree: LocalTree)
        ensures
            sorting::is_sorted(tree.directories@, self.directories()),
            sorting::is_sorted(tree.files@, self.files()),
    {
        LocalTree {
            directories: sort_by_text(self.directories),
            files: sort_by_text(self.files),
        }
    }
}

/// The paths of files.
pub open spec fn relatives(files: Seq<LocalFile>) -> Seq<Seq<char>> {
    Seq::new(files.len(), |i: int| files[i].relative@)
}

/// A device path for each file and directory of a tree, none of which the
/// device could take for another.
pub struct PreparedPushTree {
    pub directories: Vec<LogicalSyncPath>,
    pub files: Vec<PreparedFile>,
}

/// A file with its device path.
pub struct PreparedFile {
    pub remote_path: LogicalSyncPath,
    pub local_path: String,
}

/// A path below a root; the empty one is the root itself.
pub open spec fn below(root: Seq<char>, relative: Seq<char>) -> Seq<char> {
    if relative.len() == 0 {
        root
    } else {
        path::joined(root, relative)
    }
}

/// The first path that the device cannot tell from another, if there is one.
pub open spec fn colliding(paths: Seq<Seq<char>>, path: Seq<char>) -> Option<Seq<char>>
    decreases paths.len(),
{
    if paths.len() == 0 {
        None
    } else if logical_path::fold(paths[0]) == logical_path::fold(path) {
        Some(paths[0])
    } else {
        colliding(paths.skip(1), path)
    }
}

/// The device paths of a root and of what lies below it, or why one of them
/// cannot be.
pub open spec fn device_paths(root: Seq<char>, relatives: Seq<Seq<char>>) -> Result<
    Seq<Seq<char>>,
    CliErrorView,
>
    decreases relatives.len(),
{
    if relatives.len() == 0 {
        Ok(seq![root])
    } else {
        match device_paths(root, relatives.drop_last()) {
            Err(error) => Err(error),
            Ok(paths) => {
                let full = below(root, relatives.last());
                match logical_path::refusal(full) {
                    Some(reason) if relatives.last().len() > 0 => Err(
                        CliErrorView::InvalidRemotePath { path: full, reason },
                    ),
                    _ => match colliding(paths, full) {
                        Some(first) => Err(
                            CliErrorView::RemotePathCollision { first, second: full },
                        ),
                        None => Ok(paths.push(full)),
                    },
                }
            },
        }
    }
}

/// Joins a path below the root of a tree.
fn join_logical_path(root: &LogicalSyncPath, relative: &str) -> (result: Result<
    LogicalSyncPath,
    CliError,
>)
    requires
        root.wf(),
    ensures
        match result {
            Ok(joined) => joined.wf() && joined@ == below(root@, relative@) && (
            relative@.len() == 0 || logical_path::refusal(below(root@, relative@)) is None),
            Err(error) => relative@.len() > 0 && (logical_path::refusal(
                below(root@, relative@),
            ) matches Some(reason) && error@ == (CliErrorView::InvalidRemotePath {
                path: below(root@, relative@),
                reason,
            })),
        },
{
    if relative.is_empty() {
        return Ok(root.duplicate());
    }
    let full = join(root.as_str(), relative);
    match LogicalSyncPath::parse(full.clone()) {
        Ok(joined) => Ok(joined),
        Err(reason) => Err(CliError::InvalidRemotePath { path: full, reason }),
    }
}

/// Whether a table holds the fold of each path, with the path itself.
pub open spec fn folds(table: Map<Seq<char>, Seq<char>>, paths: Seq<Seq<char>>) -> bool {
    &&& forall|i: int|
        0 <= i < paths.len() ==> table.dom().contains(logical_path::fold(#[trigger] paths[i]))
            && table[logical_path::fold(paths[i])] == paths[i]
    &&& forall|key: Seq<char>| #[trigger]
        table.dom().contains(key) ==> exists|i: int|
            0 <= i < paths.len() && logical_path::fold(#[trigger] paths[i]) == key
}

proof fn colliding_in_table(
    table: Map<Seq<char>, Seq<char>>,
    paths: Seq<Seq<char>>,
    path: Seq<char>,
)
    requires
        folds(table, paths),
    ensures
        table.dom().contains(logical_path::fold(path)) ==> colliding(paths, path) == Some(
            table[logical_path::fold(path)],
        ),
        !table.dom().contains(logical_path::fold(path)) ==> colliding(paths, path) is None,
{
    if table.dom().contains(logical_path::fold(path)) {
        let i = choose|i: int|
            0 <= i < paths.len() && logical_path::fold(#[trigger] paths[i]) == logical_path::fold(
                path,
            );
        colliding_at(paths, path, i);
        let first = colliding(paths, path)->Some_0;
        let k = choose|k: int| 0 <= k < paths.len() && paths[k] == first;
        assert(table[logical_path::fold(paths[k])] == paths[k]);
    } else {
        assert forall|i: int| 0 <= i < paths.len() implies logical_path::fold(#[trigger] paths[i])
            != logical_path::fold(path) by {}
        colliding_nowhere(paths, path);
    }
}

pub(crate) proof fn colliding_at(paths: Seq<Seq<char>>, path: Seq<char>, i: int)
    requires
        0 <= i < paths.len(),
        logical_path::fold(paths[i]) == logical_path::fold(path),
    ensures
        colliding(paths, path) matches Some(first) && paths.contains(first) && logical_path::fold(
            first,
        ) == logical_path::fold(path),
    decreases paths.len(),
{
    if logical_path::fold(paths[0]) != logical_path::fold(path) {
        let rest = paths.skip(1);
        assert(rest[i - 1] == paths[i]);
        colliding_at(rest, path, i - 1);
        let first = colliding(rest, path)->Some_0;
        let k = choose|k: int| 0 <= k < rest.len() && rest[k] == first;
        assert(paths[k + 1] == first);
    } else {
        assert(paths.contains(paths[0]));
    }
}

proof fn colliding_nowhere(paths: Seq<Seq<char>>, path: Seq<char>)
    requires
        forall|i: int|
            0 <= i < paths.len() ==> logical_path::fold(#[trigger] paths[i]) != logical_path::fold(
                path,
            ),
    ensures
        colliding(paths, path) is None,
    decreases paths.len(),
{
    if paths.len() > 0 {
        assert(logical_path::fold(paths[0]) != logical_path::fold(path));
        let rest = paths.skip(1);
        assert forall|i: int| 0 <= i < rest.len() implies logical_path::fold(#[trigger] rest[i])
            != logical_path::fold(path) by {
            assert(rest[i] == paths[i + 1]);
        }
        colliding_nowhere(rest, path);
    }
}

/// Enters a path into the table. If the device could take it for an earlier one
/// that one is returned, and the table is of no further use.
pub(crate) fn register_path(path: &LogicalSyncPath, folded: &mut Table<String, String>, paths: Ghost<
    Seq<Seq<char>>,
>) -> (earlier: Option<String>)
    requires
        old(folded).wf(),
        folds(old(folded)@, paths@),
    ensures
        final(folded).wf(),
        text::optional(earlier) == colliding(paths@, path@),
        earlier is None ==> folds(final(folded)@, paths@.push(path@)),
{
    proof {
        colliding_in_table(folded@, paths@, path@);
    }
    let key = path.ascii_case_fold_key();
    let earlier = folded.insert(key, path.as_str().to_owned());
    proof {
        if earlier is None {
            let more = paths@.push(path@);
            assert forall|i: int| 0 <= i < more.len() implies folded@.dom().contains(
                logical_path::fold(#[trigger] more[i]),
            ) && folded@[logical_path::fold(more[i])] == more[i] by {
                if i < paths@.len() {
                    assert(more[i] == paths@[i]);
                }
            }
            assert forall|key: Seq<char>| #[trigger]
                folded@.dom().contains(key) implies exists|i: int|
                0 <= i < more.len() && logical_path::fold(#[trigger] more[i]) == key by {
                if key == logical_path::fold(path@) {
                    assert(more[paths@.len() as int] == path@);
                } else {
                    assert(old(folded)@.dom().contains(key));
                    let i = choose|i: int|
                        0 <= i < paths@.len() && logical_path::fold(#[trigger] paths@[i]) == key;
                    assert(more[i] == paths@[i]);
                }
            }
        }
    }
    earlier
}

/// Enters a path into the table, unless the device could take it for another.
fn register_unique_path(path: &LogicalSyncPath, folded: &mut Table<String, String>, paths: Ghost<
    Seq<Seq<char>>,
>) -> (result: Result<(), CliError>)
    requires
        old(folded).wf(),
        folds(old(folded)@, paths@),
    ensures
        final(folded).wf(),
        match colliding(paths@, path@) {
            Some(first) => result matches Err(error) && error@ == (
            CliErrorView::RemotePathCollision { first, second: path@ }),
            None => result is Ok && folds(final(folded)@, paths@.push(path@)),
        },
{
    match register_path(path, folded, paths) {
        Some(first) => Err(
            CliError::RemotePathCollision { first, second: path.as_str().to_owned() },
        ),
        None => Ok(()),
    }
}

/// The texts of device paths.
pub open spec fn path_texts(paths: Seq<LogicalSyncPath>) -> Seq<Seq<char>> {
    Seq::new(paths.len(), |i: int| paths[i]@)
}

/// The texts of the device paths of files.
pub open spec fn file_texts(files: Seq<PreparedFile>) -> Seq<Seq<char>> {
    Seq::new(files.len(), |i: int| files[i].remote_path@)
}

/// A failure at a prefix is the failure of the whole.
proof fn first_failure_counts(root: Seq<char>, relatives: Seq<Seq<char>>, n: int)
    requires
        0 <= n <= relatives.len(),
        device_paths(root, relatives.take(n)) is Err,
    ensures
        device_paths(root, relatives) == device_paths(root, relatives.take(n)),
    decreases relatives.len() - n,
{
    if n < relatives.len() {
        assert(relatives.take(n + 1).drop_last() =~= relatives.take(n));
        first_failure_counts(root, relatives, n + 1);
    } else {
        assert(relatives.take(n) =~= relatives);
    }
}

/// Gives every directory and file of a tree its device path, before anything is
/// sent: a tree with an unusable path, or with paths that differ in case only,
/// is refused as a whole.
pub fn prepare_push_tree(remote_root: &LogicalSyncPath, tree: LocalTree) -> (result: Result<
    PreparedPushTree,
    CliError,
>)
    requires
        remote_root.wf(),
    ensures
        ({
            let all = text::all(tree.directories@) + relatives(tree.files@);
            match result {
                Ok(prepared) => {
                    &&& device_paths(remote_root@, all) == Ok::<_, CliErrorView>(
                        path_texts(prepared.directories@) + file_texts(prepared.files@),
                    )
                    &&& prepared.directories@.len() == tree.directories@.len() + 1
                    &&& prepared.files@.len() == tree.files@.len()
                    &&& forall|i: int|
                        0 <= i < prepared.files@.len() ==> (
                        #[trigger] prepared.files@[i]).local_path@ == tree.files@[i].path@
                },
                Err(error) => device_paths(remote_root@, all) == Err::<Seq<Seq<char>>, _>(error@),
            }
        }),
{
    let ghost all = text::all(tree.directories@) + relatives(tree.files@);
    let ghost root = remote_root@;
    let mut folded: Table<String, String> = Table::new();
    assert(folds(folded@, Seq::<Seq<char>>::empty()));
    let registered = register_unique_path(remote_root, &mut folded, Ghost(Seq::empty()));
    assert(Seq::<Seq<char>>::empty().push(root) =~= seq![root]);
    if let Err(error) = registered {
        return Err(error);
    }
    let mut directories: Vec<LogicalSyncPath> = Vec::new();
    directories.push(remote_root.duplicate());
    assert(path_texts(directories@) =~= seq![root]);
    assert(all.take(0) =~= Seq::<Seq<char>>::empty());
    let mut i: usize = 0;
    while i < tree.directories.len()
        invariant
            remote_root.wf(),
            root == remote_root@,
            i <= tree.directories@.len(),
            all == text::all(tree.directories@) + relatives(tree.files@),
            folded.wf(),
            folds(folded@, path_texts(directories@)),
            directories@.len() == i + 1,
            device_paths(root, all.take(i as int)) == Ok::<_, CliErrorView>(
                path_texts(directories@),
            ),
        decreases tree.directories@.len() - i,
    {
        let ghost next = all.take(i + 1);
        let ghost before = path_texts(directories@);
        assert(next.drop_last() =~= all.take(i as int));
        assert(next.last() == tree.directories@[i as int]@);
        let joined = join_logical_path(remote_root, tree.directories[i].as_str());
        let path = match joined {
            Ok(path) => path,
            Err(error) => {
                proof {
                    first_failure_counts(root, all, i + 1);
                }
                return Err(error);
            },
        };
        match register_unique_path(&path, &mut folded, Ghost(before)) {
            Err(error) => {
                proof {
                    first_failure_counts(root, all, i + 1);
                }
                return Err(error);
            },
            Ok(()) => {},
        }
        let ghost added = path@;
        directories.push(path);
        assert(path_texts(directories@) =~= before.push(added));
        i += 1;
    }
    let ghost first = path_texts(directories@);
    let mut files: Vec<PreparedFile> = Vec::new();
    assert(first + file_texts(files@) =~= first);
    let mut j: usize = 0;
    while j < tree.files.len()
        invariant
            remote_root.wf(),
            root == remote_root@,
            j <= tree.files@.len(),
            all == text::all(tree.directories@) + relatives(tree.files@),
            folded.wf(),
            folds(folded@, first + file_texts(files@)),
            files@.len() == j,
            device_paths(root, all.take(tree.directories@.len() + j)) == Ok::<_, CliErrorView>(
                first + file_texts(files@),
            ),
            forall|k: int|
                0 <= k < j ==> (#[trigger] files@[k]).local_path@ == tree.files@[k].path@,
        decreases tree.files@.len() - j,
    {
        let ghost n = tree.directories@.len() + j;
        let ghost next = all.take(n + 1);
        let ghost before = first + file_texts(files@);
        let ghost texts = file_texts(files@);
        assert(next.drop_last() =~= all.take(n));
        assert(next.last() == tree.files@[j as int].relative@);
        let joined = join_logical_path(remote_root, tree.files[j].relative.as_str());
        let path = match joined {
            Ok(path) => path,
            Err(error) => {
                proof {
                    first_failure_counts(root, all, n + 1);
                }
                return Err(error);
            },
        };
        match register_unique_path(&path, &mut folded, Ghost(before)) {
            Err(error) => {
                proof {
                    first_failure_counts(root, all, n + 1);
                }
                return Err(error);
            },
            Ok(()) => {},
        }
        let ghost added = path@;
        files.push(PreparedFile { remote_path: path, local_path: tree.files[j].path.clone() });
        assert(file_texts(files@) =~= texts.push(added));
        assert(first + file_texts(files@) =~= before.push(added));
        j += 1;
    }
    assert(all.take(tree.directories@.len() + j) =~= all);
    Ok(PreparedPushTree { directories, files })
}

/// The device paths of an accepted tree: each is acceptable when the root is,
/// and the device can tell any two of them apart.
pub proof fn device_paths_are_distinct(root: Seq<char>, relatives: Seq<Seq<char>>)
    requires
        logical_path::refusal(root) is None,
        device_paths(root, relatives) is Ok,
    ensures
        ({
            let paths = device_paths(root, relatives)->Ok_0;
            &&& paths.len() == relatives.len() + 1
            &&& forall|i: int|
                0 <= i < paths.len() ==> logical_path::refusal(#[trigger] paths[i]) is None
            &&& forall|i: int, j: int|
                0 <= i < j < paths.len() ==> logical_path::fold(#[trigger] paths[i])
                    != logical_path::fold(#[trigger] paths[j])
        }),
    decreases relatives.len(),
{
    if relatives.len() > 0 {
        device_paths_are_distinct(root, relatives.drop_last());
        let before = device_paths(root, relatives.drop_last())->Ok_0;
        let paths = device_paths(root, relatives)->Ok_0;
        let full = below(root, relatives.last());
        assert(paths == before.push(full));
        assert forall|i: int| 0 <= i < before.len() implies logical_path::fold(
            #[trigger] paths[i],
        ) != logical_path::fold(full) by {
            if logical_path::fold(before[i]) == logical_path::fold(full) {
                colliding_at(before, full, i);
            }
        }
    }
}

/// Every directory and file of a tree gets the device path that its path below the local
/// root has below the device root, in order; the root comes first.
pub proof fn device_paths_follow_the_tree(root: Seq<char>, relatives: Seq<Seq<char>>)
    requires
        device_paths(root, relatives) is Ok,
    ensures
        ({
            let paths = device_paths(root, relatives)->Ok_0;
            &&& paths.len() == relatives.len() + 1
            &&& paths[0] == root
            &&& forall|i: int|
                0 <= i < relatives.len() && relatives[i].len() > 0 ==> #[trigger] paths[i + 1]
                    == root + seq!['/'] + relatives[i]
        }),
    decreases relatives.len(),
{
    if relatives.len() > 0 {
        let fewer = relatives.drop_last();
        device_paths_follow_the_tree(root, fewer);
        let paths = device_paths(root, relatives)->Ok_0;
        let shorter = device_paths(root, fewer)->Ok_0;
        assert(paths == shorter.push(below(root, relatives.last())));
        assert forall|i: int| 0 <= i < relatives.len() && relatives[i].len() > 0 implies
            #[trigger] paths[i + 1] == root + seq!['/'] + relatives[i] by {
            if i < fewer.len() {
                assert(fewer[i] == relatives[i]);
                assert(shorter[i + 1] == root + seq!['/'] + fewer[i]);
            }
        }
    }
}

/// What is found in a directory has the components of the directory and then its own name.
pub proof fn entries_lie_in_their_directory(directory: Seq<char>, name: Seq<char>)
    requires
        !name.contains('/'),
    ensures
        path::split(relative_path(directory, name), '/') == if directory.len() == 0 {
            seq![name]
        } else {
            path::split(directory, '/').push(name)
        },
{
    if directory.len() == 0 {
        path::joined_pieces_split_back(seq![name], '/');
    } else {
        path::split_append(directory, name, '/');
    }
}

/// Every file and directory that is found is kept, once and as what it is, behind those
/// before it: a directory is walked in its turn, and a file is read from where it lies.
/// Links, other things, names that are no text and a tree too large are refused, and
/// leave what was found.
pub proof fn found_entries_are_kept(
    directories: Seq<String>,
    files: Seq<LocalFile>,
    relative: Seq<char>,
    entry: LocalEntry,
    directories_after: Seq<String>,
    files_after: Seq<LocalFile>,
    result: Result<Option<String>, CliError>,
)
    requires
        entry_added(
            directories,
            files,
            relative,
            entry,
            directories_after,
            files_after,
            result,
        ),
    ensures
        result is Ok <==> entry.name is Some && (entry.kind is Directory || entry.kind is File)
            && directories.len() + files.len() < 100000,
        result is Err ==> directories_after == directories && files_after == files,
        result is Ok ==> directories_after.len() + files_after.len() == directories.len()
            + files.len() + 1,
        result is Ok && entry.kind is File ==> {
            &&& result->Ok_0 is None
            &&& directories_after == directories
            &&& files_after.drop_last() == files
            &&& files_after.last().path@ == entry.path@
            &&& files_after.last().relative@ == relative_path(relative, entry.name->0@)
        },
        result is Ok && entry.kind is Directory ==> {
            &&& result->Ok_0 is Some
            &&& result->Ok_0->0@ == relative_path(relative, entry.name->0@)
            &&& files_after == files
            &&& directories_after.last()@ == result->Ok_0->0@
            &&& forall|i: int|
                0 <= i < directories.len() ==> (#[trigger] directories_after[i])@
                    == directories[i]@
        },
{
    if result is Ok {
        match entry.kind {
            LocalKind::Directory => {
                let before = text::all(directories);
                let after = text::all(directories_after);
                assert(after.len() == before.len() + 1);
                assert(after[before.len() as int] == result->Ok_0->0@);
                assert forall|i: int| 0 <= i < directories.len() implies (
                #[trigger] directories_after[i])@ == directories[i]@ by {
                    assert(after[i] == before[i]);
                }
            },
            _ => {
                let file = choose|file: LocalFile|
                    files_after == #[trigger] files.push(file) && file.relative@ == relative_path(
                        relative,
                        entry.name->0@,
                    ) && file.path@ == entry.path@;
                assert(files_after.drop_last() =~= files);
                assert(files_after.last() == file);
            },
        }
    }
}

} // verus!
