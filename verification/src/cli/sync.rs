//! Transferring files and directory trees.

use crate::cli::error;
use crate::cli::error::{CliError, CliErrorView};
use crate::cli::execute;
use crate::cli::execute::{ask, invalid, invalid_result, one_call};
use crate::cli::host_path;
use crate::cli::host_path::{local_tree_path, HostPath};
use crate::cli::local_tree;
use crate::cli::local_tree::{prepare_push_tree, LocalTree, PreparedFile, PreparedPushTree};
use crate::cli::remote_tree;
use crate::cli::remote_tree::{collect_remote_tree, RemoteFileView, RemoteTreeManifest};
use crate::cli::rpc::{
    CallResult, CallResultView, ClientErrorView, Exchange, RpcCall, RpcCallView, RpcCaller,
    RpcReplyView,
};
use crate::logical_path;
use crate::logical_path::{normalize_remote_path, LogicalSyncPath};
use crate::model::{
    SyncMkdirParams, SyncMkdirParamsView, SyncPullParams, SyncPullParamsView, SyncPushParams,
    SyncPushParamsView, TransferDirection, TransferState,
};
use crate::path;
use crate::runtime::model::MAX_SYNC_BLOCK_SIZE;
use crate::text;
use crate::text::{clone_optional, concat};
use vstd::prelude::*;

verus! {

/// How far a directory transfer has come.
#[derive(Debug)]
pub struct TreeTotals {
    pub created_directories: u64,
    pub bytes: u64,
    pub transfer_ids: Vec<String>,
}

/// The model of [`TreeTotals`].
#[verifier::ext_equal]
pub struct TreeTotalsView {
    pub created_directories: u64,
    pub bytes: u64,
    pub transfer_ids: Seq<Seq<char>>,
}

impl View for TreeTotals {
    type V = TreeTotalsView;

    open spec fn view(&self) -> TreeTotalsView {
        TreeTotalsView {
            created_directories: self.created_directories,
            bytes: self.bytes,
            transfer_ids: text::all(self.transfer_ids@),
        }
    }
}

/// The sum of two counts, or the end of the range.
pub open spec fn saturated(left: u64, right: u64) -> u64 {
    if left + right > u64::MAX {
        u64::MAX
    } else {
        (left + right) as u64
    }
}

/// The requests with their answers.
pub open spec fn exchanges_of(
    calls: Seq<RpcCallView>,
    replies: Seq<Result<RpcReplyView, ClientErrorView>>,
) -> Seq<Exchange> {
    Seq::new(replies.len(), |i: int| Exchange { call: calls[i], reply: replies[i] })
}

/// A device path and a host path.
pub type PathPair = (Seq<char>, Seq<char>);

/// The requests that send a tree: its directories, then its files.
pub open spec fn push_tree_calls(
    serial: Seq<char>,
    directories: Seq<Seq<char>>,
    files: Seq<PathPair>,
    block_size: u32,
) -> Seq<RpcCallView> {
    Seq::new(
        directories.len(),
        |i: int|
            RpcCallView::SyncMkdir(SyncMkdirParamsView { serial, remote_path: directories[i] }),
    ) + Seq::new(
        files.len(),
        |i: int|
            RpcCallView::SyncPush(
                SyncPushParamsView {
                    serial,
                    local_path: files[i].1,
                    remote_path: files[i].0,
                    transfer_id: None,
                    block_size,
                },
            ),
    )
}

/// The device paths of files with their host paths.
pub open spec fn file_pairs(files: Seq<PreparedFile>) -> Seq<PathPair> {
    Seq::new(files.len(), |i: int| (files[i].remote_path@, files[i].local_path@))
}

/// What one answer adds to the totals of a push: the first answers are to
/// requests for directories.
pub open spec fn push_answer(
    totals: TreeTotalsView,
    for_directory: bool,
    reply: Result<RpcReplyView, ClientErrorView>,
) -> Result<TreeTotalsView, CliErrorView> {
    match reply {
        Err(error) => Err(CliErrorView::Rpc(error)),
        Ok(answer) => match answer.result {
            CallResultView::SyncMkdir(result) if for_directory => Ok(
                TreeTotalsView {
                    created_directories: if result.created {
                        saturated(totals.created_directories, 1)
                    } else {
                        totals.created_directories
                    },
                    ..totals
                },
            ),
            CallResultView::SyncPush(result) if !for_directory => Ok(
                TreeTotalsView {
                    bytes: saturated(totals.bytes, result.accepted_offset),
                    transfer_ids: totals.transfer_ids.push(result.transfer_id),
                    ..totals
                },
            ),
            _ => Err(
                invalid(
                    if for_directory {
                        "sync mkdir"@
                    } else {
                        "sync directory push"@
                    },
                ),
            ),
        },
    }
}

/// Nothing transferred.
pub open spec fn no_totals() -> TreeTotalsView {
    TreeTotalsView { created_directories: 0, bytes: 0, transfer_ids: Seq::empty() }
}

/// The totals of a push after these answers, or why it failed.
pub open spec fn push_totals(
    directories: nat,
    replies: Seq<Result<RpcReplyView, ClientErrorView>>,
) -> Result<TreeTotalsView, CliErrorView>
    decreases replies.len(),
{
    if replies.len() == 0 {
        Ok(no_totals())
    } else {
        match push_totals(directories, replies.drop_last()) {
            Err(error) => Err(error),
            Ok(before) => push_answer(before, replies.len() <= directories, replies.last()),
        }
    }
}

/// Whether a tree was pushed so, with these answers: the requests went out one
/// after the other until one failed or all were answered.
pub open spec fn pushed_with(
    before: Seq<Exchange>,
    after: Seq<Exchange>,
    calls: Seq<RpcCallView>,
    directories: nat,
    replies: Seq<Result<RpcReplyView, ClientErrorView>>,
    result: Result<TreeTotalsView, CliErrorView>,
) -> bool {
    &&& replies.len() <= calls.len()
    &&& after == before + exchanges_of(calls, replies)
    &&& push_totals(directories, replies) == result
    &&& match result {
        Ok(_) => replies.len() == calls.len(),
        Err(_) => replies.len() > 0 && push_totals(directories, replies.drop_last()) is Ok,
    }
}

/// Whether a tree was pushed so.
pub open spec fn tree_pushed(
    before: Seq<Exchange>,
    after: Seq<Exchange>,
    calls: Seq<RpcCallView>,
    directories: nat,
    result: Result<TreeTotalsView, CliErrorView>,
) -> bool {
    exists|replies: Seq<Result<RpcReplyView, ClientErrorView>>| #[trigger]
        pushed_with(before, after, calls, directories, replies, result)
}

/// Sends a tree: every directory is made, then every file is pushed, in order.
pub fn push_tree<C: RpcCaller>(
    caller: &mut C,
    serial: &String,
    tree: &PreparedPushTree,
    block_size: u32,
) -> (result: Result<TreeTotals, CliError>)
    ensures
        tree_pushed(
            old(caller).exchanges(),
            final(caller).exchanges(),
            push_tree_calls(
                serial@,
                local_tree::path_texts(tree.directories@),
                file_pairs(tree.files@),
                block_size,
            ),
            tree.directories@.len(),
            error::outcome(result),
        ),
{
    let ghost before = caller.exchanges();
    let ghost calls = push_tree_calls(
                serial@,
                local_tree::path_texts(tree.directories@),
                file_pairs(tree.files@),
                block_size,
            );
    let ghost count = tree.directories@.len();
    let ghost mut replies: Seq<Result<RpcReplyView, ClientErrorView>> = Seq::empty();
    let mut totals = TreeTotals { created_directories: 0, bytes: 0, transfer_ids: Vec::new() };
    assert(totals@ =~= no_totals());
    assert(before + exchanges_of(calls, replies) =~= before);
    let mut i: usize = 0;
    while i < tree.directories.len()
        invariant
            before == old(caller).exchanges(),
            calls == push_tree_calls(
                serial@,
                local_tree::path_texts(tree.directories@),
                file_pairs(tree.files@),
                block_size,
            ),
            count == tree.directories@.len(),
            i <= count,
            replies.len() == i,
            caller.exchanges() == before + exchanges_of(calls, replies),
            push_totals(count, replies) == Ok::<_, CliErrorView>(totals@),
            totals.created_directories <= i,
        decreases count - i,
    {
        let params = SyncMkdirParams {
            serial: serial.clone(),
            remote_path: tree.directories[i].as_str().to_owned(),
        };
        let ghost call = RpcCallView::SyncMkdir(params@);
        assert(call == calls[i as int]);
        let asked = ask(caller, RpcCall::SyncMkdir(params));
        let ghost reply = execute::answer_of(asked);
        let ghost more = replies.push(reply);
        proof {
            assert(more.drop_last() =~= replies);
            assert(exchanges_of(calls, more) =~= exchanges_of(calls, replies).push(
                Exchange { call, reply },
            ));
            assert(before + exchanges_of(calls, more) =~= (before + exchanges_of(
                calls,
                replies,
            )).push(Exchange { call, reply }));
            replies = more;
        }
        let answer = match asked {
            Ok(answer) => answer,
            Err(error) => {
                let result: Result<TreeTotals, CliError> = Err(error);
                assert(pushed_with(
                    before,
                    caller.exchanges(),
                    calls,
                    count,
                    replies,
                    error::outcome(result),
                ));
                return result;
            },
        };
        match &answer.result {
            CallResult::SyncMkdir(made) => {
                if made.created {
                    totals.created_directories = totals.created_directories + 1;
                }
            },
            _ => {
                let result: Result<TreeTotals, CliError> = Err(invalid_result("sync mkdir"));
                assert(pushed_with(
                    before,
                    caller.exchanges(),
                    calls,
                    count,
                    replies,
                    error::outcome(result),
                ));
                return result;
            },
        }
        i += 1;
    }
    let mut j: usize = 0;
    while j < tree.files.len()
        invariant
            before == old(caller).exchanges(),
            calls == push_tree_calls(
                serial@,
                local_tree::path_texts(tree.directories@),
                file_pairs(tree.files@),
                block_size,
            ),
            count == tree.directories@.len(),
            j <= tree.files@.len(),
            replies.len() == count + j,
            caller.exchanges() == before + exchanges_of(calls, replies),
            push_totals(count, replies) == Ok::<_, CliErrorView>(totals@),
        decreases tree.files@.len() - j,
    {
        let params = SyncPushParams {
            serial: serial.clone(),
            local_path: tree.files[j].local_path.clone(),
            remote_path: tree.files[j].remote_path.as_str().to_owned(),
            transfer_id: None,
            block_size,
        };
        let ghost call = RpcCallView::SyncPush(params@);
        assert(call == calls[count + j]);
        let asked = ask(caller, RpcCall::SyncPush(params));
        let ghost reply = execute::answer_of(asked);
        let ghost more = replies.push(reply);
        proof {
            assert(more.drop_last() =~= replies);
            assert(exchanges_of(calls, more) =~= exchanges_of(calls, replies).push(
                Exchange { call, reply },
            ));
            assert(before + exchanges_of(calls, more) =~= (before + exchanges_of(
                calls,
                replies,
            )).push(Exchange { call, reply }));
            replies = more;
        }
        let answer = match asked {
            Ok(answer) => answer,
            Err(error) => {
                let result: Result<TreeTotals, CliError> = Err(error);
                assert(pushed_with(
                    before,
                    caller.exchanges(),
                    calls,
                    count,
                    replies,
                    error::outcome(result),
                ));
                return result;
            },
        };
        match answer.result {
            CallResult::SyncPush(pushed) => {
                let ghost ids = text::all(totals.transfer_ids@);
                let ghost id = pushed.transfer_id@;
                totals.bytes = totals.bytes.saturating_add(pushed.accepted_offset);
                totals.transfer_ids.push(pushed.transfer_id);
                assert(text::all(totals.transfer_ids@) =~= ids.push(id));
            },
            _ => {
                let result: Result<TreeTotals, CliError> = Err(
                    invalid_result("sync directory push"),
                );
                assert(pushed_with(
                    before,
                    caller.exchanges(),
                    calls,
                    count,
                    replies,
                    error::outcome(result),
                ));
                return result;
            },
        }
        j += 1;
    }
    let result: Result<TreeTotals, CliError> = Ok(totals);
    assert(pushed_with(
        before,
        caller.exchanges(),
        calls,
        count,
        replies,
        error::outcome(result),
    ));
    result
}

/// The requests that fetch the files of a tree.
pub open spec fn pull_tree_calls(
    serial: Seq<char>,
    files: Seq<RemoteFileView>,
    local_root: Seq<char>,
    separator: char,
    block_size: u32,
) -> Seq<RpcCallView> {
    Seq::new(
        files.len(),
        |i: int|
            RpcCallView::SyncPull(
                SyncPullParamsView {
                    serial,
                    remote_path: files[i].remote_path,
                    local_path: host_path::path_below(
                        local_root,
                        path::split(files[i].relative_path, '/'),
                        separator,
                    ),
                    transfer_id: None,
                    block_size,
                },
            ),
    )
}

/// What one answer adds to the totals of a pull. A file that has another size
/// than it was listed with fails it.
pub open spec fn pull_answer(
    totals: TreeTotalsView,
    size: u64,
    reply: Result<RpcReplyView, ClientErrorView>,
) -> Result<TreeTotalsView, CliErrorView> {
    match reply {
        Err(error) => Err(CliErrorView::Rpc(error)),
        Ok(answer) => match answer.result {
            CallResultView::SyncPull(pulled) => if pulled.state != TransferState::Complete
                || pulled.total_size != size || pulled.received_size != size {
                Err(invalid("sync directory pull size"@))
            } else {
                Ok(
                    TreeTotalsView {
                        bytes: saturated(totals.bytes, pulled.received_size),
                        transfer_ids: totals.transfer_ids.push(pulled.transfer_id),
                        ..totals
                    },
                )
            },
            _ => Err(invalid("sync directory pull"@)),
        },
    }
}

/// The totals of a pull after these answers, or why it failed.
pub open spec fn pull_totals(
    directories: u64,
    files: Seq<RemoteFileView>,
    replies: Seq<Result<RpcReplyView, ClientErrorView>>,
) -> Result<TreeTotalsView, CliErrorView>
    decreases replies.len(),
{
    if replies.len() == 0 {
        Ok(TreeTotalsView { created_directories: directories, ..no_totals() })
    } else {
        match pull_totals(directories, files, replies.drop_last()) {
            Err(error) => Err(error),
            Ok(before) => pull_answer(before, files[replies.len() - 1].size, replies.last()),
        }
    }
}

/// Whether the files of a tree were fetched so, with these answers.
pub open spec fn pulled_with(
    before: Seq<Exchange>,
    after: Seq<Exchange>,
    calls: Seq<RpcCallView>,
    directories: u64,
    files: Seq<RemoteFileView>,
    replies: Seq<Result<RpcReplyView, ClientErrorView>>,
    result: Result<TreeTotalsView, CliErrorView>,
) -> bool {
    &&& replies.len() <= calls.len()
    &&& after == before + exchanges_of(calls, replies)
    &&& pull_totals(directories, files, replies) == result
    &&& match result {
        Ok(_) => replies.len() == calls.len(),
        Err(_) => replies.len() > 0 && pull_totals(directories, files, replies.drop_last()) is Ok,
    }
}

/// Whether two manifests list the same.
pub open spec fn same_tree(left: RemoteTreeManifest, right: RemoteTreeManifest) -> bool {
    &&& remote_tree::directory_views(left.directories@) == remote_tree::directory_views(
        right.directories@,
    )
    &&& remote_tree::file_views(left.files@) == remote_tree::file_views(right.files@)
}

/// Whether a tree was pulled so: its files were fetched, and it was then listed
/// once more without a change.
pub open spec fn tree_pulled(
    before: Seq<Exchange>,
    after: Seq<Exchange>,
    calls: Seq<RpcCallView>,
    manifest: RemoteTreeManifest,
    root: Seq<char>,
    serial: Seq<char>,
    result: Result<TreeTotalsView, CliErrorView>,
) -> bool {
    exists|
        replies: Seq<Result<RpcReplyView, ClientErrorView>>,
        between: Seq<Exchange>,
        fetched: Result<TreeTotalsView, CliErrorView>,
    | #[trigger]
        pulled_with(
            before,
            between,
            calls,
            manifest.directories@.len() as u64,
            remote_tree::file_views(manifest.files@),
            replies,
            fetched,
        ) && match fetched {
            Err(error) => after == between && result == Err::<TreeTotalsView, _>(error),
            Ok(totals) => relisted(between, after, manifest, root, serial, totals, result),
        }
}

/// Whether a tree was listed once more, and its pull ended so.
pub open spec fn relisted(
    before: Seq<Exchange>,
    after: Seq<Exchange>,
    manifest: RemoteTreeManifest,
    root: Seq<char>,
    serial: Seq<char>,
    totals: TreeTotalsView,
    result: Result<TreeTotalsView, CliErrorView>,
) -> bool {
    exists|again: Result<RemoteTreeManifest, CliError>| #[trigger]
        remote_tree::collects(before, after, root, serial, again) && result == (match again {
            Err(error) => Err(error@),
            Ok(listed) => if same_tree(listed, manifest) {
                Ok(totals)
            } else {
                Err(CliErrorView::RemoteTreeChanged(root))
            },
        })
}

fn check_same_tree(left: &RemoteTreeManifest, right: &RemoteTreeManifest) -> (same: bool)
    ensures
        same == same_tree(*left, *right),
{
    let ghost a = remote_tree::directory_views(left.directories@);
    let ghost b = remote_tree::directory_views(right.directories@);
    let ghost c = remote_tree::file_views(left.files@);
    let ghost d = remote_tree::file_views(right.files@);
    if left.directories.len() != right.directories.len() || left.files.len() != right.files.len() {
        assert(a.len() != b.len() || c.len() != d.len());
        return false;
    }
    let mut i: usize = 0;
    while i < left.directories.len()
        invariant
            i <= left.directories@.len(),
            left.directories@.len() == right.directories@.len(),
            a == remote_tree::directory_views(left.directories@),
            b == remote_tree::directory_views(right.directories@),
            forall|k: int| 0 <= k < i ==> a[k] == b[k],
        decreases left.directories@.len() - i,
    {
        let one = &left.directories[i];
        let other = &right.directories[i];
        assert(a[i as int] == one@);
        assert(b[i as int] == other@);
        if !text::same_text(one.remote_path.as_str(), other.remote_path.as_str())
            || one.relative_path != other.relative_path {
            return false;
        }
        i += 1;
    }
    assert(a =~= b);
    let mut j: usize = 0;
    while j < left.files.len()
        invariant
            j <= left.files@.len(),
            left.files@.len() == right.files@.len(),
            c == remote_tree::file_views(left.files@),
            d == remote_tree::file_views(right.files@),
            forall|k: int| 0 <= k < j ==> c[k] == d[k],
        decreases left.files@.len() - j,
    {
        let one = &left.files[j];
        let other = &right.files[j];
        assert(c[j as int] == one@);
        assert(d[j as int] == other@);
        if !text::same_text(one.remote_path.as_str(), other.remote_path.as_str())
            || one.relative_path != other.relative_path || one.size != other.size {
            return false;
        }
        j += 1;
    }
    assert(c =~= d);
    true
}

fn pull_files<C: RpcCaller>(
    caller: &mut C,
    serial: &String,
    manifest: &RemoteTreeManifest,
    local_root: &str,
    separator: char,
    block_size: u32,
) -> (result: Result<TreeTotals, CliError>)
    ensures
        exists|replies: Seq<Result<RpcReplyView, ClientErrorView>>| #[trigger]
            pulled_with(
                old(caller).exchanges(),
                final(caller).exchanges(),
                pull_tree_calls(
                    serial@,
                    remote_tree::file_views(manifest.files@),
                    local_root@,
                    separator,
                    block_size,
                ),
                manifest.directories@.len() as u64,
                remote_tree::file_views(manifest.files@),
                replies,
                error::outcome(result),
            ),
{
    let ghost before = caller.exchanges();
    let ghost files = remote_tree::file_views(manifest.files@);
    let ghost calls = pull_tree_calls(serial@, files, local_root@, separator, block_size);
    let directories: u64 = manifest.directories.len() as u64;
    let ghost mut replies: Seq<Result<RpcReplyView, ClientErrorView>> = Seq::empty();
    let mut totals = TreeTotals {
        created_directories: directories,
        bytes: 0,
        transfer_ids: Vec::new(),
    };
    assert(totals@ =~= (TreeTotalsView { created_directories: directories, ..no_totals() }));
    assert(before + exchanges_of(calls, replies) =~= before);
    let mut i: usize = 0;
    while i < manifest.files.len()
        invariant
            before == old(caller).exchanges(),
            files == remote_tree::file_views(manifest.files@),
            calls == pull_tree_calls(serial@, files, local_root@, separator, block_size),
            directories == manifest.directories@.len() as u64,
            i <= files.len(),
            replies.len() == i,
            caller.exchanges() == before + exchanges_of(calls, replies),
            pull_totals(directories, files, replies) == Ok::<_, CliErrorView>(totals@),
        decreases files.len() - i,
    {
        let file = &manifest.files[i];
        assert(files[i as int] == file@);
        let params = SyncPullParams {
            serial: serial.clone(),
            remote_path: file.remote_path.as_str().to_owned(),
            local_path: local_tree_path(local_root, file.relative_path.as_str(), separator),
            transfer_id: None,
            block_size,
        };
        let ghost call = RpcCallView::SyncPull(params@);
        assert(call == calls[i as int]);
        let asked = ask(caller, RpcCall::SyncPull(params));
        let ghost reply = execute::answer_of(asked);
        let ghost more = replies.push(reply);
        proof {
            assert(more.drop_last() =~= replies);
            assert(exchanges_of(calls, more) =~= exchanges_of(calls, replies).push(
                Exchange { call, reply },
            ));
            assert(before + exchanges_of(calls, more) =~= (before + exchanges_of(
                calls,
                replies,
            )).push(Exchange { call, reply }));
            replies = more;
        }
        let failure = match asked {
            Err(error) => Some(error),
            Ok(answer) => match answer.result {
                CallResult::SyncPull(pulled) => {
                    if pulled.state != TransferState::Complete || pulled.total_size != file.size
                        || pulled.received_size != file.size {
                        Some(invalid_result("sync directory pull size"))
                    } else {
                        let ghost ids = text::all(totals.transfer_ids@);
                        let ghost id = pulled.transfer_id@;
                        totals.bytes = totals.bytes.saturating_add(pulled.received_size);
                        totals.transfer_ids.push(pulled.transfer_id);
                        assert(text::all(totals.transfer_ids@) =~= ids.push(id));
                        None
                    }
                },
                _ => Some(invalid_result("sync directory pull")),
            },
        };
        if let Some(error) = failure {
            let result: Result<TreeTotals, CliError> = Err(error);
            assert(pulled_with(
                before,
                caller.exchanges(),
                calls,
                directories,
                files,
                replies,
                error::outcome(result),
            ));
            return result;
        }
        i += 1;
    }
    let result: Result<TreeTotals, CliError> = Ok(totals);
    assert(pulled_with(
        before,
        caller.exchanges(),
        calls,
        directories,
        files,
        replies,
        error::outcome(result),
    ));
    result
}

/// Fetches the files of a tree that has been listed, into directories that have
/// been made, and lists the tree once more: one that has changed meanwhile fails
/// the pull.
pub fn pull_tree<C: RpcCaller>(
    caller: &mut C,
    serial: &String,
    remote_root: &LogicalSyncPath,
    manifest: &RemoteTreeManifest,
    local_root: &str,
    separator: char,
    block_size: u32,
) -> (result: Result<TreeTotals, CliError>)
    requires
        remote_root.wf(),
    ensures
        tree_pulled(
            old(caller).exchanges(),
            final(caller).exchanges(),
            pull_tree_calls(
                serial@,
                remote_tree::file_views(manifest.files@),
                local_root@,
                separator,
                block_size,
            ),
            *manifest,
            remote_root@,
            serial@,
            error::outcome(result),
        ),
{
    let ghost before = caller.exchanges();
    let fetched = pull_files(caller, serial, manifest, local_root, separator, block_size);
    let ghost between = caller.exchanges();
    let ghost view = error::outcome(fetched);
    let totals = match fetched {
        Ok(totals) => totals,
        Err(error) => {
            return Err(error);
        },
    };
    let again = collect_remote_tree(caller, serial, remote_root);
    let ghost relisting = again;
    let result: Result<TreeTotals, CliError> = match again {
        Err(error) => Err(error),
        Ok(listed) => {
            if check_same_tree(&listed, manifest) {
                Ok(totals)
            } else {
                Err(CliError::RemoteTreeChanged(remote_root.as_str().to_owned()))
            }
        },
    };
    proof {
        assert(remote_tree::collects(
            between,
            caller.exchanges(),
            remote_root@,
            serial@,
            relisting,
        ));
        assert(relisted(
            between,
            caller.exchanges(),
            *manifest,
            remote_root@,
            serial@,
            view->Ok_0,
            error::outcome(result),
        ));
    }
    result
}

/// What lies at the source of a push. A file that is missing is found out later.
#[derive(Debug)]
pub enum LocalSource {
    Symlink,
    /// A directory with what was found in it, or why it could not be walked.
    Directory(Result<LocalTree, CliError>),
    File,
    Unreadable(String),
}

/// What the user is told of a finished transfer, but for how long it took.
#[derive(Debug)]
pub struct TransferSummary {
    pub direction: TransferDirection,
    pub bytes: u64,
    pub path: String,
    pub transfer_id: String,
    pub resumed: bool,
}

/// The model of [`TransferSummary`].
#[verifier::ext_equal]
pub struct TransferSummaryView {
    pub direction: TransferDirection,
    pub bytes: u64,
    pub path: Seq<char>,
    pub transfer_id: Seq<char>,
    pub resumed: bool,
}

impl View for TransferSummary {
    type V = TransferSummaryView;

    open spec fn view(&self) -> TransferSummaryView {
        TransferSummaryView {
            direction: self.direction,
            bytes: self.bytes,
            path: self.path@,
            transfer_id: self.transfer_id@,
            resumed: self.resumed,
        }
    }
}

/// What is reported of a finished directory transfer, but for how long it took.
#[derive(Debug)]
pub struct TreeReport {
    pub direction: TransferDirection,
    pub source: String,
    pub destination: String,
    pub files: usize,
    pub directories: usize,
    pub totals: TreeTotals,
}

/// The model of [`TreeReport`].
#[verifier::ext_equal]
pub struct TreeReportView {
    pub direction: TransferDirection,
    pub source: Seq<char>,
    pub destination: Seq<char>,
    pub files: usize,
    pub directories: usize,
    pub totals: TreeTotalsView,
}

impl View for TreeReport {
    type V = TreeReportView;

    open spec fn view(&self) -> TreeReportView {
        TreeReportView {
            direction: self.direction,
            source: self.source@,
            destination: self.destination@,
            files: self.files,
            directories: self.directories,
            totals: self.totals@,
        }
    }
}

/// How a transfer ended.
#[derive(Debug)]
pub enum Transferred {
    /// The answer of the server as JSON.
    Json(String),
    /// A file.
    File(TransferSummary),
    /// A directory.
    Tree(TreeReport),
}

/// The model of [`Transferred`].
#[verifier::ext_equal]
pub enum TransferredView {
    Json(Seq<char>),
    File(TransferSummaryView),
    Tree(TreeReportView),
}

impl View for Transferred {
    type V = TransferredView;

    open spec fn view(&self) -> TransferredView {
        match *self {
            Transferred::Json(text) => TransferredView::Json(text@),
            Transferred::File(summary) => TransferredView::File(summary@),
            Transferred::Tree(report) => TransferredView::Tree(report@),
        }
    }
}

/// Checks the block size that the user asks for.
pub fn validate_block_size(block_size: usize) -> (result: Result<(), CliError>)
    ensures
        error::outcome(result) == (if 1 <= block_size <= MAX_SYNC_BLOCK_SIZE {
            Ok(())
        } else {
            Err(CliErrorView::InvalidBlockSize)
        }),
{
    if 1 <= block_size && block_size <= MAX_SYNC_BLOCK_SIZE as usize {
        Ok(())
    } else {
        Err(CliError::InvalidBlockSize)
    }
}

/// Why a transfer is refused before anything is sent, if it is: the block size
/// is checked before the paths.
pub open spec fn path_refusal(block_size: nat, local: HostPath, remote: Seq<char>) -> Option<
    CliErrorView,
> {
    if block_size < 1 || block_size > MAX_SYNC_BLOCK_SIZE {
        Some(CliErrorView::InvalidBlockSize)
    } else {
        match local {
            HostPath::Unresolved(message) => Some(CliErrorView::CurrentDirectory(message@)),
            HostPath::Absolute(_) => match logical_path::normalized(remote) {
                Ok(_) => None,
                Err(reason) => Some(CliErrorView::InvalidRemotePath { path: remote, reason }),
            },
        }
    }
}

/// Why a push is refused before anything is sent, if it is.
pub open spec fn push_refusal(
    block_size: nat,
    local: HostPath,
    remote: Seq<char>,
    source: LocalSource,
    resume: Option<Seq<char>>,
) -> Option<CliErrorView> {
    match path_refusal(block_size, local, remote) {
        Some(error) => Some(error),
        None => match source {
            LocalSource::Symlink => Some(
                CliErrorView::LocalTree("source must not be a symbolic link"@),
            ),
            LocalSource::Unreadable(message) => Some(CliErrorView::LocalTree(message@)),
            LocalSource::Directory(walked) => if resume is Some {
                Some(CliErrorView::DirectoryResumeUnsupported)
            } else {
                match walked {
                    Ok(_) => None,
                    Err(error) => Some(error@),
                }
            },
            LocalSource::File => None,
        },
    }
}

/// What the answer to the push of a file shows.
pub open spec fn push_shown(
    json: bool,
    remote_path: Seq<char>,
    resumed: bool,
    reply: RpcReplyView,
) -> Result<TransferredView, CliErrorView> {
    match reply.result {
        CallResultView::SyncPush(result) => Ok(
            if json {
                TransferredView::Json(reply.pretty)
            } else {
                TransferredView::File(
                    TransferSummaryView {
                        direction: TransferDirection::Push,
                        bytes: result.accepted_offset,
                        path: remote_path,
                        transfer_id: result.transfer_id,
                        resumed,
                    },
                )
            },
        ),
        _ => Err(invalid("sync push"@)),
    }
}

/// The files of a tree with the device paths that were given to them, behind
/// those of its directories.
pub open spec fn pairs_for(tree: LocalTree, paths: Seq<Seq<char>>) -> Seq<PathPair> {
    Seq::new(
        tree.files@.len(),
        |i: int| (paths[tree.directories@.len() + 1 + i], tree.files@[i].path@),
    )
}

/// Whether a directory was pushed so.
pub open spec fn directory_pushed(
    before: Seq<Exchange>,
    after: Seq<Exchange>,
    serial: Seq<char>,
    local_path: Seq<char>,
    remote_path: Seq<char>,
    block_size: u32,
    tree: LocalTree,
    result: Result<TransferredView, CliErrorView>,
) -> bool {
    match local_tree::device_paths(
        remote_path,
        text::all(tree.directories@) + local_tree::relatives(tree.files@),
    ) {
        Err(error) => after == before && result == Err::<TransferredView, _>(error),
        Ok(paths) => {
            let directories = tree.directories@.len() + 1;
            exists|totals: Result<TreeTotalsView, CliErrorView>| #[trigger]
                tree_pushed(
                    before,
                    after,
                    push_tree_calls(
                        serial,
                        paths.take(directories as int),
                        pairs_for(tree, paths),
                        block_size,
                    ),
                    directories as nat,
                    totals,
                ) && result == (match totals {
                    Err(error) => Err(error),
                    Ok(totals) => Ok(
                        TransferredView::Tree(
                            TreeReportView {
                                direction: TransferDirection::Push,
                                source: local_path,
                                destination: remote_path,
                                files: tree.files@.len() as usize,
                                directories: directories as usize,
                                totals,
                            },
                        ),
                    ),
                })
        },
    }
}

fn push_directory<C: RpcCaller>(
    caller: &mut C,
    serial: &String,
    local_path: &String,
    remote_path: &LogicalSyncPath,
    block_size: u32,
    tree: LocalTree,
) -> (result: Result<Transferred, CliError>)
    requires
        remote_path.wf(),
    ensures
        directory_pushed(
            old(caller).exchanges(),
            final(caller).exchanges(),
            serial@,
            local_path@,
            remote_path@,
            block_size,
            tree,
            error::outcome(result),
        ),
{
    let ghost before = caller.exchanges();
    let ghost local = tree;
    let ghost all = text::all(tree.directories@) + local_tree::relatives(tree.files@);
    let ghost count = tree.directories@.len() + 1;
    let prepared = prepare_push_tree(remote_path, tree)?;
    let ghost paths = local_tree::device_paths(remote_path@, all)->Ok_0;
    proof {
        assert(paths.take(count as int) =~= local_tree::path_texts(prepared.directories@));
        assert(pairs_for(local, paths) =~= file_pairs(prepared.files@)) by {
            assert forall|i: int| 0 <= i < local.files@.len() implies #[trigger] pairs_for(
                local,
                paths,
            )[i] == file_pairs(prepared.files@)[i] by {
                assert(prepared.files@[i].local_path@ == local.files@[i].path@);
            }
        }
    }
    let pushed = push_tree(caller, serial, &prepared, block_size);
    let ghost view = error::outcome(pushed);
    assert(tree_pushed(
        before,
        caller.exchanges(),
        push_tree_calls(
            serial@,
            paths.take(count as int),
            pairs_for(local, paths),
            block_size,
        ),
        count,
        view,
    ));
    let totals = pushed?;
    Ok(
        Transferred::Tree(
            TreeReport {
                direction: TransferDirection::Push,
                source: local_path.clone(),
                destination: remote_path.as_str().to_owned(),
                files: prepared.files.len(),
                directories: prepared.directories.len(),
                totals,
            },
        ),
    )
}

/// Whether a push ended so.
pub open spec fn pushed(
    before: Seq<Exchange>,
    after: Seq<Exchange>,
    serial: Seq<char>,
    local: HostPath,
    remote: Seq<char>,
    block_size: nat,
    resume: Option<Seq<char>>,
    source: LocalSource,
    json: bool,
    result: Result<TransferredView, CliErrorView>,
) -> bool {
    match push_refusal(block_size, local, remote, source, resume) {
        Some(error) => after == before && result == Err::<TransferredView, _>(error),
        None => {
            let remote_path = logical_path::normalized(remote)->Ok_0;
            let local_path = local->Absolute_0@;
            match source {
                LocalSource::Directory(Ok(tree)) => directory_pushed(
                    before,
                    after,
                    serial,
                    local_path,
                    remote_path,
                    block_size as u32,
                    tree,
                    result,
                ),
                _ => one_call(
                    before,
                    after,
                    RpcCallView::SyncPush(
                        SyncPushParamsView {
                            serial,
                            local_path,
                            remote_path,
                            transfer_id: resume,
                            block_size: block_size as u32,
                        },
                    ),
                    |reply: RpcReplyView| push_shown(json, remote_path, resume is Some, reply),
                    result,
                ),
            }
        },
    }
}

/// Pushes a file or a directory tree to a device.
pub fn execute_push<C: RpcCaller>(
    caller: &mut C,
    serial: &String,
    local: HostPath,
    remote_path: &str,
    block_size: usize,
    resume: &Option<String>,
    source: LocalSource,
    json_output: bool,
) -> (result: Result<Transferred, CliError>)
    ensures
        pushed(
            old(caller).exchanges(),
            final(caller).exchanges(),
            serial@,
            local,
            remote_path@,
            block_size as nat,
            text::optional(*resume),
            source,
            json_output,
            error::outcome(result),
        ),
{
    validate_block_size(block_size)?;
    let block_size: u32 = block_size as u32;
    let local_path = match local {
        HostPath::Absolute(path) => path,
        HostPath::Unresolved(message) => {
            return Err(CliError::CurrentDirectory(message));
        },
    };
    let remote = normalize_remote_path(remote_path)?;
    match source {
        LocalSource::Symlink => {
            return Err(CliError::LocalTree("source must not be a symbolic link".to_owned()));
        },
        LocalSource::Unreadable(message) => {
            return Err(CliError::LocalTree(message));
        },
        LocalSource::Directory(walked) => {
            if resume.is_some() {
                return Err(CliError::DirectoryResumeUnsupported);
            }
            let tree = walked?;
            return push_directory(caller, serial, &local_path, &remote, block_size, tree);
        },
        LocalSource::File => {},
    }
    let params = SyncPushParams {
        serial: serial.clone(),
        local_path,
        remote_path: remote.as_str().to_owned(),
        transfer_id: clone_optional(resume),
        block_size,
    };
    let reply = ask(caller, RpcCall::SyncPush(params))?;
    match reply.result {
        CallResult::SyncPush(result) => {
            if json_output {
                Ok(Transferred::Json(reply.pretty))
            } else {
                Ok(
                    Transferred::File(
                        TransferSummary {
                            direction: TransferDirection::Push,
                            bytes: result.accepted_offset,
                            path: remote.as_str().to_owned(),
                            transfer_id: result.transfer_id,
                            resumed: resume.is_some(),
                        },
                    ),
                )
            }
        },
        _ => Err(invalid_result("sync push")),
    }
}

/// What lies at the destination of a pull.
#[derive(Clone, Copy, Debug, PartialEq, Eq, Structural)]
pub enum Destination {
    /// Something is there already.
    Exists,
    /// The path has no directory above it.
    NoParent,
    /// The place is free.
    Free,
}

/// Why a pull is refused before anything is sent, if it is. What is already there is
/// never replaced.
pub open spec fn pull_refusal(
    block_size: u32,
    local: HostPath,
    remote: Seq<char>,
    destination: Destination,
) -> Option<CliErrorView> {
    if block_size < 1 || block_size > MAX_SYNC_BLOCK_SIZE {
        Some(CliErrorView::InvalidBlockSize)
    } else {
        match logical_path::normalized(remote) {
            Err(reason) => Some(CliErrorView::InvalidRemotePath { path: remote, reason }),
            Ok(_) => match local {
                HostPath::Unresolved(message) => Some(CliErrorView::CurrentDirectory(message@)),
                HostPath::Absolute(path) => if destination == Destination::Exists {
                    Some(CliErrorView::LocalTree("destination already exists: "@ + path@))
                } else {
                    None
                },
            },
        }
    }
}

/// The two paths of a pull.
pub(crate) struct PullPaths {
    pub remote: LogicalSyncPath,
    pub local: String,
}

pub(crate) fn pull_paths(
    block_size: u32,
    local: HostPath,
    remote_path: &str,
    destination: Destination,
) -> (result: Result<PullPaths, CliError>)
    ensures
        match pull_refusal(block_size, local, remote_path@, destination) {
            Some(refusal) => result matches Err(error) && error@ == refusal,
            None => result matches Ok(paths) && paths.remote.wf() && logical_path::normalized(
                remote_path@,
            ) == Ok::<_, Seq<char>>(paths.remote@) && local == HostPath::Absolute(paths.local),
        },
{
    validate_block_size(block_size as usize)?;
    let remote = normalize_remote_path(remote_path)?;
    match local {
        HostPath::Absolute(path) => {
            if destination == Destination::Exists {
                Err(CliError::LocalTree(concat("destination already exists: ", path.as_str())))
            } else {
                Ok(PullPaths { remote, local: path })
            }
        },
        HostPath::Unresolved(message) => Err(CliError::CurrentDirectory(message)),
    }
}

/// What the answer to the pull of a file shows.
pub open spec fn pull_shown(
    json: bool,
    local_path: Seq<char>,
    resumed: bool,
    reply: RpcReplyView,
) -> Result<TransferredView, CliErrorView> {
    match reply.result {
        CallResultView::SyncPull(result) => Ok(
            if json {
                TransferredView::Json(reply.pretty)
            } else {
                TransferredView::File(
                    TransferSummaryView {
                        direction: TransferDirection::Pull,
                        bytes: result.received_size,
                        path: local_path,
                        transfer_id: result.transfer_id,
                        resumed,
                    },
                )
            },
        ),
        _ => Err(invalid("sync pull"@)),
    }
}

/// Whether the pull of a file ended so.
pub open spec fn pulled(
    before: Seq<Exchange>,
    after: Seq<Exchange>,
    serial: Seq<char>,
    local: HostPath,
    remote: Seq<char>,
    block_size: u32,
    resume: Option<Seq<char>>,
    destination: Destination,
    json: bool,
    result: Result<TransferredView, CliErrorView>,
) -> bool {
    match pull_refusal(block_size, local, remote, destination) {
        Some(error) => after == before && result == Err::<TransferredView, _>(error),
        None => one_call(
            before,
            after,
            RpcCallView::SyncPull(
                SyncPullParamsView {
                    serial,
                    remote_path: logical_path::normalized(remote)->Ok_0,
                    local_path: local->Absolute_0@,
                    transfer_id: resume,
                    block_size,
                },
            ),
            |reply: RpcReplyView|
                pull_shown(json, local->Absolute_0@, resume is Some, reply),
            result,
        ),
    }
}

/// Pulls one file from a device to a place where nothing is.
pub fn execute_pull<C: RpcCaller>(
    caller: &mut C,
    serial: &String,
    remote_path: &str,
    local: HostPath,
    block_size: u32,
    resume: &Option<String>,
    destination: Destination,
    json_output: bool,
) -> (result: Result<Transferred, CliError>)
    ensures
        pulled(
            old(caller).exchanges(),
            final(caller).exchanges(),
            serial@,
            local,
            remote_path@,
            block_size,
            text::optional(*resume),
            destination,
            json_output,
            error::outcome(result),
        ),
{
    let paths = pull_paths(block_size, local, remote_path, destination)?;
    let params = SyncPullParams {
        serial: serial.clone(),
        remote_path: paths.remote.as_str().to_owned(),
        local_path: paths.local.clone(),
        transfer_id: clone_optional(resume),
        block_size,
    };
    let reply = ask(caller, RpcCall::SyncPull(params))?;
    match reply.result {
        CallResult::SyncPull(result) => {
            if json_output {
                Ok(Transferred::Json(reply.pretty))
            } else {
                Ok(
                    Transferred::File(
                        TransferSummary {
                            direction: TransferDirection::Pull,
                            bytes: result.received_size,
                            path: paths.local,
                            transfer_id: result.transfer_id,
                            resumed: resume.is_some(),
                        },
                    ),
                )
            }
        },
        _ => Err(invalid_result("sync pull")),
    }
}

/// A directory pull whose tree has been listed.
pub struct PullPlan {
    serial: String,
    remote_root: LogicalSyncPath,
    local_root: String,
    block_size: u32,
    manifest: RemoteTreeManifest,
}

impl PullPlan {
    /// The root of the tree is acceptable.
    pub closed spec fn wf(&self) -> bool {
        self.remote_root.wf()
    }

    /// The device that the tree is on.
    pub closed spec fn serial(&self) -> Seq<char> {
        self.serial@
    }

    /// The root of the tree on the device.
    pub closed spec fn remote_root(&self) -> Seq<char> {
        self.remote_root@
    }

    /// The root of the tree on the host.
    pub closed spec fn local_root(&self) -> Seq<char> {
        self.local_root@
    }

    /// The block size of the transfers.
    pub closed spec fn block_size(&self) -> u32 {
        self.block_size
    }

    /// What the tree holds.
    pub closed spec fn manifest(&self) -> RemoteTreeManifest {
        self.manifest
    }
}

/// Why a directory pull is refused before anything is sent, if it is.
pub open spec fn pull_tree_refusal(
    block_size: u32,
    local: HostPath,
    remote: Seq<char>,
    destination: Destination,
) -> Option<CliErrorView> {
    match pull_refusal(block_size, local, remote, destination) {
        Some(error) => Some(error),
        None => if destination == Destination::NoParent {
            Some(CliErrorView::LocalTree("destination has no parent"@))
        } else {
            None
        },
    }
}

pub(crate) fn pull_tree_paths(
    block_size: u32,
    local: HostPath,
    remote_path: &str,
    destination: Destination,
) -> (result: Result<PullPaths, CliError>)
    ensures
        match pull_tree_refusal(block_size, local, remote_path@, destination) {
            Some(refusal) => result matches Err(error) && error@ == refusal,
            None => result matches Ok(paths) && paths.remote.wf() && logical_path::normalized(
                remote_path@,
            ) == Ok::<_, Seq<char>>(paths.remote@) && local == HostPath::Absolute(paths.local),
        },
{
    let paths = pull_paths(block_size, local, remote_path, destination)?;
    if destination == Destination::NoParent {
        return Err(CliError::LocalTree("destination has no parent".to_owned()));
    }
    Ok(paths)
}

/// Begins to pull a directory tree: it is listed in full before anything is made
/// on the host.
pub fn begin_pull_tree<C: RpcCaller>(
    caller: &mut C,
    serial: &String,
    remote_path: &str,
    local: HostPath,
    block_size: u32,
    destination: Destination,
) -> (result: Result<PullPlan, CliError>)
    ensures
        match pull_tree_refusal(block_size, local, remote_path@, destination) {
            Some(refusal) => final(caller).exchanges() == old(caller).exchanges() && (
            result matches Err(error) && error@ == refusal),
            None => {
                let root = logical_path::normalized(remote_path@)->Ok_0;
                match result {
                    Ok(plan) => {
                        &&& plan.wf()
                        &&& plan.serial() == serial@
                        &&& plan.remote_root() == root
                        &&& plan.local_root() == local->Absolute_0@
                        &&& plan.block_size() == block_size
                        &&& remote_tree::collects(
                            old(caller).exchanges(),
                            final(caller).exchanges(),
                            root,
                            serial@,
                            Ok(plan.manifest()),
                        )
                    },
                    Err(error) => remote_tree::collects(
                        old(caller).exchanges(),
                        final(caller).exchanges(),
                        root,
                        serial@,
                        Err(error),
                    ),
                }
            },
        },
{
    let paths = pull_tree_paths(block_size, local, remote_path, destination)?;
    let collected = collect_remote_tree(caller, serial, &paths.remote);
    match collected {
        Err(error) => Err(error),
        Ok(manifest) => Ok(
            PullPlan {
                serial: serial.clone(),
                remote_root: paths.remote,
                local_root: paths.local,
                block_size,
                manifest,
            },
        ),
    }
}

/// The directories below the root of a tree, in order, on the host.
pub open spec fn host_directories(
    manifest: RemoteTreeManifest,
    local_root: Seq<char>,
    separator: char,
    count: int,
) -> Seq<Seq<char>>
    decreases count,
{
    if count <= 0 {
        Seq::empty()
    } else {
        let before = host_directories(manifest, local_root, separator, count - 1);
        let relative = manifest.directories@[count - 1].relative_path@;
        if relative.len() == 0 {
            before
        } else {
            before.push(host_path::path_below(local_root, path::split(relative, '/'), separator))
        }
    }
}

impl PullPlan {
    /// The root of the tree on the host.
    pub fn destination(&self) -> (path: &str)
        ensures
            path@ == self.local_root(),
    {
        self.local_root.as_str()
    }

    /// The directories to be made below the root, each behind those above it.
    pub fn directories(&self, separator: char) -> (paths: Vec<String>)
        ensures
            text::all(paths@) == host_directories(
                self.manifest(),
                self.local_root(),
                separator,
                self.manifest().directories@.len() as int,
            ),
    {
        let mut paths: Vec<String> = Vec::new();
        let mut i: usize = 0;
        assert(text::all(paths@) =~= Seq::<Seq<char>>::empty());
        while i < self.manifest.directories.len()
            invariant
                i <= self.manifest.directories@.len(),
                text::all(paths@) == host_directories(
                    self.manifest,
                    self.local_root@,
                    separator,
                    i as int,
                ),
            decreases self.manifest.directories@.len() - i,
        {
            let relative = self.manifest.directories[i].relative_path.as_str();
            if !relative.is_empty() {
                let ghost before = text::all(paths@);
                let path = local_tree_path(self.local_root.as_str(), relative, separator);
                let ghost added = path@;
                paths.push(path);
                assert(text::all(paths@) =~= before.push(added));
            }
            i += 1;
        }
        paths
    }
}

/// Fetches the files of a listed tree into the directories that have been made.
pub fn finish_pull_tree<C: RpcCaller>(caller: &mut C, plan: PullPlan, separator: char) -> (result:
    Result<Transferred, CliError>)
    requires
        plan.wf(),
    ensures
        exists|totals: Result<TreeTotalsView, CliErrorView>| #[trigger]
            tree_pulled(
                old(caller).exchanges(),
                final(caller).exchanges(),
                pull_tree_calls(
                    plan.serial(),
                    remote_tree::file_views(plan.manifest().files@),
                    plan.local_root(),
                    separator,
                    plan.block_size(),
                ),
                plan.manifest(),
                plan.remote_root(),
                plan.serial(),
                totals,
            ) && error::outcome(result) == (match totals {
                Err(error) => Err(error),
                Ok(totals) => Ok(
                    TransferredView::Tree(
                        TreeReportView {
                            direction: TransferDirection::Pull,
                            source: plan.remote_root(),
                            destination: plan.local_root(),
                            files: plan.manifest().files@.len() as usize,
                            directories: plan.manifest().directories@.len() as usize,
                            totals,
                        },
                    ),
                ),
            }),
{
    let pulled = pull_tree(
        caller,
        &plan.serial,
        &plan.remote_root,
        &plan.manifest,
        plan.local_root.as_str(),
        separator,
        plan.block_size,
    );
    let ghost view = error::outcome(pulled);
    assert(tree_pulled(
        old(caller).exchanges(),
        caller.exchanges(),
        pull_tree_calls(
            plan.serial(),
            remote_tree::file_views(plan.manifest().files@),
            plan.local_root(),
            separator,
            plan.block_size(),
        ),
        plan.manifest(),
        plan.remote_root(),
        plan.serial(),
        view,
    ));
    let totals = pulled?;
    Ok(
        Transferred::Tree(
            TreeReport {
                direction: TransferDirection::Pull,
                source: plan.remote_root.as_str().to_owned(),
                destination: plan.local_root,
                files: plan.manifest.files.len(),
                directories: plan.manifest.directories.len(),
                totals,
            },
        ),
    )
}

/// The bytes that the answers to pushes say were accepted.
pub open spec fn accepted_bytes(replies: Seq<Result<RpcReplyView, ClientErrorView>>) -> nat
    decreases replies.len(),
{
    if replies.len() == 0 {
        0
    } else {
        accepted_bytes(replies.drop_last()) + match replies.last() {
            Ok(answer) => match answer.result {
                CallResultView::SyncPush(result) => result.accepted_offset as nat,
                _ => 0nat,
            },
            Err(_) => 0nat,
        }
    }
}

/// Whether an answer says that a file was pushed by this transfer.
pub open spec fn pushed_by(
    reply: Result<RpcReplyView, ClientErrorView>,
    transfer_id: Seq<char>,
) -> bool {
    reply matches Ok(answer) && answer.result matches CallResultView::SyncPush(result)
        && result.transfer_id == transfer_id
}

/// How many of the answers say that a directory was created.
pub open spec fn created_count(replies: Seq<Result<RpcReplyView, ClientErrorView>>) -> nat
    decreases replies.len(),
{
    if replies.len() == 0 {
        0
    } else {
        created_count(replies.drop_last()) + match replies.last() {
            Ok(answer) => match answer.result {
                CallResultView::SyncMkdir(result) => if result.created {
                    1nat
                } else {
                    0nat
                },
                _ => 0nat,
            },
            Err(_) => 0nat,
        }
    }
}

proof fn push_adds_up(directories: nat, replies: Seq<Result<RpcReplyView, ClientErrorView>>)
    requires
        push_totals(directories, replies) is Ok,
    ensures
        ({
            let totals = push_totals(directories, replies)->Ok_0;
            &&& replies.len() >= directories ==> totals.transfer_ids.len() == replies.len()
                - directories
            &&& replies.len() < directories ==> totals.transfer_ids.len() == 0
            &&& forall|i: int|
                0 <= i < totals.transfer_ids.len() ==> pushed_by(
                    replies[directories + i],
                    #[trigger] totals.transfer_ids[i],
                )
            &&& accepted_bytes(replies) <= u64::MAX ==> totals.bytes == accepted_bytes(replies)
            &&& created_count(replies) <= u64::MAX ==> totals.created_directories == created_count(
                replies,
            )
        }),
    decreases replies.len(),
{
    if replies.len() > 0 {
        let fewer = replies.drop_last();
        push_adds_up(directories, fewer);
        let totals = push_totals(directories, replies)->Ok_0;
        let earlier = push_totals(directories, fewer)->Ok_0;
        assert forall|i: int| 0 <= i < totals.transfer_ids.len() implies pushed_by(
            replies[directories + i],
            #[trigger] totals.transfer_ids[i],
        ) by {
            if i < earlier.transfer_ids.len() {
                assert(totals.transfer_ids[i] == earlier.transfer_ids[i]);
                assert(fewer[directories + i] == replies[directories + i]);
            } else {
                assert(directories + i == replies.len() - 1);
            }
        }
    }
}

/// A directory is pushed whole: its root is made on the device, then each of its
/// directories, and then each of its files is sent from its place on the host to the place
/// with the same path below the device root, each by one request and in order. The report
/// names the transfer of each file and adds up what the device said.
pub proof fn pushed_trees_keep_their_shape(
    before: Seq<Exchange>,
    after: Seq<Exchange>,
    serial: Seq<char>,
    local_path: Seq<char>,
    remote_path: Seq<char>,
    block_size: u32,
    tree: LocalTree,
    report: TreeReportView,
)
    requires
        directory_pushed(
            before,
            after,
            serial,
            local_path,
            remote_path,
            block_size,
            tree,
            Ok::<_, CliErrorView>(TransferredView::Tree(report)),
        ),
        forall|i: int| 0 <= i < tree.directories@.len() ==> (#[trigger] tree.directories@[i])@.len() > 0,
        forall|i: int| 0 <= i < tree.files@.len() ==> (#[trigger] tree.files@[i]).relative@.len() > 0,
    ensures
        ({
            let directories = tree.directories@.len() as int;
            let files = tree.files@.len() as int;
            let sent = after.skip(before.len() as int);
            let replies = Seq::new(sent.len(), |i: int| sent[i].reply);
            &&& before.is_prefix_of(after)
            &&& sent.len() == directories + 1 + files
            &&& sent[0].call == RpcCallView::SyncMkdir(SyncMkdirParamsView { serial, remote_path })
            &&& forall|i: int|
                0 <= i < directories ==> (#[trigger] sent[i + 1]).call == RpcCallView::SyncMkdir(
                    SyncMkdirParamsView {
                        serial,
                        remote_path: remote_path + seq!['/'] + tree.directories@[i]@,
                    },
                )
            &&& forall|i: int|
                0 <= i < files ==> (#[trigger] sent[directories + 1 + i]).call
                    == RpcCallView::SyncPush(
                    SyncPushParamsView {
                        serial,
                        local_path: tree.files@[i].path@,
                        remote_path: remote_path + seq!['/'] + tree.files@[i].relative@,
                        transfer_id: None,
                        block_size,
                    },
                )
            &&& report.direction == TransferDirection::Push
            &&& report.source == local_path
            &&& report.destination == remote_path
            &&& directories + files < usize::MAX ==> report.files == files && report.directories
                == directories + 1
            &&& report.totals.transfer_ids.len() == files
            &&& forall|i: int|
                0 <= i < files ==> pushed_by(
                    sent[directories + 1 + i].reply,
                    #[trigger] report.totals.transfer_ids[i],
                )
            &&& accepted_bytes(replies) <= u64::MAX ==> report.totals.bytes == accepted_bytes(
                replies,
            )
            &&& created_count(replies) <= u64::MAX ==> report.totals.created_directories
                == created_count(replies)
        }),
{
    let all = text::all(tree.directories@) + local_tree::relatives(tree.files@);
    let directories = tree.directories@.len() as int;
    let files = tree.files@.len() as int;
    local_tree::device_paths_follow_the_tree(remote_path, all);
    let paths = local_tree::device_paths(remote_path, all)->Ok_0;
    let calls = push_tree_calls(
        serial,
        paths.take(directories + 1),
        pairs_for(tree, paths),
        block_size,
    );
    let totals = choose|totals: Result<TreeTotalsView, CliErrorView>| #[trigger]
        tree_pushed(before, after, calls, (directories + 1) as nat, totals) && (match totals {
            Err(error) => Err::<TransferredView, _>(error),
            Ok(totals) => Ok(
                TransferredView::Tree(
                    TreeReportView {
                        direction: TransferDirection::Push,
                        source: local_path,
                        destination: remote_path,
                        files: files as usize,
                        directories: (directories + 1) as usize,
                        totals,
                    },
                ),
            ),
        }) == Ok::<_, CliErrorView>(TransferredView::Tree(report));
    assert(totals == Ok::<_, CliErrorView>(report.totals));
    let replies = choose|replies: Seq<Result<RpcReplyView, ClientErrorView>>| #[trigger]
        pushed_with(before, after, calls, (directories + 1) as nat, replies, totals);
    let sent = after.skip(before.len() as int);
    assert(sent =~= exchanges_of(calls, replies));
    assert(Seq::new(sent.len(), |i: int| sent[i].reply) =~= replies);
    push_adds_up((directories + 1) as nat, replies);
    assert forall|i: int| 0 <= i < directories implies (#[trigger] sent[i + 1]).call
        == RpcCallView::SyncMkdir(
        SyncMkdirParamsView {
            serial,
            remote_path: remote_path + seq!['/'] + tree.directories@[i]@,
        },
    ) by {
        assert(all[i] == tree.directories@[i]@);
        assert(paths[i + 1] == remote_path + seq!['/'] + all[i]);
    }
    assert forall|i: int| 0 <= i < files implies (#[trigger] sent[directories + 1 + i]).call
        == RpcCallView::SyncPush(
        SyncPushParamsView {
            serial,
            local_path: tree.files@[i].path@,
            remote_path: remote_path + seq!['/'] + tree.files@[i].relative@,
            transfer_id: None,
            block_size,
        },
    ) by {
        assert(all[directories + i] == tree.files@[i].relative@);
        assert(paths[directories + i + 1] == remote_path + seq!['/'] + all[directories + i]);
    }
    assert forall|i: int| 0 <= i < files implies pushed_by(
        sent[directories + 1 + i].reply,
        #[trigger] report.totals.transfer_ids[i],
    ) by {
        assert(pushed_by(
            replies[(directories + 1) as nat + i],
            push_totals((directories + 1) as nat, replies)->Ok_0.transfer_ids[i],
        ));
    }
}

/// A push of a directory that fails stops at once: every request before the last one was
/// answered as it should be, and the last one was not.
pub proof fn failed_tree_pushes_stop(
    before: Seq<Exchange>,
    after: Seq<Exchange>,
    calls: Seq<RpcCallView>,
    directories: nat,
    error: CliErrorView,
)
    requires
        tree_pushed(before, after, calls, directories, Err(error)),
        directories <= calls.len(),
    ensures
        before.len() < after.len() <= before.len() + calls.len(),
        before.is_prefix_of(after),
        match after.last().reply {
            Err(failure) => error == CliErrorView::Rpc(failure),
            Ok(answer) => if after.len() - before.len() <= directories {
                !(answer.result is SyncMkdir) && error == CliErrorView::InvalidResult {
                    kind: "sync mkdir"@,
                }
            } else {
                !(answer.result is SyncPush) && error == CliErrorView::InvalidResult {
                    kind: "sync directory push"@,
                }
            },
        },
{
    let replies = choose|replies: Seq<Result<RpcReplyView, ClientErrorView>>| #[trigger]
        pushed_with(before, after, calls, directories, replies, Err::<TreeTotalsView, _>(error));
    assert(after.last() == exchanges_of(calls, replies).last());
}

/// The bytes that the answers to pulls say were received.
pub open spec fn received_bytes(replies: Seq<Result<RpcReplyView, ClientErrorView>>) -> nat
    decreases replies.len(),
{
    if replies.len() == 0 {
        0
    } else {
        received_bytes(replies.drop_last()) + match replies.last() {
            Ok(answer) => match answer.result {
                CallResultView::SyncPull(result) => result.received_size as nat,
                _ => 0nat,
            },
            Err(_) => 0nat,
        }
    }
}

/// The files of a listed tree are fetched whole: each by one request, in order, from its
/// place on the device to the place with the same components below the local root; each
/// came complete and in the size it was listed with, and the totals name its transfer and
/// add up the bytes.
pub proof fn pulled_files_are_whole(
    before: Seq<Exchange>,
    after: Seq<Exchange>,
    serial: Seq<char>,
    files: Seq<RemoteFileView>,
    local_root: Seq<char>,
    separator: char,
    block_size: u32,
    directories: u64,
    replies: Seq<Result<RpcReplyView, ClientErrorView>>,
    totals: TreeTotalsView,
)
    requires
        pulled_with(
            before,
            after,
            pull_tree_calls(serial, files, local_root, separator, block_size),
            directories,
            files,
            replies,
            Ok(totals),
        ),
    ensures
        before.is_prefix_of(after),
        after.len() == before.len() + files.len(),
        totals.created_directories == directories,
        totals.transfer_ids.len() == files.len(),
        received_bytes(replies) <= u64::MAX ==> totals.bytes == received_bytes(replies),
        forall|i: int|
            0 <= i < files.len() ==> {
                let sent = #[trigger] after[before.len() + i];
                &&& sent.call == RpcCallView::SyncPull(
                    SyncPullParamsView {
                        serial,
                        remote_path: files[i].remote_path,
                        local_path: host_path::path_below(
                            local_root,
                            path::split(files[i].relative_path, '/'),
                            separator,
                        ),
                        transfer_id: None,
                        block_size,
                    },
                )
                &&& sent.reply matches Ok(answer) && answer.result matches CallResultView::SyncPull(
                    pulled,
                ) && pulled.state == TransferState::Complete && pulled.total_size == files[i].size
                    && pulled.received_size == files[i].size && pulled.transfer_id
                    == totals.transfer_ids[i]
            },
{
    pull_adds_up(directories, files, replies);
}

proof fn pull_adds_up(
    directories: u64,
    files: Seq<RemoteFileView>,
    replies: Seq<Result<RpcReplyView, ClientErrorView>>,
)
    requires
        pull_totals(directories, files, replies) is Ok,
        replies.len() <= files.len(),
    ensures
        ({
            let totals = pull_totals(directories, files, replies)->Ok_0;
            &&& totals.created_directories == directories
            &&& totals.transfer_ids.len() == replies.len()
            &&& received_bytes(replies) <= u64::MAX ==> totals.bytes == received_bytes(replies)
            &&& forall|i: int|
                0 <= i < replies.len() ==> ((#[trigger] replies[i]) matches Ok(answer)
                    && answer.result matches CallResultView::SyncPull(pulled) && pulled.state
                    == TransferState::Complete && pulled.total_size == files[i].size
                    && pulled.received_size == files[i].size && pulled.transfer_id
                    == totals.transfer_ids[i])
        }),
    decreases replies.len(),
{
    if replies.len() > 0 {
        let fewer = replies.drop_last();
        pull_adds_up(directories, files, fewer);
        let totals = pull_totals(directories, files, replies)->Ok_0;
        assert forall|i: int| 0 <= i < replies.len() implies ((#[trigger] replies[i]) matches Ok(
            answer,
        ) && answer.result matches CallResultView::SyncPull(pulled) && pulled.state
            == TransferState::Complete && pulled.total_size == files[i].size && pulled.received_size
            == files[i].size && pulled.transfer_id == totals.transfer_ids[i]) by {
            if i < fewer.len() {
                assert(fewer[i] == replies[i]);
            }
        }
    }
}

/// A transfer begins only with blocks of at least one byte and at most one mebibyte,
/// between a host path that is known and a device path that is acceptable. A link is
/// never pushed, and a directory only in one go.
pub proof fn unfitting_transfers_are_refused(
    block_size: nat,
    local: HostPath,
    remote: Seq<char>,
    source: LocalSource,
    resume: Option<Seq<char>>,
)
    ensures
        path_refusal(block_size, local, remote) is None <==> 1 <= block_size <= 1024 * 1024 && local
            is Absolute && logical_path::normalized(remote) is Ok,
        path_refusal(block_size, local, remote) is Some ==> push_refusal(
            block_size,
            local,
            remote,
            source,
            resume,
        ) is Some,
        source is Symlink || source is Unreadable ==> push_refusal(
            block_size,
            local,
            remote,
            source,
            resume,
        ) is Some,
        source is Directory && resume is Some ==> push_refusal(
            block_size,
            local,
            remote,
            source,
            resume,
        ) is Some,
        source is File && path_refusal(block_size, local, remote) is None ==> push_refusal(
            block_size,
            local,
            remote,
            source,
            resume,
        ) is None,
{
}

/// What is already there is never replaced by a pull, and a directory is pulled only to
/// where it can be made.
pub proof fn nothing_is_overwritten(
    block_size: u32,
    local: HostPath,
    remote: Seq<char>,
    destination: Destination,
)
    ensures
        destination == Destination::Exists ==> pull_refusal(block_size, local, remote, destination)
            is Some && pull_tree_refusal(block_size, local, remote, destination) is Some,
        destination == Destination::NoParent ==> pull_tree_refusal(
            block_size,
            local,
            remote,
            destination,
        ) is Some,
        pull_tree_refusal(block_size, local, remote, destination) is None ==> pull_refusal(
            block_size,
            local,
            remote,
            destination,
        ) is None,
        pull_refusal(block_size, local, remote, destination) is None <==> 1 <= block_size <= 1024
            * 1024 && local is Absolute && logical_path::normalized(remote) is Ok && destination
            != Destination::Exists,
        destination == Destination::Free ==> (pull_tree_refusal(
            block_size,
            local,
            remote,
            destination,
        ) is None <==> pull_refusal(block_size, local, remote, destination) is None),
{
}

/// A pulled tree is trusted only if it is listed the same once more after its files have
/// been fetched.
pub proof fn changed_trees_are_not_trusted(
    before: Seq<Exchange>,
    after: Seq<Exchange>,
    manifest: RemoteTreeManifest,
    root: Seq<char>,
    serial: Seq<char>,
    totals: TreeTotalsView,
    result: Result<TreeTotalsView, CliErrorView>,
)
    requires
        relisted(before, after, manifest, root, serial, totals, result),
    ensures
        result matches Ok(told) ==> told == totals && exists|again: RemoteTreeManifest| #[trigger]
            remote_tree::collects(before, after, root, serial, Ok(again))
                && remote_tree::directory_views(again.directories@) == remote_tree::directory_views(
                manifest.directories@,
            ) && remote_tree::file_views(again.files@) == remote_tree::file_views(manifest.files@),
{
}

/// The user is told what the server said of a transfer: how many bytes it has, under
/// which identifier, and the place that was named.
pub proof fn transfers_are_told_as_answered(
    path: Seq<char>,
    resumed: bool,
    reply: RpcReplyView,
)
    ensures
        push_shown(false, path, resumed, reply) matches Ok(shown) ==> (shown
            matches TransferredView::File(summary) && (reply.result
            matches CallResultView::SyncPush(result) && summary.bytes == result.accepted_offset
            && summary.transfer_id == result.transfer_id && summary.path == path && summary.resumed
            == resumed && summary.direction == TransferDirection::Push)),
        pull_shown(false, path, resumed, reply) matches Ok(shown) ==> (shown
            matches TransferredView::File(summary) && (reply.result
            matches CallResultView::SyncPull(result) && summary.bytes == result.received_size
            && summary.transfer_id == result.transfer_id && summary.path == path && summary.resumed
            == resumed && summary.direction == TransferDirection::Pull)),
        push_shown(true, path, resumed, reply) matches Ok(shown) ==> shown == TransferredView::Json(
            reply.pretty,
        ),
        pull_shown(true, path, resumed, reply) matches Ok(shown) ==> shown == TransferredView::Json(
            reply.pretty,
        ),
        reply.result is SyncPush <==> push_shown(false, path, resumed, reply) is Ok,
        reply.result is SyncPull <==> pull_shown(false, path, resumed, reply) is Ok,
{
}

/// Every directory of a tree but its root is made on the host, where its path below the
/// root says.
pub proof fn every_directory_is_made(
    manifest: RemoteTreeManifest,
    local_root: Seq<char>,
    separator: char,
    count: int,
    i: int,
)
    requires
        0 <= i < count,
        manifest.directories@[i].relative_path@.len() > 0,
    ensures
        host_directories(manifest, local_root, separator, count).contains(
            host_path::path_below(
                local_root,
                path::split(manifest.directories@[i].relative_path@, '/'),
                separator,
            ),
        ),
        host_directories(manifest, local_root, separator, count).len() <= count,
    decreases count,
{
    let all = host_directories(manifest, local_root, separator, count);
    let before = host_directories(manifest, local_root, separator, count - 1);
    let wanted = host_path::path_below(
        local_root,
        path::split(manifest.directories@[i].relative_path@, '/'),
        separator,
    );
    no_more_directories(manifest, local_root, separator, count - 1);
    if i == count - 1 {
        assert(all.last() == wanted);
        assert(all[all.len() - 1] == wanted);
    } else {
        every_directory_is_made(manifest, local_root, separator, count - 1, i);
        let k = choose|k: int| 0 <= k < before.len() && before[k] == wanted;
        assert(all[k] == wanted);
    }
}

proof fn no_more_directories(
    manifest: RemoteTreeManifest,
    local_root: Seq<char>,
    separator: char,
    count: int,
)
    requires
        count >= 0,
    ensures
        host_directories(manifest, local_root, separator, count).len() <= count,
    decreases count,
{
    if count > 0 {
        no_more_directories(manifest, local_root, separator, count - 1);
    }
}

/// A tree is reported as pulled only when every file of it was fetched and the device then
/// listed the same tree once more; what is reported is what was fetched.
pub proof fn pulled_trees_are_checked_afterwards(
    before: Seq<Exchange>,
    after: Seq<Exchange>,
    calls: Seq<RpcCallView>,
    manifest: RemoteTreeManifest,
    root: Seq<char>,
    serial: Seq<char>,
    result: Result<TreeTotalsView, CliErrorView>,
)
    requires
        tree_pulled(before, after, calls, manifest, root, serial, result),
    ensures
        result matches Ok(totals) ==> exists|
            replies: Seq<Result<RpcReplyView, ClientErrorView>>,
            between: Seq<Exchange>,
            again: RemoteTreeManifest,
        |
            #![trigger pulled_with(
                before,
                between,
                calls,
                manifest.directories@.len() as u64,
                remote_tree::file_views(manifest.files@),
                replies,
                Ok(totals),
            ), remote_tree::collects(between, after, root, serial, Ok(again))]
            pulled_with(
                before,
                between,
                calls,
                manifest.directories@.len() as u64,
                remote_tree::file_views(manifest.files@),
                replies,
                Ok(totals),
            ) && remote_tree::collects(between, after, root, serial, Ok(again))
                && remote_tree::directory_views(again.directories@) == remote_tree::directory_views(
                manifest.directories@,
            ) && remote_tree::file_views(again.files@) == remote_tree::file_views(manifest.files@),
{
    if let Ok(totals) = result {
        let (replies, between, fetched) = choose|
            replies: Seq<Result<RpcReplyView, ClientErrorView>>,
            between: Seq<Exchange>,
            fetched: Result<TreeTotalsView, CliErrorView>,
        | #[trigger]
            pulled_with(
                before,
                between,
                calls,
                manifest.directories@.len() as u64,
                remote_tree::file_views(manifest.files@),
                replies,
                fetched,
            ) && match fetched {
                Err(error) => after == between && result == Err::<TreeTotalsView, _>(error),
                Ok(found) => relisted(between, after, manifest, root, serial, found, result),
            };
        changed_trees_are_not_trusted(
            between,
            after,
            manifest,
            root,
            serial,
            fetched->Ok_0,
            result,
        );
    }
}

} // verus!
