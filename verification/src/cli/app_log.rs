//! Following the output of an application.

use crate::cli::error::{RunError, RunErrorView};
use crate::cli::execute::asked;
use crate::cli::rpc;
use crate::cli::rpc::{CallResult, ClientErrorView, RpcCall, RpcCallView, RpcCaller, RpcReplyView};
use crate::codec;
use crate::codec::decode_base64;
use crate::model::{AppLogParams, AppLogParamsView, AppLogSnapshot, AppLogSnapshotView};
use crate::text;
use crate::text::{clone_optional, concat};
use vstd::prelude::*;

verus! {

/// The output of an application, as far as it has been read.
#[derive(Debug)]
pub struct AppLog {
    serial: String,
    app_id: String,
    max_bytes: u32,
    run_id: Option<String>,
    stdout_cursor: u64,
    stderr_cursor: u64,
    warned_stdout: bool,
    warned_stderr: bool,
}

/// The model of [`AppLog`].
#[verifier::ext_equal]
pub struct AppLogView {
    pub serial: Seq<char>,
    pub app_id: Seq<char>,
    pub max_bytes: u32,
    /// The run that has been read last.
    pub run_id: Option<Seq<char>>,
    /// Where to read on.
    pub stdout_cursor: u64,
    pub stderr_cursor: u64,
    /// Whether the user has been told that the capture of this run is full.
    pub warned_stdout: bool,
    pub warned_stderr: bool,
}

impl View for AppLog {
    type V = AppLogView;

    closed spec fn view(&self) -> AppLogView {
        AppLogView {
            serial: self.serial@,
            app_id: self.app_id@,
            max_bytes: self.max_bytes,
            run_id: text::optional(self.run_id),
            stdout_cursor: self.stdout_cursor,
            stderr_cursor: self.stderr_cursor,
            warned_stdout: self.warned_stdout,
            warned_stderr: self.warned_stderr,
        }
    }
}

/// A piece of output: what the user is told before it, and then the output with what
/// the user is told behind it.
#[derive(Debug)]
pub struct LogPage {
    pub notice: Option<String>,
    pub output: Result<LogOutput, RunError>,
}

/// New output, and what the user is told of a capture that is full.
#[derive(Debug)]
pub struct LogOutput {
    pub stdout: Vec<u8>,
    pub stderr: Vec<u8>,
    pub stdout_warning: Option<String>,
    pub stderr_warning: Option<String>,
}

/// The log of which nothing has been read.
pub open spec fn log_begun(serial: Seq<char>, app_id: Seq<char>, max_bytes: u32) -> AppLogView {
    AppLogView {
        serial,
        app_id,
        max_bytes,
        run_id: None,
        stdout_cursor: 0,
        stderr_cursor: 0,
        warned_stdout: false,
        warned_stderr: false,
    }
}

/// The request for the next piece.
pub open spec fn log_request(log: AppLogView) -> RpcCallView {
    RpcCallView::AppLog(
        AppLogParamsView {
            serial: log.serial,
            app_id: log.app_id,
            run_id: log.run_id,
            stdout_cursor: log.stdout_cursor,
            stderr_cursor: log.stderr_cursor,
            max_bytes: Some(log.max_bytes),
        },
    )
}

/// What the user is told before a piece: that the application was restarted.
pub open spec fn restart_notice(log: AppLogView, snapshot: AppLogSnapshotView) -> Option<
    Seq<char>,
> {
    if log.run_id is Some && snapshot.reset {
        Some("\n--- "@ + log.app_id + " restarted ("@ + snapshot.run_id + ") ---"@)
    } else {
        None
    }
}

/// What the user is told of a capture that is full, once for each run.
pub open spec fn cap_warning(app_id: Seq<char>, stream: Seq<char>) -> Seq<char> {
    "\nwarning: "@ + app_id + " "@ + stream + " capture reached its 4 MiB limit"@
}

/// Why a piece is not output, if it is not.
pub open spec fn page_failure(snapshot: AppLogSnapshotView) -> Option<RunErrorView> {
    if codec::base64_bytes(snapshot.stdout.data_base64) is None {
        Some(RunErrorView::Message("server returned invalid stdout log data"@))
    } else if codec::base64_bytes(snapshot.stderr.data_base64) is None {
        Some(RunErrorView::Message("server returned invalid stderr log data"@))
    } else {
        None
    }
}

/// The log after a piece: it goes on where the piece ends. A new run begins with no
/// warnings.
pub open spec fn log_after(log: AppLogView, snapshot: AppLogSnapshotView) -> AppLogView {
    if page_failure(snapshot) is Some {
        log
    } else {
        AppLogView {
            run_id: Some(snapshot.run_id),
            stdout_cursor: snapshot.stdout.next_cursor,
            stderr_cursor: snapshot.stderr.next_cursor,
            warned_stdout: snapshot.stdout.capped || (log.warned_stdout && !snapshot.reset),
            warned_stderr: snapshot.stderr.capped || (log.warned_stderr && !snapshot.reset),
            ..log
        }
    }
}

/// Whether a warning is given.
pub open spec fn warns(warned: bool, reset: bool, capped: bool) -> bool {
    capped && !(warned && !reset)
}

/// Whether a page is what the user is shown of a piece.
pub open spec fn is_page(log: AppLogView, snapshot: AppLogSnapshotView, page: LogPage) -> bool {
    &&& text::optional(page.notice) == restart_notice(log, snapshot)
    &&& match page_failure(snapshot) {
        Some(failure) => page.output matches Err(error) && error@ == failure,
        None => {
            &&& page.output matches Ok(output)
            &&& codec::base64_bytes(snapshot.stdout.data_base64) == Some(page.output->Ok_0.stdout@)
            &&& codec::base64_bytes(snapshot.stderr.data_base64) == Some(page.output->Ok_0.stderr@)
            &&& text::optional(page.output->Ok_0.stdout_warning) == if warns(
                log.warned_stdout,
                snapshot.reset,
                snapshot.stdout.capped,
            ) {
                Some(cap_warning(log.app_id, "stdout"@))
            } else {
                None
            }
            &&& text::optional(page.output->Ok_0.stderr_warning) == if warns(
                log.warned_stderr,
                snapshot.reset,
                snapshot.stderr.capped,
            ) {
                Some(cap_warning(log.app_id, "stderr"@))
            } else {
                None
            }
        },
    }
}

/// Why the request for a piece failed, if it did.
pub open spec fn request_failure(reply: Result<RpcReplyView, ClientErrorView>) -> Option<
    RunErrorView,
> {
    match reply {
        Err(error) => Some(
            RunErrorView::Message("app log request failed: "@ + rpc::client_message(error)),
        ),
        Ok(answer) => if answer.result is AppLog {
            None
        } else {
            Some(RunErrorView::Message("server returned invalid app log data"@))
        },
    }
}

/// Whether the request for a piece, answered so, ends so. A request that fails leaves the
/// log as it was.
pub open spec fn log_advanced(
    before: AppLogView,
    after: AppLogView,
    reply: Result<RpcReplyView, ClientErrorView>,
    result: Result<LogPage, RunError>,
) -> bool {
    match request_failure(reply) {
        Some(failure) => after == before && (result matches Err(error) && error@ == failure),
        None => {
            let snapshot = reply->Ok_0.result->AppLog_0;
            after == log_after(before, snapshot) && (result matches Ok(page) && is_page(
                before,
                snapshot,
                page,
            ))
        },
    }
}

impl AppLog {
    /// The output of an application, from its beginning.
    pub fn new(serial: String, app_id: String, max_bytes: u32) -> (log: Self)
        ensures
            log@ == log_begun(serial@, app_id@, max_bytes),
    {
        AppLog {
            serial,
            app_id,
            max_bytes,
            run_id: None,
            stdout_cursor: 0,
            stderr_cursor: 0,
            warned_stdout: false,
            warned_stderr: false,
        }
    }

    fn warning(&self, stream: &str) -> (text: String)
        ensures
            text@ == cap_warning(self@.app_id, stream@),
    {
        let mut text = concat("\nwarning: ", self.app_id.as_str());
        text.append(" ");
        text.append(stream);
        text.append(" capture reached its 4 MiB limit");
        text
    }

    /// Takes the next piece.
    pub fn take(&mut self, snapshot: AppLogSnapshot) -> (page: LogPage)
        ensures
            final(self)@ == log_after(old(self)@, snapshot@),
            is_page(old(self)@, snapshot@, page),
    {
        let notice = if self.run_id.is_some() && snapshot.reset {
            let mut notice = concat("\n--- ", self.app_id.as_str());
            notice.append(" restarted (");
            notice.append(snapshot.run_id.as_str());
            notice.append(") ---");
            Some(notice)
        } else {
            None
        };
        let stdout = match decode_base64(snapshot.stdout.data_base64.as_str()) {
            Ok(bytes) => bytes,
            Err(_) => {
                let error = RunError::Message("server returned invalid stdout log data".to_owned());
                return LogPage { notice, output: Err(error) };
            },
        };
        let stderr = match decode_base64(snapshot.stderr.data_base64.as_str()) {
            Ok(bytes) => bytes,
            Err(_) => {
                let error = RunError::Message("server returned invalid stderr log data".to_owned());
                return LogPage { notice, output: Err(error) };
            },
        };
        let told_stdout = self.warned_stdout && !snapshot.reset;
        let told_stderr = self.warned_stderr && !snapshot.reset;
        let stdout_warning = if snapshot.stdout.capped && !told_stdout {
            Some(self.warning("stdout"))
        } else {
            None
        };
        let stderr_warning = if snapshot.stderr.capped && !told_stderr {
            Some(self.warning("stderr"))
        } else {
            None
        };
        self.warned_stdout = snapshot.stdout.capped || told_stdout;
        self.warned_stderr = snapshot.stderr.capped || told_stderr;
        self.stdout_cursor = snapshot.stdout.next_cursor;
        self.stderr_cursor = snapshot.stderr.next_cursor;
        self.run_id = Some(snapshot.run_id);
        LogPage { notice, output: Ok(LogOutput { stdout, stderr, stdout_warning, stderr_warning }) }
    }

    /// Asks for the next piece and takes it.
    pub fn advance<C: RpcCaller>(&mut self, caller: &mut C) -> (result: Result<LogPage, RunError>)
        ensures
            exists|reply: Result<RpcReplyView, ClientErrorView>| #[trigger]
                asked(
                    old(caller).exchanges(),
                    final(caller).exchanges(),
                    log_request(old(self)@),
                    reply,
                ) && log_advanced(old(self)@, final(self)@, reply, result),
    {
        let ghost before = self@;
        let params = AppLogParams {
            serial: self.serial.clone(),
            app_id: self.app_id.clone(),
            run_id: clone_optional(&self.run_id),
            stdout_cursor: self.stdout_cursor,
            stderr_cursor: self.stderr_cursor,
            max_bytes: Some(self.max_bytes),
        };
        let reply = caller.call(RpcCall::AppLog(params));
        let ghost view = rpc::reply_view(reply);
        assert(asked(old(caller).exchanges(), caller.exchanges(), log_request(before), view));
        match reply {
            Err(error) => Err(
                RunError::Message(concat("app log request failed: ", error.to_text().as_str())),
            ),
            Ok(answer) => match answer.result {
                CallResult::AppLog(snapshot) => Ok(self.take(snapshot)),
                _ => Err(RunError::Message("server returned invalid app log data".to_owned())),
            },
        }
    }
}

/// The user is told once for each run that its capture is full: after a piece that
/// says so, a piece of the same run gives no warning.
pub proof fn warnings_are_given_once_for_each_run(
    log: AppLogView,
    first: AppLogSnapshotView,
    second: AppLogSnapshotView,
    page: LogPage,
)
    requires
        page_failure(first) is None,
        !second.reset,
        page_failure(second) is None,
        is_page(log_after(log, first), second, page),
    ensures
        first.stdout.capped ==> page.output->Ok_0.stdout_warning is None,
        first.stderr.capped ==> page.output->Ok_0.stderr_warning is None,
{
}

/// A followed log is read on where it was left: after a piece that could be decoded, the
/// next request asks the same device for the same application, for the run of the piece,
/// and for what comes behind the piece on each of the two streams. The first request asks
/// for any run, from the beginning. A piece that could not be decoded is asked for again.
pub proof fn requests_go_on_behind_the_last_piece(
    log: AppLogView,
    snapshot: AppLogSnapshotView,
    serial: Seq<char>,
    app_id: Seq<char>,
    max_bytes: u32,
)
    ensures
        log_request(log_begun(serial, app_id, max_bytes)) == RpcCallView::AppLog(
            AppLogParamsView {
                serial,
                app_id,
                run_id: None,
                stdout_cursor: 0,
                stderr_cursor: 0,
                max_bytes: Some(max_bytes),
            },
        ),
        codec::base64_bytes(snapshot.stdout.data_base64) is Some && codec::base64_bytes(
            snapshot.stderr.data_base64,
        ) is Some ==> log_request(log_after(log, snapshot)) == RpcCallView::AppLog(
            AppLogParamsView {
                run_id: Some(snapshot.run_id),
                stdout_cursor: snapshot.stdout.next_cursor,
                stderr_cursor: snapshot.stderr.next_cursor,
                ..log_request(log)->AppLog_0
            },
        ),
        codec::base64_bytes(snapshot.stdout.data_base64) is None || codec::base64_bytes(
            snapshot.stderr.data_base64,
        ) is None ==> log_request(log_after(log, snapshot)) == log_request(log),
{
}

/// Whether pieces were taken from a log one behind the other, with these pages.
pub open spec fn followed(
    log: AppLogView,
    snapshots: Seq<AppLogSnapshotView>,
    pages: Seq<LogPage>,
) -> bool
    decreases snapshots.len(),
{
    if snapshots.len() == 0 {
        pages.len() == 0
    } else {
        &&& pages.len() == snapshots.len()
        &&& followed(log, snapshots.drop_last(), pages.drop_last())
        &&& is_page(read_on(log, snapshots.drop_last()), snapshots.last(), pages.last())
    }
}

/// The log after these pieces.
pub open spec fn read_on(log: AppLogView, snapshots: Seq<AppLogSnapshotView>) -> AppLogView
    decreases snapshots.len(),
{
    if snapshots.len() == 0 {
        log
    } else {
        log_after(read_on(log, snapshots.drop_last()), snapshots.last())
    }
}

/// Whether a device has answered each request, which asks for what is behind a cursor, with
/// bytes of what it has captured from there on.
pub open spec fn answered_from(
    stdout: Seq<u8>,
    stderr: Seq<u8>,
    log: AppLogView,
    snapshots: Seq<AppLogSnapshotView>,
) -> bool
    decreases snapshots.len(),
{
    if snapshots.len() == 0 {
        true
    } else {
        let request = log_request(read_on(log, snapshots.drop_last()))->AppLog_0;
        let snapshot = snapshots.last();
        &&& answered_from(stdout, stderr, log, snapshots.drop_last())
        &&& request.stdout_cursor <= snapshot.stdout.next_cursor <= stdout.len()
        &&& request.stderr_cursor <= snapshot.stderr.next_cursor <= stderr.len()
        &&& codec::base64_bytes(snapshot.stdout.data_base64) == Some(
            stdout.subrange(
                request.stdout_cursor as int,
                snapshot.stdout.next_cursor as int,
            ),
        )
        &&& codec::base64_bytes(snapshot.stderr.data_base64) == Some(
            stderr.subrange(
                request.stderr_cursor as int,
                snapshot.stderr.next_cursor as int,
            ),
        )
    }
}

/// What the pages show of the standard output, and what of the standard error.
pub open spec fn shown_output(pages: Seq<LogPage>) -> (Seq<u8>, Seq<u8>)
    decreases pages.len(),
{
    if pages.len() == 0 {
        (Seq::empty(), Seq::empty())
    } else {
        let (stdout, stderr) = shown_output(pages.drop_last());
        let output = pages.last().output->Ok_0;
        (stdout + output.stdout@, stderr + output.stderr@)
    }
}

/// Who follows a run from its beginning is shown what the device has captured, each byte of
/// each stream once and in order, as far as it has been delivered.
pub proof fn followed_output_is_shown_once(
    serial: Seq<char>,
    app_id: Seq<char>,
    max_bytes: u32,
    stdout: Seq<u8>,
    stderr: Seq<u8>,
    snapshots: Seq<AppLogSnapshotView>,
    pages: Seq<LogPage>,
)
    requires
        followed(log_begun(serial, app_id, max_bytes), snapshots, pages),
        answered_from(stdout, stderr, log_begun(serial, app_id, max_bytes), snapshots),
    ensures
        forall|i: int| 0 <= i < pages.len() ==> (#[trigger] pages[i]).output is Ok,
        snapshots.len() > 0 ==> shown_output(pages) == (
            stdout.take(snapshots.last().stdout.next_cursor as int),
            stderr.take(snapshots.last().stderr.next_cursor as int),
        ),
{
    pieces_join(serial, app_id, max_bytes, stdout, stderr, snapshots, pages);
}

proof fn pieces_join(
    serial: Seq<char>,
    app_id: Seq<char>,
    max_bytes: u32,
    stdout: Seq<u8>,
    stderr: Seq<u8>,
    snapshots: Seq<AppLogSnapshotView>,
    pages: Seq<LogPage>,
)
    requires
        followed(log_begun(serial, app_id, max_bytes), snapshots, pages),
        answered_from(stdout, stderr, log_begun(serial, app_id, max_bytes), snapshots),
    ensures
        ({
            let log = log_begun(serial, app_id, max_bytes);
            let request = log_request(read_on(log, snapshots))->AppLog_0;
            &&& pages.len() == snapshots.len()
            &&& forall|i: int| 0 <= i < pages.len() ==> (#[trigger] pages[i]).output is Ok
            &&& request.stdout_cursor <= stdout.len()
            &&& request.stderr_cursor <= stderr.len()
            &&& shown_output(pages) == (
                stdout.take(request.stdout_cursor as int),
                stderr.take(request.stderr_cursor as int),
            )
            &&& snapshots.len() > 0 ==> request.stdout_cursor == snapshots.last().stdout.next_cursor
                && request.stderr_cursor == snapshots.last().stderr.next_cursor
        }),
    decreases snapshots.len(),
{
    let log = log_begun(serial, app_id, max_bytes);
    if snapshots.len() == 0 {
        assert(stdout.take(0) =~= Seq::<u8>::empty());
        assert(stderr.take(0) =~= Seq::<u8>::empty());
    } else {
        let fewer = snapshots.drop_last();
        let shorter = pages.drop_last();
        pieces_join(serial, app_id, max_bytes, stdout, stderr, fewer, shorter);
        let request = log_request(read_on(log, fewer))->AppLog_0;
        let snapshot = snapshots.last();
        let output = pages.last().output->Ok_0;
        assert(stdout.take(request.stdout_cursor as int) + output.stdout@ =~= stdout.take(
            snapshot.stdout.next_cursor as int,
        ));
        assert(stderr.take(request.stderr_cursor as int) + output.stderr@ =~= stderr.take(
            snapshot.stderr.next_cursor as int,
        ));
        assert forall|i: int| 0 <= i < pages.len() implies (#[trigger] pages[i]).output is Ok by {
            if i < shorter.len() {
                assert(shorter[i].output is Ok);
            }
        }
    }
}

/// Who follows a log is told of every restart, and of nothing else before the output: a
/// piece of a new run is announced, unless it is the first piece.
pub proof fn restarts_are_told(
    serial: Seq<char>,
    app_id: Seq<char>,
    max_bytes: u32,
    snapshots: Seq<AppLogSnapshotView>,
    pages: Seq<LogPage>,
)
    requires
        followed(log_begun(serial, app_id, max_bytes), snapshots, pages),
        snapshots.len() > 0,
        forall|i: int|
            0 <= i < snapshots.len() ==> codec::base64_bytes(
                (#[trigger] snapshots[i]).stdout.data_base64,
            ) is Some && codec::base64_bytes(snapshots[i].stderr.data_base64) is Some,
    ensures
        pages.last().notice is Some <==> snapshots.len() > 1 && snapshots.last().reset,
        pages.last().notice matches Some(notice) ==> notice@ == "\n--- "@ + app_id + " restarted ("@
            + snapshots.last().run_id + ") ---"@,
{
    let log = log_begun(serial, app_id, max_bytes);
    let fewer = snapshots.drop_last();
    settings_stay(log, fewer);
    if fewer.len() > 0 {
        assert(fewer.last() == snapshots[fewer.len() - 1]);
    }
}

proof fn settings_stay(log: AppLogView, snapshots: Seq<AppLogSnapshotView>)
    ensures
        read_on(log, snapshots).serial == log.serial,
        read_on(log, snapshots).app_id == log.app_id,
        read_on(log, snapshots).max_bytes == log.max_bytes,
    decreases snapshots.len(),
{
    if snapshots.len() > 0 {
        settings_stay(log, snapshots.drop_last());
    }
}

/// Whether a run begins with the piece at a position, and these are its pieces from there on.
pub open spec fn is_run_from(snapshots: Seq<AppLogSnapshotView>, start: int) -> bool {
    &&& 0 <= start < snapshots.len()
    &&& start == 0 || snapshots[start].reset
    &&& forall|i: int| start < i < snapshots.len() ==> !(#[trigger] snapshots[i]).reset
}

/// Whether every piece can be decoded.
pub open spec fn all_decode(snapshots: Seq<AppLogSnapshotView>) -> bool {
    forall|i: int|
        0 <= i < snapshots.len() ==> codec::base64_bytes(
            (#[trigger] snapshots[i]).stdout.data_base64,
        ) is Some && codec::base64_bytes(snapshots[i].stderr.data_base64) is Some
}

/// The user is told of a full capture with the first piece of a run that says so, for each
/// stream on its own, and with no other piece of that run. What was told of earlier runs
/// does not count.
pub proof fn full_captures_are_told_once(
    serial: Seq<char>,
    app_id: Seq<char>,
    max_bytes: u32,
    snapshots: Seq<AppLogSnapshotView>,
    pages: Seq<LogPage>,
    start: int,
)
    requires
        followed(log_begun(serial, app_id, max_bytes), snapshots, pages),
        all_decode(snapshots),
        is_run_from(snapshots, start),
    ensures
        pages.last().output matches Ok(output) && {
            &&& output.stdout_warning is Some <==> snapshots.last().stdout.capped && forall|i: int|
                start <= i < snapshots.len() - 1 ==> !(#[trigger] snapshots[i]).stdout.capped
            &&& output.stderr_warning is Some <==> snapshots.last().stderr.capped && forall|i: int|
                start <= i < snapshots.len() - 1 ==> !(#[trigger] snapshots[i]).stderr.capped
        },
{
    let log = log_begun(serial, app_id, max_bytes);
    let fewer = snapshots.drop_last();
    let before = read_on(log, fewer);
    assert(snapshots.last() == snapshots[snapshots.len() - 1]);
    if fewer.len() > start {
        run_goes_on(snapshots, start);
        warned_after(log, fewer, start);
        assert(forall|i: int| 0 <= i < fewer.len() ==> #[trigger] fewer[i] == snapshots[i]);
        if before.warned_stdout {
            let i = choose|i: int| start <= i < fewer.len() && (#[trigger] fewer[i]).stdout.capped;
            assert(snapshots[i].stdout.capped);
        } else {
            assert forall|i: int| start <= i < snapshots.len() - 1 implies !(
            #[trigger] snapshots[i]).stdout.capped by {
                assert(fewer[i] == snapshots[i]);
            }
        }
        if before.warned_stderr {
            let i = choose|i: int| start <= i < fewer.len() && (#[trigger] fewer[i]).stderr.capped;
            assert(snapshots[i].stderr.capped);
        } else {
            assert forall|i: int| start <= i < snapshots.len() - 1 implies !(
            #[trigger] snapshots[i]).stderr.capped by {
                assert(fewer[i] == snapshots[i]);
            }
        }
    } else if start == 0 {
        assert(before == log);
    }
}

proof fn run_goes_on(snapshots: Seq<AppLogSnapshotView>, start: int)
    requires
        all_decode(snapshots),
        is_run_from(snapshots, start),
        start < snapshots.len() - 1,
    ensures
        all_decode(snapshots.drop_last()),
        is_run_from(snapshots.drop_last(), start),
{
    let fewer = snapshots.drop_last();
    assert forall|i: int| 0 <= i < fewer.len() implies codec::base64_bytes(
        (#[trigger] fewer[i]).stdout.data_base64,
    ) is Some && codec::base64_bytes(fewer[i].stderr.data_base64) is Some by {
        assert(fewer[i] == snapshots[i]);
    }
    assert forall|i: int| start < i < fewer.len() implies !(#[trigger] fewer[i]).reset by {
        assert(fewer[i] == snapshots[i]);
    }
}

proof fn warned_after(log: AppLogView, snapshots: Seq<AppLogSnapshotView>, start: int)
    requires
        !log.warned_stdout,
        !log.warned_stderr,
        all_decode(snapshots),
        is_run_from(snapshots, start),
    ensures
        read_on(log, snapshots).warned_stdout <==> exists|i: int|
            start <= i < snapshots.len() && (#[trigger] snapshots[i]).stdout.capped,
        read_on(log, snapshots).warned_stderr <==> exists|i: int|
            start <= i < snapshots.len() && (#[trigger] snapshots[i]).stderr.capped,
    decreases snapshots.len(),
{
    let fewer = snapshots.drop_last();
    let last = snapshots.len() - 1;
    let before = read_on(log, fewer);
    assert(snapshots.last() == snapshots[last]);
    if start < last {
        run_goes_on(snapshots, start);
        warned_after(log, fewer, start);
        if before.warned_stdout {
            let i = choose|i: int| start <= i < fewer.len() && (#[trigger] fewer[i]).stdout.capped;
            assert(snapshots[i].stdout.capped);
        }
        if before.warned_stderr {
            let i = choose|i: int| start <= i < fewer.len() && (#[trigger] fewer[i]).stderr.capped;
            assert(snapshots[i].stderr.capped);
        }
        if exists|i: int| start <= i < snapshots.len() && (#[trigger] snapshots[i]).stdout.capped {
            let i = choose|i: int| start <= i < snapshots.len() && (
            #[trigger] snapshots[i]).stdout.capped;
            if i < last {
                assert(fewer[i].stdout.capped);
            }
        }
        if exists|i: int| start <= i < snapshots.len() && (#[trigger] snapshots[i]).stderr.capped {
            let i = choose|i: int| start <= i < snapshots.len() && (
            #[trigger] snapshots[i]).stderr.capped;
            if i < last {
                assert(fewer[i].stderr.capped);
            }
        }
    } else if start == 0 {
        assert(before == log);
    }
}

/// A request that fails is told with its cause and may be made again: the next one asks for
/// the same. Any answer that is a piece of the log is taken.
pub proof fn failed_requests_can_be_made_again(
    before: AppLogView,
    after: AppLogView,
    reply: Result<RpcReplyView, ClientErrorView>,
    result: Result<LogPage, RunError>,
)
    requires
        log_advanced(before, after, reply, result),
    ensures
        result is Ok <==> (reply matches Ok(answer) && answer.result is AppLog),
        result is Err ==> log_request(after) == log_request(before),
        reply matches Err(error) ==> (result matches Err(told) && (told@
            matches RunErrorView::Message(message) && text::mentions(
            message,
            rpc::client_message(error),
        ))),
{
    if let Err(error) = reply {
        text::at_the_end("app log request failed: "@, rpc::client_message(error));
    }
}

} // verus!
