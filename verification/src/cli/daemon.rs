//! Staging device daemon updates.

use crate::cli::error;
use crate::cli::error::{CliError, CliErrorView};
use crate::cli::execute;
use crate::cli::execute::{ask, exec_call, invalid, invalid_result, one_call};
use crate::cli::rpc::{
    CallResult, CallResultView, ClientErrorView, Exchange, RpcCall, RpcCallView, RpcCaller,
    RpcReplyView,
};
use crate::codec;
use crate::codec::{digest_of, feed_hasher, new_hasher};
use crate::model::{
    ExecParams, ExecResult, ExecResultView, SyncPushParams, SyncPushParamsView, TransferState,
};
use crate::number;
use crate::number::{parse_unsigned, to_decimal, to_signed_decimal};
use crate::path;
use crate::path::split_text;
use crate::sync_client::DEFAULT_SYNC_BLOCK_SIZE;
use crate::text;
use crate::text::{concat, same_text, trim};
use vstd::prelude::*;

verus! {

/// The largest daemon that can be staged.
pub const MAX_UPDATE_BINARY_SIZE: u64 = 33554432;

/// How long the device may take to verify a daemon, in milliseconds.
pub const STAGE_TIMEOUT: u64 = 30000;

/// A daemon binary while it is read.
pub struct UpdateBinary {
    size: u64,
    observed: u64,
    hasher: blake3::Hasher,
}

/// Why a daemon binary cannot be used, if what is known of the file says so: the
/// file is told by whether its path is absolute, and by whether it is a file and
/// its size, unless these could not be told.
pub open spec fn binary_refusal(is_absolute: bool, metadata: Result<(bool, u64), Seq<char>>) -> Option<
    Seq<char>,
> {
    if !is_absolute {
        Some("path must be absolute"@)
    } else {
        match metadata {
            Err(message) => Some(message),
            Ok((is_file, size)) => if !is_file || size == 0 || size > MAX_UPDATE_BINARY_SIZE {
                Some("size must be between 1 and 33554432 bytes"@)
            } else {
                None
            },
        }
    }
}

/// What is known of a file.
pub open spec fn metadata_view(metadata: Result<(bool, u64), String>) -> Result<
    (bool, u64),
    Seq<char>,
> {
    match metadata {
        Ok(known) => Ok(known),
        Err(message) => Err(message@),
    }
}

impl UpdateBinary {
    /// The size that the file had.
    pub closed spec fn size(&self) -> u64 {
        self.size
    }

    /// What has been read.
    pub closed spec fn content(&self) -> Seq<u8> {
        codec::hashed(self.hasher)
    }

    /// The count is that of the bytes that have been read, as far as it goes.
    pub closed spec fn wf(&self) -> bool {
        &&& 0 < self.size <= MAX_UPDATE_BINARY_SIZE
        &&& self.observed == if codec::hashed(self.hasher).len() > u64::MAX {
            u64::MAX as int
        } else {
            codec::hashed(self.hasher).len() as int
        }
    }

    /// Begins to read a daemon binary.
    pub fn begin(is_absolute: bool, metadata: Result<(bool, u64), String>) -> (result: Result<
        Self,
        CliError,
    >)
        ensures
            match binary_refusal(is_absolute, metadata_view(metadata)) {
                Some(message) => result matches Err(error) && error@
                    == CliErrorView::InvalidUpdateBinary(message),
                None => result matches Ok(binary) && binary.wf() && metadata == Ok::<_, String>(
                    (true, binary.size()),
                ) && binary.content() == Seq::<u8>::empty(),
            },
    {
        if !is_absolute {
            return Err(CliError::InvalidUpdateBinary("path must be absolute".to_owned()));
        }
        match metadata {
            Err(message) => Err(CliError::InvalidUpdateBinary(message)),
            Ok((is_file, size)) => {
                if !is_file || size == 0 || size > MAX_UPDATE_BINARY_SIZE {
                    return Err(
                        CliError::InvalidUpdateBinary(
                            "size must be between 1 and 33554432 bytes".to_owned(),
                        ),
                    );
                }
                Ok(UpdateBinary { size, observed: 0, hasher: new_hasher() })
            },
        }
    }

    /// Takes the bytes that have been read next.
    pub fn add_bytes(&mut self, bytes: &[u8])
        requires
            old(self).wf(),
        ensures
            final(self).wf(),
            final(self).size() == old(self).size(),
            final(self).content() == old(self).content() + bytes@,
    {
        feed_hasher(&mut self.hasher, bytes);
        self.observed = self.observed.saturating_add(bytes.len() as u64);
    }

    /// The digest and the size of the binary. A file that has another size than
    /// before changed while it was read.
    pub fn finish(self) -> (result: Result<(String, u64), CliError>)
        requires
            self.wf(),
        ensures
            if self.content().len() == self.size() {
                result matches Ok((digest, size)) && digest@ == codec::blake3_hex(self.content())
                    && size == self.size()
            } else {
                result matches Err(error) && error@ == CliErrorView::InvalidUpdateBinary(
                    "file changed while being read"@,
                )
            },
    {
        if self.observed != self.size {
            return Err(CliError::InvalidUpdateBinary("file changed while being read".to_owned()));
        }
        Ok((digest_of(&self.hasher), self.observed))
    }
}

/// An update that the device has verified.
#[derive(Debug)]
pub struct StageReport {
    pub serial: String,
    pub slot: String,
    pub blake3: String,
    pub size: u64,
    pub transfer_id: String,
}

/// The model of [`StageReport`].
#[verifier::ext_equal]
pub struct StageReportView {
    pub serial: Seq<char>,
    pub slot: Seq<char>,
    pub blake3: Seq<char>,
    pub size: u64,
    pub transfer_id: Seq<char>,
}

impl View for StageReport {
    type V = StageReportView;

    open spec fn view(&self) -> StageReportView {
        StageReportView {
            serial: self.serial@,
            slot: self.slot@,
            blake3: self.blake3@,
            size: self.size,
            transfer_id: self.transfer_id@,
        }
    }
}

impl StageReport {
    /// What the user is told.
    pub fn to_text(&self) -> (text: String)
        ensures
            text@ == "uploaded and verified "@ + number::decimal(self.size as nat)
                + " bytes in slot "@ + self.slot@
                + "; apply from KUAL while USB is unplugged"@,
    {
        let mut text = concat("uploaded and verified ", to_decimal(self.size).as_str());
        text.append(" bytes in slot ");
        text.append(self.slot.as_str());
        text.append("; apply from KUAL while USB is unplugged");
        text
    }
}

/// A step of an update that the device refused.
pub open spec fn rejected(step: Seq<char>, message: Seq<char>) -> CliErrorView {
    CliErrorView::UpdateRejected { step, message }
}

fn reject(step: &str, message: String) -> (error: CliError)
    ensures
        error@ == rejected(step@, message@),
{
    CliError::UpdateRejected { step: step.to_owned(), message }
}

/// What a checked command says: one that fails is a refusal, with what it printed
/// as its error, if anything.
pub open spec fn exec_checked(step: Seq<char>, reply: RpcReplyView) -> Result<
    ExecResultView,
    CliErrorView,
> {
    match reply.result {
        CallResultView::Exec(result) => if result.exit_code == 0 {
            Ok(result)
        } else if text::trimmed(result.stderr).len() == 0 {
            Err(
                rejected(
                    step,
                    "command exited with "@ + number::signed_decimal(result.exit_code as int),
                ),
            )
        } else {
            Err(rejected(step, text::trimmed(result.stderr)))
        },
        _ => Err(invalid("daemon stage exec"@)),
    }
}

/// Runs a command of an update on the device.
fn call_exec_checked<C: RpcCaller>(
    caller: &mut C,
    serial: &String,
    argv: Vec<String>,
    step: &str,
) -> (result: Result<ExecResult, CliError>)
    ensures
        one_call(
            old(caller).exchanges(),
            final(caller).exchanges(),
            exec_call(serial@, text::all(argv@), STAGE_TIMEOUT),
            |reply: RpcReplyView| exec_checked(step@, reply),
            error::outcome(result),
        ),
{
    let params = ExecParams {
        serial: serial.clone(),
        argv,
        cwd: None,
        environment: Vec::new(),
        timeout_ms: STAGE_TIMEOUT,
    };
    assert(params@.environment =~= Seq::empty());
    let reply = ask(caller, RpcCall::ExecRun(params))?;
    match reply.result {
        CallResult::Exec(result) => {
            if result.exit_code == 0 {
                return Ok(result);
            }
            let complaint = trim(result.stderr.as_str());
            let message = if complaint.as_str().is_empty() {
                concat("command exited with ", to_signed_decimal(result.exit_code as i64).as_str())
            } else {
                complaint
            };
            Err(reject(step, message))
        },
        _ => Err(invalid_result("daemon stage exec")),
    }
}

/// The slot that the device put the update in, by the record that its launcher
/// printed: the slot, the digest and the size.
pub open spec fn staged_slot(stdout: Seq<char>, digest: Seq<char>, size: u64) -> Result<
    Seq<char>,
    CliErrorView,
> {
    let fields = path::split(text::trimmed(stdout), '\t');
    if fields.len() != 3 || (fields[0] != "A"@ && fields[0] != "B"@) {
        Err(rejected("staging"@, "launcher returned an invalid slot record"@))
    } else {
        match number::unsigned(fields[2], 10, u64::MAX as nat) {
            None => Err(rejected("staging"@, "launcher returned an invalid binary size"@)),
            Some(reported) => if fields[1] != digest || reported != size {
                Err(
                    rejected(
                        "staging"@,
                        "launcher verification result did not match the upload"@,
                    ),
                )
            } else {
                Ok(fields[0])
            },
        }
    }
}

/// Reads the record that the launcher printed.
pub fn parse_staged_update(stdout: &str, expected_digest: &str, expected_size: u64) -> (result:
    Result<String, CliError>)
    ensures
        error::outcome(result) == staged_slot(stdout@, expected_digest@, expected_size),
{
    let fields = split_text(trim(stdout).as_str(), '\t');
    let ghost views = text::all(fields@);
    if fields.len() != 3 {
        return Err(reject("staging", "launcher returned an invalid slot record".to_owned()));
    }
    assert(views[0] == fields@[0]@ && views[1] == fields@[1]@ && views[2] == fields@[2]@);
    if !same_text(fields[0].as_str(), "A") && !same_text(fields[0].as_str(), "B") {
        return Err(reject("staging", "launcher returned an invalid slot record".to_owned()));
    }
    match parse_unsigned(fields[2].as_str(), 10, u64::MAX) {
        None => Err(reject("staging", "launcher returned an invalid binary size".to_owned())),
        Some(size) => {
            if !same_text(fields[1].as_str(), expected_digest) || size != expected_size {
                return Err(
                    reject(
                        "staging",
                        "launcher verification result did not match the upload".to_owned(),
                    ),
                );
            }
            Ok(fields[0].clone())
        },
    }
}

/// Where a daemon is uploaded to.
pub open spec fn upload_path(digest: Seq<char>) -> Seq<char> {
    "staging/daemon/"@ + digest + "/kindlebridged"@
}

/// The request that uploads a daemon.
pub open spec fn upload_call(serial: Seq<char>, binary: Seq<char>, digest: Seq<char>) -> RpcCallView {
    RpcCallView::SyncPush(
        SyncPushParamsView {
            serial,
            local_path: binary,
            remote_path: upload_path(digest),
            transfer_id: None,
            block_size: DEFAULT_SYNC_BLOCK_SIZE,
        },
    )
}

/// The transfer that uploaded a daemon whole.
pub open spec fn uploaded(size: u64, reply: Result<RpcReplyView, ClientErrorView>) -> Result<
    Seq<char>,
    CliErrorView,
> {
    match reply {
        Err(error) => Err(CliErrorView::Rpc(error)),
        Ok(answer) => match answer.result {
            CallResultView::SyncPush(pushed) => if pushed.state == TransferState::Complete
                && pushed.accepted_offset == size {
                Ok(pushed.transfer_id)
            } else {
                Err(
                    rejected(
                        "upload"@,
                        "transfer "@ + pushed.transfer_id + " stopped at "@ + number::decimal(
                            pushed.accepted_offset as nat,
                        ) + "/"@ + number::decimal(size as nat) + " bytes"@,
                    ),
                )
            },
            _ => Err(invalid("daemon stage upload"@)),
        },
    }
}

/// The command that verifies an uploaded daemon and puts it in the slot that is
/// not in use.
pub open spec fn stage_argv(digest: Seq<char>) -> Seq<Seq<char>> {
    seq![
        "/var/local/kindlebridge/control/bin/kindlebridge-launcher"@,
        "stage"@,
        "--root"@,
        "/var/local/kindlebridge/control/runtime"@,
        "--source"@,
        "/mnt/us/kindlebridge-data/"@ + upload_path(digest),
        "--blake3"@,
        digest,
    ]
}

/// What the answer to the staging command comes to.
pub open spec fn stage_report(
    serial: Seq<char>,
    digest: Seq<char>,
    size: u64,
    transfer_id: Seq<char>,
    reply: RpcReplyView,
) -> Result<StageReportView, CliErrorView> {
    match exec_checked("staging"@, reply) {
        Err(error) => Err(error),
        Ok(result) => match staged_slot(result.stdout, digest, size) {
            Err(error) => Err(error),
            Ok(slot) => Ok(StageReportView { serial, slot, blake3: digest, size, transfer_id }),
        },
    }
}

/// Whether an update ended so: the daemon is uploaded, and only when all of it
/// has arrived is it staged. No request activates a slot.
pub open spec fn staged(
    before: Seq<Exchange>,
    after: Seq<Exchange>,
    serial: Seq<char>,
    binary: Seq<char>,
    digest: Seq<char>,
    size: u64,
    result: Result<StageReportView, CliErrorView>,
) -> bool {
    exists|upload: Result<RpcReplyView, ClientErrorView>|
        #[trigger] staged_with(before, after, serial, binary, digest, size, upload, result)
}

/// Whether an update ended so after this answer to the upload.
pub open spec fn staged_with(
    before: Seq<Exchange>,
    after: Seq<Exchange>,
    serial: Seq<char>,
    binary: Seq<char>,
    digest: Seq<char>,
    size: u64,
    upload: Result<RpcReplyView, ClientErrorView>,
    result: Result<StageReportView, CliErrorView>,
) -> bool {
    let between = before.push(Exchange { call: upload_call(serial, binary, digest), reply: upload });
    match uploaded(size, upload) {
        Err(error) => after == between && result == Err::<StageReportView, _>(error),
        Ok(transfer_id) => one_call(
            between,
            after,
            exec_call(serial, stage_argv(digest), STAGE_TIMEOUT),
            |reply: RpcReplyView| stage_report(serial, digest, size, transfer_id, reply),
            result,
        ),
    }
}

fn upload_to(digest: &str) -> (path: String)
    ensures
        path@ == upload_path(digest@),
{
    let mut path = concat("staging/daemon/", digest);
    path.append("/kindlebridged");
    path
}

fn staging_command(digest: &str) -> (argv: Vec<String>)
    ensures
        text::all(argv@) == stage_argv(digest@),
{
    let mut argv: Vec<String> = Vec::new();
    argv.push("/var/local/kindlebridge/control/bin/kindlebridge-launcher".to_owned());
    argv.push("stage".to_owned());
    argv.push("--root".to_owned());
    argv.push("/var/local/kindlebridge/control/runtime".to_owned());
    argv.push("--source".to_owned());
    argv.push(concat("/mnt/us/kindlebridge-data/", upload_to(digest).as_str()));
    argv.push("--blake3".to_owned());
    argv.push(digest.to_owned());
    assert(text::all(argv@) =~= stage_argv(digest@));
    argv
}

/// The identifier of the transfer, where it was complete.
fn check_upload(answer: CallResult, size: u64) -> (result: Result<String, CliError>)
    ensures
        forall|pretty: Seq<char>| #[trigger]
            uploaded(size, Ok(RpcReplyView { pretty, result: answer@ })) == error::outcome(result),
{
    match answer {
        CallResult::SyncPush(pushed) => {
            if pushed.state == TransferState::Complete && pushed.accepted_offset == size {
                return Ok(pushed.transfer_id);
            }
            let mut message = concat("transfer ", pushed.transfer_id.as_str());
            message.append(" stopped at ");
            message.append(to_decimal(pushed.accepted_offset).as_str());
            message.append("/");
            message.append(to_decimal(size).as_str());
            message.append(" bytes");
            Err(reject("upload", message))
        },
        _ => Err(invalid_result("daemon stage upload")),
    }
}

/// Uploads a daemon binary, given by its path, digest and size, and has the device
/// verify it.
pub fn execute_daemon<C: RpcCaller>(
    caller: &mut C,
    serial: &String,
    device_binary: &String,
    digest: &String,
    size: u64,
) -> (result: Result<StageReport, CliError>)
    ensures
        staged(
            old(caller).exchanges(),
            final(caller).exchanges(),
            serial@,
            device_binary@,
            digest@,
            size,
            error::outcome(result),
        ),
{
    let ghost before = caller.exchanges();
    let params = SyncPushParams {
        serial: serial.clone(),
        local_path: device_binary.clone(),
        remote_path: upload_to(digest.as_str()),
        transfer_id: None,
        block_size: DEFAULT_SYNC_BLOCK_SIZE,
    };
    let asked = ask(caller, RpcCall::SyncPush(params));
    let ghost upload = execute::answer_of(asked);
    let ghost between = caller.exchanges();
    assert(between == before.push(
        Exchange { call: upload_call(serial@, device_binary@, digest@), reply: upload },
    ));
    let checked = match asked {
        Err(error) => Err(error),
        Ok(answer) => check_upload(answer.result, size),
    };
    assert(error::outcome(checked) == uploaded(size, upload));
    let transfer_id = match checked {
        Ok(transfer_id) => transfer_id,
        Err(error) => {
            let result: Result<StageReport, CliError> = Err(error);
            assert(staged_with(
                before,
                between,
                serial@,
                device_binary@,
                digest@,
                size,
                upload,
                error::outcome(result),
            ));
            return result;
        },
    };
    let staged = call_exec_checked(caller, serial, staging_command(digest.as_str()), "staging");
    let ghost ran = error::outcome(staged);
    let ghost id = transfer_id@;
    let result: Result<StageReport, CliError> = match staged {
        Err(error) => Err(error),
        Ok(staged) => match parse_staged_update(staged.stdout.as_str(), digest.as_str(), size) {
            Err(error) => Err(error),
            Ok(slot) => Ok(
                StageReport {
                    serial: serial.clone(),
                    slot,
                    blake3: digest.clone(),
                    size,
                    transfer_id,
                },
            ),
        },
    };
    proof {
        let call = exec_call(serial@, stage_argv(digest@), STAGE_TIMEOUT);
        let shown = |reply: RpcReplyView| exec_checked("staging"@, reply);
        assert(one_call(between, caller.exchanges(), call, shown, ran));
        let reply = choose|reply: Result<RpcReplyView, ClientErrorView>| #[trigger]
            execute::asked(between, caller.exchanges(), call, reply) && ran == (match reply {
                Ok(answer) => shown(answer),
                Err(error) => Err(CliErrorView::Rpc(error)),
            });
        assert(execute::asked(between, caller.exchanges(), call, reply));
        assert(staged_with(
            before,
            caller.exchanges(),
            serial@,
            device_binary@,
            digest@,
            size,
            upload,
            error::outcome(result),
        ));
    }
    result
}

/// Whatever the device answers, staging an update sends at most two requests: the
/// upload of the binary and the command that verifies it. None activates a slot.
pub proof fn staging_activates_nothing(
    before: Seq<Exchange>,
    after: Seq<Exchange>,
    serial: Seq<char>,
    binary: Seq<char>,
    digest: Seq<char>,
    size: u64,
    result: Result<StageReportView, CliErrorView>,
)
    requires
        staged(before, after, serial, binary, digest, size, result),
    ensures
        before.len() < after.len() <= before.len() + 2,
        after.take(before.len() as int) == before,
        after[before.len() as int].call == upload_call(serial, binary, digest),
        after.len() == before.len() + 2 ==> after.last().call == exec_call(
            serial,
            stage_argv(digest),
            STAGE_TIMEOUT,
        ),
        result is Ok ==> after.len() == before.len() + 2,
{
    assert(after.take(before.len() as int) =~= before);
}

/// A staged update is the binary that was hashed: all of its bytes were uploaded from its
/// place on the host, the device was told to verify just the uploaded file against just
/// that digest, and the record that its launcher printed names a slot together with the
/// same digest and the same size. The report says so.
pub proof fn staged_updates_are_verified(
    before: Seq<Exchange>,
    after: Seq<Exchange>,
    serial: Seq<char>,
    binary: Seq<char>,
    digest: Seq<char>,
    size: u64,
    report: StageReportView,
)
    requires
        staged(before, after, serial, binary, digest, size, Ok(report)),
    ensures
        ({
            let upload = after[before.len() as int];
            let stage = after[before.len() as int + 1];
            &&& after.len() == before.len() + 2
            &&& upload.call matches RpcCallView::SyncPush(push) && push.serial == serial
                && push.local_path == binary && push.transfer_id is None
            &&& stage.call matches RpcCallView::ExecRun(exec) && exec.serial == serial
                && exec.argv.len() == 8 && exec.argv[1] == "stage"@ && exec.argv[4] == "--source"@
                && exec.argv[5] == "/mnt/us/kindlebridge-data/"@
                + upload.call->SyncPush_0.remote_path && exec.argv[6] == "--blake3"@
                && exec.argv[7] == digest
            &&& upload.reply matches Ok(answer) && answer.result matches CallResultView::SyncPush(
                pushed,
            ) && pushed.state == TransferState::Complete && pushed.accepted_offset == size
                && pushed.transfer_id == report.transfer_id
            &&& stage.reply matches Ok(answer) && answer.result matches CallResultView::Exec(
                result,
            ) && result.exit_code == 0 && {
                let fields = path::split(text::trimmed(result.stdout), '\t');
                &&& fields.len() == 3
                &&& fields[0] == report.slot
                &&& fields[1] == digest
                &&& number::unsigned(fields[2], 10, u64::MAX as nat) == Some(size as nat)
            }
            &&& report.slot == "A"@ || report.slot == "B"@
            &&& report.serial == serial
            &&& report.blake3 == digest
            &&& report.size == size
        }),
{
}

/// Uploads of different binaries lie in different places: nothing that is staged is the
/// upload of another digest.
pub proof fn uploads_are_kept_apart(left: Seq<char>, right: Seq<char>)
    requires
        upload_path(left) == upload_path(right),
    ensures
        left == right,
{
    reveal_strlit("staging/daemon/");
    reveal_strlit("/kindlebridged");
    let l = upload_path(left);
    let r = upload_path(right);
    assert("staging/daemon/"@.len() == 15);
    assert("/kindlebridged"@.len() == 14);
    assert(l.len() == 29 + left.len());
    assert(r.len() == 29 + right.len());
    assert(l.skip(15).take(left.len() as int) =~= left);
    assert(r.skip(15).take(right.len() as int) =~= right);
}

/// An upload that has not arrived whole is not staged: nothing else is sent.
pub proof fn incomplete_uploads_are_not_staged(
    before: Seq<Exchange>,
    after: Seq<Exchange>,
    serial: Seq<char>,
    binary: Seq<char>,
    digest: Seq<char>,
    size: u64,
    result: Result<StageReportView, CliErrorView>,
)
    requires
        staged(before, after, serial, binary, digest, size, result),
        !(after[before.len() as int].reply matches Ok(answer)
            && answer.result matches CallResultView::SyncPush(pushed) && pushed.state
            == TransferState::Complete && pushed.accepted_offset == size),
    ensures
        after.len() == before.len() + 1,
        result is Err,
{
}

/// A daemon binary is used only if it is a file at an absolute path that holds something
/// and no more than thirty-two mebibytes.
pub proof fn only_plausible_binaries_are_used(
    is_absolute: bool,
    metadata: Result<(bool, u64), Seq<char>>,
)
    ensures
        binary_refusal(is_absolute, metadata) is None <==> is_absolute && metadata is Ok
            && metadata->Ok_0.0 && 1 <= metadata->Ok_0.1 <= 32 * 1024 * 1024,
{
}

/// A command of an update counts only when it ends with zero; one that fails is told with
/// what it printed, or else with how it ended.
pub proof fn failed_update_commands_are_told(step: Seq<char>, reply: RpcReplyView)
    ensures
        exec_checked(step, reply) matches Ok(result) ==> reply.result == CallResultView::Exec(result)
            && result.exit_code == 0,
        reply.result matches CallResultView::Exec(result) ==> (result.exit_code == 0
            ==> exec_checked(step, reply) is Ok),
        reply.result matches CallResultView::Exec(result) ==> (result.exit_code != 0 ==> (
        exec_checked(step, reply) matches Err(CliErrorView::UpdateRejected { step: at, message })
            && at == step && (text::trimmed(result.stderr).len() > 0 ==> message == text::trimmed(
            result.stderr,
        )) && (text::trimmed(result.stderr).len() == 0 ==> text::mentions(
            message,
            number::signed_decimal(result.exit_code as int),
        )))),
{
    if let CallResultView::Exec(result) = reply.result {
        text::at_the_end(
            "command exited with "@,
            number::signed_decimal(result.exit_code as int),
        );
    }
}

} // verus!
