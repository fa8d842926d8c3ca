//! What the user is shown.

use crate::codec;
use crate::codec::to_lower_case;
use crate::host_rpc::{ServerVersion, ServerVersionView};
use crate::model;
use crate::model::{
    AppState, AppSummary, AppSummaryView, DeviceFeatures, DeviceFeaturesView, DeviceState,
    DeviceSummary, DeviceSummaryView, ExecResult, ExecResultView, LogEntry, LogEntryView,
    ProcessSummary, ProcessSummaryView, SyncStatus, SyncStatusView, TransferDirection,
    TransferState,
};
use crate::number;
use crate::number::{to_decimal, to_signed_decimal};
use crate::path;
use crate::text;
use crate::text::{chars_of, concat, join_texts, string_of};
use vstd::prelude::*;

verus! {

/// The text of a command and the exit code of the tool.
#[derive(Debug, PartialEq, Eq)]
pub struct CommandOutput {
    pub output: String,
    pub exit_code: i32,
}

impl CommandOutput {
    /// The output of a command that succeeded.
    pub fn success(output: String) -> (result: Self)
        ensures
            result.output == output,
            result.exit_code == 0,
    {
        CommandOutput { output, exit_code: 0 }
    }
}

/// The exit code of the process: that of the command where it fits a byte.
pub open spec fn exit_status(exit_code: i32) -> int {
    if 0 <= exit_code <= 255 {
        exit_code as int
    } else {
        1
    }
}

/// The exit code of the process.
pub fn process_exit_code(exit_code: i32) -> (code: u8)
    ensures
        code == exit_status(exit_code),
{
    if 0 <= exit_code && exit_code <= 255 {
        exit_code as u8
    } else {
        1
    }
}

/// How long a transfer took, in the digits that the user is shown: seconds and
/// mebibytes per second, both with two decimals.
#[derive(Debug)]
pub struct Elapsed {
    pub is_zero: bool,
    pub seconds: String,
    pub mib_per_second: String,
}

/// How long a transfer took, for the user. The rate is left out where it says
/// nothing: for a transfer that was continued, and when no time passed.
pub open spec fn timing(
    is_zero: bool,
    seconds: Seq<char>,
    mib_per_second: Seq<char>,
    resumed: bool,
) -> Seq<char> {
    if resumed || is_zero {
        "in "@ + seconds + " s"@
    } else {
        "in "@ + seconds + " s ("@ + mib_per_second + " MiB/s)"@
    }
}

/// What the user is told of a finished transfer.
pub open spec fn transfer_summary(
    action: Seq<char>,
    bytes: u64,
    preposition: Seq<char>,
    path: Seq<char>,
    transfer_id: Seq<char>,
    timing: Seq<char>,
) -> Seq<char> {
    action + " "@ + number::decimal(bytes as nat) + " bytes "@ + preposition + " "@ + path + " "@
        + timing + " ("@ + transfer_id + ")"@
}

/// What the user is told of a finished transfer.
pub fn format_transfer_summary(
    action: &str,
    bytes: u64,
    preposition: &str,
    path: &str,
    transfer_id: &str,
    elapsed: &Elapsed,
    resumed: bool,
) -> (summary: String)
    ensures
        summary@ == transfer_summary(
            action@,
            bytes,
            preposition@,
            path@,
            transfer_id@,
            timing(elapsed.is_zero, elapsed.seconds@, elapsed.mib_per_second@, resumed),
        ),
{
    let mut timing = concat("in ", elapsed.seconds.as_str());
    if resumed || elapsed.is_zero {
        timing.append(" s");
    } else {
        timing.append(" s (");
        timing.append(elapsed.mib_per_second.as_str());
        timing.append(" MiB/s)");
    }
    let mut summary = concat(action, " ");
    summary.append(to_decimal(bytes).as_str());
    summary.append(" bytes ");
    summary.append(preposition);
    summary.append(" ");
    summary.append(path);
    summary.append(" ");
    summary.append(timing.as_str());
    summary.append(" (");
    summary.append(transfer_id);
    summary.append(")");
    summary
}

/// What the user is told of a finished directory transfer.
pub open spec fn tree_summary(
    direction: Seq<char>,
    files: nat,
    directories: nat,
    bytes: u64,
    seconds: Seq<char>,
) -> Seq<char> {
    direction + "ed "@ + number::decimal(files) + " files in "@ + number::decimal(directories)
        + " directories ("@ + number::decimal(bytes as nat) + " bytes) in "@ + seconds + " s"@
}

/// What the user is told of a finished directory transfer.
pub fn format_tree_summary(
    direction: &str,
    files: usize,
    directories: usize,
    bytes: u64,
    seconds: &str,
) -> (summary: String)
    ensures
        summary@ == tree_summary(direction@, files as nat, directories as nat, bytes, seconds@),
{
    let mut summary = concat(direction, "ed ");
    summary.append(to_decimal(files as u64).as_str());
    summary.append(" files in ");
    summary.append(to_decimal(directories as u64).as_str());
    summary.append(" directories (");
    summary.append(to_decimal(bytes).as_str());
    summary.append(" bytes) in ");
    summary.append(seconds);
    summary.append(" s");
    summary
}

/// The version of a server, for the user.
pub open spec fn version_text(version: ServerVersionView) -> Seq<char> {
    version.name + " "@ + version.version + " (API "@ + version.api_version + ")"@
}

/// The version of a server, for the user.
pub fn format_server_identity(version: &ServerVersion) -> (text: String)
    ensures
        text@ == version_text(version@),
{
    let mut text = concat(version.name.as_str(), " ");
    text.append(version.version.as_str());
    text.append(" (API ");
    text.append(version.api_version.as_str());
    text.append(")");
    text
}

/// The state of a device, for the user.
pub open spec fn device_state_text(state: DeviceState) -> Seq<char> {
    match state {
        DeviceState::Online => "online"@,
        DeviceState::Offline => "offline"@,
        DeviceState::Unauthorized => "unauthorized"@,
    }
}

/// One line of the device table.
pub open spec fn device_line(device: DeviceSummaryView) -> Seq<char> {
    device.serial + "\t"@ + device.model + "\t"@ + device_state_text(device.state) + "\t"@
        + device.transport
}

/// The head of the device table and its lines.
pub open spec fn device_lines(devices: Seq<DeviceSummaryView>) -> Seq<Seq<char>> {
    seq!["SERIAL\tMODEL\tSTATE\tTRANSPORT"@] + devices.map_values(
        |device: DeviceSummaryView| device_line(device),
    )
}

/// The known devices, for the user.
pub open spec fn device_table(devices: Seq<DeviceSummaryView>) -> Seq<char> {
    if devices.len() == 0 {
        "No devices."@
    } else {
        text::joined(device_lines(devices), "\n"@)
    }
}

/// The known devices, for the user.
pub fn format_devices(devices: &Vec<DeviceSummary>) -> (text: String)
    ensures
        text@ == device_table(model::device_summary_views(devices@)),
{
    if devices.len() == 0 {
        return "No devices.".to_owned();
    }
    let mut lines: Vec<String> = Vec::new();
    lines.push("SERIAL\tMODEL\tSTATE\tTRANSPORT".to_owned());
    let mut i: usize = 0;
    while i < devices.len()
        invariant
            i <= devices.len(),
            lines@.len() == i + 1,
            lines@[0]@ == "SERIAL\tMODEL\tSTATE\tTRANSPORT"@,
            forall|k: int| 0 <= k < i ==> (#[trigger] lines@[k + 1])@ == device_line(devices@[k]@),
        decreases devices.len() - i,
    {
        let device = &devices[i];
        let mut line = concat(device.serial.as_str(), "\t");
        line.append(device.model.as_str());
        line.append("\t");
        line.append(
            match device.state {
                DeviceState::Online => "online",
                DeviceState::Offline => "offline",
                DeviceState::Unauthorized => "unauthorized",
            },
        );
        line.append("\t");
        line.append(device.transport.as_str());
        lines.push(line);
        assert(lines@[i + 1]@ == device_line(devices@[i as int]@));
        i += 1;
    }
    proof {
        let views = model::device_summary_views(devices@);
        assert forall|k: int| 0 <= k < lines@.len() implies #[trigger] text::all(lines@)[k]
            == device_lines(views)[k] by {
            if k > 0 {
                assert(lines@[(k - 1) + 1]@ == device_line(devices@[k - 1]@));
            }
        }
        assert(text::all(lines@) =~= device_lines(views));
        assert(text::all(lines@).skip(0) =~= text::all(lines@));
    }
    join_texts(&lines, 0, "\n")
}

/// What a device offers, for the user.
pub open spec fn features_text(features: DeviceFeaturesView) -> Seq<char> {
    features.serial + " (protocol "@ + number::decimal(features.protocol_version as nat) + ")\n"@
        + text::joined(features.features, "\n"@)
}

/// What a device offers, for the user.
pub fn format_features(features: &DeviceFeatures) -> (text: String)
    ensures
        text@ == features_text(features@),
{
    let mut text = concat(features.serial.as_str(), " (protocol ");
    text.append(to_decimal(features.protocol_version as u64).as_str());
    text.append(")\n");
    assert(text::all(features.features@).skip(0) =~= text::all(features.features@));
    text.append(join_texts(&features.features, 0, "\n").as_str());
    text
}

/// Text without the line breaks at its end.
pub open spec fn without_line_ends(text: Seq<char>) -> Seq<char>
    decreases text.len(),
{
    if text.len() > 0 && text.last() == '\n' {
        without_line_ends(text.drop_last())
    } else {
        text
    }
}

fn trim_line_ends(text: &str) -> (trimmed: String)
    ensures
        trimmed@ == without_line_ends(text@),
{
    let mut chars = chars_of(text);
    while chars.len() > 0 && chars[chars.len() - 1] == '\n'
        invariant
            without_line_ends(chars@) == without_line_ends(text@),
        decreases chars.len(),
    {
        let ghost before = chars@;
        chars.pop();
        assert(chars@ =~= before.drop_last());
    }
    string_of(chars.as_slice())
}

/// What a finished process printed, for the user, with its exit code where it is
/// not zero.
pub open spec fn exec_text(result: ExecResultView) -> Seq<char> {
    without_line_ends(
        result.stdout + result.stderr + if result.exit_code != 0 {
            "[exit "@ + number::signed_decimal(result.exit_code as int) + "]\n"@
        } else {
            Seq::empty()
        },
    )
}

/// What a finished process printed, for the user.
pub fn format_exec(result: &ExecResult) -> (text: String)
    ensures
        text@ == exec_text(result@),
{
    let mut output = concat(result.stdout.as_str(), result.stderr.as_str());
    if result.exit_code != 0 {
        let mut note = concat("[exit ", to_signed_decimal(result.exit_code as i64).as_str());
        note.append("]\n");
        output.append(note.as_str());
    } else {
        assert(output@ =~= result@.stdout + result@.stderr + Seq::<char>::empty());
    }
    trim_line_ends(output.as_str())
}

/// The direction of a transfer, as a word.
pub open spec fn direction_word(direction: TransferDirection) -> Seq<char> {
    match direction {
        TransferDirection::Push => "Push"@,
        TransferDirection::Pull => "Pull"@,
    }
}

/// The state of a transfer, as a word.
pub open spec fn state_word(state: TransferState) -> Seq<char> {
    match state {
        TransferState::Active => "Active"@,
        TransferState::Complete => "Complete"@,
    }
}

/// The state of a transfer before it is put in lower case.
pub open spec fn status_words(status: SyncStatusView) -> Seq<char> {
    status.transfer_id + " "@ + direction_word(status.direction) + " "@ + number::decimal(
        status.next_offset as nat,
    ) + "/"@ + number::decimal(status.total_size as nat) + " "@ + state_word(status.state)
}

/// The state of a transfer, for the user.
pub fn format_sync_status(status: &SyncStatus) -> (text: String)
    ensures
        text@ == codec::lower_case(status_words(status@)),
{
    let mut words = concat(status.transfer_id.as_str(), " ");
    words.append(
        match status.direction {
            TransferDirection::Push => "Push",
            TransferDirection::Pull => "Pull",
        },
    );
    words.append(" ");
    words.append(to_decimal(status.next_offset).as_str());
    words.append("/");
    words.append(to_decimal(status.total_size).as_str());
    words.append(" ");
    words.append(
        match status.state {
            TransferState::Active => "Active",
            TransferState::Complete => "Complete",
        },
    );
    to_lower_case(words.as_str())
}

/// The state of an application, for the user.
pub open spec fn app_state_text(app: AppSummaryView) -> Seq<char> {
    match app.state {
        AppState::Stopped => "stopped"@,
        AppState::Running => "running pid="@ + number::decimal(
            match app.pid {
                Some(pid) => pid as nat,
                None => 0,
            },
        ),
        AppState::Failed => "failed"@,
    }
}

/// One application, for the user.
pub open spec fn app_text(app: AppSummaryView) -> Seq<char> {
    app.app_id + "\t"@ + app.version + "\t"@ + app_state_text(app)
}

/// One application, for the user.
pub fn format_app(app: &AppSummary) -> (text: String)
    ensures
        text@ == app_text(app@),
{
    let mut text = concat(app.app_id.as_str(), "\t");
    text.append(app.version.as_str());
    text.append("\t");
    let state = match app.state {
        AppState::Stopped => "stopped".to_owned(),
        AppState::Running => {
            let pid: u32 = match app.pid {
                Some(pid) => pid,
                None => 0,
            };
            concat("running pid=", to_decimal(pid as u64).as_str())
        },
        AppState::Failed => "failed".to_owned(),
    };
    text.append(state.as_str());
    text
}

/// The applications of a device, for the user.
pub open spec fn app_table(apps: Seq<AppSummaryView>) -> Seq<char> {
    if apps.len() == 0 {
        "No apps."@
    } else {
        text::joined(apps.map_values(|app: AppSummaryView| app_text(app)), "\n"@)
    }
}

/// The applications of a device, for the user.
pub fn format_apps(apps: &Vec<AppSummary>) -> (text: String)
    ensures
        text@ == app_table(model::app_summary_views(apps@)),
{
    if apps.len() == 0 {
        return "No apps.".to_owned();
    }
    let mut lines: Vec<String> = Vec::new();
    let mut i: usize = 0;
    while i < apps.len()
        invariant
            i <= apps.len(),
            lines@.len() == i,
            forall|k: int| 0 <= k < i ==> (#[trigger] lines@[k])@ == app_text(apps@[k]@),
        decreases apps.len() - i,
    {
        lines.push(format_app(&apps[i]));
        i += 1;
    }
    proof {
        let views = model::app_summary_views(apps@);
        assert(text::all(lines@).skip(0) =~= views.map_values(
            |app: AppSummaryView| app_text(app),
        ));
    }
    join_texts(&lines, 0, "\n")
}

/// One process, for the user.
pub open spec fn process_text(process: ProcessSummaryView) -> Seq<char> {
    number::decimal(process.pid as nat) + "\t"@ + process.name
}

/// The processes of a device, for the user.
pub open spec fn process_table(processes: Seq<ProcessSummaryView>) -> Seq<char> {
    if processes.len() == 0 {
        "No processes."@
    } else {
        text::joined(
            processes.map_values(|process: ProcessSummaryView| process_text(process)),
            "\n"@,
        )
    }
}

/// The processes of a device, for the user.
pub fn format_processes(processes: &Vec<ProcessSummary>) -> (text: String)
    ensures
        text@ == process_table(model::process_summary_views(processes@)),
{
    if processes.len() == 0 {
        return "No processes.".to_owned();
    }
    let mut lines: Vec<String> = Vec::new();
    let mut i: usize = 0;
    while i < processes.len()
        invariant
            i <= processes.len(),
            lines@.len() == i,
            forall|k: int| 0 <= k < i ==> (#[trigger] lines@[k])@ == process_text(processes@[k]@),
        decreases processes.len() - i,
    {
        let mut line = concat(to_decimal(processes[i].pid as u64).as_str(), "\t");
        line.append(processes[i].name.as_str());
        lines.push(line);
        i += 1;
    }
    proof {
        let views = model::process_summary_views(processes@);
        assert(text::all(lines@).skip(0) =~= views.map_values(
            |process: ProcessSummaryView| process_text(process),
        ));
    }
    join_texts(&lines, 0, "\n")
}

/// What the user is told of a signal that was sent.
pub open spec fn signal_text(signal: Seq<char>, process: ProcessSummaryView) -> Seq<char> {
    "sent "@ + signal + " to "@ + number::decimal(process.pid as nat) + " ("@ + process.name + ")"@
}

/// What the user is told of a signal that was sent.
pub fn format_signal(signal: &str, process: &ProcessSummary) -> (text: String)
    ensures
        text@ == signal_text(signal@, process@),
{
    let mut text = concat("sent ", signal);
    text.append(" to ");
    text.append(to_decimal(process.pid as u64).as_str());
    text.append(" (");
    text.append(process.name.as_str());
    text.append(")");
    text
}

/// One line of the log, for the user.
pub open spec fn log_text(entry: LogEntryView) -> Seq<char> {
    number::decimal(entry.cursor as nat) + "\t"@ + entry.level + "\t"@ + entry.source + "\t"@
        + entry.message
}

/// A piece of the log, for the user.
pub open spec fn log_lines(entries: Seq<LogEntryView>) -> Seq<char> {
    text::joined(entries.map_values(|entry: LogEntryView| log_text(entry)), "\n"@)
}

/// A piece of the log, for the user.
pub fn format_log(entries: &Vec<LogEntry>) -> (text: String)
    ensures
        text@ == log_lines(model::log_entry_views(entries@)),
{
    let mut lines: Vec<String> = Vec::new();
    let mut i: usize = 0;
    while i < entries.len()
        invariant
            i <= entries.len(),
            lines@.len() == i,
            forall|k: int| 0 <= k < i ==> (#[trigger] lines@[k])@ == log_text(entries@[k]@),
        decreases entries.len() - i,
    {
        let entry = &entries[i];
        let mut line = concat(to_decimal(entry.cursor).as_str(), "\t");
        line.append(entry.level.as_str());
        line.append("\t");
        line.append(entry.source.as_str());
        line.append("\t");
        line.append(entry.message.as_str());
        lines.push(line);
        i += 1;
    }
    proof {
        let views = model::log_entry_views(entries@);
        assert(text::all(lines@).skip(0) =~= views.map_values(
            |entry: LogEntryView| log_text(entry),
        ));
    }
    join_texts(&lines, 0, "\n")
}

proof fn line_ends_are_at_the_end(text: Seq<char>)
    ensures
        without_line_ends(text).len() <= text.len(),
        without_line_ends(text) == text.take(without_line_ends(text).len() as int),
        forall|i: int|
            without_line_ends(text).len() <= i < text.len() ==> #[trigger] text[i] == '\n',
        without_line_ends(text).len() > 0 ==> without_line_ends(text).last() != '\n',
    decreases text.len(),
{
    if text.len() > 0 && text.last() == '\n' {
        line_ends_are_at_the_end(text.drop_last());
        let shown = without_line_ends(text);
        assert(text.drop_last().take(shown.len() as int) =~= text.take(shown.len() as int));
        assert forall|i: int| shown.len() <= i < text.len() implies #[trigger] text[i] == '\n' by {
            if i < text.len() - 1 {
                assert(text.drop_last()[i] == '\n');
            }
        }
    } else {
        assert(text.take(text.len() as int) =~= text);
    }
}

/// What a process printed is shown, whatever its exit code. After an exit code of zero it
/// is all that is shown, but for line breaks at its end, of which none is left. After any
/// other exit code every character of it is shown, with the exit code behind it.
pub proof fn process_output_is_shown(result: ExecResultView)
    ensures
        ({
            let printed = result.stdout + result.stderr;
            let shown = exec_text(result);
            if result.exit_code == 0 {
                &&& shown.is_prefix_of(printed)
                &&& forall|i: int| shown.len() <= i < printed.len() ==> #[trigger] printed[i] == '\n'
                &&& shown.len() > 0 ==> shown.last() != '\n'
            } else {
                shown == printed + "[exit "@ + number::signed_decimal(result.exit_code as int)
                    + "]"@
            }
        }),
{
    let printed = result.stdout + result.stderr;
    if result.exit_code == 0 {
        assert(printed + Seq::<char>::empty() =~= printed);
        line_ends_are_at_the_end(printed);
    } else {
        reveal_strlit("]\n");
        reveal_strlit("]");
        let note = "[exit "@ + number::signed_decimal(result.exit_code as int);
        let whole = printed + (note + "]\n"@);
        let kept = printed + "[exit "@ + number::signed_decimal(result.exit_code as int) + "]"@;
        assert(whole.drop_last() =~= kept);
        assert(whole.last() == '\n');
        assert(kept.last() == ']');
        assert(without_line_ends(whole.drop_last()) == kept);
    }
}

/// Whether a text fits in one cell of a table: it has no tab and no line break.
pub open spec fn fits_cell(text: Seq<char>) -> bool {
    !text.contains('\t') && !text.contains('\n')
}

proof fn cells_come_apart(cells: Seq<Seq<char>>)
    requires
        cells.len() > 0,
        forall|i: int| 0 <= i < cells.len() ==> fits_cell(#[trigger] cells[i]),
    ensures
        path::split(text::joined(cells, "\t"@), '\t') == cells,
        !text::joined(cells, "\t"@).contains('\n'),
    decreases cells.len(),
{
    reveal_strlit("\t");
    assert("\t"@ =~= seq!['\t']);
    path::joined_pieces_split_back(cells, '\t');
    if cells.len() > 1 {
        let fewer = cells.drop_last();
        assert forall|i: int| 0 <= i < fewer.len() implies fits_cell(#[trigger] fewer[i]) by {
            assert(fewer[i] == cells[i]);
        }
        cells_come_apart(fewer);
        assert(cells.last() == cells[cells.len() - 1]);
        let line = text::joined(cells, "\t"@);
        let head = text::joined(fewer, "\t"@);
        if line.contains('\n') {
            let i = choose|i: int| 0 <= i < line.len() && line[i] == '\n';
            if i < head.len() {
                assert(head[i] == '\n');
            } else if i > head.len() {
                assert(cells.last()[i - head.len() - 1] == '\n');
            }
        }
    }
}

proof fn lines_come_apart(lines: Seq<Seq<char>>)
    requires
        lines.len() > 0,
        forall|i: int| 0 <= i < lines.len() ==> !(#[trigger] lines[i]).contains('\n'),
    ensures
        path::split(text::joined(lines, "\n"@), '\n') == lines,
{
    reveal_strlit("\n");
    assert("\n"@ =~= seq!['\n']);
    path::joined_pieces_split_back(lines, '\n');
}

proof fn numbers_fit_cells(value: nat)
    ensures
        fits_cell(number::decimal(value)),
{
    number::decimal_digits(value);
}

/// Every device is shown, on a line of its own and in the order of the answer: behind the
/// line with the heads of the columns, the line of a device has its serial, its model, its
/// state and its transport between tabs. States are told apart by their words.
pub proof fn every_device_is_shown(devices: Seq<DeviceSummaryView>)
    requires
        devices.len() > 0,
        forall|i: int|
            0 <= i < devices.len() ==> fits_cell((#[trigger] devices[i]).serial) && fits_cell(
                devices[i].model,
            ) && fits_cell(devices[i].transport),
    ensures
        ({
            let lines = path::split(device_table(devices), '\n');
            &&& lines.len() == devices.len() + 1
            &&& path::split(lines[0], '\t') == seq!["SERIAL"@, "MODEL"@, "STATE"@, "TRANSPORT"@]
            &&& forall|i: int|
                0 <= i < devices.len() ==> path::split(#[trigger] lines[i + 1], '\t') == seq![
                    devices[i].serial,
                    devices[i].model,
                    device_state_text(devices[i].state),
                    devices[i].transport,
                ]
        }),
        forall|left: DeviceState, right: DeviceState|
            left != right ==> #[trigger] device_state_text(left) != #[trigger] device_state_text(
                right,
            ),
{
    reveal_strlit("\t");
    reveal_strlit("SERIAL");
    reveal_strlit("MODEL");
    reveal_strlit("STATE");
    reveal_strlit("TRANSPORT");
    reveal_strlit("SERIAL\tMODEL\tSTATE\tTRANSPORT");
    reveal_strlit("online");
    reveal_strlit("offline");
    reveal_strlit("unauthorized");
    reveal_with_fuel(text::joined, 5);
    assert("online"@.len() == 6 && "offline"@.len() == 7 && "unauthorized"@.len() == 12);
    let heads = seq!["SERIAL"@, "MODEL"@, "STATE"@, "TRANSPORT"@];
    let lines = device_lines(devices);
    assert forall|i: int| 0 <= i < heads.len() implies fits_cell(#[trigger] heads[i]) by {}
    cells_come_apart(heads);
    assert(heads.drop_last().drop_last().drop_last() =~= seq!["SERIAL"@]);
    assert(heads.drop_last().drop_last() =~= seq!["SERIAL"@, "MODEL"@]);
    assert(heads.drop_last() =~= seq!["SERIAL"@, "MODEL"@, "STATE"@]);
    assert(text::joined(heads, "\t"@) =~= lines[0]);
    assert forall|i: int| 0 <= i < devices.len() implies path::split(
        #[trigger] lines[i + 1],
        '\t',
    ) == seq![
        devices[i].serial,
        devices[i].model,
        device_state_text(devices[i].state),
        devices[i].transport,
    ] && !lines[i + 1].contains('\n') by {
        let device = devices[i];
        let state = device_state_text(device.state);
        let cells = seq![device.serial, device.model, state, device.transport];
        assert(fits_cell(state));
        assert forall|k: int| 0 <= k < cells.len() implies fits_cell(#[trigger] cells[k]) by {}
        cells_come_apart(cells);
        assert(cells.drop_last().drop_last().drop_last() =~= seq![device.serial]);
        assert(cells.drop_last().drop_last() =~= seq![device.serial, device.model]);
        assert(cells.drop_last() =~= seq![device.serial, device.model, state]);
        assert(text::joined(cells, "\t"@) =~= device_line(device));
        assert(lines[i + 1] == device_line(device));
    }
    assert forall|i: int| 0 <= i < lines.len() implies !(#[trigger] lines[i]).contains('\n') by {
        if i > 0 {
            assert(!lines[(i - 1) + 1].contains('\n'));
        }
    }
    lines_come_apart(lines);
}

/// Every application is shown, on a line of its own and in the order of the answer, with
/// its identifier, its version and its state between tabs. A running one shows the number
/// of its process.
pub proof fn every_app_is_shown(apps: Seq<AppSummaryView>)
    requires
        apps.len() > 0,
        forall|i: int|
            0 <= i < apps.len() ==> fits_cell((#[trigger] apps[i]).app_id) && fits_cell(
                apps[i].version,
            ),
    ensures
        ({
            let lines = path::split(app_table(apps), '\n');
            &&& lines.len() == apps.len()
            &&& forall|i: int|
                0 <= i < apps.len() ==> path::split(#[trigger] lines[i], '\t') == seq![
                    apps[i].app_id,
                    apps[i].version,
                    app_state_text(apps[i]),
                ]
        }),
        forall|app: AppSummaryView|
            app.state == AppState::Running && app.pid is Some ==> #[trigger] app_state_text(app)
                == "running pid="@ + number::decimal(app.pid->Some_0 as nat),
        forall|left: AppSummaryView, right: AppSummaryView|
            left.state != right.state ==> #[trigger] app_state_text(left)
                != #[trigger] app_state_text(right),
{
    reveal_strlit("\t");
    reveal_strlit("stopped");
    reveal_strlit("failed");
    reveal_strlit("running pid=");
    reveal_with_fuel(text::joined, 4);
    let lines = apps.map_values(|app: AppSummaryView| app_text(app));
    assert forall|i: int| 0 <= i < apps.len() implies path::split(#[trigger] lines[i], '\t') == seq![
        apps[i].app_id,
        apps[i].version,
        app_state_text(apps[i]),
    ] && !lines[i].contains('\n') by {
        let app = apps[i];
        let state = app_state_text(app);
        if app.state == AppState::Running {
            let pid = match app.pid {
                Some(pid) => pid as nat,
                None => 0,
            };
            numbers_fit_cells(pid);
            assert forall|c: char| c == '\t' || c == '\n' implies !#[trigger] state.contains(c) by {
                if state.contains(c) {
                    let k = choose|k: int| 0 <= k < state.len() && state[k] == c;
                    if k >= 12 {
                        assert(number::decimal(pid)[k - 12] == c);
                    }
                }
            }
        }
        assert(fits_cell(state));
        let cells = seq![app.app_id, app.version, state];
        assert forall|k: int| 0 <= k < cells.len() implies fits_cell(#[trigger] cells[k]) by {}
        cells_come_apart(cells);
        assert(cells.drop_last().drop_last() =~= seq![app.app_id]);
        assert(cells.drop_last() =~= seq![app.app_id, app.version]);
        assert(text::joined(cells, "\t"@) =~= app_text(app));
    }
    assert forall|left: AppSummaryView, right: AppSummaryView| left.state != right.state implies
        #[trigger] app_state_text(left) != #[trigger] app_state_text(right) by {
        let l = app_state_text(left);
        let r = app_state_text(right);
        assert(l[0] == 's' || l[0] == 'f' || l[0] == 'r');
        assert(r[0] == 's' || r[0] == 'f' || r[0] == 'r');
    }
    lines_come_apart(lines);
}

/// Every process is shown, on a line of its own and in the order of the answer, with its
/// number and its name.
pub proof fn every_process_is_shown(processes: Seq<ProcessSummaryView>)
    requires
        processes.len() > 0,
        forall|i: int| 0 <= i < processes.len() ==> fits_cell((#[trigger] processes[i]).name),
    ensures
        ({
            let lines = path::split(process_table(processes), '\n');
            &&& lines.len() == processes.len()
            &&& forall|i: int|
                0 <= i < processes.len() ==> path::split(#[trigger] lines[i], '\t') == seq![
                    number::decimal(processes[i].pid as nat),
                    processes[i].name,
                ]
        }),
{
    reveal_strlit("\t");
    reveal_with_fuel(text::joined, 3);
    let lines = processes.map_values(|process: ProcessSummaryView| process_text(process));
    assert forall|i: int| 0 <= i < processes.len() implies path::split(#[trigger] lines[i], '\t')
        == seq![number::decimal(processes[i].pid as nat), processes[i].name]
        && !lines[i].contains('\n') by {
        let process = processes[i];
        let cells = seq![number::decimal(process.pid as nat), process.name];
        numbers_fit_cells(process.pid as nat);
        assert forall|k: int| 0 <= k < cells.len() implies fits_cell(#[trigger] cells[k]) by {}
        cells_come_apart(cells);
        assert(cells.drop_last() =~= seq![cells[0]]);
        assert(text::joined(cells, "\t"@) =~= process_text(process));
    }
    lines_come_apart(lines);
}

/// Every line of the log is shown, in the order of the answer, with its number, its level,
/// its source and its message.
pub proof fn every_log_line_is_shown(entries: Seq<LogEntryView>)
    requires
        entries.len() > 0,
        forall|i: int|
            0 <= i < entries.len() ==> fits_cell((#[trigger] entries[i]).level) && fits_cell(
                entries[i].source,
            ) && fits_cell(entries[i].message),
    ensures
        ({
            let lines = path::split(log_lines(entries), '\n');
            &&& lines.len() == entries.len()
            &&& forall|i: int|
                0 <= i < entries.len() ==> path::split(#[trigger] lines[i], '\t') == seq![
                    number::decimal(entries[i].cursor as nat),
                    entries[i].level,
                    entries[i].source,
                    entries[i].message,
                ]
        }),
{
    let lines = entries.map_values(|entry: LogEntryView| log_text(entry));
    assert forall|i: int| 0 <= i < entries.len() implies path::split(#[trigger] lines[i], '\t')
        == log_cells(entries[i]) && !lines[i].contains('\n') by {
        log_line_comes_apart(entries[i]);
    }
    lines_come_apart(lines);
}

spec fn log_cells(entry: LogEntryView) -> Seq<Seq<char>> {
    seq![number::decimal(entry.cursor as nat), entry.level, entry.source, entry.message]
}

proof fn log_line_comes_apart(entry: LogEntryView)
    requires
        fits_cell(entry.level),
        fits_cell(entry.source),
        fits_cell(entry.message),
    ensures
        path::split(log_text(entry), '\t') == log_cells(entry),
        !log_text(entry).contains('\n'),
{
    let cells = log_cells(entry);
    numbers_fit_cells(entry.cursor as nat);
    assert forall|k: int| 0 <= k < cells.len() implies fits_cell(#[trigger] cells[k]) by {}
    cells_come_apart(cells);
    assert(text::joined(cells, "\t"@) == log_text(entry)) by {
        reveal_with_fuel(text::joined, 5);
        assert(cells.drop_last() =~= seq![cells[0], cells[1], cells[2]]);
        assert(cells.drop_last().drop_last() =~= seq![cells[0], cells[1]]);
        assert(cells.drop_last().drop_last().drop_last() =~= seq![cells[0]]);
    }
}

/// Every feature of a device is shown on a line of its own, behind the line that says which
/// device and which protocol.
pub proof fn every_feature_is_shown(features: DeviceFeaturesView)
    requires
        features.features.len() > 0,
        !features.serial.contains('\n'),
        forall|i: int|
            0 <= i < features.features.len() ==> !(#[trigger] features.features[i]).contains('\n'),
    ensures
        ({
            let lines = path::split(features_text(features), '\n');
            &&& lines.len() == features.features.len() + 1
            &&& lines[0] == features.serial + " (protocol "@ + number::decimal(
                features.protocol_version as nat,
            ) + ")"@
            &&& lines.skip(1) == features.features
        }),
{
    reveal_strlit("\n");
    reveal_strlit(")\n");
    reveal_strlit(")");
    reveal_strlit(" (protocol ");
    let digits = number::decimal(features.protocol_version as nat);
    number::decimal_digits(features.protocol_version as nat);
    let head = features.serial + " (protocol "@ + digits + ")"@;
    assert(!head.contains('\n')) by {
        if head.contains('\n') {
            let i = choose|i: int| 0 <= i < head.len() && head[i] == '\n';
            let n = features.serial.len() as int;
            if i < n {
                assert(features.serial[i] == '\n');
            } else if i >= n + 11 && i < n + 11 + digits.len() {
                assert(digits[i - n - 11] == '\n');
            }
        }
    }
    let all = seq![head] + features.features;
    assert forall|i: int| 0 <= i < all.len() implies !(#[trigger] all[i]).contains('\n') by {
        if i > 0 {
            assert(all[i] == features.features[i - 1]);
        }
    }
    lines_come_apart(all);
    joined_from_front(head, features.features);
    assert(features_text(features) =~= text::joined(all, "\n"@));
    assert(all.skip(1) =~= features.features);
}

proof fn joined_from_front(head: Seq<char>, rest: Seq<Seq<char>>)
    requires
        rest.len() > 0,
    ensures
        text::joined(seq![head] + rest, "\n"@) == head + "\n"@ + text::joined(rest, "\n"@),
    decreases rest.len(),
{
    let all = seq![head] + rest;
    if rest.len() == 1 {
        assert(all.drop_last() =~= seq![head]);
        assert(text::joined(all.drop_last(), "\n"@) == head);
    } else {
        joined_from_front(head, rest.drop_last());
        assert(all.drop_last() =~= seq![head] + rest.drop_last());
        assert(all.last() == rest.last());
        assert(text::joined(all, "\n"@) =~= head + "\n"@ + text::joined(rest, "\n"@));
    }
}

/// A command that failed never ends as if it had not, and one that succeeded never
/// fails; every code that a process can have is handed on.
pub proof fn failures_stay_failures(exit_code: i32)
    ensures
        exit_status(exit_code) == 0 <==> exit_code == 0,
        0 <= exit_status(exit_code) < 256,
        0 <= exit_code < 256 ==> exit_status(exit_code) == exit_code,
{
}

/// The user is told how much was transferred, where to or from, under which identifier
/// and in what time.
pub proof fn transfers_are_told_in_full(
    action: Seq<char>,
    bytes: u64,
    preposition: Seq<char>,
    path: Seq<char>,
    transfer_id: Seq<char>,
    time: Seq<char>,
)
    ensures
        ({
            let summary = transfer_summary(action, bytes, preposition, path, transfer_id, time);
            &&& action.is_prefix_of(summary)
            &&& text::mentions(summary, number::decimal(bytes as nat) + " bytes "@ + preposition)
            &&& text::mentions(summary, preposition + " "@ + path)
            &&& text::mentions(summary, time)
            &&& text::mentions(summary, "("@ + transfer_id + ")"@)
        }),
{
    let summary = transfer_summary(action, bytes, preposition, path, transfer_id, time);
    let count = number::decimal(bytes as nat);
    let end = " ("@ + transfer_id + ")"@;
    let amount = count + " bytes "@ + preposition;
    let after = " "@ + path + " "@ + time + end;
    assert(summary =~= action + " "@ + amount + after);
    text::mentioned(action + " "@, amount, after);
    let before = action + " "@ + count + " bytes "@;
    let place = preposition + " "@ + path;
    assert(summary =~= before + place + (" "@ + time + end));
    text::mentioned(before, place, " "@ + time + end);
    assert(summary =~= before + place + " "@ + time + end);
    text::mentioned(before + place + " "@, time, end);
    identifier_is_told(before + place + " "@ + time, transfer_id);
}

proof fn identifier_is_told(before: Seq<char>, transfer_id: Seq<char>)
    ensures
        text::mentions(before + (" ("@ + transfer_id + ")"@), "("@ + transfer_id + ")"@),
{
    reveal_strlit(" (");
    reveal_strlit("(");
    let part = "("@ + transfer_id + ")"@;
    assert(before + (" ("@ + transfer_id + ")"@) =~= before.push(' ') + part);
    text::at_the_end(before.push(' '), part);
}

/// The time is always told, and the rate of what was transferred in one go; a transfer
/// that was continued, or took no time, has none.
pub proof fn rates_are_told_where_they_say_something(
    is_zero: bool,
    seconds: Seq<char>,
    rate: Seq<char>,
    other: Seq<char>,
    resumed: bool,
)
    ensures
        text::mentions(timing(is_zero, seconds, rate, resumed), "in "@ + seconds),
        !resumed && !is_zero ==> text::mentions(
            timing(is_zero, seconds, rate, resumed),
            rate + " MiB/s)"@,
        ),
        resumed || is_zero ==> timing(is_zero, seconds, rate, resumed) == timing(
            is_zero,
            seconds,
            other,
            resumed,
        ),
{
    let told = timing(is_zero, seconds, rate, resumed);
    let start = "in "@ + seconds;
    if resumed || is_zero {
        assert(told =~= Seq::empty() + start + " s"@);
        text::mentioned(Seq::empty(), start, " s"@);
    } else {
        let end = " s ("@ + rate + " MiB/s)"@;
        assert(told =~= Seq::empty() + start + end);
        text::mentioned(Seq::empty(), start, end);
        assert(told =~= start + " s ("@ + (rate + " MiB/s)"@));
        text::at_the_end(start + " s ("@, rate + " MiB/s)"@);
    }
}

/// The user is told how many files and directories a transfer was of, and how many
/// bytes.
pub proof fn tree_transfers_are_told_in_full(
    direction: Seq<char>,
    files: nat,
    directories: nat,
    bytes: u64,
    seconds: Seq<char>,
)
    ensures
        ({
            let summary = tree_summary(direction, files, directories, bytes, seconds);
            &&& direction.is_prefix_of(summary)
            &&& text::mentions(summary, number::decimal(files) + " files"@)
            &&& text::mentions(summary, number::decimal(directories) + " directories"@)
            &&& text::mentions(summary, number::decimal(bytes as nat) + " bytes"@)
            &&& text::mentions(summary, seconds + " s"@)
        }),
{
    reveal_strlit("ed ");
    reveal_strlit(" files in ");
    reveal_strlit(" files");
    reveal_strlit(" in ");
    reveal_strlit(" directories (");
    reveal_strlit(" directories");
    reveal_strlit(" (");
    reveal_strlit(" bytes) in ");
    reveal_strlit(" bytes");
    reveal_strlit(") in ");
    let summary = tree_summary(direction, files, directories, bytes, seconds);
    let end = seconds + " s"@;
    let third = number::decimal(bytes as nat) + " bytes"@;
    let second = number::decimal(directories) + " directories"@;
    let first = number::decimal(files) + " files"@;
    assert(summary =~= direction + "ed "@ + first + " in "@ + second + " ("@ + third + ") in "@ + end);
    text::both_mentioned(direction + "ed "@, first, " in "@, second);
    let head = direction + "ed "@ + first + " in "@ + second;
    text::mentioned(direction + "ed "@, first, " in "@ + second + " ("@ + third + ") in "@ + end);
    assert(summary =~= direction + "ed "@ + first + (" in "@ + second + " ("@ + third + ") in "@
        + end));
    text::mentioned(direction + "ed "@ + first + " in "@, second, " ("@ + third + ") in "@ + end);
    assert(summary =~= direction + "ed "@ + first + " in "@ + second + (" ("@ + third + ") in "@
        + end));
    text::both_mentioned(head + " ("@, third, ") in "@, end);
}

/// The user is told what a server calls itself, its version and what it speaks.
pub proof fn servers_are_told_in_full(version: ServerVersionView)
    ensures
        version.name.is_prefix_of(version_text(version)),
        text::mentions(version_text(version), version.name + " "@ + version.version),
        text::mentions(version_text(version), "(API "@ + version.api_version + ")"@),
{
    reveal_strlit(" (API ");
    reveal_strlit("(API ");
    reveal_strlit(" ");
    let full = version_text(version);
    let api = "(API "@ + version.api_version + ")"@;
    assert(full =~= version.name + " "@ + version.version + " "@ + api);
    text::at_the_end(version.name + " "@ + version.version + " "@, api);
    text::mentioned(Seq::empty(), version.name + " "@ + version.version, " "@ + api);
    assert(full =~= Seq::empty() + (version.name + " "@ + version.version) + (" "@ + api));
}

/// The user is told which signal went to which process.
pub proof fn signals_are_told_in_full(signal: Seq<char>, process: ProcessSummaryView)
    ensures
        text::mentions(signal_text(signal, process), "sent "@ + signal),
        text::mentions(
            signal_text(signal, process),
            "to "@ + number::decimal(process.pid as nat),
        ),
        text::mentions(signal_text(signal, process), "("@ + process.name + ")"@),
{
    reveal_strlit(" to ");
    reveal_strlit("to ");
    reveal_strlit(" ");
    reveal_strlit(" (");
    reveal_strlit("(");
    let full = signal_text(signal, process);
    let sent = "sent "@ + signal;
    let target = "to "@ + number::decimal(process.pid as nat);
    let name = "("@ + process.name + ")"@;
    assert(full =~= Seq::empty() + sent + (" "@ + target + " "@ + name));
    text::mentioned(Seq::empty(), sent, " "@ + target + " "@ + name);
    assert(full =~= sent + " "@ + target + " "@ + name);
    text::both_mentioned(sent + " "@, target, " "@, name);
}

/// The user is told how far a transfer has come, of how much, in which direction and
/// whether it is over.
pub proof fn transfer_states_are_told_in_full(status: SyncStatusView)
    ensures
        status.transfer_id.is_prefix_of(status_words(status)),
        text::mentions(
            status_words(status),
            number::decimal(status.next_offset as nat) + "/"@ + number::decimal(
                status.total_size as nat,
            ),
        ),
        status.direction == TransferDirection::Push ==> text::mentions(
            status_words(status),
            "Push"@ + " "@,
        ),
        status.direction == TransferDirection::Pull ==> text::mentions(
            status_words(status),
            "Pull"@ + " "@,
        ),
        status.state == TransferState::Complete ==> text::mentions(
            status_words(status),
            " "@ + "Complete"@,
        ),
        status.state == TransferState::Active ==> text::mentions(
            status_words(status),
            " "@ + "Active"@,
        ),
{
    let full = status_words(status);
    let way = direction_word(status.direction) + " "@;
    let count = number::decimal(status.next_offset as nat) + "/"@ + number::decimal(
        status.total_size as nat,
    );
    let end = " "@ + state_word(status.state);
    let before = status.transfer_id + " "@;
    assert(full =~= before + way + count + end);
    text::mentioned(before + way, count, end);
    text::at_the_end(before + way + count, end);
    assert(full =~= before + way + (count + end));
    text::mentioned(before, way, count + end);
}

} // verus!
