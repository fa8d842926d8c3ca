//! Building, deploying and starting the application project at hand.

use crate::cli::args::RunArgs;
use crate::cli::error;
use crate::cli::error::{CliError, CliErrorView};
use crate::cli::execute;
use crate::cli::execute::{ask, invalid, invalid_result, one_call};
use crate::cli::host_path;
use crate::cli::host_path::{join_host_path, HostPath};
use crate::cli::output;
use crate::cli::output::format_app;
use crate::cli::rpc::{
    CallResult, CallResultView, ClientErrorView, Exchange, RpcCall, RpcCallView, RpcCaller,
    RpcReplyView,
};
use crate::codec;
use crate::codec::to_lossy_text;
use crate::model::{
    AppInstallParams, AppInstallParamsView, AppSummary, AppSummaryView, AppTargetParams,
    AppTargetParamsView,
};
use crate::number;
use crate::number::{parse_unsigned, to_decimal};
use crate::text;
use crate::text::{concat, trim};
use vstd::prelude::*;

verus! {

/// A path in a project manifest, and whether the host calls it absolute.
#[derive(Debug)]
pub struct ProjectPath {
    pub text: String,
    pub is_absolute: bool,
}

/// How a project is developed.
#[derive(Debug)]
pub struct Development {
    /// The build command: a program and its arguments. It may be empty.
    pub build: Vec<String>,
    /// What goes into the bundle.
    pub input: ProjectPath,
    pub signing_key: ProjectPath,
}

/// What a project manifest says that matters here.
#[derive(Debug)]
pub struct ProjectManifest {
    pub release: u64,
    pub development: Option<Development>,
}

/// What is to be done to bundle a project.
#[derive(Debug)]
pub struct ProjectPlan {
    pub manifest_path: String,
    pub root: String,
    /// The build command, to be run in the root unless it is empty.
    pub build: Vec<String>,
    pub input: String,
    pub signing_key: String,
    /// Where the state of the development is kept.
    pub state_root: String,
    /// The file with the last release number.
    pub release_state: String,
    /// The bundle.
    pub output: String,
    /// The release number in the manifest.
    pub release: u64,
}

/// A path of a project: a relative one counts from the directory of the manifest.
pub open spec fn project_path(root: Seq<char>, path: ProjectPath, separator: char) -> Seq<char> {
    if path.is_absolute {
        path.text@
    } else {
        host_path::host_joined(root, path.text@, separator)
    }
}

/// Resolves a path of a project.
pub fn resolve_project_path(root: &str, path: &ProjectPath, separator: char) -> (resolved: String)
    ensures
        resolved@ == project_path(root@, *path, separator),
{
    if path.is_absolute {
        path.text.clone()
    } else {
        join_host_path(root, path.text.as_str(), separator)
    }
}

/// Why a project cannot be bundled, if it cannot: told by the path of its
/// manifest, by the directory that the manifest is in, if there is one, and by the
/// manifest, if it can be read.
pub open spec fn project_refusal(
    manifest_path: HostPath,
    root: Option<String>,
    manifest: Result<ProjectManifest, String>,
) -> Option<CliErrorView> {
    match manifest_path {
        HostPath::Unresolved(message) => Some(CliErrorView::CurrentDirectory(message@)),
        HostPath::Absolute(path) => match (root, manifest) {
            (None, _) => Some(
                CliErrorView::Project("manifest has no parent directory: "@ + path@),
            ),
            (Some(_), Err(message)) => Some(CliErrorView::Project(message@)),
            (Some(_), Ok(manifest)) => if manifest.development is None {
                Some(CliErrorView::Project(path@ + " is missing [development]"@))
            } else {
                None
            },
        },
    }
}

/// Whether a plan is that of a project.
pub open spec fn plans(
    plan: ProjectPlan,
    manifest_path: Seq<char>,
    root: Seq<char>,
    release: u64,
    development: Development,
    separator: char,
) -> bool {
    let state_root = host_path::host_joined(root, ".kindlebridge"@, separator);
    &&& plan.manifest_path@ == manifest_path
    &&& plan.root@ == root
    &&& text::all(plan.build@) == text::all(development.build@)
    &&& plan.input@ == project_path(root, development.input, separator)
    &&& plan.signing_key@ == project_path(root, development.signing_key, separator)
    &&& plan.state_root@ == state_root
    &&& plan.release_state@ == host_path::host_joined(state_root, "run-release"@, separator)
    &&& plan.output@ == host_path::host_joined(state_root, "run.kbb"@, separator)
    &&& plan.release == release
}

/// Plans how to bundle a project.
pub fn plan_project(
    manifest_path: HostPath,
    root: Option<String>,
    manifest: Result<ProjectManifest, String>,
    separator: char,
) -> (result: Result<ProjectPlan, CliError>)
    ensures
        match project_refusal(manifest_path, root, manifest) {
            Some(refusal) => result matches Err(error) && error@ == refusal,
            None => result matches Ok(plan) && plans(
                plan,
                manifest_path->Absolute_0@,
                root->Some_0@,
                manifest->Ok_0.release,
                manifest->Ok_0.development->Some_0,
                separator,
            ),
        },
{
    let path = match manifest_path {
        HostPath::Absolute(path) => path,
        HostPath::Unresolved(message) => {
            return Err(CliError::CurrentDirectory(message));
        },
    };
    let root = match root {
        Some(root) => root,
        None => {
            return Err(
                CliError::Project(concat("manifest has no parent directory: ", path.as_str())),
            );
        },
    };
    let manifest = match manifest {
        Ok(manifest) => manifest,
        Err(message) => {
            return Err(CliError::Project(message));
        },
    };
    match manifest.development {
        None => Err(CliError::Project(concat(path.as_str(), " is missing [development]"))),
        Some(development) => {
            let state_root = join_host_path(root.as_str(), ".kindlebridge", separator);
            Ok(
                ProjectPlan {
                    input: resolve_project_path(root.as_str(), &development.input, separator),
                    signing_key: resolve_project_path(
                        root.as_str(),
                        &development.signing_key,
                        separator,
                    ),
                    release_state: join_host_path(state_root.as_str(), "run-release", separator),
                    output: join_host_path(state_root.as_str(), "run.kbb", separator),
                    state_root,
                    manifest_path: path,
                    root,
                    build: development.build,
                    release: manifest.release,
                },
            )
        },
    }
}

/// How a build command ended.
#[derive(Debug)]
pub enum BuildOutcome {
    NotStarted(String),
    Succeeded,
    /// It failed, with its exit code unless a signal ended it, and with its standard
    /// output and standard error where they were captured.
    Failed { exit_code: Option<i32>, captured: Option<(Vec<u8>, Vec<u8>)> },
}

/// What is said of a failed build beyond its exit code.
pub open spec fn build_detail(captured: Option<(Vec<u8>, Vec<u8>)>) -> Seq<char> {
    match captured {
        None => Seq::empty(),
        Some((stdout, stderr)) => {
            let combined = text::trimmed(
                codec::lossy_text(stdout@) + codec::lossy_text(stderr@),
            );
            if combined.len() == 0 {
                Seq::empty()
            } else {
                ": "@ + combined
            }
        },
    }
}

/// Why a build fails, if it does.
pub open spec fn build_refusal(program: Seq<char>, outcome: BuildOutcome) -> Option<CliErrorView> {
    match outcome {
        BuildOutcome::NotStarted(message) => Some(
            CliErrorView::Project(
                "could not start build command "@ + program + ": "@ + message@,
            ),
        ),
        BuildOutcome::Succeeded => None,
        BuildOutcome::Failed { exit_code, captured } => Some(
            CliErrorView::BuildFailed {
                exit_code: match exit_code {
                    Some(code) => code,
                    None => 1,
                },
                detail: build_detail(captured),
            },
        ),
    }
}

/// Checks how the build command of a project ended.
pub fn check_project_build(program: &str, outcome: BuildOutcome) -> (result: Result<(), CliError>)
    ensures
        match build_refusal(program@, outcome) {
            Some(refusal) => result matches Err(error) && error@ == refusal,
            None => result is Ok,
        },
{
    match outcome {
        BuildOutcome::NotStarted(message) => {
            let mut full = concat("could not start build command ", program);
            full.append(": ");
            full.append(message.as_str());
            Err(CliError::Project(full))
        },
        BuildOutcome::Succeeded => Ok(()),
        BuildOutcome::Failed { exit_code, captured } => {
            let code: i32 = match exit_code {
                Some(code) => code,
                None => 1,
            };
            let detail = match captured {
                None => String::new(),
                Some((stdout, stderr)) => {
                    let mut combined = to_lossy_text(stdout.as_slice());
                    combined.append(to_lossy_text(stderr.as_slice()).as_str());
                    let combined = trim(combined.as_str());
                    if combined.as_str().is_empty() {
                        String::new()
                    } else {
                        concat(": ", combined.as_str())
                    }
                },
            };
            assert(detail@ =~= build_detail(captured));
            Err(CliError::BuildFailed { exit_code: code, detail })
        },
    }
}

/// The state of the release numbers: the text of its file, if there is one, or why
/// it cannot be read.
pub type ReleaseState = Result<Option<String>, String>;

/// The last release number, or why it cannot be told.
pub open spec fn last_release(path: Seq<char>, state: ReleaseState) -> Result<nat, CliErrorView> {
    match state {
        Ok(None) => Ok(0),
        Ok(Some(value)) => match number::unsigned(text::trimmed(value@), 10, u64::MAX as nat) {
            Some(release) => Ok(release),
            None => Err(
                CliErrorView::Project("development release state is invalid: "@ + path),
            ),
        },
        Err(message) => Err(
            CliErrorView::Project(
                "could not read development release state "@ + path + ": "@ + message@,
            ),
        ),
    }
}

/// The next release number: at least the time and the number in the manifest, and
/// above the last one where there is a number above it.
pub open spec fn release_after(last: nat, clock: nat, manifest: nat) -> nat {
    let above = if last < u64::MAX {
        last + 1
    } else {
        last
    };
    let least = if clock > manifest {
        clock
    } else {
        manifest
    };
    if least > above {
        least
    } else {
        above
    }
}

/// The next release number, given the time in milliseconds since the Unix epoch.
pub open spec fn next_release(
    path: Seq<char>,
    state: ReleaseState,
    clock: Result<u128, String>,
    manifest: u64,
) -> Result<nat, CliErrorView> {
    match last_release(path, state) {
        Err(error) => Err(error),
        Ok(last) => match clock {
            Err(message) => Err(
                CliErrorView::Project("system clock is before Unix epoch: "@ + message@),
            ),
            Ok(now) => if now > u64::MAX {
                Err(CliErrorView::Project("system time does not fit a KBB release"@))
            } else {
                Ok(release_after(last, now as nat, manifest as nat))
            },
        },
    }
}

/// The text of the file with the last release number.
pub open spec fn release_text(release: nat) -> Seq<char> {
    number::decimal(release) + "\n"@
}

/// A release number, and the text that the file with the last one is to hold.
#[derive(Debug)]
pub struct NextRelease {
    pub release: u64,
    pub state: String,
}

fn read_release(path: &str, state: ReleaseState) -> (result: Result<u64, CliError>)
    ensures
        match last_release(path@, state) {
            Ok(last) => result matches Ok(value) && value == last,
            Err(error) => result matches Err(e) && e@ == error,
        },
{
    match state {
        Ok(None) => Ok(0),
        Ok(Some(value)) => match parse_unsigned(trim(value.as_str()).as_str(), 10, u64::MAX) {
            Some(release) => Ok(release),
            None => Err(
                CliError::Project(concat("development release state is invalid: ", path)),
            ),
        },
        Err(message) => {
            let mut full = concat("could not read development release state ", path);
            full.append(": ");
            full.append(message.as_str());
            Err(CliError::Project(full))
        },
    }
}

/// Chooses the next release number.
pub fn next_development_release(
    path: &str,
    state: ReleaseState,
    clock: Result<u128, String>,
    manifest_release: u64,
) -> (result: Result<NextRelease, CliError>)
    ensures
        match next_release(path@, state, clock, manifest_release) {
            Ok(release) => result matches Ok(next) && next.release == release && next.state@
                == release_text(release),
            Err(refusal) => result matches Err(error) && error@ == refusal,
        },
{
    let last: u64 = read_release(path, state)?;
    let now: u128 = match clock {
        Ok(now) => now,
        Err(message) => {
            return Err(
                CliError::Project(concat("system clock is before Unix epoch: ", message.as_str())),
            );
        },
    };
    if now > u64::MAX as u128 {
        return Err(CliError::Project("system time does not fit a KBB release".to_owned()));
    }
    let mut release: u64 = now as u64;
    if manifest_release > release {
        release = manifest_release;
    }
    let above: u64 = last.saturating_add(1);
    if above > release {
        release = above;
    }
    let state = concat(to_decimal(release).as_str(), "\n");
    Ok(NextRelease { release, state })
}

proof fn trimmed_digits(digits: Seq<char>)
    requires
        digits.len() > 0,
        number::all_digits(digits, 10),
    ensures
        text::trimmed(digits + "\n"@) == digits,
{
    reveal_strlit("\n");
    let full = digits + "\n"@;
    assert(number::digit_value(digits[0], 10) is Some);
    assert(number::digit_value(digits[digits.len() - 1], 10) is Some);
    assert(full[0] == digits[0]);
    assert(text::trimmed_start(full) == full);
    assert(full.last() == '\n');
    assert(full.drop_last() =~= digits);
    assert(text::trimmed_end(digits) == digits);
}

/// Release numbers go up: the number after one whose text was kept is above it,
/// unless it was the last there is, and none is below the number in the manifest
/// or the time.
pub proof fn release_numbers_go_up(
    path: Seq<char>,
    kept: String,
    last: u64,
    now: u128,
    manifest: u64,
)
    requires
        kept@ == release_text(last as nat),
        now <= u64::MAX,
    ensures
        next_release(path, Ok(Some(kept)), Ok(now), manifest) matches Ok(release) && release
            >= manifest && release >= now && release <= u64::MAX && (last < u64::MAX ==> release
            > last),
{
    number::decimal_digits(last as nat);
    trimmed_digits(number::decimal(last as nat));
    number::decimal_reads_back(last as nat, u64::MAX as nat);
}

/// A bundle that has been built.
#[derive(Debug)]
pub struct BuiltBundle {
    pub path: String,
    pub bytes: u64,
    pub id: String,
    pub version: String,
    pub release: u64,
    pub bundle_root: String,
}

/// The model of [`BuiltBundle`].
#[verifier::ext_equal]
pub struct BuiltBundleView {
    pub path: Seq<char>,
    pub bytes: u64,
    pub id: Seq<char>,
    pub version: Seq<char>,
    pub release: u64,
    pub bundle_root: Seq<char>,
}

impl View for BuiltBundle {
    type V = BuiltBundleView;

    open spec fn view(&self) -> BuiltBundleView {
        BuiltBundleView {
            path: self.path@,
            bytes: self.bytes,
            id: self.id@,
            version: self.version@,
            release: self.release,
            bundle_root: self.bundle_root@,
        }
    }
}

/// A project that runs on a device.
#[derive(Debug)]
pub struct RunReport {
    pub bundle: BuiltBundle,
    pub installed: AppSummary,
    pub app: AppSummary,
}

/// The model of [`RunReport`].
#[verifier::ext_equal]
pub struct RunReportView {
    pub bundle: BuiltBundleView,
    pub installed: AppSummaryView,
    pub app: AppSummaryView,
}

impl View for RunReport {
    type V = RunReportView;

    open spec fn view(&self) -> RunReportView {
        RunReportView { bundle: self.bundle@, installed: self.installed@, app: self.app@ }
    }
}

/// What the user is told of a project that runs.
pub open spec fn run_text(report: RunReportView) -> Seq<char> {
    "built "@ + report.bundle.id + " "@ + report.bundle.version + " ("@ + number::decimal(
        report.bundle.bytes as nat,
    ) + " bytes)\n"@ + output::app_text(report.app)
}

impl RunReport {
    /// What the user is told.
    pub fn to_text(&self) -> (text: String)
        ensures
            text@ == run_text(self@),
    {
        let mut text = concat("built ", self.bundle.id.as_str());
        text.append(" ");
        text.append(self.bundle.version.as_str());
        text.append(" (");
        text.append(to_decimal(self.bundle.bytes).as_str());
        text.append(" bytes)\n");
        text.append(format_app(&self.app).as_str());
        text
    }
}

/// The application that an answer speaks of.
pub open spec fn app_of(kind: Seq<char>, reply: Result<RpcReplyView, ClientErrorView>) -> Result<
    AppSummaryView,
    CliErrorView,
> {
    match reply {
        Err(error) => Err(CliErrorView::Rpc(error)),
        Ok(answer) => match answer.result {
            CallResultView::App(app) => Ok(app),
            _ => Err(invalid(kind)),
        },
    }
}

/// Whether a bundle was deployed so: it is installed, and when that succeeds the
/// application in it is started.
pub open spec fn deployed(
    before: Seq<Exchange>,
    after: Seq<Exchange>,
    serial: Seq<char>,
    bundle: BuiltBundleView,
    result: Result<RunReportView, CliErrorView>,
) -> bool {
    exists|install: Result<RpcReplyView, ClientErrorView>|
        #[trigger] deployed_with(before, after, serial, bundle, install, result)
}

/// Whether a bundle was deployed so after this answer to the installation.
pub open spec fn deployed_with(
    before: Seq<Exchange>,
    after: Seq<Exchange>,
    serial: Seq<char>,
    bundle: BuiltBundleView,
    install: Result<RpcReplyView, ClientErrorView>,
    result: Result<RunReportView, CliErrorView>,
) -> bool {
    let call = RpcCallView::AppInstall(AppInstallParamsView { serial, bundle_path: bundle.path });
    let between = before.push(Exchange { call, reply: install });
    match app_of("run install"@, install) {
        Err(error) => after == between && result == Err::<RunReportView, _>(error),
        Ok(installed) => one_call(
            between,
            after,
            RpcCallView::AppStart(AppTargetParamsView { serial, app_id: bundle.id }),
            |reply: RpcReplyView|
                match app_of("run start"@, Ok(reply)) {
                    Ok(app) => Ok(RunReportView { bundle, installed, app }),
                    Err(error) => Err(error),
                },
            result,
        ),
    }
}

/// Installs a bundle that has been built and starts the application in it.
fn deploy_bundle<C: RpcCaller>(caller: &mut C, serial: &String, bundle: BuiltBundle) -> (result:
    Result<RunReport, CliError>)
    ensures
        deployed(
            old(caller).exchanges(),
            final(caller).exchanges(),
            serial@,
            bundle@,
            error::outcome(result),
        ),
{
    let ghost before = caller.exchanges();
    let params = AppInstallParams { serial: serial.clone(), bundle_path: bundle.path.clone() };
    let asked = ask(caller, RpcCall::AppInstall(params));
    let ghost install = execute::answer_of(asked);
    let ghost between = caller.exchanges();
    let checked: Result<AppSummary, CliError> = match asked {
        Err(error) => Err(error),
        Ok(answer) => match answer.result {
            CallResult::App(app) => Ok(app),
            _ => Err(invalid_result("run install")),
        },
    };
    assert(error::outcome(checked) == app_of("run install"@, install));
    let installed = match checked {
        Ok(installed) => installed,
        Err(error) => {
            let result: Result<RunReport, CliError> = Err(error);
            assert(deployed_with(
                before,
                between,
                serial@,
                bundle@,
                install,
                error::outcome(result),
            ));
            return result;
        },
    };
    let target = AppTargetParams { serial: serial.clone(), app_id: bundle.id.clone() };
    let ghost call = RpcCallView::AppStart(target@);
    let asked = ask(caller, RpcCall::AppStart(target));
    let ghost start = execute::answer_of(asked);
    assert(execute::asked(between, caller.exchanges(), call, start));
    let ghost view = bundle@;
    let result: Result<RunReport, CliError> = match asked {
        Err(error) => Err(error),
        Ok(answer) => match answer.result {
            CallResult::App(app) => Ok(RunReport { bundle, installed, app }),
            _ => Err(invalid_result("run start")),
        },
    };
    assert(deployed_with(
        before,
        caller.exchanges(),
        serial@,
        view,
        install,
        error::outcome(result),
    ));
    result
}

/// Why a project is not deployed, if it is not: its build command failed, where it
/// was run and there is one, or the bundle could not be made.
pub open spec fn run_refusal(
    program: Option<Seq<char>>,
    build: BuildOutcome,
    bundle: Result<BuiltBundle, String>,
) -> Option<CliErrorView> {
    let failed = match program {
        Some(program) => build_refusal(program, build),
        None => None,
    };
    match (failed, bundle) {
        (Some(error), _) => Some(error),
        (None, Err(message)) => Some(CliErrorView::Project(message@)),
        (None, Ok(_)) => None,
    }
}

/// The program of a build command, if there is one.
pub open spec fn program_of(build: Seq<Seq<char>>) -> Option<Seq<char>> {
    if build.len() > 0 {
        Some(build[0])
    } else {
        None
    }
}

/// Whether a project was run so.
pub open spec fn project_ran(
    before: Seq<Exchange>,
    after: Seq<Exchange>,
    serial: Seq<char>,
    program: Option<Seq<char>>,
    build: BuildOutcome,
    bundle: Result<BuiltBundle, String>,
    result: Result<RunReportView, CliErrorView>,
) -> bool {
    match run_refusal(program, build, bundle) {
        Some(error) => after == before && result == Err::<RunReportView, _>(error),
        None => deployed(before, after, serial, bundle->Ok_0@, result),
    }
}

/// Deploys a project whose build command, if it has one, ended so, and whose
/// bundle was then made, or not.
pub fn run_project_once<C: RpcCaller>(
    caller: &mut C,
    args: &RunArgs,
    plan: &ProjectPlan,
    build: BuildOutcome,
    bundle: Result<BuiltBundle, String>,
) -> (result: Result<RunReport, CliError>)
    ensures
        project_ran(
            old(caller).exchanges(),
            final(caller).exchanges(),
            args.serial@,
            program_of(text::all(plan.build@)),
            build,
            bundle,
            error::outcome(result),
        ),
{
    if plan.build.len() > 0 {
        check_project_build(plan.build[0].as_str(), build)?;
    }
    deploy_project_after_build(caller, args, bundle)
}

/// Deploys a project that has been built.
pub fn deploy_project_after_build<C: RpcCaller>(
    caller: &mut C,
    args: &RunArgs,
    bundle: Result<BuiltBundle, String>,
) -> (result: Result<RunReport, CliError>)
    ensures
        project_ran(
            old(caller).exchanges(),
            final(caller).exchanges(),
            args.serial@,
            None,
            BuildOutcome::Succeeded,
            bundle,
            error::outcome(result),
        ),
{
    match bundle {
        Err(message) => Err(CliError::Project(message)),
        Ok(bundle) => deploy_bundle(caller, &args.serial, bundle),
    }
}

/// A build that fails, or a bundle that cannot be made, changes nothing on the device:
/// no request is sent.
pub proof fn failed_builds_send_nothing(
    before: Seq<Exchange>,
    after: Seq<Exchange>,
    serial: Seq<char>,
    program: Option<Seq<char>>,
    build: BuildOutcome,
    bundle: Result<BuiltBundle, String>,
    result: Result<RunReportView, CliErrorView>,
)
    requires
        project_ran(before, after, serial, program, build, bundle, result),
        bundle is Err || (program matches Some(name) && build_refusal(name, build) is Some),
    ensures
        after == before,
        result is Err,
{
}

/// A project that runs has been installed and started on its device: the bundle that was
/// built is installed, then the application in it is started, and the report gives what the
/// device said to each of the two. An installation that fails is not started.
pub proof fn deployed_projects_run(
    before: Seq<Exchange>,
    after: Seq<Exchange>,
    serial: Seq<char>,
    program: Option<Seq<char>>,
    build: BuildOutcome,
    bundle: Result<BuiltBundle, String>,
    result: Result<RunReportView, CliErrorView>,
)
    requires
        project_ran(before, after, serial, program, build, bundle, result),
        after != before,
    ensures
        bundle is Ok,
        after[before.len() as int].call == RpcCallView::AppInstall(
            AppInstallParamsView { serial, bundle_path: bundle->Ok_0@.path },
        ),
        !(after[before.len() as int].reply matches Ok(answer) && answer.result is App)
            ==> after.len() == before.len() + 1 && result is Err,
        (after[before.len() as int].reply matches Ok(answer) && answer.result is App) ==> {
            &&& after.len() == before.len() + 2
            &&& after.last().call == RpcCallView::AppStart(
                AppTargetParamsView { serial, app_id: bundle->Ok_0@.id },
            )
            &&& match after.last().reply {
                Ok(answer) => match answer.result {
                    CallResultView::App(app) => result == Ok::<_, CliErrorView>(
                        RunReportView {
                            bundle: bundle->Ok_0@,
                            installed: after[before.len() as int].reply->Ok_0.result->App_0,
                            app,
                        },
                    ),
                    _ => result is Err,
                },
                Err(error) => result == Err::<RunReportView, _>(CliErrorView::Rpc(error)),
            }
        },
{
}

/// Only a build that succeeds, or a project that has none, is deployed.
pub proof fn only_built_projects_are_deployed(
    before: Seq<Exchange>,
    after: Seq<Exchange>,
    serial: Seq<char>,
    program: Seq<char>,
    build: BuildOutcome,
    bundle: Result<BuiltBundle, String>,
    result: Result<RunReportView, CliErrorView>,
)
    requires
        project_ran(before, after, serial, Some(program), build, bundle, result),
    ensures
        after != before ==> build is Succeeded,
        build is Succeeded && bundle is Ok ==> after.len() > before.len(),
        build matches BuildOutcome::Failed { exit_code, captured } ==> (result matches Err(
            CliErrorView::BuildFailed { exit_code: code, detail },
        ) && (exit_code matches Some(given) ==> code == given)),
{
}

/// A project is bundled from where its manifest says: an absolute path is taken as it is
/// and a relative one lies below the directory of the manifest. What the development
/// keeps lies below that directory too, the bundle and the release number apart from
/// each other.
pub proof fn projects_are_planned_from_their_manifest(
    plan: ProjectPlan,
    manifest_path: Seq<char>,
    root: Seq<char>,
    release: u64,
    development: Development,
    separator: char,
)
    requires
        plans(plan, manifest_path, root, release, development, separator),
        separator == '/' || separator == '\\',
    ensures
        plan.release == release,
        plan.root@ == root,
        plan.build@.len() == development.build@.len(),
        forall|i: int|
            0 <= i < plan.build@.len() ==> (#[trigger] plan.build@[i])@ == development.build@[i]@,
        development.input.is_absolute ==> plan.input@ == development.input.text@,
        development.signing_key.is_absolute ==> plan.signing_key@ == development.signing_key.text@,
        root.is_prefix_of(plan.state_root@),
        plan.state_root@.is_prefix_of(plan.output@),
        plan.state_root@.is_prefix_of(plan.release_state@),
        plan.output@ != plan.release_state@,
{
    reveal_strlit(".kindlebridge");
    reveal_strlit("run-release");
    reveal_strlit("run.kbb");
    host_path::components_are_kept_apart(root, ".kindlebridge"@, separator);
    let state_root = plan.state_root@;
    host_path::components_are_kept_apart(state_root, "run-release"@, separator);
    host_path::components_are_kept_apart(state_root, "run.kbb"@, separator);
    assert(plan.output@.last() == 'b');
    assert(plan.release_state@.last() == 'e');
    let built = text::all(plan.build@);
    assert(built.len() == text::all(development.build@).len());
    assert forall|i: int| 0 <= i < plan.build@.len() implies (#[trigger] plan.build@[i])@
        == development.build@[i]@ by {
        assert(built[i] == text::all(development.build@)[i]);
    }
}

/// A project can be bundled exactly when its manifest is found, can be read and speaks
/// of development.
pub proof fn only_development_projects_are_bundled(
    manifest_path: HostPath,
    root: Option<String>,
    manifest: Result<ProjectManifest, String>,
)
    ensures
        project_refusal(manifest_path, root, manifest) is None <==> manifest_path is Absolute && root
            is Some && manifest is Ok && manifest->Ok_0.development is Some,
{
}

/// Only a build that succeeds is no failure, and the user sees what a failed one printed
/// and how it ended.
pub proof fn failed_builds_are_told_in_full(
    program: Seq<char>,
    outcome: BuildOutcome,
    stdout: Vec<u8>,
    stderr: Vec<u8>,
)
    ensures
        build_refusal(program, outcome) is None <==> outcome is Succeeded,
        outcome matches BuildOutcome::NotStarted(message) ==> (build_refusal(program, outcome)
            matches Some(CliErrorView::Project(told)) && text::mentions(told, program)
            && text::mentions(told, message@)),
        outcome matches BuildOutcome::Failed { exit_code, captured } ==> (build_refusal(
            program,
            outcome,
        ) matches Some(CliErrorView::BuildFailed { exit_code: code, detail }) && detail
            == build_detail(captured) && (exit_code is None ==> code != 0) && (
        exit_code matches Some(given) ==> code == given)),
        text::mentions(
            build_detail(Some((stdout, stderr))),
            text::trimmed(codec::lossy_text(stdout@) + codec::lossy_text(stderr@)),
        ),
{
    if let BuildOutcome::NotStarted(message) = outcome {
        text::both_mentioned("could not start build command "@, program, ": "@, message@);
    }
    let printed = text::trimmed(codec::lossy_text(stdout@) + codec::lossy_text(stderr@));
    let detail = build_detail(Some((stdout, stderr)));
    if printed.len() == 0 {
        text::at_the_end(detail, printed);
        assert(detail + printed =~= detail);
    } else {
        text::at_the_end(": "@, printed);
    }
}

/// A project that has no release yet gets one above zero, at least that of its manifest
/// and at least the time.
pub proof fn first_releases_are_above_zero(
    path: Seq<char>,
    now: u128,
    manifest: u64,
)
    requires
        now <= u64::MAX,
    ensures
        next_release(path, Ok(None), Ok(now), manifest) matches Ok(release) && release >= 1
            && release >= now && release >= manifest && release <= u64::MAX,
{
}

/// The user is told what was built and how it runs.
pub proof fn runs_are_told_in_full(report: RunReportView)
    ensures
        text::mentions(
            run_text(report),
            report.bundle.id + " "@ + report.bundle.version,
        ),
        text::mentions(
            run_text(report),
            number::decimal(report.bundle.bytes as nat) + " bytes)\n"@,
        ),
        text::mentions(run_text(report), output::app_text(report.app)),
{
    let full = run_text(report);
    let name = report.bundle.id + " "@ + report.bundle.version;
    let size = number::decimal(report.bundle.bytes as nat) + " bytes)\n"@;
    let app = output::app_text(report.app);
    assert(full =~= "built "@ + name + (" ("@ + size + app));
    text::mentioned("built "@, name, " ("@ + size + app);
    assert(full =~= "built "@ + name + " ("@ + size + app);
    text::mentioned("built "@ + name + " ("@, size, app);
    text::at_the_end("built "@ + name + " ("@ + size, app);
}

} // verus!
