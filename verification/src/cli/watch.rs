//! Rebuilding and redeploying a project when its sources change.

use crate::cli::development;
use crate::cli::development::{resolve_project_path, ProjectPath};
use crate::cli::error::{CliError, CliErrorView, RunError, RunErrorView};
use crate::cli::host_path;
use crate::cli::host_path::HostPath;
use crate::table::Table;
use crate::text;
use crate::text::{concat, same_text};
use vstd::prelude::*;

verus! {

/// What a watched file looks like: its size, and when it was last modified, in
/// nanoseconds from the Unix epoch.
#[derive(Clone, Copy, Debug, PartialEq, Eq, Structural)]
pub struct WatchedFile {
    pub size: u64,
    pub modified: i128,
}

impl View for WatchedFile {
    type V = WatchedFile;

    open spec fn view(&self) -> WatchedFile {
        *self
    }
}

/// What the watched files look like, by their paths.
pub struct WatchSnapshot {
    files: Table<String, WatchedFile>,
}

impl View for WatchSnapshot {
    type V = Map<Seq<char>, WatchedFile>;

    closed spec fn view(&self) -> Map<Seq<char>, WatchedFile> {
        self.files@
    }
}

impl WatchSnapshot {
    /// The files are in order.
    pub closed spec fn wf(&self) -> bool {
        self.files.wf()
    }

    /// No files.
    pub fn new() -> (snapshot: Self)
        ensures
            snapshot.wf(),
            snapshot@ == Map::<Seq<char>, WatchedFile>::empty(),
    {
        WatchSnapshot { files: Table::new() }
    }

    /// Adds a file, in place of one with the same path.
    pub fn add_file(&mut self, path: String, file: WatchedFile)
        requires
            old(self).wf(),
        ensures
            final(self).wf(),
            final(self)@ == old(self)@.insert(path@, file),
    {
        self.files.insert(path, file);
    }

    /// Whether two snapshots show the same.
    pub fn same(&self, other: &Self) -> (same: bool)
        requires
            self.wf(),
            other.wf(),
        ensures
            same == (self@ == other@),
    {
        proof {
            self.files.keys_are_the_domain();
            self.files.as_many_keys_as_elements();
            other.files.as_many_keys_as_elements();
        }
        if self.files.len() != other.files.len() {
            return false;
        }
        let mut i: usize = 0;
        while i < self.files.len()
            invariant
                self.wf(),
                other.wf(),
                i <= self.files.keys().len(),
                forall|k: int|
                    0 <= k < i ==> other@.dom().contains(#[trigger] self.files.keys()[k])
                        && other@[self.files.keys()[k]] == self@[self.files.keys()[k]],
            decreases self.files.keys().len() - i,
        {
            let key = self.files.key_at(i);
            let here = self.files.value_at(i);
            match other.files.get(key) {
                Some(there) => {
                    if *here != *there {
                        return false;
                    }
                },
                None => {
                    return false;
                },
            }
            i += 1;
        }
        proof {
            let keys = self.files.keys();
            assert forall|path: Seq<char>| self@.dom().contains(path) implies other@.dom().contains(
                path,
            ) && #[trigger] other@[path] == self@[path] by {
                let k = choose|k: int| 0 <= k < keys.len() && #[trigger] keys[k] == path;
                assert(other@.dom().contains(keys[k]));
            }
            assert(self@.dom().subset_of(other@.dom()));
            vstd::set_lib::lemma_subset_equality(self@.dom(), other@.dom());
            assert(self@ =~= other@);
        }
        true
    }
}

/// Whether a file or directory below a watched path is watched, by its name: the
/// state of the development is not.
pub fn is_watched_name(name: &str) -> (watched: bool)
    ensures
        watched == (name@ != ".kindlebridge"@),
{
    !same_text(name, ".kindlebridge")
}

/// The failure of a watched path that is neither a file nor a directory.
pub fn missing_watch_path(path: &str) -> (error: RunError)
    ensures
        error@ == RunErrorView::Message("watch path does not exist: "@ + path@),
{
    RunError::Message(concat("watch path does not exist: ", path))
}

/// The paths of several project paths.
pub open spec fn watched_paths(root: Seq<char>, configured: Seq<ProjectPath>, separator: char) -> Seq<
    Seq<char>,
> {
    Seq::new(
        configured.len(),
        |i: int| development::project_path(root, configured[i], separator),
    )
}

/// Resolves the watched paths of a project.
pub fn resolve_watch_paths(root: &str, configured: &Vec<ProjectPath>, separator: char) -> (paths:
    Vec<String>)
    ensures
        text::all(paths@) == watched_paths(root@, configured@, separator),
{
    let mut paths: Vec<String> = Vec::new();
    let mut i: usize = 0;
    while i < configured.len()
        invariant
            i <= configured@.len(),
            paths@.len() == i,
            forall|k: int|
                0 <= k < i ==> (#[trigger] paths@[k])@ == development::project_path(
                    root@,
                    configured@[k],
                    separator,
                ),
        decreases configured@.len() - i,
    {
        paths.push(resolve_project_path(root, &configured[i], separator));
        i += 1;
    }
    assert(text::all(paths@) =~= watched_paths(root@, configured@, separator));
    paths
}

/// What a manifest says of watching: the build command and the watched paths, where
/// it speaks of development.
#[derive(Debug)]
pub struct WatchConfig {
    pub build: Vec<String>,
    pub watch: Vec<ProjectPath>,
}

/// What is watched and how it is built.
#[derive(Debug)]
pub struct WatchPlan {
    pub build: Vec<String>,
    pub paths: Vec<String>,
}

/// Why a project cannot be watched, if it cannot: by the outcome of reading its
/// manifest, where `doing` says what was to be done.
pub open spec fn watch_refusal(
    manifest_path: Seq<char>,
    doing: Seq<char>,
    manifest: Result<Option<WatchConfig>, String>,
) -> Option<RunErrorView> {
    match manifest {
        Err(message) => Some(
            RunErrorView::Message("could not "@ + doing + " project: "@ + message@),
        ),
        Ok(None) => Some(RunErrorView::Message(manifest_path + " is missing [development]"@)),
        Ok(Some(config)) => if config.watch@.len() == 0 {
            Some(
                RunErrorView::Arguments(
                    "[development].watch must list source paths for run --watch"@,
                ),
            )
        } else {
            None
        },
    }
}

/// Plans how to watch a project, at the beginning or after a change.
fn plan_watch(
    manifest_path: &str,
    root: &str,
    doing: &str,
    manifest: Result<Option<WatchConfig>, String>,
    separator: char,
) -> (result: Result<WatchPlan, RunError>)
    ensures
        match watch_refusal(manifest_path@, doing@, manifest) {
            Some(refusal) => result matches Err(error) && error@ == refusal,
            None => result matches Ok(plan) && plan.build == manifest->Ok_0->Some_0.build
                && text::all(plan.paths@) == watched_paths(
                root@,
                manifest->Ok_0->Some_0.watch@,
                separator,
            ),
        },
{
    match manifest {
        Err(message) => {
            let mut full = concat("could not ", doing);
            full.append(" project: ");
            full.append(message.as_str());
            Err(RunError::Message(full))
        },
        Ok(None) => Err(RunError::Message(concat(manifest_path, " is missing [development]"))),
        Ok(Some(config)) => {
            if config.watch.len() == 0 {
                return Err(
                    RunError::Arguments(
                        "[development].watch must list source paths for run --watch".to_owned(),
                    ),
                );
            }
            let paths = resolve_watch_paths(root, &config.watch, separator);
            Ok(WatchPlan { build: config.build, paths })
        },
    }
}

/// Why a watched run is refused, if it is.
pub open spec fn watch_start_refusal(
    json: bool,
    manifest_path: HostPath,
    root: Option<String>,
    manifest: Result<Option<WatchConfig>, String>,
) -> Option<RunErrorView> {
    if json {
        Some(RunErrorView::Arguments("run --watch does not support --json yet"@))
    } else {
        match manifest_path {
            HostPath::Unresolved(message) => Some(RunErrorView::Message(message@)),
            HostPath::Absolute(path) => if root is None {
                Some(RunErrorView::Message("manifest has no parent directory: "@ + path@))
            } else {
                watch_refusal(path@, "load"@, manifest)
            },
        }
    }
}

/// Begins to watch a project: told by the path of its manifest, by the directory
/// that the manifest is in, and by what it says of watching.
pub fn begin_watch(
    json_output: bool,
    manifest_path: HostPath,
    root: Option<String>,
    manifest: Result<Option<WatchConfig>, String>,
    separator: char,
) -> (result: Result<WatchPlan, RunError>)
    ensures
        match watch_start_refusal(json_output, manifest_path, root, manifest) {
            Some(refusal) => result matches Err(error) && error@ == refusal,
            None => result matches Ok(plan) && plan.build == manifest->Ok_0->Some_0.build
                && text::all(plan.paths@) == watched_paths(
                root->Some_0@,
                manifest->Ok_0->Some_0.watch@,
                separator,
            ),
        },
{
    if json_output {
        return Err(RunError::Arguments("run --watch does not support --json yet".to_owned()));
    }
    let path = match manifest_path {
        HostPath::Absolute(path) => path,
        HostPath::Unresolved(message) => {
            return Err(RunError::Message(message));
        },
    };
    match root {
        None => Err(
            RunError::Message(concat("manifest has no parent directory: ", path.as_str())),
        ),
        Some(root) => plan_watch(path.as_str(), root.as_str(), "load", manifest, separator),
    }
}

/// Reads the manifest of a watched project again after a change.
pub fn reload_watch(
    manifest_path: &str,
    root: &str,
    manifest: Result<Option<WatchConfig>, String>,
    separator: char,
) -> (result: Result<WatchPlan, RunError>)
    ensures
        match watch_refusal(manifest_path@, "reload"@, manifest) {
            Some(refusal) => result matches Err(error) && error@ == refusal,
            None => result matches Ok(plan) && plan.build == manifest->Ok_0->Some_0.build
                && text::all(plan.paths@) == watched_paths(
                root@,
                manifest->Ok_0->Some_0.watch@,
                separator,
            ),
        },
{
    plan_watch(manifest_path, root, "reload", manifest, separator)
}

/// How long to wait before the watched files are looked at again, in milliseconds.
pub const WATCH_POLL: u64 = 100;

/// How long the watched files must look the same before a change counts as over, in
/// milliseconds.
pub const WATCH_SETTLE: u64 = 250;

/// What a watched run is at.
#[derive(Clone, Copy, Debug, PartialEq, Eq, Structural)]
pub enum WatchPhase {
    /// Waiting for a change.
    Watching,
    /// A change has been seen; waiting until it is over.
    Settling,
    /// The manifest is read again and the build begins.
    Starting,
    /// The build command runs.
    Building,
    /// A change has been seen while the build command runs; waiting until it is over.
    Overtaken,
    /// The build is done; the watched files are looked at once more, and the project
    /// is deployed.
    Built,
    /// The build has failed; the watched files are looked at once more.
    Failed,
}

/// What is to be done next in a watched run.
#[derive(Debug)]
pub enum WatchAction {
    /// Wait for so many milliseconds and look at the watched files.
    Look(u64),
    /// Say that a change was detected, read the manifest again and start the build.
    Rebuild,
    /// Look whether the build command has ended.
    Poll,
    /// End the build command and all that it started, say so, read the manifest again
    /// and start the build.
    Restart,
    /// Deploy the project.
    Deploy,
    /// Tell the user this of the failed build, and look at the watched files.
    Report(String),
    /// End the run with this failure.
    Stop(RunError),
}

/// A project that is watched.
pub struct Watch {
    phase: WatchPhase,
    seen: WatchSnapshot,
    begun: bool,
}

/// The model of [`Watch`].
pub struct WatchView {
    pub phase: WatchPhase,
    /// What the watched files looked like when the phase began: a look that shows
    /// something else is a change.
    pub seen: Map<Seq<char>, WatchedFile>,
    /// Whether the project has been deployed once: before that, a failure ends the
    /// run.
    pub begun: bool,
}

impl View for Watch {
    type V = WatchView;

    closed spec fn view(&self) -> WatchView {
        WatchView { phase: self.phase, seen: self.seen@, begun: self.begun }
    }
}

/// The watched run after a look at the files, and what is to be done: nothing is
/// built before two looks in a row show the same, and a build whose sources change
/// is given up.
pub open spec fn after_look(watch: WatchView, files: Map<Seq<char>, WatchedFile>) -> WatchView {
    let same = files == watch.seen;
    WatchView {
        phase: match watch.phase {
            WatchPhase::Watching => if same {
                WatchPhase::Watching
            } else {
                WatchPhase::Settling
            },
            WatchPhase::Settling | WatchPhase::Overtaken => if same {
                WatchPhase::Starting
            } else {
                watch.phase
            },
            WatchPhase::Building => if same {
                WatchPhase::Building
            } else {
                WatchPhase::Overtaken
            },
            WatchPhase::Starting => WatchPhase::Starting,
            WatchPhase::Built | WatchPhase::Failed => WatchPhase::Watching,
        },
        seen: files,
        ..watch
    }
}

/// Whether an action is what a look at the files calls for.
pub open spec fn look_calls_for(
    watch: WatchView,
    files: Map<Seq<char>, WatchedFile>,
    action: WatchAction,
) -> bool {
    let same = files == watch.seen;
    match watch.phase {
        WatchPhase::Watching => action == WatchAction::Look(
            if same {
                WATCH_POLL
            } else {
                WATCH_SETTLE
            },
        ),
        WatchPhase::Settling => if same {
            action is Rebuild
        } else {
            action == WatchAction::Look(WATCH_SETTLE)
        },
        WatchPhase::Building => if same {
            action is Poll
        } else {
            action == WatchAction::Look(WATCH_SETTLE)
        },
        WatchPhase::Overtaken => if same {
            action is Restart
        } else {
            action == WatchAction::Look(WATCH_SETTLE)
        },
        WatchPhase::Starting => action is Rebuild,
        WatchPhase::Built => action is Deploy,
        WatchPhase::Failed => action == WatchAction::Look(WATCH_POLL),
    }
}

impl Watch {
    /// The last look is in order.
    pub closed spec fn wf(&self) -> bool {
        self.seen.wf()
    }

    /// A watched run whose first build starts with the files looking like this.
    pub fn new(files: WatchSnapshot) -> (watch: Self)
        requires
            files.wf(),
        ensures
            watch.wf(),
            watch@ == (WatchView { phase: WatchPhase::Starting, seen: files@, begun: false }),
    {
        Watch { phase: WatchPhase::Starting, seen: files, begun: false }
    }

    /// Takes a look at the files.
    pub fn look(&mut self, files: WatchSnapshot) -> (action: WatchAction)
        requires
            old(self).wf(),
            files.wf(),
        ensures
            final(self).wf(),
            final(self)@ == after_look(old(self)@, files@),
            look_calls_for(old(self)@, files@, action),
    {
        let same = files.same(&self.seen);
        self.seen = files;
        match self.phase {
            WatchPhase::Watching => {
                if same {
                    WatchAction::Look(WATCH_POLL)
                } else {
                    self.phase = WatchPhase::Settling;
                    WatchAction::Look(WATCH_SETTLE)
                }
            },
            WatchPhase::Settling => {
                if same {
                    self.phase = WatchPhase::Starting;
                    WatchAction::Rebuild
                } else {
                    WatchAction::Look(WATCH_SETTLE)
                }
            },
            WatchPhase::Building => {
                if same {
                    WatchAction::Poll
                } else {
                    self.phase = WatchPhase::Overtaken;
                    WatchAction::Look(WATCH_SETTLE)
                }
            },
            WatchPhase::Overtaken => {
                if same {
                    self.phase = WatchPhase::Starting;
                    WatchAction::Restart
                } else {
                    WatchAction::Look(WATCH_SETTLE)
                }
            },
            WatchPhase::Starting => WatchAction::Rebuild,
            WatchPhase::Built => {
                self.phase = WatchPhase::Watching;
                WatchAction::Deploy
            },
            WatchPhase::Failed => {
                self.phase = WatchPhase::Watching;
                WatchAction::Look(WATCH_POLL)
            },
        }
    }

    /// Takes that the files could not be looked at. From the start of a build to its
    /// end the build has failed so; at any other time the run ends.
    pub fn look_failed(&mut self, error: RunError) -> (action: WatchAction)
        requires
            old(self).wf(),
        ensures
            final(self).wf(),
            look_failed_so(old(self)@, final(self)@, error@, action),
    {
        match self.phase {
            WatchPhase::Building | WatchPhase::Overtaken | WatchPhase::Built => self.give_up(error),
            _ => WatchAction::Stop(error),
        }
    }

    /// Takes the plan with which the build starts. When other paths are watched than
    /// before, `moved` is what the files on them look like. A project without a build
    /// command is deployed at once.
    pub fn start(&mut self, has_build: bool, moved: Option<WatchSnapshot>) -> (action: WatchAction)
        requires
            old(self).wf(),
            old(self)@.phase == WatchPhase::Starting,
            moved matches Some(files) ==> files.wf(),
        ensures
            final(self).wf(),
            final(self)@ == after_start(
                old(self)@,
                has_build,
                match moved {
                    Some(files) => Some(files@),
                    None => None,
                },
            ),
            start_calls_for(has_build, action),
    {
        if let Some(files) = moved {
            self.seen = files;
        }
        if has_build {
            self.phase = WatchPhase::Building;
            WatchAction::Poll
        } else {
            self.phase = WatchPhase::Watching;
            WatchAction::Deploy
        }
    }

    /// Gives up a build: it failed, or the project could not be built.
    pub fn give_up(&mut self, error: RunError) -> (action: WatchAction)
        requires
            old(self).wf(),
        ensures
            final(self).wf(),
            final(self)@ == (WatchView { phase: WatchPhase::Failed, ..old(self)@ }),
            given_up(old(self)@, error@, action),
    {
        self.phase = WatchPhase::Failed;
        if self.begun {
            WatchAction::Report(
                concat("build failed; waiting for another change: ", error.to_text().as_str()),
            )
        } else {
            WatchAction::Stop(error)
        }
    }

    /// Takes whether the build command has ended, and how.
    pub fn poll(&mut self, program: &str, status: BuildStatus) -> (action: WatchAction)
        requires
            old(self).wf(),
            old(self)@.phase == WatchPhase::Building,
        ensures
            final(self).wf(),
            final(self)@ == after_poll(old(self)@, program@, status),
            poll_calls_for(old(self)@, program@, status, action),
    {
        match status {
            BuildStatus::Running => WatchAction::Look(WATCH_POLL),
            BuildStatus::Succeeded => {
                self.phase = WatchPhase::Built;
                WatchAction::Look(0)
            },
            BuildStatus::Failed(code) => {
                let exit_code: i32 = match code {
                    Some(code) => code,
                    None => 1,
                };
                let detail = String::new();
                assert(detail@ =~= Seq::<char>::empty());
                self.give_up(RunError::Command(CliError::BuildFailed { exit_code, detail }))
            },
            BuildStatus::NotStarted(message) => {
                let mut full = concat("could not start build command ", program);
                full.append(": ");
                full.append(message.as_str());
                self.give_up(RunError::Command(CliError::Project(full)))
            },
            BuildStatus::Unknown(message) => self.give_up(
                RunError::Message(concat("could not wait for build: ", message.as_str())),
            ),
        }
    }

    /// Takes how the deployment of the project ended. The first one must succeed; the
    /// user is told of a later one that fails.
    pub fn deployed(&mut self, outcome: Result<(), CliError>) -> (result: Result<
        Option<String>,
        RunError,
    >)
        requires
            old(self).wf(),
        ensures
            final(self).wf(),
            final(self)@ == after_deployment(old(self)@, crate::cli::error::outcome(outcome)),
            match result {
                Ok(notice) => Ok(text::optional(notice)),
                Err(failure) => Err(failure@),
            } == deployment_told(old(self)@, crate::cli::error::outcome(outcome)),
    {
        match outcome {
            Ok(()) => {
                self.begun = true;
                Ok(None)
            },
            Err(error) => {
                if self.begun {
                    Ok(
                        Some(
                            concat(
                                "redeploy failed; use `kindlebridge app list` to inspect current state: ",
                                error.to_text().as_str(),
                            ),
                        ),
                    )
                } else {
                    Err(RunError::Command(error))
                }
            },
        }
    }
}

/// The watched run once its build has started. Where other paths are watched than before,
/// the files on them are what changes are told from.
pub open spec fn after_start(
    watch: WatchView,
    has_build: bool,
    moved: Option<Map<Seq<char>, WatchedFile>>,
) -> WatchView {
    WatchView {
        phase: if has_build {
            WatchPhase::Building
        } else {
            WatchPhase::Watching
        },
        seen: match moved {
            Some(files) => files,
            None => watch.seen,
        },
        ..watch
    }
}

/// Whether an action is what the start of a build calls for.
pub open spec fn start_calls_for(has_build: bool, action: WatchAction) -> bool {
    if has_build {
        action is Poll
    } else {
        action is Deploy
    }
}

/// The watched run once it is known how the build command does.
pub open spec fn after_poll(watch: WatchView, program: Seq<char>, status: BuildStatus) -> WatchView {
    if build_failure(program, status) is Some {
        WatchView { phase: WatchPhase::Failed, ..watch }
    } else if status is Running {
        watch
    } else {
        WatchView { phase: WatchPhase::Built, ..watch }
    }
}

/// Whether an action is what the state of the build command calls for.
pub open spec fn poll_calls_for(
    watch: WatchView,
    program: Seq<char>,
    status: BuildStatus,
    action: WatchAction,
) -> bool {
    match build_failure(program, status) {
        Some(failure) => given_up(watch, failure, action),
        None => action == WatchAction::Look(
            if status is Running {
                WATCH_POLL
            } else {
                0
            },
        ),
    }
}

/// The watched run after a deployment.
pub open spec fn after_deployment(watch: WatchView, outcome: Result<(), CliErrorView>) -> WatchView {
    match outcome {
        Ok(()) => WatchView { begun: true, ..watch },
        Err(_) => watch,
    }
}

/// What the user is told of a deployment, or how the run ends.
pub open spec fn deployment_told(watch: WatchView, outcome: Result<(), CliErrorView>) -> Result<
    Option<Seq<char>>,
    RunErrorView,
> {
    match outcome {
        Ok(()) => Ok(None),
        Err(error) => if watch.begun {
            Ok(
                Some(
                    "redeploy failed; use `kindlebridge app list` to inspect current state: "@
                        + crate::cli::error::message_of(error),
                ),
            )
        } else {
            Err(RunErrorView::Command(error))
        },
    }
}

/// Whether a build is under way, up to the look at what it was made from.
pub open spec fn builds(phase: WatchPhase) -> bool {
    phase == WatchPhase::Building || phase == WatchPhase::Overtaken || phase == WatchPhase::Built
}

/// Whether a look at the files that failed ends so: from the start of a build to its end
/// the build has failed, and at any other time the run ends.
pub open spec fn look_failed_so(
    before: WatchView,
    after: WatchView,
    error: RunErrorView,
    action: WatchAction,
) -> bool {
    if builds(before.phase) {
        after == (WatchView { phase: WatchPhase::Failed, ..before }) && given_up(
            before,
            error,
            action,
        )
    } else {
        after == before && (action matches WatchAction::Stop(failure) && failure@ == error)
    }
}

/// Whether an action is what a failed build calls for.
pub open spec fn given_up(watch: WatchView, failure: RunErrorView, action: WatchAction) -> bool {
    if watch.begun {
        action matches WatchAction::Report(notice) && notice@
            == "build failed; waiting for another change: "@ + crate::cli::error::run_message(
            failure,
        )
    } else {
        action matches WatchAction::Stop(error) && error@ == failure
    }
}

/// Reads the build command of a project again when a build has been given up because
/// its sources changed.
pub fn reload_build(manifest_path: &str, manifest: Result<Option<WatchConfig>, String>) -> (result:
    Result<Vec<String>, RunError>)
    ensures
        match manifest {
            Err(message) => result matches Err(error) && error@ == RunErrorView::Message(
                "could not reload project: "@ + message@,
            ),
            Ok(None) => result matches Err(error) && error@ == RunErrorView::Message(
                manifest_path@ + " is missing [development]"@,
            ),
            Ok(Some(config)) => result == Ok::<_, RunError>(config.build),
        },
{
    match manifest {
        Err(message) => Err(
            RunError::Message(concat("could not reload project: ", message.as_str())),
        ),
        Ok(None) => Err(RunError::Message(concat(manifest_path, " is missing [development]"))),
        Ok(Some(config)) => Ok(config.build),
    }
}

/// What is known of the build command.
#[derive(Debug)]
pub enum BuildStatus {
    Running,
    Succeeded,
    /// It failed, with its exit code unless a signal ended it.
    Failed(Option<i32>),
    NotStarted(String),
    /// Nothing, for this reason.
    Unknown(String),
}

/// How a build fails, if it does.
pub open spec fn build_failure(program: Seq<char>, status: BuildStatus) -> Option<RunErrorView> {
    match status {
        BuildStatus::Failed(code) => Some(
            RunErrorView::Command(
                CliErrorView::BuildFailed {
                    exit_code: match code {
                        Some(code) => code,
                        None => 1,
                    },
                    detail: Seq::empty(),
                },
            ),
        ),
        BuildStatus::NotStarted(message) => Some(
            RunErrorView::Command(
                CliErrorView::Project(
                    "could not start build command "@ + program + ": "@ + message@,
                ),
            ),
        ),
        BuildStatus::Unknown(message) => Some(
            RunErrorView::Message("could not wait for build: "@ + message@),
        ),
        _ => None,
    }
}

/// A change is acted on only when it is over: whatever is being done, a rebuild or a
/// restart is called for only by a look that shows the same as the look before, and
/// the build then starts from what that look shows.
pub proof fn changes_are_acted_on_when_they_are_over(
    watch: WatchView,
    files: Map<Seq<char>, WatchedFile>,
    action: WatchAction,
)
    requires
        watch.phase != WatchPhase::Starting,
        look_calls_for(watch, files, action),
        action is Rebuild || action is Restart,
    ensures
        files == watch.seen,
        watch.phase == WatchPhase::Settling || watch.phase == WatchPhase::Overtaken,
        after_look(watch, files).phase == WatchPhase::Starting,
        after_look(watch, files).seen == files,
{
}

/// A build goes on only while its sources stay as they were: a look that shows
/// something else leads, once the change is over, to a restart.
pub proof fn obsolete_builds_are_given_up(
    watch: WatchView,
    changed: Map<Seq<char>, WatchedFile>,
    action: WatchAction,
    later: WatchAction,
)
    requires
        watch.phase == WatchPhase::Building,
        changed != watch.seen,
        look_calls_for(watch, changed, action),
        look_calls_for(after_look(watch, changed), changed, later),
    ensures
        action == WatchAction::Look(WATCH_SETTLE),
        later is Restart,
{
}

/// The watched run after looks at the files that showed this, one behind the other.
pub open spec fn after_looks(watch: WatchView, shown: Seq<Map<Seq<char>, WatchedFile>>) -> WatchView
    decreases shown.len(),
{
    if shown.len() == 0 {
        watch
    } else {
        after_look(after_looks(watch, shown.drop_last()), shown.last())
    }
}

/// Whether a build has ended, or none has begun since.
pub open spec fn at_rest(watch: WatchView) -> bool {
    watch.phase == WatchPhase::Watching || watch.phase == WatchPhase::Built || watch.phase
        == WatchPhase::Failed
}

proof fn unchanged_files_keep_at_rest(
    watch: WatchView,
    shown: Seq<Map<Seq<char>, WatchedFile>>,
)
    requires
        at_rest(watch),
        shown.len() > 0,
        watch.phase == WatchPhase::Watching ==> shown[0] == watch.seen,
        forall|i: int| 0 < i < shown.len() ==> #[trigger] shown[i] == shown[i - 1],
    ensures
        after_looks(watch, shown).phase == WatchPhase::Watching,
        after_looks(watch, shown).seen == shown.last(),
    decreases shown.len(),
{
    let earlier = shown.drop_last();
    if earlier.len() > 0 {
        assert forall|i: int| 0 < i < earlier.len() implies #[trigger] earlier[i] == earlier[i
            - 1] by {
            assert(shown[i] == shown[i - 1]);
        }
        unchanged_files_keep_at_rest(watch, earlier);
        assert(shown[shown.len() - 1] == shown[shown.len() - 2]);
    } else {
        assert(after_looks(watch, earlier) == watch);
    }
}

/// A build needs a change. From the end of a build, failed or deployed, looks that all show
/// the same files call for nothing but further looks, after the one deployment of a build
/// that succeeded; and a rebuild is called for only where a look has shown something else
/// than the look before it.
pub proof fn rebuilds_need_a_change(
    watch: WatchView,
    shown: Seq<Map<Seq<char>, WatchedFile>>,
    action: WatchAction,
)
    requires
        at_rest(watch),
        shown.len() > 0,
        look_calls_for(after_looks(watch, shown.drop_last()), shown.last(), action),
    ensures
        (watch.phase == WatchPhase::Watching ==> shown[0] == watch.seen) && (forall|i: int|
            0 < i < shown.len() ==> #[trigger] shown[i] == shown[i - 1]) ==> if shown.len() == 1
            && watch.phase == WatchPhase::Built {
            action is Deploy
        } else {
            action == WatchAction::Look(WATCH_POLL)
        },
        action is Rebuild ==> (watch.phase == WatchPhase::Watching && shown[0] != watch.seen) || (
        exists|i: int| 0 < i < shown.len() && #[trigger] shown[i] != shown[i - 1]),
{
    let earlier = shown.drop_last();
    if (watch.phase == WatchPhase::Watching ==> shown[0] == watch.seen) && (forall|i: int|
        0 < i < shown.len() ==> #[trigger] shown[i] == shown[i - 1]) {
        if earlier.len() > 0 {
            assert forall|i: int| 0 < i < earlier.len() implies #[trigger] earlier[i] == earlier[i
                - 1] by {
                assert(shown[i] == shown[i - 1]);
            }
            unchanged_files_keep_at_rest(watch, earlier);
            assert(shown[shown.len() - 1] == shown[shown.len() - 2]);
        } else {
            assert(after_looks(watch, earlier) == watch);
        }
    }
}

/// A change is waited for until it is over, and then acted on: looks that each show
/// something new call for another look, and the first that shows what the look before it
/// did calls for a rebuild, or for a restart of the build that was under way.
pub proof fn changes_lead_to_a_build(
    watch: WatchView,
    shown: Seq<Map<Seq<char>, WatchedFile>>,
    action: WatchAction,
    last: WatchAction,
)
    requires
        watch.phase == WatchPhase::Watching || watch.phase == WatchPhase::Building,
        shown.len() > 0,
        shown[0] != watch.seen,
        forall|i: int| 0 < i < shown.len() ==> #[trigger] shown[i] != shown[i - 1],
        look_calls_for(after_looks(watch, shown.drop_last()), shown.last(), action),
        look_calls_for(after_looks(watch, shown), shown.last(), last),
    ensures
        action == WatchAction::Look(WATCH_SETTLE),
        if watch.phase == WatchPhase::Watching {
            last is Rebuild
        } else {
            last is Restart
        },
        after_look(after_looks(watch, shown), shown.last()).phase == WatchPhase::Starting,
        after_look(after_looks(watch, shown), shown.last()).seen == shown.last(),
{
    changes_are_waited_for(watch, shown);
}

proof fn changes_are_waited_for(watch: WatchView, shown: Seq<Map<Seq<char>, WatchedFile>>)
    requires
        watch.phase == WatchPhase::Watching || watch.phase == WatchPhase::Building,
        shown.len() > 0,
        shown[0] != watch.seen,
        forall|i: int| 0 < i < shown.len() ==> #[trigger] shown[i] != shown[i - 1],
    ensures
        after_looks(watch, shown).phase == (if watch.phase == WatchPhase::Watching {
            WatchPhase::Settling
        } else {
            WatchPhase::Overtaken
        }),
        after_looks(watch, shown).seen == shown.last(),
        forall|action: WatchAction| #[trigger]
            look_calls_for(after_looks(watch, shown.drop_last()), shown.last(), action) ==> action
                == WatchAction::Look(WATCH_SETTLE),
    decreases shown.len(),
{
    let earlier = shown.drop_last();
    if earlier.len() > 0 {
        assert forall|i: int| 0 < i < earlier.len() implies #[trigger] earlier[i] != earlier[i
            - 1] by {
            assert(shown[i] != shown[i - 1]);
        }
        changes_are_waited_for(watch, earlier);
        assert(shown[shown.len() - 1] != shown[shown.len() - 2]);
    } else {
        assert(after_looks(watch, earlier) == watch);
    }
}

/// A build that is under way is polled for as long as its sources stay the same and its
/// command runs; when the command succeeds, the project is deployed by the next look, once.
pub proof fn builds_are_waited_for_and_deployed(
    watch: WatchView,
    program: Seq<char>,
    files: Map<Seq<char>, WatchedFile>,
    looked: WatchAction,
    polled: WatchAction,
    deployed: WatchAction,
)
    requires
        watch.phase == WatchPhase::Building,
        look_calls_for(watch, watch.seen, looked),
        poll_calls_for(watch, program, BuildStatus::Running, polled),
        look_calls_for(after_poll(watch, program, BuildStatus::Succeeded), files, deployed),
    ensures
        looked is Poll,
        after_look(watch, watch.seen) == watch,
        polled == WatchAction::Look(WATCH_POLL),
        after_poll(watch, program, BuildStatus::Running) == watch,
        deployed is Deploy,
        at_rest(after_poll(watch, program, BuildStatus::Succeeded)),
{
}

/// A build that fails is not deployed. Before the first deployment it ends the run; later
/// the user is told, and the run waits for another change.
pub proof fn failed_builds_are_not_deployed(
    watch: WatchView,
    program: Seq<char>,
    status: BuildStatus,
    action: WatchAction,
    files: Map<Seq<char>, WatchedFile>,
    later: WatchAction,
)
    requires
        watch.phase == WatchPhase::Building,
        !(status is Running),
        !(status is Succeeded),
        poll_calls_for(watch, program, status, action),
        look_calls_for(after_poll(watch, program, status), files, later),
    ensures
        !watch.begun ==> action is Stop,
        watch.begun ==> action is Report,
        later == WatchAction::Look(WATCH_POLL),
        after_look(after_poll(watch, program, status), files).phase == WatchPhase::Watching,
{
}

/// Only a deployment that succeeds lets the run go on after its first one: a failed first
/// one ends it, and a later one is told of and changes nothing.
pub proof fn first_deployment_must_succeed(watch: WatchView, error: CliErrorView)
    ensures
        deployment_told(watch, Ok(())) matches Ok(None),
        after_deployment(watch, Ok(())).begun,
        after_deployment(watch, Err(error)) == watch,
        deployment_told(watch, Err(error)) is Err <==> !watch.begun,
        watch.begun ==> deployment_told(watch, Err(error)) matches Ok(Some(_)),
{
}

/// A build is told from the files that it starts with: those on other paths where the paths
/// have changed, else those of the last look. A look that shows them again finds the build
/// as it is, and any other look finds it overtaken.
pub proof fn builds_are_told_from_their_sources(
    watch: WatchView,
    moved: Option<Map<Seq<char>, WatchedFile>>,
    files: Map<Seq<char>, WatchedFile>,
    action: WatchAction,
)
    requires
        watch.phase == WatchPhase::Starting,
        look_calls_for(after_start(watch, true, moved), files, action),
    ensures
        ({
            let sources = match moved {
                Some(found) => found,
                None => watch.seen,
            };
            if files == sources {
                action is Poll
            } else {
                action == WatchAction::Look(WATCH_SETTLE)
            }
        }),
{
}

/// Every path that a project lists is watched, in the order listed: an absolute one as
/// it is, any other counted from the directory of the manifest. A project that lists
/// none cannot be watched.
pub proof fn every_listed_path_is_watched(
    root: Seq<char>,
    configured: Seq<ProjectPath>,
    separator: char,
    manifest_path: Seq<char>,
    doing: Seq<char>,
    manifest: Result<Option<WatchConfig>, String>,
)
    ensures
        watched_paths(root, configured, separator).len() == configured.len(),
        forall|i: int|
            0 <= i < configured.len() && (#[trigger] configured[i]).is_absolute ==> watched_paths(
                root,
                configured,
                separator,
            )[i] == configured[i].text@,
        forall|i: int|
            0 <= i < configured.len() && !(#[trigger] configured[i]).is_absolute ==> watched_paths(
                root,
                configured,
                separator,
            )[i] == host_path::host_joined(root, configured[i].text@, separator),
        watch_refusal(manifest_path, doing, manifest) is None <==> manifest is Ok && manifest->Ok_0
            is Some && manifest->Ok_0->Some_0.watch@.len() > 0,
{
}

/// A look is compared with the one before it, whatever was done in between: what it showed
/// is kept. It deploys only what has been built, and a build that is due stays due until it
/// is started.
pub proof fn looks_are_remembered(
    watch: WatchView,
    files: Map<Seq<char>, WatchedFile>,
    action: WatchAction,
    again: WatchAction,
)
    requires
        look_calls_for(watch, files, action),
        look_calls_for(after_look(watch, files), files, again),
    ensures
        after_look(watch, files).seen == files,
        after_look(watch, files).begun == watch.begun,
        action is Deploy <==> watch.phase == WatchPhase::Built,
        !(again is Deploy),
        action is Rebuild || action is Restart ==> again is Rebuild,
{
}

/// A project without a build command is deployed as soon as its build is due, and once: the
/// run then waits for the next change. Any other is built first.
pub proof fn projects_without_a_build_are_deployed_at_once(
    watch: WatchView,
    has_build: bool,
    moved: Option<Map<Seq<char>, WatchedFile>>,
    action: WatchAction,
    later: WatchAction,
)
    requires
        start_calls_for(has_build, action),
        look_calls_for(
            after_start(watch, has_build, moved),
            after_start(watch, has_build, moved).seen,
            later,
        ),
    ensures
        action is Deploy <==> !has_build,
        action is Poll <==> has_build,
        if has_build {
            later is Poll
        } else {
            later == WatchAction::Look(WATCH_POLL)
        },
        after_start(watch, has_build, moved).begun == watch.begun,
{
}

/// Files that cannot be looked at fail the build that is under way, and end a run only where
/// nothing is being built or nothing has been deployed yet. A run that goes on deploys
/// nothing of that build.
pub proof fn failed_looks_fail_the_build(
    watch: WatchView,
    after: WatchView,
    error: RunErrorView,
    action: WatchAction,
    files: Map<Seq<char>, WatchedFile>,
    later: WatchAction,
)
    requires
        look_failed_so(watch, after, error, action),
        look_calls_for(after, files, later),
    ensures
        action is Report <==> watch.begun && (watch.phase == WatchPhase::Building || watch.phase
            == WatchPhase::Overtaken || watch.phase == WatchPhase::Built),
        action matches WatchAction::Stop(failure) ==> failure@ == error,
        action is Report || action is Stop,
        action is Report ==> later == WatchAction::Look(WATCH_POLL) && after_look(
            after,
            files,
        ).phase == WatchPhase::Watching,
        after.seen == watch.seen,
        after.begun == watch.begun,
{
}

/// A watched run is begun for a project whose manifest says what to watch, and for no other;
/// it has no machine-readable output.
pub proof fn watched_runs_need_something_to_watch(
    json: bool,
    manifest_path: HostPath,
    root: Option<String>,
    manifest: Result<Option<WatchConfig>, String>,
)
    ensures
        watch_start_refusal(json, manifest_path, root, manifest) is None <==> !json && (
        manifest_path is Absolute) && root is Some && (manifest matches Ok(Some(config))
            && config.watch@.len() > 0),
        json ==> watch_start_refusal(json, manifest_path, root, manifest)
            matches Some(RunErrorView::Arguments(_)),
{
}

} // verus!
