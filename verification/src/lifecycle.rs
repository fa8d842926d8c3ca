//! Finding, replacing and starting the shared server.
//!
//! Times are nanoseconds on a clock that does not go back.

use crate::cli::output;
use crate::cli::output::format_server_identity;
use crate::host_rpc::{ServerVersion, ServerVersionView};
use crate::host_rpc::API_VERSION;
use crate::text;
use crate::text::{concat, same_text};
use vstd::prelude::*;

verus! {

/// How long a server may take to start.
pub const SERVER_START_TIMEOUT: u64 = 5000000000;

/// How long a server may take to stop.
pub const SERVER_STOP_TIMEOUT: u64 = 5000000000;

/// How long to wait between two looks at the endpoint.
pub const SERVER_POLL_INTERVAL: u64 = 25000000;

/// How long the endpoint must be unavailable before the server counts as gone.
pub const SERVER_ENDPOINT_QUIET_PERIOD: u64 = 100000000;

/// How long another server may take to appear when the one that was started has
/// given way to it.
pub const SERVER_COMPETITOR_GRACE: u64 = 500000000;

/// The exact server that is accepted.
#[derive(Clone, Copy, Debug)]
pub struct ServerContract<'a> {
    pub name: &'a str,
    pub version: &'a str,
    pub api_version: &'a str,
}

impl<'a> View for ServerContract<'a> {
    type V = ServerVersionView;

    open spec fn view(&self) -> ServerVersionView {
        ServerVersionView {
            name: self.name@,
            version: self.version@,
            api_version: self.api_version@,
        }
    }
}

impl<'a> ServerContract<'a> {
    /// The server that goes with a build of this version.
    pub fn current(version: &'a str) -> (contract: Self)
        ensures
            contract@ == (ServerVersionView {
                name: "kindlebridge-server"@,
                version: version@,
                api_version: API_VERSION@,
            }),
    {
        ServerContract { name: "kindlebridge-server", version, api_version: API_VERSION }
    }
}

/// Why no server is at hand, or why one does not stop.
#[derive(Debug)]
pub struct LifecycleError {
    message: String,
}

impl View for LifecycleError {
    type V = Seq<char>;

    closed spec fn view(&self) -> Seq<char> {
        self.message@
    }
}

impl LifecycleError {
    fn new(message: String) -> (error: Self)
        ensures
            error@ == message@,
    {
        LifecycleError { message }
    }

    /// What the user is told.
    pub fn to_text(&self) -> (text: String)
        ensures
            text@ == self@,
    {
        self.message.clone()
    }
}

/// How a server suits.
#[derive(Clone, Copy, Debug, PartialEq, Eq, Structural)]
pub enum ServerCompatibility {
    Compatible,
    Replace,
    Foreign,
}

/// How a server suits: one of another name is not ours, and one of ours must be the
/// same build with the same interface.
pub open spec fn compatibility(version: ServerVersionView, contract: ServerVersionView) -> ServerCompatibility {
    if version.name != contract.name {
        ServerCompatibility::Foreign
    } else if version == contract {
        ServerCompatibility::Compatible
    } else {
        ServerCompatibility::Replace
    }
}

/// Tells how a server suits.
pub fn classify_server(version: &ServerVersion, contract: ServerContract<'_>) -> (result:
    ServerCompatibility)
    ensures
        result == compatibility(version@, contract@),
{
    let name = same_text(version.name.as_str(), contract.name);
    let build = same_text(version.version.as_str(), contract.version);
    let api = same_text(version.api_version.as_str(), contract.api_version);
    proof {
        if name && build && api {
            assert(version@ =~= contract@);
        }
    }
    if !name {
        ServerCompatibility::Foreign
    } else if build && api {
        ServerCompatibility::Compatible
    } else {
        ServerCompatibility::Replace
    }
}

/// What the user is told of a server that is not ours.
pub open spec fn foreign_message(version: ServerVersionView, name: Seq<char>) -> Seq<char> {
    "local endpoint belongs to "@ + output::version_text(version) + ", not "@ + name
        + "; stop it manually"@
}

/// The error of a server that is not ours.
pub fn foreign_server_error(version: &ServerVersion, contract: ServerContract<'_>) -> (error:
    LifecycleError)
    ensures
        error@ == foreign_message(version@, contract@.name),
{
    let mut message = concat(
        "local endpoint belongs to ",
        format_server_identity(version).as_str(),
    );
    message.append(", not ");
    message.append(contract.name);
    message.append("; stop it manually");
    LifecycleError::new(message)
}

/// The time that has passed.
pub open spec fn passed(since: u64, now: u64) -> u64 {
    if now >= since {
        (now - since) as u64
    } else {
        0
    }
}

/// What a wait for something to hold comes to.
#[derive(Clone, Copy, Debug, PartialEq, Eq, Structural)]
pub enum WaitStep {
    /// It has held for long enough.
    Stable,
    /// It did not in time.
    TimedOut,
    /// Look again after so long.
    Sleep(u64),
}

/// Since when something has held without a break, after a look at it.
pub open spec fn held_since(since: Option<u64>, holds: bool, now: u64) -> Option<u64> {
    if !holds {
        None
    } else if since is None {
        Some(now)
    } else {
        since
    }
}

/// What a look comes to during a wait that began at a time.
pub open spec fn wait_step(
    timeout: u64,
    stable_for: u64,
    started: u64,
    since: Option<u64>,
    now: u64,
) -> WaitStep {
    if since is Some && passed(since->Some_0, now) >= stable_for {
        WaitStep::Stable
    } else if passed(started, now) >= timeout {
        WaitStep::TimedOut
    } else if timeout - passed(started, now) < SERVER_POLL_INTERVAL {
        WaitStep::Sleep((timeout - passed(started, now)) as u64)
    } else {
        WaitStep::Sleep(SERVER_POLL_INTERVAL)
    }
}

/// A wait until something has held for a time without a break.
#[derive(Debug)]
pub struct StableWait {
    timeout: u64,
    stable_for: u64,
    started: u64,
    since: Option<u64>,
}

impl StableWait {
    /// How long to wait at most.
    pub closed spec fn timeout(&self) -> u64 {
        self.timeout
    }

    /// How long it must hold.
    pub closed spec fn stable_for(&self) -> u64 {
        self.stable_for
    }

    /// When the wait began.
    pub closed spec fn started(&self) -> u64 {
        self.started
    }

    /// Since when it has held, if it does.
    pub closed spec fn since(&self) -> Option<u64> {
        self.since
    }

    /// Begins to wait.
    pub fn new(timeout: u64, stable_for: u64, now: u64) -> (wait: Self)
        ensures
            wait.timeout() == timeout,
            wait.stable_for() == stable_for,
            wait.started() == now,
            wait.since() is None,
    {
        StableWait { timeout, stable_for, started: now, since: None }
    }

    /// Takes a look.
    pub fn observe(&mut self, holds: bool, now: u64) -> (step: WaitStep)
        ensures
            final(self).timeout() == old(self).timeout(),
            final(self).stable_for() == old(self).stable_for(),
            final(self).started() == old(self).started(),
            final(self).since() == held_since(old(self).since(), holds, now),
            step == wait_step(
                old(self).timeout(),
                old(self).stable_for(),
                old(self).started(),
                final(self).since(),
                now,
            ),
    {
        self.since = if holds {
            match self.since {
                Some(since) => Some(since),
                None => Some(now),
            }
        } else {
            None
        };
        if let Some(since) = self.since {
            if elapsed(since, now) >= self.stable_for {
                return WaitStep::Stable;
            }
        }
        let waited: u64 = elapsed(self.started, now);
        if waited >= self.timeout {
            return WaitStep::TimedOut;
        }
        if self.timeout - waited < SERVER_POLL_INTERVAL {
            WaitStep::Sleep(self.timeout - waited)
        } else {
            WaitStep::Sleep(SERVER_POLL_INTERVAL)
        }
    }
}

/// Begins to wait until the endpoint has been unavailable for so long that nobody can
/// still meet the old server there.
pub fn wait_for_shutdown(now: u64) -> (wait: StableWait)
    ensures
        wait.timeout() == SERVER_STOP_TIMEOUT,
        wait.stable_for() == SERVER_ENDPOINT_QUIET_PERIOD,
        wait.started() == now,
        wait.since() is None,
{
    StableWait::new(SERVER_STOP_TIMEOUT, SERVER_ENDPOINT_QUIET_PERIOD, now)
}

/// The failure of a server that does not stop.
pub fn shutdown_timeout() -> (error: LifecycleError)
    ensures
        error@ == "shared local server did not stop within 5 seconds"@,
{
    LifecycleError::new("shared local server did not stop within 5 seconds".to_owned())
}

fn elapsed(since: u64, now: u64) -> (time: u64)
    ensures
        time == passed(since, now),
{
    if now >= since {
        now - since
    } else {
        0
    }
}

/// What a question for the version of the server comes to.
#[derive(Debug)]
pub enum Probe {
    /// Nobody answers at the endpoint.
    NoEndpoint,
    /// The question fails.
    CallFailed,
    /// The answer is no version.
    Invalid,
    Version(ServerVersion),
}

/// The model of [`Probe`].
#[verifier::ext_equal]
pub enum ProbeView {
    NoEndpoint,
    CallFailed,
    Invalid,
    Version(ServerVersionView),
}

impl View for Probe {
    type V = ProbeView;

    open spec fn view(&self) -> ProbeView {
        match *self {
            Probe::NoEndpoint => ProbeView::NoEndpoint,
            Probe::CallFailed => ProbeView::CallFailed,
            Probe::Invalid => ProbeView::Invalid,
            Probe::Version(version) => ProbeView::Version(version@),
        }
    }
}

/// What is to be done next to acquire a server.
#[derive(Debug)]
pub enum AcquireAction {
    /// Wait for so long, connect and ask for the version.
    Probe(u64),
    /// Tell the user that this server is replaced; then connect and ask for the
    /// version.
    Announce(ServerVersion),
    /// Ask the server to stop, on the connection on which it told its version.
    Stop,
    /// Connect.
    Connect,
    /// Wait for so long and see whether anybody answers at the endpoint.
    Look(u64),
    /// Start the server program.
    Launch,
    /// See whether the server program has ended.
    Inspect,
    /// Use the connection just made.
    Done,
    /// Give up. The server program is ended first where it runs.
    Fail { error: LifecycleError, kill: bool },
}

/// The model of [`AcquireAction`].
#[verifier::ext_equal]
pub enum AcquireActionView {
    Probe(u64),
    Announce(ServerVersionView),
    Stop,
    Connect,
    Look(u64),
    Launch,
    Inspect,
    Done,
    Fail { error: Seq<char>, kill: bool },
}

impl View for AcquireAction {
    type V = AcquireActionView;

    open spec fn view(&self) -> AcquireActionView {
        match *self {
            AcquireAction::Probe(wait) => AcquireActionView::Probe(wait),
            AcquireAction::Announce(version) => AcquireActionView::Announce(version@),
            AcquireAction::Stop => AcquireActionView::Stop,
            AcquireAction::Connect => AcquireActionView::Connect,
            AcquireAction::Look(wait) => AcquireActionView::Look(wait),
            AcquireAction::Launch => AcquireActionView::Launch,
            AcquireAction::Inspect => AcquireActionView::Inspect,
            AcquireAction::Done => AcquireActionView::Done,
            AcquireAction::Fail { error, kill } => AcquireActionView::Fail { error: error@, kill },
        }
    }
}

/// What the acquisition of a server is at.
#[derive(Clone, Copy, Debug, PartialEq, Eq, Structural)]
pub enum AcquirePhase {
    /// Asking whoever answers for its version.
    First,
    /// Connecting to a server that suits.
    Joining,
    /// Asking a server that is to be replaced for its version once more.
    Stopping,
    /// Asking it to stop.
    Requesting,
    /// Seeing who is there after a request failed.
    Racing,
    /// Connecting to a server that has taken its place.
    Rejoining,
    /// Waiting until it is gone, or another has taken its place.
    Waiting,
    /// Connecting to the one that has taken its place.
    Switching,
    /// Waiting until somebody who does not tell a version is gone.
    Vanishing,
    /// Starting the server program.
    Launching,
    /// Waiting until a server answers.
    Starting,
    /// Connecting to it.
    Entering,
    /// Seeing whether the server program has ended.
    Inspecting,
    /// There is a server, or there is none to be had.
    Over,
}

/// The acquisition of a server that suits: one is met, replaced or started.
#[derive(Debug)]
pub struct Acquire<'a> {
    contract: ServerContract<'a>,
    program: String,
    phase: AcquirePhase,
    since: u64,
    quiet: Option<u64>,
    exited: Option<(u64, String)>,
    incompatible: Option<ServerVersion>,
}

/// The model of [`Acquire`].
#[verifier::ext_equal]
pub struct AcquireView {
    pub contract: ServerVersionView,
    pub program: Seq<char>,
    pub phase: AcquirePhase,
    /// When the wait at hand began.
    pub since: u64,
    /// Since when nobody answers.
    pub quiet: Option<u64>,
    /// When the server program was found to have ended, and how.
    pub exited: Option<(u64, Seq<char>)>,
    /// A server that answered during the start and does not suit.
    pub incompatible: Option<ServerVersionView>,
}

impl<'a> View for Acquire<'a> {
    type V = AcquireView;

    closed spec fn view(&self) -> AcquireView {
        AcquireView {
            contract: self.contract@,
            program: self.program@,
            phase: self.phase,
            since: self.since,
            quiet: self.quiet,
            exited: match self.exited {
                Some((at, status)) => Some((at, status@)),
                None => None,
            },
            incompatible: match self.incompatible {
                Some(version) => Some(version@),
                None => None,
            },
        }
    }
}

/// The acquisition in another phase.
pub open spec fn in_phase(at: AcquireView, phase: AcquirePhase) -> AcquireView {
    AcquireView { phase, ..at }
}

/// Giving up.
pub open spec fn give_up(at: AcquireView, error: Seq<char>, kill: bool) -> (
    AcquireView,
    AcquireActionView,
) {
    (in_phase(at, AcquirePhase::Over), AcquireActionView::Fail { error, kill })
}

/// Giving up because the endpoint belongs to a server that is not ours.
pub open spec fn give_way(at: AcquireView, version: ServerVersionView, kill: bool) -> (
    AcquireView,
    AcquireActionView,
) {
    give_up(at, foreign_message(version, at.contract.name), kill)
}

/// Beginning to wait until an old server is gone.
pub open spec fn begin_wait(at: AcquireView, now: u64) -> (AcquireView, AcquireActionView) {
    (
        AcquireView { phase: AcquirePhase::Waiting, since: now, quiet: None, ..at },
        AcquireActionView::Probe(0),
    )
}

/// Going on waiting until an old server is gone, as long as there is time.
pub open spec fn keep_waiting(at: AcquireView, now: u64) -> (AcquireView, AcquireActionView) {
    if passed(at.since, now) >= SERVER_STOP_TIMEOUT {
        give_up(at, "old local server did not stop within 5 seconds"@, false)
    } else {
        (in_phase(at, AcquirePhase::Waiting), AcquireActionView::Probe(SERVER_POLL_INTERVAL))
    }
}

/// Going on to wait until a server answers, by whether the program has ended and by
/// whether there is time.
pub open spec fn keep_starting(at: AcquireView, now: u64) -> (AcquireView, AcquireActionView) {
    match at.exited {
        Some((ended, status)) => if passed(ended, now) < SERVER_COMPETITOR_GRACE {
            (in_phase(at, AcquirePhase::Starting), AcquireActionView::Probe(SERVER_POLL_INTERVAL))
        } else {
            give_up(at, "server exited during startup with "@ + status, false)
        },
        None => if passed(at.since, now) >= SERVER_START_TIMEOUT {
            give_up(
                at,
                match at.incompatible {
                    Some(version) => at.program + " launched "@ + output::version_text(version)
                        + ", but this CLI requires "@ + at.contract.version + " (API "@
                        + at.contract.api_version + ")"@,
                    None => "shared local server startup timed out"@,
                },
                true,
            )
        } else {
            (in_phase(at, AcquirePhase::Starting), AcquireActionView::Probe(SERVER_POLL_INTERVAL))
        },
    }
}

/// Going on with the start after a look at the endpoint.
pub open spec fn after_start_probe(at: AcquireView, now: u64) -> (AcquireView, AcquireActionView) {
    if at.exited is None {
        (in_phase(at, AcquirePhase::Inspecting), AcquireActionView::Inspect)
    } else {
        keep_starting(at, now)
    }
}

/// What the first question for the version comes to.
pub open spec fn first_probed(at: AcquireView, probe: ProbeView, now: u64) -> (
    AcquireView,
    AcquireActionView,
) {
    match probe {
        ProbeView::NoEndpoint => (
            in_phase(at, AcquirePhase::Launching),
            AcquireActionView::Launch,
        ),
        ProbeView::CallFailed | ProbeView::Invalid => (
            AcquireView { phase: AcquirePhase::Vanishing, since: now, quiet: None, ..at },
            AcquireActionView::Look(0),
        ),
        ProbeView::Version(version) => match compatibility(version, at.contract) {
            ServerCompatibility::Compatible => (
                in_phase(at, AcquirePhase::Joining),
                AcquireActionView::Connect,
            ),
            ServerCompatibility::Replace => (
                in_phase(at, AcquirePhase::Stopping),
                AcquireActionView::Announce(version),
            ),
            ServerCompatibility::Foreign => give_way(at, version, false),
        },
    }
}

/// What the question for the version comes to before a server is asked to stop: only
/// one that has just told that it is ours and is to be replaced is asked.
pub open spec fn stop_probed(at: AcquireView, probe: ProbeView, now: u64) -> (
    AcquireView,
    AcquireActionView,
) {
    match probe {
        ProbeView::NoEndpoint => begin_wait(at, now),
        ProbeView::CallFailed => (
            in_phase(at, AcquirePhase::Racing),
            AcquireActionView::Probe(0),
        ),
        ProbeView::Invalid => give_up(
            at,
            "the existing local server returned invalid version information"@,
            false,
        ),
        ProbeView::Version(version) => match compatibility(version, at.contract) {
            ServerCompatibility::Compatible => (
                in_phase(at, AcquirePhase::Rejoining),
                AcquireActionView::Connect,
            ),
            ServerCompatibility::Replace => (
                in_phase(at, AcquirePhase::Requesting),
                AcquireActionView::Stop,
            ),
            ServerCompatibility::Foreign => give_way(at, version, false),
        },
    }
}

/// What the question for the version comes to after a request failed.
pub open spec fn race_probed(at: AcquireView, probe: ProbeView, now: u64) -> (
    AcquireView,
    AcquireActionView,
) {
    match probe {
        ProbeView::Version(version) => match compatibility(version, at.contract) {
            ServerCompatibility::Compatible => (
                in_phase(at, AcquirePhase::Rejoining),
                AcquireActionView::Connect,
            ),
            ServerCompatibility::Replace => begin_wait(at, now),
            ServerCompatibility::Foreign => give_way(at, version, false),
        },
        _ => begin_wait(at, now),
    }
}

/// What the question for the version comes to while an old server is to go.
pub open spec fn wait_probed(at: AcquireView, probe: ProbeView, now: u64) -> (
    AcquireView,
    AcquireActionView,
) {
    let answered = AcquireView { quiet: None, ..at };
    match probe {
        ProbeView::NoEndpoint => {
            let quiet = held_since(at.quiet, true, now);
            let silent = AcquireView { quiet, ..at };
            if passed(quiet->Some_0, now) >= SERVER_ENDPOINT_QUIET_PERIOD {
                (in_phase(silent, AcquirePhase::Launching), AcquireActionView::Launch)
            } else {
                keep_waiting(silent, now)
            }
        },
        ProbeView::CallFailed | ProbeView::Invalid => keep_waiting(answered, now),
        ProbeView::Version(version) => match compatibility(version, at.contract) {
            ServerCompatibility::Compatible => (
                in_phase(answered, AcquirePhase::Switching),
                AcquireActionView::Connect,
            ),
            ServerCompatibility::Replace => keep_waiting(answered, now),
            ServerCompatibility::Foreign => give_way(answered, version, false),
        },
    }
}

/// What the question for the version comes to while a server starts.
pub open spec fn start_probed(at: AcquireView, probe: ProbeView, now: u64) -> (
    AcquireView,
    AcquireActionView,
) {
    match probe {
        ProbeView::Version(version) => match compatibility(version, at.contract) {
            ServerCompatibility::Compatible => (
                in_phase(at, AcquirePhase::Entering),
                AcquireActionView::Connect,
            ),
            ServerCompatibility::Replace => after_start_probe(
                AcquireView { incompatible: Some(version), ..at },
                now,
            ),
            ServerCompatibility::Foreign => give_way(at, version, true),
        },
        _ => after_start_probe(at, now),
    }
}

/// What a question for the version comes to.
pub open spec fn probed(at: AcquireView, probe: ProbeView, now: u64) -> (
    AcquireView,
    AcquireActionView,
) {
    match at.phase {
        AcquirePhase::First => first_probed(at, probe, now),
        AcquirePhase::Stopping => stop_probed(at, probe, now),
        AcquirePhase::Racing => race_probed(at, probe, now),
        AcquirePhase::Waiting => wait_probed(at, probe, now),
        _ => start_probed(at, probe, now),
    }
}

/// What a connection, made or not, comes to.
pub open spec fn connected(at: AcquireView, made: bool, now: u64) -> (
    AcquireView,
    AcquireActionView,
) {
    if made {
        (in_phase(at, AcquirePhase::Over), AcquireActionView::Done)
    } else {
        match at.phase {
            AcquirePhase::Joining => (
                in_phase(at, AcquirePhase::Launching),
                AcquireActionView::Launch,
            ),
            AcquirePhase::Rejoining => begin_wait(at, now),
            AcquirePhase::Switching => keep_waiting(at, now),
            _ => after_start_probe(at, now),
        }
    }
}

/// What the answer to a request to stop comes to.
pub open spec fn stop_answered(at: AcquireView, taken: bool, now: u64) -> (
    AcquireView,
    AcquireActionView,
) {
    if taken {
        begin_wait(at, now)
    } else {
        (in_phase(at, AcquirePhase::Racing), AcquireActionView::Probe(0))
    }
}

/// What a look whether anybody answers at the endpoint comes to.
pub open spec fn endpoint_looked(at: AcquireView, answered: bool, now: u64) -> (
    AcquireView,
    AcquireActionView,
) {
    let seen = AcquireView { quiet: held_since(at.quiet, !answered, now), ..at };
    match wait_step(
        SERVER_STOP_TIMEOUT,
        SERVER_ENDPOINT_QUIET_PERIOD,
        seen.since,
        seen.quiet,
        now,
    ) {
        WaitStep::Stable => (in_phase(seen, AcquirePhase::Launching), AcquireActionView::Launch),
        WaitStep::TimedOut => give_up(
            seen,
            "shared local server did not stop within 5 seconds"@,
            false,
        ),
        WaitStep::Sleep(wait) => (seen, AcquireActionView::Look(wait)),
    }
}

/// What the start of the server program comes to.
pub open spec fn program_started(at: AcquireView, failure: Option<Seq<char>>, now: u64) -> (
    AcquireView,
    AcquireActionView,
) {
    match failure {
        Some(message) => give_up(at, "could not start "@ + at.program + ": "@ + message, false),
        None => (
            AcquireView {
                phase: AcquirePhase::Starting,
                since: now,
                exited: None,
                incompatible: None,
                ..at
            },
            AcquireActionView::Probe(0),
        ),
    }
}

/// What a look whether the server program has ended comes to.
pub open spec fn program_inspected(
    at: AcquireView,
    status: Result<Option<Seq<char>>, Seq<char>>,
    now: u64,
) -> (AcquireView, AcquireActionView) {
    match status {
        Err(message) => give_up(at, "could not inspect server: "@ + message, false),
        Ok(ended) => keep_starting(
            AcquireView {
                exited: match ended {
                    Some(status) => Some((now, status)),
                    None => None,
                },
                ..at
            },
            now,
        ),
    }
}

impl<'a> Acquire<'a> {
    /// Begins to acquire a server that suits; the program is the one to start where
    /// there is none.
    pub fn new(contract: ServerContract<'a>, program: String) -> (acquire: Self)
        ensures
            acquire@ == (AcquireView {
                contract: contract@,
                program: program@,
                phase: AcquirePhase::First,
                since: 0,
                quiet: None,
                exited: None,
                incompatible: None,
            }),
    {
        Acquire {
            contract,
            program,
            phase: AcquirePhase::First,
            since: 0,
            quiet: None,
            exited: None,
            incompatible: None,
        }
    }

    fn fail(&mut self, error: LifecycleError, kill: bool) -> (action: AcquireAction)
        ensures
            (final(self)@, action@) == give_up(old(self)@, error@, kill),
    {
        self.phase = AcquirePhase::Over;
        AcquireAction::Fail { error, kill }
    }

    fn yield_to(&mut self, version: &ServerVersion, kill: bool) -> (action: AcquireAction)
        ensures
            (final(self)@, action@) == give_way(old(self)@, version@, kill),
    {
        let error = foreign_server_error(version, self.contract);
        self.fail(error, kill)
    }

    fn wait(&mut self, now: u64) -> (action: AcquireAction)
        ensures
            (final(self)@, action@) == begin_wait(old(self)@, now),
    {
        self.phase = AcquirePhase::Waiting;
        self.since = now;
        self.quiet = None;
        AcquireAction::Probe(0)
    }

    fn wait_on(&mut self, now: u64) -> (action: AcquireAction)
        ensures
            (final(self)@, action@) == keep_waiting(old(self)@, now),
    {
        if elapsed(self.since, now) >= SERVER_STOP_TIMEOUT {
            return self.fail(
                LifecycleError::new("old local server did not stop within 5 seconds".to_owned()),
                false,
            );
        }
        self.phase = AcquirePhase::Waiting;
        AcquireAction::Probe(SERVER_POLL_INTERVAL)
    }

    fn start_timeout(&self) -> (error: LifecycleError)
        ensures
            error@ == (match self@.incompatible {
                Some(version) => self@.program + " launched "@ + output::version_text(version)
                    + ", but this CLI requires "@ + self@.contract.version + " (API "@
                    + self@.contract.api_version + ")"@,
                None => "shared local server startup timed out"@,
            }),
    {
        match &self.incompatible {
            Some(version) => {
                let mut message = concat(self.program.as_str(), " launched ");
                message.append(format_server_identity(version).as_str());
                message.append(", but this CLI requires ");
                message.append(self.contract.version);
                message.append(" (API ");
                message.append(self.contract.api_version);
                message.append(")");
                LifecycleError::new(message)
            },
            None => LifecycleError::new("shared local server startup timed out".to_owned()),
        }
    }

    fn start_on(&mut self, now: u64) -> (action: AcquireAction)
        ensures
            (final(self)@, action@) == keep_starting(old(self)@, now),
    {
        let message = match &self.exited {
            Some((ended, status)) => {
                if elapsed(*ended, now) < SERVER_COMPETITOR_GRACE {
                    None
                } else {
                    Some(concat("server exited during startup with ", status.as_str()))
                }
            },
            None => {
                if elapsed(self.since, now) >= SERVER_START_TIMEOUT {
                    let error = self.start_timeout();
                    return self.fail(error, true);
                }
                None
            },
        };
        if let Some(message) = message {
            return self.fail(LifecycleError::new(message), false);
        }
        self.phase = AcquirePhase::Starting;
        AcquireAction::Probe(SERVER_POLL_INTERVAL)
    }

    fn start_seen(&mut self, now: u64) -> (action: AcquireAction)
        ensures
            (final(self)@, action@) == after_start_probe(old(self)@, now),
    {
        if self.exited.is_none() {
            self.phase = AcquirePhase::Inspecting;
            AcquireAction::Inspect
        } else {
            self.start_on(now)
        }
    }

    fn first_probed(&mut self, probe: Probe, now: u64) -> (action: AcquireAction)
        ensures
            (final(self)@, action@) == first_probed(old(self)@, probe@, now),
    {
        match probe {
            Probe::NoEndpoint => {
                self.phase = AcquirePhase::Launching;
                AcquireAction::Launch
            },
            Probe::CallFailed | Probe::Invalid => {
                self.phase = AcquirePhase::Vanishing;
                self.since = now;
                self.quiet = None;
                AcquireAction::Look(0)
            },
            Probe::Version(version) => match classify_server(&version, self.contract) {
                ServerCompatibility::Compatible => {
                    self.phase = AcquirePhase::Joining;
                    AcquireAction::Connect
                },
                ServerCompatibility::Replace => {
                    self.phase = AcquirePhase::Stopping;
                    AcquireAction::Announce(version)
                },
                ServerCompatibility::Foreign => self.yield_to(&version, false),
            },
        }
    }

    fn stop_probed(&mut self, probe: Probe, now: u64) -> (action: AcquireAction)
        ensures
            (final(self)@, action@) == stop_probed(old(self)@, probe@, now),
    {
        match probe {
            Probe::NoEndpoint => self.wait(now),
            Probe::CallFailed => {
                self.phase = AcquirePhase::Racing;
                AcquireAction::Probe(0)
            },
            Probe::Invalid => self.fail(
                LifecycleError::new(
                    "the existing local server returned invalid version information".to_owned(),
                ),
                false,
            ),
            Probe::Version(version) => match classify_server(&version, self.contract) {
                ServerCompatibility::Compatible => {
                    self.phase = AcquirePhase::Rejoining;
                    AcquireAction::Connect
                },
                ServerCompatibility::Replace => {
                    self.phase = AcquirePhase::Requesting;
                    AcquireAction::Stop
                },
                ServerCompatibility::Foreign => self.yield_to(&version, false),
            },
        }
    }

    fn race_probed(&mut self, probe: Probe, now: u64) -> (action: AcquireAction)
        ensures
            (final(self)@, action@) == race_probed(old(self)@, probe@, now),
    {
        match probe {
            Probe::Version(version) => match classify_server(&version, self.contract) {
                ServerCompatibility::Compatible => {
                    self.phase = AcquirePhase::Rejoining;
                    AcquireAction::Connect
                },
                ServerCompatibility::Replace => self.wait(now),
                ServerCompatibility::Foreign => self.yield_to(&version, false),
            },
            _ => self.wait(now),
        }
    }

    fn wait_probed(&mut self, probe: Probe, now: u64) -> (action: AcquireAction)
        ensures
            (final(self)@, action@) == wait_probed(old(self)@, probe@, now),
    {
        match probe {
            Probe::NoEndpoint => {
                let since: u64 = match self.quiet {
                    Some(since) => since,
                    None => now,
                };
                self.quiet = Some(since);
                if elapsed(since, now) >= SERVER_ENDPOINT_QUIET_PERIOD {
                    self.phase = AcquirePhase::Launching;
                    AcquireAction::Launch
                } else {
                    self.wait_on(now)
                }
            },
            Probe::CallFailed | Probe::Invalid => {
                self.quiet = None;
                self.wait_on(now)
            },
            Probe::Version(version) => {
                self.quiet = None;
                match classify_server(&version, self.contract) {
                    ServerCompatibility::Compatible => {
                        self.phase = AcquirePhase::Switching;
                        AcquireAction::Connect
                    },
                    ServerCompatibility::Replace => self.wait_on(now),
                    ServerCompatibility::Foreign => self.yield_to(&version, false),
                }
            },
        }
    }

    fn start_probed(&mut self, probe: Probe, now: u64) -> (action: AcquireAction)
        ensures
            (final(self)@, action@) == start_probed(old(self)@, probe@, now),
    {
        match probe {
            Probe::Version(version) => match classify_server(&version, self.contract) {
                ServerCompatibility::Compatible => {
                    self.phase = AcquirePhase::Entering;
                    AcquireAction::Connect
                },
                ServerCompatibility::Replace => {
                    self.incompatible = Some(version);
                    self.start_seen(now)
                },
                ServerCompatibility::Foreign => self.yield_to(&version, true),
            },
            _ => self.start_seen(now),
        }
    }

    /// Takes the answer to a question for the version.
    pub fn probed(&mut self, probe: Probe, now: u64) -> (action: AcquireAction)
        requires
            old(self)@.phase == AcquirePhase::First || old(self)@.phase == AcquirePhase::Stopping
                || old(self)@.phase == AcquirePhase::Racing || old(self)@.phase
                == AcquirePhase::Waiting || old(self)@.phase == AcquirePhase::Starting,
        ensures
            (final(self)@, action@) == probed(old(self)@, probe@, now),
    {
        match self.phase {
            AcquirePhase::First => self.first_probed(probe, now),
            AcquirePhase::Stopping => self.stop_probed(probe, now),
            AcquirePhase::Racing => self.race_probed(probe, now),
            AcquirePhase::Waiting => self.wait_probed(probe, now),
            _ => self.start_probed(probe, now),
        }
    }

    /// Takes whether a connection was made.
    pub fn connected(&mut self, made: bool, now: u64) -> (action: AcquireAction)
        requires
            old(self)@.phase == AcquirePhase::Joining || old(self)@.phase == AcquirePhase::Rejoining
                || old(self)@.phase == AcquirePhase::Switching || old(self)@.phase
                == AcquirePhase::Entering,
        ensures
            (final(self)@, action@) == connected(old(self)@, made, now),
    {
        if made {
            self.phase = AcquirePhase::Over;
            return AcquireAction::Done;
        }
        match self.phase {
            AcquirePhase::Joining => {
                self.phase = AcquirePhase::Launching;
                AcquireAction::Launch
            },
            AcquirePhase::Rejoining => self.wait(now),
            AcquirePhase::Switching => self.wait_on(now),
            _ => self.start_seen(now),
        }
    }

    /// Takes whether the server took the request to stop.
    pub fn stopped(&mut self, taken: bool, now: u64) -> (action: AcquireAction)
        requires
            old(self)@.phase == AcquirePhase::Requesting,
        ensures
            (final(self)@, action@) == stop_answered(old(self)@, taken, now),
    {
        if taken {
            self.wait(now)
        } else {
            self.phase = AcquirePhase::Racing;
            AcquireAction::Probe(0)
        }
    }

    /// Takes whether anybody answers at the endpoint.
    pub fn looked(&mut self, answered: bool, now: u64) -> (action: AcquireAction)
        requires
            old(self)@.phase == AcquirePhase::Vanishing,
        ensures
            (final(self)@, action@) == endpoint_looked(old(self)@, answered, now),
    {
        let mut wait = StableWait {
            timeout: SERVER_STOP_TIMEOUT,
            stable_for: SERVER_ENDPOINT_QUIET_PERIOD,
            started: self.since,
            since: self.quiet,
        };
        let step = wait.observe(!answered, now);
        self.quiet = wait.since;
        match step {
            WaitStep::Stable => {
                self.phase = AcquirePhase::Launching;
                AcquireAction::Launch
            },
            WaitStep::TimedOut => self.fail(shutdown_timeout(), false),
            WaitStep::Sleep(time) => AcquireAction::Look(time),
        }
    }

    /// Takes whether the server program was started, or why not.
    pub fn launched(&mut self, failure: Option<String>, now: u64) -> (action: AcquireAction)
        requires
            old(self)@.phase == AcquirePhase::Launching,
        ensures
            (final(self)@, action@) == program_started(
                old(self)@,
                text::optional(failure),
                now,
            ),
    {
        match failure {
            Some(message) => {
                let mut full = concat("could not start ", self.program.as_str());
                full.append(": ");
                full.append(message.as_str());
                self.fail(LifecycleError::new(full), false)
            },
            None => {
                self.phase = AcquirePhase::Starting;
                self.since = now;
                self.exited = None;
                self.incompatible = None;
                AcquireAction::Probe(0)
            },
        }
    }

    /// Takes whether the server program has ended, and how.
    pub fn inspected(&mut self, status: Result<Option<String>, String>, now: u64) -> (action:
        AcquireAction)
        requires
            old(self)@.phase == AcquirePhase::Inspecting,
        ensures
            (final(self)@, action@) == program_inspected(
                old(self)@,
                match status {
                    Ok(ended) => Ok(text::optional(ended)),
                    Err(message) => Err(message@),
                },
                now,
            ),
    {
        match status {
            Err(message) => self.fail(
                LifecycleError::new(concat("could not inspect server: ", message.as_str())),
                false,
            ),
            Ok(ended) => {
                self.exited = match ended {
                    Some(status) => Some((now, status)),
                    None => None,
                };
                self.start_on(now)
            },
        }
    }
}

/// A server is asked to stop only when it has just told that it is ours and another
/// build: one that is not ours, or does not tell, is never asked.
pub proof fn only_outdated_servers_are_stopped(at: AcquireView, probe: ProbeView, now: u64)
    requires
        probed(at, probe, now).1 == AcquireActionView::Stop,
    ensures
        at.phase == AcquirePhase::Stopping,
        probe matches ProbeView::Version(version) && version.name == at.contract.name && version
            != at.contract,
{
}

/// A server that is not ours is left alone: whenever one answers, the acquisition
/// ends with an error that names both.
pub proof fn foreign_servers_are_left_alone(at: AcquireView, version: ServerVersionView, now: u64)
    requires
        version.name != at.contract.name,
    ensures
        probed(at, ProbeView::Version(version), now).1 matches AcquireActionView::Fail {
            error,
            kill: _,
        } && error == foreign_message(version, at.contract.name),
{
}

/// A connection is made, to be used, only to a server that has just told that it
/// suits.
pub proof fn only_suitable_servers_are_used(at: AcquireView, probe: ProbeView, now: u64)
    requires
        probed(at, probe, now).1 == AcquireActionView::Connect,
    ensures
        probe == ProbeView::Version(at.contract),
{
    match probe {
        ProbeView::Version(version) => {
            assert(compatibility(version, at.contract) == ServerCompatibility::Compatible);
        },
        _ => {},
    }
}

/// After an old server, a new one is started only when nobody has answered for the
/// quiet period.
pub proof fn no_server_is_started_beside_an_old_one(at: AcquireView, probe: ProbeView, now: u64)
    requires
        at.phase == AcquirePhase::Waiting,
        probed(at, probe, now).1 == AcquireActionView::Launch,
    ensures
        probe == ProbeView::NoEndpoint,
        at.quiet matches Some(since) && passed(since, now) >= SERVER_ENDPOINT_QUIET_PERIOD,
{
}

/// A wait ends: once the time is over, a look comes to an end whatever it shows.
pub proof fn waits_are_bounded(
    timeout: u64,
    stable_for: u64,
    started: u64,
    since: Option<u64>,
    now: u64,
)
    requires
        passed(started, now) >= timeout,
    ensures
        wait_step(timeout, stable_for, started, since, now) !is Sleep,
{
}

/// A server that suits is used: wherever the acquisition stands when one answers, it is
/// connected to, and once the connection is made the acquisition is done.
pub proof fn suitable_servers_are_joined(at: AcquireView, now: u64, later: u64)
    ensures
        ({
            let (joining, action) = probed(at, ProbeView::Version(at.contract), now);
            &&& action == AcquireActionView::Connect
            &&& connected(joining, true, later).1 == AcquireActionView::Done
        }),
{
}

/// Where no server is, one is started, and asked for its version; and where an old one of
/// ours is, it is announced, asked to stop when it has told so once more, and waited for
/// before anything is started.
pub proof fn missing_and_outdated_servers_are_replaced(
    at: AcquireView,
    old_one: ServerVersionView,
    now: u64,
    later: u64,
)
    requires
        at.phase == AcquirePhase::First,
        old_one.name == at.contract.name,
        old_one.version != at.contract.version || old_one.api_version != at.contract.api_version,
    ensures
        ({
            let (launching, action) = probed(at, ProbeView::NoEndpoint, now);
            &&& action == AcquireActionView::Launch
            &&& program_started(launching, None, later).1 == AcquireActionView::Probe(0)
            &&& program_started(launching, None, later).0.phase == AcquirePhase::Starting
            &&& program_started(launching, None, later).0.since == later
        }),
        ({
            let (stopping, announced) = probed(at, ProbeView::Version(old_one), now);
            let (requesting, asked) = probed(stopping, ProbeView::Version(old_one), later);
            let (waiting, waited) = stop_answered(requesting, true, later);
            &&& announced == AcquireActionView::Announce(old_one)
            &&& asked == AcquireActionView::Stop
            &&& waited == AcquireActionView::Probe(0)
            &&& waiting.phase == AcquirePhase::Waiting
            &&& waiting.since == later
            &&& waiting.quiet is None
        }),
{
}

/// Since when something has held after several looks, each with what it showed and when.
pub open spec fn held_after(looks: Seq<(bool, u64)>) -> Option<u64>
    decreases looks.len(),
{
    if looks.len() == 0 {
        None
    } else {
        held_since(held_after(looks.drop_last()), looks.last().0, looks.last().1)
    }
}

/// A wait is over only when what it waits for has held without a break: since the look that
/// first showed it, every look has shown it, and that look was long enough ago. One look
/// that does not show it begins the time anew.
pub proof fn waits_need_an_unbroken_time(
    timeout: u64,
    stable_for: u64,
    started: u64,
    looks: Seq<(bool, u64)>,
    now: u64,
)
    requires
        wait_step(timeout, stable_for, started, held_after(looks), now) == WaitStep::Stable,
    ensures
        exists|i: int|
            #![trigger looks[i]]
            0 <= i < looks.len() && passed(looks[i].1, now) >= stable_for && (forall|k: int|
                i <= k < looks.len() ==> (#[trigger] looks[k]).0),
{
    held_from_a_look(looks);
}

proof fn held_from_a_look(looks: Seq<(bool, u64)>)
    ensures
        held_after(looks) matches Some(since) ==> exists|i: int|
            #![trigger looks[i]]
            0 <= i < looks.len() && looks[i].1 == since && (forall|k: int|
                i <= k < looks.len() ==> (#[trigger] looks[k]).0),
        looks.len() > 0 && looks.last().0 ==> held_after(looks) is Some,
    decreases looks.len(),
{
    if looks.len() > 0 {
        let fewer = looks.drop_last();
        let last = looks.len() - 1;
        held_from_a_look(fewer);
        if looks.last().0 {
            if held_after(fewer) is Some {
                let since = held_after(fewer)->Some_0;
                let i = choose|i: int|
                    #![trigger fewer[i]]
                    0 <= i < fewer.len() && fewer[i].1 == since && (forall|k: int|
                        i <= k < fewer.len() ==> (#[trigger] fewer[k]).0);
                assert(looks[i].1 == since);
                assert forall|k: int| i <= k < looks.len() implies (#[trigger] looks[k]).0 by {
                    if k < last {
                        assert(fewer[k].0);
                    }
                }
            } else {
                assert(looks[last].1 == looks.last().1);
                assert(forall|k: int| last <= k < looks.len() ==> (#[trigger] looks[k]).0);
            }
        }
    }
}

/// A wait that has its time left goes on, and no longer than it has time; one whose time is
/// over ends, as does one that has what it waits for.
pub proof fn waits_end_in_time(
    timeout: u64,
    stable_for: u64,
    started: u64,
    since: Option<u64>,
    now: u64,
)
    requires
        started <= now,
        since matches Some(held) ==> held <= now,
    ensures
        match wait_step(timeout, stable_for, started, since, now) {
            WaitStep::Stable => since matches Some(held) && now - held >= stable_for,
            WaitStep::TimedOut => now - started >= timeout && !(since matches Some(held) && now - held
                >= stable_for),
            WaitStep::Sleep(time) => 0 < time && now - started + time <= timeout,
        },
{
}

/// A server that was started is given its time: as long as its program runs and the time is
/// not over, or its program has just ended and another may have been faster, it is asked
/// again; then the acquisition fails. A program is ended only where it has not answered in
/// time.
pub proof fn started_servers_get_their_time(
    at: AcquireView,
    ended: Option<Seq<char>>,
    now: u64,
)
    requires
        at.phase == AcquirePhase::Inspecting,
        at.since <= now,
    ensures
        ({
            let (next, action) = program_inspected(at, Ok(ended), now);
            match action {
                AcquireActionView::Probe(_) => next.phase == AcquirePhase::Starting && (ended is None
                    ==> now - at.since < SERVER_START_TIMEOUT),
                AcquireActionView::Fail { error, kill } => kill ==> ended is None && now - at.since
                    >= SERVER_START_TIMEOUT,
                _ => false,
            }
        }),
        ended is None && now - at.since < SERVER_START_TIMEOUT ==> program_inspected(
            at,
            Ok(ended),
            now,
        ).1 is Probe,
{
}

/// A server suits when it has the name, the build and the interface that are asked for;
/// one of another name is not ours whatever else it says, and one of our name that
/// differs in anything is to be replaced.
pub proof fn servers_suit_when_all_agrees(version: ServerVersionView, contract: ServerVersionView)
    ensures
        compatibility(version, contract) == ServerCompatibility::Compatible <==> version.name
            == contract.name && version.version == contract.version && version.api_version
            == contract.api_version,
        compatibility(version, contract) == ServerCompatibility::Foreign <==> version.name
            != contract.name,
        text::mentions(foreign_message(version, contract.name), version.name),
        text::mentions(foreign_message(version, contract.name), contract.name),
{
    let told = output::version_text(version);
    let full = foreign_message(version, contract.name);
    let start = "local endpoint belongs to "@;
    let rest = " "@ + version.version + " (API "@ + version.api_version + ")"@;
    let end = "; stop it manually"@;
    assert(full =~= start + version.name + (rest + ", not "@ + contract.name + end));
    text::mentioned(start, version.name, rest + ", not "@ + contract.name + end);
    assert(full =~= start + told + ", not "@ + contract.name + end);
    text::mentioned(start + told + ", not "@, contract.name, end);
}

/// A server is started in place of another only when nobody answers at the endpoint any
/// more: who is still answered waits on, and counts the quiet time anew. The wait ends.
pub proof fn servers_are_replaced_once_they_are_gone(at: AcquireView, answered: bool, now: u64)
    ensures
        ({
            let (after, action) = endpoint_looked(at, answered, now);
            &&& action is Launch ==> !answered && (at.quiet matches Some(since) && passed(
                since,
                now,
            ) >= 100_000_000)
            &&& answered ==> after.quiet is None
            &&& !answered && at.quiet is Some ==> after.quiet == at.quiet
            &&& passed(at.since, now) >= 5_000_000_000 ==> action is Launch || action is Fail
            &&& action matches AcquireActionView::Look(wait) ==> wait > 0 && passed(at.since, now)
                + wait <= 5_000_000_000
            &&& action matches AcquireActionView::Fail { kill, .. } ==> !kill
            &&& action is Launch || action is Fail || action is Look
        }),
{
}

} // verus!
