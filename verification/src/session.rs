//! Session lifecycle decisions.
//!
//! The functions here decide everything the session manager does that is not
//! itself an input/output operation: which backend to use and on which port,
//! how the connect procedure moves between probing a running driver, spawning
//! a managed child, opening the session and landing on the placeholder page,
//! what `quit` and teardown do to the manager's state, and when an element
//! lookup gives up. The caller performs each requested action against the
//! backend and feeds the outcome back in.

use vstd::prelude::*;

use crate::args::{args_model, string_to_args};
use crate::EngineError;

verus! {

/// The supported browser-driving backends.
#[derive(Clone, Copy, PartialEq, Eq, Structural, Debug)]
pub enum Backend {
    /// The chrome-family driver, listening on port 9515 by default.
    Chrome,
    /// The firefox-family driver, listening on port 4444 by default.
    Firefox,
}

/// Failures of the connect decision itself, before any backend is involved.
#[derive(Debug)]
pub enum ConnectError {
    /// Neither backend was configured; the session manager cannot choose one
    /// on its own.
    NoBackendConfigured,
}

impl ConnectError {
    /// The caller-visible description of this error.
    pub fn message(&self) -> (m: &'static str)
        ensures
            m@ == "This functionality is currently not implemented in the engine. Please set either `TA_BROWSER_USE_CHROME` or `TA_BROWSER_USE_FIREFOX` and try again."@,
    {
        "This functionality is currently not implemented in the engine. Please set either `TA_BROWSER_USE_CHROME` or `TA_BROWSER_USE_FIREFOX` and try again."
    }
}

/// The configuration read once at connect time, one entry per setting.
pub struct ConnectConfig {
    /// Path of the chrome-family driver executable, when that backend is
    /// selected.
    pub chrome_path: Option<String>,
    /// Path of the firefox-family driver executable, when that backend is
    /// selected.
    pub firefox_path: Option<String>,
    /// Explicit port override; the backend's default port applies without it.
    pub port: Option<String>,
    /// Extra process arguments for the chrome-family driver, as one
    /// shell-like string.
    pub chrome_driver_args: String,
    /// Extra browser arguments for the chrome-family browser.
    pub chrome_browser_args: String,
    /// Extra process arguments for the firefox-family driver.
    pub firefox_driver_args: String,
    /// Extra browser arguments for the firefox-family browser.
    pub firefox_browser_args: String,
}

/// Everything the connect procedure needs, decided up front.
#[derive(Debug)]
pub struct ConnectPlan {
    /// The selected backend.
    pub backend: Backend,
    /// Path of the driver executable to spawn when no driver is reachable.
    pub driver_path: String,
    /// The port the driver is expected to listen on.
    pub port: String,
    /// Process arguments for the spawned driver.
    pub driver_args: Vec<String>,
    /// Browser arguments added to the capabilities after a spawn.
    pub browser_args: Vec<String>,
}

/// The default port of each backend's driver.
pub open spec fn spec_default_port(b: Backend) -> Seq<char> {
    match b {
        Backend::Chrome => "9515"@,
        Backend::Firefox => "4444"@,
    }
}

/// The port the connect procedure targets: the explicit override when one is
/// configured, the backend's default otherwise.
pub open spec fn spec_chosen_port(over: Option<String>, b: Backend) -> Seq<char> {
    match over {
        Some(p) => p@,
        None => spec_default_port(b),
    }
}

fn chosen_port(over: Option<String>, b: Backend) -> (p: String)
    ensures
        p@ == spec_chosen_port(over, b),
{
    match over {
        Some(p) => p,
        None => match b {
            Backend::Chrome => "9515".to_owned(),
            Backend::Firefox => "4444".to_owned(),
        },
    }
}

/// The endpoint URL of a driver listening locally on `port`.
pub fn server_url(port: &str) -> (u: String)
    ensures
        u@ == "http://localhost:"@ + port@,
{
    let base: String = "http://localhost:".to_owned();
    base.concat(port)
}

/// Decide how a session will be established: which backend, which port,
/// which driver executable, and the parsed process and browser arguments.
/// The chrome-family backend wins when both are configured; with neither,
/// the connect attempt fails deterministically.
pub fn connect_plan(cfg: ConnectConfig) -> (r: Result<ConnectPlan, ConnectError>)
    ensures
        cfg.chrome_path matches Some(path) ==> (r matches Ok(p)
            && p.backend is Chrome
            && p.driver_path == path
            && p.port@ == spec_chosen_port(cfg.port, Backend::Chrome)
            && p.driver_args.deep_view() == args_model(cfg.chrome_driver_args@)
            && p.browser_args.deep_view() == args_model(cfg.chrome_browser_args@)),
        cfg.chrome_path is None ==> (cfg.firefox_path matches Some(path) ==> (r matches Ok(p)
            && p.backend is Firefox
            && p.driver_path == path
            && p.port@ == spec_chosen_port(cfg.port, Backend::Firefox)
            && p.driver_args.deep_view() == args_model(cfg.firefox_driver_args@)
            && p.browser_args.deep_view() == args_model(cfg.firefox_browser_args@))),
        cfg.chrome_path is None && cfg.firefox_path is None ==> (r matches Err(e)
            && e is NoBackendConfigured),
{
    if let Some(path) = cfg.chrome_path {
        Ok(ConnectPlan {
            backend: Backend::Chrome,
            driver_path: path,
            port: chosen_port(cfg.port, Backend::Chrome),
            driver_args: string_to_args(cfg.chrome_driver_args.as_str()),
            browser_args: string_to_args(cfg.chrome_browser_args.as_str()),
        })
    } else if let Some(path) = cfg.firefox_path {
        Ok(ConnectPlan {
            backend: Backend::Firefox,
            driver_path: path,
            port: chosen_port(cfg.port, Backend::Firefox),
            driver_args: string_to_args(cfg.firefox_driver_args.as_str()),
            browser_args: string_to_args(cfg.firefox_browser_args.as_str()),
        })
    } else {
        Err(ConnectError::NoBackendConfigured)
    }
}

/// Milliseconds the connect procedure waits after spawning a driver before
/// opening a session against it.
pub const SETTLE_DELAY_MS: u64 = 500;

/// The fixed placeholder page every new session is navigated to: an inert,
/// self-contained document on a known origin, embedded as a data URL.
pub fn landing_page_uri() -> (u: &'static str)
    ensures
        u@ == "data:text/html;base64,PGh0bWw+PGhlYWQ+PHRpdGxlPkJyb3dzZXIgQXV0b21hdGlvbjwvdGl0bGU+PC9oZWFkPjxib2R5IHN0eWxlPSJvdmVyZmxvdzpoaWRkZW47Ij48aDEgc3R5bGU9ImRpc3BsYXk6ZmxleDtqdXN0aWZ5LWNvbnRlbnQ6Y2VudGVyO2FsaWduLWl0ZW1zOmNlbnRlcjtoZWlnaHQ6MTAwJTsiPlRlc3RBbmdlbCBCcm93c2VyIEF1dG9tYXRpb24gc3RhcnRpbmcuLi48L2gxPjwvYm9keT48L2h0bWw+"@,
{
    "data:text/html;base64,PGh0bWw+PGhlYWQ+PHRpdGxlPkJyb3dzZXIgQXV0b21hdGlvbjwvdGl0bGU+PC9oZWFkPjxib2R5IHN0eWxlPSJvdmVyZmxvdzpoaWRkZW47Ij48aDEgc3R5bGU9ImRpc3BsYXk6ZmxleDtqdXN0aWZ5LWNvbnRlbnQ6Y2VudGVyO2FsaWduLWl0ZW1zOmNlbnRlcjtoZWlnaHQ6MTAwJTsiPlRlc3RBbmdlbCBCcm93c2VyIEF1dG9tYXRpb24gc3RhcnRpbmcuLi48L2gxPjwvYm9keT48L2h0bWw+"
}

/// The phases of the connect procedure.
#[derive(Clone, Copy, PartialEq, Eq, Structural, Debug)]
pub enum ConnectPhase {
    /// Probing the configured port for an already-running driver.
    Probing,
    /// The probe failed; the driver executable is being spawned.
    Spawning,
    /// The spawned driver had its settle delay; a session is being opened
    /// against it with the plan's browser arguments applied.
    Opening,
    /// A session is open; it is being navigated to the placeholder page.
    Landing {
        /// A managed child process was recorded on the way here.
        spawned: bool,
    },
    /// The session is current: connect succeeded.
    Ready {
        /// A managed child process was recorded on the way here.
        spawned: bool,
    },
    /// Connect failed; no session was adopted.
    Failed {
        /// A managed child process was recorded before the failure; teardown
        /// must still reap it.
        spawned: bool,
    },
}

/// The backend outcomes the connect procedure reacts to.
#[derive(Clone, Copy, PartialEq, Eq, Structural, Debug)]
pub enum ConnectEvent {
    /// A session-open attempt succeeded.
    Opened,
    /// A session-open attempt failed.
    OpenFailed,
    /// The driver executable was spawned.
    Spawned,
    /// The driver executable could not be spawned.
    SpawnFailed,
    /// The navigation to the placeholder page succeeded.
    Landed,
    /// The navigation to the placeholder page failed.
    LandFailed,
}

/// What the connect procedure asks its caller to perform in each phase.
#[derive(Clone, Copy, PartialEq, Eq, Structural, Debug)]
pub enum ConnectAction {
    /// Open a session against the configured port with the backend's default
    /// capabilities.
    ProbeSession,
    /// Spawn the driver executable with the plan's process arguments and
    /// record the child process.
    SpawnDriver,
    /// Wait the settle delay, then open a session with the plan's browser
    /// arguments added to the capabilities.
    OpenSession,
    /// Navigate the session to the placeholder page.
    NavigatePlaceholder,
    /// Adopt the session as current: connect is done.
    Finish,
    /// Give up: connect failed.
    Abort,
}

/// The action pending in a phase.
pub open spec fn spec_connect_action(ph: ConnectPhase) -> ConnectAction {
    match ph {
        ConnectPhase::Probing => ConnectAction::ProbeSession,
        ConnectPhase::Spawning => ConnectAction::SpawnDriver,
        ConnectPhase::Opening => ConnectAction::OpenSession,
        ConnectPhase::Landing { .. } => ConnectAction::NavigatePlaceholder,
        ConnectPhase::Ready { .. } => ConnectAction::Finish,
        ConnectPhase::Failed { .. } => ConnectAction::Abort,
    }
}

/// One backend outcome applied to the connect procedure. An outcome that does
/// not answer the phase's pending action changes nothing.
pub open spec fn spec_connect_step(ph: ConnectPhase, ev: ConnectEvent) -> ConnectPhase {
    match ph {
        ConnectPhase::Probing => match ev {
            ConnectEvent::Opened => ConnectPhase::Landing { spawned: false },
            ConnectEvent::OpenFailed => ConnectPhase::Spawning,
            _ => ph,
        },
        ConnectPhase::Spawning => match ev {
            ConnectEvent::Spawned => ConnectPhase::Opening,
            ConnectEvent::SpawnFailed => ConnectPhase::Failed { spawned: false },
            _ => ph,
        },
        ConnectPhase::Opening => match ev {
            ConnectEvent::Opened => ConnectPhase::Landing { spawned: true },
            ConnectEvent::OpenFailed => ConnectPhase::Failed { spawned: true },
            _ => ph,
        },
        ConnectPhase::Landing { spawned } => match ev {
            ConnectEvent::Landed => ConnectPhase::Ready { spawned },
            ConnectEvent::LandFailed => ConnectPhase::Failed { spawned },
            _ => ph,
        },
        _ => ph,
    }
}

/// The action pending in a phase.
pub fn connect_action(ph: ConnectPhase) -> (a: ConnectAction)
    ensures
        a == spec_connect_action(ph),
{
    match ph {
        ConnectPhase::Probing => ConnectAction::ProbeSession,
        ConnectPhase::Spawning => ConnectAction::SpawnDriver,
        ConnectPhase::Opening => ConnectAction::OpenSession,
        ConnectPhase::Landing { .. } => ConnectAction::NavigatePlaceholder,
        ConnectPhase::Ready { .. } => ConnectAction::Finish,
        ConnectPhase::Failed { .. } => ConnectAction::Abort,
    }
}

/// One backend outcome applied to the connect procedure.
pub fn connect_step(ph: ConnectPhase, ev: ConnectEvent) -> (next: ConnectPhase)
    ensures
        next == spec_connect_step(ph, ev),
{
    match ph {
        ConnectPhase::Probing => match ev {
            ConnectEvent::Opened => ConnectPhase::Landing { spawned: false },
            ConnectEvent::OpenFailed => ConnectPhase::Spawning,
            _ => ph,
        },
        ConnectPhase::Spawning => match ev {
            ConnectEvent::Spawned => ConnectPhase::Opening,
            ConnectEvent::SpawnFailed => ConnectPhase::Failed { spawned: false },
            _ => ph,
        },
        ConnectPhase::Opening => match ev {
            ConnectEvent::Opened => ConnectPhase::Landing { spawned: true },
            ConnectEvent::OpenFailed => ConnectPhase::Failed { spawned: true },
            _ => ph,
        },
        ConnectPhase::Landing { spawned } => match ev {
            ConnectEvent::Landed => ConnectPhase::Ready { spawned },
            ConnectEvent::LandFailed => ConnectPhase::Failed { spawned },
            _ => ph,
        },
        _ => ph,
    }
}

/// The phase reached from the start of the connect procedure after the
/// backend outcomes `evs`.
pub open spec fn spec_connect_run(evs: Seq<ConnectEvent>) -> ConnectPhase
    decreases evs.len(),
{
    if evs.len() == 0 {
        ConnectPhase::Probing
    } else {
        spec_connect_step(spec_connect_run(evs.drop_last()), evs.last())
    }
}

/// Phases that can only be reached without any child process having been
/// recorded, and from which no spawn can ever be requested.
pub open spec fn spawn_free(ph: ConnectPhase) -> bool {
    ||| ph == (ConnectPhase::Landing { spawned: false })
    ||| ph == (ConnectPhase::Ready { spawned: false })
    ||| ph == (ConnectPhase::Failed { spawned: false })
}

/// Connect-then-reuse: when the very first probe finds a running driver, the
/// connect procedure never asks for a driver to be spawned afterwards, and
/// never records a child process, whatever the backend does next. Applied to
/// every prefix of a run, this covers every moment of the procedure.
pub proof fn lemma_reuse_never_spawns(evs: Seq<ConnectEvent>)
    requires
        evs.len() >= 1,
        evs[0] == ConnectEvent::Opened,
    ensures
        spawn_free(spec_connect_run(evs)),
        spec_connect_action(spec_connect_run(evs)) != ConnectAction::SpawnDriver,
    decreases evs.len(),
{
    if evs.len() == 1 {
        assert(evs.drop_last().len() == 0);
    } else {
        assert(evs.drop_last()[0] == evs[0]);
        lemma_reuse_never_spawns(evs.drop_last());
    }
}

/// Whether a backend outcome answers the action pending in a phase. A caller
/// that performs each requested action and reports its outcome produces runs
/// in which every event answers the phase it arrives in.
pub open spec fn answers(ph: ConnectPhase, ev: ConnectEvent) -> bool {
    match ph {
        ConnectPhase::Probing | ConnectPhase::Opening => ev == ConnectEvent::Opened || ev
            == ConnectEvent::OpenFailed,
        ConnectPhase::Spawning => ev == ConnectEvent::Spawned || ev == ConnectEvent::SpawnFailed,
        ConnectPhase::Landing { .. } => ev == ConnectEvent::Landed || ev
            == ConnectEvent::LandFailed,
        ConnectPhase::Ready { .. } | ConnectPhase::Failed { .. } => false,
    }
}

/// A run in which every backend outcome answers the then-pending action.
pub open spec fn valid_run(evs: Seq<ConnectEvent>) -> bool
    decreases evs.len(),
{
    evs.len() == 0 || (valid_run(evs.drop_last()) && answers(
        spec_connect_run(evs.drop_last()),
        evs.last(),
    ))
}

/// How many states along the run of `evs` ask for a driver spawn: one count
/// for each prefix of `evs` whose phase's pending action is a spawn.
pub open spec fn spec_spawn_asks(evs: Seq<ConnectEvent>) -> nat
    decreases evs.len(),
{
    let here: nat = if spec_connect_action(spec_connect_run(evs))
        == ConnectAction::SpawnDriver {
        1
    } else {
        0
    };
    if evs.len() == 0 {
        here
    } else {
        here + spec_spawn_asks(evs.drop_last())
    }
}

/// Helper for the spawn-count law: in a valid run, the number of spawn
/// requests so far is pinned by the phase reached.
proof fn lemma_spawn_asks_by_phase(evs: Seq<ConnectEvent>)
    requires
        valid_run(evs),
    ensures
        match spec_connect_run(evs) {
            ConnectPhase::Probing => spec_spawn_asks(evs) == 0,
            ConnectPhase::Spawning => spec_spawn_asks(evs) == 1,
            ConnectPhase::Opening => spec_spawn_asks(evs) == 1,
            ConnectPhase::Landing { spawned } => spec_spawn_asks(evs) == if spawned {
                1int
            } else {
                0
            },
            ConnectPhase::Ready { spawned } => spec_spawn_asks(evs) == if spawned {
                1int
            } else {
                0
            },
            ConnectPhase::Failed { spawned } => if spawned {
                spec_spawn_asks(evs) == 1
            } else {
                spec_spawn_asks(evs) <= 1
            },
        },
    decreases evs.len(),
{
    if evs.len() > 0 {
        lemma_spawn_asks_by_phase(evs.drop_last());
    }
}

/// In any valid run the connect procedure asks for at most one spawn.
pub proof fn lemma_spawn_at_most_once(evs: Seq<ConnectEvent>)
    requires
        valid_run(evs),
    ensures
        spec_spawn_asks(evs) <= 1,
{
    lemma_spawn_asks_by_phase(evs);
}

/// Connect-then-spawn: when no driver is listening (the first probe fails),
/// any valid run of the connect procedure asks for exactly one spawn, and a
/// phase that records the session as current also records the child.
pub proof fn lemma_spawn_exactly_once(evs: Seq<ConnectEvent>)
    requires
        valid_run(evs),
        evs.len() >= 1,
        evs[0] == ConnectEvent::OpenFailed,
    ensures
        spec_spawn_asks(evs) == 1,
        spec_connect_run(evs) matches ConnectPhase::Ready { spawned } ==> spawned,
    decreases evs.len(),
{
    lemma_spawn_asks_by_phase(evs);
    if evs.len() == 1 {
        assert(evs.drop_last().len() == 0);
    } else {
        assert(evs.drop_last()[0] == evs[0]);
        lemma_spawn_exactly_once(evs.drop_last());
        lemma_spawn_asks_by_phase(evs.drop_last());
    }
}

/// What the session manager holds, as the decisions see it.
#[derive(Clone, Copy, PartialEq, Eq, Structural, Debug)]
pub struct ManagerState {
    /// A session is current.
    pub session_active: bool,
    /// A managed child driver process is recorded and must be reaped at
    /// teardown.
    pub child_recorded: bool,
}

/// The manager after the just-spawned driver child is recorded.
pub open spec fn spec_record_child(st: ManagerState) -> ManagerState {
    ManagerState { child_recorded: true, ..st }
}

/// The manager after an open session is adopted as current.
pub open spec fn spec_adopt_session(st: ManagerState) -> ManagerState {
    ManagerState { session_active: true, ..st }
}

/// The manager after the current session is released: the child, if any,
/// stays recorded.
pub open spec fn spec_quit(st: ManagerState) -> ManagerState {
    ManagerState { session_active: false, ..st }
}

impl Default for ManagerState {
    /// A fresh manager holds no session and no child process.
    fn default() -> (s: Self)
        ensures
            !s.session_active,
            !s.child_recorded,
    {
        ManagerState { session_active: false, child_recorded: false }
    }
}

impl ManagerState {
    /// Record the just-spawned driver child; the manager owns it until
    /// teardown.
    pub fn record_child(&mut self)
        ensures
            *final(self) == spec_record_child(*old(self)),
    {
        self.child_recorded = true;
    }

    /// Adopt an open session as the current one.
    pub fn adopt_session(&mut self)
        ensures
            *final(self) == spec_adopt_session(*old(self)),
    {
        self.session_active = true;
    }

    /// Release the current session so the caller can close it against the
    /// backend; fails when none is active. A recorded child process is
    /// deliberately kept: only teardown reaps it.
    pub fn quit(&mut self) -> (r: Result<(), EngineError>)
        ensures
            old(self).session_active ==> (r is Ok && *final(self) == spec_quit(*old(self))),
            !old(self).session_active ==> ((r matches Err(e) && e is NotInitialised)
                && *final(self) == *old(self)),
    {
        if self.session_active {
            self.session_active = false;
            Ok(())
        } else {
            Err(EngineError::NotInitialised)
        }
    }

    /// Whether teardown must kill a managed child process. This does not
    /// depend on whether a session is still active: a prior `quit` never
    /// clears it.
    pub fn teardown_must_kill(&self) -> (b: bool)
        ensures
            b == self.child_recorded,
    {
        self.child_recorded
    }
}

/// A recorded child process outlives `quit`: after a spawn is recorded, the
/// manager reports the child must be killed at teardown whether or not a
/// session was adopted and quit in between; and neither adopting nor quitting
/// a session ever changes what teardown must do.
pub proof fn lemma_child_outlives_quit(st: ManagerState)
    ensures
        spec_quit(spec_adopt_session(spec_record_child(st))).child_recorded,
        spec_quit(st).child_recorded == st.child_recorded,
        spec_adopt_session(st).child_recorded == st.child_recorded,
{
}

/// The process-wide lookup wait: an element query polls every `interval_ms`
/// milliseconds until a match appears or `timeout_ms` milliseconds have
/// elapsed.
#[derive(Clone, Copy, PartialEq, Eq, Structural, Debug)]
pub struct PollSettings {
    /// Total time to keep polling before the lookup fails.
    pub timeout_ms: u64,
    /// Time between polls.
    pub interval_ms: u64,
}

impl Default for PollSettings {
    /// The defaults: a ten-second timeout polled every hundred milliseconds.
    fn default() -> (s: Self)
        ensures
            s.timeout_ms == 10000,
            s.interval_ms == 100,
    {
        PollSettings { timeout_ms: 10000, interval_ms: 100 }
    }
}

/// What an element lookup does after one poll.
#[derive(Clone, Copy, PartialEq, Eq, Structural, Debug)]
pub enum PollVerdict {
    /// A match appeared: the lookup returns it.
    Found,
    /// No match yet and time remains: poll again after one interval.
    Retry,
    /// No match and the timeout has elapsed: the lookup fails.
    TimedOut,
}

/// The verdict after a poll at `elapsed_ms` of a lookup allowed `timeout_ms`.
pub open spec fn spec_poll_verdict(elapsed_ms: u64, timeout_ms: u64, found: bool) -> PollVerdict {
    if found {
        PollVerdict::Found
    } else if elapsed_ms >= timeout_ms {
        PollVerdict::TimedOut
    } else {
        PollVerdict::Retry
    }
}

/// One poll of an element lookup: `found` says whether this poll matched,
/// `elapsed_ms` how long the lookup has been running. On a retry the second
/// component says when the next poll happens.
pub fn poll_step(elapsed_ms: u64, settings: &PollSettings, found: bool) -> (r: (PollVerdict, u64))
    requires
        settings.timeout_ms + settings.interval_ms <= u64::MAX,
    ensures
        r.0 == spec_poll_verdict(elapsed_ms, settings.timeout_ms, found),
        r.0 is Retry ==> r.1 == elapsed_ms + settings.interval_ms,
        !(r.0 is Retry) ==> r.1 == elapsed_ms,
{
    if found {
        (PollVerdict::Found, elapsed_ms)
    } else if elapsed_ms >= settings.timeout_ms {
        (PollVerdict::TimedOut, elapsed_ms)
    } else {
        (PollVerdict::Retry, elapsed_ms + settings.interval_ms)
    }
}

/// The elapsed time at which a lookup that never matches gives up: the first
/// poll instant at or past the timeout.
pub open spec fn spec_fail_time(elapsed_ms: nat, timeout_ms: nat, interval_ms: nat) -> nat
    decreases (if elapsed_ms >= timeout_ms { 0int } else { timeout_ms - elapsed_ms }),
        when interval_ms >= 1
{
    if elapsed_ms >= timeout_ms {
        elapsed_ms
    } else {
        spec_fail_time(elapsed_ms + interval_ms, timeout_ms, interval_ms)
    }
}

/// A lookup that never matches fails only once the configured timeout has
/// elapsed, and within one interval past it, having polled at instants spaced
/// one interval apart.
pub proof fn lemma_lookup_times_out(elapsed_ms: nat, timeout_ms: nat, interval_ms: nat)
    requires
        interval_ms >= 1,
    ensures
        elapsed_ms < timeout_ms ==> timeout_ms <= spec_fail_time(
            elapsed_ms,
            timeout_ms,
            interval_ms,
        ) < timeout_ms + interval_ms,
        elapsed_ms >= timeout_ms ==> spec_fail_time(elapsed_ms, timeout_ms, interval_ms)
            == elapsed_ms,
        exists|k: nat|
            spec_fail_time(elapsed_ms, timeout_ms, interval_ms) == elapsed_ms + #[trigger] (k
                * interval_ms),
    decreases (if elapsed_ms >= timeout_ms { 0int } else { timeout_ms - elapsed_ms }),
{
    if elapsed_ms >= timeout_ms {
        assert(spec_fail_time(elapsed_ms, timeout_ms, interval_ms) == elapsed_ms + 0
            * interval_ms);
    } else {
        lemma_lookup_times_out(elapsed_ms + interval_ms, timeout_ms, interval_ms);
        let k0 = choose|k: nat|
            spec_fail_time(elapsed_ms + interval_ms, timeout_ms, interval_ms) == (elapsed_ms
                + interval_ms) + #[trigger] (k * interval_ms);
        assert((elapsed_ms + interval_ms) + k0 * interval_ms == elapsed_ms + (k0 + 1)
            * interval_ms) by (nonlinear_arith);
        assert(spec_fail_time(elapsed_ms, timeout_ms, interval_ms) == elapsed_ms + (k0 + 1)
            * interval_ms);
    }
}

} // verus!
