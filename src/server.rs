use vstd::prelude::*;

use crate::config::{config_dir, join_path, joined_path};
use crate::engine::{push_arg, CommandSpec, CommandView};
use crate::text::{decimal, push_decimal, push_str, string_of};
use crate::types::{strings_view, TtsError};

verus! {

/// Loopback host the companion server listens on.
pub const DEFAULT_HOST: &'static str = "127.0.0.1";

/// Port the companion server listens on.
pub const DEFAULT_PORT: u16 = 17493;

/// Health polls before giving up.
pub const HEALTH_MAX_RETRIES: u32 = 60;

/// Pause between two health polls, in milliseconds.
pub const HEALTH_RETRY_INTERVAL_MS: u64 = 1000;

/// How long a stopping server may take to exit on its own, in milliseconds.
pub const SHUTDOWN_GRACE_PERIOD_MS: u64 = 3000;

/// Lifecycle of the companion server.
#[derive(Debug, Clone, Copy, PartialEq, Eq, Structural)]
pub enum ServerPhase {
    NotRunning,
    Starting,
    Healthy,
    Stopping,
}

/// What a non-blocking look at the held child showed.
#[derive(Debug, Clone, Copy, PartialEq, Eq, Structural)]
pub enum ExitProbe {
    Running,
    Exited,
    /// The look itself failed; the child is given up.
    Unknown,
}

/// How the bounded wait for a stopping child ended.
#[derive(Debug, Clone, Copy, PartialEq, Eq, Structural)]
pub enum WaitOutcome {
    Exited,
    /// The grace period elapsed, or the wait failed.
    TimedOut,
}

/// What `stop` did to the held child.
#[derive(Debug, Clone, Copy, PartialEq, Eq, Structural)]
pub enum StopAction {
    /// No child was held.
    Nothing,
    /// It exited within the grace period.
    Exited,
    /// It is to be killed: the grace period elapsed.
    Kill,
}

/// What a stop needs done: the cooperative shutdown request, then, when a
/// child is held, a wait of at most the grace period.
#[derive(Debug, Clone, PartialEq)]
pub struct StopPlan {
    pub shutdown_url: String,
    pub wait_ms: Option<u64>,
}

/// The companion-server supervisor: the server's address and whether a
/// child process is held (its handle is held by the caller).
pub struct ServerProcess {
    server_url: String,
    child_held: bool,
    phase: ServerPhase,
}

/// The supervisor as plain values.
pub struct SupervisorView {
    pub url: Seq<char>,
    pub child_held: bool,
    pub phase: ServerPhase,
}

impl View for ServerProcess {
    type V = SupervisorView;

    closed spec fn view(&self) -> SupervisorView {
        SupervisorView { url: self.server_url@, child_held: self.child_held, phase: self.phase }
    }
}

/// Phases agree with the held child: starting and stopping need one,
/// not running has none. (A healthy server may be one nobody spawned.)
pub open spec fn supervisor_wf(s: SupervisorView) -> bool {
    &&& (s.phase == ServerPhase::Starting || s.phase == ServerPhase::Stopping) ==> s.child_held
    &&& s.phase == ServerPhase::NotRunning ==> !s.child_held
}

/// The supervisor after a look at its child: a child seen to have exited
/// (or that cannot be looked at) is dropped.
pub open spec fn probed(s: SupervisorView, probe: ExitProbe) -> SupervisorView {
    if s.child_held && probe != ExitProbe::Running {
        SupervisorView { url: s.url, child_held: false, phase: ServerPhase::NotRunning }
    } else {
        s
    }
}

/// Whether the held child is alive after the look.
pub open spec fn alive(s: SupervisorView, probe: ExitProbe) -> bool {
    s.child_held && probe == ExitProbe::Running
}

/// The supervisor once a spawn has been attempted.
pub open spec fn spawned(s: SupervisorView, ok: bool) -> SupervisorView {
    if ok {
        SupervisorView { url: s.url, child_held: true, phase: ServerPhase::Starting }
    } else {
        s
    }
}

/// What stopping does to a child, given how the wait ended.
pub open spec fn stop_action(s: SupervisorView, waited: WaitOutcome) -> StopAction {
    if !s.child_held {
        StopAction::Nothing
    } else if waited == WaitOutcome::Exited {
        StopAction::Exited
    } else {
        StopAction::Kill
    }
}

/// The supervisor after a stop: no child, not running.
pub open spec fn stopped(s: SupervisorView) -> SupervisorView {
    SupervisorView { url: s.url, child_held: false, phase: ServerPhase::NotRunning }
}

/// The arguments that launch the server script.
pub open spec fn launch_args(script: Seq<char>, data_dir: Seq<char>) -> Seq<Seq<char>> {
    seq![script, "--host"@, DEFAULT_HOST@, "--port"@, decimal(DEFAULT_PORT as nat), "--data-dir"@, data_dir]
}

/// Whether a start must spawn a process: none of ours is alive and no
/// server (perhaps started by someone else) already answers its health
/// endpoint.
pub fn spawn_needed(needs_start: bool, already_answering: bool) -> (r: bool)
    ensures
        r == (needs_start && !already_answering),
{
    needs_start && !already_answering
}

/// The interpreter to run the server with: the override from the
/// environment, else `python3` from the search path.
pub fn resolve_python(env_override: Option<String>) -> (r: String)
    ensures
        r@ == match env_override {
            Some(p) => p@,
            None => "python3"@,
        },
{
    match env_override {
        Some(p) => p,
        None => string_of("python3"),
    }
}

/// The server script: the first candidate that exists (candidates are
/// `backend/server.py` under the executable's ancestors, nearest first),
/// else `backend/server.py` relative to the working directory.
pub fn resolve_server_script(candidates: &Vec<String>, exists: &Vec<bool>) -> (r: String)
    requires
        candidates@.len() == exists@.len(),
    ensures
        (exists|i: int| 0 <= i < exists@.len() && exists@[i]) ==> (exists|i: int|
            0 <= i < exists@.len() && exists@[i] && r@ == candidates@[i]@ && (forall|j: int|
                0 <= j < i ==> !exists@[j])),
        (forall|i: int| 0 <= i < exists@.len() ==> !exists@[i]) ==> r@ == joined_path("backend"@, "server.py"@),
{
    let mut i: usize = 0;
    while i < candidates.len()
        invariant
            i <= candidates@.len(),
            candidates@.len() == exists@.len(),
            forall|j: int| 0 <= j < i ==> !exists@[j],
        decreases candidates@.len() - i,
    {
        if exists[i] {
            return candidates[i].clone();
        }
        i = i + 1;
    }
    join_path("backend", "server.py")
}

/// The directory the server keeps its data in; fails when the user's
/// configuration directory cannot be determined.
pub fn server_data_dir() -> (r: Result<String, TtsError>)
    ensures
        match r {
            Ok(p) => exists|d: Seq<char>| p@ == joined_path(d, "voicebox-data"@),
            Err(e) => e is ConfigUnavailable,
        },
{
    match config_dir() {
        Ok(d) => Ok(join_path(d.as_str(), "voicebox-data")),
        Err(e) => Err(e),
    }
}

/// The subprocess that launches the server script with an interpreter, on
/// the fixed host and port, with its data directory.
pub fn launch_command(python: String, script: &str, data_dir: &str) -> (r: CommandSpec)
    ensures
        r@ == (CommandView { program: python@, args: launch_args(script@, data_dir@), stdin_text: None, audio_file: None }),
{
    let mut args: Vec<String> = Vec::new();
    push_arg(&mut args, string_of(script));
    push_arg(&mut args, string_of("--host"));
    push_arg(&mut args, string_of(DEFAULT_HOST));
    push_arg(&mut args, string_of("--port"));
    let mut port = String::new();
    push_decimal(&mut port, DEFAULT_PORT as u64);
    assert(port@ =~= decimal(DEFAULT_PORT as nat));
    push_arg(&mut args, port);
    push_arg(&mut args, string_of("--data-dir"));
    push_arg(&mut args, string_of(data_dir));
    assert(strings_view(args@) =~= launch_args(script@, data_dir@));
    CommandSpec { program: python, args, stdin_text: None, audio_file: None }
}

impl ServerProcess {
    /// Whether the phase agrees with the held child.
    pub open spec fn well_formed(&self) -> bool {
        supervisor_wf(self@)
    }

    /// A supervisor for the server at the default loopback address; nothing
    /// held.
    pub fn new() -> (r: Self)
        ensures
            r.well_formed(),
            r@.url == "http://"@ + DEFAULT_HOST@ + ":"@ + decimal(DEFAULT_PORT as nat),
            !r@.child_held,
            r@.phase == ServerPhase::NotRunning,
    {
        let mut url = string_of("http://");
        push_str(&mut url, DEFAULT_HOST);
        push_str(&mut url, ":");
        push_decimal(&mut url, DEFAULT_PORT as u64);
        ServerProcess { server_url: url, child_held: false, phase: ServerPhase::NotRunning }
    }

    /// The server's base URL.
    pub fn server_url(&self) -> (r: &String)
        ensures
            r@ == self@.url,
    {
        &self.server_url
    }

    /// The health endpoint.
    pub fn health_url(&self) -> (r: String)
        ensures
            r@ == self@.url + "/health"@,
    {
        let mut u = self.server_url.clone();
        push_str(&mut u, "/health");
        u
    }

    /// The phase.
    pub fn phase(&self) -> (r: ServerPhase)
        ensures
            r == self@.phase,
    {
        self.phase
    }

    /// Whether a child is held.
    pub fn holds_child(&self) -> (r: bool)
        ensures
            r == self@.child_held,
    {
        self.child_held
    }

    /// Whether the held child is alive, given a non-blocking look at it
    /// (ignored when nothing is held). A child that exited, or that
    /// cannot be looked at, is dropped so that a later start spawns anew.
    pub fn is_running(&mut self, probe: ExitProbe) -> (r: bool)
        requires
            old(self).well_formed(),
        ensures
            final(self).well_formed(),
            r == alive(old(self)@, probe),
            final(self)@ == probed(old(self)@, probe),
    {
        if !self.child_held {
            return false;
        }
        match probe {
            ExitProbe::Running => true,
            _ => {
                self.child_held = false;
                self.phase = ServerPhase::NotRunning;
                false
            },
        }
    }

    /// First step of a start: whether a process must be spawned, which is
    /// when no held child is alive. Spawning is the caller's, who then
    /// reports it to `record_spawn`.
    pub fn start(&mut self, probe: ExitProbe) -> (needs_spawn: bool)
        requires
            old(self).well_formed(),
        ensures
            final(self).well_formed(),
            needs_spawn == !alive(old(self)@, probe),
            final(self)@.url == old(self)@.url,
            final(self)@ == probed(old(self)@, probe),
    {
        !self.is_running(probe)
    }

    /// Last step of a start: records the spawned child, or reports why it
    /// could not be spawned.
    pub fn record_spawn(&mut self, spawn: Result<(), String>) -> (r: Result<(), TtsError>)
        requires
            old(self).well_formed(),
        ensures
            final(self).well_formed(),
            final(self)@ == spawned(old(self)@, spawn is Ok),
            spawn is Ok ==> r is Ok,
            spawn is Err ==> (r matches Err(e) && e is ProcessSpawnFailure
                && e.text() == "Failed to spawn the server process: "@ + spawn->Err_0@),
    {
        match spawn {
            Ok(()) => {
                self.child_held = true;
                self.phase = ServerPhase::Starting;
                Ok(())
            },
            Err(d) => {
                let mut m = string_of("Failed to spawn the server process: ");
                push_str(&mut m, d.as_str());
                Err(TtsError::ProcessSpawnFailure(m))
            },
        }
    }

    /// A health check of the server with the default ceiling of polls.
    pub fn health_check(&self) -> (r: HealthCheck)
        ensures
            r.polls_made() == 0,
            r.ceiling() == HEALTH_MAX_RETRIES,
    {
        HealthCheck::new(HEALTH_MAX_RETRIES)
    }

    /// Records that the health check passed.
    pub fn mark_healthy(&mut self)
        requires
            old(self).well_formed(),
        ensures
            final(self).well_formed(),
            final(self)@ == (SupervisorView { phase: ServerPhase::Healthy, ..old(self)@ }),
    {
        self.phase = ServerPhase::Healthy;
    }

    /// First step of a stop: the shutdown request to send, and the bounded
    /// wait when a child is held.
    pub fn stop(&mut self) -> (r: StopPlan)
        requires
            old(self).well_formed(),
        ensures
            final(self).well_formed(),
            r.shutdown_url@ == old(self)@.url + "/shutdown"@,
            r.wait_ms == if old(self)@.child_held {
                Some(SHUTDOWN_GRACE_PERIOD_MS)
            } else {
                None::<u64>
            },
            final(self)@.url == old(self)@.url,
            final(self)@.child_held == old(self)@.child_held,
            final(self)@.phase == if old(self)@.child_held {
                ServerPhase::Stopping
            } else {
                old(self)@.phase
            },
    {
        let mut u = self.server_url.clone();
        push_str(&mut u, "/shutdown");
        if self.child_held {
            self.phase = ServerPhase::Stopping;
            StopPlan { shutdown_url: u, wait_ms: Some(SHUTDOWN_GRACE_PERIOD_MS) }
        } else {
            StopPlan { shutdown_url: u, wait_ms: None }
        }
    }

    /// Last step of a stop: what to do with the child given how the wait
    /// ended (`Kill` when the grace period elapsed); the child is no longer
    /// held afterwards, whichever way it went. Never fails.
    pub fn finish_stop(&mut self, waited: WaitOutcome) -> (r: StopAction)
        requires
            old(self).well_formed(),
        ensures
            final(self).well_formed(),
            r == stop_action(old(self)@, waited),
            final(self)@ == stopped(old(self)@),
    {
        let action = if !self.child_held {
            StopAction::Nothing
        } else {
            match waited {
                WaitOutcome::Exited => StopAction::Exited,
                WaitOutcome::TimedOut => StopAction::Kill,
            }
        };
        self.child_held = false;
        self.phase = ServerPhase::NotRunning;
        action
    }
}

/// What to do after one health poll.
#[derive(Debug, Clone, PartialEq)]
pub enum HealthStep {
    /// The server answered 2xx.
    Healthy,
    /// Wait this many milliseconds, then poll again.
    RetryAfter(u64),
    /// Every allowed poll failed.
    TimedOut(TtsError),
}

/// The health-check loop: counts polls up to a ceiling.
pub struct HealthCheck {
    polls: u32,
    max_polls: u32,
}

/// The step after a poll, given how many polls had been made before it and
/// the ceiling.
pub open spec fn health_step_kind(polls_before: nat, max_polls: nat, healthy: bool) -> int {
    if healthy {
        0
    } else if polls_before + 1 < max_polls {
        1
    } else {
        2
    }
}

impl HealthCheck {
    /// Polls made so far.
    pub closed spec fn polls_made(&self) -> nat {
        self.polls as nat
    }

    /// The ceiling.
    pub closed spec fn ceiling(&self) -> nat {
        self.max_polls as nat
    }

    /// A check allowing `max_polls` polls (at least one).
    pub fn new(max_polls: u32) -> (r: Self)
        requires
            max_polls >= 1,
        ensures
            r.polls_made() == 0,
            r.ceiling() == max_polls,
    {
        HealthCheck { polls: 0, max_polls }
    }

    /// Polls made so far.
    pub fn polls(&self) -> (r: u32)
        ensures
            r == self.polls_made(),
    {
        self.polls
    }

    /// Whether another poll may be made.
    pub fn may_poll(&self) -> (r: bool)
        ensures
            r == (self.polls_made() < self.ceiling()),
    {
        self.polls < self.max_polls
    }

    /// Records one poll, given the status it got (none: no answer), and says
    /// what comes next: done on a 2xx status; else a pause of the fixed
    /// interval, or the timeout once the ceiling is reached.
    pub fn record(&mut self, status: Option<u16>) -> (r: HealthStep)
        requires
            old(self).polls_made() < old(self).ceiling(),
        ensures
            final(self).polls_made() == old(self).polls_made() + 1,
            final(self).ceiling() == old(self).ceiling(),
            health_step_kind(
                old(self).polls_made(),
                old(self).ceiling(),
                status matches Some(c) && 200 <= c <= 299,
            ) == match r {
                HealthStep::Healthy => 0int,
                HealthStep::RetryAfter(_) => 1int,
                HealthStep::TimedOut(_) => 2int,
            },
            r matches HealthStep::RetryAfter(ms) ==> ms == HEALTH_RETRY_INTERVAL_MS,
            r matches HealthStep::TimedOut(e) ==> e is HealthCheckTimeout && e.text()
                == "Server did not become healthy after "@ + decimal(old(self).ceiling()) + " attempts"@,
    {
        self.polls = self.polls + 1;
        let healthy = match status {
            Some(c) => 200 <= c && c <= 299,
            None => false,
        };
        if healthy {
            HealthStep::Healthy
        } else if self.polls < self.max_polls {
            HealthStep::RetryAfter(HEALTH_RETRY_INTERVAL_MS)
        } else {
            let mut m = string_of("Server did not become healthy after ");
            push_decimal(&mut m, self.max_polls as u64);
            push_str(&mut m, " attempts");
            HealthStep::TimedOut(TtsError::HealthCheckTimeout(m))
        }
    }
}

/// Starting twice with no stop and no exit in between spawns exactly one
/// process: the first start spawns, the second finds the child alive.
pub proof fn lemma_start_twice_spawns_once(s: SupervisorView, first_probe: ExitProbe)
    requires
        supervisor_wf(s),
        !s.child_held,
    ensures
        !alive(s, first_probe),
        alive(spawned(probed(s, first_probe), true), ExitProbe::Running),
{
}

/// Stopping a child that does not exit within the grace period kills it,
/// and the supervisor no longer holds it.
pub proof fn lemma_unresponsive_child_is_killed(s: SupervisorView)
    requires
        s.child_held,
    ensures
        stop_action(s, WaitOutcome::TimedOut) == StopAction::Kill,
        !stopped(s).child_held,
        stopped(s).phase == ServerPhase::NotRunning,
{
}

/// Against a server that never answers 2xx, a check with ceiling `n`
/// pauses the fixed interval after each of its first `n - 1` polls and
/// times out at poll `n`: exactly `n` polls.
pub proof fn lemma_timeout_after_exactly_n_polls(n: nat, k: nat)
    requires
        1 <= k <= n,
    ensures
        k < n ==> health_step_kind((k - 1) as nat, n, false) == 1,
        k == n ==> health_step_kind((k - 1) as nat, n, false) == 2,
{
}

} // verus!
