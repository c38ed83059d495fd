//! The supervisor: owns the tracked workers and the discovered port, and
//! sequences startup and shutdown as a state machine that the host drives.

use vstd::prelude::*;
use crate::discovery::{PollStep, PortPoller};
use crate::shutdown::{shutdown_plan, shutdown_plan_spec, ShutdownAction, TerminationStrategy};
use crate::text::{decimal, push_decimal, port_of, texts};

verus! {

/// Default budget for port discovery.
pub const PORT_FILE_TIMEOUT_MS: u64 = 30000;

/// Default interval between two reads of the port file.
pub const PORT_FILE_POLL_MS: u64 = 100;

/// Default grace window between the exit request and the forced kill.
pub const GRACEFUL_TIMEOUT_MS: u64 = 3000;

/// Where the supervisor stands.
#[derive(Debug, Clone, Copy, PartialEq, Eq, Structural)]
pub enum Phase {
    Uninitialized,
    StartingDependencies,
    LaunchingProcesses,
    WaitingForPort,
    Ready,
    ShuttingDown,
    Stopped,
    Failed,
}

/// Why startup did not reach `Ready`.
#[derive(Debug, Clone, Copy, PartialEq, Eq, Structural)]
pub enum StartError {
    /// The task runner that installs and launches the backend is missing.
    ToolingNotFound,
    /// Startup was asked for a second time; a supervisor starts once.
    AlreadyStarted,
    /// The backend process could not be created.
    Launch,
    /// No port was advertised in time; carries the elapsed milliseconds.
    PortDiscoveryTimeout(u64),
}

/// What the supervisor holds, as plain values.
pub struct ManagerState {
    pub phase: Phase,
    pub processes: Seq<u32>,
    pub port: Option<u16>,
    pub poller: PortPoller,
    pub strategy: TerminationStrategy,
    pub grace_ms: u64,
}

/// The supervisor of the backend workers.
pub struct BackendManager {
    phase: Phase,
    processes: Vec<u32>,
    port: Option<u16>,
    poller: PortPoller,
    strategy: TerminationStrategy,
    grace_ms: u64,
}

/// The URL at which the backend listens on `port`.
pub open spec fn url_of(port: u16) -> Seq<char> {
    "http://127.0.0.1:"@ + decimal(port as nat)
}

/// The arguments of the dependency sync, with the mirror index where one is
/// wanted.
pub open spec fn sync_args_spec(use_mirror: bool) -> Seq<Seq<char>> {
    if use_mirror {
        seq!["sync"@, "--frozen"@, "--index-url"@, "https://mirrors.aliyun.com/pypi/simple/"@]
    } else {
        seq!["sync"@, "--frozen"@]
    }
}

/// The arguments that launch the backend's main module.
pub open spec fn launch_args_spec() -> Seq<Seq<char>> {
    seq!["run"@, "-m"@, "valuecell.server.main"@]
}

/// The well-formed supervisor states: a port only once it has been found,
/// and then for good; `Ready` only with a port and the worker that gave it.
pub open spec fn state_wf(s: ManagerState) -> bool {
    &&& s.poller.wf()
    &&& (s.port matches Some(p) ==> 1 <= p && (s.phase == Phase::Ready || s.phase
        == Phase::ShuttingDown || s.phase == Phase::Stopped))
    &&& (s.phase == Phase::Ready ==> s.port is Some && s.processes.len() == 1)
    &&& (s.phase == Phase::Uninitialized || s.phase == Phase::StartingDependencies || s.phase
        == Phase::LaunchingProcesses ==> s.processes.len() == 0 && s.port is None)
    &&& (s.phase == Phase::WaitingForPort ==> s.processes.len() == 1 && s.port is None)
}

/// The effect of a stop: every tracked worker is handed to the shutdown
/// plan and forgotten, and the supervisor is shutting down until the host
/// reports the plan carried out. With nothing tracked, nothing changes.
pub open spec fn stop_spec(s: ManagerState) -> (ManagerState, Seq<ShutdownAction>) {
    if s.processes.len() == 0 {
        (s, Seq::empty())
    } else {
        (
            ManagerState { phase: Phase::ShuttingDown, processes: Seq::empty(), ..s },
            shutdown_plan_spec(s.processes, s.strategy, s.grace_ms),
        )
    }
}

/// A second stop right after a first does nothing and plans nothing.
pub proof fn lemma_stop_idempotent(s: ManagerState)
    ensures
        stop_spec(stop_spec(s).0) == (stop_spec(s).0, Seq::<ShutdownAction>::empty()),
{
}

/// A stop leaves no worker tracked, plans the forced kill of every worker
/// that was tracked and of its descendants, and keeps the state well formed.
pub proof fn lemma_stop_releases_all(s: ManagerState)
    requires
        state_wf(s),
    ensures
        stop_spec(s).0.processes.len() == 0,
        state_wf(stop_spec(s).0),
        forall|k: int|
            0 <= k < s.processes.len() ==> stop_spec(s).1.contains(
                ShutdownAction::Kill(#[trigger] s.processes[k]),
            ),
        forall|k: int|
            0 <= k < s.processes.len() ==> crate::shutdown::descendants_killed_in(
                stop_spec(s).1,
                #[trigger] s.processes[k],
            ),
{
    crate::shutdown::lemma_shutdown_kills_every_worker(s.processes, s.strategy, s.grace_ms);
}

impl View for BackendManager {
    type V = ManagerState;

    closed spec fn view(&self) -> ManagerState {
        ManagerState {
            phase: self.phase,
            processes: self.processes@,
            port: self.port,
            poller: self.poller,
            strategy: self.strategy,
            grace_ms: self.grace_ms,
        }
    }
}

impl BackendManager {
    /// A supervisor with the default timing: 30 s for port discovery, a read
    /// every 100 ms, a 3 s grace window.
    pub fn new(strategy: TerminationStrategy) -> (r: BackendManager)
        ensures
            state_wf(r@),
            r@.phase == Phase::Uninitialized,
            r@.processes.len() == 0,
            r@.port is None,
            r@.poller.timeout_ms == PORT_FILE_TIMEOUT_MS,
            r@.poller.poll_ms == PORT_FILE_POLL_MS,
            r@.strategy == strategy,
            r@.grace_ms == GRACEFUL_TIMEOUT_MS,
    {
        Self::with_timing(strategy, PORT_FILE_TIMEOUT_MS, PORT_FILE_POLL_MS, GRACEFUL_TIMEOUT_MS)
    }

    /// A supervisor with the given discovery budget, poll interval and grace
    /// window, in milliseconds.
    pub fn with_timing(
        strategy: TerminationStrategy,
        timeout_ms: u64,
        poll_ms: u64,
        grace_ms: u64,
    ) -> (r: BackendManager)
        requires
            0 < poll_ms < timeout_ms,
        ensures
            state_wf(r@),
            r@.phase == Phase::Uninitialized,
            r@.processes.len() == 0,
            r@.port is None,
            r@.poller.timeout_ms == timeout_ms,
            r@.poller.poll_ms == poll_ms,
            r@.strategy == strategy,
            r@.grace_ms == grace_ms,
    {
        BackendManager {
            phase: Phase::Uninitialized,
            processes: Vec::new(),
            port: None,
            poller: PortPoller::new(timeout_ms, poll_ms),
            strategy,
            grace_ms,
        }
    }

    pub fn phase(&self) -> (r: Phase)
        ensures
            r == self@.phase,
    {
        self.phase
    }

    /// The workers being tracked, by process id.
    pub fn tracked_processes(&self) -> (r: Vec<u32>)
        ensures
            r@ == self@.processes,
    {
        self.processes.clone()
    }

    /// Starts the startup sequence. Fails with `ToolingNotFound`, for good,
    /// where the task runner is missing; otherwise hands back the arguments
    /// of the dependency sync to run. A supervisor that has already been
    /// started answers `AlreadyStarted` and stays as it is, its port
    /// included.
    pub fn start_all(&mut self, tooling_found: bool, use_mirror: bool) -> (r: Result<
        Vec<String>,
        StartError,
    >)
        requires
            state_wf(old(self)@),
        ensures
            state_wf(final(self)@),
            final(self)@.port == old(self)@.port,
            old(self)@.phase != Phase::Uninitialized ==> r == Err::<Vec<String>, StartError>(
                StartError::AlreadyStarted,
            ) && final(self)@ == old(self)@,
            old(self)@.phase == Phase::Uninitialized ==> {
                &&& final(self)@ == (ManagerState {
                    phase: if tooling_found {
                        Phase::StartingDependencies
                    } else {
                        Phase::Failed
                    },
                    ..old(self)@
                })
                &&& (tooling_found <==> r is Ok)
                &&& (r matches Ok(args) ==> texts(args@) == sync_args_spec(use_mirror))
                &&& (r matches Err(e) ==> e == StartError::ToolingNotFound)
            },
    {
        match self.phase {
            Phase::Uninitialized => {},
            _ => {
                return Err(StartError::AlreadyStarted);
            },
        }
        if !tooling_found {
            self.phase = Phase::Failed;
            return Err(StartError::ToolingNotFound);
        }
        self.phase = Phase::StartingDependencies;
        let mut args = vec![String::from_str("sync"), String::from_str("--frozen")];
        if use_mirror {
            args.push(String::from_str("--index-url"));
            args.push(String::from_str("https://mirrors.aliyun.com/pypi/simple/"));
        }
        assert(texts(args@) =~= sync_args_spec(use_mirror));
        Ok(args)
    }

    /// The dependency sync has ended. Its outcome does not matter: an
    /// environment synced before may serve. Hands back the arguments that
    /// launch the backend.
    pub fn dependencies_synced(&mut self) -> (r: Vec<String>)
        requires
            state_wf(old(self)@),
            old(self)@.phase == Phase::StartingDependencies,
        ensures
            state_wf(final(self)@),
            final(self)@ == (ManagerState { phase: Phase::LaunchingProcesses, ..old(self)@ }),
            texts(r@) == launch_args_spec(),
    {
        self.phase = Phase::LaunchingProcesses;
        let r = vec![
            String::from_str("run"),
            String::from_str("-m"),
            String::from_str("valuecell.server.main"),
        ];
        assert(texts(r@) =~= launch_args_spec());
        r
    }

    /// The launch of the backend has ended: `Some(pid)` where the process
    /// runs, which is then tracked; `None` where it could not be created,
    /// which fails startup.
    pub fn process_spawned(&mut self, pid: Option<u32>) -> (r: Result<(), StartError>)
        requires
            state_wf(old(self)@),
            old(self)@.phase == Phase::LaunchingProcesses,
        ensures
            state_wf(final(self)@),
            pid is Some <==> r is Ok,
            r matches Err(e) ==> e == StartError::Launch,
            final(self)@ == (match pid {
                Some(p) => ManagerState {
                    phase: Phase::WaitingForPort,
                    processes: old(self)@.processes.push(p),
                    ..old(self)@
                },
                None => ManagerState { phase: Phase::Failed, ..old(self)@ },
            }),
    {
        match pid {
            Some(p) => {
                self.processes.push(p);
                self.phase = Phase::WaitingForPort;
                Ok(())
            },
            None => {
                self.phase = Phase::Failed;
                Err(StartError::Launch)
            },
        }
    }

    /// One read of the port file while waiting for the port: `elapsed_ms`
    /// since the wait began, measured before the read, and the file's text
    /// where it could be read. On `Found` the port is stored and the
    /// supervisor is ready; on `TimedOut` startup has failed; on `Sleep` the
    /// host sleeps as told and reads again.
    pub fn port_observed(&mut self, elapsed_ms: u64, file_text: Option<&str>) -> (r: PollStep)
        requires
            state_wf(old(self)@),
            old(self)@.phase == Phase::WaitingForPort,
        ensures
            state_wf(final(self)@),
            r == old(self)@.poller.step_spec(
                elapsed_ms,
                match file_text {
                    Some(t) => port_of(t@),
                    None => None,
                },
            ),
            r matches PollStep::Found(_) ==> elapsed_ms < old(self)@.poller.timeout_ms,
            final(self)@ == (match r {
                PollStep::Found(p) => ManagerState {
                    phase: Phase::Ready,
                    port: Some(p),
                    ..old(self)@
                },
                PollStep::TimedOut(_) => ManagerState { phase: Phase::Failed, ..old(self)@ },
                PollStep::Sleep(_) => old(self)@,
            }),
    {
        let step = self.poller.observe(elapsed_ms, file_text);
        match step {
            PollStep::Found(p) => {
                self.port = Some(p);
                self.phase = Phase::Ready;
            },
            PollStep::TimedOut(_) => {
                self.phase = Phase::Failed;
            },
            PollStep::Sleep(_) => {},
        }
        step
    }

    /// Stops every tracked worker: hands back, in order, the actions that
    /// terminate each of them and forgets them. With nothing tracked this
    /// changes nothing and hands back nothing.
    pub fn stop_all(&mut self) -> (r: Vec<ShutdownAction>)
        requires
            state_wf(old(self)@),
        ensures
            state_wf(final(self)@),
            (final(self)@, r@) == stop_spec(old(self)@),
    {
        if self.processes.len() == 0 {
            return Vec::new();
        }
        let r = shutdown_plan(&self.processes, self.strategy, self.grace_ms);
        self.processes = Vec::new();
        self.phase = Phase::ShuttingDown;
        proof {
            assert(self.processes@ =~= Seq::<u32>::empty());
        }
        r
    }

    /// The host has carried out the shutdown plan.
    pub fn shutdown_finished(&mut self)
        requires
            state_wf(old(self)@),
            old(self)@.phase == Phase::ShuttingDown,
        ensures
            state_wf(final(self)@),
            final(self)@ == (ManagerState { phase: Phase::Stopped, ..old(self)@ }),
    {
        self.phase = Phase::Stopped;
    }

    /// The port the backend listens on, once discovered.
    pub fn get_port(&self) -> (r: Option<u16>)
        ensures
            r == self@.port,
    {
        self.port
    }

    /// The URL of the backend, `http://127.0.0.1:<port>`, once the port is
    /// discovered.
    pub fn get_backend_url(&self) -> (r: Option<String>)
        ensures
            r is Some <==> self@.port is Some,
            r matches Some(u) ==> u@ == url_of(self@.port->0),
    {
        match self.port {
            Some(p) => {
                let mut u = String::from_str("http://127.0.0.1:");
                push_decimal(&mut u, p as u32);
                Some(u)
            },
            None => None,
        }
    }
}

} // verus!
