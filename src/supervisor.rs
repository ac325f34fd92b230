use vstd::prelude::*;
use crate::log_event::{Level, LogEvent, log_event, log_event_with};

verus! {

/// Logical name under which the backend executable is packaged.
pub const BACKEND_SIDECAR: &'static str = "binaries/backend";

pub const STARTED_MESSAGE: &'static str = "Backend sidecar started successfully";

pub const RESOLVE_FAILED_PREFIX: &'static str = "ResolveFailed: failed to create sidecar command: ";

pub const SPAWN_FAILED_PREFIX: &'static str = "SpawnFailed: failed to start backend sidecar: ";

pub const ALREADY_RUNNING_MESSAGE: &'static str =
    "SpawnFailed: AlreadyRunning: the backend sidecar was already spawned";

pub const CHILD_EXITED_MESSAGE: &'static str =
    "ChildExited: the backend sidecar exited and will not be restarted";

/// Lifecycle of the backend child process, as the supervisor observes it.
#[derive(Clone, Copy, Debug, PartialEq, Eq, Structural)]
pub enum ChildState {
    Unspawned,
    Spawning,
    Running,
    Exited,
    Failed,
}

/// Why a spawn did not happen.
#[derive(Clone, Debug, PartialEq, Eq)]
pub enum SpawnError {
    /// The operating system refused to create the process; the cause as reported.
    Os(String),
    /// A spawn was already attempted during this shell lifetime.
    AlreadyRunning,
}

/// Result of one call of `supervise`.
#[derive(Clone, Debug, PartialEq, Eq)]
pub enum SupervisionOutcome {
    Started,
    /// The logical name could not be mapped to an executable; the cause as reported.
    ResolveFailed(String),
    SpawnFailed(SpawnError),
}

pub open spec fn outcome_level(o: SupervisionOutcome) -> Level {
    match o {
        SupervisionOutcome::Started => Level::Info,
        _ => Level::Error,
    }
}

pub open spec fn outcome_text(o: SupervisionOutcome) -> Seq<char> {
    match o {
        SupervisionOutcome::Started => STARTED_MESSAGE@,
        SupervisionOutcome::ResolveFailed(cause) => RESOLVE_FAILED_PREFIX@ + cause@,
        SupervisionOutcome::SpawnFailed(SpawnError::Os(cause)) => SPAWN_FAILED_PREFIX@ + cause@,
        SupervisionOutcome::SpawnFailed(SpawnError::AlreadyRunning) => ALREADY_RUNNING_MESSAGE@,
    }
}

/// The one log event that reports an outcome: info for a start, error for a
/// failure, naming the failure kind and its cause.
pub fn outcome_event(o: &SupervisionOutcome) -> (e: LogEvent)
    ensures
        e.is(outcome_level(*o), outcome_text(*o)),
{
    match o {
        SupervisionOutcome::Started => log_event(Level::Info, STARTED_MESSAGE),
        SupervisionOutcome::ResolveFailed(cause) => log_event_with(
            Level::Error,
            RESOLVE_FAILED_PREFIX,
            cause,
        ),
        SupervisionOutcome::SpawnFailed(SpawnError::Os(cause)) => log_event_with(
            Level::Error,
            SPAWN_FAILED_PREFIX,
            cause,
        ),
        SupervisionOutcome::SpawnFailed(SpawnError::AlreadyRunning) => log_event(
            Level::Error,
            ALREADY_RUNNING_MESSAGE,
        ),
    }
}

/// Single-shot supervisor of the backend sidecar.
///
/// A call of `supervise` is split at its two outside steps: `begin` opens it,
/// the host resolves the logical name and reports to `on_resolved`, then spawns
/// and reports to `on_spawned`.
#[derive(Clone, Copy, Debug, PartialEq, Eq, Structural)]
pub struct Supervisor {
    pub state: ChildState,
    /// While `Spawning`: the name resolved and the spawn itself is pending.
    pub resolved: bool,
    /// Shutdown of the shell was requested.
    pub stopping: bool,
    /// Spawns handed to the host so far.
    pub spawn_attempts: u64,
}

impl Supervisor {
    pub open spec fn wf(self) -> bool {
        &&& self.spawn_attempts <= 1
        &&& self.state == ChildState::Unspawned ==> self.spawn_attempts == 0 && !self.resolved
        &&& self.state == ChildState::Spawning ==> (self.resolved <==> self.spawn_attempts == 1)
        &&& (self.state == ChildState::Running || self.state == ChildState::Exited)
            ==> self.spawn_attempts == 1
    }

    pub open spec fn initial() -> Supervisor {
        Supervisor {
            state: ChildState::Unspawned,
            resolved: false,
            stopping: false,
            spawn_attempts: 0,
        }
    }

    /// The shell may terminate: no child is running or being created.
    pub open spec fn spec_may_exit(self) -> bool {
        self.state != ChildState::Running && self.state != ChildState::Spawning
    }

    pub fn new() -> (s: Supervisor)
        ensures
            s == Supervisor::initial(),
            s.wf(),
    {
        Supervisor {
            state: ChildState::Unspawned,
            resolved: false,
            stopping: false,
            spawn_attempts: 0,
        }
    }

    /// Opens a call of `supervise`. The first call moves to `Spawning` and
    /// returns `None`: the host is to resolve the sidecar. Any later call
    /// changes nothing and returns `SpawnFailed(AlreadyRunning)`.
    pub fn begin(&mut self) -> (r: Option<SupervisionOutcome>)
        requires
            old(self).wf(),
        ensures
            final(self).wf(),
            old(self).state == ChildState::Unspawned ==> r is None && *final(self) == (
            Supervisor { state: ChildState::Spawning, resolved: false, ..*old(self) }),
            old(self).state != ChildState::Unspawned ==> r == Some(
                SupervisionOutcome::SpawnFailed(SpawnError::AlreadyRunning),
            ) && *final(self) == *old(self),
    {
        match self.state {
            ChildState::Unspawned => {
                self.state = ChildState::Spawning;
                self.resolved = false;
                None
            },
            _ => Some(SupervisionOutcome::SpawnFailed(SpawnError::AlreadyRunning)),
        }
    }

    /// Takes the result of resolving the logical name. On success the spawn
    /// is counted and `None` tells the host to spawn; on failure the child is
    /// `Failed` and the outcome is `ResolveFailed` with the cause.
    pub fn on_resolved(&mut self, res: Result<(), String>) -> (r: Option<SupervisionOutcome>)
        requires
            old(self).wf(),
            old(self).state == ChildState::Spawning,
            !old(self).resolved,
        ensures
            final(self).wf(),
            res is Ok ==> r is None && *final(self) == (Supervisor {
                resolved: true,
                spawn_attempts: 1,
                ..*old(self)
            }),
            res is Err ==> r == Some(SupervisionOutcome::ResolveFailed(res->Err_0))
                && *final(self) == (Supervisor { state: ChildState::Failed, ..*old(self) }),
    {
        match res {
            Ok(()) => {
                self.resolved = true;
                self.spawn_attempts = self.spawn_attempts + 1;
                None
            },
            Err(cause) => {
                self.state = ChildState::Failed;
                Some(SupervisionOutcome::ResolveFailed(cause))
            },
        }
    }

    /// Takes the result of the spawn: `Running` and `Started`, or `Failed` and
    /// `SpawnFailed` with the operating system's cause.
    pub fn on_spawned(&mut self, res: Result<(), String>) -> (r: SupervisionOutcome)
        requires
            old(self).wf(),
            old(self).state == ChildState::Spawning,
            old(self).resolved,
        ensures
            final(self).wf(),
            res is Ok ==> r == SupervisionOutcome::Started && *final(self) == (Supervisor {
                state: ChildState::Running,
                ..*old(self)
            }),
            res is Err ==> r == SupervisionOutcome::SpawnFailed(SpawnError::Os(res->Err_0))
                && *final(self) == (Supervisor { state: ChildState::Failed, ..*old(self) }),
    {
        match res {
            Ok(()) => {
                self.state = ChildState::Running;
                SupervisionOutcome::Started
            },
            Err(cause) => {
                self.state = ChildState::Failed;
                SupervisionOutcome::SpawnFailed(SpawnError::Os(cause))
            },
        }
    }

    /// Records that the shell is shutting down. Returns whether a running
    /// child must be terminated before the shell exits.
    pub fn request_stop(&mut self) -> (must_terminate: bool)
        requires
            old(self).wf(),
            old(self).state != ChildState::Spawning,
        ensures
            final(self).wf(),
            *final(self) == (Supervisor { stopping: true, ..*old(self) }),
            must_terminate == (old(self).state == ChildState::Running),
    {
        self.stopping = true;
        match self.state {
            ChildState::Running => true,
            _ => false,
        }
    }

    /// Records the observed termination of the running child. A spontaneous
    /// exit is reported by one error event and not restarted; an exit during
    /// shutdown is expected and not reported.
    pub fn on_child_exited(&mut self) -> (e: Option<LogEvent>)
        requires
            old(self).wf(),
            old(self).state == ChildState::Running,
        ensures
            final(self).wf(),
            *final(self) == (Supervisor { state: ChildState::Exited, ..*old(self) }),
            old(self).stopping ==> e is None,
            !old(self).stopping ==> e is Some && e->Some_0.is(Level::Error, CHILD_EXITED_MESSAGE@),
    {
        self.state = ChildState::Exited;
        if self.stopping {
            None
        } else {
            Some(log_event(Level::Error, CHILD_EXITED_MESSAGE))
        }
    }

    /// Whether the shell may terminate now.
    pub fn may_exit(&self) -> (r: bool)
        ensures
            r == self.spec_may_exit(),
    {
        match self.state {
            ChildState::Running | ChildState::Spawning => false,
            _ => true,
        }
    }
}

} // verus!
