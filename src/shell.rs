use vstd::prelude::*;
use crate::log_event::{Level, LogEvent, log_event};
use crate::supervisor::{
    ChildState, Supervisor, SupervisionOutcome, outcome_event, outcome_level, outcome_text,
};

verus! {

pub const MANUAL_BACKEND_MESSAGE: &'static str =
    "Debug mode: backend should be started manually with 'uvicorn app.main:app --reload'";

/// How the shell was built; fixed for the lifetime of the process.
#[derive(Clone, Copy, Debug, PartialEq, Eq, Structural)]
pub enum BuildMode {
    Development,
    Release,
}

/// Release builds supervise the sidecar; development builds do not.
pub fn is_release(mode: BuildMode) -> (r: bool)
    ensures
        r == (mode == BuildMode::Release),
{
    match mode {
        BuildMode::Release => true,
        BuildMode::Development => false,
    }
}

/// A plugin the shell registers with the host during setup.
#[derive(Clone, Copy, Debug, PartialEq, Eq, Structural)]
pub enum Plugin {
    Log,
    ShellServices,
}

/// The host rejected a plugin; the cause as reported.
#[derive(Clone, Debug, PartialEq, Eq)]
pub struct AttachError {
    pub plugin: Plugin,
    pub cause: String,
}

/// Where the shell stands in its lifetime.
#[derive(Clone, Copy, Debug, PartialEq, Eq, Structural)]
pub enum Stage {
    /// Waiting for the host to register the shell-services plugin.
    RegisteringShell,
    /// Development: waiting for the host to attach the log sink.
    AttachingLog,
    /// Release: a call of `supervise` is in progress.
    Supervising,
    /// The main window is presented and the event loop runs.
    Serving,
    /// Shutdown requested; waiting for the child to terminate.
    Stopping,
    /// The shell may terminate.
    Stopped,
    /// Setup failed; the host aborts startup.
    Aborted,
}

/// What the host reports to the shell.
#[derive(Debug, PartialEq, Eq)]
pub enum Event {
    ShellRegistered(Result<(), AttachError>),
    LogAttached(Result<(), AttachError>),
    /// Result of resolving the sidecar's logical name, with the cause on failure.
    Resolved(Result<(), String>),
    /// Result of spawning the sidecar, with the cause on failure.
    Spawned(Result<(), String>),
    /// The running child terminated.
    ChildExited,
    /// The user or the host asked the shell to exit.
    ExitRequested,
}

/// What the shell asks the host to do next.
#[derive(Clone, Debug, PartialEq, Eq)]
pub enum Directive {
    /// Attach the log sink with this minimum level.
    AttachLog(Level),
    /// Resolve the sidecar `BACKEND_SIDECAR`.
    ResolveSidecar,
    /// Spawn the resolved sidecar, keeping its handles.
    SpawnSidecar,
    /// Create and show the main window.
    PresentWindow,
    /// Fail setup with this error.
    Abort(AttachError),
    /// Terminate the running child.
    TerminateChild,
    /// Let the shell process terminate.
    Exit,
    /// Nothing to do.
    Continue,
}

/// The reply to one event: at most one log event to write first, then one directive.
#[derive(Clone, Debug, PartialEq, Eq)]
pub struct Output {
    pub log: Option<LogEvent>,
    pub directive: Directive,
}

/// The shell's lifecycle: setup, the build-mode gate, supervision and shutdown.
#[derive(Clone, Copy, Debug, PartialEq, Eq, Structural)]
pub struct Shell {
    pub mode: BuildMode,
    pub stage: Stage,
    pub supervisor: Supervisor,
}

pub open spec fn quiet(o: Output, d: Directive) -> bool {
    o.log is None && o.directive == d
}

/// Reports `outcome` and presents the window.
pub open spec fn reports(o: Output, outcome: SupervisionOutcome) -> bool {
    &&& o.log is Some
    &&& o.log->Some_0.is(outcome_level(outcome), outcome_text(outcome))
    &&& o.directive == Directive::PresentWindow
}

/// One transition: from `s`, on event `e`, the shell becomes `t` and replies `o`.
/// An event that the current stage does not expect changes nothing.
pub open spec fn step_spec(s: Shell, e: Event, t: Shell, o: Output) -> bool {
    let sup = s.supervisor;
    match e {
        Event::ShellRegistered(res) if s.stage == Stage::RegisteringShell => match res {
            Ok(_) => match s.mode {
                BuildMode::Development => t == (Shell { stage: Stage::AttachingLog, ..s })
                    && quiet(o, Directive::AttachLog(Level::Info)),
                BuildMode::Release => t == (Shell {
                    stage: Stage::Supervising,
                    supervisor: Supervisor { state: ChildState::Spawning, resolved: false, ..sup },
                    ..s
                }) && quiet(o, Directive::ResolveSidecar),
            },
            Err(err) => t == (Shell { stage: Stage::Aborted, ..s }) && quiet(
                o,
                Directive::Abort(err),
            ),
        },
        Event::LogAttached(res) if s.stage == Stage::AttachingLog => match res {
            Ok(_) => t == (Shell { stage: Stage::Serving, ..s }) && o.log is Some
                && o.log->Some_0.is(Level::Info, MANUAL_BACKEND_MESSAGE@) && o.directive
                == Directive::PresentWindow,
            Err(err) => t == (Shell { stage: Stage::Aborted, ..s }) && quiet(
                o,
                Directive::Abort(err),
            ),
        },
        Event::Resolved(res) if s.stage == Stage::Supervising && !sup.resolved => match res {
            Ok(_) => t == (Shell {
                supervisor: Supervisor { resolved: true, spawn_attempts: 1, ..sup },
                ..s
            }) && quiet(o, Directive::SpawnSidecar),
            Err(cause) => t == (Shell {
                stage: Stage::Serving,
                supervisor: Supervisor { state: ChildState::Failed, ..sup },
                ..s
            }) && reports(o, SupervisionOutcome::ResolveFailed(cause)),
        },
        Event::Spawned(res) if s.stage == Stage::Supervising && sup.resolved => match res {
            Ok(_) => t == (Shell {
                stage: Stage::Serving,
                supervisor: Supervisor { state: ChildState::Running, ..sup },
                ..s
            }) && reports(o, SupervisionOutcome::Started),
            Err(cause) => t == (Shell {
                stage: Stage::Serving,
                supervisor: Supervisor { state: ChildState::Failed, ..sup },
                ..s
            }) && reports(
                o,
                SupervisionOutcome::SpawnFailed(crate::supervisor::SpawnError::Os(cause)),
            ),
        },
        Event::ChildExited if s.stage == Stage::Serving && sup.state == ChildState::Running => t
            == (Shell { supervisor: Supervisor { state: ChildState::Exited, ..sup }, ..s })
            && o.log is Some && o.log->Some_0.is(
            Level::Error,
            crate::supervisor::CHILD_EXITED_MESSAGE@,
        ) && o.directive == Directive::Continue,
        Event::ChildExited if s.stage == Stage::Stopping => t == (Shell {
            stage: Stage::Stopped,
            supervisor: Supervisor { state: ChildState::Exited, ..sup },
            ..s
        }) && quiet(o, Directive::Exit),
        Event::ExitRequested if s.stage == Stage::Serving => if sup.state
            == ChildState::Running {
            t == (Shell {
                stage: Stage::Stopping,
                supervisor: Supervisor { stopping: true, ..sup },
                ..s
            }) && quiet(o, Directive::TerminateChild)
        } else {
            t == (Shell {
                stage: Stage::Stopped,
                supervisor: Supervisor { stopping: true, ..sup },
                ..s
            }) && quiet(o, Directive::Exit)
        },
        _ => t == s && quiet(o, Directive::Continue),
    }
}

impl Shell {
    pub open spec fn initial(mode: BuildMode) -> Shell {
        Shell { mode, stage: Stage::RegisteringShell, supervisor: Supervisor::initial() }
    }

    /// The states that transitions from `initial` can reach.
    pub open spec fn wf(self) -> bool {
        let sup = self.supervisor;
        &&& sup.wf()
        &&& self.mode == BuildMode::Development ==> sup.state == ChildState::Unspawned
        &&& match self.stage {
            Stage::RegisteringShell | Stage::Aborted => sup == Supervisor::initial(),
            Stage::AttachingLog => self.mode == BuildMode::Development && sup
                == Supervisor::initial(),
            Stage::Supervising => self.mode == BuildMode::Release && sup.state
                == ChildState::Spawning && !sup.stopping,
            Stage::Serving => !sup.stopping && sup.state != ChildState::Spawning && (self.mode
                == BuildMode::Release ==> sup.state != ChildState::Unspawned)
                && (self.mode == BuildMode::Development ==> sup.state == ChildState::Unspawned),
            Stage::Stopping => sup.stopping && sup.state == ChildState::Running,
            Stage::Stopped => sup.stopping && sup.spec_may_exit(),
        }
    }

    pub fn new(mode: BuildMode) -> (s: Shell)
        ensures
            s == Shell::initial(mode),
            s.wf(),
    {
        Shell { mode, stage: Stage::RegisteringShell, supervisor: Supervisor::new() }
    }

    /// Advances the shell by one event and says what the host must do.
    pub fn step(&mut self, event: Event) -> (o: Output)
        requires
            old(self).wf(),
        ensures
            final(self).wf(),
            step_spec(*old(self), event, *final(self), o),
    {
        match event {
            Event::ShellRegistered(res) => {
                if self.stage != Stage::RegisteringShell {
                    return Output { log: None, directive: Directive::Continue };
                }
                match res {
                    Ok(()) => {
                        if is_release(self.mode) {
                            self.supervisor.begin();
                            self.stage = Stage::Supervising;
                            Output { log: None, directive: Directive::ResolveSidecar }
                        } else {
                            self.stage = Stage::AttachingLog;
                            Output { log: None, directive: Directive::AttachLog(Level::Info) }
                        }
                    },
                    Err(err) => {
                        self.stage = Stage::Aborted;
                        Output { log: None, directive: Directive::Abort(err) }
                    },
                }
            },
            Event::LogAttached(res) => {
                if self.stage != Stage::AttachingLog {
                    return Output { log: None, directive: Directive::Continue };
                }
                match res {
                    Ok(()) => {
                        self.stage = Stage::Serving;
                        Output {
                            log: Some(log_event(Level::Info, MANUAL_BACKEND_MESSAGE)),
                            directive: Directive::PresentWindow,
                        }
                    },
                    Err(err) => {
                        self.stage = Stage::Aborted;
                        Output { log: None, directive: Directive::Abort(err) }
                    },
                }
            },
            Event::Resolved(res) => {
                if self.stage != Stage::Supervising || self.supervisor.resolved {
                    return Output { log: None, directive: Directive::Continue };
                }
                match self.supervisor.on_resolved(res) {
                    None => Output { log: None, directive: Directive::SpawnSidecar },
                    Some(outcome) => {
                        self.stage = Stage::Serving;
                        Output {
                            log: Some(outcome_event(&outcome)),
                            directive: Directive::PresentWindow,
                        }
                    },
                }
            },
            Event::Spawned(res) => {
                if self.stage != Stage::Supervising || !self.supervisor.resolved {
                    return Output { log: None, directive: Directive::Continue };
                }
                let outcome = self.supervisor.on_spawned(res);
                self.stage = Stage::Serving;
                Output { log: Some(outcome_event(&outcome)), directive: Directive::PresentWindow }
            },
            Event::ChildExited => {
                if self.supervisor.state != ChildState::Running {
                    return Output { log: None, directive: Directive::Continue };
                }
                if self.stage == Stage::Serving {
                    let log = self.supervisor.on_child_exited();
                    Output { log, directive: Directive::Continue }
                } else if self.stage == Stage::Stopping {
                    let log = self.supervisor.on_child_exited();
                    self.stage = Stage::Stopped;
                    Output { log, directive: Directive::Exit }
                } else {
                    Output { log: None, directive: Directive::Continue }
                }
            },
            Event::ExitRequested => {
                if self.stage != Stage::Serving {
                    return Output { log: None, directive: Directive::Continue };
                }
                if self.supervisor.request_stop() {
                    self.stage = Stage::Stopping;
                    Output { log: None, directive: Directive::TerminateChild }
                } else {
                    self.stage = Stage::Stopped;
                    Output { log: None, directive: Directive::Exit }
                }
            },
        }
    }
}

} // verus!
