use vstd::prelude::*;
use crate::log_event::Level;
use crate::shell::{
    BuildMode, Directive, Event, MANUAL_BACKEND_MESSAGE, Output, Shell, Stage, reports,
    step_spec,
};
use crate::supervisor::{ChildState, SpawnError, SupervisionOutcome};

verus! {

/// `states`, `events` and `outs` record a run of the shell from its start:
/// on `events[i]` the shell went from `states[i]` to `states[i + 1]` and replied `outs[i]`.
pub open spec fn is_run(
    mode: BuildMode,
    states: Seq<Shell>,
    events: Seq<Event>,
    outs: Seq<Output>,
) -> bool {
    &&& states.len() == events.len() + 1
    &&& outs.len() == events.len()
    &&& states[0] == Shell::initial(mode)
    &&& forall|i: int|
        0 <= i < events.len() ==> step_spec(states[i], #[trigger] events[i], states[i + 1], outs[i])
}

/// Number of spawns the shell handed to the host.
pub open spec fn spawn_count(outs: Seq<Output>) -> nat
    decreases outs.len(),
{
    if outs.len() == 0 {
        0
    } else {
        spawn_count(outs.drop_last()) + if outs.last().directive == Directive::SpawnSidecar {
            1nat
        } else {
            0nat
        }
    }
}

/// The outcome that a supervision event reports when it ends a call of `supervise`.
pub open spec fn outcome_of(e: Event) -> SupervisionOutcome {
    match e {
        Event::Resolved(Err(cause)) => SupervisionOutcome::ResolveFailed(cause),
        Event::Spawned(Err(cause)) => SupervisionOutcome::SpawnFailed(SpawnError::Os(cause)),
        _ => SupervisionOutcome::Started,
    }
}

/// Every transition keeps the shell well formed and its build mode fixed.
pub proof fn lemma_step_wf(s: Shell, e: Event, t: Shell, o: Output)
    requires
        s.wf(),
        step_spec(s, e, t, o),
    ensures
        t.wf(),
        t.mode == s.mode,
{
}

proof fn lemma_prefix_wf(
    mode: BuildMode,
    states: Seq<Shell>,
    events: Seq<Event>,
    outs: Seq<Output>,
    k: int,
)
    requires
        is_run(mode, states, events, outs),
        0 <= k < states.len(),
    ensures
        states[k].wf(),
        states[k].mode == mode,
    decreases k,
{
    if k > 0 {
        lemma_prefix_wf(mode, states, events, outs, k - 1);
        let _ = events[k - 1];
        lemma_step_wf(states[k - 1], events[k - 1], states[k], outs[k - 1]);
    }
}

/// Every state of a run is well formed and has the run's build mode.
pub proof fn lemma_run_wf(
    mode: BuildMode,
    states: Seq<Shell>,
    events: Seq<Event>,
    outs: Seq<Output>,
)
    requires
        is_run(mode, states, events, outs),
    ensures
        forall|i: int|
            0 <= i < states.len() ==> (#[trigger] states[i]).wf() && states[i].mode == mode,
{
    assert forall|i: int| 0 <= i < states.len() implies (#[trigger] states[i]).wf()
        && states[i].mode == mode by {
        lemma_prefix_wf(mode, states, events, outs, i);
    }
}

proof fn lemma_spawn_count_prefix(
    mode: BuildMode,
    states: Seq<Shell>,
    events: Seq<Event>,
    outs: Seq<Output>,
    k: int,
)
    requires
        is_run(mode, states, events, outs),
        0 <= k <= outs.len(),
    ensures
        spawn_count(outs.take(k)) == states[k].supervisor.spawn_attempts,
    decreases k,
{
    if k > 0 {
        lemma_spawn_count_prefix(mode, states, events, outs, k - 1);
        lemma_prefix_wf(mode, states, events, outs, k - 1);
        assert(outs.take(k).drop_last() =~= outs.take(k - 1));
        let _ = events[k - 1];
    }
}

/// Over a whole run, at most one spawn of the sidecar is attempted.
pub proof fn lemma_single_spawn(
    mode: BuildMode,
    states: Seq<Shell>,
    events: Seq<Event>,
    outs: Seq<Output>,
)
    requires
        is_run(mode, states, events, outs),
    ensures
        spawn_count(outs) <= 1,
{
    lemma_spawn_count_prefix(mode, states, events, outs, outs.len() as int);
    lemma_prefix_wf(mode, states, events, outs, outs.len() as int);
    assert(outs.take(outs.len() as int) =~= outs);
}

/// The main window is presented only after supervision has ended in `Running`
/// or `Failed` (release), or together with the manual-start message (development).
pub proof fn lemma_window_after_supervision(
    mode: BuildMode,
    states: Seq<Shell>,
    events: Seq<Event>,
    outs: Seq<Output>,
    i: int,
)
    requires
        is_run(mode, states, events, outs),
        0 <= i < outs.len(),
        outs[i].directive == Directive::PresentWindow,
    ensures
        mode == BuildMode::Release ==> states[i + 1].supervisor.state == ChildState::Running
            || states[i + 1].supervisor.state == ChildState::Failed,
        mode == BuildMode::Release ==> reports(outs[i], outcome_of(events[i])),
        mode == BuildMode::Development ==> outs[i].log is Some && outs[i].log->Some_0.is(
            Level::Info,
            MANUAL_BACKEND_MESSAGE@,
        ),
{
    lemma_prefix_wf(mode, states, events, outs, i);
    let _ = events[i];
}

/// The shell is told to exit only when no child is running or being spawned,
/// and a running child leaves `Running` only once its termination was observed.
pub proof fn lemma_child_bounded(
    mode: BuildMode,
    states: Seq<Shell>,
    events: Seq<Event>,
    outs: Seq<Output>,
    i: int,
)
    requires
        is_run(mode, states, events, outs),
        0 <= i < outs.len(),
    ensures
        outs[i].directive == Directive::Exit ==> states[i + 1].supervisor.spec_may_exit(),
        states[i].supervisor.state == ChildState::Running && states[i + 1].supervisor.state
            != ChildState::Running ==> events[i] == Event::ChildExited,
{
    lemma_prefix_wf(mode, states, events, outs, i);
    let _ = events[i];
}

/// A failed resolve or spawn does not stop startup: the shell presents the
/// window and serves, and never aborts afterwards.
pub proof fn lemma_sidecar_failure_not_fatal(
    mode: BuildMode,
    states: Seq<Shell>,
    events: Seq<Event>,
    outs: Seq<Output>,
    i: int,
)
    requires
        is_run(mode, states, events, outs),
        0 <= i < outs.len(),
        states[i + 1].supervisor.state == ChildState::Failed,
    ensures
        states[i].supervisor.state != ChildState::Failed ==> states[i + 1].stage == Stage::Serving
            && outs[i].directive == Directive::PresentWindow,
        states[i + 1].stage != Stage::Aborted,
{
    lemma_prefix_wf(mode, states, events, outs, i);
    lemma_prefix_wf(mode, states, events, outs, i + 1);
    let _ = events[i];
}

/// A development build never resolves or spawns the sidecar.
pub proof fn lemma_development_never_spawns(
    states: Seq<Shell>,
    events: Seq<Event>,
    outs: Seq<Output>,
)
    requires
        is_run(BuildMode::Development, states, events, outs),
    ensures
        forall|i: int|
            0 <= i < outs.len() ==> (#[trigger] outs[i]).directive != Directive::ResolveSidecar
                && outs[i].directive != Directive::SpawnSidecar,
        spawn_count(outs) == 0,
{
    assert forall|i: int| 0 <= i < outs.len() implies (#[trigger] outs[i]).directive
        != Directive::ResolveSidecar && outs[i].directive != Directive::SpawnSidecar by {
        lemma_prefix_wf(BuildMode::Development, states, events, outs, i);
        let _ = events[i];
    }
    lemma_spawn_count_prefix(BuildMode::Development, states, events, outs, outs.len() as int);
    lemma_prefix_wf(BuildMode::Development, states, events, outs, outs.len() as int);
    assert(outs.take(outs.len() as int) =~= outs);
}

/// A release build starts supervision as soon as the shell services are
/// registered, and spawns once the sidecar resolves.
pub proof fn lemma_release_spawns(states: Seq<Shell>, events: Seq<Event>, outs: Seq<Output>)
    requires
        is_run(BuildMode::Release, states, events, outs),
        events.len() >= 1,
        events[0] == Event::ShellRegistered(Ok(())),
    ensures
        outs[0].directive == Directive::ResolveSidecar,
        states[1].stage == Stage::Supervising,
        events.len() >= 2 && events[1] == Event::Resolved(Ok(())) ==> outs[1].directive
            == Directive::SpawnSidecar,
{
    let _ = events[0];
    if events.len() >= 2 {
        let _ = events[1];
    }
}

/// Each call of `supervise` that ends is reported by exactly one log event,
/// carrying the outcome's level and text.
pub proof fn lemma_outcome_logged(
    mode: BuildMode,
    states: Seq<Shell>,
    events: Seq<Event>,
    outs: Seq<Output>,
    i: int,
)
    requires
        is_run(mode, states, events, outs),
        0 <= i < outs.len(),
        states[i].supervisor.state == ChildState::Spawning,
        states[i + 1].supervisor.state != ChildState::Spawning,
    ensures
        reports(outs[i], outcome_of(events[i])),
        states[i + 1].supervisor.state == ChildState::Running ==> outcome_of(events[i])
            == SupervisionOutcome::Started,
        states[i + 1].supervisor.state == ChildState::Failed ==> outcome_of(events[i])
            != SupervisionOutcome::Started,
{
    lemma_prefix_wf(mode, states, events, outs, i);
    let _ = events[i];
}

} // verus!
