//! The build/run pipeline state machine. Each admitted trigger re-runs the
//! whole pipeline from the pre-build hooks; each stage aborts the rest of the
//! run on failure, leaving the previously started process untouched, except
//! that a spawn failure is fatal to the whole program and post-run hook
//! failures are ignored.

use vstd::prelude::*;

verus! {

/// The pipeline stages. `Idle` waits for a trigger; `Running` runs the
/// post-run hooks after a successful restart; `BuildFailed` runs the
/// build-failure hooks, best-effort, before returning to `Idle`.
#[derive(PartialEq, Eq, Structural, Clone, Copy, Debug)]
pub enum Stage {
    Idle,
    PreBuild,
    Building,
    BuildFailed,
    PostBuild,
    PreRun,
    Resolving,
    Restarting,
    Running,
}

/// The five hook lists, by pipeline point.
#[derive(PartialEq, Eq, Structural, Clone, Copy, Debug)]
pub enum HookPoint {
    PreBuild,
    PostBuild,
    PreRun,
    PostRun,
    OnBuildFail,
}

/// What the driver reports back to the machine.
#[derive(PartialEq, Eq, Structural, Clone, Copy, Debug)]
pub enum PipelineEvent {
    /// An admitted, relevant change notification (or the startup trigger).
    Triggered,
    /// A hook list finished; `true` when every command exited zero.
    HooksFinished(bool),
    /// A hook list was malformed (empty argv): fatal, except at the
    /// best-effort points (build-failure and post-run hooks), where it is
    /// only logged.
    HookListInvalid,
    /// The build command finished; `true` when it exited zero.
    BuildFinished(bool),
    /// The run argv was resolved, or could not be.
    Resolved(bool),
    /// The new process group was spawned, or the spawn failed.
    Spawned(bool),
}

/// What the driver must do next.
#[derive(PartialEq, Eq, Structural, Clone, Copy, Debug)]
pub enum PipelineAction {
    /// Run the named hook list and report `HooksFinished`/`HookListInvalid`.
    RunHooks(HookPoint),
    /// Run the build argv and report `BuildFinished`.
    RunBuild,
    /// Resolve the run argv and report `Resolved`.
    ResolveRun,
    /// Kill the old process group if one is tracked, clear the screen if
    /// configured, spawn the new group, and report `Spawned`.
    Restart,
    /// Exit the program with a failure: a hook list was malformed or the
    /// spawn failed.
    Fatal,
    /// Nothing to do: wait for the next change notification.
    Wait,
}

/// Whether a process already runs under supervision, read off the inherited
/// environment marker: a present marker, whatever its value, means the
/// program must refuse to supervise in turn.
pub fn is_already_supervised(marker: &Option<String>) -> (r: bool)
    ensures
        r == (marker is Some),
{
    marker.is_some()
}

/// The supervisor state: the pipeline stage, and whether a managed process
/// group is currently tracked (at most one ever exists).
#[derive(PartialEq, Eq, Structural, Clone, Copy, Debug)]
pub struct Supervisor {
    pub stage: Stage,
    pub has_process: bool,
}

/// The transition table: the state after handling one event.
pub open spec fn next_state(s: Supervisor, ev: PipelineEvent) -> Supervisor {
    match (s.stage, ev) {
        (Stage::Idle, PipelineEvent::Triggered) => Supervisor { stage: Stage::PreBuild, ..s },
        (Stage::Running, PipelineEvent::Triggered) => Supervisor { stage: Stage::PreBuild, ..s },
        (Stage::PreBuild, PipelineEvent::HooksFinished(ok)) => Supervisor {
            stage: if ok {
                Stage::Building
            } else {
                Stage::Idle
            },
            ..s
        },
        (Stage::Building, PipelineEvent::BuildFinished(ok)) => Supervisor {
            stage: if ok {
                Stage::PostBuild
            } else {
                Stage::BuildFailed
            },
            ..s
        },
        (Stage::BuildFailed, PipelineEvent::HooksFinished(_)) => Supervisor {
            stage: Stage::Idle,
            ..s
        },
        (Stage::PostBuild, PipelineEvent::HooksFinished(ok)) => Supervisor {
            stage: if ok {
                Stage::PreRun
            } else {
                Stage::Idle
            },
            ..s
        },
        (Stage::PreRun, PipelineEvent::HooksFinished(ok)) => Supervisor {
            stage: if ok {
                Stage::Resolving
            } else {
                Stage::Idle
            },
            ..s
        },
        (Stage::Resolving, PipelineEvent::Resolved(ok)) => Supervisor {
            stage: if ok {
                Stage::Restarting
            } else {
                Stage::Idle
            },
            ..s
        },
        (Stage::Restarting, PipelineEvent::Spawned(ok)) => {
            if ok {
                Supervisor { stage: Stage::Running, has_process: true }
            } else {
                s
            }
        },
        (Stage::Running, PipelineEvent::HooksFinished(_)) => Supervisor {
            stage: Stage::Idle,
            ..s
        },
        (Stage::BuildFailed, PipelineEvent::HookListInvalid) => Supervisor {
            stage: Stage::Idle,
            ..s
        },
        (Stage::Running, PipelineEvent::HookListInvalid) => Supervisor { stage: Stage::Idle, ..s },
        (_, PipelineEvent::HookListInvalid) => s,
        _ => s,
    }
}

/// The transition table: what the driver does after the state change.
pub open spec fn next_action(s: Supervisor, ev: PipelineEvent) -> PipelineAction {
    match (s.stage, ev) {
        (Stage::Idle, PipelineEvent::Triggered) => PipelineAction::RunHooks(HookPoint::PreBuild),
        (Stage::Running, PipelineEvent::Triggered) => PipelineAction::RunHooks(
            HookPoint::PreBuild,
        ),
        (Stage::PreBuild, PipelineEvent::HooksFinished(ok)) => if ok {
            PipelineAction::RunBuild
        } else {
            PipelineAction::Wait
        },
        (Stage::Building, PipelineEvent::BuildFinished(ok)) => if ok {
            PipelineAction::RunHooks(HookPoint::PostBuild)
        } else {
            PipelineAction::RunHooks(HookPoint::OnBuildFail)
        },
        (Stage::BuildFailed, PipelineEvent::HooksFinished(_)) => PipelineAction::Wait,
        (Stage::PostBuild, PipelineEvent::HooksFinished(ok)) => if ok {
            PipelineAction::RunHooks(HookPoint::PreRun)
        } else {
            PipelineAction::Wait
        },
        (Stage::PreRun, PipelineEvent::HooksFinished(ok)) => if ok {
            PipelineAction::ResolveRun
        } else {
            PipelineAction::Wait
        },
        (Stage::Resolving, PipelineEvent::Resolved(ok)) => if ok {
            PipelineAction::Restart
        } else {
            PipelineAction::Wait
        },
        (Stage::Restarting, PipelineEvent::Spawned(ok)) => if ok {
            PipelineAction::RunHooks(HookPoint::PostRun)
        } else {
            PipelineAction::Fatal
        },
        (Stage::Running, PipelineEvent::HooksFinished(_)) => PipelineAction::Wait,
        (Stage::BuildFailed, PipelineEvent::HookListInvalid) => PipelineAction::Wait,
        (Stage::Running, PipelineEvent::HookListInvalid) => PipelineAction::Wait,
        (_, PipelineEvent::HookListInvalid) => PipelineAction::Fatal,
        _ => PipelineAction::Wait,
    }
}

impl Supervisor {
    /// The supervisor before the startup trigger: idle, no managed process.
    pub fn start() -> (s: Supervisor)
        ensures
            s.stage == Stage::Idle,
            !s.has_process,
    {
        Supervisor { stage: Stage::Idle, has_process: false }
    }

    /// Handles one event: moves to the next stage and tells the driver what
    /// to do, exactly as the transition table says.
    pub fn step(&mut self, ev: PipelineEvent) -> (a: PipelineAction)
        ensures
            *final(self) == next_state(*old(self), ev),
            a == next_action(*old(self), ev),
    {
        let s = *self;
        let a: PipelineAction;
        match (s.stage, ev) {
            (Stage::Idle, PipelineEvent::Triggered) => {
                self.stage = Stage::PreBuild;
                a = PipelineAction::RunHooks(HookPoint::PreBuild);
            },
            (Stage::Running, PipelineEvent::Triggered) => {
                self.stage = Stage::PreBuild;
                a = PipelineAction::RunHooks(HookPoint::PreBuild);
            },
            (Stage::PreBuild, PipelineEvent::HooksFinished(ok)) => {
                if ok {
                    self.stage = Stage::Building;
                    a = PipelineAction::RunBuild;
                } else {
                    self.stage = Stage::Idle;
                    a = PipelineAction::Wait;
                }
            },
            (Stage::Building, PipelineEvent::BuildFinished(ok)) => {
                if ok {
                    self.stage = Stage::PostBuild;
                    a = PipelineAction::RunHooks(HookPoint::PostBuild);
                } else {
                    self.stage = Stage::BuildFailed;
                    a = PipelineAction::RunHooks(HookPoint::OnBuildFail);
                }
            },
            (Stage::BuildFailed, PipelineEvent::HooksFinished(_)) => {
                self.stage = Stage::Idle;
                a = PipelineAction::Wait;
            },
            (Stage::PostBuild, PipelineEvent::HooksFinished(ok)) => {
                if ok {
                    self.stage = Stage::PreRun;
                    a = PipelineAction::RunHooks(HookPoint::PreRun);
                } else {
                    self.stage = Stage::Idle;
                    a = PipelineAction::Wait;
                }
            },
            (Stage::PreRun, PipelineEvent::HooksFinished(ok)) => {
                if ok {
                    self.stage = Stage::Resolving;
                    a = PipelineAction::ResolveRun;
                } else {
                    self.stage = Stage::Idle;
                    a = PipelineAction::Wait;
                }
            },
            (Stage::Resolving, PipelineEvent::Resolved(ok)) => {
                if ok {
                    self.stage = Stage::Restarting;
                    a = PipelineAction::Restart;
                } else {
                    self.stage = Stage::Idle;
                    a = PipelineAction::Wait;
                }
            },
            (Stage::Restarting, PipelineEvent::Spawned(ok)) => {
                if ok {
                    self.stage = Stage::Running;
                    self.has_process = true;
                    a = PipelineAction::RunHooks(HookPoint::PostRun);
                } else {
                    a = PipelineAction::Fatal;
                }
            },
            (Stage::Running, PipelineEvent::HooksFinished(_)) => {
                self.stage = Stage::Idle;
                a = PipelineAction::Wait;
            },
            (Stage::BuildFailed, PipelineEvent::HookListInvalid) => {
                self.stage = Stage::Idle;
                a = PipelineAction::Wait;
            },
            (Stage::Running, PipelineEvent::HookListInvalid) => {
                self.stage = Stage::Idle;
                a = PipelineAction::Wait;
            },
            (_, PipelineEvent::HookListInvalid) => {
                a = PipelineAction::Fatal;
            },
            _ => {
                a = PipelineAction::Wait;
            },
        }
        a
    }
}

/// An aborted stage leaves the managed process alone: no event but a
/// successful spawn ever changes which process is tracked, and only the
/// restart stage spawns.
pub proof fn lemma_abort_keeps_process(s: Supervisor, ev: PipelineEvent)
    ensures
        next_state(s, ev).has_process == s.has_process || (s.stage == Stage::Restarting && ev
            == PipelineEvent::Spawned(true)),
{
}

} // verus!
