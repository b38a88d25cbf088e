//! The update pipeline: a per-project state machine that turns one
//! synchronization result into a conditional sequence of build steps
//! with retry/skip/abort resolution of failures.
//!
//! The machine decides; the unverified driver performs.  `action` says
//! what outside work the current state asks for, `next` consumes the
//! result of that work, and the `Persist` channel tells the driver what
//! to write to the resume-state store.

use vstd::prelude::*;
use crate::classify::{BuildAction, spec_classify, classify};
use crate::text::seq_views;
use crate::project::ProjectStatus;
use crate::state::StateManager;

verus! {

/// One step of a project's update, in the fixed execution order
/// synchronization, dependency install, asset build, migration.
#[derive(Clone, Copy, Debug, PartialEq, Eq, Structural)]
pub enum Step {
    Sync,
    DependencyInstall,
    AssetBuild,
    Migrate,
}

/// What the operator chose after a failure.
#[derive(Clone, Copy, Debug, PartialEq, Eq, Structural)]
pub enum Decision {
    SkipProject,
    RetryStep,
    AbortRun,
}

/// The pipeline's state for one project.
#[derive(Clone, Copy, Debug, PartialEq, Eq, Structural)]
pub enum PipelineState {
    /// Nothing has happened; the driver must synchronize.
    Start,
    /// `step` is flagged in `plan` and must be executed next.
    StepReady { plan: BuildAction, step: Step },
    /// Synchronization failed; the operator must decide.
    SyncFailed,
    /// `step` failed; the operator must decide.
    StepFailed { plan: BuildAction, step: Step },
    /// The project finished without error.
    Done,
    /// The operator abandoned this project after `step` failed.
    Skipped { step: Step },
    /// The operator terminated the whole run after `step` failed.
    Aborted { step: Step },
}

/// The result of the outside work the current state asked for.
pub enum PipelineEvent {
    /// Synchronization succeeded and produced these changed paths.
    SyncOk { changes: Vec<String> },
    SyncErr,
    StepOk,
    StepErr,
    Decided { choice: Decision },
}

/// What the driver must write to the resume-state store.
#[derive(Clone, Copy, Debug, PartialEq, Eq, Structural)]
pub enum Persist {
    NoPersist,
    SaveFailure { step: Step },
    ClearFailure,
}

/// The outside work a state asks for.
#[derive(Clone, Copy, Debug, PartialEq, Eq, Structural)]
pub enum StepAction {
    RunSync,
    Execute { step: Step },
    AskOperator,
    Idle,
}

/// The first step flagged in `plan`, in execution order.
pub open spec fn first_step(plan: BuildAction) -> Option<Step> {
    if plan.dependency_install {
        Some(Step::DependencyInstall)
    } else if plan.asset_build {
        Some(Step::AssetBuild)
    } else if plan.migration {
        Some(Step::Migrate)
    } else {
        None
    }
}

/// The next step flagged in `plan` after `step`, in execution order.
pub open spec fn step_after(plan: BuildAction, step: Step) -> Option<Step> {
    match step {
        Step::Sync => first_step(plan),
        Step::DependencyInstall => if plan.asset_build {
            Some(Step::AssetBuild)
        } else if plan.migration {
            Some(Step::Migrate)
        } else {
            None
        },
        Step::AssetBuild => if plan.migration {
            Some(Step::Migrate)
        } else {
            None
        },
        Step::Migrate => None,
    }
}

/// One pipeline run for one project.  `force` turns the asset-build
/// and migration steps on even for an empty change set.
#[derive(Clone, Copy, Debug, PartialEq, Eq, Structural)]
pub struct Pipeline {
    pub force: bool,
}

/// The outside work `state` asks for.
pub open spec fn spec_action(state: PipelineState) -> StepAction {
    match state {
        PipelineState::Start => StepAction::RunSync,
        PipelineState::StepReady { plan: _, step } => StepAction::Execute { step },
        PipelineState::SyncFailed => StepAction::AskOperator,
        PipelineState::StepFailed { .. } => StepAction::AskOperator,
        PipelineState::Done => StepAction::Idle,
        PipelineState::Skipped { .. } => StepAction::Idle,
        PipelineState::Aborted { .. } => StepAction::Idle,
    }
}

/// No further work happens in `state`.
pub open spec fn is_terminal(state: PipelineState) -> bool {
    match state {
        PipelineState::Done => true,
        PipelineState::Skipped { .. } => true,
        PipelineState::Aborted { .. } => true,
        _ => false,
    }
}

impl Pipeline {
    /// The transition relation of the machine.  An event that does not
    /// answer the current state leaves the state unchanged.
    pub open spec fn spec_next(self, state: PipelineState, event: PipelineEvent) -> (PipelineState, Persist) {
        match (state, event) {
            (PipelineState::Start, PipelineEvent::SyncOk { changes }) => {
                let cs = seq_views(changes@);
                if cs.len() == 0 && !self.force {
                    (PipelineState::Done, Persist::NoPersist)
                } else {
                    let plan = spec_classify(cs, self.force);
                    match first_step(plan) {
                        Some(s) => (PipelineState::StepReady { plan, step: s }, Persist::NoPersist),
                        None => (PipelineState::Done, Persist::ClearFailure),
                    }
                }
            },
            (PipelineState::Start, PipelineEvent::SyncErr) => (
                PipelineState::SyncFailed,
                Persist::SaveFailure { step: Step::Sync },
            ),
            (PipelineState::StepReady { plan, step }, PipelineEvent::StepOk) => {
                match step_after(plan, step) {
                    Some(s) => (PipelineState::StepReady { plan, step: s }, Persist::NoPersist),
                    None => (PipelineState::Done, Persist::ClearFailure),
                }
            },
            (PipelineState::StepReady { plan, step }, PipelineEvent::StepErr) => (
                PipelineState::StepFailed { plan, step },
                Persist::SaveFailure { step },
            ),
            (PipelineState::SyncFailed, PipelineEvent::Decided { choice }) => match choice {
                Decision::RetryStep => (PipelineState::Start, Persist::NoPersist),
                Decision::SkipProject => (PipelineState::Skipped { step: Step::Sync }, Persist::NoPersist),
                Decision::AbortRun => (PipelineState::Aborted { step: Step::Sync }, Persist::NoPersist),
            },
            (PipelineState::StepFailed { plan, step }, PipelineEvent::Decided { choice }) => match choice {
                Decision::RetryStep => (PipelineState::StepReady { plan, step }, Persist::NoPersist),
                Decision::SkipProject => (PipelineState::Skipped { step }, Persist::NoPersist),
                Decision::AbortRun => (PipelineState::Aborted { step }, Persist::NoPersist),
            },
            _ => (state, Persist::NoPersist),
        }
    }

    /// Advance the machine by one event.
    pub fn next(&self, state: PipelineState, event: &PipelineEvent) -> (r: (PipelineState, Persist))
        ensures
            r == self.spec_next(state, *event),
    {
        match (state, event) {
            (PipelineState::Start, PipelineEvent::SyncOk { changes }) => {
                if changes.len() == 0 && !self.force {
                    proof {
                        assert(seq_views(changes@).len() == 0);
                    }
                    (PipelineState::Done, Persist::NoPersist)
                } else {
                    let plan = classify(changes, self.force);
                    match Self::first_step_exec(plan) {
                        Some(s) => (PipelineState::StepReady { plan, step: s }, Persist::NoPersist),
                        None => (PipelineState::Done, Persist::ClearFailure),
                    }
                }
            },
            (PipelineState::Start, PipelineEvent::SyncErr) => (
                PipelineState::SyncFailed,
                Persist::SaveFailure { step: Step::Sync },
            ),
            (PipelineState::StepReady { plan, step }, PipelineEvent::StepOk) => {
                match Self::step_after_exec(plan, step) {
                    Some(s) => (PipelineState::StepReady { plan, step: s }, Persist::NoPersist),
                    None => (PipelineState::Done, Persist::ClearFailure),
                }
            },
            (PipelineState::StepReady { plan, step }, PipelineEvent::StepErr) => (
                PipelineState::StepFailed { plan, step },
                Persist::SaveFailure { step },
            ),
            (PipelineState::SyncFailed, PipelineEvent::Decided { choice }) => match choice {
                Decision::RetryStep => (PipelineState::Start, Persist::NoPersist),
                Decision::SkipProject => (PipelineState::Skipped { step: Step::Sync }, Persist::NoPersist),
                Decision::AbortRun => (PipelineState::Aborted { step: Step::Sync }, Persist::NoPersist),
            },
            (PipelineState::StepFailed { plan, step }, PipelineEvent::Decided { choice }) => match choice {
                Decision::RetryStep => (PipelineState::StepReady { plan, step }, Persist::NoPersist),
                Decision::SkipProject => (PipelineState::Skipped { step }, Persist::NoPersist),
                Decision::AbortRun => (PipelineState::Aborted { step }, Persist::NoPersist),
            },
            _ => (state, Persist::NoPersist),
        }
    }

    /// The first step flagged in `plan`.
    pub fn first_step_exec(plan: BuildAction) -> (r: Option<Step>)
        ensures
            r == first_step(plan),
    {
        if plan.dependency_install {
            Some(Step::DependencyInstall)
        } else if plan.asset_build {
            Some(Step::AssetBuild)
        } else if plan.migration {
            Some(Step::Migrate)
        } else {
            None
        }
    }

    /// The next step flagged in `plan` after `step`.
    pub fn step_after_exec(plan: BuildAction, step: Step) -> (r: Option<Step>)
        ensures
            r == step_after(plan, step),
    {
        match step {
            Step::Sync => Self::first_step_exec(plan),
            Step::DependencyInstall => if plan.asset_build {
                Some(Step::AssetBuild)
            } else if plan.migration {
                Some(Step::Migrate)
            } else {
                None
            },
            Step::AssetBuild => if plan.migration {
                Some(Step::Migrate)
            } else {
                None
            },
            Step::Migrate => None,
        }
    }
}

/// The outside work `state` asks for.
pub fn action(state: &PipelineState) -> (a: StepAction)
    ensures
        a == spec_action(*state),
{
    match state {
        PipelineState::Start => StepAction::RunSync,
        PipelineState::StepReady { plan: _, step } => StepAction::Execute { step: *step },
        PipelineState::SyncFailed => StepAction::AskOperator,
        PipelineState::StepFailed { .. } => StepAction::AskOperator,
        PipelineState::Done => StepAction::Idle,
        PipelineState::Skipped { .. } => StepAction::Idle,
        PipelineState::Aborted { .. } => StepAction::Idle,
    }
}

/// The run may move on to the next project from `state`.
pub fn should_continue_run(state: &PipelineState) -> (r: bool)
    ensures
        r == !(*state matches PipelineState::Aborted { .. }),
{
    match state {
        PipelineState::Aborted { .. } => false,
        _ => true,
    }
}

/// The identifier a failed step is recorded under in the resume store.
pub open spec fn spec_step_label(step: Step) -> Seq<char> {
    match step {
        Step::Sync => "sync_failed"@,
        Step::DependencyInstall => "dependency_install_failed"@,
        Step::AssetBuild => "asset_build_failed"@,
        Step::Migrate => "migration_failed"@,
    }
}

/// The identifier a failed step is recorded under in the resume store.
pub fn step_label(step: Step) -> (r: String)
    ensures
        r@ == spec_step_label(step),
{
    match step {
        Step::Sync => String::from_str("sync_failed"),
        Step::DependencyInstall => String::from_str("dependency_install_failed"),
        Step::AssetBuild => String::from_str("asset_build_failed"),
        Step::Migrate => String::from_str("migration_failed"),
    }
}

/// The status the pipeline reports for a project in `state`.
pub fn status_of(state: &PipelineState) -> (st: ProjectStatus)
    ensures
        *state is Start ==> st == ProjectStatus::NotProcessed,
        (*state matches PipelineState::StepReady { .. } || *state is SyncFailed
            || *state matches PipelineState::StepFailed { .. }) ==> st == ProjectStatus::Processing,
        *state is Done ==> st == ProjectStatus::Completed,
        (*state matches PipelineState::Skipped { step } ==> st matches ProjectStatus::Failed(m)
            && m@ == spec_step_label(step)),
        (*state matches PipelineState::Aborted { step } ==> st matches ProjectStatus::Failed(m)
            && m@ == spec_step_label(step)),
{
    match state {
        PipelineState::Start => ProjectStatus::NotProcessed,
        PipelineState::StepReady { .. } => ProjectStatus::Processing,
        PipelineState::SyncFailed => ProjectStatus::Processing,
        PipelineState::StepFailed { .. } => ProjectStatus::Processing,
        PipelineState::Done => ProjectStatus::Completed,
        PipelineState::Skipped { step } => ProjectStatus::Failed(step_label(*step)),
        PipelineState::Aborted { step } => ProjectStatus::Failed(step_label(*step)),
    }
}

/// Apply a persistence effect of the machine to the resume-state
/// store: exactly what the driver must do after each transition.  A
/// `SaveFailure` records the step's identifier for the project, a
/// `ClearFailure` drops the project's record, and no other project's
/// record is ever touched.
pub fn apply_persist(store: &mut StateManager, project_name: &str, effect: &Persist, timestamp: &str)
    ensures
        *effect is NoPersist ==> forall|n: Seq<char>| #[trigger] final(store).stored(n)
            == old(store).stored(n),
        (*effect matches Persist::SaveFailure { step } ==> final(store).stored(project_name@)
            matches Some(st) && st.project_name@ == project_name@ && st.failed_step@
            == spec_step_label(step) && st.timestamp@ == timestamp@),
        *effect is ClearFailure ==> final(store).stored(project_name@) is None,
        forall|n: Seq<char>| n != project_name@ ==> #[trigger] final(store).stored(n)
            == old(store).stored(n),
{
    match effect {
        Persist::NoPersist => {},
        Persist::SaveFailure { step } => {
            let label = step_label(*step);
            store.save_state(project_name, label.as_str(), timestamp);
        },
        Persist::ClearFailure => {
            store.clear_state(project_name);
        },
    }
}

/// An empty change set without force ends the run at once: the machine
/// goes straight to `Done` and persists nothing, and `Done` asks for no
/// further work, so no build step is ever executed.
pub proof fn lemma_empty_sync_short_circuit(p: Pipeline, event: PipelineEvent)
    requires
        !p.force,
        event matches PipelineEvent::SyncOk { changes } && changes@.len() == 0,
    ensures
        p.spec_next(PipelineState::Start, event) == (PipelineState::Done, Persist::NoPersist),
        spec_action(PipelineState::Done) == StepAction::Idle,
{
}

/// `Done` is absorbing: no event moves the machine out of it and no
/// effect is ever produced again.
pub proof fn lemma_done_terminal(p: Pipeline, event: PipelineEvent)
    ensures
        p.spec_next(PipelineState::Done, event) == (PipelineState::Done, Persist::NoPersist),
{
}

/// A retry re-executes exactly the failed step, without a new
/// synchronization or classification, and when the retried step
/// succeeds with no later step flagged, the project completes and the
/// resume record is cleared.
pub proof fn lemma_retry_then_success(p: Pipeline, plan: BuildAction, step: Step)
    requires
        step_after(plan, step) is None,
    ensures
        p.spec_next(PipelineState::StepReady { plan, step }, PipelineEvent::StepErr)
            == (PipelineState::StepFailed { plan, step }, Persist::SaveFailure { step }),
        p.spec_next(
            PipelineState::StepFailed { plan, step },
            PipelineEvent::Decided { choice: Decision::RetryStep },
        ) == (PipelineState::StepReady { plan, step }, Persist::NoPersist),
        p.spec_next(PipelineState::StepReady { plan, step }, PipelineEvent::StepOk)
            == (PipelineState::Done, Persist::ClearFailure),
{
}

/// Abort stops the run at once: the machine enters `Aborted`, which is
/// absorbing and asks for no work, and the resume record saved when the
/// step failed is not cleared.
pub proof fn lemma_abort_stops_run(p: Pipeline, plan: BuildAction, step: Step, event: PipelineEvent)
    ensures
        p.spec_next(
            PipelineState::StepFailed { plan, step },
            PipelineEvent::Decided { choice: Decision::AbortRun },
        ) == (PipelineState::Aborted { step }, Persist::NoPersist),
        p.spec_next(PipelineState::Aborted { step }, event)
            == (PipelineState::Aborted { step }, Persist::NoPersist),
        spec_action(PipelineState::Aborted { step }) == StepAction::Idle,
{
}

/// The resume record is cleared only when the machine reaches `Done`.
pub proof fn lemma_clear_only_on_done(p: Pipeline, state: PipelineState, event: PipelineEvent)
    ensures
        p.spec_next(state, event).1 == Persist::ClearFailure
            ==> p.spec_next(state, event).0 == PipelineState::Done,
{
}

} // verus!
