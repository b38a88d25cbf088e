use sahakari::classify::BuildAction;
use sahakari::pipeline::{
    action, apply_persist, should_continue_run, status_of, step_label, Decision, Persist,
    Pipeline, PipelineEvent, PipelineState, Step, StepAction,
};
use sahakari::project::ProjectStatus;
use sahakari::state::StateManager;

fn cs(paths: &[&str]) -> Vec<String> {
    paths.iter().map(|p| p.to_string()).collect()
}

#[test]
fn empty_change_set_short_circuits_to_done() {
    let p = Pipeline { force: false };
    let (state, persist) = p.next(PipelineState::Start, &PipelineEvent::SyncOk { changes: cs(&[]) });
    assert_eq!(state, PipelineState::Done);
    assert_eq!(persist, Persist::NoPersist);
    assert_eq!(action(&state), StepAction::Idle);
    // Done is absorbing: no later event performs any work.
    let (state2, persist2) = p.next(state, &PipelineEvent::StepOk);
    assert_eq!(state2, PipelineState::Done);
    assert_eq!(persist2, Persist::NoPersist);
}

#[test]
fn js_change_runs_only_asset_build() {
    let p = Pipeline { force: false };
    let (state, _) = p.next(
        PipelineState::Start,
        &PipelineEvent::SyncOk { changes: cs(&["resources/js/app.js"]) },
    );
    assert_eq!(action(&state), StepAction::Execute { step: Step::AssetBuild });
    let (state, persist) = p.next(state, &PipelineEvent::StepOk);
    assert_eq!(state, PipelineState::Done);
    assert_eq!(persist, Persist::ClearFailure);
}

#[test]
fn migration_change_runs_only_migration() {
    let p = Pipeline { force: false };
    let (state, _) = p.next(
        PipelineState::Start,
        &PipelineEvent::SyncOk { changes: cs(&["database/migrations/2024_01_01_create.php"]) },
    );
    assert_eq!(action(&state), StepAction::Execute { step: Step::Migrate });
    let (state, persist) = p.next(state, &PipelineEvent::StepOk);
    assert_eq!(state, PipelineState::Done);
    assert_eq!(persist, Persist::ClearFailure);
}

#[test]
fn force_with_empty_change_set_runs_asset_build_then_migration() {
    let p = Pipeline { force: true };
    let (state, _) = p.next(PipelineState::Start, &PipelineEvent::SyncOk { changes: cs(&[]) });
    assert_eq!(action(&state), StepAction::Execute { step: Step::AssetBuild });
    let (state, _) = p.next(state, &PipelineEvent::StepOk);
    assert_eq!(action(&state), StepAction::Execute { step: Step::Migrate });
    let (state, persist) = p.next(state, &PipelineEvent::StepOk);
    assert_eq!(state, PipelineState::Done);
    assert_eq!(persist, Persist::ClearFailure);
}

#[test]
fn steps_run_in_fixed_order() {
    let p = Pipeline { force: false };
    let changes = cs(&["composer.json", "resources/js/app.js", "database/migrations/m.php"]);
    let (state, _) = p.next(PipelineState::Start, &PipelineEvent::SyncOk { changes });
    assert_eq!(action(&state), StepAction::Execute { step: Step::DependencyInstall });
    let (state, _) = p.next(state, &PipelineEvent::StepOk);
    assert_eq!(action(&state), StepAction::Execute { step: Step::AssetBuild });
    let (state, _) = p.next(state, &PipelineEvent::StepOk);
    assert_eq!(action(&state), StepAction::Execute { step: Step::Migrate });
    let (state, persist) = p.next(state, &PipelineEvent::StepOk);
    assert_eq!(state, PipelineState::Done);
    assert_eq!(persist, Persist::ClearFailure);
}

#[test]
fn retry_reruns_same_step_then_completes_and_clears_state() {
    let p = Pipeline { force: false };
    let mut store = StateManager::new();
    let project = "shop";
    let (state, _) = p.next(
        PipelineState::Start,
        &PipelineEvent::SyncOk { changes: cs(&["resources/js/app.js"]) },
    );
    // The step fails: the failure is persisted and the operator asked.
    let (state, persist) = p.next(state, &PipelineEvent::StepErr);
    assert_eq!(persist, Persist::SaveFailure { step: Step::AssetBuild });
    apply_persist(&mut store, project, &persist, "2024-01-01 10:00:00");
    let saved = store.load_state(project).expect("failure must be recorded");
    assert_eq!(saved.failed_step, step_label(Step::AssetBuild));
    assert_eq!(action(&state), StepAction::AskOperator);
    // Retry re-executes the same step without re-synchronizing.
    let (state, persist) = p.next(state, &PipelineEvent::Decided { choice: Decision::RetryStep });
    assert_eq!(persist, Persist::NoPersist);
    assert_eq!(action(&state), StepAction::Execute { step: Step::AssetBuild });
    // Second attempt succeeds: the project is done, the record cleared.
    let (state, persist) = p.next(state, &PipelineEvent::StepOk);
    assert_eq!(state, PipelineState::Done);
    assert_eq!(persist, Persist::ClearFailure);
    apply_persist(&mut store, project, &persist, "2024-01-01 10:05:00");
    assert!(store.load_state(project).is_none());
    assert_eq!(status_of(&state), ProjectStatus::Completed);
}

#[test]
fn abort_stops_run_and_keeps_resume_state() {
    let p = Pipeline { force: false };
    let mut store = StateManager::new();
    let project = "shop";
    let (state, _) = p.next(
        PipelineState::Start,
        &PipelineEvent::SyncOk { changes: cs(&["database/migrations/m.php"]) },
    );
    let (state, persist) = p.next(state, &PipelineEvent::StepErr);
    apply_persist(&mut store, project, &persist, "2024-01-01 10:00:00");
    let (state, persist) = p.next(state, &PipelineEvent::Decided { choice: Decision::AbortRun });
    assert_eq!(state, PipelineState::Aborted { step: Step::Migrate });
    assert_eq!(persist, Persist::NoPersist);
    apply_persist(&mut store, project, &persist, "2024-01-01 10:00:01");
    // The record of the failed step survives the abort.
    let saved = store.load_state(project).expect("resume state must remain");
    assert_eq!(saved.failed_step, step_label(Step::Migrate));
    // The run halts: no further project may be processed.
    assert!(!should_continue_run(&state));
    assert_eq!(action(&state), StepAction::Idle);
}

#[test]
fn skip_abandons_project_but_run_continues() {
    let p = Pipeline { force: false };
    let (state, _) = p.next(
        PipelineState::Start,
        &PipelineEvent::SyncOk { changes: cs(&["composer.json"]) },
    );
    let (state, _) = p.next(state, &PipelineEvent::StepErr);
    let (state, _) = p.next(state, &PipelineEvent::Decided { choice: Decision::SkipProject });
    assert_eq!(state, PipelineState::Skipped { step: Step::DependencyInstall });
    assert!(should_continue_run(&state));
    match status_of(&state) {
        ProjectStatus::Failed(m) => assert_eq!(m, "dependency_install_failed"),
        other => panic!("unexpected status {:?}", other),
    }
}

#[test]
fn sync_failure_asks_operator_and_retry_resyncs() {
    let p = Pipeline { force: false };
    let (state, persist) = p.next(PipelineState::Start, &PipelineEvent::SyncErr);
    assert_eq!(state, PipelineState::SyncFailed);
    assert_eq!(persist, Persist::SaveFailure { step: Step::Sync });
    assert_eq!(action(&state), StepAction::AskOperator);
    let (state, _) = p.next(state, &PipelineEvent::Decided { choice: Decision::RetryStep });
    assert_eq!(state, PipelineState::Start);
    assert_eq!(action(&state), StepAction::RunSync);
}

#[test]
fn status_reporting_follows_state() {
    assert_eq!(status_of(&PipelineState::Start), ProjectStatus::NotProcessed);
    let plan = BuildAction { dependency_install: true, asset_build: false, migration: false };
    assert_eq!(
        status_of(&PipelineState::StepReady { plan, step: Step::DependencyInstall }),
        ProjectStatus::Processing
    );
    assert_eq!(status_of(&PipelineState::Done), ProjectStatus::Completed);
}
