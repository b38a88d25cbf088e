use sahakari::cache::{
    cache_action, entry_subpath, next, plan_sweep, remote_ref, sweep_due, used_keys, CacheAction,
    CacheError, CacheEvent, CacheState, SWEEP_WINDOW_SECS,
};

fn key() -> String {
    "0a1b2c".to_string()
}

#[test]
fn cache_hit_links_existing_entry_and_builds_nothing() {
    // First probe finds the entry: the machine only links and completes.
    let state = next(
        CacheState::ResolveKey,
        CacheEvent::KeyResolved { ok: true, key: key() },
    );
    assert!(matches!(cache_action(&state), CacheAction::ProbeEntry { .. }));
    let state = next(state, CacheEvent::EntryProbed { present: true });
    match cache_action(&state) {
        CacheAction::LinkEntry { key: k } => assert_eq!(k, key()),
        other => panic!("expected link, got {:?}", other),
    }
    let state = next(state, CacheEvent::LinkDone { ok: true });
    assert!(matches!(state, CacheState::Complete { .. }));
    assert!(matches!(cache_action(&state), CacheAction::Idle));
}

#[test]
fn cache_miss_builds_publishes_then_links() {
    let state = next(
        CacheState::ResolveKey,
        CacheEvent::KeyResolved { ok: true, key: key() },
    );
    let state = next(state, CacheEvent::EntryProbed { present: false });
    assert!(matches!(cache_action(&state), CacheAction::CheckCommit { .. }));
    let state = next(state, CacheEvent::CommitProbed { present: false });
    assert!(matches!(cache_action(&state), CacheAction::Fetch));
    let state = next(state, CacheEvent::FetchDone { ok: true });
    assert!(matches!(cache_action(&state), CacheAction::Checkout { .. }));
    let state = next(state, CacheEvent::CheckoutDone { ok: true });
    assert!(matches!(cache_action(&state), CacheAction::InstallDeps));
    let state = next(state, CacheEvent::InstallDone { ok: true });
    assert!(matches!(cache_action(&state), CacheAction::RunBuild));
    let state = next(state, CacheEvent::BuildDone { ok: true });
    assert!(matches!(cache_action(&state), CacheAction::ProbeScratch));
    let state = next(state, CacheEvent::ScratchProbed { present: true });
    // Only now, after a successful build with existing output, is the
    // atomic publish requested.
    match cache_action(&state) {
        CacheAction::PublishScratch { key: k } => assert_eq!(k, key()),
        other => panic!("expected publish, got {:?}", other),
    }
    let state = next(state, CacheEvent::Published { ok: true });
    assert!(matches!(cache_action(&state), CacheAction::LinkEntry { .. }));
    let state = next(state, CacheEvent::LinkDone { ok: true });
    assert!(matches!(state, CacheState::Complete { .. }));
}

#[test]
fn missing_scratch_output_is_a_hard_error_and_nothing_is_published() {
    let state = next(
        CacheState::Building { key: key() },
        CacheEvent::BuildDone { ok: true },
    );
    let state = next(state, CacheEvent::ScratchProbed { present: false });
    assert!(matches!(
        state,
        CacheState::Failed { error: CacheError::MissingOutput }
    ));
    assert!(matches!(cache_action(&state), CacheAction::Idle));
}

#[test]
fn failed_build_never_reaches_publish() {
    let state = next(
        CacheState::Building { key: key() },
        CacheEvent::BuildDone { ok: false },
    );
    assert!(matches!(state, CacheState::Failed { error: CacheError::Build }));
}

#[test]
fn sweep_due_only_after_full_window() {
    // No sentinel: the sweep runs.
    assert!(sweep_due(None, 1_000_000));
    // Stamped just now: the sweep is a no-op.
    assert!(!sweep_due(Some(1_000_000), 1_000_000));
    assert!(!sweep_due(Some(1_000_000), 1_000_000 + SWEEP_WINDOW_SECS - 1));
    // A full window later it runs again.
    assert!(sweep_due(Some(1_000_000), 1_000_000 + SWEEP_WINDOW_SECS));
    // A sentinel in the future does not block the sweep.
    assert!(sweep_due(Some(2_000_000), 1_000_000));
}

#[test]
fn second_sweep_within_window_is_noop() {
    let first_run: u64 = 5_000_000;
    assert!(sweep_due(None, first_run));
    // The sweep stamps the sentinel with its own time; a second call
    // within the same rolling day does nothing.
    assert!(!sweep_due(Some(first_run), first_run + 3600));
}

#[test]
fn sweep_plan_spares_every_used_key_and_takes_the_rest() {
    let entries: Vec<String> =
        vec!["aaa".to_string(), "bbb".to_string(), "ccc".to_string(), "ddd".to_string()];
    let used: Vec<String> = vec!["bbb".to_string(), "ddd".to_string()];
    let plan = plan_sweep(&entries, &used);
    assert_eq!(plan, vec!["aaa".to_string(), "ccc".to_string()]);
}

#[test]
fn sweep_plan_with_no_used_keys_takes_everything() {
    let entries: Vec<String> = vec!["aaa".to_string(), "bbb".to_string()];
    let used: Vec<String> = Vec::new();
    assert_eq!(plan_sweep(&entries, &used), entries);
}

#[test]
fn used_keys_extract_symlink_target_components() {
    let targets: Vec<String> =
        vec!["/srv/parent/.builds/0a1b2c".to_string(), "plain".to_string()];
    let keys = used_keys(&targets);
    assert_eq!(keys, vec!["0a1b2c".to_string(), "plain".to_string()]);
}

#[test]
fn ref_and_entry_paths_are_built_from_their_parts() {
    assert_eq!(remote_ref("main"), "origin/main");
    assert_eq!(entry_subpath("0a1b2c"), ".builds/0a1b2c");
}

#[test]
fn every_toolchain_failure_maps_to_its_own_error() {
    let state = next(CacheState::ResolveKey, CacheEvent::KeyResolved { ok: false, key: String::new() });
    assert!(matches!(state, CacheState::Failed { error: CacheError::KeyResolution }));
    let state = next(CacheState::Fetching { key: key() }, CacheEvent::FetchDone { ok: false });
    assert!(matches!(state, CacheState::Failed { error: CacheError::Fetch }));
    let state = next(CacheState::CheckingOut { key: key() }, CacheEvent::CheckoutDone { ok: false });
    assert!(matches!(state, CacheState::Failed { error: CacheError::Checkout }));
    let state = next(CacheState::Installing { key: key() }, CacheEvent::InstallDone { ok: false });
    assert!(matches!(state, CacheState::Failed { error: CacheError::Install }));
    let state = next(CacheState::Publishing { key: key() }, CacheEvent::Published { ok: false });
    assert!(matches!(state, CacheState::Failed { error: CacheError::Store }));
    let state = next(CacheState::LinkHit { key: key() }, CacheEvent::LinkDone { ok: false });
    assert!(matches!(state, CacheState::Failed { error: CacheError::Link }));
}
