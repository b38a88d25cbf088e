use sahakari::state::StateManager;

#[test]
fn save_then_load_round_trips_name_and_step() {
    let mut store = StateManager::new();
    store.save_state("shop", "asset_build_failed", "2024-01-01 10:00:00");
    let loaded = store.load_state("shop").expect("record must be stored");
    assert_eq!(loaded.project_name, "shop");
    assert_eq!(loaded.failed_step, "asset_build_failed");
    assert_eq!(loaded.timestamp, "2024-01-01 10:00:00");
}

#[test]
fn clear_makes_subsequent_loads_absent() {
    let mut store = StateManager::new();
    store.save_state("shop", "migration_failed", "2024-01-01 10:00:00");
    assert!(store.load_state("shop").is_some());
    store.clear_state("shop");
    assert!(store.load_state("shop").is_none());
}

#[test]
fn empty_store_loads_nothing() {
    let store = StateManager::new();
    assert!(store.load_state("shop").is_none());
}

#[test]
fn saving_overwrites_only_the_same_project() {
    let mut store = StateManager::new();
    store.save_state("shop", "sync_failed", "t1");
    store.save_state("blog", "migration_failed", "t2");
    store.save_state("shop", "asset_build_failed", "t3");
    let shop = store.load_state("shop").unwrap();
    assert_eq!(shop.failed_step, "asset_build_failed");
    assert_eq!(shop.timestamp, "t3");
    let blog = store.load_state("blog").unwrap();
    assert_eq!(blog.failed_step, "migration_failed");
    assert_eq!(blog.timestamp, "t2");
}

#[test]
fn clearing_one_project_leaves_others_alone() {
    let mut store = StateManager::new();
    store.save_state("shop", "sync_failed", "t1");
    store.save_state("blog", "migration_failed", "t2");
    store.clear_state("shop");
    assert!(store.load_state("shop").is_none());
    assert!(store.load_state("blog").is_some());
}

#[test]
fn clearing_an_absent_project_is_harmless() {
    let mut store = StateManager::new();
    store.save_state("blog", "sync_failed", "t1");
    store.clear_state("shop");
    assert!(store.load_state("blog").is_some());
}
