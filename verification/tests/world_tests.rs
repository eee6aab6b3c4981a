use diffdrive_rig::create_world::{world_tick, LoadState, WorldAction, WorldState};

#[test]
fn tries_each_candidate_then_falls_back() {
    let s0 = WorldState::initial();
    // One candidate texture that will fail to load.
    let (s1, a1) = world_tick(s0, LoadState::NotLoaded, 1);
    assert_eq!(a1, WorldAction::LoadUri(0));
    assert_eq!(s1, s0);
    let (s2, a2) = world_tick(s1, LoadState::Loading, 1);
    assert_eq!(a2, WorldAction::Wait);
    assert_eq!(s2, s1);
    let (s3, a3) = world_tick(s2, LoadState::Failed, 1);
    assert_eq!(a3, WorldAction::ClearFailedLoad);
    assert_eq!(s3.next_uri, 1);
    let (s4, a4) = world_tick(s3, LoadState::NotLoaded, 1);
    assert_eq!(a4, WorldAction::UseFallbackTexture);
    assert!(s4.assets_loaded);
    let (s5, a5) = world_tick(s4, LoadState::NotLoaded, 1);
    assert_eq!(a5, WorldAction::SpawnWorld);
    assert!(s5.world_created);
    let (s6, a6) = world_tick(s5, LoadState::NotLoaded, 1);
    assert_eq!(a6, WorldAction::Wait);
    assert_eq!(s6, s5);
}

#[test]
fn loaded_texture_leads_to_spawning_the_world() {
    let s0 = WorldState::initial();
    let (s1, a1) = world_tick(s0, LoadState::NotLoaded, 1);
    assert_eq!(a1, WorldAction::LoadUri(0));
    let (s2, _) = world_tick(s1, LoadState::Loaded, 1);
    assert!(s2.assets_loaded);
    let (s3, a3) = world_tick(s2, LoadState::Loaded, 1);
    assert_eq!(a3, WorldAction::SpawnWorld);
    assert!(s3.world_created);
}

#[test]
fn a_vanished_load_is_a_fault() {
    let s0 = WorldState::initial();
    let (s1, a1) = world_tick(s0, LoadState::Unloaded, 1);
    assert_eq!(a1, WorldAction::Fault);
    assert_eq!(s1, s0);
}

#[test]
fn the_world_is_spawned_at_most_once() {
    let done = WorldState { assets_loaded: true, world_created: true, next_uri: 0 };
    for loaded in [
        LoadState::NotLoaded,
        LoadState::Loading,
        LoadState::Loaded,
        LoadState::Failed,
        LoadState::Unloaded,
    ] {
        let (s, a) = world_tick(done, loaded, 3);
        assert_eq!(a, WorldAction::Wait);
        assert_eq!(s, done);
    }
}
