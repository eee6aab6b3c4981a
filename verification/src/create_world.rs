//! World-creation sequencing: the ground-texture polling state machine.
//!
//! The ground plane's texture is loaded asynchronously by a host engine.
//! Until it is available the world must not be spawned, and when every
//! candidate texture has failed to load a generated fallback is used
//! instead.  The decisions of that polling loop live here as a pure step
//! function from (state, observed load state) to (next state, action); the
//! host performs the returned action and reports the next observation.

use vstd::prelude::*;

verus! {

/// What the host reports about the pending texture load.
#[derive(Clone, Copy, Debug, PartialEq, Eq, Structural)]
pub enum LoadState {
    NotLoaded,
    Loading,
    Loaded,
    Failed,
    Unloaded,
}

/// Progress of world creation across ticks.
#[derive(Clone, Copy, Debug, PartialEq, Eq, Structural)]
pub struct WorldState {
    /// A usable ground texture (loaded or fallback) is at hand.
    pub assets_loaded: bool,
    /// The ground, lights and props have been spawned; nothing remains.
    pub world_created: bool,
    /// Index of the next candidate texture to try.
    pub next_uri: usize,
}

impl WorldState {
    /// The state before the first tick.
    pub fn initial() -> (s: WorldState)
        ensures
            s == (WorldState { assets_loaded: false, world_created: false, next_uri: 0 }),
    {
        WorldState { assets_loaded: false, world_created: false, next_uri: 0 }
    }
}

/// What the host must do after a tick.
#[derive(Clone, Copy, Debug, PartialEq, Eq, Structural)]
pub enum WorldAction {
    /// Do nothing this tick.
    Wait,
    /// Spawn the ground, lights and props: the one-time world creation.
    SpawnWorld,
    /// Begin loading the candidate texture with this index.
    LoadUri(usize),
    /// Generate the fallback checkerboard texture and use it.
    UseFallbackTexture,
    /// Forget the failed load's handle and poll again.
    ClearFailedLoad,
    /// The pending load vanished: an unrecoverable fault the host must
    /// surface.
    Fault,
}

/// The complete decision of one polling tick.
pub open spec fn spec_world_tick(s: WorldState, loaded: LoadState, n_uris: usize) -> (
    WorldState,
    WorldAction,
) {
    if s.world_created {
        (s, WorldAction::Wait)
    } else if s.assets_loaded {
        (WorldState { world_created: true, ..s }, WorldAction::SpawnWorld)
    } else {
        match loaded {
            LoadState::NotLoaded => if s.next_uri < n_uris {
                (s, WorldAction::LoadUri(s.next_uri))
            } else {
                (WorldState { assets_loaded: true, ..s }, WorldAction::UseFallbackTexture)
            },
            LoadState::Loading => (s, WorldAction::Wait),
            LoadState::Loaded => (WorldState { assets_loaded: true, ..s }, WorldAction::Wait),
            LoadState::Failed => (
                WorldState { next_uri: (s.next_uri + 1) as usize, ..s },
                WorldAction::ClearFailedLoad,
            ),
            LoadState::Unloaded => (s, WorldAction::Fault),
        }
    }
}

/// One tick of world creation: spawn the world once its texture is settled;
/// until then drive the texture load forward, falling back to the generated
/// checkerboard when every candidate URI has been tried.
pub fn world_tick(s: WorldState, loaded: LoadState, n_uris: usize) -> (r: (
    WorldState,
    WorldAction,
))
    requires
        s.next_uri < usize::MAX,
    ensures
        r == spec_world_tick(s, loaded, n_uris),
{
    if s.world_created {
        (s, WorldAction::Wait)
    } else if s.assets_loaded {
        (WorldState { world_created: true, ..s }, WorldAction::SpawnWorld)
    } else {
        match loaded {
            LoadState::NotLoaded => {
                if s.next_uri < n_uris {
                    (s, WorldAction::LoadUri(s.next_uri))
                } else {
                    (WorldState { assets_loaded: true, ..s }, WorldAction::UseFallbackTexture)
                }
            },
            LoadState::Loading => (s, WorldAction::Wait),
            LoadState::Loaded => (WorldState { assets_loaded: true, ..s }, WorldAction::Wait),
            LoadState::Failed => (
                WorldState { next_uri: s.next_uri + 1, ..s },
                WorldAction::ClearFailedLoad,
            ),
            LoadState::Unloaded => (s, WorldAction::Fault),
        }
    }
}

/// Law: the world is spawned at most once.  A state that already created the
/// world never produces `SpawnWorld` again, whatever is observed afterwards.
pub proof fn lemma_world_spawned_once(s: WorldState, loaded: LoadState, n_uris: usize)
    ensures
        s.world_created ==> spec_world_tick(s, loaded, n_uris) == (s, WorldAction::Wait),
        spec_world_tick(s, loaded, n_uris).1 == WorldAction::SpawnWorld ==> spec_world_tick(
            s,
            loaded,
            n_uris,
        ).0.world_created,
{
}

} // verus!
