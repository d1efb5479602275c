//! What the host's frame loop does on each tick, given how far the engine's
//! plugins have got.
use vstd::prelude::*;

verus! {

/// How far the engine's plugins have got.
#[derive(Clone, Copy, Debug, PartialEq, Eq, Structural)]
pub enum PluginsState {
    Adding,
    Ready,
    Finished,
    Cleaned,
}

/// What one tick does.
#[derive(Clone, Copy, Debug, PartialEq, Eq, Structural)]
pub enum FrameAction {
    /// Plugins are still being set up: do nothing this tick.
    Wait,
    /// Plugins are ready: finish their setup and clean up.
    FinishAndCleanup,
    /// Setup is over: run one update of the engine.
    Update,
}

/// The action for a tick in plugin state `state`.
pub fn frame_action(state: PluginsState) -> (r: FrameAction)
    ensures
        state == PluginsState::Cleaned ==> r == FrameAction::Update,
        state == PluginsState::Ready ==> r == FrameAction::FinishAndCleanup,
        state == PluginsState::Adding || state == PluginsState::Finished ==> r == FrameAction::Wait,
{
    if state != PluginsState::Cleaned {
        if state == PluginsState::Ready {
            FrameAction::FinishAndCleanup
        } else {
            FrameAction::Wait
        }
    } else {
        FrameAction::Update
    }
}

} // verus!
