use offscreen_relay::frame::{frame_action, FrameAction, PluginsState};

#[test]
fn frame_action_per_plugin_state() {
    assert_eq!(frame_action(PluginsState::Adding), FrameAction::Wait);
    assert_eq!(frame_action(PluginsState::Ready), FrameAction::FinishAndCleanup);
    assert_eq!(frame_action(PluginsState::Finished), FrameAction::Wait);
    assert_eq!(frame_action(PluginsState::Cleaned), FrameAction::Update);
}
