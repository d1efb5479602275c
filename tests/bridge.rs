use offscreen_relay::bridge::{BridgeError, DisplayHandle, HandleBridge, WindowHandle};

#[test]
fn window_handle_on_owning_thread() {
    let bridge = HandleBridge::new(3, 11);
    assert_eq!(bridge.as_window_handle(11), Ok(WindowHandle { surface: 3 }));
    assert_eq!(bridge.surface(), 3);
    assert_eq!(bridge.owning_thread(), 11);
}

#[test]
fn window_handle_refused_on_other_thread() {
    let bridge = HandleBridge::new(3, 11);
    assert_eq!(bridge.as_window_handle(12), Err(BridgeError::ThreadAffinityViolation));
    assert_eq!(bridge.as_window_handle(0), Err(BridgeError::ThreadAffinityViolation));
    assert_eq!(bridge.as_window_handle(u64::MAX), Err(BridgeError::ThreadAffinityViolation));
}

#[test]
fn display_handle_on_any_thread() {
    let bridge = HandleBridge::new(0, 5);
    assert_eq!(bridge.as_display_handle(), DisplayHandle::Web);
}
