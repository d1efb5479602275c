//! A transferred offscreen surface presented as a native window handle, usable
//! only on the thread that built the bridge.
use vstd::prelude::*;

verus! {

/// A window handle that a GPU API can build a rendering surface from.
#[derive(Clone, Copy, Debug, PartialEq, Eq, Structural)]
pub struct WindowHandle {
    /// The offscreen surface the handle targets.
    pub surface: usize,
}

/// The display a window handle belongs to; in a browser there is one.
#[derive(Clone, Copy, Debug, PartialEq, Eq, Structural)]
pub enum DisplayHandle {
    Web,
}

/// Why a handle was refused.
#[derive(Clone, Copy, Debug, PartialEq, Eq, Structural)]
pub enum BridgeError {
    /// The bridge was used from a thread other than the one that built it.
    ThreadAffinityViolation,
}

/// A reference to an offscreen surface, bound to the thread that built it.
#[derive(Clone, Copy, Debug, PartialEq, Eq, Structural)]
pub struct HandleBridge {
    surface: usize,
    owning_thread: u64,
}

impl HandleBridge {
    /// The surface this bridge refers to.
    pub closed spec fn surface_spec(self) -> usize {
        self.surface
    }

    /// The thread that built this bridge.
    pub closed spec fn owner_spec(self) -> u64 {
        self.owning_thread
    }

    /// What [`HandleBridge::as_window_handle`] returns on thread `thread`.
    pub open spec fn window_handle_on(self, thread: u64) -> Result<WindowHandle, BridgeError> {
        if thread == self.owner_spec() {
            Ok(WindowHandle { surface: self.surface_spec() })
        } else {
            Err(BridgeError::ThreadAffinityViolation)
        }
    }

    /// Wraps `surface` for use on `current_thread`, the thread making the call.
    pub fn new(surface: usize, current_thread: u64) -> (r: HandleBridge)
        ensures
            r.surface_spec() == surface,
            r.owner_spec() == current_thread,
    {
        HandleBridge { surface, owning_thread: current_thread }
    }

    /// The surface this bridge refers to.
    pub fn surface(&self) -> (r: usize)
        ensures
            r == self.surface_spec(),
    {
        self.surface
    }

    /// The thread that built this bridge.
    pub fn owning_thread(&self) -> (r: u64)
        ensures
            r == self.owner_spec(),
    {
        self.owning_thread
    }

    /// The window handle, when called from the owning thread
    /// (`current_thread`); from any other thread the access is refused.
    pub fn as_window_handle(&self, current_thread: u64) -> (r: Result<WindowHandle, BridgeError>)
        ensures
            r == self.window_handle_on(current_thread),
    {
        if current_thread != self.owning_thread {
            Err(BridgeError::ThreadAffinityViolation)
        } else {
            Ok(WindowHandle { surface: self.surface })
        }
    }

    /// The display handle, on any thread.
    pub fn as_display_handle(&self) -> (r: DisplayHandle)
        ensures
            r == DisplayHandle::Web,
    {
        DisplayHandle::Web
    }
}

/// A bridge built on a thread hands out its window handle on that thread and
/// on no other; there the access fails with a thread-affinity violation.
pub proof fn window_handle_only_on_owning_thread(surface: usize, built_on: u64, called_on: u64)
    ensures
        forall|b: HandleBridge|
            b.surface_spec() == surface && b.owner_spec() == built_on ==> {
                &&& (called_on == built_on ==> b.window_handle_on(called_on) == Ok::<_, BridgeError>(
                    WindowHandle { surface },
                ))
                &&& (called_on != built_on ==> b.window_handle_on(called_on) == Err::<WindowHandle, _>(
                    BridgeError::ThreadAffinityViolation,
                ))
            },
{
}

} // verus!
