//! Identities of the platform's windows and monitors.

use vstd::prelude::*;

verus! {

/// The number by which the platform names a window or a monitor.
pub type WindowHandle = isize;

/// The identity of a native window. It owns nothing of the window itself.
#[derive(Debug, Clone, Copy, PartialEq, Eq, Hash, Structural)]
pub struct NativeWindow {
    pub handle: WindowHandle,
}

impl NativeWindow {
    /// The window with the given handle.
    pub fn new(handle: WindowHandle) -> (window: NativeWindow)
        ensures
            window.handle == handle,
    {
        NativeWindow { handle }
    }
}

/// The identity of a native monitor.
#[derive(Debug, Clone, Copy, PartialEq, Eq, Hash, Structural)]
pub struct NativeMonitor {
    pub handle: isize,
}

impl NativeMonitor {
    /// The monitor with the given handle.
    pub fn new(handle: isize) -> (monitor: NativeMonitor)
        ensures
            monitor.handle == handle,
    {
        NativeMonitor { handle }
    }
}

} // verus!
