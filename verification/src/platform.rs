//! What the platform has reported of itself, and the questions that the manager
//! asks of it.
//!
//! The readings are taken from the operating system by the caller and handed in as
//! plain values; the answers are computed from them.

use vstd::prelude::*;

use crate::hook_bridge::{initial, BridgeAction, EventRange, HookBridge};
use crate::native::{NativeMonitor, NativeWindow};
use crate::search::{first, first_is_unique, is_first};

verus! {

/// What the platform reported of one window.
#[derive(Debug, Clone, Copy, PartialEq, Eq, Structural)]
pub struct WindowReading {
    pub window: NativeWindow,
    /// Whether the window is one that the manager takes charge of.
    pub manageable: bool,
    /// The monitor that the platform names as nearest to the window.
    pub nearest_monitor: NativeMonitor,
}

/// The readings of the platform at one moment.
#[derive(Debug, PartialEq, Eq)]
pub struct Platform {
    /// The window in the foreground.
    pub foreground: NativeWindow,
    /// The desktop window.
    pub desktop: NativeWindow,
    /// The monitors, in the order of enumeration.
    pub monitors: Vec<NativeMonitor>,
    /// The top-level windows, in the order of enumeration.
    pub windows: Vec<WindowReading>,
    /// Whether an instance of the manager was found running already.
    pub instance_exists: bool,
}

/// Why the platform has no answer.
#[derive(Debug, Clone, Copy, PartialEq, Eq, Structural)]
pub enum PlatformError {
    /// The readings hold nothing of the window.
    UnknownWindow,
    /// Another instance of the manager is running.
    AlreadyRunning,
}

/// The token of being the only running instance of the manager.
#[derive(Debug, PartialEq, Eq)]
pub struct SingleInstance {}

/// The property of being the reading of the window with the given handle.
pub open spec fn reads(handle: isize) -> spec_fn(WindowReading) -> bool {
    |reading: WindowReading| reading.window.handle == handle
}

/// The windows of the readings that are manageable, in their order.
pub open spec fn manageable(readings: Seq<WindowReading>) -> Seq<NativeWindow> {
    readings.filter(|reading: WindowReading| reading.manageable).map_values(
        |reading: WindowReading| reading.window,
    )
}

impl Platform {
    /// The window in the foreground.
    pub fn foreground_window(&self) -> (window: NativeWindow)
        ensures
            window == self.foreground,
    {
        self.foreground
    }

    /// The desktop window.
    pub fn desktop_window(&self) -> (window: NativeWindow)
        ensures
            window == self.desktop,
    {
        self.desktop
    }

    /// The monitors, in the order of enumeration.
    pub fn monitors(&self) -> (monitors: Vec<NativeMonitor>)
        ensures
            monitors@ == self.monitors@,
    {
        let mut monitors: Vec<NativeMonitor> = Vec::new();
        let mut i: usize = 0;
        while i < self.monitors.len()
            invariant
                i <= self.monitors.len(),
                monitors@ == self.monitors@.subrange(0, i as int),
            decreases self.monitors.len() - i,
        {
            monitors.push(self.monitors[i]);
            assert(monitors@ =~= self.monitors@.subrange(0, i + 1));
            i += 1;
        }
        assert(monitors@ =~= self.monitors@);
        monitors
    }

    /// The monitor nearest to a window, as the platform reported it: that of the
    /// first reading of the window. A window without a reading has none.
    pub fn nearest_monitor(&self, window: &NativeWindow) -> (monitor: Result<
        NativeMonitor,
        PlatformError,
    >)
        ensures
            match first(self.windows@, reads(window.handle)) {
                Some(k) => monitor == Ok::<NativeMonitor, PlatformError>(
                    self.windows@[k].nearest_monitor,
                ),
                None => monitor == Err::<NativeMonitor, PlatformError>(
                    PlatformError::UnknownWindow,
                ),
            },
    {
        let mut k: usize = 0;
        while k < self.windows.len()
            invariant
                k <= self.windows.len(),
                forall|j: int| 0 <= j < k ==> !reads(window.handle)(#[trigger] self.windows@[j]),
            decreases self.windows.len() - k,
        {
            if self.windows[k].window.handle == window.handle {
                proof {
                    assert(is_first(self.windows@, reads(window.handle), k as int));
                    first_is_unique(self.windows@, reads(window.handle), k as int);
                }
                return Ok(self.windows[k].nearest_monitor);
            }
            k += 1;
        }
        proof {
            assert forall|c: int| !is_first(self.windows@, reads(window.handle), c) by {
                if 0 <= c < self.windows@.len() {
                    assert(!reads(window.handle)(self.windows@[c]));
                }
            }
        }
        Err(PlatformError::UnknownWindow)
    }

    /// The windows that the manager takes charge of, in the order of enumeration.
    pub fn manageable_windows(&self) -> (windows: Vec<NativeWindow>)
        ensures
            windows@ == manageable(self.windows@),
    {
        let mut windows: Vec<NativeWindow> = Vec::new();
        let mut i: usize = 0;
        while i < self.windows.len()
            invariant
                i <= self.windows.len(),
                windows@ == manageable(self.windows@.subrange(0, i as int)),
            decreases self.windows.len() - i,
        {
            proof {
                let seen = self.windows@.subrange(0, i as int);
                let reading = self.windows@[i as int];
                assert(self.windows@.subrange(0, i + 1) =~= seen.push(reading));
                lemma_manageable_push(seen, reading);
            }
            if self.windows[i].manageable {
                windows.push(self.windows[i].window);
            }
            i += 1;
        }
        assert(self.windows@.subrange(0, self.windows@.len() as int) =~= self.windows@);
        windows
    }

    /// The token of the only running instance, refused where another instance is
    /// running.
    pub fn new_single_instance(&self) -> (instance: Result<SingleInstance, PlatformError>)
        ensures
            self.instance_exists ==> instance == Err::<SingleInstance, PlatformError>(
                PlatformError::AlreadyRunning,
            ),
            !self.instance_exists ==> instance is Ok,
    {
        if self.instance_exists {
            Err(PlatformError::AlreadyRunning)
        } else {
            Ok(SingleInstance {  })
        }
    }

    /// Begins the life of a thread that runs a message loop on a window of its own
    /// and holds no hooks, and says which call comes first.
    pub fn create_message_loop() -> (started: (HookBridge, BridgeAction))
        ensures
            (started.0@, started.1) == initial(Seq::<EventRange>::empty()),
            started.1 == BridgeAction::CreateWindow,
    {
        HookBridge::start(Vec::new())
    }
}

/// What one more reading adds to the manageable windows.
proof fn lemma_manageable_push(readings: Seq<WindowReading>, reading: WindowReading)
    ensures
        manageable(readings.push(reading)) == if reading.manageable {
            manageable(readings).push(reading.window)
        } else {
            manageable(readings)
        },
{
    reveal(Seq::filter);
    assert(readings.push(reading).drop_last() =~= readings);
    assert(readings.push(reading).last() == reading);
    if reading.manageable {
        assert(manageable(readings.push(reading)) =~= manageable(readings).push(reading.window));
    }
}

} // verus!
