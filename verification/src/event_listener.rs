//! The events that the platform bridge hands to the manager, and the listener that
//! the manager holds to receive them.

use vstd::prelude::*;

use crate::event_window::{destroyed, teardown, EventWindow, EventWindowView, Teardown};
use crate::native::NativeWindow;
use crate::user_config::{clone_keybindings, BindingModeConfig, KeybindingConfig, UserConfig};

verus! {

/// One event per recognized native signal. An event is made where the signal is
/// seen, consumed once by the manager's dispatch loop, and then discarded.
#[derive(Debug, PartialEq, Eq)]
pub enum PlatformEvent {
    DisplaySettingsChanged,
    KeybindingTriggered(KeybindingConfig),
    MouseMove,
    WindowDestroyed(NativeWindow),
    WindowFocused(NativeWindow),
    WindowHidden(NativeWindow),
    WindowLocationChanged(NativeWindow),
    WindowMinimized(NativeWindow),
    WindowMinimizeEnded(NativeWindow),
    WindowMovedOrResized(NativeWindow),
    WindowShown(NativeWindow),
    WindowTitleChanged(NativeWindow),
}

/// What the rest of the manager holds of the platform bridge: the receiving end of
/// the channel of events, of type `R`, and the bridge's event window.
pub struct EventListener<R, S, J> {
    pub event_rx: R,
    event_window: EventWindow<S, J>,
}

/// What an [`EventListener`] holds.
pub struct EventListenerView<R, S, J> {
    pub event_rx: R,
    pub event_window: EventWindowView<S, J>,
}

impl<R, S, J> View for EventListener<R, S, J> {
    type V = EventListenerView<R, S, J>;

    closed spec fn view(&self) -> EventListenerView<R, S, J> {
        EventListenerView { event_rx: self.event_rx, event_window: self.event_window@ }
    }
}

impl<R, S, J> EventListener<R, S, J> {
    /// The listener of a bridge that has been started with the keybindings and the
    /// focus-follows-cursor setting of the configuration.
    pub fn start(config: &UserConfig, event_rx: R, abort_tx: S, window_thread: J) -> (listener: Self)
        ensures
            listener@ == (EventListenerView {
                event_rx,
                event_window: EventWindowView {
                    abort_tx: Some(abort_tx),
                    window_thread: Some(window_thread),
                    keybindings: config@.value.keybindings,
                    mouse_listener_enabled: config@.value.general.focus_follows_cursor,
                },
            }),
    {
        let event_window = EventWindow::new(
            abort_tx,
            window_thread,
            clone_keybindings(&config.value.keybindings),
            config.value.general.focus_follows_cursor,
        );
        EventListener { event_rx, event_window }
    }

    /// Makes the bridge follow the configuration: it listens for the keybindings of
    /// the configuration, and forwards mouse moves if and only if the focus follows
    /// the cursor. The channel, the thread and the hooks stay as they are.
    pub fn update(&mut self, config: &UserConfig, binding_modes: &Vec<BindingModeConfig>)
        ensures
            final(self)@ == (EventListenerView {
                event_window: EventWindowView {
                    keybindings: config@.value.keybindings,
                    mouse_listener_enabled: config@.value.general.focus_follows_cursor,
                    ..old(self)@.event_window
                },
                ..old(self)@
            }),
    {
        self.event_window.update_keybindings(clone_keybindings(&config.value.keybindings));
        self.event_window.enable_mouse_listener(config.value.general.focus_follows_cursor);
    }

    /// Destroys the event window of the listener, as [`EventWindow::destroy`] does.
    pub fn destroy(&mut self) -> (left: Teardown<S, J>)
        ensures
            left == teardown(old(self)@.event_window),
            final(self)@ == (EventListenerView {
                event_window: destroyed(old(self)@.event_window),
                ..old(self)@
            }),
    {
        self.event_window.destroy()
    }

    /// The event window of the listener.
    pub fn event_window(&self) -> (event_window: &EventWindow<S, J>)
        ensures
            event_window@ == self@.event_window,
    {
        &self.event_window
    }
}

} // verus!
