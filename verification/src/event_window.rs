//! The decisions of the hook bridge: which native signal becomes which event, how
//! the event window answers its messages, and in which order the bridge's thread
//! acquires and releases what it holds.
//!
//! Nothing here touches the operating system. The callbacks that the system calls,
//! and the thread that owns the hooks and the window, ask these functions what to
//! do and do it.

use vstd::prelude::*;

use crate::event_listener::PlatformEvent;
use crate::native::NativeWindow;
use crate::user_config::{keybindings_view, KeybindingConfig, KeybindingConfigView};
use crate::win32;

verus! {

/// Whether a hook signal is about a top-level window itself: the object is the
/// window and not a part or a child of it, and the window's identity is not null.
pub open spec fn is_window_event(handle: isize, id_object: i32, id_child: i32) -> bool {
    id_object == win32::objid_window() && id_child == 0 && handle != 0
}

/// The event that stands for a window-event code, if the code is a recognized one.
pub open spec fn window_event(event: u32, window: NativeWindow) -> Option<PlatformEvent> {
    if event == win32::event_object_destroy() {
        Some(PlatformEvent::WindowDestroyed(window))
    } else if event == win32::event_system_foreground() {
        Some(PlatformEvent::WindowFocused(window))
    } else if event == win32::event_object_hide() || event == win32::event_object_cloaked() {
        Some(PlatformEvent::WindowHidden(window))
    } else if event == win32::event_object_locationchange() {
        Some(PlatformEvent::WindowLocationChanged(window))
    } else if event == win32::event_system_minimizestart() {
        Some(PlatformEvent::WindowMinimized(window))
    } else if event == win32::event_system_minimizeend() {
        Some(PlatformEvent::WindowMinimizeEnded(window))
    } else if event == win32::event_system_movesizeend() {
        Some(PlatformEvent::WindowMovedOrResized(window))
    } else if event == win32::event_object_show() || event == win32::event_object_uncloaked() {
        Some(PlatformEvent::WindowShown(window))
    } else if event == win32::event_object_namechange() {
        Some(PlatformEvent::WindowTitleChanged(window))
    } else {
        None
    }
}

/// Whether a window-event code is one of those that the bridge forwards.
pub open spec fn is_recognized_event(event: u32) -> bool {
    ||| event == win32::event_object_destroy()
    ||| event == win32::event_system_foreground()
    ||| event == win32::event_object_hide()
    ||| event == win32::event_object_cloaked()
    ||| event == win32::event_object_locationchange()
    ||| event == win32::event_system_minimizestart()
    ||| event == win32::event_system_minimizeend()
    ||| event == win32::event_system_movesizeend()
    ||| event == win32::event_object_show()
    ||| event == win32::event_object_uncloaked()
    ||| event == win32::event_object_namechange()
}

/// What the hook callback emits for a signal: the event of the signal's code where
/// the signal is about a top-level window, and nothing otherwise.
pub open spec fn hook_event(event: u32, handle: isize, id_object: i32, id_child: i32) -> Option<
    PlatformEvent,
> {
    if is_window_event(handle, id_object, id_child) {
        window_event(event, NativeWindow { handle })
    } else {
        None
    }
}

/// Decides what the hook callback emits for one native signal.
///
/// A signal about a part of a window, about a child object or about no window is
/// dropped, and so is a signal whose code is not a recognized one.
pub fn event_hook_proc(event: u32, handle: isize, id_object: i32, id_child: i32) -> (emitted:
    Option<PlatformEvent>)
    ensures
        emitted == hook_event(event, handle, id_object, id_child),
        emitted is Some <==> is_window_event(handle, id_object, id_child) && is_recognized_event(
            event,
        ),
{
    let is_window_event = id_object == win32::objid_window_code() && id_child == 0 && handle != 0;
    if !is_window_event {
        return None;
    }
    let window = NativeWindow::new(handle);
    if event == win32::event_object_destroy_code() {
        Some(PlatformEvent::WindowDestroyed(window))
    } else if event == win32::event_system_foreground_code() {
        Some(PlatformEvent::WindowFocused(window))
    } else if event == win32::event_object_hide_code() || event
        == win32::event_object_cloaked_code() {
        Some(PlatformEvent::WindowHidden(window))
    } else if event == win32::event_object_locationchange_code() {
        Some(PlatformEvent::WindowLocationChanged(window))
    } else if event == win32::event_system_minimizestart_code() {
        Some(PlatformEvent::WindowMinimized(window))
    } else if event == win32::event_system_minimizeend_code() {
        Some(PlatformEvent::WindowMinimizeEnded(window))
    } else if event == win32::event_system_movesizeend_code() {
        Some(PlatformEvent::WindowMovedOrResized(window))
    } else if event == win32::event_object_show_code() || event
        == win32::event_object_uncloaked_code() {
        Some(PlatformEvent::WindowShown(window))
    } else if event == win32::event_object_namechange_code() {
        Some(PlatformEvent::WindowTitleChanged(window))
    } else {
        None
    }
}

/// Whether a message of the event window announces that the display settings have
/// changed. A setting change counts when the setting is the work area or the vertical
/// icon spacing, a device change when a device was added or removed, and every other
/// message that is handed in, the display change first of all, counts as it is.
///
/// The code is read from the low 32 bits of `wparam`.
pub open spec fn announces_display_change(message: u32, wparam: usize) -> bool {
    if message == win32::wm_settingchange() {
        wparam as u32 == win32::spi_setworkarea() || wparam as u32
            == win32::spi_iconverticalspacing()
    } else if message == win32::wm_devicechange() {
        wparam as u32 == win32::dbt_devnodes_changed()
    } else {
        true
    }
}

/// The code that is read from a message's parameter is what its low 32 bits hold.
pub proof fn code_is_in_the_low_bits(wparam: usize)
    ensures
        wparam as u32 == wparam as int % 0x1_0000_0000,
{
    let wide = wparam as u64;
    assert(wide as u32 == wide % 0x1_0000_0000u64) by (bit_vector);
    assert(wparam as u32 == wide as u32) by (bit_vector)
        requires
            wide == wparam as u64,
    ;
}

/// Decides whether a display, setting or device change message becomes an event.
pub fn handle_display_change_msg(message: u32, wparam: usize) -> (emitted: Option<PlatformEvent>)
    ensures
        emitted == if announces_display_change(message, wparam) {
            Some(PlatformEvent::DisplaySettingsChanged)
        } else {
            None
        },
        message == win32::wm_settingchange() ==> (emitted is Some <==> (wparam as u32
            == win32::spi_setworkarea() || wparam as u32 == win32::spi_iconverticalspacing())),
        message == win32::wm_devicechange() ==> (emitted is Some <==> wparam as u32
            == win32::dbt_devnodes_changed()),
        message == win32::wm_displaychange() ==> emitted is Some,
{
    let code = #[verifier::truncate] (wparam as u32);
    let should_emit_event = if message == win32::wm_settingchange_code() {
        code == win32::spi_setworkarea_code() || code == win32::spi_iconverticalspacing_code()
    } else if message == win32::wm_devicechange_code() {
        code == win32::dbt_devnodes_changed_code()
    } else {
        true
    };
    if should_emit_event {
        Some(PlatformEvent::DisplaySettingsChanged)
    } else {
        None
    }
}

/// What the procedure of the event window does with a message.
#[derive(Debug, PartialEq, Eq)]
pub enum WindowMessageAction {
    /// Send the event, if there is one, and answer the message with zero.
    Forward(Option<PlatformEvent>),
    /// Ask the message loop to end, and answer the message with zero.
    Quit,
    /// Leave the message to the system's default procedure.
    Default,
}

/// Whether a message belongs to the display, setting and device changes.
pub open spec fn is_display_message(message: u32) -> bool {
    ||| message == win32::wm_displaychange()
    ||| message == win32::wm_settingchange()
    ||| message == win32::wm_devicechange()
}

/// What the event window does with a message.
pub open spec fn window_message_action(message: u32, wparam: usize) -> WindowMessageAction {
    if is_display_message(message) {
        WindowMessageAction::Forward(
            if announces_display_change(message, wparam) {
                Some(PlatformEvent::DisplaySettingsChanged)
            } else {
                None
            },
        )
    } else if message == win32::wm_destroy() {
        WindowMessageAction::Quit
    } else {
        WindowMessageAction::Default
    }
}

/// Decides how the event window answers a message: a display, setting or device
/// change is forwarded where it counts, the window's destruction ends the message
/// loop, and everything else goes to the system's default procedure.
pub fn event_window_proc(message: u32, wparam: usize) -> (action: WindowMessageAction)
    ensures
        action == window_message_action(message, wparam),
{
    if message == win32::wm_displaychange_code() || message == win32::wm_settingchange_code()
        || message == win32::wm_devicechange_code() {
        WindowMessageAction::Forward(handle_display_change_msg(message, wparam))
    } else if message == win32::wm_destroy_code() {
        WindowMessageAction::Quit
    } else {
        WindowMessageAction::Default
    }
}

/// Decides whether a move of the mouse becomes an event: it does while the mouse
/// listener is enabled.
pub fn mouse_move_event(listener_enabled: bool) -> (emitted: Option<PlatformEvent>)
    ensures
        emitted == if listener_enabled {
            Some(PlatformEvent::MouseMove)
        } else {
            None
        },
{
    if listener_enabled {
        Some(PlatformEvent::MouseMove)
    } else {
        None
    }
}

/// What the owner of the hook bridge holds of it: the sender of the abort signal
/// and the handle by which to join the bridge's thread, each until it has been
/// used, and the keybindings and the mouse setting that the bridge listens with.
///
/// The sender is of type `S` and the join handle of type `J`. Nothing is asked of
/// the two types: they are kept, and handed out once.
pub struct EventWindow<S, J> {
    abort_tx: Option<S>,
    window_thread: Option<J>,
    keybindings: Vec<KeybindingConfig>,
    mouse_listener_enabled: bool,
}

/// What an [`EventWindow`] holds.
pub struct EventWindowView<S, J> {
    pub abort_tx: Option<S>,
    pub window_thread: Option<J>,
    pub keybindings: Seq<KeybindingConfigView>,
    pub mouse_listener_enabled: bool,
}

impl<S, J> View for EventWindow<S, J> {
    type V = EventWindowView<S, J>;

    closed spec fn view(&self) -> EventWindowView<S, J> {
        EventWindowView {
            abort_tx: self.abort_tx,
            window_thread: self.window_thread,
            keybindings: keybindings_view(self.keybindings@),
            mouse_listener_enabled: self.mouse_listener_enabled,
        }
    }
}

/// What is left to do to tear the bridge down: first send the abort signal through
/// the sender, if there is one, then join the thread, if there is a handle. Neither
/// a signal that cannot be sent any more nor a thread that cannot be joined is an
/// error.
pub struct Teardown<S, J> {
    pub abort_tx: Option<S>,
    pub window_thread: Option<J>,
}

/// What a destruction hands out of an event window.
pub open spec fn teardown<S, J>(window: EventWindowView<S, J>) -> Teardown<S, J> {
    Teardown { abort_tx: window.abort_tx, window_thread: window.window_thread }
}

/// The event window after its destruction.
pub open spec fn destroyed<S, J>(window: EventWindowView<S, J>) -> EventWindowView<S, J> {
    EventWindowView { abort_tx: None, window_thread: None, ..window }
}

/// Destroying twice is destroying once: the second destruction finds nothing to
/// send and nothing to join, and leaves the event window as the first left it.
pub proof fn destroy_is_idempotent<S, J>(window: EventWindowView<S, J>)
    ensures
        destroyed(destroyed(window)) == destroyed(window),
        teardown(destroyed(window)) == (Teardown::<S, J> { abort_tx: None, window_thread: None }),
{
}

impl<S, J> EventWindow<S, J> {
    /// The event window of a bridge whose thread has been started: it holds the
    /// sender of the abort signal and the handle of the thread.
    pub fn new(
        abort_tx: S,
        window_thread: J,
        keybindings: Vec<KeybindingConfig>,
        enable_mouse_listener: bool,
    ) -> (window: Self)
        ensures
            window@ == (EventWindowView {
                abort_tx: Some(abort_tx),
                window_thread: Some(window_thread),
                keybindings: keybindings_view(keybindings@),
                mouse_listener_enabled: enable_mouse_listener,
            }),
    {
        EventWindow {
            abort_tx: Some(abort_tx),
            window_thread: Some(window_thread),
            keybindings,
            mouse_listener_enabled: enable_mouse_listener,
        }
    }

    /// Replaces the keybindings that the bridge listens for. Nothing else changes:
    /// the thread goes on, and so do its hooks.
    pub fn update_keybindings(&mut self, keybindings: Vec<KeybindingConfig>)
        ensures
            final(self)@ == (EventWindowView {
                keybindings: keybindings_view(keybindings@),
                ..old(self)@
            }),
    {
        self.keybindings = keybindings;
    }

    /// Turns the forwarding of mouse moves on or off.
    pub fn enable_mouse_listener(&mut self, is_enabled: bool)
        ensures
            final(self)@ == (EventWindowView { mouse_listener_enabled: is_enabled, ..old(self)@ }),
    {
        self.mouse_listener_enabled = is_enabled;
    }

    /// Destroys the event window: hands out what is needed to stop the message loop
    /// and to wait for the thread, and keeps nothing of it. On an event window that
    /// has been destroyed there is nothing to hand out.
    pub fn destroy(&mut self) -> (left: Teardown<S, J>)
        ensures
            left == teardown(old(self)@),
            final(self)@ == destroyed(old(self)@),
    {
        let abort_tx = self.abort_tx.take();
        let window_thread = self.window_thread.take();
        Teardown { abort_tx, window_thread }
    }

    /// Whether the event window has been destroyed.
    pub fn is_destroyed(&self) -> (gone: bool)
        ensures
            gone == (self@.abort_tx is None && self@.window_thread is None),
    {
        self.abort_tx.is_none() && self.window_thread.is_none()
    }

    /// The keybindings that the bridge listens for.
    pub fn keybindings(&self) -> (keybindings: &Vec<KeybindingConfig>)
        ensures
            keybindings_view(keybindings@) == self@.keybindings,
    {
        &self.keybindings
    }

    /// Whether mouse moves are forwarded.
    pub fn mouse_listener_enabled(&self) -> (enabled: bool)
        ensures
            enabled == self@.mouse_listener_enabled,
    {
        self.mouse_listener_enabled
    }
}

} // verus!
