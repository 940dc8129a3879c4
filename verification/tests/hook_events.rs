use windows::Win32::UI::WindowsAndMessaging::{
    EVENT_OBJECT_CLOAKED, EVENT_OBJECT_CREATE, EVENT_OBJECT_DESTROY, EVENT_OBJECT_FOCUS,
    EVENT_OBJECT_HIDE, EVENT_OBJECT_LOCATIONCHANGE, EVENT_OBJECT_NAMECHANGE, EVENT_OBJECT_SHOW,
    EVENT_OBJECT_UNCLOAKED, EVENT_SYSTEM_FOREGROUND, EVENT_SYSTEM_MINIMIZEEND,
    EVENT_SYSTEM_MINIMIZESTART, EVENT_SYSTEM_MOVESIZEEND, EVENT_SYSTEM_MOVESIZESTART,
    OBJID_CARET, OBJID_CLIENT, OBJID_WINDOW,
};
use wm::event_listener::PlatformEvent;
use wm::event_window::event_hook_proc;
use wm::native::NativeWindow;

fn window(handle: isize) -> NativeWindow {
    NativeWindow::new(handle)
}

#[test]
fn destroy_signal_becomes_window_destroyed() {
    assert_eq!(
        event_hook_proc(EVENT_OBJECT_DESTROY, 42, OBJID_WINDOW.0, 0),
        Some(PlatformEvent::WindowDestroyed(window(42)))
    );
}

#[test]
fn foreground_signal_becomes_window_focused() {
    assert_eq!(
        event_hook_proc(EVENT_SYSTEM_FOREGROUND, 42, OBJID_WINDOW.0, 0),
        Some(PlatformEvent::WindowFocused(window(42)))
    );
}

#[test]
fn hide_and_cloak_signals_become_window_hidden() {
    assert_eq!(
        event_hook_proc(EVENT_OBJECT_HIDE, 7, OBJID_WINDOW.0, 0),
        Some(PlatformEvent::WindowHidden(window(7)))
    );
    assert_eq!(
        event_hook_proc(EVENT_OBJECT_CLOAKED, 7, OBJID_WINDOW.0, 0),
        Some(PlatformEvent::WindowHidden(window(7)))
    );
}

#[test]
fn show_and_uncloak_signals_become_window_shown() {
    assert_eq!(
        event_hook_proc(EVENT_OBJECT_SHOW, 7, OBJID_WINDOW.0, 0),
        Some(PlatformEvent::WindowShown(window(7)))
    );
    assert_eq!(
        event_hook_proc(EVENT_OBJECT_UNCLOAKED, 7, OBJID_WINDOW.0, 0),
        Some(PlatformEvent::WindowShown(window(7)))
    );
}

#[test]
fn location_signal_becomes_window_location_changed() {
    assert_eq!(
        event_hook_proc(EVENT_OBJECT_LOCATIONCHANGE, -3, OBJID_WINDOW.0, 0),
        Some(PlatformEvent::WindowLocationChanged(window(-3)))
    );
}

#[test]
fn minimize_signals_become_minimized_and_minimize_ended() {
    assert_eq!(
        event_hook_proc(EVENT_SYSTEM_MINIMIZESTART, 9, OBJID_WINDOW.0, 0),
        Some(PlatformEvent::WindowMinimized(window(9)))
    );
    assert_eq!(
        event_hook_proc(EVENT_SYSTEM_MINIMIZEEND, 9, OBJID_WINDOW.0, 0),
        Some(PlatformEvent::WindowMinimizeEnded(window(9)))
    );
}

#[test]
fn move_size_end_signal_becomes_window_moved_or_resized() {
    assert_eq!(
        event_hook_proc(EVENT_SYSTEM_MOVESIZEEND, 9, OBJID_WINDOW.0, 0),
        Some(PlatformEvent::WindowMovedOrResized(window(9)))
    );
}

#[test]
fn name_change_signal_becomes_window_title_changed() {
    assert_eq!(
        event_hook_proc(EVENT_OBJECT_NAMECHANGE, 9, OBJID_WINDOW.0, 0),
        Some(PlatformEvent::WindowTitleChanged(window(9)))
    );
}

#[test]
fn documented_codes_are_recognized() {
    // The same signals, written with the numbers that the platform documents.
    assert_eq!(event_hook_proc(0x8001, 1, 0, 0), Some(PlatformEvent::WindowDestroyed(window(1))));
    assert_eq!(event_hook_proc(0x0003, 1, 0, 0), Some(PlatformEvent::WindowFocused(window(1))));
    assert_eq!(event_hook_proc(0x8003, 1, 0, 0), Some(PlatformEvent::WindowHidden(window(1))));
    assert_eq!(event_hook_proc(0x8017, 1, 0, 0), Some(PlatformEvent::WindowHidden(window(1))));
    assert_eq!(
        event_hook_proc(0x800B, 1, 0, 0),
        Some(PlatformEvent::WindowLocationChanged(window(1)))
    );
    assert_eq!(event_hook_proc(0x0016, 1, 0, 0), Some(PlatformEvent::WindowMinimized(window(1))));
    assert_eq!(
        event_hook_proc(0x0017, 1, 0, 0),
        Some(PlatformEvent::WindowMinimizeEnded(window(1)))
    );
    assert_eq!(
        event_hook_proc(0x000B, 1, 0, 0),
        Some(PlatformEvent::WindowMovedOrResized(window(1)))
    );
    assert_eq!(event_hook_proc(0x8002, 1, 0, 0), Some(PlatformEvent::WindowShown(window(1))));
    assert_eq!(event_hook_proc(0x8018, 1, 0, 0), Some(PlatformEvent::WindowShown(window(1))));
    assert_eq!(
        event_hook_proc(0x800C, 1, 0, 0),
        Some(PlatformEvent::WindowTitleChanged(window(1)))
    );
}

#[test]
fn unrecognized_signals_emit_nothing() {
    assert_eq!(event_hook_proc(EVENT_OBJECT_CREATE, 42, OBJID_WINDOW.0, 0), None);
    assert_eq!(event_hook_proc(EVENT_OBJECT_FOCUS, 42, OBJID_WINDOW.0, 0), None);
    assert_eq!(event_hook_proc(EVENT_SYSTEM_MOVESIZESTART, 42, OBJID_WINDOW.0, 0), None);
    assert_eq!(event_hook_proc(0, 42, OBJID_WINDOW.0, 0), None);
    assert_eq!(event_hook_proc(u32::MAX, 42, OBJID_WINDOW.0, 0), None);
}

#[test]
fn signals_about_parts_of_a_window_emit_nothing() {
    assert_eq!(event_hook_proc(EVENT_OBJECT_DESTROY, 42, OBJID_CLIENT.0, 0), None);
    assert_eq!(event_hook_proc(EVENT_OBJECT_LOCATIONCHANGE, 42, OBJID_CARET.0, 0), None);
    assert_eq!(event_hook_proc(EVENT_OBJECT_SHOW, 42, 1, 0), None);
}

#[test]
fn signals_about_child_objects_emit_nothing() {
    assert_eq!(event_hook_proc(EVENT_OBJECT_DESTROY, 42, OBJID_WINDOW.0, 1), None);
    assert_eq!(event_hook_proc(EVENT_OBJECT_NAMECHANGE, 42, OBJID_WINDOW.0, -1), None);
}

#[test]
fn signals_about_no_window_emit_nothing() {
    assert_eq!(event_hook_proc(EVENT_OBJECT_DESTROY, 0, OBJID_WINDOW.0, 0), None);
    assert_eq!(event_hook_proc(EVENT_SYSTEM_FOREGROUND, 0, OBJID_WINDOW.0, 0), None);
}

#[test]
fn emitted_event_carries_the_handle_of_the_signal() {
    for handle in [1isize, -1, 0x7fff_0000, isize::MAX, isize::MIN] {
        assert_eq!(
            event_hook_proc(EVENT_SYSTEM_FOREGROUND, handle, OBJID_WINDOW.0, 0),
            Some(PlatformEvent::WindowFocused(window(handle)))
        );
    }
}
