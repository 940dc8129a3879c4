use wm::native::{NativeMonitor, NativeWindow};
use wm::platform::{Platform, PlatformError, SingleInstance, WindowReading};

fn reading(handle: isize, manageable: bool, monitor: isize) -> WindowReading {
    WindowReading {
        window: NativeWindow::new(handle),
        manageable,
        nearest_monitor: NativeMonitor::new(monitor),
    }
}

fn platform(instance_exists: bool) -> Platform {
    Platform {
        foreground: NativeWindow::new(11),
        desktop: NativeWindow::new(1),
        monitors: vec![NativeMonitor::new(900), NativeMonitor::new(901)],
        windows: vec![
            reading(10, false, 900),
            reading(11, true, 901),
            reading(12, true, 900),
            reading(11, false, 900),
            reading(13, false, 901),
            reading(14, true, 901),
        ],
        instance_exists,
    }
}

#[test]
fn native_handles_are_kept() {
    assert_eq!(NativeWindow::new(-5).handle, -5);
    assert_eq!(NativeMonitor::new(77).handle, 77);
}

#[test]
fn foreground_and_desktop_windows_are_those_reported() {
    let platform = platform(false);
    assert_eq!(platform.foreground_window(), NativeWindow::new(11));
    assert_eq!(platform.desktop_window(), NativeWindow::new(1));
}

#[test]
fn monitors_come_in_the_order_of_enumeration() {
    assert_eq!(platform(false).monitors(), vec![NativeMonitor::new(900), NativeMonitor::new(901)]);
    let none = Platform {
        foreground: NativeWindow::new(0),
        desktop: NativeWindow::new(0),
        monitors: Vec::new(),
        windows: Vec::new(),
        instance_exists: false,
    };
    assert_eq!(none.monitors(), Vec::new());
}

#[test]
fn nearest_monitor_is_that_of_the_first_reading_of_the_window() {
    let platform = platform(false);
    assert_eq!(platform.nearest_monitor(&NativeWindow::new(10)), Ok(NativeMonitor::new(900)));
    assert_eq!(platform.nearest_monitor(&NativeWindow::new(11)), Ok(NativeMonitor::new(901)));
    assert_eq!(platform.nearest_monitor(&NativeWindow::new(14)), Ok(NativeMonitor::new(901)));
}

#[test]
fn nearest_monitor_of_an_unknown_window_is_an_error() {
    let platform = platform(false);
    assert_eq!(platform.nearest_monitor(&NativeWindow::new(15)), Err(PlatformError::UnknownWindow));
    assert_eq!(platform.nearest_monitor(&NativeWindow::new(0)), Err(PlatformError::UnknownWindow));
}

#[test]
fn manageable_windows_are_filtered_in_order() {
    assert_eq!(
        platform(false).manageable_windows(),
        vec![NativeWindow::new(11), NativeWindow::new(12), NativeWindow::new(14)]
    );
}

#[test]
fn single_instance_is_refused_when_another_is_running() {
    assert_eq!(platform(true).new_single_instance(), Err(PlatformError::AlreadyRunning));
    assert_eq!(platform(false).new_single_instance(), Ok(SingleInstance {}));
}
