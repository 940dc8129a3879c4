//! The numeric vocabulary of the operating system that the event bridge reads:
//! window-event codes, window messages, setting and device codes.
//!
//! Each code is stated once as a specification function, with the value that the
//! platform documents. Executable code obtains the value from the `windows` crate
//! through a trusted accessor whose contract ties the two together.

use vstd::prelude::*;
use windows::Win32::Foundation::BOOL;
use windows::Win32::UI::Accessibility::HWINEVENTHOOK;
use windows::Win32::UI::WindowsAndMessaging::{
    DBT_DEVNODES_CHANGED, EVENT_OBJECT_CLOAKED, EVENT_OBJECT_DESTROY, EVENT_OBJECT_HIDE,
    EVENT_OBJECT_LOCATIONCHANGE, EVENT_OBJECT_NAMECHANGE, EVENT_OBJECT_SHOW,
    EVENT_OBJECT_UNCLOAKED, EVENT_SYSTEM_FOREGROUND, EVENT_SYSTEM_MINIMIZEEND,
    EVENT_SYSTEM_MINIMIZESTART, EVENT_SYSTEM_MOVESIZEEND, OBJID_WINDOW, SPI_ICONVERTICALSPACING,
    SPI_SETWORKAREA, WM_DESTROY, WM_DEVICECHANGE, WM_DISPLAYCHANGE, WM_SETTINGCHANGE,
};

verus! {

/// A foreground window change.
pub open spec fn event_system_foreground() -> u32 {
    0x0003
}

/// The end of a move or resize of a window.
pub open spec fn event_system_movesizeend() -> u32 {
    0x000B
}

/// A window is about to be minimized.
pub open spec fn event_system_minimizestart() -> u32 {
    0x0016
}

/// A window has been restored from its minimized state.
pub open spec fn event_system_minimizeend() -> u32 {
    0x0017
}

/// An object has been destroyed.
pub open spec fn event_object_destroy() -> u32 {
    0x8001
}

/// A hidden object is shown.
pub open spec fn event_object_show() -> u32 {
    0x8002
}

/// An object is hidden.
pub open spec fn event_object_hide() -> u32 {
    0x8003
}

/// An object has changed location, shape or size.
pub open spec fn event_object_locationchange() -> u32 {
    0x800B
}

/// An object's name has changed.
pub open spec fn event_object_namechange() -> u32 {
    0x800C
}

/// A window has been cloaked.
pub open spec fn event_object_cloaked() -> u32 {
    0x8017
}

/// A window has been uncloaked.
pub open spec fn event_object_uncloaked() -> u32 {
    0x8018
}

/// The object identifier that stands for a window itself, not a part of it.
pub open spec fn objid_window() -> i32 {
    0
}

/// The message sent to a window that is being destroyed.
pub open spec fn wm_destroy() -> u32 {
    0x0002
}

/// The message sent when a system-wide setting has changed.
pub open spec fn wm_settingchange() -> u32 {
    0x001A
}

/// The message sent when the display resolution has changed.
pub open spec fn wm_displaychange() -> u32 {
    0x007E
}

/// The message sent when the hardware configuration has changed.
pub open spec fn wm_devicechange() -> u32 {
    0x0219
}

/// The setting code for the vertical spacing of icons.
pub open spec fn spi_iconverticalspacing() -> u32 {
    0x0018
}

/// The setting code for the size of the work area.
pub open spec fn spi_setworkarea() -> u32 {
    0x002F
}

/// The device event that says a device was added to or removed from the system.
pub open spec fn dbt_devnodes_changed() -> u32 {
    0x0007
}

/// What the platform bindings count as a hook handle that stands for no hook.
pub open spec fn hook_handle_invalid(handle: isize) -> bool {
    handle == -1 || handle == 0
}

/// The truth value of a platform boolean: everything but zero is true.
pub open spec fn bool_value(value: i32) -> bool {
    value != 0
}

/// `windows::Win32::UI::WindowsAndMessaging::EVENT_SYSTEM_FOREGROUND`, trusted to
/// hold the documented code.
#[verifier::external_body]
pub(crate) fn event_system_foreground_code() -> (code: u32)
    ensures
        code == event_system_foreground(),
{
    EVENT_SYSTEM_FOREGROUND
}

/// `windows::Win32::UI::WindowsAndMessaging::EVENT_SYSTEM_MOVESIZEEND`, trusted to
/// hold the documented code.
#[verifier::external_body]
pub(crate) fn event_system_movesizeend_code() -> (code: u32)
    ensures
        code == event_system_movesizeend(),
{
    EVENT_SYSTEM_MOVESIZEEND
}

/// `windows::Win32::UI::WindowsAndMessaging::EVENT_SYSTEM_MINIMIZESTART`, trusted to
/// hold the documented code.
#[verifier::external_body]
pub(crate) fn event_system_minimizestart_code() -> (code: u32)
    ensures
        code == event_system_minimizestart(),
{
    EVENT_SYSTEM_MINIMIZESTART
}

/// `windows::Win32::UI::WindowsAndMessaging::EVENT_SYSTEM_MINIMIZEEND`, trusted to
/// hold the documented code.
#[verifier::external_body]
pub(crate) fn event_system_minimizeend_code() -> (code: u32)
    ensures
        code == event_system_minimizeend(),
{
    EVENT_SYSTEM_MINIMIZEEND
}

/// `windows::Win32::UI::WindowsAndMessaging::EVENT_OBJECT_DESTROY`, trusted to hold
/// the documented code.
#[verifier::external_body]
pub(crate) fn event_object_destroy_code() -> (code: u32)
    ensures
        code == event_object_destroy(),
{
    EVENT_OBJECT_DESTROY
}

/// `windows::Win32::UI::WindowsAndMessaging::EVENT_OBJECT_SHOW`, trusted to hold the
/// documented code.
#[verifier::external_body]
pub(crate) fn event_object_show_code() -> (code: u32)
    ensures
        code == event_object_show(),
{
    EVENT_OBJECT_SHOW
}

/// `windows::Win32::UI::WindowsAndMessaging::EVENT_OBJECT_HIDE`, trusted to hold the
/// documented code.
#[verifier::external_body]
pub(crate) fn event_object_hide_code() -> (code: u32)
    ensures
        code == event_object_hide(),
{
    EVENT_OBJECT_HIDE
}

/// `windows::Win32::UI::WindowsAndMessaging::EVENT_OBJECT_LOCATIONCHANGE`, trusted to
/// hold the documented code.
#[verifier::external_body]
pub(crate) fn event_object_locationchange_code() -> (code: u32)
    ensures
        code == event_object_locationchange(),
{
    EVENT_OBJECT_LOCATIONCHANGE
}

/// `windows::Win32::UI::WindowsAndMessaging::EVENT_OBJECT_NAMECHANGE`, trusted to
/// hold the documented code.
#[verifier::external_body]
pub(crate) fn event_object_namechange_code() -> (code: u32)
    ensures
        code == event_object_namechange(),
{
    EVENT_OBJECT_NAMECHANGE
}

/// `windows::Win32::UI::WindowsAndMessaging::EVENT_OBJECT_CLOAKED`, trusted to hold
/// the documented code.
#[verifier::external_body]
pub(crate) fn event_object_cloaked_code() -> (code: u32)
    ensures
        code == event_object_cloaked(),
{
    EVENT_OBJECT_CLOAKED
}

/// `windows::Win32::UI::WindowsAndMessaging::EVENT_OBJECT_UNCLOAKED`, trusted to hold
/// the documented code.
#[verifier::external_body]
pub(crate) fn event_object_uncloaked_code() -> (code: u32)
    ensures
        code == event_object_uncloaked(),
{
    EVENT_OBJECT_UNCLOAKED
}

/// The number inside `windows::Win32::UI::WindowsAndMessaging::OBJID_WINDOW`,
/// trusted to be the documented identifier.
#[verifier::external_body]
pub(crate) fn objid_window_code() -> (code: i32)
    ensures
        code == objid_window(),
{
    OBJID_WINDOW.0
}

/// `windows::Win32::UI::WindowsAndMessaging::WM_DESTROY`, trusted to hold the
/// documented code.
#[verifier::external_body]
pub(crate) fn wm_destroy_code() -> (code: u32)
    ensures
        code == wm_destroy(),
{
    WM_DESTROY
}

/// `windows::Win32::UI::WindowsAndMessaging::WM_SETTINGCHANGE`, trusted to hold the
/// documented code.
#[verifier::external_body]
pub(crate) fn wm_settingchange_code() -> (code: u32)
    ensures
        code == wm_settingchange(),
{
    WM_SETTINGCHANGE
}

/// `windows::Win32::UI::WindowsAndMessaging::WM_DISPLAYCHANGE`, trusted to hold the
/// documented code.
#[verifier::external_body]
pub(crate) fn wm_displaychange_code() -> (code: u32)
    ensures
        code == wm_displaychange(),
{
    WM_DISPLAYCHANGE
}

/// `windows::Win32::UI::WindowsAndMessaging::WM_DEVICECHANGE`, trusted to hold the
/// documented code.
#[verifier::external_body]
pub(crate) fn wm_devicechange_code() -> (code: u32)
    ensures
        code == wm_devicechange(),
{
    WM_DEVICECHANGE
}

/// The number inside `windows::Win32::UI::WindowsAndMessaging::SPI_ICONVERTICALSPACING`,
/// trusted to be the documented code.
#[verifier::external_body]
pub(crate) fn spi_iconverticalspacing_code() -> (code: u32)
    ensures
        code == spi_iconverticalspacing(),
{
    SPI_ICONVERTICALSPACING.0
}

/// The number inside `windows::Win32::UI::WindowsAndMessaging::SPI_SETWORKAREA`,
/// trusted to be the documented code.
#[verifier::external_body]
pub(crate) fn spi_setworkarea_code() -> (code: u32)
    ensures
        code == spi_setworkarea(),
{
    SPI_SETWORKAREA.0
}

/// `windows::Win32::UI::WindowsAndMessaging::DBT_DEVNODES_CHANGED`, trusted to hold
/// the documented code.
#[verifier::external_body]
pub(crate) fn dbt_devnodes_changed_code() -> (code: u32)
    ensures
        code == dbt_devnodes_changed(),
{
    DBT_DEVNODES_CHANGED
}

/// `windows::Win32::UI::Accessibility::HWINEVENTHOOK::is_invalid` on a handle with
/// the given number: trusted to call exactly the numbers -1 and 0 invalid.
#[verifier::external_body]
pub(crate) fn hook_handle_is_invalid(handle: isize) -> (invalid: bool)
    ensures
        invalid == hook_handle_invalid(handle),
{
    HWINEVENTHOOK(handle).is_invalid()
}

/// `windows::Win32::Foundation::BOOL::as_bool` on a boolean with the given number:
/// trusted to call every number but zero true.
#[verifier::external_body]
pub(crate) fn bool_is_true(value: i32) -> (truth: bool)
    ensures
        truth == bool_value(value),
{
    BOOL(value).as_bool()
}

} // verus!
