//! The desktop-shell core of a tiling window manager: the bridge that turns the
//! platform's window signals into typed events, and the protocol that brings live
//! state into agreement with a configuration that was just loaded.

pub mod event_listener;
pub mod event_window;
pub mod hook_bridge;
pub mod native;
pub mod platform;
pub mod reload_config;
pub mod search;
pub mod user_config;
pub mod win32;
pub mod wm_event;
pub mod wm_state;
