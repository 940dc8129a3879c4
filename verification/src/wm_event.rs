//! What the manager announces to those who observe it.

use vstd::prelude::*;

use crate::user_config::{ParsedConfig, ParsedConfigView};

verus! {

/// An event of the manager itself.
#[derive(Debug, PartialEq, Eq)]
pub enum WmEvent {
    /// The configuration has changed: where it was read from, its text, and what
    /// the text was parsed to.
    UserConfigChanged { config_path: String, config_string: String, parsed_config: ParsedConfig },
}

/// What a [`WmEvent`] holds.
pub enum WmEventView {
    UserConfigChanged {
        config_path: Seq<char>,
        config_string: Seq<char>,
        parsed_config: ParsedConfigView,
    },
}

impl View for WmEvent {
    type V = WmEventView;

    open spec fn view(&self) -> WmEventView {
        match self {
            WmEvent::UserConfigChanged {
                config_path,
                config_string,
                parsed_config,
            } => WmEventView::UserConfigChanged {
                config_path: config_path@,
                config_string: config_string@,
                parsed_config: parsed_config@,
            },
        }
    }
}

} // verus!
