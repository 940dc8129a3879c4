use wm::native::{NativeMonitor, NativeWindow};
use wm::reload_config::{
    border_color_delta, find_workspace_config, reload_config, update_container_gaps,
    update_window_effects, update_workspace_configs, FieldDelta, LoadedConfig, ReloadError,
    ReloadWarning,
};
use wm::user_config::{
    BindingModeConfig, Color, GapsConfig, GeneralConfig, KeybindingConfig, ParsedConfig,
    UserConfig, WindowEffectConfig, WindowEffectsConfig, WorkspaceConfig,
};
use wm::wm_event::WmEvent;
use wm::wm_state::{Container, ContainerParent, ContainerRef, WmState};

const RED: Color = Color { r: 255, g: 0, b: 0, a: 255 };
const BLUE: Color = Color { r: 0, g: 0, b: 255, a: 255 };

fn entry(name: &str) -> WorkspaceConfig {
    WorkspaceConfig { name: name.to_string(), bind_to_monitor: None, keep_alive: false }
}

fn bound_entry(name: &str, monitor: u32) -> WorkspaceConfig {
    WorkspaceConfig { name: name.to_string(), bind_to_monitor: Some(monitor), keep_alive: true }
}

fn effects(focused: Option<Color>, other: Option<Color>) -> WindowEffectsConfig {
    WindowEffectsConfig {
        focused_window: WindowEffectConfig { border_color: focused },
        other_windows: WindowEffectConfig { border_color: other },
    }
}

fn parsed(
    workspaces: Vec<WorkspaceConfig>,
    gaps: (u32, u32),
    window_effects: WindowEffectsConfig,
) -> ParsedConfig {
    ParsedConfig {
        keybindings: vec![KeybindingConfig {
            bindings: vec!["Alt+H".to_string()],
            commands: vec!["focus left".to_string()],
        }],
        general: GeneralConfig { focus_follows_cursor: false },
        gaps: GapsConfig { inner_gap: gaps.0, outer_gap: gaps.1 },
        window_effects,
        workspaces,
    }
}

fn user_config(value: ParsedConfig) -> UserConfig {
    UserConfig { path: "C:\\wm\\config.yaml".to_string(), value_str: "old text".to_string(), value }
}

fn loaded(value: ParsedConfig) -> LoadedConfig {
    LoadedConfig { value_str: "new text".to_string(), value }
}

/// One monitor with the workspaces of the given names.
fn state_with_workspaces(names: &[&str]) -> WmState {
    let mut state = WmState::new();
    let monitor = state.add_monitor(NativeMonitor::new(500));
    for name in names {
        assert!(state.add_workspace(monitor, entry(name), 10).is_some());
    }
    state
}

/// One monitor, one workspace named "1", and below it: a split container (0) that
/// holds a tiling window (1) and a nested split container (2), which holds a tiling
/// window (3) and a floating window (4); and a tiling window (5) directly below the
/// workspace. The windows have the handles 101, 103, 104 and 105.
fn state_with_tree() -> WmState {
    let mut state = state_with_workspaces(&["1"]);
    let below_workspace = ContainerParent::Workspace(0);
    assert_eq!(
        state.add_container(Container::Split { parent: below_workspace, inner_gap: 1 }),
        Some(0)
    );
    assert_eq!(
        state.add_container(Container::TilingWindow {
            parent: ContainerParent::Split(0),
            native: NativeWindow::new(101),
            inner_gap: 2,
        }),
        Some(1)
    );
    assert_eq!(
        state.add_container(Container::Split { parent: ContainerParent::Split(0), inner_gap: 3 }),
        Some(2)
    );
    assert_eq!(
        state.add_container(Container::TilingWindow {
            parent: ContainerParent::Split(2),
            native: NativeWindow::new(103),
            inner_gap: 4,
        }),
        Some(3)
    );
    assert_eq!(
        state.add_container(Container::NonTilingWindow {
            parent: ContainerParent::Split(2),
            native: NativeWindow::new(104),
        }),
        Some(4)
    );
    assert_eq!(
        state.add_container(Container::TilingWindow {
            parent: below_workspace,
            native: NativeWindow::new(105),
            inner_gap: 5,
        }),
        Some(5)
    );
    state
}

fn windows(handles: &[isize]) -> Vec<NativeWindow> {
    handles.iter().map(|handle| NativeWindow::new(*handle)).collect()
}

#[test]
fn workspace_takes_the_entry_of_its_name() {
    let mut state = state_with_workspaces(&["1", "2"]);
    let config = user_config(parsed(
        vec![bound_entry("2", 3), bound_entry("1", 4), entry("3")],
        (0, 0),
        effects(None, None),
    ));
    let warnings = update_workspace_configs(&mut state, &config);
    assert!(warnings.is_empty());
    assert_eq!(state.workspaces[0].config, bound_entry("1", 4));
    assert_eq!(state.workspaces[1].config, bound_entry("2", 3));
}

#[test]
fn workspace_takes_the_first_entry_of_its_name() {
    let mut state = state_with_workspaces(&["1"]);
    let config = user_config(parsed(
        vec![entry("0"), bound_entry("1", 7), bound_entry("1", 8)],
        (0, 0),
        effects(None, None),
    ));
    update_workspace_configs(&mut state, &config);
    assert_eq!(state.workspaces[0].config, bound_entry("1", 7));
}

#[test]
fn removed_workspace_takes_the_unused_entry() {
    // An active workspace named "1", and a configuration without an entry of
    // that name but with one entry that nothing uses.
    let mut state = state_with_workspaces(&["1"]);
    let config = user_config(parsed(vec![bound_entry("9", 0)], (0, 0), effects(None, None)));
    let warnings = update_workspace_configs(&mut state, &config);
    assert!(warnings.is_empty());
    assert_eq!(state.workspaces[0].config, bound_entry("9", 0));
    assert_ne!(state.workspaces[0].config, entry("1"));
    assert_eq!(state.workspaces[0].monitor, 0);
    assert_eq!(state.workspaces[0].outer_gap, 10);
}

#[test]
fn removed_workspace_without_unused_entry_keeps_its_configuration() {
    let mut state = state_with_workspaces(&["1", "2"]);
    // The only entry is in use by the workspace "2".
    let config = user_config(parsed(vec![entry("2")], (0, 0), effects(None, None)));
    let warnings = update_workspace_configs(&mut state, &config);
    assert_eq!(warnings, vec![ReloadWarning::NoAvailableWorkspaceConfig { workspace: 0 }]);
    assert_eq!(state.workspaces[0].config, entry("1"));
    assert_eq!(state.workspaces[1].config, entry("2"));
}

#[test]
fn removed_workspace_with_an_empty_configuration_keeps_its_configuration() {
    let mut state = state_with_workspaces(&["1"]);
    let config = user_config(parsed(Vec::new(), (0, 0), effects(None, None)));
    let warnings = update_workspace_configs(&mut state, &config);
    assert_eq!(warnings, vec![ReloadWarning::NoAvailableWorkspaceConfig { workspace: 0 }]);
    assert_eq!(state.workspaces[0].config, entry("1"));
}

#[test]
fn removed_workspaces_take_different_entries_in_turn() {
    let mut state = state_with_workspaces(&["a", "b", "c"]);
    let config =
        user_config(parsed(vec![entry("x"), entry("y")], (0, 0), effects(None, None)));
    let warnings = update_workspace_configs(&mut state, &config);
    // "a" takes "x"; "b" sees that "x" is in use and takes "y"; nothing is left
    // for "c".
    assert_eq!(state.workspaces[0].config, entry("x"));
    assert_eq!(state.workspaces[1].config, entry("y"));
    assert_eq!(state.workspaces[2].config, entry("c"));
    assert_eq!(warnings, vec![ReloadWarning::NoAvailableWorkspaceConfig { workspace: 2 }]);
}

#[test]
fn removed_workspace_does_not_take_an_entry_that_a_later_workspace_goes_by() {
    let mut state = state_with_workspaces(&["gone", "2"]);
    let config =
        user_config(parsed(vec![entry("2"), entry("3")], (0, 0), effects(None, None)));
    let warnings = update_workspace_configs(&mut state, &config);
    assert!(warnings.is_empty());
    assert_eq!(state.workspaces[0].config, entry("3"));
    assert_eq!(state.workspaces[1].config, entry("2"));
}

#[test]
fn removed_workspace_prefers_an_entry_bound_to_its_monitor() {
    let mut state = WmState::new();
    state.add_monitor(NativeMonitor::new(500));
    state.add_monitor(NativeMonitor::new(501));
    state.add_workspace(1, entry("gone"), 0);
    let config = user_config(parsed(
        vec![entry("free"), bound_entry("first", 0), bound_entry("second", 1)],
        (0, 0),
        effects(None, None),
    ));
    update_workspace_configs(&mut state, &config);
    assert_eq!(state.workspaces[0].config, bound_entry("second", 1));
}

#[test]
fn removed_workspace_prefers_an_unbound_entry_to_one_bound_elsewhere() {
    let mut state = state_with_workspaces(&["gone"]);
    let config = user_config(parsed(
        vec![bound_entry("elsewhere", 1), entry("free")],
        (0, 0),
        effects(None, None),
    ));
    update_workspace_configs(&mut state, &config);
    assert_eq!(state.workspaces[0].config, entry("free"));
}

#[test]
fn removed_workspace_takes_an_entry_bound_elsewhere_when_nothing_else_is_left() {
    let mut state = state_with_workspaces(&["gone"]);
    let config =
        user_config(parsed(vec![bound_entry("elsewhere", 1)], (0, 0), effects(None, None)));
    let warnings = update_workspace_configs(&mut state, &config);
    assert!(warnings.is_empty());
    assert_eq!(state.workspaces[0].config, bound_entry("elsewhere", 1));
}

#[test]
fn find_workspace_config_finds_the_first_entry_of_a_name() {
    let entries = vec![entry("a"), entry("b"), bound_entry("b", 1)];
    assert_eq!(find_workspace_config(&entries, &"a".to_string()), Some(0));
    assert_eq!(find_workspace_config(&entries, &"b".to_string()), Some(1));
    assert_eq!(find_workspace_config(&entries, &"c".to_string()), None);
    assert_eq!(find_workspace_config(&entries, &"".to_string()), None);
    assert_eq!(find_workspace_config(&Vec::new(), &"a".to_string()), None);
}

#[test]
fn gaps_reach_every_tiling_container_and_every_workspace() {
    let mut state = state_with_tree();
    state.add_workspace(0, entry("2"), 77);
    let config = user_config(parsed(vec![entry("1")], (20, 30), effects(None, None)));
    update_container_gaps(&mut state, &config);
    let below_workspace = ContainerParent::Workspace(0);
    assert_eq!(
        state.containers,
        vec![
            Container::Split { parent: below_workspace, inner_gap: 20 },
            Container::TilingWindow {
                parent: ContainerParent::Split(0),
                native: NativeWindow::new(101),
                inner_gap: 20,
            },
            Container::Split { parent: ContainerParent::Split(0), inner_gap: 20 },
            Container::TilingWindow {
                parent: ContainerParent::Split(2),
                native: NativeWindow::new(103),
                inner_gap: 20,
            },
            Container::NonTilingWindow {
                parent: ContainerParent::Split(2),
                native: NativeWindow::new(104),
            },
            Container::TilingWindow {
                parent: below_workspace,
                native: NativeWindow::new(105),
                inner_gap: 20,
            },
        ]
    );
    assert_eq!(state.workspaces[0].outer_gap, 30);
    assert_eq!(state.workspaces[1].outer_gap, 30);
    assert_eq!(state.workspaces[0].config, entry("1"));
    assert_eq!(state.workspaces[1].config, entry("2"));
}

#[test]
fn gaps_are_applied_again_when_nothing_changed() {
    let mut state = state_with_tree();
    let config = user_config(parsed(vec![entry("1")], (20, 30), effects(None, None)));
    update_container_gaps(&mut state, &config);
    let after_first = state.containers.clone();
    update_container_gaps(&mut state, &config);
    assert_eq!(state.containers, after_first);
    assert_eq!(state.workspaces[0].outer_gap, 30);
}

#[test]
fn border_delta_tells_the_four_transitions_apart() {
    assert_eq!(border_color_delta(None, None), FieldDelta::Unchanged);
    assert_eq!(border_color_delta(None, Some(RED)), FieldDelta::NewlySet);
    assert_eq!(border_color_delta(Some(RED), None), FieldDelta::NewlyUnset);
    assert_eq!(border_color_delta(Some(RED), Some(BLUE)), FieldDelta::ChangedValue);
    assert_eq!(border_color_delta(Some(RED), Some(RED)), FieldDelta::Unchanged);
}

#[test]
fn focused_border_is_reset_when_its_colour_becomes_unset() {
    let mut state = state_with_tree();
    assert!(state.set_focused(Some(ContainerRef::Container(3))));
    let old = parsed(Vec::new(), (0, 0), effects(Some(RED), None));
    let new = user_config(parsed(Vec::new(), (0, 0), effects(None, None)));
    let resets = update_window_effects(&old, &mut state, &new);
    assert_eq!(resets, windows(&[103]));
    assert!(state.pending_sync.reset_window_effects);
}

#[test]
fn other_borders_are_reset_when_their_colour_becomes_unset() {
    let mut state = state_with_tree();
    assert!(state.set_focused(Some(ContainerRef::Container(3))));
    let old = parsed(Vec::new(), (0, 0), effects(None, Some(BLUE)));
    let new = user_config(parsed(Vec::new(), (0, 0), effects(None, None)));
    let resets = update_window_effects(&old, &mut state, &new);
    assert_eq!(resets, windows(&[101, 104, 105]));
    assert!(state.pending_sync.reset_window_effects);
}

#[test]
fn both_borders_are_reset_focused_window_first() {
    let mut state = state_with_tree();
    assert!(state.set_focused(Some(ContainerRef::Container(5))));
    let old = parsed(Vec::new(), (0, 0), effects(Some(RED), Some(BLUE)));
    let new = user_config(parsed(Vec::new(), (0, 0), effects(None, None)));
    let resets = update_window_effects(&old, &mut state, &new);
    assert_eq!(resets, windows(&[105, 101, 103, 104]));
}

#[test]
fn no_border_is_reset_on_any_other_transition() {
    let transitions = [
        (None, None),
        (None, Some(RED)),
        (Some(RED), Some(BLUE)),
        (Some(RED), Some(RED)),
    ];
    for focused in transitions {
        for other in transitions {
            let mut state = state_with_tree();
            assert!(state.set_focused(Some(ContainerRef::Container(1))));
            let old = parsed(Vec::new(), (0, 0), effects(focused.0, other.0));
            let new = user_config(parsed(Vec::new(), (0, 0), effects(focused.1, other.1)));
            let resets = update_window_effects(&old, &mut state, &new);
            assert!(resets.is_empty());
            assert!(state.pending_sync.reset_window_effects);
        }
    }
}

#[test]
fn focused_reset_needs_a_focused_window() {
    let old = parsed(Vec::new(), (0, 0), effects(Some(RED), Some(RED)));
    let new = user_config(parsed(Vec::new(), (0, 0), effects(None, None)));

    // The focus is on a split container: no window is the focused one.
    let mut state = state_with_tree();
    assert!(state.set_focused(Some(ContainerRef::Container(0))));
    assert_eq!(update_window_effects(&old, &mut state, &new), windows(&[101, 103, 104, 105]));

    // The focus is on the workspace.
    let mut state = state_with_tree();
    assert!(state.set_focused(Some(ContainerRef::Workspace(0))));
    assert_eq!(update_window_effects(&old, &mut state, &new), windows(&[101, 103, 104, 105]));

    // Nothing has the focus.
    let mut state = state_with_tree();
    assert_eq!(update_window_effects(&old, &mut state, &new), windows(&[101, 103, 104, 105]));

    // The focus names a container that is not there.
    let mut state = state_with_tree();
    state.focused = Some(ContainerRef::Container(99));
    assert_eq!(update_window_effects(&old, &mut state, &new), windows(&[101, 103, 104, 105]));
}

#[test]
fn window_effects_leave_the_rest_of_the_state_alone() {
    let mut state = state_with_tree();
    state.set_focused(Some(ContainerRef::Container(1)));
    let before = state_with_tree();
    let old = parsed(Vec::new(), (0, 0), effects(Some(RED), Some(RED)));
    let new = user_config(parsed(Vec::new(), (0, 0), effects(None, None)));
    update_window_effects(&old, &mut state, &new);
    assert_eq!(state.containers, before.containers);
    assert_eq!(state.workspaces, before.workspaces);
    assert_eq!(state.monitors, before.monitors);
    assert_eq!(state.focused, Some(ContainerRef::Container(1)));
    assert!(state.pending_sync.containers_to_redraw.is_empty());
}

#[test]
fn reload_brings_the_state_into_agreement() {
    let mut state = state_with_tree();
    state.add_workspace(0, entry("gone"), 10);
    state.set_focused(Some(ContainerRef::Container(1)));
    state.binding_modes.push(BindingModeConfig { name: "resize".to_string(), keybindings: Vec::new() });
    state.pending_sync.containers_to_redraw.push(ContainerRef::Workspace(0));
    let mut config = user_config(parsed(
        vec![entry("1"), entry("gone")],
        (1, 2),
        effects(Some(RED), Some(BLUE)),
    ));
    let new_value =
        parsed(vec![bound_entry("1", 0), entry("fresh")], (20, 30), effects(None, Some(RED)));

    let outcome = reload_config(&mut state, &mut config, Ok(loaded(new_value.clone())))
        .expect("a configuration that was loaded is applied");

    // The configuration holds the new text and value, at the old path.
    assert_eq!(config.path, "C:\\wm\\config.yaml");
    assert_eq!(config.value_str, "new text");
    assert_eq!(config.value, new_value);
    // The workspaces have taken their entries.
    assert_eq!(state.workspaces[0].config, bound_entry("1", 0));
    assert_eq!(state.workspaces[1].config, entry("fresh"));
    assert!(outcome.warnings.is_empty());
    // The gaps are everywhere.
    for container in &state.containers {
        match container {
            Container::Split { inner_gap, .. } => assert_eq!(*inner_gap, 20),
            Container::TilingWindow { inner_gap, .. } => assert_eq!(*inner_gap, 20),
            Container::NonTilingWindow { .. } => {}
        }
    }
    assert_eq!(state.workspaces[0].outer_gap, 30);
    assert_eq!(state.workspaces[1].outer_gap, 30);
    // Only the focused window's colour went from set to unset.
    assert_eq!(outcome.border_resets, windows(&[101]));
    assert!(state.pending_sync.reset_window_effects);
    // No binding mode is active, and a redraw from the root is asked for.
    assert!(state.binding_modes.is_empty());
    assert_eq!(
        state.pending_sync.containers_to_redraw,
        vec![ContainerRef::Workspace(0), ContainerRef::Root]
    );
    // The notice carries the path, the text and the parsed value.
    assert_eq!(
        outcome.event,
        WmEvent::UserConfigChanged {
            config_path: "C:\\wm\\config.yaml".to_string(),
            config_string: "new text".to_string(),
            parsed_config: new_value,
        }
    );
    assert_eq!(state.focused, Some(ContainerRef::Container(1)));
}

#[test]
fn reload_records_a_warning_and_goes_on() {
    let mut state = state_with_tree();
    let mut config = user_config(parsed(vec![entry("1")], (1, 2), effects(None, None)));
    let new_value = parsed(Vec::new(), (8, 9), effects(None, None));
    let outcome = reload_config(&mut state, &mut config, Ok(loaded(new_value))).unwrap();
    assert_eq!(outcome.warnings, vec![ReloadWarning::NoAvailableWorkspaceConfig { workspace: 0 }]);
    assert_eq!(state.workspaces[0].config, entry("1"));
    // The later steps took place all the same.
    assert_eq!(state.workspaces[0].outer_gap, 9);
    assert_eq!(state.containers[0], Container::Split { parent: ContainerParent::Workspace(0), inner_gap: 8 });
    assert!(state.pending_sync.reset_window_effects);
    assert_eq!(state.pending_sync.containers_to_redraw, vec![ContainerRef::Root]);
}

#[test]
fn reload_of_an_unchanged_configuration_still_asks_for_a_redraw() {
    let mut state = state_with_tree();
    let value = parsed(vec![entry("1")], (1, 2), effects(Some(RED), None));
    let mut config = user_config(value.clone());
    let outcome = reload_config(&mut state, &mut config, Ok(loaded(value))).unwrap();
    assert!(outcome.warnings.is_empty());
    assert!(outcome.border_resets.is_empty());
    assert!(state.binding_modes.is_empty());
    assert_eq!(state.pending_sync.containers_to_redraw, vec![ContainerRef::Root]);
    assert!(state.pending_sync.reset_window_effects);
    assert_eq!(state.workspaces[0].outer_gap, 2);
}

#[test]
fn failed_load_changes_nothing() {
    let mut state = state_with_tree();
    state.add_workspace(0, entry("gone"), 10);
    state.set_focused(Some(ContainerRef::Container(1)));
    state.binding_modes.push(BindingModeConfig { name: "resize".to_string(), keybindings: Vec::new() });
    let mut config =
        user_config(parsed(vec![entry("1")], (1, 2), effects(Some(RED), Some(BLUE))));

    let mut expected_state = state_with_tree();
    expected_state.add_workspace(0, entry("gone"), 10);
    expected_state.set_focused(Some(ContainerRef::Container(1)));
    expected_state
        .binding_modes
        .push(BindingModeConfig { name: "resize".to_string(), keybindings: Vec::new() });
    let expected_config =
        user_config(parsed(vec![entry("1")], (1, 2), effects(Some(RED), Some(BLUE))));

    let result = reload_config(&mut state, &mut config, Err("unexpected end of file".to_string()));
    assert_eq!(result, Err(ReloadError::Load("unexpected end of file".to_string())));
    assert_eq!(state, expected_state);
    assert_eq!(config, expected_config);
    assert_eq!(state.binding_modes.len(), 1);
    assert!(state.pending_sync.containers_to_redraw.is_empty());
    assert!(!state.pending_sync.reset_window_effects);
}
