//! The configuration as the manager holds it once it has been read and parsed.
//!
//! Reading and parsing a configuration file is not done here: these are the values
//! that come out of it, with the one query that the configuration answers itself.

use vstd::prelude::*;

use crate::search::{first, first_is_first, first_is_unique, is_first};
use crate::wm_state::{workspaces_view, Workspace, WorkspaceView};

verus! {

/// The characters of each string of a sequence.
pub open spec fn strings_view(strings: Seq<String>) -> Seq<Seq<char>> {
    strings.map_values(|s: String| s@)
}

/// A copy of a list of strings.
pub fn clone_strings(strings: &Vec<String>) -> (copy: Vec<String>)
    ensures
        strings_view(copy@) == strings_view(strings@),
{
    let mut copy: Vec<String> = Vec::new();
    let mut i: usize = 0;
    while i < strings.len()
        invariant
            i <= strings.len(),
            copy@.len() == i,
            forall|j: int| 0 <= j < i ==> (#[trigger] copy@[j])@ == strings@[j]@,
        decreases strings.len() - i,
    {
        copy.push(strings[i].clone());
        i += 1;
    }
    assert(strings_view(copy@) =~= strings_view(strings@));
    copy
}

/// A key combination and the commands that it runs.
#[derive(Debug, PartialEq, Eq)]
pub struct KeybindingConfig {
    pub bindings: Vec<String>,
    pub commands: Vec<String>,
}

/// What a [`KeybindingConfig`] holds.
pub struct KeybindingConfigView {
    pub bindings: Seq<Seq<char>>,
    pub commands: Seq<Seq<char>>,
}

impl View for KeybindingConfig {
    type V = KeybindingConfigView;

    open spec fn view(&self) -> KeybindingConfigView {
        KeybindingConfigView {
            bindings: strings_view(self.bindings@),
            commands: strings_view(self.commands@),
        }
    }
}

impl Clone for KeybindingConfig {
    fn clone(&self) -> (copy: Self)
        ensures
            copy@ == self@,
    {
        KeybindingConfig {
            bindings: clone_strings(&self.bindings),
            commands: clone_strings(&self.commands),
        }
    }
}

/// What each keybinding of a sequence holds.
pub open spec fn keybindings_view(keybindings: Seq<KeybindingConfig>) -> Seq<KeybindingConfigView> {
    keybindings.map_values(|k: KeybindingConfig| k@)
}

/// A copy of a list of keybindings.
pub fn clone_keybindings(keybindings: &Vec<KeybindingConfig>) -> (copy: Vec<KeybindingConfig>)
    ensures
        keybindings_view(copy@) == keybindings_view(keybindings@),
{
    let mut copy: Vec<KeybindingConfig> = Vec::new();
    let mut i: usize = 0;
    while i < keybindings.len()
        invariant
            i <= keybindings.len(),
            copy@.len() == i,
            forall|j: int| 0 <= j < i ==> (#[trigger] copy@[j])@ == keybindings@[j]@,
        decreases keybindings.len() - i,
    {
        copy.push(keybindings[i].clone());
        i += 1;
    }
    assert(keybindings_view(copy@) =~= keybindings_view(keybindings@));
    copy
}

/// A named set of keybindings that is in force while the mode is active.
#[derive(Debug, PartialEq, Eq)]
pub struct BindingModeConfig {
    pub name: String,
    pub keybindings: Vec<KeybindingConfig>,
}

/// What a [`BindingModeConfig`] holds.
pub struct BindingModeConfigView {
    pub name: Seq<char>,
    pub keybindings: Seq<KeybindingConfigView>,
}

impl View for BindingModeConfig {
    type V = BindingModeConfigView;

    open spec fn view(&self) -> BindingModeConfigView {
        BindingModeConfigView {
            name: self.name@,
            keybindings: keybindings_view(self.keybindings@),
        }
    }
}

impl Clone for BindingModeConfig {
    fn clone(&self) -> (copy: Self)
        ensures
            copy@ == self@,
    {
        BindingModeConfig {
            name: self.name.clone(),
            keybindings: clone_keybindings(&self.keybindings),
        }
    }
}

/// What each binding mode of a sequence holds.
pub open spec fn binding_modes_view(modes: Seq<BindingModeConfig>) -> Seq<BindingModeConfigView> {
    modes.map_values(|m: BindingModeConfig| m@)
}

/// Settings that belong to no single part of the manager.
#[derive(Debug, Clone, Copy, PartialEq, Eq, Structural)]
pub struct GeneralConfig {
    pub focus_follows_cursor: bool,
}

/// The gaps, in pixels: between neighbouring tiling containers, and between a
/// workspace and the edge of its monitor.
#[derive(Debug, Clone, Copy, PartialEq, Eq, Structural)]
pub struct GapsConfig {
    pub inner_gap: u32,
    pub outer_gap: u32,
}

/// A colour with its opacity.
#[derive(Debug, Clone, Copy, PartialEq, Eq, Structural)]
pub struct Color {
    pub r: u8,
    pub g: u8,
    pub b: u8,
    pub a: u8,
}

/// The visual effects of one class of windows. An unset border colour means "no
/// opinion": whatever is applied to a window is left as it is.
#[derive(Debug, Clone, Copy, PartialEq, Eq)]
pub struct WindowEffectConfig {
    pub border_color: Option<Color>,
}

/// The visual effects of the focused window and of all the others.
#[derive(Debug, Clone, Copy, PartialEq, Eq)]
pub struct WindowEffectsConfig {
    pub focused_window: WindowEffectConfig,
    pub other_windows: WindowEffectConfig,
}

/// One workspace that the configuration offers, identified by its name.
#[derive(Debug, PartialEq, Eq)]
pub struct WorkspaceConfig {
    pub name: String,
    pub bind_to_monitor: Option<u32>,
    pub keep_alive: bool,
}

/// What a [`WorkspaceConfig`] holds.
pub struct WorkspaceConfigView {
    pub name: Seq<char>,
    pub bind_to_monitor: Option<u32>,
    pub keep_alive: bool,
}

impl View for WorkspaceConfig {
    type V = WorkspaceConfigView;

    open spec fn view(&self) -> WorkspaceConfigView {
        WorkspaceConfigView {
            name: self.name@,
            bind_to_monitor: self.bind_to_monitor,
            keep_alive: self.keep_alive,
        }
    }
}

impl Clone for WorkspaceConfig {
    fn clone(&self) -> (copy: Self)
        ensures
            copy@ == self@,
    {
        WorkspaceConfig {
            name: self.name.clone(),
            bind_to_monitor: self.bind_to_monitor,
            keep_alive: self.keep_alive,
        }
    }
}

/// What each workspace entry of a sequence holds.
pub open spec fn workspace_configs_view(entries: Seq<WorkspaceConfig>) -> Seq<WorkspaceConfigView> {
    entries.map_values(|e: WorkspaceConfig| e@)
}

/// A copy of a list of workspace entries.
pub fn clone_workspace_configs(entries: &Vec<WorkspaceConfig>) -> (copy: Vec<WorkspaceConfig>)
    ensures
        workspace_configs_view(copy@) == workspace_configs_view(entries@),
{
    let mut copy: Vec<WorkspaceConfig> = Vec::new();
    let mut i: usize = 0;
    while i < entries.len()
        invariant
            i <= entries.len(),
            copy@.len() == i,
            forall|j: int| 0 <= j < i ==> (#[trigger] copy@[j])@ == entries@[j]@,
        decreases entries.len() - i,
    {
        copy.push(entries[i].clone());
        i += 1;
    }
    assert(workspace_configs_view(copy@) =~= workspace_configs_view(entries@));
    copy
}

/// A configuration in its parsed form.
#[derive(Debug, PartialEq, Eq)]
pub struct ParsedConfig {
    pub keybindings: Vec<KeybindingConfig>,
    pub general: GeneralConfig,
    pub gaps: GapsConfig,
    pub window_effects: WindowEffectsConfig,
    pub workspaces: Vec<WorkspaceConfig>,
}

/// What a [`ParsedConfig`] holds.
pub struct ParsedConfigView {
    pub keybindings: Seq<KeybindingConfigView>,
    pub general: GeneralConfig,
    pub gaps: GapsConfig,
    pub window_effects: WindowEffectsConfig,
    pub workspaces: Seq<WorkspaceConfigView>,
}

impl View for ParsedConfig {
    type V = ParsedConfigView;

    open spec fn view(&self) -> ParsedConfigView {
        ParsedConfigView {
            keybindings: keybindings_view(self.keybindings@),
            general: self.general,
            gaps: self.gaps,
            window_effects: self.window_effects,
            workspaces: workspace_configs_view(self.workspaces@),
        }
    }
}

impl Clone for ParsedConfig {
    fn clone(&self) -> (copy: Self)
        ensures
            copy@ == self@,
    {
        ParsedConfig {
            keybindings: clone_keybindings(&self.keybindings),
            general: self.general,
            gaps: self.gaps,
            window_effects: self.window_effects,
            workspaces: clone_workspace_configs(&self.workspaces),
        }
    }
}

/// The configuration of the running manager: where it was read from, its text as
/// it was read, and what the text was parsed to.
#[derive(Debug, PartialEq, Eq)]
pub struct UserConfig {
    pub path: String,
    pub value_str: String,
    pub value: ParsedConfig,
}

/// What a [`UserConfig`] holds.
pub struct UserConfigView {
    pub path: Seq<char>,
    pub value_str: Seq<char>,
    pub value: ParsedConfigView,
}

impl View for UserConfig {
    type V = UserConfigView;

    open spec fn view(&self) -> UserConfigView {
        UserConfigView { path: self.path@, value_str: self.value_str@, value: self.value@ }
    }
}

/// Whether no active workspace goes by the entry's name.
pub open spec fn is_inactive(entry: WorkspaceConfigView, workspaces: Seq<WorkspaceView>) -> bool {
    forall|j: int|
        0 <= j < workspaces.len() ==> (#[trigger] workspaces[j]).config.name != entry.name
}

/// What is asked of an entry's binding to a monitor.
#[derive(Debug, Clone, Copy, PartialEq, Eq, Structural)]
pub enum MonitorPreference {
    /// The entry is bound to the monitor at this position.
    BoundTo(usize),
    /// The entry is bound to no monitor.
    Unbound,
    /// Nothing is asked.
    Any,
}

/// Whether an entry's binding is what is asked.
pub open spec fn meets(entry: WorkspaceConfigView, preference: MonitorPreference) -> bool {
    match preference {
        MonitorPreference::BoundTo(monitor) => entry.bind_to_monitor matches Some(bound) && bound
            == monitor,
        MonitorPreference::Unbound => entry.bind_to_monitor is None,
        MonitorPreference::Any => true,
    }
}

/// The property of being in use by no active workspace and bound as asked.
pub open spec fn inactive_and(workspaces: Seq<WorkspaceView>, preference: MonitorPreference) -> spec_fn(
    WorkspaceConfigView,
) -> bool {
    |entry: WorkspaceConfigView| is_inactive(entry, workspaces) && meets(entry, preference)
}

/// The position of the entry that a workspace on the monitor at position `monitor`
/// is to take when its own entry is gone: the first inactive entry that is bound to
/// the monitor; without one, the first inactive entry that is bound to no monitor;
/// without one, the first inactive entry. There is none when every entry is in use.
pub open spec fn config_for_monitor(
    entries: Seq<WorkspaceConfigView>,
    monitor: usize,
    workspaces: Seq<WorkspaceView>,
) -> Option<int> {
    let bound = first(entries, inactive_and(workspaces, MonitorPreference::BoundTo(monitor)));
    let unbound = first(entries, inactive_and(workspaces, MonitorPreference::Unbound));
    if bound is Some {
        bound
    } else if unbound is Some {
        unbound
    } else {
        first(entries, inactive_and(workspaces, MonitorPreference::Any))
    }
}

/// The entry that is picked for a monitor is one that no active workspace uses, and
/// none is picked only when every entry is in use.
pub proof fn config_for_monitor_is_inactive(
    entries: Seq<WorkspaceConfigView>,
    monitor: usize,
    workspaces: Seq<WorkspaceView>,
)
    ensures
        match config_for_monitor(entries, monitor, workspaces) {
            Some(k) => 0 <= k < entries.len() && is_inactive(entries[k], workspaces),
            None => forall|k: int|
                0 <= k < entries.len() ==> !is_inactive(#[trigger] entries[k], workspaces),
        },
{
    first_is_first(entries, inactive_and(workspaces, MonitorPreference::BoundTo(monitor)));
    first_is_first(entries, inactive_and(workspaces, MonitorPreference::Unbound));
    first_is_first(entries, inactive_and(workspaces, MonitorPreference::Any));
    if config_for_monitor(entries, monitor, workspaces) is None {
        assert forall|k: int| 0 <= k < entries.len() implies !is_inactive(
            #[trigger] entries[k],
            workspaces,
        ) by {
            assert(!inactive_and(workspaces, MonitorPreference::Any)(entries[k]));
        }
    }
}

/// Whether no active workspace goes by the entry's name.
pub fn is_inactive_entry(entry: &WorkspaceConfig, workspaces: &Vec<Workspace>) -> (inactive: bool)
    ensures
        inactive == is_inactive(entry@, workspaces_view(workspaces@)),
{
    let mut j: usize = 0;
    while j < workspaces.len()
        invariant
            j <= workspaces.len(),
            forall|i: int|
                0 <= i < j ==> (#[trigger] workspaces_view(workspaces@)[i]).config.name
                    != entry@.name,
        decreases workspaces.len() - j,
    {
        if workspaces[j].config.name == entry.name {
            assert(workspaces_view(workspaces@)[j as int].config.name == entry@.name);
            return false;
        }
        j += 1;
    }
    true
}

/// Whether an entry's binding is what is asked.
pub fn meets_preference(entry: &WorkspaceConfig, preference: MonitorPreference) -> (met: bool)
    ensures
        met == meets(entry@, preference),
{
    match preference {
        MonitorPreference::BoundTo(monitor) => match entry.bind_to_monitor {
            Some(bound) => bound as usize == monitor,
            None => false,
        },
        MonitorPreference::Unbound => entry.bind_to_monitor.is_none(),
        MonitorPreference::Any => true,
    }
}

/// Finds the first entry that is inactive and bound as asked.
pub fn first_inactive_entry(
    entries: &Vec<WorkspaceConfig>,
    workspaces: &Vec<Workspace>,
    preference: MonitorPreference,
) -> (found: Option<usize>)
    ensures
        match found {
            Some(k) => first(
                workspace_configs_view(entries@),
                inactive_and(workspaces_view(workspaces@), preference),
            ) == Some(k as int),
            None => first(
                workspace_configs_view(entries@),
                inactive_and(workspaces_view(workspaces@), preference),
            ) is None,
        },
{
    let ghost views = workspace_configs_view(entries@);
    let ghost wanted = inactive_and(workspaces_view(workspaces@), preference);
    let mut k: usize = 0;
    while k < entries.len()
        invariant
            k <= entries.len(),
            views == workspace_configs_view(entries@),
            wanted == inactive_and(workspaces_view(workspaces@), preference),
            forall|j: int| 0 <= j < k ==> !wanted(#[trigger] views[j]),
        decreases entries.len() - k,
    {
        assert(views[k as int] == entries@[k as int]@);
        if meets_preference(&entries[k], preference) && is_inactive_entry(&entries[k], workspaces) {
            proof {
                assert(is_first(views, wanted, k as int));
                first_is_unique(views, wanted, k as int);
            }
            return Some(k);
        }
        k += 1;
    }
    proof {
        first_is_first(views, wanted);
    }
    None
}

impl UserConfig {
    /// The entry that a workspace on the monitor at position `monitor` is to take,
    /// given the workspaces that are active: an entry that none of them goes by,
    /// chosen as [`config_for_monitor`] says, or none where every entry is in use.
    pub fn workspace_config_for_monitor(&self, monitor: usize, workspaces: &Vec<Workspace>) -> (entry:
        Option<&WorkspaceConfig>)
        ensures
            match config_for_monitor(self@.value.workspaces, monitor, workspaces_view(workspaces@)) {
                Some(k) => entry is Some && entry.unwrap()@ == self@.value.workspaces[k],
                None => entry is None,
            },
    {
        let entries = &self.value.workspaces;
        let bound = first_inactive_entry(entries, workspaces, MonitorPreference::BoundTo(monitor));
        let found = match bound {
            Some(k) => Some(k),
            None => match first_inactive_entry(entries, workspaces, MonitorPreference::Unbound) {
                Some(k) => Some(k),
                None => first_inactive_entry(entries, workspaces, MonitorPreference::Any),
            },
        };
        proof {
            let views = workspace_configs_view(entries@);
            let active = workspaces_view(workspaces@);
            first_is_first(views, inactive_and(active, MonitorPreference::BoundTo(monitor)));
            first_is_first(views, inactive_and(active, MonitorPreference::Unbound));
            first_is_first(views, inactive_and(active, MonitorPreference::Any));
        }
        match found {
            Some(k) => {
                Some(&entries[k])
            },
            None => None,
        }
    }
}

} // verus!
