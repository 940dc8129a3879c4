//! Bringing the live state into agreement with a configuration that was just loaded.
//!
//! A reload works on the state in a fixed order: the configurations of the active
//! workspaces, the gaps, the window effects, the binding modes, the redraw request,
//! and last the notice of the change. Only a configuration that could not be loaded
//! stops it, and then nothing has been touched.

use vstd::prelude::*;

use crate::native::NativeWindow;
use crate::search::{first, first_is_first, first_is_unique, is_first};
use crate::user_config::{
    config_for_monitor, config_for_monitor_is_inactive, is_inactive, workspace_configs_view,
    Color, GapsConfig, ParsedConfig, ParsedConfigView, UserConfig, UserConfigView,
    WindowEffectsConfig, WorkspaceConfig, WorkspaceConfigView,
};
use crate::wm_event::{WmEvent, WmEventView};
use crate::wm_state::{Container, ContainerRef, WmState, WmStateView, WorkspaceView};

verus! {

/// Something that a reload could not do and went on without.
#[derive(Debug, Clone, Copy, PartialEq, Eq, Structural)]
pub enum ReloadWarning {
    /// The workspace at this position goes by a name that the configuration no longer
    /// has, and every entry of the configuration is in use: the workspace keeps the
    /// configuration it had.
    NoAvailableWorkspaceConfig { workspace: usize },
}

/// The property of going by the name.
pub open spec fn named(name: Seq<char>) -> spec_fn(WorkspaceConfigView) -> bool {
    |entry: WorkspaceConfigView| entry.name == name
}

/// The position of the entry that the workspace at position `i` takes: the entry of
/// its name, or, where its name is gone from the configuration, the entry that the
/// configuration picks for its monitor among those that no active workspace uses.
pub open spec fn workspace_entry(
    workspaces: Seq<WorkspaceView>,
    entries: Seq<WorkspaceConfigView>,
    i: int,
) -> Option<int> {
    let own = first(entries, named(workspaces[i].config.name));
    if own is Some {
        own
    } else {
        config_for_monitor(entries, workspaces[i].monitor, workspaces)
    }
}

/// The workspaces after the one at position `i` has taken its entry. Without an
/// entry to take, nothing changes.
pub open spec fn reconcile_workspace(
    workspaces: Seq<WorkspaceView>,
    entries: Seq<WorkspaceConfigView>,
    i: int,
) -> Seq<WorkspaceView> {
    match workspace_entry(workspaces, entries, i) {
        Some(k) => workspaces.update(i, WorkspaceView { config: entries[k], ..workspaces[i] }),
        None => workspaces,
    }
}

/// The workspaces after the first `n` of them have taken their entries, one after
/// the other: each sees what those before it have taken.
pub open spec fn reconcile_workspaces(
    workspaces: Seq<WorkspaceView>,
    entries: Seq<WorkspaceConfigView>,
    n: nat,
) -> Seq<WorkspaceView>
    decreases n,
{
    if n == 0 {
        workspaces
    } else {
        reconcile_workspace(reconcile_workspaces(workspaces, entries, (n - 1) as nat), entries, n - 1)
    }
}

/// The warnings that the first `n` workspaces give rise to: one for each workspace
/// that found no entry to take, in the order of the workspaces.
pub open spec fn workspace_warnings(
    workspaces: Seq<WorkspaceView>,
    entries: Seq<WorkspaceConfigView>,
    n: nat,
) -> Seq<ReloadWarning>
    decreases n,
{
    if n == 0 {
        Seq::empty()
    } else {
        let earlier = workspace_warnings(workspaces, entries, (n - 1) as nat);
        let before = reconcile_workspaces(workspaces, entries, (n - 1) as nat);
        if workspace_entry(before, entries, n - 1) is None {
            earlier.push(ReloadWarning::NoAvailableWorkspaceConfig { workspace: (n - 1) as usize })
        } else {
            earlier
        }
    }
}

/// A workspace whose name the configuration still has takes the first entry of that
/// name.
pub proof fn named_workspace_takes_its_entry(
    workspaces: Seq<WorkspaceView>,
    entries: Seq<WorkspaceConfigView>,
    i: int,
    k: int,
)
    requires
        0 <= i < workspaces.len(),
        is_first(entries, named(workspaces[i].config.name), k),
    ensures
        reconcile_workspace(workspaces, entries, i) == workspaces.update(
            i,
            WorkspaceView { config: entries[k], ..workspaces[i] },
        ),
{
    first_is_unique(entries, named(workspaces[i].config.name), k);
}

/// A workspace whose name the configuration no longer has is given another entry.
///
/// Where at least one entry is in use by no active workspace, the workspace takes
/// such an entry, which is not the one it had. Where every entry is in use, its
/// configuration stays as it is, the other workspaces too, and there is no entry for
/// it: the case that a warning records.
pub proof fn orphaned_workspace_is_reassigned(
    workspaces: Seq<WorkspaceView>,
    entries: Seq<WorkspaceConfigView>,
    i: int,
)
    requires
        0 <= i < workspaces.len(),
        forall|k: int|
            0 <= k < entries.len() ==> (#[trigger] entries[k]).name != workspaces[i].config.name,
    ensures
        (exists|k: int| 0 <= k < entries.len() && is_inactive(#[trigger] entries[k], workspaces)) ==> {
            let taken = reconcile_workspace(workspaces, entries, i)[i].config;
            &&& workspace_entry(workspaces, entries, i) is Some
            &&& entries.contains(taken)
            &&& is_inactive(taken, workspaces)
            &&& taken.name != workspaces[i].config.name
        },
        !(exists|k: int| 0 <= k < entries.len() && is_inactive(#[trigger] entries[k], workspaces))
            ==> {
            &&& workspace_entry(workspaces, entries, i) is None
            &&& reconcile_workspace(workspaces, entries, i) == workspaces
        },
{
    let name = workspaces[i].config.name;
    first_is_first(entries, named(name));
    config_for_monitor_is_inactive(entries, workspaces[i].monitor, workspaces);
    match config_for_monitor(entries, workspaces[i].monitor, workspaces) {
        Some(k) => {
            assert(entries[k].name != name);
        },
        None => {},
    }
}

/// A reload changes which entry a workspace holds, and nothing else of it: there are
/// as many workspaces as before, each on its monitor and with its outer gap, and
/// those that have not been served yet are as they were.
pub proof fn reconcile_workspaces_keeps_places(
    workspaces: Seq<WorkspaceView>,
    entries: Seq<WorkspaceConfigView>,
    n: nat,
)
    requires
        n <= workspaces.len(),
    ensures
        reconcile_workspaces(workspaces, entries, n).len() == workspaces.len(),
        forall|i: int|
            0 <= i < workspaces.len() ==> {
                &&& (#[trigger] reconcile_workspaces(workspaces, entries, n)[i]).monitor
                    == workspaces[i].monitor
                &&& reconcile_workspaces(workspaces, entries, n)[i].outer_gap
                    == workspaces[i].outer_gap
            },
        forall|i: int|
            n <= i < workspaces.len() ==> #[trigger] reconcile_workspaces(workspaces, entries, n)[i]
                == workspaces[i],
    decreases n,
{
    if n > 0 {
        reconcile_workspaces_keeps_places(workspaces, entries, (n - 1) as nat);
    }
}

/// Every workspace is served once: what it holds when all have been served is what
/// it took at its turn.
pub proof fn workspace_is_served_once(
    workspaces: Seq<WorkspaceView>,
    entries: Seq<WorkspaceConfigView>,
    n: nat,
    i: int,
)
    requires
        0 <= i < n <= workspaces.len(),
    ensures
        reconcile_workspaces(workspaces, entries, n)[i] == reconcile_workspace(
            reconcile_workspaces(workspaces, entries, i as nat),
            entries,
            i,
        )[i],
    decreases n,
{
    reconcile_workspaces_keeps_places(workspaces, entries, (n - 1) as nat);
    if i < n - 1 {
        workspace_is_served_once(workspaces, entries, (n - 1) as nat, i);
    }
}

/// A warning is recorded for a workspace if and only if it found no entry to take
/// at its turn.
pub proof fn warning_means_no_entry(
    workspaces: Seq<WorkspaceView>,
    entries: Seq<WorkspaceConfigView>,
    n: nat,
    i: int,
)
    requires
        0 <= i < n <= workspaces.len(),
        workspaces.len() <= usize::MAX,
    ensures
        workspace_warnings(workspaces, entries, n).contains(
            ReloadWarning::NoAvailableWorkspaceConfig { workspace: i as usize },
        ) <==> workspace_entry(
            reconcile_workspaces(workspaces, entries, i as nat),
            entries,
            i,
        ) is None,
    decreases n,
{
    let warning = ReloadWarning::NoAvailableWorkspaceConfig { workspace: i as usize };
    let earlier = workspace_warnings(workspaces, entries, (n - 1) as nat);
    let before = reconcile_workspaces(workspaces, entries, (n - 1) as nat);
    lemma_warnings_are_of_served(workspaces, entries, (n - 1) as nat);
    if i < n - 1 {
        warning_means_no_entry(workspaces, entries, (n - 1) as nat, i);
    }
    if workspace_entry(before, entries, n - 1) is None {
        let last = ReloadWarning::NoAvailableWorkspaceConfig { workspace: (n - 1) as usize };
        let all = earlier.push(last);
        assert(all[earlier.len() as int] == last);
        if earlier.contains(warning) {
            let j = choose|j: int| 0 <= j < earlier.len() && earlier[j] == warning;
            assert(all[j] == warning);
        }
        if all.contains(warning) && warning != last {
            let j = choose|j: int| 0 <= j < all.len() && all[j] == warning;
            assert(earlier[j] == warning);
        }
    }
}

/// The warnings about the first `n` workspaces name workspaces among them.
proof fn lemma_warnings_are_of_served(
    workspaces: Seq<WorkspaceView>,
    entries: Seq<WorkspaceConfigView>,
    n: nat,
)
    requires
        n <= workspaces.len(),
        workspaces.len() <= usize::MAX,
    ensures
        forall|j: int|
            0 <= j < workspace_warnings(workspaces, entries, n).len() ==> (
            #[trigger] workspace_warnings(workspaces, entries, n)[j])->workspace < n,
    decreases n,
{
    if n > 0 {
        lemma_warnings_are_of_served(workspaces, entries, (n - 1) as nat);
        let earlier = workspace_warnings(workspaces, entries, (n - 1) as nat);
        assert(((n - 1) as usize) < n);
        assert forall|j: int|
            0 <= j < workspace_warnings(workspaces, entries, n).len() implies (
        #[trigger] workspace_warnings(workspaces, entries, n)[j])->workspace < n by {
            if j < earlier.len() {
                assert(workspace_warnings(workspaces, entries, n)[j] == earlier[j]);
            }
        }
    }
}

/// Finds the first entry that goes by the name.
pub fn find_workspace_config(entries: &Vec<WorkspaceConfig>, name: &String) -> (found: Option<usize>)
    ensures
        match found {
            Some(k) => first(workspace_configs_view(entries@), named(name@)) == Some(k as int),
            None => first(workspace_configs_view(entries@), named(name@)) is None,
        },
{
    let ghost views = workspace_configs_view(entries@);
    let mut k: usize = 0;
    while k < entries.len()
        invariant
            k <= entries.len(),
            views == workspace_configs_view(entries@),
            forall|j: int| 0 <= j < k ==> !named(name@)(#[trigger] views[j]),
        decreases entries.len() - k,
    {
        assert(views[k as int] == entries@[k as int]@);
        if entries[k].name == *name {
            proof {
                assert(is_first(views, named(name@), k as int));
                first_is_unique(views, named(name@), k as int);
            }
            return Some(k);
        }
        k += 1;
    }
    proof {
        first_is_first(views, named(name@));
    }
    None
}

/// Gives every active workspace the configuration that the new configuration has
/// for it.
///
/// A workspace takes the entry of its name. A workspace whose name is gone takes an
/// entry that no active workspace uses, picked for its monitor; where there is none
/// left, it keeps what it had, and a warning says so. The workspaces are served in
/// their order, and each sees what those before it have taken.
pub fn update_workspace_configs(state: &mut WmState, config: &UserConfig) -> (warnings: Vec<
    ReloadWarning,
>)
    ensures
        final(state)@ == (WmStateView {
            workspaces: reconcile_workspaces(
                old(state)@.workspaces,
                config@.value.workspaces,
                old(state)@.workspaces.len(),
            ),
            ..old(state)@
        }),
        warnings@ == workspace_warnings(
            old(state)@.workspaces,
            config@.value.workspaces,
            old(state)@.workspaces.len(),
        ),
{
    let ghost before = state@.workspaces;
    let ghost entries = config@.value.workspaces;
    let mut warnings: Vec<ReloadWarning> = Vec::new();
    let n = state.workspaces.len();
    let mut i: usize = 0;
    while i < n
        invariant
            i <= n,
            n == state.workspaces@.len(),
            n == before.len(),
            entries == config@.value.workspaces,
            state@ == (WmStateView {
                workspaces: reconcile_workspaces(before, entries, i as nat),
                ..old(state)@
            }),
            warnings@ == workspace_warnings(before, entries, i as nat),
        decreases n - i,
    {
        let ghost current = state@.workspaces;
        assert(current[i as int] == state.workspaces@[i as int]@);
        let own = find_workspace_config(&config.value.workspaces, &state.workspaces[i].config.name);
        let entry: Option<WorkspaceConfig> = match own {
            Some(k) => {
                proof {
                    first_is_first(entries, named(current[i as int].config.name));
                }
                assert(entries[k as int] == config.value.workspaces@[k as int]@);
                Some(config.value.workspaces[k].clone())
            },
            None => match config.workspace_config_for_monitor(
                state.workspaces[i].monitor,
                &state.workspaces,
            ) {
                Some(inactive) => Some(inactive.clone()),
                None => None,
            },
        };
        assert(match workspace_entry(current, entries, i as int) {
            Some(k) => entry is Some && entry.unwrap()@ == entries[k],
            None => entry is None,
        });
        match entry {
            Some(taken) => {
                state.workspaces[i].config = taken;
                assert(state@.workspaces =~= reconcile_workspace(current, entries, i as int));
            },
            None => {
                warnings.push(ReloadWarning::NoAvailableWorkspaceConfig { workspace: i });
            },
        }
        i += 1;
    }
    warnings
}

/// The state with the gaps of a configuration applied: every tiling container has
/// the inner gap and every workspace the outer gap.
pub open spec fn with_gaps(s: WmStateView, gaps: GapsConfig) -> WmStateView {
    WmStateView {
        containers: s.containers.map_values(|c: Container| c.with_inner_gap(gaps.inner_gap)),
        workspaces: s.workspaces.map_values(
            |w: WorkspaceView| WorkspaceView { outer_gap: gaps.outer_gap, ..w },
        ),
        ..s
    }
}

/// Gives every tiling container of the tree the inner gap of the configuration, and
/// every workspace its outer gap, whether or not the values differ from those in
/// place.
pub fn update_container_gaps(state: &mut WmState, config: &UserConfig)
    ensures
        final(state)@ == with_gaps(old(state)@, config@.value.gaps),
        final(state)@.containers.len() == old(state)@.containers.len(),
        final(state)@.workspaces.len() == old(state)@.workspaces.len(),
        forall|i: int|
            0 <= i < old(state)@.containers.len() && old(state)@.containers[i].is_tiling() ==> (
            #[trigger] final(state)@.containers[i]).inner_gap() == Some(
                config@.value.gaps.inner_gap,
            ),
        forall|i: int|
            0 <= i < old(state)@.workspaces.len() ==> (#[trigger] final(state)@.workspaces[i]).outer_gap
                == config@.value.gaps.outer_gap,
{
    let inner_gap = config.value.gaps.inner_gap;
    let outer_gap = config.value.gaps.outer_gap;
    let containers = state.containers.len();
    let mut i: usize = 0;
    while i < containers
        invariant
            i <= containers,
            containers == state.containers@.len(),
            containers == old(state).containers@.len(),
            state.monitors == old(state).monitors,
            state.workspaces == old(state).workspaces,
            state.focused == old(state).focused,
            state.binding_modes == old(state).binding_modes,
            state.pending_sync == old(state).pending_sync,
            forall|j: int|
                0 <= j < i ==> #[trigger] state.containers@[j] == old(
                    state,
                ).containers@[j].with_inner_gap(inner_gap),
            forall|j: int|
                i <= j < containers ==> #[trigger] state.containers@[j] == old(state).containers@[j],
        decreases containers - i,
    {
        state.containers[i].set_inner_gap(inner_gap);
        i += 1;
    }
    let workspaces = state.workspaces.len();
    let mut k: usize = 0;
    while k < workspaces
        invariant
            k <= workspaces,
            workspaces == state.workspaces@.len(),
            workspaces == old(state).workspaces@.len(),
            state.monitors == old(state).monitors,
            state.focused == old(state).focused,
            state.binding_modes == old(state).binding_modes,
            state.pending_sync == old(state).pending_sync,
            state.containers@ =~= old(state)@.containers.map_values(
                |c: Container| c.with_inner_gap(inner_gap),
            ),
            forall|j: int|
                0 <= j < k ==> (#[trigger] state.workspaces@[j])@ == (WorkspaceView {
                    outer_gap,
                    ..old(state).workspaces@[j]@
                }),
            forall|j: int|
                k <= j < workspaces ==> #[trigger] state.workspaces@[j] == old(state).workspaces@[j],
        decreases workspaces - k,
    {
        state.workspaces[k].outer_gap = outer_gap;
        k += 1;
    }
    assert(state@.workspaces =~= with_gaps(old(state)@, config@.value.gaps).workspaces);
}

/// How a setting that may be left unset went from the old configuration to the new
/// one. An unset setting means "no opinion", so only the step from set to unset
/// calls for an explicit return to the system's default.
#[derive(Debug, Clone, Copy, PartialEq, Eq, Structural)]
pub enum FieldDelta {
    /// Unset before and after, or set to the same value.
    Unchanged,
    /// Unset before, set now.
    NewlySet,
    /// Set before, unset now.
    NewlyUnset,
    /// Set before and after, to different values.
    ChangedValue,
}

/// How a border colour went from the old configuration to the new one.
pub open spec fn border_delta(old_color: Option<Color>, new_color: Option<Color>) -> FieldDelta {
    match (old_color, new_color) {
        (None, None) => FieldDelta::Unchanged,
        (None, Some(_)) => FieldDelta::NewlySet,
        (Some(_), None) => FieldDelta::NewlyUnset,
        (Some(before), Some(after)) => if before == after {
            FieldDelta::Unchanged
        } else {
            FieldDelta::ChangedValue
        },
    }
}

/// Compares the border colour of the old configuration with that of the new one.
pub fn border_color_delta(old_color: Option<Color>, new_color: Option<Color>) -> (delta: FieldDelta)
    ensures
        delta == border_delta(old_color, new_color),
        delta == FieldDelta::NewlyUnset <==> old_color is Some && new_color is None,
{
    match (old_color, new_color) {
        (None, None) => FieldDelta::Unchanged,
        (None, Some(_)) => FieldDelta::NewlySet,
        (Some(_), None) => FieldDelta::NewlyUnset,
        (Some(before), Some(after)) => if before == after {
            FieldDelta::Unchanged
        } else {
            FieldDelta::ChangedValue
        },
    }
}

/// The window that has the focus, if the focused container is a window.
pub open spec fn focused_window(s: WmStateView) -> Option<NativeWindow> {
    match s.focused {
        Some(ContainerRef::Container(i)) => if i < s.containers.len() {
            s.containers[i as int].window()
        } else {
            None
        },
        _ => None,
    }
}

/// Whether the container at position `i` is a window other than the focused
/// container.
pub open spec fn is_other_window(s: WmStateView, i: int) -> bool {
    s.containers[i].window() is Some && s.focused != Some(ContainerRef::Container(i as usize))
}

/// The windows among the first `n` containers that are not the focused container, in
/// the order of the containers.
pub open spec fn other_windows(s: WmStateView, n: nat) -> Seq<NativeWindow>
    decreases n,
{
    if n == 0 {
        Seq::empty()
    } else {
        let earlier = other_windows(s, (n - 1) as nat);
        if is_other_window(s, n - 1) {
            earlier.push(s.containers[n - 1].window().unwrap())
        } else {
            earlier
        }
    }
}

/// The windows whose border goes back to the system's default because the focused
/// window's border colour went from set to unset: the focused window, if there is
/// one.
pub open spec fn focused_resets(
    old_effects: WindowEffectsConfig,
    new_effects: WindowEffectsConfig,
    s: WmStateView,
) -> Seq<NativeWindow> {
    if border_delta(old_effects.focused_window.border_color, new_effects.focused_window.border_color)
        == FieldDelta::NewlyUnset && focused_window(s) is Some {
        seq![focused_window(s).unwrap()]
    } else {
        Seq::empty()
    }
}

/// The windows whose border goes back to the system's default because the other
/// windows' border colour went from set to unset: every window but the focused one.
pub open spec fn other_resets(
    old_effects: WindowEffectsConfig,
    new_effects: WindowEffectsConfig,
    s: WmStateView,
) -> Seq<NativeWindow> {
    if border_delta(old_effects.other_windows.border_color, new_effects.other_windows.border_color)
        == FieldDelta::NewlyUnset {
        other_windows(s, s.containers.len())
    } else {
        Seq::empty()
    }
}

/// The windows whose border is to go back to the system's default, in the order in
/// which to reset them.
pub open spec fn border_resets(
    old_effects: WindowEffectsConfig,
    new_effects: WindowEffectsConfig,
    s: WmStateView,
) -> Seq<NativeWindow> {
    focused_resets(old_effects, new_effects, s) + other_resets(old_effects, new_effects, s)
}

/// Compares the window effects of the old configuration with those of the new one
/// and says which windows have to get the system's default border back. That is
/// owed only where a border colour went from set to unset; a colour that is set is
/// applied by the evaluation that this function asks for in any case.
///
/// The resets are for the caller to make, each on its own, and a reset that fails
/// fails nothing else.
pub fn update_window_effects(old_config: &ParsedConfig, state: &mut WmState, config: &UserConfig) -> (resets:
    Vec<NativeWindow>)
    ensures
        resets@ == border_resets(
            old_config@.window_effects,
            config@.value.window_effects,
            old(state)@,
        ),
        final(state)@ == (WmStateView { reset_window_effects: true, ..old(state)@ }),
{
    let ghost s = state@;
    let window_effects = config.value.window_effects;
    let old_window_effects = old_config.window_effects;
    let mut resets: Vec<NativeWindow> = Vec::new();
    let focused_delta = border_color_delta(
        old_window_effects.focused_window.border_color,
        window_effects.focused_window.border_color,
    );
    if focused_delta == FieldDelta::NewlyUnset {
        let focused = match state.focused {
            Some(ContainerRef::Container(i)) => if i < state.containers.len() {
                state.containers[i].as_window()
            } else {
                None
            },
            _ => None,
        };
        if let Some(window) = focused {
            resets.push(window);
        }
    }
    assert(resets@ =~= focused_resets(old_config@.window_effects, config@.value.window_effects, s));
    let other_delta = border_color_delta(
        old_window_effects.other_windows.border_color,
        window_effects.other_windows.border_color,
    );
    if other_delta == FieldDelta::NewlyUnset {
        let ghost first = resets@;
        let n = state.containers.len();
        let mut i: usize = 0;
        while i < n
            invariant
                i <= n,
                n == state.containers@.len(),
                state@ == s,
                resets@ == first + other_windows(s, i as nat),
            decreases n - i,
        {
            let is_focused = match state.focused {
                Some(ContainerRef::Container(f)) => f == i,
                _ => false,
            };
            if !is_focused {
                if let Some(window) = state.containers[i].as_window() {
                    resets.push(window);
                }
            }
            assert(resets@ =~= first + other_windows(s, (i + 1) as nat));
            i += 1;
        }
    } else {
        assert(resets@ + Seq::<NativeWindow>::empty() =~= resets@);
    }
    state.pending_sync.reset_window_effects = true;
    resets
}

/// A configuration as it comes out of loading: its text and what the text was
/// parsed to.
#[derive(Debug, PartialEq, Eq)]
pub struct LoadedConfig {
    pub value_str: String,
    pub value: ParsedConfig,
}

/// Why a reload did not take place.
#[derive(Debug, PartialEq, Eq)]
pub enum ReloadError {
    /// The configuration could not be loaded or parsed; the cause is given in words.
    Load(String),
}

/// What a reload leaves for its caller to do.
#[derive(Debug, PartialEq, Eq)]
pub struct ReloadOutcome {
    /// What the reload could not do and went on without.
    pub warnings: Vec<ReloadWarning>,
    /// The windows whose border is to be reset to the system's default, in order.
    pub border_resets: Vec<NativeWindow>,
    /// The notice of the change, to be emitted last.
    pub event: WmEvent,
}

/// The state after a reload with the new configuration: the workspaces have taken
/// their entries, the gaps are applied, the window effects are marked for a new
/// evaluation, no binding mode is active, and a redraw from the root is asked for.
pub open spec fn reloaded(s: WmStateView, new_config: ParsedConfigView) -> WmStateView {
    let reconciled = WmStateView {
        workspaces: reconcile_workspaces(s.workspaces, new_config.workspaces, s.workspaces.len()),
        ..s
    };
    let spaced = with_gaps(reconciled, new_config.gaps);
    WmStateView {
        reset_window_effects: true,
        binding_modes: Seq::empty(),
        containers_to_redraw: s.containers_to_redraw.push(ContainerRef::Root),
        ..spaced
    }
}

/// Takes the outcome of loading the configuration anew and, where it was loaded,
/// makes the configuration and the live state follow it.
///
/// Where loading failed, the failure is handed on and neither the configuration nor
/// the state is touched. Otherwise the configuration takes the new text and value,
/// the state is changed as [`reloaded`] says, and the result holds what is left to
/// do outside: the warnings to record, the borders to reset, and the notice of the
/// change, which carries the path, the text and the parsed value of the new
/// configuration.
pub fn reload_config(
    state: &mut WmState,
    config: &mut UserConfig,
    loaded: Result<LoadedConfig, String>,
) -> (result: Result<ReloadOutcome, ReloadError>)
    ensures
        match loaded {
            Err(cause) => {
                &&& result == Err::<ReloadOutcome, ReloadError>(ReloadError::Load(cause))
                &&& *final(state) == *old(state)
                &&& *final(config) == *old(config)
            },
            Ok(new_config) => {
                &&& result is Ok
                &&& final(config)@ == (UserConfigView {
                    path: old(config)@.path,
                    value_str: new_config.value_str@,
                    value: new_config.value@,
                })
                &&& final(state)@ == reloaded(old(state)@, new_config.value@)
                &&& result.unwrap().warnings@ == workspace_warnings(
                    old(state)@.workspaces,
                    new_config.value@.workspaces,
                    old(state)@.workspaces.len(),
                )
                &&& result.unwrap().border_resets@ == border_resets(
                    old(config)@.value.window_effects,
                    new_config.value@.window_effects,
                    old(state)@,
                )
                &&& result.unwrap().event@ == (WmEventView::UserConfigChanged {
                    config_path: old(config)@.path,
                    config_string: new_config.value_str@,
                    parsed_config: new_config.value@,
                })
            },
        },
        result is Ok ==> final(state)@.binding_modes.len() == 0,
        result is Ok ==> final(state)@.containers_to_redraw == old(state)@.containers_to_redraw.push(
            ContainerRef::Root,
        ),
{
    let new_config = match loaded {
        Ok(new_config) => new_config,
        Err(cause) => {
            return Err(ReloadError::Load(cause));
        },
    };
    let ghost before = state@;
    // Keep the old value for comparison, and take the new one.
    let old_value = config.value.clone();
    config.value_str = new_config.value_str;
    config.value = new_config.value;

    let warnings = update_workspace_configs(state, config);
    update_container_gaps(state, config);
    let border_resets = update_window_effects(&old_value, state, config);
    proof {
        let reconciled = WmStateView {
            workspaces: reconcile_workspaces(
                before.workspaces,
                config@.value.workspaces,
                before.workspaces.len(),
            ),
            ..before
        };
        lemma_windows_kept(before, with_gaps(reconciled, config@.value.gaps));
    }

    // Clear the active binding modes.
    state.binding_modes = Vec::new();

    // Redraw the full container tree.
    state.pending_sync.containers_to_redraw.push(ContainerRef::Root);

    assert(state@.binding_modes =~= Seq::empty());
    let event = WmEvent::UserConfigChanged {
        config_path: config.path.clone(),
        config_string: config.value_str.clone(),
        parsed_config: config.value.clone(),
    };
    Ok(ReloadOutcome { warnings, border_resets, event })
}

/// After a reload every tiling container of the tree has the inner gap of the new
/// configuration and every workspace its outer gap, whatever they had before.
pub proof fn reload_applies_gaps_everywhere(s: WmStateView, new_config: ParsedConfigView)
    ensures
        reloaded(s, new_config).containers.len() == s.containers.len(),
        reloaded(s, new_config).workspaces.len() == s.workspaces.len(),
        forall|i: int|
            0 <= i < s.containers.len() && s.containers[i].is_tiling() ==> (#[trigger] reloaded(
                s,
                new_config,
            ).containers[i]).inner_gap() == Some(new_config.gaps.inner_gap),
        forall|i: int|
            0 <= i < s.containers.len() && !s.containers[i].is_tiling() ==> #[trigger] reloaded(
                s,
                new_config,
            ).containers[i] == s.containers[i],
        forall|i: int|
            0 <= i < s.workspaces.len() ==> (#[trigger] reloaded(s, new_config).workspaces[i]).outer_gap
                == new_config.gaps.outer_gap,
{
    reconcile_workspaces_keeps_places(s.workspaces, new_config.workspaces, s.workspaces.len());
}

/// A border is reset only where its colour went from set to unset.
///
/// A colour that stays unset, that is newly set, or that is set to another value
/// resets nothing. Where the focused window's colour went from set to unset, the
/// focused window is reset, if there is one; where the other windows' colour did,
/// every window but the focused one is.
pub proof fn border_is_reset_only_when_newly_unset(
    old_effects: WindowEffectsConfig,
    new_effects: WindowEffectsConfig,
    s: WmStateView,
)
    ensures
        !(old_effects.focused_window.border_color is Some && new_effects.focused_window.border_color
            is None) ==> focused_resets(old_effects, new_effects, s) == Seq::<NativeWindow>::empty(),
        !(old_effects.other_windows.border_color is Some && new_effects.other_windows.border_color
            is None) ==> other_resets(old_effects, new_effects, s) == Seq::<NativeWindow>::empty(),
        old_effects.focused_window.border_color is Some && new_effects.focused_window.border_color
            is None && focused_window(s) is Some ==> focused_resets(old_effects, new_effects, s)
            == seq![focused_window(s).unwrap()],
        old_effects.other_windows.border_color is Some && new_effects.other_windows.border_color
            is None ==> other_resets(old_effects, new_effects, s) == other_windows(
            s,
            s.containers.len(),
        ),
{
}

/// The windows that are listed as other than the focused one are exactly the windows
/// of the state that are not the focused container.
pub proof fn other_windows_are_the_unfocused(s: WmStateView, n: nat, window: NativeWindow)
    requires
        n <= s.containers.len(),
    ensures
        other_windows(s, n).contains(window) <==> exists|i: int|
            0 <= i < n && #[trigger] is_other_window(s, i) && s.containers[i].window() == Some(window),
    decreases n,
{
    if n > 0 {
        let earlier = other_windows(s, (n - 1) as nat);
        other_windows_are_the_unfocused(s, (n - 1) as nat, window);
        if is_other_window(s, n - 1) {
            let last = s.containers[n - 1].window().unwrap();
            assert(earlier.push(last).last() == last);
            assert forall|w: NativeWindow| earlier.push(last).contains(w) <==> (earlier.contains(w)
                || w == last) by {
                if earlier.contains(w) {
                    let j = choose|j: int| 0 <= j < earlier.len() && earlier[j] == w;
                    assert(earlier.push(last)[j] == w);
                }
                if w == last {
                    assert(earlier.push(last)[earlier.len() as int] == w);
                }
            }
        }
        if other_windows(s, n).contains(window) {
            if earlier.contains(window) {
                let i = choose|i: int|
                    0 <= i < n - 1 && #[trigger] is_other_window(s, i) && s.containers[i].window()
                        == Some(window);
                assert(0 <= i < n && is_other_window(s, i));
            } else {
                assert(is_other_window(s, n - 1));
            }
        }
        if exists|i: int|
            0 <= i < n && #[trigger] is_other_window(s, i) && s.containers[i].window() == Some(window) {
            let i = choose|i: int|
                0 <= i < n && #[trigger] is_other_window(s, i) && s.containers[i].window() == Some(
                    window,
                );
            if i < n - 1 {
                assert(earlier.contains(window));
            }
        }
    } else {
        assert(!other_windows(s, n).contains(window));
    }
}

/// A reload leaves a tree a tree.
pub proof fn reload_keeps_the_tree(s: WmStateView, new_config: ParsedConfigView)
    requires
        s.well_formed(),
    ensures
        reloaded(s, new_config).well_formed(),
{
    let after = reloaded(s, new_config);
    reconcile_workspaces_keeps_places(s.workspaces, new_config.workspaces, s.workspaces.len());
    assert forall|i: int| 0 <= i < after.containers.len() implies #[trigger] after.attached(i) by {
        assert(s.attached(i));
    }
    assert forall|i: int| 0 <= i < after.containers_to_redraw.len() implies after.has(
        #[trigger] after.containers_to_redraw[i],
    ) by {
        if i < s.containers_to_redraw.len() {
            assert(s.has(s.containers_to_redraw[i]));
        }
    }
}

/// The windows and the focus decide which borders are reset, and neither the
/// workspaces' entries nor the gaps change them.
proof fn lemma_windows_kept(a: WmStateView, b: WmStateView)
    requires
        a.focused == b.focused,
        a.containers.len() == b.containers.len(),
        forall|i: int|
            0 <= i < a.containers.len() ==> (#[trigger] a.containers[i]).window()
                == b.containers[i].window(),
    ensures
        focused_window(a) == focused_window(b),
        forall|n: nat| n <= a.containers.len() ==> #[trigger] other_windows(a, n) == other_windows(b, n),
        forall|old_effects: WindowEffectsConfig, new_effects: WindowEffectsConfig|
            #[trigger] border_resets(old_effects, new_effects, a) == border_resets(
                old_effects,
                new_effects,
                b,
            ),
{
    assert forall|n: nat| n <= a.containers.len() implies #[trigger] other_windows(a, n)
        == other_windows(b, n) by {
        lemma_other_windows_kept(a, b, n);
    }
}

proof fn lemma_other_windows_kept(a: WmStateView, b: WmStateView, n: nat)
    requires
        a.focused == b.focused,
        a.containers.len() == b.containers.len(),
        n <= a.containers.len(),
        forall|i: int|
            0 <= i < a.containers.len() ==> (#[trigger] a.containers[i]).window()
                == b.containers[i].window(),
    ensures
        other_windows(a, n) == other_windows(b, n),
    decreases n,
{
    if n > 0 {
        lemma_other_windows_kept(a, b, (n - 1) as nat);
        assert(a.containers[n - 1].window() == b.containers[n - 1].window());
    }
}

} // verus!
