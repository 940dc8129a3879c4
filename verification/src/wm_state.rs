//! The live state that the manager keeps of monitors, workspaces, containers and
//! windows, as far as a reload of the configuration reads and changes it.
//!
//! The container tree is held flat. The root is implied; the monitors are its
//! children; every workspace names the monitor it is on; every container below a
//! workspace names its parent, which is a workspace or a split container that
//! stands before it. A container is referred to by its kind and position.

use vstd::prelude::*;

use crate::native::{NativeMonitor, NativeWindow};
use crate::user_config::{
    binding_modes_view, BindingModeConfig, BindingModeConfigView, WorkspaceConfig,
    WorkspaceConfigView,
};

verus! {

/// A reference to a container of the tree: the root, or a monitor, a workspace or a
/// container below a workspace by its position in the state.
#[derive(Debug, Clone, Copy, PartialEq, Eq, Structural)]
pub enum ContainerRef {
    Root,
    Monitor(usize),
    Workspace(usize),
    Container(usize),
}

/// A monitor: a child of the root.
#[derive(Debug, Clone, Copy, PartialEq, Eq, Structural)]
pub struct Monitor {
    pub native: NativeMonitor,
}

/// An active workspace: a child of the monitor at position `monitor`.
#[derive(Debug, PartialEq, Eq)]
pub struct Workspace {
    pub monitor: usize,
    pub config: WorkspaceConfig,
    pub outer_gap: u32,
}

/// What a [`Workspace`] holds.
pub struct WorkspaceView {
    pub monitor: usize,
    pub config: WorkspaceConfigView,
    pub outer_gap: u32,
}

impl View for Workspace {
    type V = WorkspaceView;

    open spec fn view(&self) -> WorkspaceView {
        WorkspaceView { monitor: self.monitor, config: self.config@, outer_gap: self.outer_gap }
    }
}

/// What each workspace of a sequence holds.
pub open spec fn workspaces_view(workspaces: Seq<Workspace>) -> Seq<WorkspaceView> {
    workspaces.map_values(|w: Workspace| w@)
}

/// The parent of a container below a workspace.
#[derive(Debug, Clone, Copy, PartialEq, Eq, Structural)]
pub enum ContainerParent {
    Workspace(usize),
    Split(usize),
}

/// A container below a workspace. Split containers and tiling windows are the
/// tiling containers: they take part in the layout and keep an inner gap.
#[derive(Debug, Clone, Copy, PartialEq, Eq, Structural)]
pub enum Container {
    Split { parent: ContainerParent, inner_gap: u32 },
    TilingWindow { parent: ContainerParent, native: NativeWindow, inner_gap: u32 },
    NonTilingWindow { parent: ContainerParent, native: NativeWindow },
}

impl Container {
    /// Whether the container is a tiling container.
    pub open spec fn is_tiling(self) -> bool {
        self is Split || self is TilingWindow
    }

    /// The window that the container is, if it is one.
    pub open spec fn window(self) -> Option<NativeWindow> {
        match self {
            Container::Split { .. } => None,
            Container::TilingWindow { native, .. } => Some(native),
            Container::NonTilingWindow { native, .. } => Some(native),
        }
    }

    /// The parent of the container.
    pub open spec fn parent(self) -> ContainerParent {
        match self {
            Container::Split { parent, .. } => parent,
            Container::TilingWindow { parent, .. } => parent,
            Container::NonTilingWindow { parent, .. } => parent,
        }
    }

    /// The inner gap of the container, if it is a tiling container.
    pub open spec fn inner_gap(self) -> Option<u32> {
        match self {
            Container::Split { inner_gap, .. } => Some(inner_gap),
            Container::TilingWindow { inner_gap, .. } => Some(inner_gap),
            Container::NonTilingWindow { .. } => None,
        }
    }

    /// The window that the container is, if it is one.
    pub fn as_window(&self) -> (window: Option<NativeWindow>)
        ensures
            window == self.window(),
    {
        match self {
            Container::Split { .. } => None,
            Container::TilingWindow { native, .. } => Some(*native),
            Container::NonTilingWindow { native, .. } => Some(*native),
        }
    }

    /// Sets the inner gap of a tiling container. Another container has none.
    pub fn set_inner_gap(&mut self, gap: u32)
        ensures
            *final(self) == old(self).with_inner_gap(gap),
    {
        match *self {
            Container::Split { parent, .. } => {
                *self = Container::Split { parent, inner_gap: gap };
            },
            Container::TilingWindow { parent, native, .. } => {
                *self = Container::TilingWindow { parent, native, inner_gap: gap };
            },
            Container::NonTilingWindow { .. } => {},
        }
    }

    /// The container with the given inner gap, where it is a tiling container, and
    /// the container as it is otherwise.
    pub open spec fn with_inner_gap(self, gap: u32) -> Container {
        match self {
            Container::Split { parent, .. } => Container::Split { parent, inner_gap: gap },
            Container::TilingWindow { parent, native, .. } => Container::TilingWindow {
                parent,
                native,
                inner_gap: gap,
            },
            Container::NonTilingWindow { .. } => self,
        }
    }
}

/// What is left to do at the next synchronisation with the platform.
#[derive(Debug, PartialEq, Eq)]
pub struct PendingSync {
    /// The containers from which to redraw.
    pub containers_to_redraw: Vec<ContainerRef>,
    /// Whether the window effects have to be evaluated anew.
    pub reset_window_effects: bool,
}

/// The live state of the manager.
#[derive(Debug, PartialEq, Eq)]
pub struct WmState {
    pub monitors: Vec<Monitor>,
    pub workspaces: Vec<Workspace>,
    pub containers: Vec<Container>,
    /// The container that has the focus.
    pub focused: Option<ContainerRef>,
    /// The binding modes that are active.
    pub binding_modes: Vec<BindingModeConfig>,
    pub pending_sync: PendingSync,
}

/// What a [`WmState`] holds.
pub struct WmStateView {
    pub monitors: Seq<Monitor>,
    pub workspaces: Seq<WorkspaceView>,
    pub containers: Seq<Container>,
    pub focused: Option<ContainerRef>,
    pub binding_modes: Seq<BindingModeConfigView>,
    pub containers_to_redraw: Seq<ContainerRef>,
    pub reset_window_effects: bool,
}

impl View for WmState {
    type V = WmStateView;

    open spec fn view(&self) -> WmStateView {
        WmStateView {
            monitors: self.monitors@,
            workspaces: workspaces_view(self.workspaces@),
            containers: self.containers@,
            focused: self.focused,
            binding_modes: binding_modes_view(self.binding_modes@),
            containers_to_redraw: self.pending_sync.containers_to_redraw@,
            reset_window_effects: self.pending_sync.reset_window_effects,
        }
    }
}

impl WmStateView {
    /// Whether a reference names a container of this state.
    pub open spec fn has(self, container: ContainerRef) -> bool {
        match container {
            ContainerRef::Root => true,
            ContainerRef::Monitor(i) => i < self.monitors.len(),
            ContainerRef::Workspace(i) => i < self.workspaces.len(),
            ContainerRef::Container(i) => i < self.containers.len(),
        }
    }

    /// Whether the container at position `i` hangs where a container can hang: below
    /// a workspace of this state, or below a split container that stands before it.
    pub open spec fn attached(self, i: int) -> bool {
        match self.containers[i].parent() {
            ContainerParent::Workspace(w) => w < self.workspaces.len(),
            ContainerParent::Split(p) => p < i && self.containers[p as int] is Split,
        }
    }

    /// Whether a container with the given parent can be added: the parent is a
    /// workspace of the state or a split container of the state.
    pub open spec fn can_hold(self, parent: ContainerParent) -> bool {
        match parent {
            ContainerParent::Workspace(w) => w < self.workspaces.len(),
            ContainerParent::Split(p) => p < self.containers.len() && self.containers[p as int]
                is Split,
        }
    }

    /// The position of the workspace that the container at position `i` is in:
    /// that of its parent, or of the workspace that its parent is in.
    pub open spec fn workspace_of(self, i: int) -> int
        decreases i,
    {
        match self.containers[i].parent() {
            ContainerParent::Workspace(w) => w as int,
            ContainerParent::Split(p) => if 0 <= p < i {
                self.workspace_of(p as int)
            } else {
                -1
            },
        }
    }

    /// Whether the state is a tree: every workspace is on a monitor of the state,
    /// every container hangs below a workspace or an earlier split container, and the
    /// focus and the redraw requests name containers of the state.
    pub open spec fn well_formed(self) -> bool {
        &&& forall|i: int|
            0 <= i < self.workspaces.len() ==> (#[trigger] self.workspaces[i]).monitor
                < self.monitors.len()
        &&& forall|i: int| 0 <= i < self.containers.len() ==> #[trigger] self.attached(i)
        &&& self.focused matches Some(container) ==> self.has(container)
        &&& forall|i: int|
            0 <= i < self.containers_to_redraw.len() ==> self.has(
                #[trigger] self.containers_to_redraw[i],
            )
    }
}

/// In a tree every container is below the root: it is in a workspace of the state,
/// which is on a monitor of the state.
pub proof fn every_container_is_in_a_workspace(s: WmStateView, i: int)
    requires
        s.well_formed(),
        0 <= i < s.containers.len(),
    ensures
        0 <= s.workspace_of(i) < s.workspaces.len(),
        s.workspaces[s.workspace_of(i)].monitor < s.monitors.len(),
    decreases i,
{
    assert(s.attached(i));
    match s.containers[i].parent() {
        ContainerParent::Workspace(w) => {},
        ContainerParent::Split(p) => {
            every_container_is_in_a_workspace(s, p as int);
        },
    }
}

impl Container {
    /// The parent of the container.
    pub fn parent_container(&self) -> (parent: ContainerParent)
        ensures
            parent == self.parent(),
    {
        match self {
            Container::Split { parent, .. } => *parent,
            Container::TilingWindow { parent, .. } => *parent,
            Container::NonTilingWindow { parent, .. } => *parent,
        }
    }
}

impl WmState {
    /// The state of a manager that knows of no monitor yet.
    pub fn new() -> (state: WmState)
        ensures
            state@ == (WmStateView {
                monitors: Seq::empty(),
                workspaces: Seq::empty(),
                containers: Seq::empty(),
                focused: None,
                binding_modes: Seq::empty(),
                containers_to_redraw: Seq::empty(),
                reset_window_effects: false,
            }),
            state@.well_formed(),
    {
        let state = WmState {
            monitors: Vec::new(),
            workspaces: Vec::new(),
            containers: Vec::new(),
            focused: None,
            binding_modes: Vec::new(),
            pending_sync: PendingSync {
                containers_to_redraw: Vec::new(),
                reset_window_effects: false,
            },
        };
        assert(state@.workspaces =~= Seq::empty());
        assert(state@.binding_modes =~= Seq::empty());
        state
    }

    /// Adds a monitor below the root and says at which position it stands.
    pub fn add_monitor(&mut self, native: NativeMonitor) -> (position: usize)
        ensures
            position == old(self)@.monitors.len(),
            final(self)@ == (WmStateView {
                monitors: old(self)@.monitors.push(Monitor { native }),
                ..old(self)@
            }),
            old(self)@.well_formed() ==> final(self)@.well_formed(),
    {
        let position = self.monitors.len();
        self.monitors.push(Monitor { native });
        proof {
            if old(self)@.well_formed() {
                assert forall|i: int| 0 <= i < self@.containers.len() implies #[trigger] self@.attached(
                    i,
                ) by {
                    assert(old(self)@.attached(i));
                }
                assert forall|i: int| 0 <= i < self@.containers_to_redraw.len() implies self@.has(
                    #[trigger] self@.containers_to_redraw[i],
                ) by {
                    assert(old(self)@.has(old(self)@.containers_to_redraw[i]));
                }
            }
        }
        position
    }

    /// Adds a workspace on the monitor at position `monitor` and says at which
    /// position it stands. Where there is no such monitor, nothing is added.
    pub fn add_workspace(&mut self, monitor: usize, config: WorkspaceConfig, outer_gap: u32) -> (position:
        Option<usize>)
        ensures
            monitor < old(self)@.monitors.len() ==> {
                &&& position == Some(old(self)@.workspaces.len() as usize)
                &&& final(self)@ == (WmStateView {
                    workspaces: old(self)@.workspaces.push(
                        WorkspaceView { monitor, config: config@, outer_gap },
                    ),
                    ..old(self)@
                })
            },
            monitor >= old(self)@.monitors.len() ==> position is None && final(self)@ == old(self)@,
            old(self)@.well_formed() ==> final(self)@.well_formed(),
    {
        if monitor >= self.monitors.len() {
            return None;
        }
        let position = self.workspaces.len();
        self.workspaces.push(Workspace { monitor, config, outer_gap });
        proof {
            assert(self@.workspaces =~= old(self)@.workspaces.push(
                WorkspaceView { monitor, config: config@, outer_gap },
            ));
            if old(self)@.well_formed() {
                assert forall|i: int| 0 <= i < self@.containers.len() implies #[trigger] self@.attached(
                    i,
                ) by {
                    assert(old(self)@.attached(i));
                }
                assert forall|i: int| 0 <= i < self@.containers_to_redraw.len() implies self@.has(
                    #[trigger] self@.containers_to_redraw[i],
                ) by {
                    assert(old(self)@.has(old(self)@.containers_to_redraw[i]));
                }
            }
        }
        Some(position)
    }

    /// Adds a container below its parent and says at which position it stands.
    /// Where the parent is neither a workspace nor a split container of the state,
    /// nothing is added.
    pub fn add_container(&mut self, container: Container) -> (position: Option<usize>)
        ensures
            old(self)@.can_hold(container.parent()) ==> {
                &&& position == Some(old(self)@.containers.len() as usize)
                &&& final(self)@ == (WmStateView {
                    containers: old(self)@.containers.push(container),
                    ..old(self)@
                })
            },
            !old(self)@.can_hold(container.parent()) ==> position is None && final(self)@ == old(
                self,
            )@,
            old(self)@.well_formed() ==> final(self)@.well_formed(),
    {
        let holds = match container.parent_container() {
            ContainerParent::Workspace(w) => w < self.workspaces.len(),
            ContainerParent::Split(p) => p < self.containers.len() && match self.containers[p] {
                Container::Split { .. } => true,
                _ => false,
            },
        };
        if !holds {
            return None;
        }
        let position = self.containers.len();
        self.containers.push(container);
        proof {
            if old(self)@.well_formed() {
                assert forall|i: int| 0 <= i < self@.containers.len() implies #[trigger] self@.attached(
                    i,
                ) by {
                    if i < position {
                        assert(old(self)@.attached(i));
                    }
                }
                assert forall|i: int| 0 <= i < self@.containers_to_redraw.len() implies self@.has(
                    #[trigger] self@.containers_to_redraw[i],
                ) by {
                    assert(old(self)@.has(old(self)@.containers_to_redraw[i]));
                }
            }
        }
        Some(position)
    }

    /// Gives the focus to a container of the state, or to none. A reference that
    /// names no container of the state is refused, and the focus stays where it is.
    pub fn set_focused(&mut self, container: Option<ContainerRef>) -> (accepted: bool)
        ensures
            accepted == (container matches Some(named) ==> old(self)@.has(named)),
            accepted ==> final(self)@ == (WmStateView { focused: container, ..old(self)@ }),
            !accepted ==> final(self)@ == old(self)@,
            old(self)@.well_formed() ==> final(self)@.well_formed(),
    {
        let known = match container {
            None => true,
            Some(ContainerRef::Root) => true,
            Some(ContainerRef::Monitor(i)) => i < self.monitors.len(),
            Some(ContainerRef::Workspace(i)) => i < self.workspaces.len(),
            Some(ContainerRef::Container(i)) => i < self.containers.len(),
        };
        if known {
            self.focused = container;
            proof {
                if old(self)@.well_formed() {
                    assert forall|i: int|
                        0 <= i < self@.containers.len() implies #[trigger] self@.attached(i) by {
                        assert(old(self)@.attached(i));
                    }
                    assert forall|i: int|
                        0 <= i < self@.containers_to_redraw.len() implies self@.has(
                        #[trigger] self@.containers_to_redraw[i],
                    ) by {
                        assert(old(self)@.has(old(self)@.containers_to_redraw[i]));
                    }
                }
            }
        }
        known
    }
}

} // verus!
