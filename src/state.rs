use vstd::prelude::*;

use std::collections::BTreeSet;

use crate::controller::ActiveWindow;
use crate::events::HyprctlEvents;
use crate::text::{chars_of, parse_unsigned, parse_unsigned_range};

verus! {

broadcast use {vstd::std_specs::btree::group_btree_axioms, vstd::laws_cmp::group_laws_cmp};

/// What the reducer takes in.
#[derive(Debug, Clone, PartialEq, Eq)]
pub enum Events {
    Hypr(HyprctlEvents),
}

/// Whether applying an event changed the state.
#[derive(Debug, Clone, Copy, PartialEq, Eq)]
pub enum StateUpdate {
    Updated,
    Nop,
}

/// The snapshot that the event stream is folded into.
pub struct State {
    pub total_workspaces: BTreeSet<usize>,
    pub current_workspace: u32,
    pub current_app_name: String,
    pub current_volume: u32,
    pub current_brightness: u32,
}

/// A snapshot, as plain values.
pub struct StateView {
    pub total_workspaces: Set<usize>,
    pub current_workspace: u32,
    pub current_app_name: Seq<char>,
    pub current_volume: u32,
    pub current_brightness: u32,
}

impl View for State {
    type V = StateView;

    open spec fn view(&self) -> StateView {
        StateView {
            total_workspaces: self.total_workspaces@,
            current_workspace: self.current_workspace,
            current_app_name: self.current_app_name@,
            current_volume: self.current_volume,
            current_brightness: self.current_brightness,
        }
    }
}

/// A workspace id read as the current workspace.
pub open spec fn current_id(id: Seq<char>) -> Option<nat> {
    parse_unsigned(id, u32::MAX as nat)
}

/// A workspace id read as a member of the workspace set.
pub open spec fn member_id(id: Seq<char>) -> Option<nat> {
    parse_unsigned(id, usize::MAX as nat)
}

pub open spec fn with_current(s: StateView, n: nat) -> StateView {
    StateView { current_workspace: n as u32, ..s }
}

pub open spec fn with_workspaces(s: StateView, w: Set<usize>) -> StateView {
    StateView { total_workspaces: w, ..s }
}

/// The snapshot after one event, and whether it changed. Only workspace
/// changes, moves, creation, destruction and active-window changes count;
/// every other event, and a workspace id that does not read as a number,
/// leaves the snapshot as it is.
pub open spec fn apply(s: StateView, e: HyprctlEvents) -> (StateView, bool) {
    match e {
        HyprctlEvents::WorkspaceV2 { workspace_id, .. } => match current_id(workspace_id@) {
            Some(n) => (with_current(s, n), true),
            None => (s, false),
        },
        HyprctlEvents::MoveWorkspaceV2 { workspace_id, .. } => match current_id(workspace_id@) {
            Some(n) => (with_current(s, n), true),
            None => (s, false),
        },
        HyprctlEvents::ActiveWindow { window_title, .. } => (
            StateView { current_app_name: window_title@, ..s },
            true,
        ),
        HyprctlEvents::CreateWorkspaceV2 { workspace_id, .. } => match member_id(workspace_id@) {
            Some(n) => (with_workspaces(s, s.total_workspaces.insert(n as usize)), true),
            None => (s, false),
        },
        HyprctlEvents::DestroyWorkspaceV2 { workspace_id, .. } => match member_id(workspace_id@) {
            Some(n) => (with_workspaces(s, s.total_workspaces.remove(n as usize)), true),
            None => (s, false),
        },
        _ => (s, false),
    }
}

/// The events that the reducer acts on.
pub open spec fn is_tracked(e: HyprctlEvents) -> bool {
    e is WorkspaceV2 || e is MoveWorkspaceV2 || e is ActiveWindow || e is CreateWorkspaceV2
        || e is DestroyWorkspaceV2
}

fn parse_id(id: &String, max: u64) -> (r: Option<u64>)
    ensures
        match r {
            Some(n) => parse_unsigned(id@, max as nat) == Some(n as nat),
            None => parse_unsigned(id@, max as nat) is None,
        },
{
    let cs = chars_of(id.as_str());
    assert(cs@.subrange(0, cs@.len() as int) =~= id@);
    parse_unsigned_range(&cs, 0, cs.len(), max)
}

impl State {
    /// The snapshot at start-up: workspaces `1..=n_workspaces`, the given
    /// current workspace and the active window's `class / title`.
    pub fn initial(n_workspaces: usize, current_workspace: u8, window: &ActiveWindow) -> (r: State)
        requires
            n_workspaces < usize::MAX,
        ensures
            r@.total_workspaces == Set::new(|i: usize| 1 <= i <= n_workspaces),
            r@.current_workspace == current_workspace as u32,
            r@.current_app_name == window.class@ + " / "@ + window.title@,
            r@.current_volume == 0,
            r@.current_brightness == 0,
    {
        let mut total: BTreeSet<usize> = BTreeSet::new();
        let mut i: usize = 1;
        while i <= n_workspaces
            invariant
                1 <= i <= n_workspaces + 1,
                n_workspaces < usize::MAX,
                total@ == Set::new(|j: usize| 1 <= j < i),
            decreases n_workspaces + 1 - i,
        {
            total.insert(i);
            i = i + 1;
            assert(total@ =~= Set::new(|j: usize| 1 <= j < i));
        }
        assert(total@ =~= Set::new(|j: usize| 1 <= j <= n_workspaces));
        State {
            total_workspaces: total,
            current_workspace: current_workspace as u32,
            current_app_name: window.app_name(),
            current_volume: 0,
            current_brightness: 0,
        }
    }

    /// Folds one event into the snapshot and says whether it changed.
    pub fn update_from_event(&mut self, event: Events) -> (r: StateUpdate)
        ensures
            match event {
                Events::Hypr(e) => (final(self)@, r == StateUpdate::Updated) == apply(old(self)@, e),
            },
    {
        match event {
            Events::Hypr(event) => match event {
                HyprctlEvents::WorkspaceV2 { workspace_id, .. } => {
                    match parse_id(&workspace_id, u32::MAX as u64) {
                        Some(n) => {
                            self.current_workspace = n as u32;
                            StateUpdate::Updated
                        },
                        None => StateUpdate::Nop,
                    }
                },
                HyprctlEvents::ActiveWindow { window_title, .. } => {
                    self.current_app_name = window_title;
                    StateUpdate::Updated
                },
                HyprctlEvents::CreateWorkspaceV2 { workspace_id, .. } => {
                    match parse_id(&workspace_id, usize::MAX as u64) {
                        Some(n) => {
                            self.total_workspaces.insert(n as usize);
                            StateUpdate::Updated
                        },
                        None => StateUpdate::Nop,
                    }
                },
                HyprctlEvents::DestroyWorkspaceV2 { workspace_id, .. } => {
                    match parse_id(&workspace_id, usize::MAX as u64) {
                        Some(n) => {
                            let k: usize = n as usize;
                            self.total_workspaces.remove(&k);
                            StateUpdate::Updated
                        },
                        None => StateUpdate::Nop,
                    }
                },
                HyprctlEvents::MoveWorkspaceV2 { workspace_id, .. } => {
                    match parse_id(&workspace_id, u32::MAX as u64) {
                        Some(n) => {
                            self.current_workspace = n as u32;
                            StateUpdate::Updated
                        },
                        None => StateUpdate::Nop,
                    }
                },
                _ => StateUpdate::Nop,
            },
        }
    }
}

impl Default for State {
    /// The empty snapshot: no workspaces, all numbers zero, no app name.
    fn default() -> (r: State)
        ensures
            r@.total_workspaces == Set::<usize>::empty(),
            r@.current_workspace == 0,
            r@.current_app_name == Seq::<char>::empty(),
            r@.current_volume == 0,
            r@.current_brightness == 0,
    {
        State {
            total_workspaces: BTreeSet::new(),
            current_workspace: 0,
            current_app_name: String::new(),
            current_volume: 0,
            current_brightness: 0,
        }
    }
}

/// Creating a workspace that the snapshot already holds changes nothing.
pub proof fn lemma_create_is_idempotent(s: StateView, workspace_id: String, workspace_name: String)
    requires
        member_id(workspace_id@) is Some,
        s.total_workspaces.contains(member_id(workspace_id@)->0 as usize),
    ensures
        apply(s, HyprctlEvents::CreateWorkspaceV2 { workspace_id, workspace_name }).0 == s,
{
    let n = member_id(workspace_id@)->0 as usize;
    assert(s.total_workspaces.insert(n) =~= s.total_workspaces);
}

/// A workspace change sets the current workspace to its id, whatever it was.
pub proof fn lemma_workspace_change_sets_current(
    s: StateView,
    workspace_id: String,
    workspace_name: String,
)
    requires
        current_id(workspace_id@) is Some,
    ensures
        apply(s, HyprctlEvents::WorkspaceV2 { workspace_id, workspace_name }).0.current_workspace
            == current_id(workspace_id@)->0,
        apply(s, HyprctlEvents::WorkspaceV2 { workspace_id, workspace_name }).1,
{
}

/// An event the reducer does not act on leaves the snapshot as it is and
/// reports no change.
pub proof fn lemma_untracked_event_is_noop(s: StateView, e: HyprctlEvents)
    requires
        !is_tracked(e),
    ensures
        apply(s, e) == (s, false),
{
}

} // verus!
