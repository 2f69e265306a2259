use std::collections::BTreeSet;

use hypr::controller::ActiveWindow;
use hypr::events::HyprctlEvents;
use hypr::state::{Events, State, StateUpdate};

fn create(id: &str) -> Events {
    Events::Hypr(HyprctlEvents::CreateWorkspaceV2 { workspace_id: id.to_string(), workspace_name: id.to_string() })
}

fn destroy(id: &str) -> Events {
    Events::Hypr(HyprctlEvents::DestroyWorkspaceV2 { workspace_id: id.to_string(), workspace_name: id.to_string() })
}

fn set(ids: &[usize]) -> BTreeSet<usize> {
    ids.iter().copied().collect()
}

#[test]
fn create_create_destroy_leaves_second() {
    let mut st = State::default();
    assert_eq!(st.update_from_event(create("1")), StateUpdate::Updated);
    assert_eq!(st.update_from_event(create("2")), StateUpdate::Updated);
    assert_eq!(st.update_from_event(destroy("1")), StateUpdate::Updated);
    assert_eq!(st.total_workspaces, set(&[2]));
}

#[test]
fn creating_a_present_workspace_changes_nothing() {
    let mut st = State::default();
    st.update_from_event(create("2"));
    st.update_from_event(create("2"));
    assert_eq!(st.total_workspaces, set(&[2]));
    assert_eq!(st.current_workspace, 0);
}

#[test]
fn destroying_an_absent_workspace_changes_nothing() {
    let mut st = State::default();
    st.update_from_event(create("3"));
    st.update_from_event(destroy("9"));
    assert_eq!(st.total_workspaces, set(&[3]));
}

#[test]
fn workspace_change_sets_current_whatever_it_was() {
    for prior in [0u32, 3, 7, u32::MAX] {
        let mut st = State::default();
        st.current_workspace = prior;
        let e = Events::Hypr(HyprctlEvents::WorkspaceV2 { workspace_id: "3".to_string(), workspace_name: "3".to_string() });
        assert_eq!(st.update_from_event(e), StateUpdate::Updated);
        assert_eq!(st.current_workspace, 3);
    }
}

#[test]
fn move_workspace_sets_current() {
    let mut st = State::default();
    let e = Events::Hypr(HyprctlEvents::MoveWorkspaceV2 {
        workspace_id: "5".to_string(),
        workspace_name: "five".to_string(),
        mon_name: "DP-1".to_string(),
    });
    assert_eq!(st.update_from_event(e), StateUpdate::Updated);
    assert_eq!(st.current_workspace, 5);
}

#[test]
fn active_window_sets_app_name_to_title() {
    let mut st = State::default();
    let e = Events::Hypr(HyprctlEvents::ActiveWindow { window_class: "kitty".to_string(), window_title: "vim".to_string() });
    assert_eq!(st.update_from_event(e), StateUpdate::Updated);
    assert_eq!(st.current_app_name, "vim");
}

#[test]
fn untracked_event_is_a_noop() {
    let mut st = State::default();
    st.update_from_event(create("1"));
    st.current_app_name = "app".to_string();
    st.current_volume = 40;
    st.current_brightness = 70;
    for e in [
        HyprctlEvents::ConfigReloaded,
        HyprctlEvents::FullScreen(true),
        HyprctlEvents::Workspace { workspace_name: "9".to_string() },
    ] {
        assert_eq!(st.update_from_event(Events::Hypr(e)), StateUpdate::Nop);
        assert_eq!(st.total_workspaces, set(&[1]));
        assert_eq!(st.current_workspace, 0);
        assert_eq!(st.current_app_name, "app");
        assert_eq!(st.current_volume, 40);
        assert_eq!(st.current_brightness, 70);
    }
}

#[test]
fn unreadable_workspace_id_is_a_noop() {
    let mut st = State::default();
    st.current_workspace = 4;
    let e = Events::Hypr(HyprctlEvents::WorkspaceV2 { workspace_id: "special".to_string(), workspace_name: "x".to_string() });
    assert_eq!(st.update_from_event(e), StateUpdate::Nop);
    assert_eq!(st.current_workspace, 4);
    assert_eq!(st.update_from_event(create("-1")), StateUpdate::Nop);
    assert!(st.total_workspaces.is_empty());
}

#[test]
fn initial_state_counts_workspaces_from_one() {
    let w = ActiveWindow { class: "kitty".to_string(), title: "zsh".to_string() };
    let st = State::initial(3, 2, &w);
    assert_eq!(st.total_workspaces, set(&[1, 2, 3]));
    assert_eq!(st.current_workspace, 2);
    assert_eq!(st.current_app_name, "kitty / zsh");
    assert_eq!(st.current_volume, 0);
    assert_eq!(st.current_brightness, 0);
}
