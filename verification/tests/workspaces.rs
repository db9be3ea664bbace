use tenex_tui::keys::Key;
use tenex_tui::workspaces::{
    handle_workspace_manager_key, pin_status, sort_workspaces, workspace_status, WorkspaceAction,
    WorkspaceEvent, WorkspaceFocus, WorkspaceInfo, WorkspaceManager, WorkspaceMode,
};

fn ws(id: &str, name: &str, pinned: bool) -> WorkspaceInfo {
    WorkspaceInfo { id: id.to_string(), name: name.to_string(), pinned, project_ids: Vec::new() }
}

fn manager(mode: WorkspaceMode, focus: WorkspaceFocus) -> WorkspaceManager {
    WorkspaceManager {
        mode,
        focus,
        selected_index: 0,
        project_selector_index: 0,
        editing_name: String::new(),
    }
}

#[test]
fn pinned_first_then_by_name_stably() {
    let sorted = sort_workspaces(vec![
        ws("1", "beta", false),
        ws("2", "alpha", false),
        ws("3", "zeta", true),
        ws("4", "Alpha", true),
        ws("5", "alpha", false),
    ]);
    let ids: Vec<&str> = sorted.iter().map(|w| w.id.as_str()).collect();
    assert_eq!(ids, vec!["4", "3", "2", "5", "1"]);
}

#[test]
fn list_keys() {
    let mut m = manager(WorkspaceMode::List, WorkspaceFocus::Name);
    assert_eq!(handle_workspace_manager_key(&mut m, Key::Char('q'), 3, 0), WorkspaceAction::Close);
    assert_eq!(handle_workspace_manager_key(&mut m, Key::Char('j'), 3, 0), WorkspaceAction::MoveDown(3));
    assert_eq!(handle_workspace_manager_key(&mut m, Key::Enter, 3, 0), WorkspaceAction::SwitchTo(0));
    assert_eq!(handle_workspace_manager_key(&mut m, Key::Enter, 0, 0), WorkspaceAction::Ignore);
    assert_eq!(handle_workspace_manager_key(&mut m, Key::Char('d'), 0, 0), WorkspaceAction::Ignore);
    assert_eq!(handle_workspace_manager_key(&mut m, Key::Char('d'), 2, 0), WorkspaceAction::StartDelete);
    assert_eq!(handle_workspace_manager_key(&mut m, Key::Char('p'), 2, 0), WorkspaceAction::TogglePin(0));
    assert_eq!(handle_workspace_manager_key(&mut m, Key::Backspace, 2, 0), WorkspaceAction::ShowAll);
}

#[test]
fn editor_keys() {
    let mut m = manager(WorkspaceMode::Create, WorkspaceFocus::Name);
    for c in "work k".chars() {
        handle_workspace_manager_key(&mut m, Key::Char(c), 0, 2);
    }
    assert_eq!(m.editing_name, "work k");
    handle_workspace_manager_key(&mut m, Key::Backspace, 0, 2);
    assert_eq!(m.editing_name, "work ");
    handle_workspace_manager_key(&mut m, Key::Tab, 0, 2);
    assert_eq!(m.focus, WorkspaceFocus::Projects);
    handle_workspace_manager_key(&mut m, Key::Char('j'), 0, 2);
    handle_workspace_manager_key(&mut m, Key::Down, 0, 2);
    assert_eq!(m.project_selector_index, 1);
    assert_eq!(handle_workspace_manager_key(&mut m, Key::Char(' '), 0, 2), WorkspaceAction::ToggleProject(1));
    assert_eq!(handle_workspace_manager_key(&mut m, Key::Char('x'), 0, 2), WorkspaceAction::Ignore);
    assert_eq!(m.editing_name, "work ");
    assert_eq!(handle_workspace_manager_key(&mut m, Key::Enter, 0, 2), WorkspaceAction::SaveIfReady);
    assert_eq!(handle_workspace_manager_key(&mut m, Key::Esc, 0, 2), WorkspaceAction::BackToList);
}

#[test]
fn delete_confirmation() {
    let mut m = manager(WorkspaceMode::Delete, WorkspaceFocus::Name);
    m.selected_index = 2;
    assert_eq!(handle_workspace_manager_key(&mut m, Key::Char('d'), 3, 0), WorkspaceAction::Delete(2));
    assert_eq!(m.selected_index, 1);
    assert_eq!(handle_workspace_manager_key(&mut m, Key::Char('x'), 3, 0), WorkspaceAction::Ignore);
    assert_eq!(handle_workspace_manager_key(&mut m, Key::Esc, 3, 0), WorkspaceAction::BackToList);
    assert_eq!(workspace_status(WorkspaceEvent::Deleted, "Home"), "Deleted workspace: Home");
    assert_eq!(workspace_status(WorkspaceEvent::SwitchedTo, "Home"), "Switched to workspace: Home");
    assert_eq!(pin_status(false), "Workspace unpinned");
}
