use tenex_tui::keys::Key;
use tenex_tui::project_modals::{
    agent_added, agent_removed, handle_create_project_key, handle_project_settings_key,
    project_published_status, CreateProjectAction, CreateProjectFocus, CreateProjectForm,
    CreateProjectStep, ProjectSettingsAction, ProjectSettingsState,
};

fn settings() -> ProjectSettingsState {
    ProjectSettingsState { in_add_mode: false, add_filter: String::new(), add_index: 0, selector_index: 0 }
}

#[test]
fn project_agent_list_keys() {
    let mut s = settings();
    handle_project_settings_key(&mut s, Key::Down, 0, 3, false);
    handle_project_settings_key(&mut s, Key::Down, 0, 3, false);
    handle_project_settings_key(&mut s, Key::Down, 0, 3, false);
    assert_eq!(s.selector_index, 2);
    assert_eq!(handle_project_settings_key(&mut s, Key::Char('p'), 0, 3, false), ProjectSettingsAction::SetPmAt(2));
    assert_eq!(s.selector_index, 0);
    assert_eq!(handle_project_settings_key(&mut s, Key::Char('p'), 0, 3, false), ProjectSettingsAction::Ignore);
    assert_eq!(handle_project_settings_key(&mut s, Key::Char('d'), 0, 0, false), ProjectSettingsAction::Ignore);
    assert_eq!(handle_project_settings_key(&mut s, Key::Enter, 0, 3, false), ProjectSettingsAction::Ignore);
    assert_eq!(handle_project_settings_key(&mut s, Key::Enter, 0, 3, true), ProjectSettingsAction::Save);
    s.selector_index = 2;
    assert_eq!(handle_project_settings_key(&mut s, Key::Char('d'), 0, 3, false), ProjectSettingsAction::RemoveAgentAt(2));
    agent_removed(&mut s, 2);
    assert_eq!(s.selector_index, 1);
}

#[test]
fn agent_picker_keys() {
    let mut s = settings();
    handle_project_settings_key(&mut s, Key::Char('a'), 4, 1, false);
    assert!(s.in_add_mode);
    handle_project_settings_key(&mut s, Key::Char('c'), 4, 1, false);
    handle_project_settings_key(&mut s, Key::Char('o'), 4, 1, false);
    assert_eq!(s.add_filter, "co");
    handle_project_settings_key(&mut s, Key::Down, 4, 1, false);
    assert_eq!(s.add_index, 1);
    assert_eq!(handle_project_settings_key(&mut s, Key::Enter, 4, 1, false), ProjectSettingsAction::AddAgentAt(1));
    agent_added(&mut s);
    assert!(!s.in_add_mode);
    assert_eq!(s.add_filter, "");
    assert_eq!(project_published_status(false, true, None), Some("Project agents updated".to_string()));
    assert_eq!(project_published_status(true, true, Some("x")), Some("Failed to create project: x".to_string()));
    assert_eq!(project_published_status(true, false, None), None);
}

#[test]
fn create_project_wizard() {
    let mut f = CreateProjectForm {
        step: CreateProjectStep::Details,
        focus: CreateProjectFocus::Name,
        name: String::new(),
        description: String::new(),
        agent_filter: String::new(),
        agent_index: 0,
    };
    handle_create_project_key(&mut f, Key::Char('P'), false, 0);
    handle_create_project_key(&mut f, Key::Tab, false, 0);
    handle_create_project_key(&mut f, Key::Char('d'), false, 0);
    assert_eq!((f.name.as_str(), f.description.as_str()), ("P", "d"));
    handle_create_project_key(&mut f, Key::Enter, false, 0);
    assert_eq!(f.step, CreateProjectStep::Details);
    handle_create_project_key(&mut f, Key::Enter, true, 0);
    assert_eq!(f.step, CreateProjectStep::SelectAgents);
    handle_create_project_key(&mut f, Key::Char('x'), true, 2);
    assert_eq!(f.agent_filter, "x");
    assert_eq!(handle_create_project_key(&mut f, Key::Char(' '), true, 2), CreateProjectAction::ToggleAgentAt(0));
    handle_create_project_key(&mut f, Key::Backspace, true, 2);
    assert_eq!(f.agent_filter, "");
    assert_eq!(f.step, CreateProjectStep::SelectAgents);
    handle_create_project_key(&mut f, Key::Backspace, true, 2);
    assert_eq!(f.step, CreateProjectStep::Details);
    f.step = CreateProjectStep::SelectAgents;
    assert_eq!(handle_create_project_key(&mut f, Key::Enter, true, 2), CreateProjectAction::Create);
}
