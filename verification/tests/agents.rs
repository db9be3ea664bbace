use tenex_tui::agents::{
    agent_created_status, agent_deletion_status, config_save_target, config_saved_status,
    config_tags, deletion_project, handle_agent_config_modal_key, handle_agent_deletion_key,
    handle_create_agent_key, AgentConfigAction, AgentConfigFocus, AgentConfigState,
    AgentCreateStep, AgentDeletionStep, AgentForm, AgentFormAction, AgentFormFocus,
    ConfigSaveTarget, DeletionScope, agent_settings_sent_status, handle_agent_settings_modal_key,
    AgentSettingsAction, AgentSettingsFocus, agent_settings_blocker,
};
use tenex_tui::keys::Key;

fn form(step: AgentCreateStep, instructions: &str, cursor: usize) -> AgentForm {
    AgentForm {
        step,
        focus: AgentFormFocus::Name,
        name: String::new(),
        description: String::new(),
        role: String::new(),
        instructions: instructions.to_string(),
        instructions_cursor: cursor,
        instructions_scroll: 0,
    }
}

#[test]
fn basics_fields_and_focus_cycle() {
    let mut f = form(AgentCreateStep::Basics, "", 0);
    handle_create_agent_key(&mut f, Key::Char('A'), false, false);
    handle_create_agent_key(&mut f, Key::Tab, false, false);
    handle_create_agent_key(&mut f, Key::Char('d'), false, false);
    handle_create_agent_key(&mut f, Key::Tab, false, false);
    handle_create_agent_key(&mut f, Key::Char('r'), false, false);
    handle_create_agent_key(&mut f, Key::Tab, false, false);
    assert_eq!((f.name.as_str(), f.description.as_str(), f.role.as_str()), ("A", "d", "r"));
    assert_eq!(f.focus, AgentFormFocus::Name);
    handle_create_agent_key(&mut f, Key::Enter, false, false);
    assert_eq!(f.step, AgentCreateStep::Basics);
    handle_create_agent_key(&mut f, Key::Enter, false, true);
    assert_eq!(f.step, AgentCreateStep::Instructions);
    assert_eq!(handle_create_agent_key(&mut f, Key::Esc, false, true), AgentFormAction::Close);
}

#[test]
fn instructions_editor_moves_by_lines() {
    let mut f = form(AgentCreateStep::Instructions, "abcd\nxy\nlonger", 3);
    handle_create_agent_key(&mut f, Key::Down, false, false);
    assert_eq!(f.instructions_cursor, 7); // end of "xy"
    handle_create_agent_key(&mut f, Key::Down, false, false);
    assert_eq!(f.instructions_cursor, 10); // column 2 of "longer"
    handle_create_agent_key(&mut f, Key::End, false, false);
    assert_eq!(f.instructions_cursor, 14);
    handle_create_agent_key(&mut f, Key::Up, false, false);
    assert_eq!(f.instructions_cursor, 7);
    handle_create_agent_key(&mut f, Key::Up, false, false);
    assert_eq!(f.instructions_cursor, 2);
    handle_create_agent_key(&mut f, Key::Up, false, false);
    assert_eq!(f.instructions_cursor, 2);
    handle_create_agent_key(&mut f, Key::Home, false, false);
    assert_eq!(f.instructions_cursor, 0);
    handle_create_agent_key(&mut f, Key::Char('>'), false, false);
    handle_create_agent_key(&mut f, Key::Enter, false, false);
    assert_eq!(f.instructions, ">\nabcd\nxy\nlonger");
    assert_eq!(f.instructions_cursor, 2);
    handle_create_agent_key(&mut f, Key::Backspace, false, false);
    assert_eq!(f.instructions, ">abcd\nxy\nlonger");
    handle_create_agent_key(&mut f, Key::Right, false, false);
    assert_eq!(f.instructions_cursor, 2);
    handle_create_agent_key(&mut f, Key::Enter, true, false);
    assert_eq!(f.step, AgentCreateStep::Review);
}

#[test]
fn empty_instructions_backspace_returns_to_basics() {
    let mut f = form(AgentCreateStep::Instructions, "", 0);
    handle_create_agent_key(&mut f, Key::Backspace, false, false);
    assert_eq!(f.step, AgentCreateStep::Basics);
}

#[test]
fn review_scrolls_within_lines_and_publishes() {
    let mut f = form(AgentCreateStep::Review, "a\nb\nc", 0);
    for _ in 0..5 {
        handle_create_agent_key(&mut f, Key::Down, false, false);
    }
    assert_eq!(f.instructions_scroll, 2);
    assert_eq!(handle_create_agent_key(&mut f, Key::Enter, false, false), AgentFormAction::Publish);
    handle_create_agent_key(&mut f, Key::Backspace, false, false);
    assert_eq!(f.step, AgentCreateStep::Instructions);
    assert_eq!(f.instructions_scroll, 0);
    assert_eq!(agent_created_status("Coder", true, None), Some("Agent 'Coder' created".to_string()));
    assert_eq!(agent_created_status("Coder", true, Some("x")), Some("Failed to create agent: x".to_string()));
    assert_eq!(agent_created_status("Coder", false, None), None);
}

#[test]
fn agent_config_keys() {
    let mut st = AgentConfigState {
        focus: AgentConfigFocus::Model,
        selector_index: 0,
        has_settings: true,
        model_index: 0,
        model_count: 2,
        is_pm: false,
        save_globally: false,
    };
    handle_agent_config_modal_key(&mut st, Key::Down, false, false, false);
    handle_agent_config_modal_key(&mut st, Key::Down, false, false, false);
    assert_eq!(st.model_index, 1);
    assert_eq!(handle_agent_config_modal_key(&mut st, Key::Char('g'), false, true, false), AgentConfigAction::Updated);
    assert!(st.save_globally);
    handle_agent_config_modal_key(&mut st, Key::Char('m'), false, true, false);
    assert!(st.is_pm);
    assert_eq!(handle_agent_config_modal_key(&mut st, Key::Tab, true, false, false), AgentConfigAction::FocusPrev);
    st.focus = AgentConfigFocus::Agents;
    assert_eq!(handle_agent_config_modal_key(&mut st, Key::Char('x'), false, false, false), AgentConfigAction::AddFilterChar('x'));
    assert_eq!(handle_agent_config_modal_key(&mut st, Key::Char(' '), false, false, false), AgentConfigAction::Ignore);
    assert_eq!(handle_agent_config_modal_key(&mut st, Key::Up, false, false, false), AgentConfigAction::Refresh);
    st.focus = AgentConfigFocus::Tools;
    assert_eq!(handle_agent_config_modal_key(&mut st, Key::Char('a'), false, false, false), AgentConfigAction::ToggleToolGroup);
    assert_eq!(handle_agent_config_modal_key(&mut st, Key::Enter, false, false, false), AgentConfigAction::Confirm);
}

#[test]
fn config_saving_and_deletion() {
    assert_eq!(config_save_target(true, Some("p")), ConfigSaveTarget::Global);
    assert_eq!(config_save_target(false, Some("p")), ConfigSaveTarget::Project("p".to_string()));
    assert_eq!(config_save_target(false, None), ConfigSaveTarget::NoProject);
    assert_eq!(config_tags(true), vec!["pm".to_string()]);
    assert!(config_tags(false).is_empty());
    assert_eq!(
        config_saved_status(&ConfigSaveTarget::NoProject, true, None),
        Some("No active project \u{2014} toggle 'g' for global".to_string())
    );
    assert_eq!(
        config_saved_status(&ConfigSaveTarget::Global, true, None),
        Some("Agent config saved globally".to_string())
    );
    assert_eq!(config_saved_status(&ConfigSaveTarget::Global, false, None), None);
    assert_eq!(handle_agent_deletion_key(Key::Enter, 1), AgentDeletionStep::Delete);
    assert_eq!(handle_agent_deletion_key(Key::Enter, 0), AgentDeletionStep::Close);
    assert_eq!(handle_agent_deletion_key(Key::Tab, 0), AgentDeletionStep::ToggleScope);
    assert_eq!(deletion_project(DeletionScope::Global, "p"), None);
    assert_eq!(deletion_project(DeletionScope::Project, "p"), Some("p".to_string()));
    assert_eq!(
        agent_deletion_status("Coder", DeletionScope::Global, true, None),
        "Agent 'Coder' deletion event published (global)"
    );
    assert_eq!(agent_deletion_status("Coder", DeletionScope::Project, false, None), "Error: Not connected to relays");
}

#[test]
fn agent_settings_keys() {
    let m = AgentSettingsFocus::Model;
    let t = AgentSettingsFocus::Tools;
    assert_eq!(handle_agent_settings_modal_key(m, 0, 3, Key::Esc), AgentSettingsAction::Close);
    assert_eq!(handle_agent_settings_modal_key(m, 0, 3, Key::Tab), AgentSettingsAction::SetFocus(t));
    assert_eq!(handle_agent_settings_modal_key(t, 0, 3, Key::Tab), AgentSettingsAction::SetFocus(m));
    assert_eq!(handle_agent_settings_modal_key(m, 0, 3, Key::Up), AgentSettingsAction::Nothing);
    assert_eq!(handle_agent_settings_modal_key(m, 1, 3, Key::Down), AgentSettingsAction::SelectModel(2));
    assert_eq!(handle_agent_settings_modal_key(m, 2, 3, Key::Down), AgentSettingsAction::Nothing);
    assert_eq!(handle_agent_settings_modal_key(m, 0, 0, Key::Down), AgentSettingsAction::Nothing);
    assert_eq!(handle_agent_settings_modal_key(t, 2, 3, Key::Down), AgentSettingsAction::ToolCursorDown);
    assert_eq!(handle_agent_settings_modal_key(t, 0, 3, Key::Char(' ')), AgentSettingsAction::ToggleToolAtCursor);
    assert_eq!(handle_agent_settings_modal_key(m, 0, 3, Key::Char('a')), AgentSettingsAction::Nothing);
    assert_eq!(handle_agent_settings_modal_key(t, 0, 3, Key::Enter), AgentSettingsAction::SaveAndClose);
    assert_eq!(agent_settings_sent_status(None), "Agent config update sent");
    assert_eq!(agent_settings_sent_status(Some("closed")), "Failed to update agent config: closed");
}

#[test]
fn agent_settings_need_agent_and_project() {
    assert_eq!(agent_settings_blocker(false, false), Some("No agent selected"));
    assert_eq!(agent_settings_blocker(true, false), Some("No project selected"));
    assert_eq!(agent_settings_blocker(true, true), None);
}

#[test]
fn backspace_undoes_a_typed_character() {
    let mut f = form(AgentCreateStep::Instructions, "ab\ncd", 4);
    handle_create_agent_key(&mut f, Key::Char('x'), false, false);
    assert_eq!(f.instructions, "ab\ncxd");
    assert_eq!(f.instructions_cursor, 5);
    handle_create_agent_key(&mut f, Key::Backspace, false, false);
    assert_eq!(f.instructions, "ab\ncd");
    assert_eq!(f.instructions_cursor, 4);
    let mut b = form(AgentCreateStep::Basics, "", 0);
    b.name = "Ann".to_string();
    handle_create_agent_key(&mut b, Key::Char('e'), false, false);
    handle_create_agent_key(&mut b, Key::Backspace, false, false);
    assert_eq!(b.name, "Ann");
}

#[test]
fn instructions_cursor_counts_bytes() {
    let mut f = form(AgentCreateStep::Instructions, "\u{e9}", 0);
    handle_create_agent_key(&mut f, Key::Right, false, false);
    assert_eq!(f.instructions_cursor, 1);
    handle_create_agent_key(&mut f, Key::Right, false, false);
    assert_eq!(f.instructions_cursor, 2);
    handle_create_agent_key(&mut f, Key::Right, false, false);
    assert_eq!(f.instructions_cursor, 2);
    handle_create_agent_key(&mut f, Key::Char('x'), false, false);
    assert_eq!(f.instructions, "\u{e9}x");
    assert_eq!(f.instructions_cursor, 3);

    let mut g = form(AgentCreateStep::Instructions, "\u{e9}\nabc", 2);
    handle_create_agent_key(&mut g, Key::Down, false, false);
    assert_eq!(g.instructions_cursor, 5);
    handle_create_agent_key(&mut g, Key::Backspace, false, false);
    assert_eq!(g.instructions, "\u{e9}\nac");
    assert_eq!(g.instructions_cursor, 4);
    handle_create_agent_key(&mut g, Key::Up, false, false);
    assert_eq!(g.instructions_cursor, 1);
    handle_create_agent_key(&mut g, Key::Left, false, false);
    assert_eq!(g.instructions_cursor, 0);
    handle_create_agent_key(&mut g, Key::End, false, false);
    assert_eq!(g.instructions_cursor, 2);

    let mut h = form(AgentCreateStep::Instructions, "a", 0);
    handle_create_agent_key(&mut h, Key::Char('\u{fc}'), false, false);
    assert_eq!(h.instructions, "\u{fc}a");
    assert_eq!(h.instructions_cursor, 1);
}
