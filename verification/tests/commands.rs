use tenex_tui::commands::{
    available_commands, commands, execute_command, handle_command_palette_key, CommandAction,
    CommandContext, PaletteStep, ProjectSummary,
};
use tenex_tui::keys::Key;
use tenex_tui::view_state::{AppView, HomeTab, InputMode};

fn context(view: AppView) -> CommandContext {
    CommandContext {
        view,
        sidebar_focused: false,
        home_panel_focus: HomeTab::Conversations,
        input_mode: InputMode::Normal,
        show_archived: false,
        has_available_agents: false,
        has_selected_thread: false,
        selected_thread_has_parent: false,
        selected_thread_busy: false,
        selected_message_has_trace: false,
        has_undo_action: false,
        in_agent_detail: false,
        online_projects: Vec::new(),
        offline_projects: Vec::new(),
        sidebar_project_index: 0,
    }
}

fn project(a_tag: &str, archived: bool, busy: bool) -> ProjectSummary {
    ProjectSummary { a_tag: a_tag.to_string(), archived, busy }
}

#[test]
fn table_defines_each_command_once() {
    let table = commands();
    assert_eq!(table.len(), 49);
    assert_eq!(table[0].key, ',');
    assert_eq!(table[0].label, "Settings");
    assert_eq!(table[0].section, "System");
    for (i, a) in table.iter().enumerate() {
        for b in table.iter().skip(i + 1) {
            assert_ne!(a.action, b.action);
        }
    }
}

#[test]
fn listing_is_sorted_by_section_then_definition_order() {
    let ctx = context(AppView::Home);
    let listed = available_commands(&ctx);
    let sections: Vec<&str> = listed.iter().map(|c| c.section).collect();
    let mut sorted = sections.clone();
    sorted.sort();
    assert_eq!(sections, sorted);
    // Home, main panel on Conversations, nothing archived shown.
    let conversation: Vec<&str> = listed
        .iter()
        .filter(|c| c.section == "Conversation")
        .map(|c| c.label)
        .collect();
    assert_eq!(
        conversation,
        vec![
            "Open selected",
            "Archive/Unarchive",
            "Export JSONL",
            "New conversation (current project)",
            "New conversation on project...",
        ]
    );
    let system: Vec<char> = listed.iter().filter(|c| c.section == "System").map(|c| c.key).collect();
    assert_eq!(system, vec![',', 'D', 'q']);
    assert_eq!(listed[0].section, "Conversation");
}

#[test]
fn listing_holds_exactly_the_available_commands() {
    let mut ctx = context(AppView::Chat);
    ctx.has_selected_thread = true;
    ctx.input_mode = InputMode::Editing;
    let listed = available_commands(&ctx);
    let table = commands();
    let expected: Vec<CommandAction> = table
        .iter()
        .filter(|c| c.action.is_available(&ctx))
        .map(|c| c.action)
        .collect();
    assert_eq!(listed.len(), expected.len());
    for action in expected {
        assert!(listed.iter().any(|c| c.action == action));
    }
    assert!(listed.iter().any(|c| c.action == CommandAction::ExpandEditor));
    assert!(!listed.iter().any(|c| c.action == CommandAction::ForkConversation));
}

#[test]
fn key_runs_first_available_command() {
    let mut ctx = context(AppView::Home);
    ctx.home_panel_focus = HomeTab::Inbox;
    assert_eq!(execute_command(&ctx, 'o'), Some(CommandAction::OpenSelectedInboxItem));
    ctx.home_panel_focus = HomeTab::Reports;
    assert_eq!(execute_command(&ctx, 'o'), Some(CommandAction::ViewReport));
    ctx.home_panel_focus = HomeTab::Stats;
    assert_eq!(execute_command(&ctx, 'o'), None);
    assert_eq!(execute_command(&ctx, 'A'), Some(CommandAction::ShowArchived));
    ctx.show_archived = true;
    assert_eq!(execute_command(&ctx, 'A'), Some(CommandAction::HideArchived));
    assert_eq!(execute_command(&ctx, 'n'), None);
}

#[test]
fn key_runs_iff_listed() {
    let mut ctx = context(AppView::Chat);
    ctx.has_selected_thread = true;
    let listed = available_commands(&ctx);
    for key in [',', 'o', 'a', 'F', 'y', 't', '.', 's', 'E', 'u', 'c', 'z', '@'] {
        assert_eq!(execute_command(&ctx, key).is_some(), listed.iter().any(|c| c.key == key));
    }
}

#[test]
fn sidebar_project_commands() {
    let mut ctx = context(AppView::Home);
    ctx.sidebar_focused = true;
    ctx.online_projects = vec![project("31933:a:one", false, true)];
    ctx.offline_projects = vec![project("31933:a:two", true, false)];
    ctx.sidebar_project_index = 0;
    assert_eq!(execute_command(&ctx, 'b'), None);
    assert_eq!(execute_command(&ctx, '.'), Some(CommandAction::StopProjectAgents));
    assert_eq!(execute_command(&ctx, 'a'), Some(CommandAction::ArchiveProject));
    ctx.sidebar_project_index = 1;
    assert_eq!(execute_command(&ctx, 'b'), Some(CommandAction::BootProject));
    assert_eq!(execute_command(&ctx, '.'), None);
    assert_eq!(execute_command(&ctx, 'a'), Some(CommandAction::UnarchiveProject));
    ctx.sidebar_project_index = 2;
    assert_eq!(execute_command(&ctx, 'b'), None);
    assert_eq!(execute_command(&ctx, 'a'), None);
    assert_eq!(execute_command(&ctx, ' '), Some(CommandAction::ToggleProjectVisibility));
}

#[test]
fn offline_project_also_listed_online_cannot_boot() {
    let mut ctx = context(AppView::Home);
    ctx.sidebar_focused = true;
    ctx.online_projects = vec![project("31933:a:same", false, false)];
    ctx.offline_projects = vec![project("31933:a:same", false, false)];
    ctx.sidebar_project_index = 1;
    assert_eq!(execute_command(&ctx, 'b'), None);
}

#[test]
fn agent_browser_commands() {
    let mut ctx = context(AppView::AgentBrowser);
    assert_eq!(execute_command(&ctx, 'o'), Some(CommandAction::ViewAgent));
    assert_eq!(execute_command(&ctx, 'f'), None);
    ctx.in_agent_detail = true;
    assert_eq!(execute_command(&ctx, 'f'), Some(CommandAction::ForkAgent));
    assert_eq!(execute_command(&ctx, 'c'), Some(CommandAction::CloneAgent));
    assert_eq!(execute_command(&ctx, 'o'), None);
    assert_eq!(execute_command(&ctx, 'u'), None);
}

#[test]
fn undo_needs_a_recorded_action() {
    let mut ctx = context(AppView::Chat);
    assert_eq!(execute_command(&ctx, 'u'), None);
    ctx.has_undo_action = true;
    assert_eq!(execute_command(&ctx, 'u'), Some(CommandAction::Undo));
}

#[test]
fn palette_keys_close_move_and_switch_tabs() {
    let ctx = context(AppView::Home);
    let count = available_commands(&ctx).len();
    assert_eq!(handle_command_palette_key(&ctx, Key::Esc, false, 0), PaletteStep::Close);
    assert_eq!(handle_command_palette_key(&ctx, Key::Left, false, 0), PaletteStep::CloseAndPrevTab);
    assert_eq!(handle_command_palette_key(&ctx, Key::Right, false, 0), PaletteStep::CloseAndNextTab);
    assert_eq!(handle_command_palette_key(&ctx, Key::Left, true, 0), PaletteStep::Close);
    assert_eq!(handle_command_palette_key(&ctx, Key::Right, true, 0), PaletteStep::Close);
    assert_eq!(handle_command_palette_key(&ctx, Key::Up, false, 3), PaletteStep::MoveUp);
    assert_eq!(
        handle_command_palette_key(&ctx, Key::Down, false, 0),
        PaletteStep::MoveDown { count }
    );
    assert_eq!(handle_command_palette_key(&ctx, Key::Tab, false, 0), PaletteStep::Stay);
}

#[test]
fn palette_runs_listed_commands_and_falls_back_to_tab_keys() {
    let ctx = context(AppView::Home);
    let listed = available_commands(&ctx);
    assert_eq!(
        handle_command_palette_key(&ctx, Key::Enter, false, 0),
        PaletteStep::CloseAndRun(listed[0].action)
    );
    assert_eq!(
        handle_command_palette_key(&ctx, Key::Enter, false, 0),
        PaletteStep::CloseAndRun(CommandAction::OpenSelectedConversation)
    );
    assert_eq!(handle_command_palette_key(&ctx, Key::Enter, false, listed.len()), PaletteStep::Stay);
    assert_eq!(
        handle_command_palette_key(&ctx, Key::Char('q'), false, 0),
        PaletteStep::CloseAndRun(CommandAction::Quit)
    );
    assert_eq!(handle_command_palette_key(&ctx, Key::Char('n'), false, 0), PaletteStep::CloseAndNextTab);
    assert_eq!(handle_command_palette_key(&ctx, Key::Char('p'), false, 0), PaletteStep::CloseAndPrevTab);
    assert_eq!(handle_command_palette_key(&ctx, Key::Char('z'), false, 0), PaletteStep::Close);
}

#[test]
fn each_command_is_defined_once() {
    let table = commands();
    for i in 0..table.len() {
        for j in (i + 1)..table.len() {
            assert_ne!(table[i].action, table[j].action);
        }
    }
}

#[test]
fn listed_keys_are_distinct_in_every_view() {
    let views = [AppView::Home, AppView::Chat, AppView::AgentBrowser, AppView::Login, AppView::LessonViewer];
    for view in views {
        for sidebar in [false, true] {
            for editing in [false, true] {
                for archived in [false, true] {
                    let mut ctx = context(view);
                    ctx.sidebar_focused = sidebar;
                    ctx.input_mode = if editing { InputMode::Editing } else { InputMode::Normal };
                    ctx.show_archived = archived;
                    ctx.has_selected_thread = true;
                    ctx.selected_thread_busy = true;
                    ctx.in_agent_detail = archived;
                    ctx.online_projects = vec![project("31933:pk:p", archived, true)];
                    let listed = available_commands(&ctx);
                    for (i, a) in listed.iter().enumerate() {
                        assert!(a.key != 'n' && a.key != 'p');
                        for b in listed.iter().skip(i + 1) {
                            assert_ne!(a.key, b.key);
                        }
                        assert_eq!(execute_command(&ctx, a.key), Some(a.action));
                    }
                    for key in [',', '1', '?', 'D', 'q', 'B', 'U', 'C', 'W', 'N', 'P'] {
                        assert!(listed.iter().any(|c| c.key == key));
                    }
                    let toggles: Vec<_> = listed.iter().filter(|c| c.key == 'A').collect();
                    assert_eq!(toggles.len(), 1);
                    let label = if archived { "Hide archived items" } else { "Show archived items" };
                    assert_eq!(toggles[0].label, label);
                }
            }
        }
    }
}
