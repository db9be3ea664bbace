use tenex_tui::keys::{
    audio_hotkey, global_hotkey_action, handle_global_tab_navigation, handle_normal_mode,
    handle_normal_mode_char, in_text_input_context, should_check_hotkeys, view_route, AudioKey,
    GlobalHotkey, GlobalHotkeyAction, Key, ModalKind, NormalModeAction, NormalModeState,
    TabNavigation, ViewRoute,
};
use tenex_tui::view_state::{AppView, InputMode};

fn state(view: AppView) -> NormalModeState {
    NormalModeState {
        view,
        in_agent_detail: false,
        has_available_agents: true,
        selected_message_index: 0,
        display_item_count: 3,
        in_subthread: false,
        has_navigation_stack: false,
    }
}

#[test]
fn chat_characters() {
    let s = state(AppView::Chat);
    assert_eq!(handle_normal_mode_char(&s, 'a'), NormalModeAction::OpenAgentSelector);
    assert_eq!(handle_normal_mode_char(&s, '@'), NormalModeAction::OpenAgentSelector);
    assert_eq!(handle_normal_mode_char(&s, '.'), NormalModeAction::StopAgents);
    assert_eq!(handle_normal_mode_char(&s, 't'), NormalModeAction::ToggleTodoSidebar);
    assert_eq!(handle_normal_mode_char(&s, 'o'), NormalModeAction::OpenFirstImage);
    let mut no_agents = s;
    no_agents.has_available_agents = false;
    assert_eq!(handle_normal_mode_char(&no_agents, 'a'), NormalModeAction::Nothing);
    assert_eq!(handle_normal_mode(&s, Key::Char('q')), NormalModeAction::Quit);
}

#[test]
fn agent_browser_characters() {
    let mut s = state(AppView::AgentBrowser);
    assert_eq!(handle_normal_mode_char(&s, 'n'), NormalModeAction::NewAgent);
    assert_eq!(handle_normal_mode_char(&s, 'x'), NormalModeAction::AppendToAgentFilter('x'));
    assert_eq!(handle_normal_mode_char(&s, 'f'), NormalModeAction::AppendToAgentFilter('f'));
    s.in_agent_detail = true;
    assert_eq!(handle_normal_mode_char(&s, 'f'), NormalModeAction::ForkViewedAgent);
    assert_eq!(handle_normal_mode_char(&s, 'c'), NormalModeAction::CloneViewedAgent);
    assert_eq!(handle_normal_mode_char(&s, 'j'), NormalModeAction::ScrollDown(3));
    assert_eq!(handle_normal_mode_char(&s, 'x'), NormalModeAction::Nothing);
}

#[test]
fn lesson_sections() {
    let s = state(AppView::LessonViewer);
    assert_eq!(handle_normal_mode_char(&s, '1'), NormalModeAction::SelectLessonSection(0));
    assert_eq!(handle_normal_mode_char(&s, '5'), NormalModeAction::SelectLessonSection(4));
    assert_eq!(handle_normal_mode_char(&s, '6'), NormalModeAction::Nothing);
    assert_eq!(handle_normal_mode_char(&s, 'k'), NormalModeAction::ScrollUp(3));
}

#[test]
fn chat_arrows_move_and_focus_input_at_the_end() {
    let mut s = state(AppView::Chat);
    assert_eq!(handle_normal_mode(&s, Key::Up), NormalModeAction::Nothing);
    assert_eq!(handle_normal_mode(&s, Key::Down), NormalModeAction::SelectMessage(1));
    s.selected_message_index = 2;
    assert_eq!(handle_normal_mode(&s, Key::Down), NormalModeAction::FocusInput);
    assert_eq!(handle_normal_mode(&s, Key::Up), NormalModeAction::SelectMessage(1));
    s.display_item_count = 0;
    s.selected_message_index = 0;
    assert_eq!(handle_normal_mode(&s, Key::Down), NormalModeAction::FocusInput);
    assert_eq!(handle_normal_mode(&s, Key::PageDown), NormalModeAction::ScrollDown(20));
    assert_eq!(handle_normal_mode(&s, Key::Home), NormalModeAction::ScrollToTop);
}

#[test]
fn escape_backs_out_one_level() {
    let mut s = state(AppView::Chat);
    assert_eq!(handle_normal_mode(&s, Key::Esc), NormalModeAction::CloseTab);
    s.has_navigation_stack = true;
    assert_eq!(handle_normal_mode(&s, Key::Esc), NormalModeAction::PopNavigation);
    s.in_subthread = true;
    assert_eq!(handle_normal_mode(&s, Key::Esc), NormalModeAction::ExitSubthread);
    let mut b = state(AppView::AgentBrowser);
    assert_eq!(handle_normal_mode(&b, Key::Esc), NormalModeAction::LeaveAgentBrowser);
    b.in_agent_detail = true;
    assert_eq!(handle_normal_mode(&b, Key::Esc), NormalModeAction::ExitAgentDetail);
    assert_eq!(handle_normal_mode(&state(AppView::LessonViewer), Key::Esc), NormalModeAction::LeaveLessonViewer);
    assert_eq!(handle_normal_mode(&state(AppView::Login), Key::Esc), NormalModeAction::Nothing);
}

#[test]
fn text_input_and_hotkeys() {
    assert!(in_text_input_context(AppView::Login, InputMode::Normal, ModalKind::NoModal));
    assert!(in_text_input_context(AppView::Home, InputMode::Editing, ModalKind::NoModal));
    assert!(in_text_input_context(AppView::Home, InputMode::Normal, ModalKind::AskModal));
    assert!(!in_text_input_context(AppView::Home, InputMode::Normal, ModalKind::HotkeyHelp));
    assert!(should_check_hotkeys(false, false, false));
    assert!(!should_check_hotkeys(true, false, false));
    assert!(should_check_hotkeys(true, true, false));
    assert_eq!(global_hotkey_action(GlobalHotkey::CommandPalette, true, ModalKind::NoModal), GlobalHotkeyAction::OpenCommandPalette);
    assert_eq!(global_hotkey_action(GlobalHotkey::CommandPalette, false, ModalKind::CommandPalette), GlobalHotkeyAction::Consumed);
    assert_eq!(global_hotkey_action(GlobalHotkey::Help, true, ModalKind::NoModal), GlobalHotkeyAction::NotHandled);
    assert_eq!(global_hotkey_action(GlobalHotkey::Help, false, ModalKind::HotkeyHelp), GlobalHotkeyAction::Consumed);
    assert_eq!(global_hotkey_action(GlobalHotkey::WorkspaceManager, false, ModalKind::Other), GlobalHotkeyAction::OpenWorkspaceManager);
    assert_eq!(audio_hotkey(Key::Char('s'), true), Some(AudioKey::Stop));
    assert_eq!(audio_hotkey(Key::Char('r'), true), Some(AudioKey::Replay));
    assert_eq!(audio_hotkey(Key::Char('s'), false), None);
}

#[test]
fn tab_navigation_keys() {
    assert_eq!(handle_global_tab_navigation(Key::Char('\u{b5}'), false, 0), TabNavigation::JumpToNotification);
    assert_eq!(handle_global_tab_navigation(Key::Char('\u{a1}'), false, 0), TabNavigation::GoHome);
    assert_eq!(handle_global_tab_navigation(Key::Char('\u{2122}'), false, 2), TabNavigation::SwitchToTab(0));
    assert_eq!(handle_global_tab_navigation(Key::Char('\u{aa}'), false, 2), TabNavigation::Consumed);
    assert_eq!(handle_global_tab_navigation(Key::Char('1'), true, 2), TabNavigation::GoHome);
    assert_eq!(handle_global_tab_navigation(Key::Char('3'), true, 2), TabNavigation::SwitchToTab(1));
    assert_eq!(handle_global_tab_navigation(Key::Char('9'), true, 2), TabNavigation::Consumed);
    assert_eq!(handle_global_tab_navigation(Key::Char('3'), false, 2), TabNavigation::NotHandled);
    assert_eq!(handle_global_tab_navigation(Key::Enter, true, 2), TabNavigation::NotHandled);
}

#[test]
fn routes() {
    assert_eq!(view_route(AppView::Home, InputMode::Editing), ViewRoute::Home);
    assert_eq!(view_route(AppView::Chat, InputMode::Editing), ViewRoute::ChatEditor);
    assert_eq!(view_route(AppView::Chat, InputMode::Normal), ViewRoute::ChatNormal);
    assert_eq!(view_route(AppView::Login, InputMode::Editing), ViewRoute::Editing);
    assert_eq!(view_route(AppView::AgentBrowser, InputMode::Normal), ViewRoute::Normal);
}
