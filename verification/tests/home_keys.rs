use tenex_tui::home::ListStep;
use tenex_tui::home_keys::{
    handle_chat_normal_mode, handle_home_view_key, same_context_status, thread_id_at_index,
    ChatHotkey, ChatNormalAction, ChatNormalState, HomeHotkey, HomeKeyAction, HomeKeyState,
    HomeModal, HomeRows,
};
use tenex_tui::keys::Key;
use tenex_tui::view_state::HomeTab;

fn home(tab: HomeTab) -> HomeKeyState {
    HomeKeyState {
        tab,
        editing: false,
        modal: HomeModal::NoModal,
        sidebar_focused: false,
        selection: 1,
        row_count: 3,
        sidebar_index: 0,
        online_count: 2,
        project_count: 4,
        has_multi_selection: false,
        report_filter_empty: true,
        open_tabs: 2,
    }
}

#[test]
fn reports_search_takes_keys_while_typing() {
    let mut s = home(HomeTab::Reports);
    s.editing = true;
    assert_eq!(handle_home_view_key(&s, Key::Char('q'), false, HomeHotkey::Quit), HomeKeyAction::EditReportSearch);
}

#[test]
fn project_modals_take_keys() {
    let mut s = home(HomeTab::Inbox);
    s.modal = HomeModal::ProjectSettings;
    assert_eq!(handle_home_view_key(&s, Key::Enter, false, HomeHotkey::Other), HomeKeyAction::ProjectSettingsKey);
}

#[test]
fn home_hotkeys() {
    let s = home(HomeTab::Reports);
    assert_eq!(handle_home_view_key(&s, Key::Tab, false, HomeHotkey::NextHomeTab), HomeKeyAction::SetTab(HomeTab::Feed));
    assert_eq!(handle_home_view_key(&s, Key::BackTab, true, HomeHotkey::PrevHomeTab), HomeKeyAction::SetTab(HomeTab::Inbox));
    assert_eq!(handle_home_view_key(&s, Key::Char('p'), false, HomeHotkey::SwitchProject), HomeKeyAction::OpenProjectsModal(false));
    let stats = home(HomeTab::Stats);
    assert_eq!(handle_home_view_key(&stats, Key::Right, false, HomeHotkey::FocusSidebar), HomeKeyAction::NextStatsSubtab);
    let mut side = home(HomeTab::Inbox);
    side.sidebar_focused = true;
    assert_eq!(handle_home_view_key(&side, Key::Char('H'), false, HomeHotkey::ToggleHideScheduled), HomeKeyAction::Nothing);
}

#[test]
fn list_moves_with_and_without_shift() {
    let s = home(HomeTab::Conversations);
    assert_eq!(
        handle_home_view_key(&s, Key::Down, false, HomeHotkey::Other),
        HomeKeyAction::Move(ListStep { clear_multi_selection: true, mark_before: None, new_selection: Some(2), mark_after: None })
    );
    assert_eq!(
        handle_home_view_key(&s, Key::Char('K'), true, HomeHotkey::Other),
        HomeKeyAction::Move(ListStep { clear_multi_selection: false, mark_before: Some(1), new_selection: Some(0), mark_after: Some(0) })
    );
}

#[test]
fn sidebar_keys() {
    let mut s = home(HomeTab::Conversations);
    s.sidebar_focused = true;
    s.sidebar_index = 3;
    assert_eq!(handle_home_view_key(&s, Key::Down, false, HomeHotkey::Other), HomeKeyAction::SidebarMove(3));
    assert_eq!(handle_home_view_key(&s, Key::Up, false, HomeHotkey::Other), HomeKeyAction::SidebarMove(2));
    assert_eq!(handle_home_view_key(&s, Key::Char('b'), false, HomeHotkey::Other), HomeKeyAction::BootProject(1));
    assert_eq!(
        handle_home_view_key(&s, Key::Enter, false, HomeHotkey::Other),
        HomeKeyAction::OpenProjectActions { index: 3, online: false }
    );
    assert_eq!(handle_home_view_key(&s, Key::Char('S'), true, HomeHotkey::Other), HomeKeyAction::StopProject(3));
    s.sidebar_index = 1;
    assert_eq!(handle_home_view_key(&s, Key::Char('b'), false, HomeHotkey::Other), HomeKeyAction::ProjectAlreadyOnline);
    s.sidebar_index = 9;
    assert_eq!(handle_home_view_key(&s, Key::Char('s'), false, HomeHotkey::Other), HomeKeyAction::Nothing);
}

#[test]
fn row_actions() {
    let inbox = home(HomeTab::Inbox);
    assert_eq!(handle_home_view_key(&inbox, Key::Char('r'), false, HomeHotkey::Other), HomeKeyAction::MarkInboxRead(1));
    assert_eq!(handle_home_view_key(&inbox, Key::Enter, false, HomeHotkey::Other), HomeKeyAction::OpenSelected(HomeTab::Inbox, 1));
    let conv = home(HomeTab::Conversations);
    assert_eq!(handle_home_view_key(&conv, Key::Char(' '), false, HomeHotkey::Other), HomeKeyAction::ToggleThreadCollapse(1));
    assert_eq!(handle_home_view_key(&conv, Key::Char('c'), false, HomeHotkey::Other), HomeKeyAction::ToggleCollapseAll);
    assert_eq!(handle_home_view_key(&conv, Key::Char('a'), false, HomeHotkey::Other), HomeKeyAction::ToggleArchived(1));
    let mut multi = conv;
    multi.has_multi_selection = true;
    assert_eq!(handle_home_view_key(&multi, Key::Char('a'), false, HomeHotkey::Other), HomeKeyAction::ArchiveMultiSelected);
    let reports = home(HomeTab::Reports);
    assert_eq!(handle_home_view_key(&reports, Key::Char('a'), false, HomeHotkey::Other), HomeKeyAction::Nothing);
    let mut filtered = reports;
    filtered.report_filter_empty = false;
    assert_eq!(handle_home_view_key(&filtered, Key::Esc, false, HomeHotkey::Other), HomeKeyAction::ClearReportFilter);
}

#[test]
fn stats_subtabs_and_digits() {
    let stats = home(HomeTab::Stats);
    assert_eq!(handle_home_view_key(&stats, Key::Char('h'), false, HomeHotkey::Other), HomeKeyAction::PrevStatsSubtab);
    assert_eq!(handle_home_view_key(&stats, Key::Left, false, HomeHotkey::Other), HomeKeyAction::PrevStatsSubtab);
    assert_eq!(handle_home_view_key(&stats, Key::Enter, false, HomeHotkey::Other), HomeKeyAction::Nothing);
    assert_eq!(handle_home_view_key(&stats, Key::Char('3'), false, HomeHotkey::Other), HomeKeyAction::SwitchToTab(1));
    assert_eq!(handle_home_view_key(&stats, Key::Char('4'), false, HomeHotkey::Other), HomeKeyAction::Nothing);
    assert_eq!(handle_home_view_key(&stats, Key::Char('1'), false, HomeHotkey::Other), HomeKeyAction::Nothing);
}

#[test]
fn thread_at_each_tab() {
    let rows = HomeRows {
        conversations: vec!["c0".to_string(), "c1".to_string()],
        inbox: vec![None, Some("i1".to_string())],
        feed: vec!["f0".to_string()],
        active_work: vec![(None, Some("e0".to_string())), (Some("o1".to_string()), Some("e1".to_string())), (None, None)],
    };
    assert_eq!(thread_id_at_index(&rows, HomeTab::Conversations, 1), Some("c1".to_string()));
    assert_eq!(thread_id_at_index(&rows, HomeTab::Conversations, 2), None);
    assert_eq!(thread_id_at_index(&rows, HomeTab::Inbox, 0), None);
    assert_eq!(thread_id_at_index(&rows, HomeTab::Inbox, 1), Some("i1".to_string()));
    assert_eq!(thread_id_at_index(&rows, HomeTab::Feed, 0), Some("f0".to_string()));
    assert_eq!(thread_id_at_index(&rows, HomeTab::ActiveWork, 0), Some("e0".to_string()));
    assert_eq!(thread_id_at_index(&rows, HomeTab::ActiveWork, 1), Some("o1".to_string()));
    assert_eq!(thread_id_at_index(&rows, HomeTab::ActiveWork, 2), None);
    assert_eq!(thread_id_at_index(&rows, HomeTab::Reports, 0), None);
}

fn chat(sidebar_focused: bool, sidebar_has_items: bool) -> ChatNormalState {
    ChatNormalState { sidebar_focused, sidebar_has_items, open_tabs: 3 }
}

#[test]
fn chat_sidebar_focus_keys() {
    let s = chat(true, true);
    assert_eq!(handle_chat_normal_mode(&s, Key::Char('h'), false, ChatHotkey::Other), ChatNormalAction::UnfocusSidebar);
    assert_eq!(handle_chat_normal_mode(&s, Key::Char('j'), false, ChatHotkey::Other), ChatNormalAction::SidebarDown);
    assert_eq!(handle_chat_normal_mode(&s, Key::Enter, false, ChatHotkey::CloseTab), ChatNormalAction::ActivateSidebarItem);
    assert_eq!(handle_chat_normal_mode(&s, Key::Char('x'), false, ChatHotkey::CloseTab), ChatNormalAction::CloseTab);
}

#[test]
fn chat_tabs_and_sidebar() {
    let plain = chat(false, false);
    assert_eq!(handle_chat_normal_mode(&plain, Key::Tab, false, ChatHotkey::Other), ChatNormalAction::NextTab);
    assert_eq!(handle_chat_normal_mode(&plain, Key::Tab, true, ChatHotkey::Other), ChatNormalAction::PrevTab);
    assert_eq!(handle_chat_normal_mode(&plain, Key::Char('4'), false, ChatHotkey::Other), ChatNormalAction::SwitchToTab(2));
    assert_eq!(handle_chat_normal_mode(&plain, Key::Char('9'), false, ChatHotkey::Other), ChatNormalAction::Consumed);
    assert_eq!(handle_chat_normal_mode(&plain, Key::Char('l'), false, ChatHotkey::Other), ChatNormalAction::NotHandled);
    let with_items = chat(false, true);
    assert_eq!(handle_chat_normal_mode(&with_items, Key::Tab, false, ChatHotkey::Other), ChatNormalAction::ToggleSidebarFocus);
    assert_eq!(handle_chat_normal_mode(&with_items, Key::Char('l'), false, ChatHotkey::Other), ChatNormalAction::FocusSidebar);
    assert_eq!(handle_chat_normal_mode(&with_items, Key::Char('n'), false, ChatHotkey::NewConversation), ChatNormalAction::NewConversationSameContext);
}

#[test]
fn same_context_status_text() {
    assert_eq!(same_context_status(), "New conversation (same project, agent, and branch)");
}
