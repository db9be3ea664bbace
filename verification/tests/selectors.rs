use tenex_tui::keys::Key;
use tenex_tui::selectors::{
    handle_chat_search_key, handle_draft_navigator_key, handle_history_search_key,
    handle_multi_select_key, handle_search_modal_key, handle_sidebar_search_key,
    handle_tab_modal_key, new_conversation_in_first_project, project_chosen, retargeted_draft_tab,
    row_after_refresh,
    ChatSearchStep, DraftNavigatorStep, HistorySearchStep, MultiSelectAction, MultiSelectState,
    SearchModalAction, SearchModalState, SidebarSearchStep, TabModalStep,
};

#[test]
fn multi_select_toggles_chosen_ids() {
    let ids = vec!["n1".to_string(), "n2".to_string(), "n3".to_string()];
    let mut s = MultiSelectState { filter: String::new(), index: 0, selected_ids: vec!["n2".to_string()] };
    handle_multi_select_key(&mut s, Key::Char(' '), &ids);
    assert_eq!(s.selected_ids, vec!["n2".to_string(), "n1".to_string()]);
    handle_multi_select_key(&mut s, Key::Down, &ids);
    handle_multi_select_key(&mut s, Key::Char(' '), &ids);
    assert_eq!(s.selected_ids, vec!["n1".to_string()]);
    handle_multi_select_key(&mut s, Key::Char(' '), &ids);
    assert_eq!(s.selected_ids, vec!["n1".to_string(), "n2".to_string()]);
    handle_multi_select_key(&mut s, Key::Char('q'), &ids);
    assert_eq!(s.filter, "q");
    assert_eq!(s.index, 0);
    assert_eq!(handle_multi_select_key(&mut s, Key::Enter, &ids), MultiSelectAction::Apply);
    assert_eq!(handle_multi_select_key(&mut s, Key::Esc, &ids), MultiSelectAction::Close);
    let none: Vec<String> = Vec::new();
    handle_multi_select_key(&mut s, Key::Char(' '), &none);
    assert_eq!(s.selected_ids.len(), 2);
}

#[test]
fn tab_switcher() {
    assert_eq!(handle_tab_modal_key(Key::Char('3'), 0, 2), TabModalStep::OpenTab(1));
    assert_eq!(handle_tab_modal_key(Key::Char('4'), 0, 2), TabModalStep::Close);
    assert_eq!(handle_tab_modal_key(Key::Char('1'), 0, 2), TabModalStep::GoHome);
    assert_eq!(handle_tab_modal_key(Key::Char('x'), 1, 2), TabModalStep::CloseTab(1));
    assert_eq!(handle_tab_modal_key(Key::Char('x'), 0, 0), TabModalStep::Ignore);
    assert_eq!(handle_tab_modal_key(Key::Down, 1, 2), TabModalStep::Ignore);
    assert_eq!(handle_tab_modal_key(Key::Down, 0, 2), TabModalStep::MoveTo(1));
    assert_eq!(handle_tab_modal_key(Key::Enter, 1, 2), TabModalStep::OpenTab(1));
}

#[test]
fn drafts_and_searches() {
    assert_eq!(handle_draft_navigator_key(Key::Char('d'), true), DraftNavigatorStep::DeleteSelected);
    assert_eq!(handle_draft_navigator_key(Key::Char('d'), false), DraftNavigatorStep::AddFilterChar('d'));
    assert_eq!(handle_draft_navigator_key(Key::Char('k'), false), DraftNavigatorStep::MoveUp);
    assert_eq!(row_after_refresh(3, 2), 1);
    assert_eq!(row_after_refresh(3, 0), 3);
    let mut s = SearchModalState { showing: true, filter: String::new(), index: 0 };
    handle_search_modal_key(&mut s, Key::Char('a'), 3);
    handle_search_modal_key(&mut s, Key::Down, 3);
    assert_eq!((s.filter.as_str(), s.index), ("a", 1));
    assert_eq!(handle_search_modal_key(&mut s, Key::Enter, 3), SearchModalAction::OpenResult(1));
    assert!(!s.showing);
    assert_eq!(s.filter, "");
    let mut q = "ab".to_string();
    assert_eq!(handle_chat_search_key(&mut q, Key::Backspace), ChatSearchStep::Requery);
    assert_eq!(q, "a");
    assert_eq!(handle_chat_search_key(&mut q, Key::Down), ChatSearchStep::Next);
    assert_eq!(handle_history_search_key(Key::Char('r'), true, true), HistorySearchStep::Ignore);
    assert_eq!(handle_history_search_key(Key::Char('k'), true, true), HistorySearchStep::MoveUp);
    assert_eq!(handle_history_search_key(Key::Char('k'), false, false), HistorySearchStep::AddChar('k'));
    assert_eq!(handle_sidebar_search_key(Key::Esc, false, true, false), SidebarSearchStep::Close);
    assert_eq!(handle_sidebar_search_key(Key::Esc, false, false, false), SidebarSearchStep::ClearQuery);
    assert_eq!(handle_sidebar_search_key(Key::Char('t'), true, false, false), SidebarSearchStep::OpenCommandPalette);
    assert_eq!(handle_sidebar_search_key(Key::Down, false, false, true), SidebarSearchStep::MoveDown { reports: true });
}

#[test]
fn choosing_a_project() {
    let (id, title) = retargeted_draft_tab("31933:pk:proj", Some("Proj"));
    assert_eq!(id, "31933:pk:proj:new");
    assert_eq!(title, "New: Proj");
    assert_eq!(retargeted_draft_tab("a", None).1, "New: New");
    let pm = || Some("pm".to_string());
    let c = project_chosen(true, true, true, true, pm());
    assert_eq!(c.agent, pm());
    assert_eq!(c.branch, None);
    assert!(c.open_draft_tab && !c.retarget_draft_tab && !c.show_only_project);
    let c = project_chosen(false, true, true, true, pm());
    assert_eq!(c.agent, None);
    assert!(!c.open_draft_tab && c.retarget_draft_tab && c.show_only_project);
    let thread_tab = project_chosen(false, false, true, false, pm());
    assert_eq!(thread_tab.agent, pm());
    assert!(!thread_tab.retarget_draft_tab && thread_tab.show_only_project);
    assert!(!project_chosen(false, true, false, true, None).retarget_draft_tab);
}

#[test]
fn new_conversation_needs_a_project() {
    assert_eq!(
        new_conversation_in_first_project(None, false).err(),
        Some("No project available for new conversation")
    );
    let c = new_conversation_in_first_project(Some((Some("pm".to_string()), Some("dev".to_string()))), true).ok().unwrap();
    assert_eq!(c.agent, Some("pm".to_string()));
    assert_eq!(c.branch, None);
    assert!(c.open_draft_tab);
}
