use tenex_tui::home::{
    clamp_selection, collapse_all_status, conversation_archive_status, home_list_step,
    next_home_tab, prev_home_tab, report_search_key, sidebar_step, ListStep, ReportSearchStep,
};
use tenex_tui::keys::Key;
use tenex_tui::view_state::HomeTab;

#[test]
fn home_tabs_cycle() {
    let all = [
        HomeTab::Conversations,
        HomeTab::Inbox,
        HomeTab::Reports,
        HomeTab::Feed,
        HomeTab::ActiveWork,
        HomeTab::Stats,
    ];
    for (i, t) in all.iter().enumerate() {
        assert_eq!(next_home_tab(*t), all[(i + 1) % 6]);
        assert_eq!(prev_home_tab(next_home_tab(*t)), *t);
    }
}

#[test]
fn list_moves() {
    assert_eq!(
        home_list_step(0, 3, true, false),
        ListStep { clear_multi_selection: true, mark_before: None, new_selection: Some(1), mark_after: None }
    );
    assert_eq!(
        home_list_step(1, 3, false, true),
        ListStep { clear_multi_selection: false, mark_before: Some(1), new_selection: Some(0), mark_after: Some(0) }
    );
    assert_eq!(home_list_step(2, 3, true, true).new_selection, None);
    assert_eq!(home_list_step(2, 3, true, true).mark_before, Some(2));
    assert_eq!(home_list_step(0, 0, true, false).new_selection, None);
}

#[test]
fn sidebar_and_clamp() {
    assert_eq!(sidebar_step(0, 3, false), 0);
    assert_eq!(sidebar_step(0, 3, true), 1);
    assert_eq!(sidebar_step(2, 3, true), 2);
    assert_eq!(sidebar_step(0, 0, true), 0);
    assert_eq!(clamp_selection(5, 3), Some(2));
    assert_eq!(clamp_selection(2, 3), None);
    assert_eq!(clamp_selection(1, 0), Some(0));
}

#[test]
fn report_search_typing() {
    let mut filter = String::from("ab");
    assert_eq!(report_search_key(&mut filter, Key::Char('c')), ReportSearchStep::Edited);
    assert_eq!(filter, "abc");
    assert_eq!(report_search_key(&mut filter, Key::Backspace), ReportSearchStep::Edited);
    assert_eq!(filter, "ab");
    assert_eq!(report_search_key(&mut filter, Key::Enter), ReportSearchStep::Leave);
    assert_eq!(report_search_key(&mut filter, Key::Tab), ReportSearchStep::Ignore);
    let mut empty = String::new();
    assert_eq!(report_search_key(&mut empty, Key::Backspace), ReportSearchStep::Edited);
    assert_eq!(empty, "");
}

#[test]
fn statuses() {
    assert_eq!(collapse_all_status(true), "All threads collapsed");
    assert_eq!(collapse_all_status(false), "All threads expanded");
    assert_eq!(conversation_archive_status(true), "Archived conversation");
    assert_eq!(conversation_archive_status(false), "Unarchived conversation");
}
