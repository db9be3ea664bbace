use tenex_tui::debug_stats::{
    handle_debug_stats_modal_key, needs_filter_refresh, paste_hex, query_finished,
    DebugStatsAction, DebugStatsState, DebugStatsTab,
};
use tenex_tui::keys::Key;

fn state(tab: DebugStatsTab) -> DebugStatsState {
    DebugStatsState {
        active_tab: tab,
        e_tag_query_input: String::new(),
        e_tag_result_count: 0,
        e_tag_selected_index: 0,
        e_tag_input_focused: false,
        sub_sidebar_focused: false,
        sub_selected_filter_index: 0,
        sub_filter_count: 3,
        scroll_offset: 0,
    }
}

#[test]
fn query_field_takes_lowercase_hex_up_to_64() {
    let mut s = state(DebugStatsTab::ETagQuery);
    for c in "aB9z".chars() {
        handle_debug_stats_modal_key(&mut s, Key::Char(c), false, false);
    }
    assert_eq!(s.e_tag_query_input, "ab9");
    handle_debug_stats_modal_key(&mut s, Key::Backspace, false, false);
    assert_eq!(s.e_tag_query_input, "ab");
    assert_eq!(handle_debug_stats_modal_key(&mut s, Key::Enter, false, false), DebugStatsAction::RunQuery);
    query_finished(&mut s, 2);
    assert_eq!(handle_debug_stats_modal_key(&mut s, Key::Down, false, false), DebugStatsAction::Updated);
    handle_debug_stats_modal_key(&mut s, Key::Down, false, false);
    assert_eq!(s.e_tag_selected_index, 1);
    assert_eq!(
        handle_debug_stats_modal_key(&mut s, Key::Char('v'), true, false),
        DebugStatsAction::PasteFromClipboard
    );
    paste_hex(&mut s, "xx CAFE-babe\n");
    assert_eq!(s.e_tag_query_input, "abcafebabe");
    paste_hex(&mut s, &"F".repeat(100));
    assert_eq!(s.e_tag_query_input.len(), 64);
    assert!(s.e_tag_query_input.ends_with("ff"));
    handle_debug_stats_modal_key(&mut s, Key::Char('1'), false, false);
    assert_eq!(s.e_tag_query_input.len(), 64);
    assert_eq!(handle_debug_stats_modal_key(&mut s, Key::Esc, false, false), DebugStatsAction::Updated);
    assert_eq!(s.e_tag_query_input, "");
    assert_eq!(s.e_tag_result_count, 0);
    assert_eq!(handle_debug_stats_modal_key(&mut s, Key::Esc, false, false), DebugStatsAction::Close);
    s.e_tag_query_input = "ab".to_string();
    handle_debug_stats_modal_key(&mut s, Key::Char('a'), true, false);
    assert_eq!(s.e_tag_query_input, "");
    assert_eq!(
        handle_debug_stats_modal_key(&mut s, Key::Tab, false, true),
        DebugStatsAction::ChangeTab { forward: false }
    );
}

#[test]
fn other_tabs_navigate() {
    let mut s = state(DebugStatsTab::Subscriptions);
    assert_eq!(handle_debug_stats_modal_key(&mut s, Key::Left, false, false), DebugStatsAction::Updated);
    assert!(s.sub_sidebar_focused);
    handle_debug_stats_modal_key(&mut s, Key::Char('j'), false, false);
    handle_debug_stats_modal_key(&mut s, Key::Down, false, false);
    handle_debug_stats_modal_key(&mut s, Key::Down, false, false);
    assert_eq!(s.sub_selected_filter_index, 2);
    assert_eq!(handle_debug_stats_modal_key(&mut s, Key::Enter, false, false), DebugStatsAction::Updated);
    assert!(!s.sub_sidebar_focused);
    assert_eq!(
        handle_debug_stats_modal_key(&mut s, Key::Char('l'), false, false),
        DebugStatsAction::ChangeTab { forward: true }
    );
    let mut e = state(DebugStatsTab::Events);
    handle_debug_stats_modal_key(&mut e, Key::PageDown, false, false);
    handle_debug_stats_modal_key(&mut e, Key::Up, false, false);
    assert_eq!(e.scroll_offset, 9);
    handle_debug_stats_modal_key(&mut e, Key::PageUp, false, false);
    assert_eq!(e.scroll_offset, 0);
    assert_eq!(
        handle_debug_stats_modal_key(&mut e, Key::Char('4'), false, false),
        DebugStatsAction::SwitchTab(DebugStatsTab::ETagQuery)
    );
    assert_eq!(handle_debug_stats_modal_key(&mut e, Key::Char('D'), false, false), DebugStatsAction::Close);
    assert!(needs_filter_refresh(DebugStatsTab::Subscriptions));
    assert!(!needs_filter_refresh(DebugStatsTab::Events));
}

#[test]
fn backspace_undoes_a_typed_digit() {
    let mut s = state(DebugStatsTab::ETagQuery);
    s.e_tag_query_input = "abc".to_string();
    handle_debug_stats_modal_key(&mut s, Key::Char('F'), false, false);
    assert_eq!(s.e_tag_query_input, "abcf");
    handle_debug_stats_modal_key(&mut s, Key::Backspace, false, false);
    assert_eq!(s.e_tag_query_input, "abc");
}
