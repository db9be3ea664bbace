use tenex_tui::keys::Key;
use tenex_tui::report_viewer::{
    copy_text_for, handle_report_viewer_modal_key, report_copy_text, ReportCopyOption, ReportViewMode,
    ReportViewerAction, ReportViewerFocus, ReportViewerState,
};

fn st() -> ReportViewerState {
    ReportViewerState {
        view_mode: ReportViewMode::Current,
        focus: ReportViewerFocus::Content,
        show_threads: false,
        show_copy_menu: false,
        copy_menu_index: 1,
        version_index: 0,
        content_scroll: 5,
        selected_thread_index: 0,
    }
}

#[test]
fn versions_and_scrolling() {
    let mut s = st();
    assert_eq!(handle_report_viewer_modal_key(&mut s, Key::Char('['), 3), ReportViewerAction::LoadVersion(1));
    assert_eq!(s.content_scroll, 0);
    handle_report_viewer_modal_key(&mut s, Key::Char('['), 3);
    assert_eq!(handle_report_viewer_modal_key(&mut s, Key::Char('['), 3), ReportViewerAction::Ignore);
    assert_eq!(s.version_index, 2);
    assert_eq!(handle_report_viewer_modal_key(&mut s, Key::Char(']'), 3), ReportViewerAction::LoadVersion(1));
    handle_report_viewer_modal_key(&mut s, Key::Down, 3);
    handle_report_viewer_modal_key(&mut s, Key::Char('j'), 3);
    handle_report_viewer_modal_key(&mut s, Key::Up, 3);
    assert_eq!(s.content_scroll, 1);
    handle_report_viewer_modal_key(&mut s, Key::Tab, 3);
    assert_eq!(s.view_mode, ReportViewMode::Changes);
}

#[test]
fn threads_pane_and_copy_menu() {
    let mut s = st();
    handle_report_viewer_modal_key(&mut s, Key::Char('l'), 1);
    assert_eq!(s.focus, ReportViewerFocus::Content);
    handle_report_viewer_modal_key(&mut s, Key::Char('t'), 1);
    handle_report_viewer_modal_key(&mut s, Key::Right, 1);
    assert_eq!(s.focus, ReportViewerFocus::Threads);
    handle_report_viewer_modal_key(&mut s, Key::Down, 1);
    assert_eq!(handle_report_viewer_modal_key(&mut s, Key::Enter, 1), ReportViewerAction::OpenThread(1));
    assert_eq!(handle_report_viewer_modal_key(&mut s, Key::Char('n'), 1), ReportViewerAction::ThreadCreationUnavailable);
    handle_report_viewer_modal_key(&mut s, Key::Char('y'), 1);
    assert!(s.show_copy_menu);
    assert_eq!(handle_report_viewer_modal_key(&mut s, Key::Enter, 1), ReportViewerAction::CopyOption(1));
    assert!(!s.show_copy_menu);
    handle_report_viewer_modal_key(&mut s, Key::Char('y'), 1);
    assert_eq!(handle_report_viewer_modal_key(&mut s, Key::Esc, 1), ReportViewerAction::Updated);
    assert_eq!(handle_report_viewer_modal_key(&mut s, Key::Esc, 1), ReportViewerAction::Close);
}

#[test]
fn copy_texts() {
    assert_eq!(copy_text_for(ReportCopyOption::Bech32Id, "ab", Some("note1x".into()), None, ""), "note1x");
    assert_eq!(copy_text_for(ReportCopyOption::Bech32Id, "ab", None, None, ""), "ab");
    assert_eq!(copy_text_for(ReportCopyOption::RawEvent, "ab", None, None, ""), "Failed to get raw event");
    assert_eq!(copy_text_for(ReportCopyOption::RawEvent, "ab", None, Some("{\"a\":1}".into()), ""), "{\n  \"a\": 1\n}");
    assert_eq!(copy_text_for(ReportCopyOption::RawEvent, "ab", None, Some("{oops".into()), ""), "{oops");
    assert_eq!(copy_text_for(ReportCopyOption::Markdown, "ab", None, None, "# R"), "# R");
}

#[test]
fn report_ids_copy_in_bech32_form() {
    let hex = "0".repeat(64);
    let note = report_copy_text(ReportCopyOption::Bech32Id, &hex, None, "");
    assert!(note.starts_with("note1"));
    assert_ne!(note, hex);
    assert_eq!(report_copy_text(ReportCopyOption::Bech32Id, "not-hex", None, ""), "not-hex");
    assert_eq!(report_copy_text(ReportCopyOption::Markdown, &hex, None, "# R"), "# R");
    assert_eq!(report_copy_text(ReportCopyOption::RawEvent, &hex, Some("[1]".into()), ""), "[\n  1\n]");
}
