use tenex_tui::fields::count_lines;
use tenex_tui::keys::Key;
use tenex_tui::nudges::{
    after_configured_tool_removed, contains_text, handle_nudge_delete_confirm_key,
    handle_nudge_detail_key, handle_nudge_form_key, handle_nudge_list_key, nudge_deleted_status,
    nudge_published, nudge_request, review_submission, selected_nudge_id, sort_newest_first,
    CursorMove, DeleteConfirmStep, NudgeDetailStep, NudgeFocus, NudgeForm, NudgeFormAction,
    NudgeListStep, NudgeStep, NudgeSummary, PermissionMode, ReviewOutcome, ToolListInfo,
    ToolMode, ToolPermissions,
};

fn form(step: NudgeStep) -> NudgeForm {
    NudgeForm {
        step,
        focus: NudgeFocus::Title,
        title: String::new(),
        description: String::new(),
        hashtag_input: String::new(),
        hashtags: Vec::new(),
        content: String::new(),
        permission_mode: PermissionMode::Browse,
        selecting_configured: false,
        configured_tool_index: 0,
        tool_filter: String::new(),
        tool_index: 0,
        tool_scroll: 0,
        review_scroll: 0,
        permissions: ToolPermissions {
            mode: ToolMode::Additive,
            allow_tools: Vec::new(),
            deny_tools: Vec::new(),
            only_tools: Vec::new(),
        },
    }
}

const INFO: ToolListInfo = ToolListInfo { filtered_tool_count: 3, has_configured_tools: false };

#[test]
fn basics_typing_and_hashtags() {
    let mut f = form(NudgeStep::Basics);
    assert_eq!(handle_nudge_form_key(&mut f, Key::Char('H'), false, INFO), NudgeFormAction::Updated);
    assert_eq!(handle_nudge_form_key(&mut f, Key::Char('i'), false, INFO), NudgeFormAction::Updated);
    assert_eq!(f.title, "Hi");
    assert_eq!(handle_nudge_form_key(&mut f, Key::Enter, false, INFO), NudgeFormAction::NextStepIfReady);
    f.focus = NudgeFocus::Hashtags;
    assert_eq!(handle_nudge_form_key(&mut f, Key::Char(' '), false, INFO), NudgeFormAction::AddHashtag);
    assert_eq!(handle_nudge_form_key(&mut f, Key::Char('x'), false, INFO), NudgeFormAction::Updated);
    assert_eq!(f.hashtag_input, "x");
    f.hashtags = vec!["a".to_string(), "b".to_string()];
    handle_nudge_form_key(&mut f, Key::Backspace, false, INFO);
    assert_eq!(f.hashtag_input, "");
    assert_eq!(f.hashtags.len(), 2);
    handle_nudge_form_key(&mut f, Key::Backspace, false, INFO);
    assert_eq!(f.hashtags, vec!["a".to_string()]);
    assert_eq!(handle_nudge_form_key(&mut f, Key::BackTab, false, INFO), NudgeFormAction::FocusPrev);
    assert_eq!(handle_nudge_form_key(&mut f, Key::Esc, false, INFO), NudgeFormAction::Close);
}

#[test]
fn content_keys() {
    let mut f = form(NudgeStep::Content);
    assert_eq!(handle_nudge_form_key(&mut f, Key::Enter, false, INFO), NudgeFormAction::InsertContentChar('\n'));
    assert_eq!(handle_nudge_form_key(&mut f, Key::Tab, true, INFO), NudgeFormAction::PrevStep);
    assert_eq!(handle_nudge_form_key(&mut f, Key::Tab, false, INFO), NudgeFormAction::NextStepIfReady);
    assert_eq!(
        handle_nudge_form_key(&mut f, Key::Left, false, INFO),
        NudgeFormAction::MoveContentCursor(CursorMove::Left)
    );
}

#[test]
fn permission_modes_and_tool_picker() {
    let mut f = form(NudgeStep::Permissions);
    assert_eq!(handle_nudge_form_key(&mut f, Key::Char('o'), false, INFO), NudgeFormAction::Ignore);
    assert_eq!(handle_nudge_form_key(&mut f, Key::Char('a'), false, INFO), NudgeFormAction::Updated);
    assert_eq!(f.permission_mode, PermissionMode::AddAllow);
    handle_nudge_form_key(&mut f, Key::Char('r'), false, INFO);
    assert_eq!(f.tool_filter, "r");
    handle_nudge_form_key(&mut f, Key::Down, false, INFO);
    handle_nudge_form_key(&mut f, Key::Down, false, INFO);
    handle_nudge_form_key(&mut f, Key::Down, false, INFO);
    assert_eq!(f.tool_index, 2);
    assert_eq!(
        handle_nudge_form_key(&mut f, Key::Enter, false, INFO),
        NudgeFormAction::AddTool { mode: PermissionMode::AddAllow, index: 2 }
    );
    assert_eq!(f.permission_mode, PermissionMode::Browse);
    assert_eq!(f.tool_filter, "");
    assert_eq!(f.tool_index, 0);
    assert_eq!(
        handle_nudge_form_key(&mut f, Key::Char('2'), false, INFO),
        NudgeFormAction::SetToolMode(ToolMode::Exclusive)
    );
    assert_eq!(handle_nudge_form_key(&mut f, Key::Char('x'), false, INFO), NudgeFormAction::Ignore);
    let with_tools = ToolListInfo { filtered_tool_count: 0, has_configured_tools: true };
    handle_nudge_form_key(&mut f, Key::Char('x'), false, with_tools);
    assert!(f.selecting_configured);
    assert_eq!(handle_nudge_form_key(&mut f, Key::Delete, false, with_tools), NudgeFormAction::RemoveConfiguredTool);
    after_configured_tool_removed(&mut f, 0);
    assert!(!f.selecting_configured);
}

#[test]
fn review_keys_and_submission() {
    let mut f = form(NudgeStep::Review);
    handle_nudge_form_key(&mut f, Key::Down, false, INFO);
    handle_nudge_form_key(&mut f, Key::Down, false, INFO);
    handle_nudge_form_key(&mut f, Key::Up, false, INFO);
    assert_eq!(f.review_scroll, 1);
    assert_eq!(handle_nudge_form_key(&mut f, Key::Enter, false, INFO), NudgeFormAction::Submit);
    assert_eq!(
        review_submission(Some("Title is required"), true),
        ReviewOutcome::Blocked("Cannot submit: Title is required".to_string())
    );
    assert_eq!(review_submission(None, true), ReviewOutcome::Publish);
    assert_eq!(review_submission(None, false), ReviewOutcome::Stay);
    assert_eq!(nudge_published("Focus", true, None), "Nudge 'Focus' created");
    assert_eq!(nudge_published("Focus", true, Some("x")), "Failed to create nudge: x");
    assert_eq!(nudge_published("Focus", false, None), "Error: Not connected to backend");
}

#[test]
fn denied_tools_are_not_allowed() {
    let mut f = form(NudgeStep::Review);
    f.title = "T".to_string();
    f.permissions.allow_tools = vec!["read".into(), "write".into(), "shell".into()];
    f.permissions.deny_tools = vec!["write".into()];
    f.permissions.only_tools = vec!["grep".into()];
    let r = nudge_request(&f);
    assert_eq!(r.allow_tools, vec!["read".to_string(), "shell".to_string()]);
    assert_eq!(r.deny_tools, vec!["write".to_string()]);
    assert!(r.only_tools.is_empty());
    f.permissions.mode = ToolMode::Exclusive;
    let r = nudge_request(&f);
    assert!(r.allow_tools.is_empty() && r.deny_tools.is_empty());
    assert_eq!(r.only_tools, vec!["grep".to_string()]);
    assert_eq!(r.title, "T");
}

#[test]
fn list_detail_and_delete_keys() {
    assert_eq!(handle_nudge_list_key(Key::Char('j'), false, 4), NudgeListStep::MoveDown(4));
    assert_eq!(handle_nudge_list_key(Key::Char('n'), false, 4), NudgeListStep::New);
    assert_eq!(handle_nudge_list_key(Key::Char('z'), false, 4), NudgeListStep::AddFilterChar('z'));
    assert_eq!(handle_nudge_list_key(Key::Char('z'), true, 4), NudgeListStep::Ignore);
    assert_eq!(handle_nudge_list_key(Key::Enter, false, 4), NudgeListStep::ViewSelected);
    assert_eq!(handle_nudge_detail_key(Key::Down, Some(25)), NudgeDetailStep::ScrollDown(5));
    assert_eq!(handle_nudge_detail_key(Key::Char('j'), Some(3)), NudgeDetailStep::ScrollDown(0));
    assert_eq!(handle_nudge_detail_key(Key::Down, None), NudgeDetailStep::ScrollDown(0));
    assert_eq!(handle_nudge_detail_key(Key::Char('e'), None), NudgeDetailStep::CopyToNewNudge);
    assert_eq!(handle_nudge_delete_confirm_key(Key::Enter, 0), DeleteConfirmStep::BackToList);
    assert_eq!(handle_nudge_delete_confirm_key(Key::Enter, 1), DeleteConfirmStep::DeleteAndBack);
    assert_eq!(handle_nudge_delete_confirm_key(Key::Char('d'), 0), DeleteConfirmStep::DeleteAndBack);
    assert_eq!(handle_nudge_delete_confirm_key(Key::Down, 0), DeleteConfirmStep::Toggle);
    assert_eq!(nudge_deleted_status(true, None), Some("Nudge deleted".to_string()));
    assert_eq!(nudge_deleted_status(false, None), None);
}

#[test]
fn lines_count_like_str_lines() {
    for s in ["", "a", "a\n", "\n", "a\n\nb", "a\r\nb\r\n", "\n\n"] {
        assert_eq!(count_lines(s), s.lines().count(), "{:?}", s);
    }
    assert!(contains_text("hello world", "o w"));
    assert!(contains_text("abc", ""));
    assert!(!contains_text("abc", "abcd"));
}

fn nudge(id: &str, title: &str, tags: &[&str], created_at: u64) -> NudgeSummary {
    NudgeSummary {
        id: id.to_string(),
        title: title.to_string(),
        description: String::new(),
        content: String::new(),
        hashtags: tags.iter().map(|t| t.to_string()).collect(),
        created_at,
    }
}

#[test]
fn selection_filters_case_insensitively_newest_first() {
    let nudges = vec![
        nudge("a", "Deep Focus", &[], 10),
        nudge("b", "Review", &["FOCUS"], 30),
        nudge("c", "Chill", &[], 20),
        nudge("d", "focus again", &[], 30),
    ];
    assert_eq!(selected_nudge_id(&nudges, "FOCUS", 0), Some("b".to_string()));
    assert_eq!(selected_nudge_id(&nudges, "FOCUS", 1), Some("d".to_string()));
    assert_eq!(selected_nudge_id(&nudges, "FOCUS", 2), Some("a".to_string()));
    assert_eq!(selected_nudge_id(&nudges, "FOCUS", 3), None);
    assert_eq!(selected_nudge_id(&nudges, "", 2), Some("c".to_string()));
    let sorted = sort_newest_first(vec![(1, "x".to_string()), (3, "y".to_string()), (1, "z".to_string())]);
    assert_eq!(sorted, vec![(3, "y".to_string()), (1, "x".to_string()), (1, "z".to_string())]);
}
