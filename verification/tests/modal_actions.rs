use tenex_tui::keys::Key;
use tenex_tui::modal_actions::{
    archive_notice, boot_sent_status, handle_chat_actions_modal_key,
    handle_conversation_actions_modal_key, handle_project_actions_modal_key,
    new_conversation_project_name, parent_navigation_status, ActionModalStep, ChatAction,
    ConversationAction, ProjectAction, copy_status, export_status, handle_message_actions_modal_key,
    handle_view_raw_event_modal_key, stop_request, stop_sent_status, thread_jsonl, ClipboardOutcome,
    content_copy_status, short_id_copy_status, parent_not_found_status,
    MessageAction, RawEventStep,
};

#[test]
fn list_keys_move_and_close() {
    assert_eq!(handle_project_actions_modal_key(Key::Esc, 0, 3, true), ActionModalStep::Close);
    assert_eq!(handle_project_actions_modal_key(Key::Up, 0, 3, true), ActionModalStep::Ignore);
    assert_eq!(handle_project_actions_modal_key(Key::Char('k'), 2, 3, true), ActionModalStep::MoveTo(1));
    assert_eq!(handle_project_actions_modal_key(Key::Down, 1, 3, true), ActionModalStep::MoveTo(2));
    assert_eq!(handle_project_actions_modal_key(Key::Char('j'), 2, 3, true), ActionModalStep::Ignore);
    assert_eq!(handle_project_actions_modal_key(Key::Enter, 1, 3, true), ActionModalStep::RunSelected);
}

#[test]
fn project_shortcuts_depend_on_online_state() {
    assert_eq!(handle_project_actions_modal_key(Key::Char('n'), 0, 3, true), ActionModalStep::Run(ProjectAction::NewConversation));
    assert_eq!(handle_project_actions_modal_key(Key::Char('n'), 0, 3, false), ActionModalStep::Ignore);
    assert_eq!(handle_project_actions_modal_key(Key::Char('b'), 0, 3, false), ActionModalStep::Run(ProjectAction::Boot));
    assert_eq!(handle_project_actions_modal_key(Key::Char('b'), 0, 3, true), ActionModalStep::Ignore);
    assert_eq!(handle_project_actions_modal_key(Key::Char('s'), 0, 3, true), ActionModalStep::Run(ProjectAction::Settings));
    assert_eq!(handle_project_actions_modal_key(Key::Char('a'), 0, 3, false), ActionModalStep::Run(ProjectAction::ToggleArchive));
}

#[test]
fn conversation_and_chat_shortcuts() {
    assert_eq!(handle_conversation_actions_modal_key(Key::Char('o'), 0, 3), ActionModalStep::Run(ConversationAction::Open));
    assert_eq!(handle_conversation_actions_modal_key(Key::Char('e'), 0, 3), ActionModalStep::Run(ConversationAction::ExportJsonl));
    assert_eq!(handle_conversation_actions_modal_key(Key::Char('a'), 0, 3), ActionModalStep::Run(ConversationAction::ToggleArchive));
    assert_eq!(handle_chat_actions_modal_key(Key::Char('p'), 0, 3, false), ActionModalStep::Ignore);
    assert_eq!(handle_chat_actions_modal_key(Key::Char('p'), 0, 3, true), ActionModalStep::Run(ChatAction::GoToParent));
    assert_eq!(handle_chat_actions_modal_key(Key::Char('n'), 0, 3, false), ActionModalStep::Run(ChatAction::NewConversation));
}

#[test]
fn action_statuses() {
    assert_eq!(archive_notice("P", true), "Archived: P");
    assert_eq!(archive_notice("P", false), "Unarchived: P");
    assert_eq!(boot_sent_status("P"), "Boot request sent for P");
    assert_eq!(parent_navigation_status(Some("T")), "Navigated to parent: T");
    assert_eq!(parent_navigation_status(None), "Parent conversation not found");
    assert_eq!(new_conversation_project_name(None), "New");
}

#[test]
fn message_actions_and_raw_event_viewer() {
    assert_eq!(handle_message_actions_modal_key(Key::Down, 2, false), ActionModalStep::Ignore);
    assert_eq!(handle_message_actions_modal_key(Key::Down, 2, true), ActionModalStep::MoveTo(3));
    assert_eq!(handle_message_actions_modal_key(Key::Char('t'), 0, false), ActionModalStep::Ignore);
    assert_eq!(
        handle_message_actions_modal_key(Key::Char('t'), 0, true),
        ActionModalStep::Run(MessageAction::OpenTrace)
    );
    assert_eq!(
        handle_message_actions_modal_key(Key::Char('s'), 0, false),
        ActionModalStep::Run(MessageAction::SendAgain)
    );
    assert_eq!(handle_view_raw_event_modal_key(Key::PageDown, 5), RawEventStep::ScrollTo(25));
    assert_eq!(handle_view_raw_event_modal_key(Key::PageUp, 5), RawEventStep::ScrollTo(0));
    assert_eq!(handle_view_raw_event_modal_key(Key::Char('k'), 0), RawEventStep::ScrollTo(0));
    assert_eq!(handle_view_raw_event_modal_key(Key::Char('y'), 0), RawEventStep::Copy);
    assert_eq!(copy_status(ClipboardOutcome::Copied), "Raw event copied to clipboard");
}

#[test]
fn thread_export_as_jsonl() {
    let messages = vec![
        ("root".to_string(), Some("{\"id\":\"root\"}".to_string())),
        ("m1".to_string(), Some("{\"id\":\"m1\"}".to_string())),
        ("m2".to_string(), None),
        ("m3".to_string(), Some("{\"id\":\"m3\"}".to_string())),
    ];
    let (text, n) = thread_jsonl("root", Some("{\"id\":\"root\"}".to_string()), &messages);
    assert_eq!(n, 3);
    assert_eq!(text, "{\"id\":\"root\"}\n{\"id\":\"m1\"}\n{\"id\":\"m3\"}");
    let (text, n) = thread_jsonl("root", None, &messages);
    assert_eq!((text.as_str(), n), ("{\"id\":\"m1\"}\n{\"id\":\"m3\"}", 2));
    assert_eq!(export_status(4, 3, ClipboardOutcome::Copied), "Exported 3 events to clipboard as JSONL");
    assert_eq!(export_status(0, 0, ClipboardOutcome::Copied), "No messages to export");
    assert_eq!(export_status(4, 3, ClipboardOutcome::Unavailable), "Failed to access clipboard");
}

#[test]
fn stop_only_busy_conversations_of_known_projects() {
    let t = || Some("thread".to_string());
    let p = || Some("31933:pk:proj".to_string());
    assert_eq!(stop_request(t(), true, p()), Some(("31933:pk:proj".to_string(), "thread".to_string())));
    assert_eq!(stop_request(t(), false, p()), None);
    assert_eq!(stop_request(t(), true, None), None);
    assert_eq!(stop_request(None, true, p()), None);
    assert_eq!(stop_sent_status(None), "Stop command sent");
    assert_eq!(stop_sent_status(Some("gone")), "Failed to stop: gone");
}

#[test]
fn copy_statuses() {
    assert_eq!(short_id_copy_status(None, Ok(true)), "No conversation selected");
    assert_eq!(short_id_copy_status(Some("abc123"), Ok(true)), "Copied short ID: abc123");
    assert_eq!(short_id_copy_status(Some("abc123"), Ok(false)), "Failed to copy to clipboard");
    assert_eq!(short_id_copy_status(Some("abc123"), Err("no display")), "Clipboard error: no display");
    assert_eq!(content_copy_status(None), "Content copied to clipboard");
    assert_eq!(content_copy_status(Some("denied")), "Failed to copy: denied");
}

#[test]
fn missing_parent_names_its_id_head() {
    assert_eq!(parent_not_found_status("0123456789abcdef"), "Parent conversation not found: 01234567");
    assert_eq!(parent_not_found_status("abcdefgh"), "Parent conversation not found: abcdefgh");
}
