use tenex_tui::messages::{
    chat_enter_action, filter_display_messages, fork_message_id, get_message_id, has_replies,
    message_is_shown, ChatEnterAction, DisplayItem, MessageInfo,
};

fn msg(id: &str, reply_to: Option<&str>) -> MessageInfo {
    MessageInfo { id: id.to_string(), reply_to: reply_to.map(|s| s.to_string()) }
}

fn sample() -> Vec<MessageInfo> {
    vec![
        msg("root", None),
        msg("a", Some("root")),
        msg("b", Some("a")),
        msg("c", None),
        msg("d", Some("a")),
    ]
}

#[test]
fn main_thread_shows_root_top_level_and_direct_replies() {
    let ms = sample();
    assert_eq!(filter_display_messages(&ms, Some("root"), None), vec![0, 1, 3]);
    assert_eq!(filter_display_messages(&ms, None, None), vec![0, 3]);
}

#[test]
fn subthread_shows_replies_to_its_root() {
    let ms = sample();
    assert_eq!(filter_display_messages(&ms, Some("root"), Some("a")), vec![2, 4]);
    assert!(!message_is_shown(&ms[0], Some("root"), Some("a")));
}

#[test]
fn replies_exist_only_for_non_root_messages() {
    let ms = sample();
    assert!(has_replies(&ms, "a", Some("root")));
    assert!(!has_replies(&ms, "root", Some("root")));
    assert!(has_replies(&ms, "root", None));
    assert!(!has_replies(&ms, "c", Some("root")));
}

#[test]
fn message_ids_and_fork_choices() {
    let single = DisplayItem::SingleMessage { message_id: "m1".to_string() };
    let preview = DisplayItem::DelegationPreview { thread_id: "t2".to_string() };
    assert_eq!(get_message_id(&single).as_deref(), Some("m1"));
    assert_eq!(get_message_id(&preview), None);
    assert_eq!(fork_message_id(Some(&single)).unwrap(), "m1");
    assert_eq!(fork_message_id(Some(&preview)).unwrap_err(), "Cannot fork from delegation preview");
    assert_eq!(fork_message_id(None).unwrap_err(), "No message selected");
}

#[test]
fn enter_on_rows() {
    let ms = sample();
    let a = DisplayItem::SingleMessage { message_id: "a".to_string() };
    let c = DisplayItem::SingleMessage { message_id: "c".to_string() };
    let preview = DisplayItem::DelegationPreview { thread_id: "t2".to_string() };
    assert!(matches!(chat_enter_action(&ms, Some("root"), Some(&a)), ChatEnterAction::EnterSubthread { ref message_id } if message_id == "a"));
    assert!(matches!(chat_enter_action(&ms, Some("root"), Some(&c)), ChatEnterAction::Nothing));
    assert!(matches!(chat_enter_action(&ms, Some("root"), Some(&preview)), ChatEnterAction::PushDelegation { ref thread_id } if thread_id == "t2"));
    assert!(matches!(chat_enter_action(&ms, Some("root"), None), ChatEnterAction::Nothing));
}
