use tenex_tui::conversation::{
    approx_token_count, contextual_draft_blocker, fork_context_message, fork_status,
    reference_context_message, reference_status, send_message_plan, short_id, thread_title,
    SendPlan,
};

#[test]
fn short_ids_take_twelve_chars() {
    assert_eq!(short_id("0123456789abcdef"), "0123456789ab");
    assert_eq!(short_id("abc"), "abc");
}

#[test]
fn token_estimate_is_bytes_over_four() {
    assert_eq!(approx_token_count(&vec!["abcd", "efg", "\u{e9}"]), 2);
    assert_eq!(approx_token_count(&vec![]), 0);
}

#[test]
fn reference_texts() {
    let m = reference_context_message(Some("0123456789abcdef"), 1234);
    assert_eq!(
        m,
        "This message is in the context of conversation id 0123456789ab. Your first task is to inspect that conversation with conversation_get to understand the context we're working from. The conversation is approximately 1234 tokens."
    );
    let m = reference_context_message(None, 0);
    assert!(m.contains("conversation id unknown."));
    assert!(m.ends_with("approximately 0 tokens."));
    assert_eq!(
        reference_status("0123456789abcdef", 42),
        "New conversation referencing 01234567 (~42 tokens)"
    );
    assert_eq!(reference_status("abc", 7), "New conversation referencing abc (~7 tokens)");
}

#[test]
fn fork_texts() {
    let m = fork_context_message(Some("aaaaaaaaaaaaXYZ"), "bbbbbbbbbbbbXYZ");
    assert_eq!(
        m,
        "This conversation is forked from conversation id aaaaaaaaaaaa starting at message id bbbbbbbbbbbb. Your first task is to inspect that conversation slice with conversation_get(conversationId: \"aaaaaaaaaaaa\", sinceId: \"bbbbbbbbbbbb\") to understand the context we're working from."
    );
    assert!(fork_context_message(None, "m").starts_with("This conversation is forked from conversation id  starting"));
    assert_eq!(
        fork_status("0123456789", "abcdefghij"),
        "New conversation forked from 01234567 at message abcdefgh"
    );
}

#[test]
fn draft_blockers() {
    assert_eq!(contextual_draft_blocker(false, false, "No conversation to fork").as_deref(), Some("No conversation to fork"));
    assert_eq!(contextual_draft_blocker(true, false, "x").as_deref(), Some("No project selected"));
    assert_eq!(contextual_draft_blocker(true, true, "x"), None);
}

#[test]
fn thread_titles_are_first_lines() {
    assert_eq!(thread_title("Hello\nworld"), "Hello");
    assert_eq!(thread_title("Hello\r\nworld"), "Hello");
    assert_eq!(thread_title("single"), "single");
    assert_eq!(thread_title("\nsecond"), "");
    assert_eq!(thread_title("trailing\r"), "trailing\r");
    assert_eq!(thread_title("a\rb\nc"), "a\rb");
}

#[test]
fn send_plans() {
    assert!(matches!(send_message_plan("", Some("t"), None), SendPlan::Nothing));
    match send_message_plan("hi", Some("t"), None) {
        SendPlan::Reply { reply_to } => assert_eq!(reply_to, "t"),
        _ => panic!(),
    }
    match send_message_plan("hi", Some("t"), Some("root")) {
        SendPlan::Reply { reply_to } => assert_eq!(reply_to, "root"),
        _ => panic!(),
    }
    match send_message_plan("Title line\nbody", None, Some("root")) {
        SendPlan::NewThread { title } => assert_eq!(title, "Title line"),
        _ => panic!(),
    }
}
