use tenex_tui::keys::Key;
use tenex_tui::events::{
    approval_to_show, audio_notification_decision, execute_backend_approval_action, find_user_thread,
    handle_backend_approval_modal_key, message_arrival, sync_tab_working_state,
    BackendApprovalKey, AudioDecision, AudioSettings, BackendApprovalAction, TabInfo,
};

fn settings() -> AudioSettings {
    AudioSettings {
        enabled: true,
        inactivity_threshold_secs: 60,
        has_elevenlabs_key: true,
        has_openrouter_key: true,
        voice_count: 2,
        has_openrouter_model: true,
    }
}

#[test]
fn audio_decisions() {
    let s = settings();
    assert_eq!(audio_notification_decision(&s, None, 1000), AudioDecision::Generate);
    assert_eq!(
        audio_notification_decision(&s, Some(990), 1000),
        AudioDecision::UserRecentlyActive { seconds_ago: 10 }
    );
    assert_eq!(audio_notification_decision(&s, Some(940), 1000), AudioDecision::Generate);
    assert_eq!(
        audio_notification_decision(&s, Some(2000), 1000),
        AudioDecision::UserRecentlyActive { seconds_ago: 0 }
    );
    let mut d = s;
    d.enabled = false;
    assert_eq!(audio_notification_decision(&d, Some(999), 1000), AudioDecision::Disabled);
    let mut k = s;
    k.has_elevenlabs_key = false;
    assert_eq!(audio_notification_decision(&k, None, 0), AudioDecision::MissingElevenLabsKey);
    let mut o = s;
    o.has_openrouter_key = false;
    assert_eq!(audio_notification_decision(&o, None, 0), AudioDecision::MissingOpenRouterKey);
    let mut v = s;
    v.voice_count = 0;
    assert_eq!(audio_notification_decision(&v, None, 0), AudioDecision::NoVoices);
    let mut m = s;
    m.has_openrouter_model = false;
    assert_eq!(audio_notification_decision(&m, None, 0), AudioDecision::NoModel);
}

#[test]
fn tab_working_updates() {
    let tabs = vec![
        TabInfo { is_conversation: true, thread_id: "t1".to_string(), working_agent_count: 2 },
        TabInfo { is_conversation: false, thread_id: "t2".to_string(), working_agent_count: 1 },
        TabInfo { is_conversation: true, thread_id: String::new(), working_agent_count: 1 },
        TabInfo { is_conversation: true, thread_id: "t4".to_string(), working_agent_count: 0 },
    ];
    assert_eq!(
        sync_tab_working_state(&tabs),
        vec![("t1".to_string(), true), ("t4".to_string(), false)]
    );
}

#[test]
fn user_thread_is_first_by_user() {
    let authors = vec!["x".to_string(), "me".to_string(), "me".to_string()];
    assert_eq!(find_user_thread(&authors, "me"), Some(1));
    assert_eq!(find_user_thread(&authors, "nobody"), None);
}

#[test]
fn backend_approval_steps() {
    let key = "abcdef0123456789";
    let a = execute_backend_approval_action(BackendApprovalAction::Approve, key);
    assert!(a.close_modal && a.approve && !a.block);
    assert_eq!(a.status.as_deref(), Some("Approved backend abcdef01..."));
    let b = execute_backend_approval_action(BackendApprovalAction::Block, "abc");
    assert!(b.close_modal && b.block && !b.approve);
    assert_eq!(b.status.as_deref(), Some("Blocked backend abc..."));
    let r = execute_backend_approval_action(BackendApprovalAction::Reject, key);
    assert!(r.close_modal && !r.approve && !r.block && r.status.is_none());
}

#[test]
fn message_naming_the_user_waits_for_them() {
    let tags = vec!["other".to_string(), "me".to_string()];
    let a = message_arrival(Some("me"), "agent", &tags, false, false, Some("Plan"));
    assert!(a.waiting_for_user && a.speak && !a.follow && !a.sync_agent);
    assert_eq!(a.notification, Some("@ Message for you in Plan \u{b7} Alt+M to open".to_string()));
    let untitled = message_arrival(Some("me"), "agent", &tags, false, false, None);
    assert_eq!(untitled.notification, Some("@ Message for you in conversation \u{b7} Alt+M to open".to_string()));
}

#[test]
fn own_or_unaddressed_messages_do_not_wait() {
    let tags = vec!["me".to_string()];
    let own = message_arrival(Some("me"), "me", &tags, true, false, Some("Plan"));
    assert!(!own.waiting_for_user && own.notification.is_none() && own.follow && !own.sync_agent);
    let other = message_arrival(Some("me"), "agent", &vec![], true, false, None);
    assert!(!other.waiting_for_user && other.follow && other.sync_agent);
    let chosen = message_arrival(Some("me"), "agent", &tags, true, true, None);
    assert!(chosen.waiting_for_user && chosen.notification.is_none() && !chosen.sync_agent);
    let logged_out = message_arrival(None, "agent", &tags, true, false, None);
    assert!(!logged_out.waiting_for_user && logged_out.sync_agent);
}

#[test]
fn backend_approval_keys() {
    assert_eq!(handle_backend_approval_modal_key(0, Key::Esc), BackendApprovalKey::Dismiss);
    assert_eq!(handle_backend_approval_modal_key(0, Key::Up), BackendApprovalKey::Nothing);
    assert_eq!(handle_backend_approval_modal_key(0, Key::Char('j')), BackendApprovalKey::MoveTo(1));
    assert_eq!(handle_backend_approval_modal_key(2, Key::Down), BackendApprovalKey::Nothing);
    assert_eq!(handle_backend_approval_modal_key(2, Key::Char('k')), BackendApprovalKey::MoveTo(1));
    assert_eq!(handle_backend_approval_modal_key(1, Key::Enter), BackendApprovalKey::ExecuteSelected);
    assert_eq!(
        handle_backend_approval_modal_key(1, Key::Char('b')),
        BackendApprovalKey::Execute(BackendApprovalAction::Block)
    );
    assert_eq!(handle_backend_approval_modal_key(1, Key::Char('x')), BackendApprovalKey::Nothing);
}

#[test]
fn first_waiting_approval_is_shown_when_no_modal_is_open() {
    let pending = vec!["b1".to_string(), "b2".to_string()];
    assert_eq!(approval_to_show(true, pending.clone()), Some("b1".to_string()));
    assert_eq!(approval_to_show(false, pending), None);
    assert_eq!(approval_to_show(true, vec![]), None);
}
