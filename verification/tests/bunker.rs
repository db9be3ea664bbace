use std::collections::VecDeque;
use tenex_tui::bunker::{
    audit_refreshed_status, audit_scroll, handle_bunker_approval_modal_key, handle_bunker_audit_modal_key,
    handle_bunker_rules_modal_key, pop_next_bunker_request_id, row_after_removal, rule_removed_status,
    BunkerApprovalAction, BunkerApprovalState, BunkerApprovalStep, BunkerAuditStep,
    BunkerRulesStep, BunkerSignRequest,
};
use tenex_tui::keys::Key;

#[test]
fn approval_action_resolution_from_selection() {
    let request = BunkerSignRequest {
        request_id: "req-1".to_string(),
        requester_pubkey: "pubkey-1".to_string(),
        event_kind: Some(1),
        event_json: None,
        event_content: None,
        event_tags_json: None,
    };
    let mut state = BunkerApprovalState::new(request);
    assert_eq!(state.selected_action(), BunkerApprovalAction::Approve);

    state.move_down();
    assert_eq!(state.selected_action(), BunkerApprovalAction::Reject);

    state.toggle_always_approve();
    assert!(state.always_approve);
}

#[test]
fn queue_progression_pops_in_order_and_clears_ids() {
    let mut queue = VecDeque::new();
    let mut ids: Vec<String> = Vec::new();

    for idx in 1..=2 {
        let request_id = format!("req-{}", idx);
        ids.push(request_id.clone());
        queue.push_back(BunkerSignRequest {
            request_id,
            requester_pubkey: "pubkey".to_string(),
            event_kind: Some(1),
            event_json: None,
            event_content: None,
            event_tags_json: None,
        });
    }

    let first = pop_next_bunker_request_id(&mut queue, &mut ids);
    assert_eq!(first.as_deref(), Some("req-1"));
    assert!(!ids.iter().any(|id| id == "req-1"));

    let second = pop_next_bunker_request_id(&mut queue, &mut ids);
    assert_eq!(second.as_deref(), Some("req-2"));
    assert!(!ids.iter().any(|id| id == "req-2"));
    assert!(queue.is_empty());
}

fn request() -> BunkerSignRequest {
    BunkerSignRequest {
        request_id: "r".to_string(),
        requester_pubkey: "p".to_string(),
        event_kind: None,
        event_json: None,
        event_content: None,
        event_tags_json: None,
    }
}

#[test]
fn approval_keys() {
    let mut s = BunkerApprovalState::new(request());
    assert_eq!(handle_bunker_approval_modal_key(&mut s, Key::Char('t')), BunkerApprovalStep::Updated);
    assert!(s.always_approve);
    assert_eq!(
        handle_bunker_approval_modal_key(&mut s, Key::Enter),
        BunkerApprovalStep::Resolve { approve: true, always: true }
    );
    handle_bunker_approval_modal_key(&mut s, Key::Char('j'));
    assert_eq!(
        handle_bunker_approval_modal_key(&mut s, Key::Enter),
        BunkerApprovalStep::Resolve { approve: false, always: false }
    );
    assert_eq!(
        handle_bunker_approval_modal_key(&mut s, Key::Char('A')),
        BunkerApprovalStep::Resolve { approve: true, always: true }
    );
    assert_eq!(
        handle_bunker_approval_modal_key(&mut s, Key::Esc),
        BunkerApprovalStep::Resolve { approve: false, always: false }
    );
    let mut empty = VecDeque::new();
    let mut ids = vec!["x".to_string()];
    assert_eq!(pop_next_bunker_request_id(&mut empty, &mut ids), None);
    assert_eq!(ids, vec!["x".to_string()]);
}

#[test]
fn rules_and_audit() {
    assert_eq!(handle_bunker_rules_modal_key(Key::Char('d'), 1, 2), BunkerRulesStep::RemoveRule(1));
    assert_eq!(handle_bunker_rules_modal_key(Key::Delete, 2, 2), BunkerRulesStep::Ignore);
    assert_eq!(handle_bunker_rules_modal_key(Key::Char('q'), 0, 2), BunkerRulesStep::Close);
    assert_eq!(row_after_removal(1, 1), 0);
    assert_eq!(row_after_removal(0, 0), 0);
    assert_eq!(rule_removed_status(None), "Removed bunker auto-approve rule");
    assert_eq!(handle_bunker_audit_modal_key(Key::Char('r'), 5), BunkerAuditStep::Refresh);
    assert_eq!(handle_bunker_audit_modal_key(Key::Char('j'), 5), BunkerAuditStep::MoveDown(5));
    assert_eq!(audit_scroll(12, 0), 1);
    assert_eq!(audit_scroll(11, 0), 0);
    assert_eq!(audit_scroll(30, 10), 19);
    assert_eq!(audit_refreshed_status(Some("db")), "Failed to refresh bunker audit: db");
}
