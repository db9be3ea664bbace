//! The signing bunker's modals: approving or rejecting a signing request,
//! the queue of pending requests, the auto-approve rules and the audit log.

use vstd::prelude::*;
use vstd::string::*;
use std::collections::VecDeque;
use crate::fields::string_views;
use crate::keys::Key;
use crate::seq_facts::lemma_filter_push;
use crate::text::str_eq;

verus! {

/// A request to sign an event, received by the bunker.
#[derive(Debug, Clone)]
pub struct BunkerSignRequest {
    pub request_id: String,
    pub requester_pubkey: String,
    pub event_kind: Option<u64>,
    pub event_json: Option<String>,
    pub event_content: Option<String>,
    pub event_tags_json: Option<String>,
}

/// The two answers to a signing request.
#[derive(Debug, Clone, Copy, PartialEq, Eq, Structural)]
pub enum BunkerApprovalAction {
    Approve,
    Reject,
}

/// The approval modal: the request, the highlighted answer (row 0 is
/// Approve, row 1 Reject) and whether to approve such requests always.
#[derive(Debug, Clone)]
pub struct BunkerApprovalState {
    pub request: BunkerSignRequest,
    pub selected_index: usize,
    pub always_approve: bool,
}

impl BunkerApprovalState {
    /// A modal for `request` with Approve highlighted.
    pub fn new(request: BunkerSignRequest) -> (r: Self)
        ensures
            r.request == request,
            r.selected_index == 0,
            !r.always_approve,
    {
        BunkerApprovalState { request, selected_index: 0, always_approve: false }
    }

    /// The highlighted answer.
    pub fn selected_action(&self) -> (r: BunkerApprovalAction)
        ensures
            r == if self.selected_index == 0 {
                BunkerApprovalAction::Approve
            } else {
                BunkerApprovalAction::Reject
            },
    {
        if self.selected_index == 0 {
            BunkerApprovalAction::Approve
        } else {
            BunkerApprovalAction::Reject
        }
    }

    /// Highlights Approve.
    pub fn move_up(&mut self)
        ensures
            final(self).selected_index == 0,
            final(self).request == old(self).request,
            final(self).always_approve == old(self).always_approve,
    {
        self.selected_index = 0;
    }

    /// Highlights Reject.
    pub fn move_down(&mut self)
        ensures
            final(self).selected_index == 1,
            final(self).request == old(self).request,
            final(self).always_approve == old(self).always_approve,
    {
        self.selected_index = 1;
    }

    /// Switches whether such requests are always approved.
    pub fn toggle_always_approve(&mut self)
        ensures
            final(self).always_approve == !old(self).always_approve,
            final(self).request == old(self).request,
            final(self).selected_index == old(self).selected_index,
    {
        self.always_approve = !self.always_approve;
    }
}

/// What a key in the approval modal does.
#[derive(Debug, Clone, Copy, PartialEq, Eq, Structural)]
pub enum BunkerApprovalStep {
    /// Answer the request: approve or reject, and whether to remember the
    /// approval for such requests.
    Resolve { approve: bool, always: bool },
    Updated,
    Ignore,
}

/// Handles a key in the approval modal: `a` approves (remembering it if
/// so chosen), `A` approves and remembers, Escape and `r` reject, Enter
/// answers with the highlighted choice, space and `t` switch remembering.
pub fn handle_bunker_approval_modal_key(st: &mut BunkerApprovalState, key: Key) -> (r: BunkerApprovalStep)
    ensures
        final(st).request == old(st).request,
        r == match key {
            Key::Esc => BunkerApprovalStep::Resolve { approve: false, always: false },
            Key::Up => BunkerApprovalStep::Updated,
            Key::Down => BunkerApprovalStep::Updated,
            Key::Enter => if old(st).selected_index == 0 {
                BunkerApprovalStep::Resolve { approve: true, always: old(st).always_approve }
            } else {
                BunkerApprovalStep::Resolve { approve: false, always: false }
            },
            Key::Char(c) => if c == 'r' {
                BunkerApprovalStep::Resolve { approve: false, always: false }
            } else if c == 'a' {
                BunkerApprovalStep::Resolve { approve: true, always: old(st).always_approve }
            } else if c == 'A' {
                BunkerApprovalStep::Resolve { approve: true, always: true }
            } else if c == ' ' || c == 't' || c == 'k' || c == 'j' {
                BunkerApprovalStep::Updated
            } else {
                BunkerApprovalStep::Ignore
            },
            _ => BunkerApprovalStep::Ignore,
        },
        final(st).always_approve == if key == Key::Char(' ') || key == Key::Char('t') {
            !old(st).always_approve
        } else {
            old(st).always_approve
        },
        final(st).selected_index == if key == Key::Up || key == Key::Char('k') {
            0
        } else if key == Key::Down || key == Key::Char('j') {
            1
        } else {
            old(st).selected_index
        },
{
    match key {
        Key::Esc => BunkerApprovalStep::Resolve { approve: false, always: false },
        Key::Up => {
            st.move_up();
            BunkerApprovalStep::Updated
        },
        Key::Down => {
            st.move_down();
            BunkerApprovalStep::Updated
        },
        Key::Enter => match st.selected_action() {
            BunkerApprovalAction::Approve => BunkerApprovalStep::Resolve {
                approve: true,
                always: st.always_approve,
            },
            BunkerApprovalAction::Reject => BunkerApprovalStep::Resolve {
                approve: false,
                always: false,
            },
        },
        Key::Char(c) => if c == 'r' {
            BunkerApprovalStep::Resolve { approve: false, always: false }
        } else if c == 'a' {
            BunkerApprovalStep::Resolve { approve: true, always: st.always_approve }
        } else if c == 'A' {
            BunkerApprovalStep::Resolve { approve: true, always: true }
        } else if c == ' ' || c == 't' {
            st.toggle_always_approve();
            BunkerApprovalStep::Updated
        } else if c == 'k' {
            st.move_up();
            BunkerApprovalStep::Updated
        } else if c == 'j' {
            st.move_down();
            BunkerApprovalStep::Updated
        } else {
            BunkerApprovalStep::Ignore
        },
        _ => BunkerApprovalStep::Ignore,
    }
}

/// Takes the next request from the queue and forgets its id among the
/// pending ones: the queue loses its first request, whose id is returned
/// and no longer listed; `None` when the queue is empty.
pub fn pop_next_bunker_request_id(queue: &mut VecDeque<BunkerSignRequest>, ids: &mut Vec<String>) -> (r:
    Option<String>)
    ensures
        match r {
            Some(id) => {
                &&& old(queue)@.len() > 0
                &&& id@ == old(queue)@[0].request_id@
                &&& final(queue)@ == old(queue)@.subrange(1, old(queue)@.len() as int)
                &&& string_views(final(ids)@) == string_views(old(ids)@).filter(
                    |x: Seq<char>| x != id@,
                )
            },
            None => {
                &&& old(queue)@.len() == 0
                &&& final(queue)@ == old(queue)@
                &&& final(ids)@ == old(ids)@
            },
        },
{
    match queue.pop_front() {
        Some(request) => {
            let id = request.request_id;
            let ghost keep = |x: Seq<char>| x != id@;
            let ghost start = string_views(ids@);
            let mut kept: Vec<String> = Vec::new();
            let mut i: usize = 0;
            while i < ids.len()
                invariant
                    i <= ids@.len(),
                    start == string_views(ids@),
                    keep == (|x: Seq<char>| x != id@),
                    string_views(kept@) == start.subrange(0, i as int).filter(keep),
                decreases ids@.len() - i,
            {
                let x = ids[i].as_str();
                proof {
                    assert(start.subrange(0, i + 1) =~= start.subrange(0, i as int).push(x@));
                    lemma_filter_push(start.subrange(0, i as int), keep, x@);
                }
                if !str_eq(x, id.as_str()) {
                    kept.push(String::from_str(x));
                    proof {
                        assert(string_views(kept@) =~= start.subrange(0, i as int).filter(
                            keep,
                        ).push(x@));
                    }
                }
                i = i + 1;
            }
            proof {
                assert(start.subrange(0, start.len() as int) =~= start);
            }
            *ids = kept;
            Some(id)
        },
        None => None,
    }
}

/// What a key in the auto-approve rules modal does.
#[derive(Debug, Clone, Copy, PartialEq, Eq, Structural)]
pub enum BunkerRulesStep {
    /// Close, back to the settings if opened from there.
    Close,
    MoveUp,
    /// Move down within this many rules.
    MoveDown(usize),
    /// Remove the rule at this row (see `row_after_removal`).
    RemoveRule(usize),
    Ignore,
}

/// Handles a key in the auto-approve rules modal of `rules` rules.
pub fn handle_bunker_rules_modal_key(key: Key, selected_index: usize, rules: usize) -> (r: BunkerRulesStep)
    ensures
        r == match key {
            Key::Esc => BunkerRulesStep::Close,
            Key::Up => BunkerRulesStep::MoveUp,
            Key::Down => BunkerRulesStep::MoveDown(rules),
            Key::Delete => if selected_index < rules {
                BunkerRulesStep::RemoveRule(selected_index)
            } else {
                BunkerRulesStep::Ignore
            },
            Key::Char(c) => if c == 'q' {
                BunkerRulesStep::Close
            } else if c == 'k' {
                BunkerRulesStep::MoveUp
            } else if c == 'j' {
                BunkerRulesStep::MoveDown(rules)
            } else if c == 'd' && selected_index < rules {
                BunkerRulesStep::RemoveRule(selected_index)
            } else {
                BunkerRulesStep::Ignore
            },
            _ => BunkerRulesStep::Ignore,
        },
{
    match key {
        Key::Esc => BunkerRulesStep::Close,
        Key::Up => BunkerRulesStep::MoveUp,
        Key::Down => BunkerRulesStep::MoveDown(rules),
        Key::Delete => if selected_index < rules {
            BunkerRulesStep::RemoveRule(selected_index)
        } else {
            BunkerRulesStep::Ignore
        },
        Key::Char(c) => if c == 'q' {
            BunkerRulesStep::Close
        } else if c == 'k' {
            BunkerRulesStep::MoveUp
        } else if c == 'j' {
            BunkerRulesStep::MoveDown(rules)
        } else if c == 'd' && selected_index < rules {
            BunkerRulesStep::RemoveRule(selected_index)
        } else {
            BunkerRulesStep::Ignore
        },
        _ => BunkerRulesStep::Ignore,
    }
}

/// The selected row after a row was removed, leaving `remaining` rows: a
/// cursor past the end moves up one row.
pub fn row_after_removal(selected_index: usize, remaining: usize) -> (r: usize)
    ensures
        r == if selected_index >= remaining && selected_index > 0 {
            (selected_index - 1) as usize
        } else {
            selected_index
        },
{
    if selected_index >= remaining && selected_index > 0 {
        selected_index - 1
    } else {
        selected_index
    }
}

/// The status after removing an auto-approve rule was attempted.
pub fn rule_removed_status(error: Option<&str>) -> (r: String)
    ensures
        r@ == match error {
            Some(e) => "Failed to remove bunker rule: "@ + e@,
            None => "Removed bunker auto-approve rule"@,
        },
{
    match error {
        Some(e) => {
            let mut r = String::from_str("Failed to remove bunker rule: ");
            r.append(e);
            r
        },
        None => String::from_str("Removed bunker auto-approve rule"),
    }
}

/// The audit rows that fit on screen, roughly.
pub const AUDIT_VISIBLE_ROWS: usize = 12;

/// What a key in the audit log modal does.
#[derive(Debug, Clone, Copy, PartialEq, Eq, Structural)]
pub enum BunkerAuditStep {
    /// Close, back to the settings if opened from there.
    Close,
    MoveUp,
    /// Move down within this many entries, then see `audit_scroll`.
    MoveDown(usize),
    /// Reload the audit entries.
    Refresh,
    Ignore,
}

/// Handles a key in the audit log modal of `entries` entries.
pub fn handle_bunker_audit_modal_key(key: Key, entries: usize) -> (r: BunkerAuditStep)
    ensures
        r == match key {
            Key::Esc => BunkerAuditStep::Close,
            Key::Up => BunkerAuditStep::MoveUp,
            Key::Down => BunkerAuditStep::MoveDown(entries),
            Key::Char(c) => if c == 'q' {
                BunkerAuditStep::Close
            } else if c == 'k' {
                BunkerAuditStep::MoveUp
            } else if c == 'j' {
                BunkerAuditStep::MoveDown(entries)
            } else if c == 'r' {
                BunkerAuditStep::Refresh
            } else {
                BunkerAuditStep::Ignore
            },
            _ => BunkerAuditStep::Ignore,
        },
{
    match key {
        Key::Esc => BunkerAuditStep::Close,
        Key::Up => BunkerAuditStep::MoveUp,
        Key::Down => BunkerAuditStep::MoveDown(entries),
        Key::Char(c) => if c == 'q' {
            BunkerAuditStep::Close
        } else if c == 'k' {
            BunkerAuditStep::MoveUp
        } else if c == 'j' {
            BunkerAuditStep::MoveDown(entries)
        } else if c == 'r' {
            BunkerAuditStep::Refresh
        } else {
            BunkerAuditStep::Ignore
        },
        _ => BunkerAuditStep::Ignore,
    }
}

/// The audit log's scroll offset after moving down to `selected_index`:
/// scrolled just far enough to show the selected row.
pub fn audit_scroll(selected_index: usize, scroll_offset: usize) -> (r: usize)
    ensures
        r == if selected_index >= scroll_offset + AUDIT_VISIBLE_ROWS {
            (selected_index + 1 - AUDIT_VISIBLE_ROWS) as usize
        } else {
            scroll_offset
        },
        r <= selected_index || r == scroll_offset,
{
    if scroll_offset <= selected_index && selected_index - scroll_offset >= AUDIT_VISIBLE_ROWS {
        selected_index - (AUDIT_VISIBLE_ROWS - 1)
    } else {
        scroll_offset
    }
}

/// The status after reloading the audit log was attempted.
pub fn audit_refreshed_status(error: Option<&str>) -> (r: String)
    ensures
        r@ == match error {
            Some(e) => "Failed to refresh bunker audit: "@ + e@,
            None => "Refreshed bunker audit entries"@,
        },
{
    match error {
        Some(e) => {
            let mut r = String::from_str("Failed to refresh bunker audit: ");
            r.append(e);
            r
        },
        None => String::from_str("Refreshed bunker audit entries"),
    }
}

} // verus!
