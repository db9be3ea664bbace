//! The action-list modals (project, conversation and chat actions): how
//! keys move the selection, pick an action or close the modal, and the
//! status lines that the actions leave.

use vstd::prelude::*;
use vstd::string::*;
use crate::keys::Key;
use crate::text::{byte_prefix, byte_prefix_chars, cuts_at_boundary};

verus! {

/// An action of the project actions modal.
#[derive(Debug, Clone, Copy, PartialEq, Eq, Structural)]
pub enum ProjectAction {
    Boot,
    Settings,
    NewConversation,
    ToggleArchive,
}

/// An action of the conversation actions modal.
#[derive(Debug, Clone, Copy, PartialEq, Eq, Structural)]
pub enum ConversationAction {
    Open,
    ExportJsonl,
    ToggleArchive,
}

/// An action of the chat actions modal.
#[derive(Debug, Clone, Copy, PartialEq, Eq, Structural)]
pub enum ChatAction {
    NewConversation,
    GoToParent,
    ExportJsonl,
}

/// What a key does in an action-list modal.
#[derive(Debug, Clone, Copy, PartialEq, Eq, Structural)]
pub enum ActionModalStep<A> {
    /// Close the modal.
    Close,
    /// Move the selection to this row.
    MoveTo(usize),
    /// Run the selected row's action.
    RunSelected,
    /// Run this action.
    Run(A),
    /// The key does nothing.
    Ignore,
}

/// How Escape, the arrows, `j`/`k` and Enter act on a list of `count`
/// actions with row `selected` selected; `None` for other keys.
pub open spec fn list_navigation<A>(key: Key, selected: usize, count: usize) -> Option<ActionModalStep<A>> {
    if key == Key::Esc {
        Some(ActionModalStep::Close)
    } else if key == Key::Up || key == Key::Char('k') {
        if selected > 0 {
            Some(ActionModalStep::MoveTo((selected - 1) as usize))
        } else {
            Some(ActionModalStep::Ignore)
        }
    } else if key == Key::Down || key == Key::Char('j') {
        if selected + 1 < count {
            Some(ActionModalStep::MoveTo((selected + 1) as usize))
        } else {
            Some(ActionModalStep::Ignore)
        }
    } else if key == Key::Enter {
        Some(ActionModalStep::RunSelected)
    } else {
        None
    }
}

/// What a key does in the project actions modal.
pub open spec fn project_actions_step(key: Key, selected: usize, count: usize, is_online: bool) -> ActionModalStep<ProjectAction> {
    match list_navigation::<ProjectAction>(key, selected, count) {
        Some(step) => step,
        None => if key == Key::Char('n') && is_online {
            ActionModalStep::Run(ProjectAction::NewConversation)
        } else if key == Key::Char('b') && !is_online {
            ActionModalStep::Run(ProjectAction::Boot)
        } else if key == Key::Char('s') {
            ActionModalStep::Run(ProjectAction::Settings)
        } else if key == Key::Char('a') {
            ActionModalStep::Run(ProjectAction::ToggleArchive)
        } else {
            ActionModalStep::Ignore
        },
    }
}

/// What a key does in the conversation actions modal.
pub open spec fn conversation_actions_step(key: Key, selected: usize, count: usize) -> ActionModalStep<ConversationAction> {
    match list_navigation::<ConversationAction>(key, selected, count) {
        Some(step) => step,
        None => if key == Key::Char('o') {
            ActionModalStep::Run(ConversationAction::Open)
        } else if key == Key::Char('e') {
            ActionModalStep::Run(ConversationAction::ExportJsonl)
        } else if key == Key::Char('a') {
            ActionModalStep::Run(ConversationAction::ToggleArchive)
        } else {
            ActionModalStep::Ignore
        },
    }
}

/// What a key does in the chat actions modal.
pub open spec fn chat_actions_step(key: Key, selected: usize, count: usize, has_parent: bool) -> ActionModalStep<ChatAction> {
    match list_navigation::<ChatAction>(key, selected, count) {
        Some(step) => step,
        None => if key == Key::Char('n') {
            ActionModalStep::Run(ChatAction::NewConversation)
        } else if key == Key::Char('p') && has_parent {
            ActionModalStep::Run(ChatAction::GoToParent)
        } else if key == Key::Char('e') {
            ActionModalStep::Run(ChatAction::ExportJsonl)
        } else {
            ActionModalStep::Ignore
        },
    }
}

fn navigate_list<A>(key: Key, selected: usize, count: usize) -> (r: Option<ActionModalStep<A>>)
    ensures
        r == list_navigation::<A>(key, selected, count),
{
    if key == Key::Esc {
        Some(ActionModalStep::Close)
    } else if key == Key::Up || key == Key::Char('k') {
        if selected > 0 {
            Some(ActionModalStep::MoveTo(selected - 1))
        } else {
            Some(ActionModalStep::Ignore)
        }
    } else if key == Key::Down || key == Key::Char('j') {
        if selected < count && selected + 1 < count {
            Some(ActionModalStep::MoveTo(selected + 1))
        } else {
            Some(ActionModalStep::Ignore)
        }
    } else if key == Key::Enter {
        Some(ActionModalStep::RunSelected)
    } else {
        None
    }
}

/// Keys of the project actions modal: the list keys, `n` (online) and `b`
/// (offline) for a new conversation or a boot, `s` for settings, `a` to
/// archive or unarchive.
pub fn handle_project_actions_modal_key(key: Key, selected: usize, count: usize, is_online: bool) -> (r:
    ActionModalStep<ProjectAction>)
    ensures
        r == project_actions_step(key, selected, count, is_online),
{
    match navigate_list(key, selected, count) {
        Some(step) => step,
        None => if key == Key::Char('n') && is_online {
            ActionModalStep::Run(ProjectAction::NewConversation)
        } else if key == Key::Char('b') && !is_online {
            ActionModalStep::Run(ProjectAction::Boot)
        } else if key == Key::Char('s') {
            ActionModalStep::Run(ProjectAction::Settings)
        } else if key == Key::Char('a') {
            ActionModalStep::Run(ProjectAction::ToggleArchive)
        } else {
            ActionModalStep::Ignore
        },
    }
}

/// Keys of the conversation actions modal: the list keys, `o` to open,
/// `e` to export, `a` to archive or unarchive.
pub fn handle_conversation_actions_modal_key(key: Key, selected: usize, count: usize) -> (r:
    ActionModalStep<ConversationAction>)
    ensures
        r == conversation_actions_step(key, selected, count),
{
    match navigate_list(key, selected, count) {
        Some(step) => step,
        None => if key == Key::Char('o') {
            ActionModalStep::Run(ConversationAction::Open)
        } else if key == Key::Char('e') {
            ActionModalStep::Run(ConversationAction::ExportJsonl)
        } else if key == Key::Char('a') {
            ActionModalStep::Run(ConversationAction::ToggleArchive)
        } else {
            ActionModalStep::Ignore
        },
    }
}

/// Keys of the chat actions modal: the list keys, `n` for a new
/// conversation, `p` for the parent (when there is one), `e` to export.
pub fn handle_chat_actions_modal_key(key: Key, selected: usize, count: usize, has_parent: bool) -> (r:
    ActionModalStep<ChatAction>)
    ensures
        r == chat_actions_step(key, selected, count, has_parent),
{
    match navigate_list(key, selected, count) {
        Some(step) => step,
        None => if key == Key::Char('n') {
            ActionModalStep::Run(ChatAction::NewConversation)
        } else if key == Key::Char('p') && has_parent {
            ActionModalStep::Run(ChatAction::GoToParent)
        } else if key == Key::Char('e') {
            ActionModalStep::Run(ChatAction::ExportJsonl)
        } else {
            ActionModalStep::Ignore
        },
    }
}

/// An action of the message actions modal.
#[derive(Debug, Clone, Copy, PartialEq, Eq, Structural)]
pub enum MessageAction {
    CopyRawEvent,
    SendAgain,
    ViewRawEvent,
    OpenTrace,
}

/// What a key does in the message actions modal: the list keys over its
/// three actions, four when the message has a trace; `c`, `s`, `v` and
/// (with a trace) `t` run an action directly.
pub open spec fn message_actions_step(key: Key, selected: usize, has_trace: bool) -> ActionModalStep<
    MessageAction,
> {
    let count: usize = if has_trace {
        4
    } else {
        3
    };
    match list_navigation::<MessageAction>(key, selected, count) {
        Some(step) => step,
        None => if key == Key::Char('c') {
            ActionModalStep::Run(MessageAction::CopyRawEvent)
        } else if key == Key::Char('s') {
            ActionModalStep::Run(MessageAction::SendAgain)
        } else if key == Key::Char('v') {
            ActionModalStep::Run(MessageAction::ViewRawEvent)
        } else if key == Key::Char('t') && has_trace {
            ActionModalStep::Run(MessageAction::OpenTrace)
        } else {
            ActionModalStep::Ignore
        },
    }
}

/// Keys of the message actions modal.
pub fn handle_message_actions_modal_key(key: Key, selected: usize, has_trace: bool) -> (r:
    ActionModalStep<MessageAction>)
    ensures
        r == message_actions_step(key, selected, has_trace),
{
    let count: usize = if has_trace {
        4
    } else {
        3
    };
    match navigate_list(key, selected, count) {
        Some(step) => step,
        None => if key == Key::Char('c') {
            ActionModalStep::Run(MessageAction::CopyRawEvent)
        } else if key == Key::Char('s') {
            ActionModalStep::Run(MessageAction::SendAgain)
        } else if key == Key::Char('v') {
            ActionModalStep::Run(MessageAction::ViewRawEvent)
        } else if key == Key::Char('t') && has_trace {
            ActionModalStep::Run(MessageAction::OpenTrace)
        } else {
            ActionModalStep::Ignore
        },
    }
}

/// What a key does in the raw event viewer.
#[derive(Debug, Clone, Copy, PartialEq, Eq, Structural)]
pub enum RawEventStep {
    Close,
    /// Copy the JSON to the clipboard (see `copy_status`).
    Copy,
    /// Scroll to this offset.
    ScrollTo(usize),
    Ignore,
}

/// Handles a key in the raw event viewer scrolled to `offset`: the arrows
/// (or `k`/`j`) scroll one line, Page Up and Page Down twenty; scrolling
/// down needs the new offset to fit a `usize`.
pub fn handle_view_raw_event_modal_key(key: Key, offset: usize) -> (r: RawEventStep)
    requires
        key == Key::Down || key == Key::Char('j') ==> offset < usize::MAX,
        key == Key::PageDown ==> offset <= usize::MAX - 20,
    ensures
        r == match key {
            Key::Esc => RawEventStep::Close,
            Key::Up => RawEventStep::ScrollTo(if offset > 0 { (offset - 1) as usize } else { 0 }),
            Key::Down => RawEventStep::ScrollTo((offset + 1) as usize),
            Key::PageUp => RawEventStep::ScrollTo(if offset >= 20 { (offset - 20) as usize } else { 0 }),
            Key::PageDown => RawEventStep::ScrollTo((offset + 20) as usize),
            Key::Char(c) => if c == 'y' {
                RawEventStep::Copy
            } else if c == 'k' {
                RawEventStep::ScrollTo(if offset > 0 { (offset - 1) as usize } else { 0 })
            } else if c == 'j' {
                RawEventStep::ScrollTo((offset + 1) as usize)
            } else {
                RawEventStep::Ignore
            },
            _ => RawEventStep::Ignore,
        },
{
    match key {
        Key::Esc => RawEventStep::Close,
        Key::Up => RawEventStep::ScrollTo(offset.saturating_sub(1)),
        Key::Down => RawEventStep::ScrollTo(offset + 1),
        Key::PageUp => RawEventStep::ScrollTo(offset.saturating_sub(20)),
        Key::PageDown => RawEventStep::ScrollTo(offset + 20),
        Key::Char(c) => if c == 'y' {
            RawEventStep::Copy
        } else if c == 'k' {
            RawEventStep::ScrollTo(offset.saturating_sub(1))
        } else if c == 'j' {
            RawEventStep::ScrollTo(offset + 1)
        } else {
            RawEventStep::Ignore
        },
        _ => RawEventStep::Ignore,
    }
}

/// How putting text on the clipboard went.
#[derive(Debug, Clone, Copy, PartialEq, Eq, Structural)]
pub enum ClipboardOutcome {
    Copied,
    /// The clipboard refused the text.
    CopyFailed,
    /// The clipboard could not be opened.
    Unavailable,
}

/// The status after copying a raw event.
pub fn copy_status(outcome: ClipboardOutcome) -> (r: String)
    ensures
        r@ == match outcome {
            ClipboardOutcome::Copied => "Raw event copied to clipboard"@,
            ClipboardOutcome::CopyFailed => "Failed to copy to clipboard"@,
            ClipboardOutcome::Unavailable => "Failed to access clipboard"@,
        },
{
    match outcome {
        ClipboardOutcome::Copied => "Raw event copied to clipboard".to_owned(),
        ClipboardOutcome::CopyFailed => "Failed to copy to clipboard".to_owned(),
        ClipboardOutcome::Unavailable => "Failed to access clipboard".to_owned(),
    }
}

/// The status after copying a conversation's short id: `short_id` is the
/// id of the selected conversation (none when no conversation is
/// selected); `clipboard` tells whether the text was set, or holds the
/// error that opening the clipboard gave.
pub fn short_id_copy_status(short_id: Option<&str>, clipboard: Result<bool, &str>) -> (r: String)
    ensures
        r@ == match short_id {
            None => "No conversation selected"@,
            Some(s) => match clipboard {
                Ok(true) => "Copied short ID: "@ + s@,
                Ok(false) => "Failed to copy to clipboard"@,
                Err(e) => "Clipboard error: "@ + e@,
            },
        },
{
    match short_id {
        None => String::from_str("No conversation selected"),
        Some(s) => match clipboard {
            Ok(true) => {
                let mut m = String::from_str("Copied short ID: ");
                m.append(s);
                m
            },
            Ok(false) => String::from_str("Failed to copy to clipboard"),
            Err(e) => {
                let mut m = String::from_str("Clipboard error: ");
                m.append(e);
                m
            },
        },
    }
}

/// The status after copying a message's content, or after copying failed
/// with `error`.
pub fn content_copy_status(error: Option<&str>) -> (r: String)
    ensures
        r@ == match error {
            Some(e) => "Failed to copy: "@ + e@,
            None => "Content copied to clipboard"@,
        },
{
    match error {
        Some(e) => {
            let mut m = String::from_str("Failed to copy: ");
            m.append(e);
            m
        },
        None => String::from_str("Content copied to clipboard"),
    }
}

/// The lines of a thread's JSONL export: the root event's JSON first, if
/// stored, then each stored message event other than the root, in order.
pub open spec fn export_lines(
    thread_id: Seq<char>,
    root: Option<Seq<char>>,
    messages: Seq<(Seq<char>, Option<Seq<char>>)>,
) -> Seq<Seq<char>> {
    let rest = messages.filter(|m: (Seq<char>, Option<Seq<char>>)| m.0 != thread_id && m.1 is Some).map_values(
        |m: (Seq<char>, Option<Seq<char>>)| m.1->0,
    );
    match root {
        Some(r) => seq![r] + rest,
        None => rest,
    }
}

/// The views of a list of (id, stored JSON) pairs.
pub open spec fn message_views(v: Seq<(String, Option<String>)>) -> Seq<(Seq<char>, Option<Seq<char>>)> {
    v.map_values(|m: (String, Option<String>)| (m.0@, match m.1 {
        Some(j) => Some(j@),
        None => None,
    }))
}

/// Assembles a thread's JSONL export from the stored events: the root
/// event's JSON (if stored) and each message's id and stored JSON.
/// Returns the text, one event per line, and the number of events.
pub fn thread_jsonl(thread_id: &str, root: Option<String>, messages: &Vec<(String, Option<String>)>) -> (r: (
    String,
    usize,
))
    ensures
        r.0@ == crate::fields::join_newlines(
            export_lines(thread_id@, crate::messages::opt_view(root), message_views(messages@)),
        ),
        r.1 == export_lines(thread_id@, crate::messages::opt_view(root), message_views(messages@)).len(),
{
    let ghost keep = |m: (Seq<char>, Option<Seq<char>>)| m.0 != thread_id@ && m.1 is Some;
    let ghost json = |m: (Seq<char>, Option<Seq<char>>)| m.1->0;
    let mut lines: Vec<String> = Vec::new();
    let ghost root_view: Option<Seq<char>> = crate::messages::opt_view(root);
    let ghost head: Seq<Seq<char>> = match root_view {
        Some(r) => seq![r],
        None => Seq::<Seq<char>>::empty(),
    };
    match root {
        Some(j) => lines.push(j),
        None => {},
    }
    proof {
        assert(crate::fields::string_views(lines@) =~= head);
        assert(message_views(messages@).subrange(0, 0).filter(keep) =~= Seq::<(Seq<char>, Option<Seq<char>>)>::empty()) by {
            reveal(Seq::filter);
        }
    }
    let mut i: usize = 0;
    while i < messages.len()
        invariant
            i <= messages@.len(),
            keep == (|m: (Seq<char>, Option<Seq<char>>)| m.0 != thread_id@ && m.1 is Some),
            json == (|m: (Seq<char>, Option<Seq<char>>)| m.1->0),
            crate::fields::string_views(lines@) == head + message_views(messages@).subrange(0, i as int).filter(keep).map_values(json),
        decreases messages@.len() - i,
    {
        let ghost pre = message_views(messages@).subrange(0, i as int);
        let ghost m = message_views(messages@)[i as int];
        proof {
            assert(message_views(messages@).subrange(0, i + 1) =~= pre.push(m));
            crate::seq_facts::lemma_filter_push(pre, keep, m);
        }
        let ghost before = crate::fields::string_views(lines@);
        let (id, stored) = (&messages[i].0, &messages[i].1);
        if !crate::text::str_eq(id.as_str(), thread_id) {
            match stored {
                Some(j) => {
                    lines.push(String::from_str(j.as_str()));
                    proof {
                        assert(crate::fields::string_views(lines@) =~= before.push(j@));
                        assert(pre.push(m).filter(keep).map_values(json) =~= pre.filter(keep).map_values(json).push(j@));
                    }
                },
                None => {},
            }
        }
        i = i + 1;
    }
    proof {
        assert(message_views(messages@).subrange(0, messages@.len() as int) =~= message_views(messages@));
        let rest = message_views(messages@).filter(keep).map_values(json);
        assert(export_lines(thread_id@, root_view, message_views(messages@)) =~= head + rest);
    }
    let n = lines.len();
    (crate::fields::join_with_newlines(&lines), n)
}

/// The status after a JSONL export: nothing to export, or the number of
/// events copied, or the clipboard's failure.
pub fn export_status(message_count: usize, events: usize, outcome: ClipboardOutcome) -> (r: String)
    ensures
        r@ == if message_count == 0 {
            "No messages to export"@
        } else {
            match outcome {
                ClipboardOutcome::Copied => "Exported "@ + crate::text::decimal(events as nat)
                    + " events to clipboard as JSONL"@,
                ClipboardOutcome::CopyFailed => "Failed to copy to clipboard"@,
                ClipboardOutcome::Unavailable => "Failed to access clipboard"@,
            }
        },
{
    if message_count == 0 {
        return "No messages to export".to_owned();
    }
    match outcome {
        ClipboardOutcome::Copied => {
            let mut r = "Exported ".to_owned();
            crate::text::push_decimal(&mut r, events);
            r.append(" events to clipboard as JSONL");
            r
        },
        ClipboardOutcome::CopyFailed => "Failed to copy to clipboard".to_owned(),
        ClipboardOutcome::Unavailable => "Failed to access clipboard".to_owned(),
    }
}

/// The notice after an action modal toggled an item's archived flag.
pub fn archive_notice(name: &str, is_now_archived: bool) -> (r: String)
    ensures
        r@ == (if is_now_archived {
            "Archived: "@
        } else {
            "Unarchived: "@
        }) + name@,
{
    let mut r = if is_now_archived {
        "Archived: ".to_owned()
    } else {
        "Unarchived: ".to_owned()
    };
    r.append(name);
    r
}

/// The status after a boot request for a project was sent.
pub fn boot_sent_status(project_name: &str) -> (r: String)
    ensures
        r@ == "Boot request sent for "@ + project_name@,
{
    let mut r = "Boot request sent for ".to_owned();
    r.append(project_name);
    r
}

/// The status after going to a parent conversation, or after failing to
/// find it.
pub fn parent_navigation_status(parent_title: Option<&str>) -> (r: String)
    ensures
        r@ == match parent_title {
            Some(t) => "Navigated to parent: "@ + t@,
            None => "Parent conversation not found"@,
        },
{
    match parent_title {
        Some(t) => {
            let mut r = "Navigated to parent: ".to_owned();
            r.append(t);
            r
        },
        None => "Parent conversation not found".to_owned(),
    }
}

/// The status when the parent conversation of the open one is not in the
/// store: the first eight bytes of the parent's id follow the notice.
pub fn parent_not_found_status(parent_id: &str) -> (r: String)
    requires
        parent_id.spec_bytes().len() >= 8,
        cuts_at_boundary(parent_id, 8),
    ensures
        r@ == "Parent conversation not found: "@ + byte_prefix_chars(parent_id, 8),
{
    let mut m = String::from_str("Parent conversation not found: ");
    m.append(byte_prefix(parent_id, 8));
    m
}

/// The name of the project a new conversation from the chat actions modal
/// opens in: its title, or "New" when the project is not in the store.
pub fn new_conversation_project_name(found_title: Option<String>) -> (r: String)
    ensures
        r@ == match found_title {
            Some(t) => t@,
            None => "New"@,
        },
{
    match found_title {
        Some(t) => t,
        None => "New".to_owned(),
    }
}

/// The stop request for the conversation that the stop command targets:
/// its project and its id, sent only when an agent works in it and its
/// project is known.
pub fn stop_request(target: Option<String>, is_busy: bool, project: Option<String>) -> (r: Option<
    (String, String)>)
    ensures
        match r {
            Some((p, t)) => is_busy && (target matches Some(t0) && t@ == t0@) && (project matches Some(
                p0,
            ) && p@ == p0@),
            None => !(target is Some && is_busy && project is Some),
        },
{
    match (target, project) {
        (Some(t), Some(p)) => if is_busy {
            Some((p, t))
        } else {
            None
        },
        _ => None,
    }
}

/// The status after a stop request was sent, or after sending failed with
/// `error`.
pub fn stop_sent_status(error: Option<&str>) -> (r: String)
    ensures
        r@ == match error {
            Some(e) => "Failed to stop: "@ + e@,
            None => "Stop command sent"@,
        },
{
    match error {
        Some(e) => {
            let mut m = String::from_str("Failed to stop: ");
            m.append(e);
            m
        },
        None => String::from_str("Stop command sent"),
    }
}

/// The list keys keep the selection on a row of the list.
pub proof fn lemma_list_navigation_in_range<A>(key: Key, selected: usize, count: usize)
    requires
        selected < count,
    ensures
        list_navigation::<A>(key, selected, count) matches Some(ActionModalStep::MoveTo(i)) ==> i
            < count,
{
}

/// Every action of the action modals is reachable by its own key, wherever
/// the selection is: in the chat actions modal `n` starts a new
/// conversation, `e` exports the conversation and `p` goes to the parent
/// (only when there is one); in the conversation actions modal `o` opens,
/// `e` exports and `a` archives; in the project actions modal `s` opens
/// the settings, `a` archives, and `n` (online) or `b` (offline) starts a
/// conversation or boots the project. Escape closes each modal and Enter
/// runs the selected row.
pub proof fn lemma_action_keys_reach_their_actions(selected: usize, count: usize, has_parent: bool, is_online: bool)
    ensures
        chat_actions_step(Key::Char('n'), selected, count, has_parent) == ActionModalStep::Run(
            ChatAction::NewConversation,
        ),
        chat_actions_step(Key::Char('e'), selected, count, has_parent) == ActionModalStep::Run(
            ChatAction::ExportJsonl,
        ),
        chat_actions_step(Key::Char('p'), selected, count, has_parent) == (if has_parent {
            ActionModalStep::Run(ChatAction::GoToParent)
        } else {
            ActionModalStep::Ignore
        }),
        conversation_actions_step(Key::Char('o'), selected, count) == ActionModalStep::Run(
            ConversationAction::Open,
        ),
        conversation_actions_step(Key::Char('e'), selected, count) == ActionModalStep::Run(
            ConversationAction::ExportJsonl,
        ),
        conversation_actions_step(Key::Char('a'), selected, count) == ActionModalStep::Run(
            ConversationAction::ToggleArchive,
        ),
        project_actions_step(Key::Char('s'), selected, count, is_online) == ActionModalStep::Run(
            ProjectAction::Settings,
        ),
        project_actions_step(Key::Char('a'), selected, count, is_online) == ActionModalStep::Run(
            ProjectAction::ToggleArchive,
        ),
        project_actions_step(Key::Char('n'), selected, count, is_online) == (if is_online {
            ActionModalStep::Run(ProjectAction::NewConversation)
        } else {
            ActionModalStep::Ignore
        }),
        project_actions_step(Key::Char('b'), selected, count, is_online) == (if is_online {
            ActionModalStep::Ignore
        } else {
            ActionModalStep::Run(ProjectAction::Boot)
        }),
        chat_actions_step(Key::Esc, selected, count, has_parent) == ActionModalStep::<ChatAction>::Close,
        chat_actions_step(Key::Enter, selected, count, has_parent)
            == ActionModalStep::<ChatAction>::RunSelected,
{
    assert(chat_actions_step(Key::Char('n'), selected, count, has_parent) == ActionModalStep::Run(
        ChatAction::NewConversation,
    ));
    assert(chat_actions_step(Key::Char('e'), selected, count, has_parent) == ActionModalStep::Run(
        ChatAction::ExportJsonl,
    ));
    assert(chat_actions_step(Key::Char('p'), selected, count, has_parent) == (if has_parent {
        ActionModalStep::Run(ChatAction::GoToParent)
    } else {
        ActionModalStep::Ignore
    }));
}

} // verus!
