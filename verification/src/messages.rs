//! Which messages of a conversation are on screen, and what the selected
//! display item leads to (a message id, a subthread, a delegation).

use vstd::prelude::*;
use vstd::string::*;
use crate::text::str_eq;

verus! {

/// The parts of a message that selection reads.
#[derive(Debug, Clone)]
pub struct MessageInfo {
    pub id: String,
    /// The message this one replies to, if any.
    pub reply_to: Option<String>,
}

/// A row of the grouped conversation view.
#[derive(Debug, Clone)]
pub enum DisplayItem {
    /// A single message.
    SingleMessage { message_id: String },
    /// A preview of a delegated conversation.
    DelegationPreview { thread_id: String },
}

/// What pressing Enter on the selected row does.
#[derive(Debug, Clone)]
pub enum ChatEnterAction {
    /// Open the replies to this message as a subthread.
    EnterSubthread { message_id: String },
    /// Navigate into a delegated conversation.
    PushDelegation { thread_id: String },
    /// Nothing happens.
    Nothing,
}

/// The view of an optional string.
pub open spec fn opt_view(s: Option<String>) -> Option<Seq<char>> {
    match s {
        Some(x) => Some(x@),
        None => None,
    }
}

/// The view of an optional string slice.
pub open spec fn opt_str_view(s: Option<&str>) -> Option<Seq<char>> {
    match s {
        Some(x) => Some(x@),
        None => None,
    }
}

/// Whether a message is shown: inside a subthread, the replies to its root;
/// otherwise the thread's root, top-level messages and replies to the root.
pub open spec fn is_shown(m: MessageInfo, thread_id: Option<Seq<char>>, subthread_root: Option<
    Seq<char>,
>) -> bool {
    match subthread_root {
        Some(root) => opt_view(m.reply_to) == Some(root),
        None => Some(m.id@) == thread_id || m.reply_to is None || opt_view(m.reply_to)
            == thread_id,
    }
}

/// Whether some message replies to `message_id`, which is not the thread's
/// root.
pub open spec fn has_reply(messages: Seq<MessageInfo>, message_id: Seq<char>, thread_id: Option<
    Seq<char>,
>) -> bool {
    Some(message_id) != thread_id && exists|k: int|
        0 <= k < messages.len() && opt_view(#[trigger] messages[k].reply_to) == Some(message_id)
}

/// The message id of a display item; a delegation preview has none.
pub open spec fn item_message_id(item: DisplayItem) -> Option<Seq<char>> {
    match item {
        DisplayItem::SingleMessage { message_id } => Some(message_id@),
        DisplayItem::DelegationPreview { .. } => None,
    }
}

fn opt_eq(a: &Option<String>, b: Option<&str>) -> (r: bool)
    ensures
        r == (opt_view(*a) == opt_str_view(b)),
{
    match (a, b) {
        (Some(x), Some(y)) => str_eq(x.as_str(), y),
        (None, None) => true,
        _ => false,
    }
}

/// Whether the message is shown in the current conversation view.
pub fn message_is_shown(m: &MessageInfo, thread_id: Option<&str>, subthread_root: Option<&str>) -> (r:
    bool)
    ensures
        r == is_shown(*m, opt_str_view(thread_id), opt_str_view(subthread_root)),
{
    match subthread_root {
        Some(root) => opt_eq(&m.reply_to, Some(root)),
        None => {
            let is_root = match thread_id {
                Some(t) => str_eq(m.id.as_str(), t),
                None => false,
            };
            is_root || m.reply_to.is_none() || opt_eq(&m.reply_to, thread_id)
        },
    }
}

/// The positions of the shown messages, in order: the messages that the
/// conversation view groups into rows.
pub fn filter_display_messages(
    messages: &Vec<MessageInfo>,
    thread_id: Option<&str>,
    subthread_root: Option<&str>,
) -> (r: Vec<usize>)
    ensures
        forall|k: int| 0 <= k < r@.len() ==> #[trigger] r@[k] < messages@.len(),
        forall|k: int, l: int| 0 <= k < l < r@.len() ==> #[trigger] r@[k] < #[trigger] r@[l],
        forall|k: int|
            0 <= k < r@.len() ==> is_shown(
                #[trigger] messages@[r@[k] as int],
                opt_str_view(thread_id),
                opt_str_view(subthread_root),
            ),
        forall|i: int|
            0 <= i < messages@.len() && is_shown(
                #[trigger] messages@[i],
                opt_str_view(thread_id),
                opt_str_view(subthread_root),
            ) ==> r@.contains(i as usize),
{
    let n = messages.len();
    let mut r: Vec<usize> = Vec::new();
    let mut i: usize = 0;
    while i < n
        invariant
            n == messages@.len(),
            i <= n,
            forall|k: int| 0 <= k < r@.len() ==> #[trigger] r@[k] < i,
            forall|k: int, l: int| 0 <= k < l < r@.len() ==> #[trigger] r@[k] < #[trigger] r@[l],
            forall|k: int|
                0 <= k < r@.len() ==> is_shown(
                    #[trigger] messages@[r@[k] as int],
                    opt_str_view(thread_id),
                    opt_str_view(subthread_root),
                ),
            forall|j: int|
                0 <= j < i && is_shown(
                    #[trigger] messages@[j],
                    opt_str_view(thread_id),
                    opt_str_view(subthread_root),
                ) ==> r@.contains(j as usize),
        decreases n - i,
    {
        if message_is_shown(&messages[i], thread_id, subthread_root) {
            let ghost before = r@;
            r.push(i);
            proof {
                assert forall|j: int|
                    0 <= j < i + 1 && is_shown(
                        #[trigger] messages@[j],
                        opt_str_view(thread_id),
                        opt_str_view(subthread_root),
                    ) implies r@.contains(j as usize) by {
                    if j < i {
                        let w = choose|w: int| 0 <= w < before.len() && before[w] == j as usize;
                        assert(r@[w] == j as usize);
                    } else {
                        assert(r@[r@.len() - 1] == i);
                    }
                }
            }
        }
        i = i + 1;
    }
    r
}

/// Whether some message replies to `message_id`, when that message is not
/// the thread's root.
pub fn has_replies(messages: &Vec<MessageInfo>, message_id: &str, thread_id: Option<&str>) -> (r: bool)
    ensures
        r == has_reply(messages@, message_id@, opt_str_view(thread_id)),
{
    let is_root = match thread_id {
        Some(t) => str_eq(message_id, t),
        None => false,
    };
    if is_root {
        return false;
    }
    let n = messages.len();
    let mut k: usize = 0;
    while k < n
        invariant
            n == messages@.len(),
            k <= n,
            Some(message_id@) != opt_str_view(thread_id),
            forall|q: int|
                0 <= q < k ==> opt_view(#[trigger] messages@[q].reply_to) != Some(message_id@),
        decreases n - k,
    {
        if opt_eq(&messages[k].reply_to, Some(message_id)) {
            assert(opt_view(messages@[k as int].reply_to) == Some(message_id@));
            return true;
        }
        k = k + 1;
    }
    false
}

/// The message id of a display item; a delegation preview has none.
pub fn get_message_id(item: &DisplayItem) -> (r: Option<String>)
    ensures
        opt_view(r) == item_message_id(*item),
{
    match item {
        DisplayItem::SingleMessage { message_id } => Some(message_id.clone()),
        DisplayItem::DelegationPreview { .. } => None,
    }
}

/// The message a fork starts from, or the status line saying why there is
/// none: no selected row, or a delegation preview.
pub fn fork_message_id(selected: Option<&DisplayItem>) -> (r: Result<String, String>)
    ensures
        match selected {
            None => r matches Err(e) && e@ == "No message selected"@,
            Some(item) => match item_message_id(*item) {
                Some(id) => r matches Ok(m) && m@ == id,
                None => r matches Err(e) && e@ == "Cannot fork from delegation preview"@,
            },
        },
{
    match selected {
        None => Err("No message selected".to_owned()),
        Some(item) => match get_message_id(item) {
            Some(id) => Ok(id),
            None => Err("Cannot fork from delegation preview".to_owned()),
        },
    }
}

/// What Enter does on the selected row: a message with replies opens as a
/// subthread, a delegation preview is entered, anything else does nothing.
pub fn chat_enter_action(
    messages: &Vec<MessageInfo>,
    thread_id: Option<&str>,
    selected: Option<&DisplayItem>,
) -> (r: ChatEnterAction)
    ensures
        match selected {
            None => r is Nothing,
            Some(DisplayItem::SingleMessage { message_id }) => if has_reply(
                messages@,
                message_id@,
                opt_str_view(thread_id),
            ) {
                r matches ChatEnterAction::EnterSubthread { message_id: m } && m@ == message_id@
            } else {
                r is Nothing
            },
            Some(DisplayItem::DelegationPreview { thread_id: t }) => r matches ChatEnterAction::PushDelegation {
                thread_id: d,
            } && d@ == t@,
        },
{
    match selected {
        None => ChatEnterAction::Nothing,
        Some(DisplayItem::SingleMessage { message_id }) => {
            if has_replies(messages, message_id.as_str(), thread_id) {
                ChatEnterAction::EnterSubthread { message_id: message_id.clone() }
            } else {
                ChatEnterAction::Nothing
            }
        },
        Some(DisplayItem::DelegationPreview { thread_id: t }) => ChatEnterAction::PushDelegation {
            thread_id: t.clone(),
        },
    }
}

} // verus!
