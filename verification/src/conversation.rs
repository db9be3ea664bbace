//! Texts for new conversations that reference or fork the current one,
//! and the status lines that follow.

use vstd::prelude::*;
use vstd::string::*;
use crate::text::{
    byte_prefix, byte_prefix_chars, cuts_at_boundary, decimal, first_chars, min_len, push_decimal,
    take_chars,
};

verus! {

/// The short form of a conversation or message id: its first 12 characters.
pub open spec fn short_id_of(id: Seq<char>) -> Seq<char> {
    take_chars(id, 12)
}

/// The total length in bytes of some texts.
pub open spec fn total_bytes(texts: Seq<&str>) -> nat
    decreases texts.len(),
{
    if texts.len() == 0 {
        0
    } else {
        total_bytes(texts.drop_last()) + texts.last().spec_bytes().len()
    }
}

/// The text attached to a conversation that references another one.
pub open spec fn reference_message(thread_id: Option<Seq<char>>, approx_tokens: nat) -> Seq<char> {
    let short = match thread_id {
        Some(id) => short_id_of(id),
        None => "unknown"@,
    };
    "This message is in the context of conversation id "@ + short
        + ". Your first task is to inspect that conversation with conversation_get to understand the context we're working from. The conversation is approximately "@
        + decimal(approx_tokens) + " tokens."@
}

/// The text attached to a conversation forked from a message of another one.
pub open spec fn fork_message(thread_id: Option<Seq<char>>, fork_message_id: Seq<char>) -> Seq<
    char,
> {
    let sc = match thread_id {
        Some(id) => short_id_of(id),
        None => Seq::<char>::empty(),
    };
    let sf = short_id_of(fork_message_id);
    "This conversation is forked from conversation id "@ + sc + " starting at message id "@ + sf
        + ". Your first task is to inspect that conversation slice with conversation_get(conversationId: \""@
        + sc + "\", sinceId: \""@ + sf + "\") to understand the context we're working from."@
}

/// The first 8 bytes of an id, as shown in status lines.
pub open spec fn id_head(id: &str) -> Seq<char> {
    byte_prefix_chars(id, min_len(id, 8))
}

/// The short form of an id: its first 12 characters.
pub fn short_id(id: &str) -> (r: String)
    ensures
        r@ == short_id_of(id@),
{
    first_chars(id, 12)
}

/// The approximate token count of a conversation: its length in bytes,
/// divided by four.
pub fn approx_token_count(contents: &Vec<&str>) -> (r: usize)
    requires
        total_bytes(contents@) <= usize::MAX,
    ensures
        r == total_bytes(contents@) / 4,
{
    let n = contents.len();
    let mut total: usize = 0;
    let mut i: usize = 0;
    while i < n
        invariant
            n == contents@.len(),
            i <= n,
            total == total_bytes(contents@.take(i as int)),
            total_bytes(contents@) <= usize::MAX,
        decreases n - i,
    {
        proof {
            assert(contents@.take(i + 1).drop_last() =~= contents@.take(i as int));
            lemma_total_bytes_prefix(contents@, i + 1);
        }
        total = total + contents[i].as_bytes().len();
        i = i + 1;
    }
    proof {
        assert(contents@.take(n as int) =~= contents@);
    }
    total / 4
}

proof fn lemma_total_bytes_prefix(texts: Seq<&str>, k: int)
    requires
        0 <= k <= texts.len(),
    ensures
        total_bytes(texts.take(k)) <= total_bytes(texts),
    decreases texts.len(),
{
    if k < texts.len() {
        assert(texts.drop_last().take(k) =~= texts.take(k));
        lemma_total_bytes_prefix(texts.drop_last(), k);
    } else {
        assert(texts.take(k) =~= texts);
    }
}

/// The text attached to a new conversation that references the current
/// one: its short id ("unknown" without one) and its size in tokens.
pub fn reference_context_message(thread_id: Option<&str>, approx_tokens: usize) -> (r: String)
    ensures
        r@ == reference_message(
            match thread_id {
                Some(id) => Some(id@),
                None => None,
            },
            approx_tokens as nat,
        ),
{
    let short = match thread_id {
        Some(id) => short_id(id),
        None => "unknown".to_owned(),
    };
    let mut r = "This message is in the context of conversation id ".to_owned();
    r.append(short.as_str());
    r.append(
        ". Your first task is to inspect that conversation with conversation_get to understand the context we're working from. The conversation is approximately ",
    );
    push_decimal(&mut r, approx_tokens);
    r.append(" tokens.");
    r
}

/// The status line after opening a conversation that references another.
pub fn reference_status(source_thread_id: &str, approx_tokens: usize) -> (r: String)
    requires
        cuts_at_boundary(source_thread_id, 8),
    ensures
        r@ == "New conversation referencing "@ + id_head(source_thread_id) + " (~"@ + decimal(
            approx_tokens as nat,
        ) + " tokens)"@,
{
    let mut r = "New conversation referencing ".to_owned();
    r.append(byte_prefix(source_thread_id, 8));
    r.append(" (~");
    push_decimal(&mut r, approx_tokens);
    r.append(" tokens)");
    r
}

/// The text attached to a conversation forked from a message: the short
/// ids of the conversation (empty without one) and of the message.
pub fn fork_context_message(thread_id: Option<&str>, fork_message_id: &str) -> (r: String)
    ensures
        r@ == fork_message(
            match thread_id {
                Some(id) => Some(id@),
                None => None,
            },
            fork_message_id@,
        ),
{
    let sc = match thread_id {
        Some(id) => short_id(id),
        None => String::new(),
    };
    let sf = short_id(fork_message_id);
    let mut r = "This conversation is forked from conversation id ".to_owned();
    r.append(sc.as_str());
    r.append(" starting at message id ");
    r.append(sf.as_str());
    r.append(
        ". Your first task is to inspect that conversation slice with conversation_get(conversationId: \"",
    );
    r.append(sc.as_str());
    r.append("\", sinceId: \"");
    r.append(sf.as_str());
    r.append("\") to understand the context we're working from.");
    r
}

/// The status line after forking a conversation at a message.
pub fn fork_status(source_thread_id: &str, fork_message_id: &str) -> (r: String)
    requires
        cuts_at_boundary(source_thread_id, 8),
        cuts_at_boundary(fork_message_id, 8),
    ensures
        r@ == "New conversation forked from "@ + id_head(source_thread_id) + " at message "@
            + id_head(fork_message_id),
{
    let mut r = "New conversation forked from ".to_owned();
    r.append(byte_prefix(source_thread_id, 8));
    r.append(" at message ");
    r.append(byte_prefix(fork_message_id, 8));
    r
}

/// Why a contextual draft cannot be opened: without a selected thread the
/// given message, without a selected project "No project selected".
pub fn contextual_draft_blocker(has_thread: bool, has_project: bool, no_thread_message: &str) -> (r:
    Option<String>)
    ensures
        match r {
            Some(m) => if !has_thread {
                m@ == no_thread_message@
            } else {
                !has_project && m@ == "No project selected"@
            },
            None => has_thread && has_project,
        },
{
    if !has_thread {
        Some(no_thread_message.to_owned())
    } else if !has_project {
        Some("No project selected".to_owned())
    } else {
        None
    }
}

/// What sending the editor's content does.
#[derive(Debug, Clone)]
pub enum SendPlan {
    /// Empty content is not sent.
    Nothing,
    /// Reply in the selected thread, to this event.
    Reply { reply_to: String },
    /// Start a new thread with this title.
    NewThread { title: String },
}

/// The first line of a text, as `str::lines().next()` gives it: up to the
/// first `\n`, without the `\r` of a `\r\n`.
pub open spec fn first_line(text: Seq<char>) -> Seq<char> {
    if exists|i: int| 0 <= i < text.len() && text[i] == '\n' {
        let i = choose|i: int|
            0 <= i < text.len() && text[i] == '\n' && forall|j: int| 0 <= j < i ==> text[j] != '\n';
        if i > 0 && text[i - 1] == '\r' {
            text.take(i - 1)
        } else {
            text.take(i)
        }
    } else {
        text
    }
}

/// The title of a new thread: the first line of its content.
pub fn thread_title(content: &str) -> (r: String)
    ensures
        r@ == first_line(content@),
{
    let n = content.unicode_len();
    let mut i: usize = 0;
    while i < n && content.get_char(i) != '\n'
        invariant
            n == content@.len(),
            i <= n,
            forall|j: int| 0 <= j < i ==> content@[j] != '\n',
        decreases n - i,
    {
        i = i + 1;
    }
    if i == n {
        proof {
            assert(content@.subrange(0, n as int) =~= content@);
        }
        return content.substring_char(0, n).to_owned();
    }
    proof {
        let w = choose|w: int|
            0 <= w < content@.len() && content@[w] == '\n' && forall|j: int|
                0 <= j < w ==> content@[j] != '\n';
        assert(content@[i as int] == '\n');
        if w < i {
        } else if w > i {
            assert(content@[i as int] != '\n');
        }
    }
    let end = if i > 0 && content.get_char(i - 1) == '\r' {
        i - 1
    } else {
        i
    };
    content.substring_char(0, end).to_owned()
}

/// What sending the editor's content does: nothing for empty content; in a
/// selected thread, a reply to the open subthread's root or else to the
/// thread; without one, a new thread titled by the content's first line.
pub fn send_message_plan(content: &str, selected_thread_id: Option<&str>, subthread_root: Option<&str>) -> (r:
    SendPlan)
    ensures
        content@.len() == 0 ==> r is Nothing,
        content@.len() > 0 ==> match selected_thread_id {
            Some(t) => r matches SendPlan::Reply { reply_to } && reply_to@ == match subthread_root {
                Some(root) => root@,
                None => t@,
            },
            None => r matches SendPlan::NewThread { title } && title@ == first_line(content@),
        },
{
    if content.is_empty() {
        return SendPlan::Nothing;
    }
    match selected_thread_id {
        Some(t) => {
            let reply_to = match subthread_root {
                Some(root) => root.to_owned(),
                None => t.to_owned(),
            };
            SendPlan::Reply { reply_to }
        },
        None => SendPlan::NewThread { title: thread_title(content) },
    }
}

} // verus!
