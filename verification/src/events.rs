//! Decisions the event loop makes between frames: what an arriving message
//! does (waiting marks, notices, a spoken notification, following the
//! conversation), whether a reply gets an audio notification, which tabs
//! show a working agent, which thread a pending new conversation became,
//! and the backend approval modal's keys and choices.

use vstd::prelude::*;
use vstd::string::*;
use crate::text::{byte_prefix, cuts_at_boundary, str_eq};
use crate::conversation::id_head;
use crate::seq_facts::lemma_filter_push;
use crate::messages::opt_str_view;
use crate::keys::Key;

verus! {

/// The audio notification settings and credentials, as the loop reads them.
#[derive(Debug, Clone, Copy)]
pub struct AudioSettings {
    pub enabled: bool,
    /// Seconds of user inactivity in a thread before its replies are spoken.
    pub inactivity_threshold_secs: u64,
    pub has_elevenlabs_key: bool,
    pub has_openrouter_key: bool,
    /// Number of configured voices.
    pub voice_count: usize,
    pub has_openrouter_model: bool,
}

/// Whether a reply is turned into an audio notification, or why not.
#[derive(Debug, Clone, Copy, PartialEq, Eq, Structural)]
pub enum AudioDecision {
    Disabled,
    /// The user was active in the thread this many seconds ago.
    UserRecentlyActive { seconds_ago: u64 },
    MissingElevenLabsKey,
    MissingOpenRouterKey,
    NoVoices,
    NoModel,
    Generate,
}

/// An open tab, with the count of agents working in its thread.
#[derive(Debug, Clone)]
pub struct TabInfo {
    pub is_conversation: bool,
    pub thread_id: String,
    pub working_agent_count: usize,
}

/// A backend approval choice.
#[derive(Debug, Clone, Copy, PartialEq, Eq, Structural)]
pub enum BackendApprovalAction {
    Approve,
    Reject,
    Block,
}

/// What a backend approval choice does.
pub struct BackendApprovalStep {
    /// Close the approval modal.
    pub close_modal: bool,
    /// Trust the backend.
    pub approve: bool,
    /// Block the backend.
    pub block: bool,
    /// The status line to show, if any.
    pub status: Option<String>,
}

/// The audio decision for a reply in a thread last used at `last_activity`
/// (seconds since the epoch), at time `now`.
pub open spec fn audio_decision(s: AudioSettings, last_activity: Option<u64>, now: u64) -> AudioDecision {
    let idle = match last_activity {
        Some(t) => if now >= t {
            (now - t) as u64
        } else {
            0u64
        },
        None => 0u64,
    };
    if !s.enabled {
        AudioDecision::Disabled
    } else if last_activity is Some && idle < s.inactivity_threshold_secs {
        AudioDecision::UserRecentlyActive { seconds_ago: idle }
    } else if !s.has_elevenlabs_key {
        AudioDecision::MissingElevenLabsKey
    } else if !s.has_openrouter_key {
        AudioDecision::MissingOpenRouterKey
    } else if s.voice_count == 0 {
        AudioDecision::NoVoices
    } else if !s.has_openrouter_model {
        AudioDecision::NoModel
    } else {
        AudioDecision::Generate
    }
}

/// Whether a tab's working state is tracked: a conversation with a thread.
pub open spec fn tracks_working(t: TabInfo) -> bool {
    t.is_conversation && t.thread_id@.len() > 0
}

/// The working-state update for a tracked tab.
pub open spec fn working_update(t: TabInfo) -> (String, bool) {
    (t.thread_id, t.working_agent_count > 0)
}

/// The updates for all tabs, in tab order.
pub open spec fn working_updates(tabs: Seq<TabInfo>) -> Seq<(String, bool)> {
    tabs.filter(|t: TabInfo| tracks_working(t)).map_values(|t: TabInfo| working_update(t))
}

/// Decides whether a reply is turned into an audio notification: not when
/// disabled, not when the user was active in the thread within the
/// threshold, not without both API keys, voices and a model.
pub fn audio_notification_decision(settings: &AudioSettings, last_activity: Option<u64>, now: u64) -> (r:
    AudioDecision)
    ensures
        r == audio_decision(*settings, last_activity, now),
{
    if !settings.enabled {
        return AudioDecision::Disabled;
    }
    match last_activity {
        Some(t) => {
            let idle = now.saturating_sub(t);
            if idle < settings.inactivity_threshold_secs {
                return AudioDecision::UserRecentlyActive { seconds_ago: idle };
            }
        },
        None => {},
    }
    if !settings.has_elevenlabs_key {
        AudioDecision::MissingElevenLabsKey
    } else if !settings.has_openrouter_key {
        AudioDecision::MissingOpenRouterKey
    } else if settings.voice_count == 0 {
        AudioDecision::NoVoices
    } else if !settings.has_openrouter_model {
        AudioDecision::NoModel
    } else {
        AudioDecision::Generate
    }
}

/// The working flag of each conversation tab with a thread: whether any
/// agent works in its thread.
pub fn sync_tab_working_state(tabs: &Vec<TabInfo>) -> (r: Vec<(String, bool)>)
    ensures
        r@ == working_updates(tabs@),
{
    let n = tabs.len();
    let mut r: Vec<(String, bool)> = Vec::new();
    let mut i: usize = 0;
    let ghost f = |t: TabInfo| tracks_working(t);
    let ghost g = |t: TabInfo| working_update(t);
    while i < n
        invariant
            n == tabs@.len(),
            i <= n,
            f == (|t: TabInfo| tracks_working(t)),
            g == (|t: TabInfo| working_update(t)),
            r@ == tabs@.take(i as int).filter(f).map_values(g),
        decreases n - i,
    {
        let tab = &tabs[i];
        proof {
            assert(tabs@.take(i + 1) =~= tabs@.take(i as int).push(tabs@[i as int]));
            lemma_filter_push(tabs@.take(i as int), f, tabs@[i as int]);
        }
        if tab.is_conversation && tab.thread_id.as_str().unicode_len() > 0 {
            let ghost before = r@;
            r.push((tab.thread_id.clone(), tab.working_agent_count > 0));
            proof {
                assert(r@ =~= tabs@.take(i + 1).filter(f).map_values(g));
            }
        }
        i = i + 1;
    }
    proof {
        assert(tabs@.take(n as int) =~= tabs@);
    }
    r
}

/// The first thread (in the store's order, most recent first) written by
/// the user: the conversation a pending "new thread" turned into.
pub fn find_user_thread(thread_authors: &Vec<String>, user_pubkey: &str) -> (r: Option<usize>)
    ensures
        match r {
            Some(i) => i < thread_authors@.len() && thread_authors@[i as int]@ == user_pubkey@
                && forall|j: int| 0 <= j < i ==> #[trigger] thread_authors@[j]@ != user_pubkey@,
            None => forall|j: int|
                0 <= j < thread_authors@.len() ==> #[trigger] thread_authors@[j]@ != user_pubkey@,
        },
{
    let n = thread_authors.len();
    let mut i: usize = 0;
    while i < n
        invariant
            n == thread_authors@.len(),
            i <= n,
            forall|j: int| 0 <= j < i ==> #[trigger] thread_authors@[j]@ != user_pubkey@,
        decreases n - i,
    {
        if str_eq(thread_authors[i].as_str(), user_pubkey) {
            return Some(i);
        }
        i = i + 1;
    }
    None
}

/// What a backend approval choice does: approving or blocking records the
/// choice and says so with the backend's short key; rejecting only
/// dismisses the modal.
pub fn execute_backend_approval_action(action: BackendApprovalAction, backend_pubkey: &str) -> (r:
    BackendApprovalStep)
    requires
        cuts_at_boundary(backend_pubkey, 8),
    ensures
        r.close_modal,
        r.approve == (action == BackendApprovalAction::Approve),
        r.block == (action == BackendApprovalAction::Block),
        match action {
            BackendApprovalAction::Approve => r.status matches Some(m) && m@ == "Approved backend "@
                + id_head(backend_pubkey) + "..."@,
            BackendApprovalAction::Block => r.status matches Some(m) && m@ == "Blocked backend "@
                + id_head(backend_pubkey) + "..."@,
            BackendApprovalAction::Reject => r.status is None,
        },
{
    match action {
        BackendApprovalAction::Approve => {
            let mut m = "Approved backend ".to_owned();
            m.append(byte_prefix(backend_pubkey, 8));
            m.append("...");
            BackendApprovalStep { close_modal: true, approve: true, block: false, status: Some(m) }
        },
        BackendApprovalAction::Reject => BackendApprovalStep {
            close_modal: true,
            approve: false,
            block: false,
            status: None,
        },
        BackendApprovalAction::Block => {
            let mut m = "Blocked backend ".to_owned();
            m.append(byte_prefix(backend_pubkey, 8));
            m.append("...");
            BackendApprovalStep { close_modal: true, approve: false, block: true, status: Some(m) }
        },
    }
}

/// What the loop does when a message of a conversation arrives.
pub struct MessageArrival {
    /// The conversation now waits for the user: the message names the user
    /// and is not the user's own.
    pub waiting_for_user: bool,
    /// The status-bar notice, when the user is waited for in a conversation
    /// that is not on screen.
    pub notification: Option<String>,
    /// Ask for a spoken notification of the message.
    pub speak: bool,
    /// The conversation is on screen: scroll to its end and refresh its
    /// sidebar and pending question.
    pub follow: bool,
    /// Make the replying agent the selected one.
    pub sync_agent: bool,
}

/// Whether one of the message's p-tags is the user's key.
pub open spec fn tags_user(p_tags: Seq<String>, user: Seq<char>) -> bool {
    exists|i: int| 0 <= i < p_tags.len() && #[trigger] p_tags[i]@ == user
}

/// Whether the conversation waits for the user after the message.
pub open spec fn waits_for_user(user: Option<Seq<char>>, author: Seq<char>, p_tags: Seq<String>) -> bool {
    match user {
        Some(pk) => author != pk && tags_user(p_tags, pk),
        None => false,
    }
}

/// The notice for a message that waits for the user.
pub open spec fn message_for_user_notice(title: Option<Seq<char>>) -> Seq<char> {
    "@ Message for you in "@ + (match title {
        Some(t) => t,
        None => "conversation"@,
    }) + " \u{b7} Alt+M to open"@
}

fn tags_include(p_tags: &Vec<String>, user: &str) -> (r: bool)
    ensures
        r == tags_user(p_tags@, user@),
{
    let mut i: usize = 0;
    while i < p_tags.len()
        invariant
            i <= p_tags@.len(),
            forall|j: int| 0 <= j < i ==> #[trigger] p_tags@[j]@ != user@,
        decreases p_tags@.len() - i,
    {
        if str_eq(p_tags[i].as_str(), user) {
            return true;
        }
        i = i + 1;
    }
    false
}

/// What the loop does with an arriving message of thread `T`:
/// `user_pubkey` is the logged-in user's key, `author` the message's,
/// `viewing_thread` whether `T` is on screen, `agent_chosen_by_user`
/// whether the user picked the agent by hand, and `thread_title` the title
/// of `T` when the store has it.
pub fn message_arrival(
    user_pubkey: Option<&str>,
    author: &str,
    p_tags: &Vec<String>,
    viewing_thread: bool,
    agent_chosen_by_user: bool,
    thread_title: Option<&str>,
) -> (r: MessageArrival)
    ensures
        r.waiting_for_user == waits_for_user(opt_str_view(user_pubkey), author@, p_tags@),
        r.speak == r.waiting_for_user,
        match r.notification {
            Some(m) => r.waiting_for_user && !viewing_thread && m@ == message_for_user_notice(
                opt_str_view(thread_title),
            ),
            None => !(r.waiting_for_user && !viewing_thread),
        },
        r.follow == viewing_thread,
        r.sync_agent == (viewing_thread && !agent_chosen_by_user && match user_pubkey {
            Some(pk) => author@ != pk@,
            None => true,
        }),
{
    let (waiting, from_agent) = match user_pubkey {
        Some(pk) => {
            let own = str_eq(author, pk);
            (!own && tags_include(p_tags, pk), !own)
        },
        None => (false, true),
    };
    let notification = if waiting && !viewing_thread {
        let mut m = "@ Message for you in ".to_owned();
        match thread_title {
            Some(t) => m.append(t),
            None => m.append("conversation"),
        }
        m.append(" \u{b7} Alt+M to open");
        Some(m)
    } else {
        None
    };
    MessageArrival {
        waiting_for_user: waiting,
        notification,
        speak: waiting,
        follow: viewing_thread,
        sync_agent: viewing_thread && !agent_chosen_by_user && from_agent,
    }
}

/// What a key does in the backend approval modal.
#[derive(Debug, Clone, Copy, PartialEq, Eq, Structural)]
pub enum BackendApprovalKey {
    /// Close the modal; the backend is asked about again later.
    Dismiss,
    /// Move the selection to this choice.
    MoveTo(usize),
    /// Carry out the selected choice.
    ExecuteSelected,
    Execute(BackendApprovalAction),
    Nothing,
}

/// The number of choices the backend approval modal lists.
pub const BACKEND_APPROVAL_CHOICES: usize = 3;

/// What a key does in the backend approval modal with choice `selected`
/// selected: Escape dismisses, Up/`k` and Down/`j` move within the choices,
/// Enter carries out the selected one, and `a`, `r`, `b` approve, reject
/// and block directly.
pub open spec fn backend_approval_key(selected: usize, key: Key) -> BackendApprovalKey {
    match key {
        Key::Esc => BackendApprovalKey::Dismiss,
        Key::Up | Key::Char('k') => if selected > 0 {
            BackendApprovalKey::MoveTo((selected - 1) as usize)
        } else {
            BackendApprovalKey::Nothing
        },
        Key::Down | Key::Char('j') => if selected + 1 < BACKEND_APPROVAL_CHOICES {
            BackendApprovalKey::MoveTo((selected + 1) as usize)
        } else {
            BackendApprovalKey::Nothing
        },
        Key::Enter => BackendApprovalKey::ExecuteSelected,
        Key::Char('a') => BackendApprovalKey::Execute(BackendApprovalAction::Approve),
        Key::Char('r') => BackendApprovalKey::Execute(BackendApprovalAction::Reject),
        Key::Char('b') => BackendApprovalKey::Execute(BackendApprovalAction::Block),
        _ => BackendApprovalKey::Nothing,
    }
}

/// The backend approval modal's keys.
pub fn handle_backend_approval_modal_key(selected: usize, key: Key) -> (r: BackendApprovalKey)
    ensures
        r == backend_approval_key(selected, key),
{
    match key {
        Key::Esc => BackendApprovalKey::Dismiss,
        Key::Up | Key::Char('k') => if selected > 0 {
            BackendApprovalKey::MoveTo(selected - 1)
        } else {
            BackendApprovalKey::Nothing
        },
        Key::Down | Key::Char('j') => if selected < BACKEND_APPROVAL_CHOICES - 1 {
            BackendApprovalKey::MoveTo(selected + 1)
        } else {
            BackendApprovalKey::Nothing
        },
        Key::Enter => BackendApprovalKey::ExecuteSelected,
        Key::Char('a') => BackendApprovalKey::Execute(BackendApprovalAction::Approve),
        Key::Char('r') => BackendApprovalKey::Execute(BackendApprovalAction::Reject),
        Key::Char('b') => BackendApprovalKey::Execute(BackendApprovalAction::Block),
        _ => BackendApprovalKey::Nothing,
    }
}

/// The backend whose approval the modal asks for, from the approvals that
/// were waiting (and are all taken from the store): the first one, when no
/// other modal is open; none otherwise, and the store keeps them.
pub fn approval_to_show(no_modal_open: bool, pending: Vec<String>) -> (r: Option<String>)
    ensures
        match r {
            Some(b) => no_modal_open && pending@.len() > 0 && b@ == pending@[0]@,
            None => !no_modal_open || pending@.len() == 0,
        },
{
    if !no_modal_open {
        return None;
    }
    let mut pending = pending;
    if pending.len() > 0 {
        Some(pending.remove(0))
    } else {
        None
    }
}

} // verus!
