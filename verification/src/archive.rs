//! Archiving and its undo: which item an archive toggle applies to, what
//! undo record and status line it leaves, and what undoing it does.
//!
//! The application looks the item up and flips its archived flag; the
//! library decides the rest from the flag's new value.

use vstd::prelude::*;
use vstd::string::*;
use crate::view_state::{AppView, HomeTab};

verus! {

/// A thread or project whose archived flag is toggled.
#[derive(Debug, Clone)]
pub enum ArchiveTarget {
    Thread { thread_id: String, thread_title: String },
    Project { project_a_tag: String, project_name: String },
}

/// The last archive change, kept so that it can be undone.
#[derive(Debug, Clone)]
pub enum UndoAction {
    ThreadArchived { thread_id: String, thread_title: String },
    ThreadUnarchived { thread_id: String, thread_title: String },
    ProjectArchived { project_a_tag: String, project_name: String },
    ProjectUnarchived { project_a_tag: String, project_name: String },
}

/// Where an archive toggle finds its item.
#[derive(Debug, Clone, Copy, PartialEq, Eq, Structural)]
pub enum ArchiveSource {
    /// The project under the sidebar cursor.
    SidebarProject,
    /// The selected row of the conversation hierarchy.
    ConversationList,
    /// The thread of the selected inbox item.
    InboxList,
    /// The thread open in the chat view.
    ChatThread,
    /// The focused home tab holds nothing to archive.
    NotAvailableHere,
    /// The view has nothing to archive.
    NoTarget,
}

/// What undoing the last archive change does.
pub struct UndoStep {
    /// The item whose archived flag is toggled back, if any.
    pub toggle: Option<ArchiveTarget>,
    /// The status line to show.
    pub status: String,
}

/// The source an archive toggle uses in the given view.
pub open spec fn source_for(view: AppView, sidebar_focused: bool, tab: HomeTab) -> ArchiveSource {
    if view == AppView::Home {
        if sidebar_focused {
            ArchiveSource::SidebarProject
        } else if tab == HomeTab::Conversations {
            ArchiveSource::ConversationList
        } else if tab == HomeTab::Inbox {
            ArchiveSource::InboxList
        } else {
            ArchiveSource::NotAvailableHere
        }
    } else if view == AppView::Chat {
        ArchiveSource::ChatThread
    } else {
        ArchiveSource::NoTarget
    }
}

/// The display name of a target: a thread's title or a project's name.
pub open spec fn target_name(t: ArchiveTarget) -> Seq<char> {
    match t {
        ArchiveTarget::Thread { thread_title, .. } => thread_title@,
        ArchiveTarget::Project { project_name, .. } => project_name@,
    }
}

/// The undo record left by toggling `t` to `is_now_archived`.
pub open spec fn undo_record(t: ArchiveTarget, is_now_archived: bool) -> UndoAction {
    match t {
        ArchiveTarget::Thread { thread_id, thread_title } => if is_now_archived {
            UndoAction::ThreadArchived { thread_id, thread_title }
        } else {
            UndoAction::ThreadUnarchived { thread_id, thread_title }
        },
        ArchiveTarget::Project { project_a_tag, project_name } => if is_now_archived {
            UndoAction::ProjectArchived { project_a_tag, project_name }
        } else {
            UndoAction::ProjectUnarchived { project_a_tag, project_name }
        },
    }
}

/// The status line after toggling an item named `name`; `closed` when the
/// tab is closed as well.
pub open spec fn archive_status(name: Seq<char>, is_now_archived: bool, closed: bool) -> Seq<char> {
    (if is_now_archived {
        "Archived"@
    } else {
        "Unarchived"@
    }) + (if closed {
        " and closed: "@
    } else {
        ": "@
    }) + name + " (Ctrl+T u to undo)"@
}

/// The item that undoing `u` toggles back.
pub open spec fn undo_target(u: UndoAction) -> ArchiveTarget {
    match u {
        UndoAction::ThreadArchived { thread_id, thread_title } => ArchiveTarget::Thread {
            thread_id,
            thread_title,
        },
        UndoAction::ThreadUnarchived { thread_id, thread_title } => ArchiveTarget::Thread {
            thread_id,
            thread_title,
        },
        UndoAction::ProjectArchived { project_a_tag, project_name } => ArchiveTarget::Project {
            project_a_tag,
            project_name,
        },
        UndoAction::ProjectUnarchived { project_a_tag, project_name } => ArchiveTarget::Project {
            project_a_tag,
            project_name,
        },
    }
}

/// Whether `u` records an item that was archived.
pub open spec fn undo_was_archive(u: UndoAction) -> bool {
    u is ThreadArchived || u is ProjectArchived
}

/// The status line after undoing `u`.
pub open spec fn undo_status(u: UndoAction) -> Seq<char> {
    (if undo_was_archive(u) {
        "Undone: unarchived "@
    } else {
        "Undone: archived "@
    }) + target_name(undo_target(u))
}

/// The source an archive toggle uses: the sidebar project when the home
/// sidebar has focus, the conversation or inbox list on those home tabs,
/// the open thread in the chat view.
pub fn archive_source(view: AppView, sidebar_focused: bool, tab: HomeTab) -> (r: ArchiveSource)
    ensures
        r == source_for(view, sidebar_focused, tab),
{
    if view == AppView::Home {
        if sidebar_focused {
            ArchiveSource::SidebarProject
        } else if tab == HomeTab::Conversations {
            ArchiveSource::ConversationList
        } else if tab == HomeTab::Inbox {
            ArchiveSource::InboxList
        } else {
            ArchiveSource::NotAvailableHere
        }
    } else if view == AppView::Chat {
        ArchiveSource::ChatThread
    } else {
        ArchiveSource::NoTarget
    }
}

/// The title of an inbox item's thread, or "Conversation" when the thread
/// is not in the store.
pub fn inbox_thread_title(found: Option<String>) -> (r: String)
    ensures
        r@ == match found {
            Some(t) => t@,
            None => "Conversation"@,
        },
{
    match found {
        Some(t) => t,
        None => "Conversation".to_owned(),
    }
}

/// After the application toggled `target` and it is now archived or not,
/// returns the undo record to keep and the status line to show.
pub fn record_archive_toggle(target: ArchiveTarget, is_now_archived: bool, closed: bool) -> (r: (
    UndoAction,
    String,
))
    ensures
        r.0 == undo_record(target, is_now_archived),
        r.1@ == archive_status(target_name(target), is_now_archived, closed),
{
    let mut status = if is_now_archived {
        "Archived".to_owned()
    } else {
        "Unarchived".to_owned()
    };
    if closed {
        status.append(" and closed: ");
    } else {
        status.append(": ");
    }
    let undo = match target {
        ArchiveTarget::Thread { thread_id, thread_title } => {
            status.append(thread_title.as_str());
            if is_now_archived {
                UndoAction::ThreadArchived { thread_id, thread_title }
            } else {
                UndoAction::ThreadUnarchived { thread_id, thread_title }
            }
        },
        ArchiveTarget::Project { project_a_tag, project_name } => {
            status.append(project_name.as_str());
            if is_now_archived {
                UndoAction::ProjectArchived { project_a_tag, project_name }
            } else {
                UndoAction::ProjectUnarchived { project_a_tag, project_name }
            }
        },
    };
    status.append(" (Ctrl+T u to undo)");
    (undo, status)
}

/// What "archive and close" does in a view: in the chat view it archives
/// (or unarchives) the open conversation and closes its tab; elsewhere it
/// does nothing but show why (`Err`).
pub fn archive_and_close_refusal(view: AppView) -> (r: Result<(), &'static str>)
    ensures
        match r {
            Ok(()) => view == AppView::Chat,
            Err(m) => view != AppView::Chat && m@ == "Archive+close only available in chat view"@,
        },
{
    if view != AppView::Chat {
        Err("Archive+close only available in chat view")
    } else {
        Ok(())
    }
}

/// Takes the last undo record and says what undoing it does: toggle its
/// item back, with a status line naming the reverse change; with no record,
/// nothing is toggled and the status says so.
pub fn undo_last_action(last: &mut Option<UndoAction>) -> (r: UndoStep)
    ensures
        *final(last) is None,
        match *old(last) {
            Some(u) => r.toggle == Some(undo_target(u)) && r.status@ == undo_status(u),
            None => r.toggle is None && r.status@ == "Nothing to undo"@,
        },
{
    let action = match last.take() {
        Some(a) => a,
        None => {
            return UndoStep { toggle: None, status: "Nothing to undo".to_owned() };
        },
    };
    match action {
        UndoAction::ThreadArchived { thread_id, thread_title } => {
            let mut status = "Undone: unarchived ".to_owned();
            status.append(thread_title.as_str());
            UndoStep { toggle: Some(ArchiveTarget::Thread { thread_id, thread_title }), status }
        },
        UndoAction::ThreadUnarchived { thread_id, thread_title } => {
            let mut status = "Undone: archived ".to_owned();
            status.append(thread_title.as_str());
            UndoStep { toggle: Some(ArchiveTarget::Thread { thread_id, thread_title }), status }
        },
        UndoAction::ProjectArchived { project_a_tag, project_name } => {
            let mut status = "Undone: unarchived ".to_owned();
            status.append(project_name.as_str());
            UndoStep {
                toggle: Some(ArchiveTarget::Project { project_a_tag, project_name }),
                status,
            }
        },
        UndoAction::ProjectUnarchived { project_a_tag, project_name } => {
            let mut status = "Undone: archived ".to_owned();
            status.append(project_name.as_str());
            UndoStep {
                toggle: Some(ArchiveTarget::Project { project_a_tag, project_name }),
                status,
            }
        },
    }
}

/// Undoing the record that an archive toggle left toggles the very same
/// item back, and its status names the reverse of the change: "unarchived"
/// after an archive, "archived" after an unarchive.
pub proof fn lemma_undo_reverses_toggle(target: ArchiveTarget, is_now_archived: bool)
    ensures
        undo_target(undo_record(target, is_now_archived)) == target,
        undo_was_archive(undo_record(target, is_now_archived)) == is_now_archived,
        undo_status(undo_record(target, is_now_archived)) == (if is_now_archived {
            "Undone: unarchived "@
        } else {
            "Undone: archived "@
        }) + target_name(target),
{
}

} // verus!
