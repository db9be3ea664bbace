//! The report viewer: switching between the current text and the changes,
//! walking through a report's versions, scrolling, the thread list beside
//! the report, and the copy menu.

use vstd::prelude::*;
use vstd::string::*;
use crate::keys::Key;
use crate::raw_event::{pretty_event_json, pretty_json};
use crate::messages::opt_view;

verus! {

/// What the viewer shows of the report.
#[derive(Debug, Clone, Copy, PartialEq, Eq, Structural)]
pub enum ReportViewMode {
    Current,
    Changes,
}

/// The pane with focus.
#[derive(Debug, Clone, Copy, PartialEq, Eq, Structural)]
pub enum ReportViewerFocus {
    Content,
    Threads,
}

/// The report viewer's state that keys change.
#[derive(Debug, Clone, Copy, PartialEq, Eq, Structural)]
pub struct ReportViewerState {
    pub view_mode: ReportViewMode,
    pub focus: ReportViewerFocus,
    pub show_threads: bool,
    pub show_copy_menu: bool,
    pub copy_menu_index: usize,
    /// Which version is shown: 0 is the newest.
    pub version_index: usize,
    pub content_scroll: usize,
    pub selected_thread_index: usize,
}

/// What a key in the report viewer asks of the application.
#[derive(Debug, Clone, Copy, PartialEq, Eq, Structural)]
pub enum ReportViewerAction {
    Close,
    /// Show the report version at this index.
    LoadVersion(usize),
    /// Copy the copy menu's option at this row.
    CopyOption(usize),
    /// Open the report's thread at this row, if it exists, and close.
    OpenThread(usize),
    /// Show that creating threads is not available.
    ThreadCreationUnavailable,
    Updated,
    Ignore,
}

/// What a key does in the report viewer and the state after it;
/// `versions` counts the report's versions.
pub open spec fn report_viewer_step(st: ReportViewerState, key: Key, versions: usize) -> (
    ReportViewerAction,
    ReportViewerState,
) {
    let up = match st.focus {
        ReportViewerFocus::Content => ReportViewerState {
            content_scroll: if st.content_scroll > 0 {
                (st.content_scroll - 1) as usize
            } else {
                0
            },
            ..st
        },
        ReportViewerFocus::Threads => ReportViewerState {
            selected_thread_index: if st.selected_thread_index > 0 {
                (st.selected_thread_index - 1) as usize
            } else {
                0
            },
            ..st
        },
    };
    let down = match st.focus {
        ReportViewerFocus::Content => ReportViewerState {
            content_scroll: (st.content_scroll + 1) as usize,
            ..st
        },
        ReportViewerFocus::Threads => ReportViewerState {
            selected_thread_index: (st.selected_thread_index + 1) as usize,
            ..st
        },
    };
    let left = ReportViewerState { focus: ReportViewerFocus::Content, ..st };
    let right = if st.show_threads {
        ReportViewerState { focus: ReportViewerFocus::Threads, ..st }
    } else {
        st
    };
    match key {
        Key::Esc => if st.show_copy_menu {
            (ReportViewerAction::Updated, ReportViewerState { show_copy_menu: false, ..st })
        } else {
            (ReportViewerAction::Close, st)
        },
        Key::Tab => (
            ReportViewerAction::Updated,
            ReportViewerState {
                view_mode: if st.view_mode == ReportViewMode::Current {
                    ReportViewMode::Changes
                } else {
                    ReportViewMode::Current
                },
                ..st
            },
        ),
        Key::Left => (ReportViewerAction::Updated, left),
        Key::Right => (ReportViewerAction::Updated, right),
        Key::Up => (ReportViewerAction::Updated, up),
        Key::Down => (ReportViewerAction::Updated, down),
        Key::Enter => if st.show_copy_menu {
            (
                ReportViewerAction::CopyOption(st.copy_menu_index),
                ReportViewerState { show_copy_menu: false, ..st },
            )
        } else if st.focus == ReportViewerFocus::Threads {
            (ReportViewerAction::OpenThread(st.selected_thread_index), st)
        } else {
            (ReportViewerAction::Ignore, st)
        },
        Key::Char(c) => if c == 't' {
            (ReportViewerAction::Updated, ReportViewerState { show_threads: !st.show_threads, ..st })
        } else if c == 'h' {
            (ReportViewerAction::Updated, left)
        } else if c == 'l' {
            (ReportViewerAction::Updated, right)
        } else if c == 'y' {
            (
                ReportViewerAction::Updated,
                ReportViewerState { show_copy_menu: !st.show_copy_menu, ..st },
            )
        } else if c == '[' {
            if st.version_index + 1 < versions {
                let v = (st.version_index + 1) as usize;
                (
                    ReportViewerAction::LoadVersion(v),
                    ReportViewerState { version_index: v, content_scroll: 0, ..st },
                )
            } else {
                (ReportViewerAction::Ignore, st)
            }
        } else if c == ']' {
            if st.version_index > 0 {
                let v = (st.version_index - 1) as usize;
                if v < versions {
                    (
                        ReportViewerAction::LoadVersion(v),
                        ReportViewerState { version_index: v, content_scroll: 0, ..st },
                    )
                } else {
                    (ReportViewerAction::Updated, ReportViewerState { version_index: v, ..st })
                }
            } else {
                (ReportViewerAction::Ignore, st)
            }
        } else if c == 'k' {
            (ReportViewerAction::Updated, up)
        } else if c == 'j' {
            (ReportViewerAction::Updated, down)
        } else if c == 'n' {
            if st.focus == ReportViewerFocus::Threads || st.show_threads {
                (ReportViewerAction::ThreadCreationUnavailable, st)
            } else {
                (ReportViewerAction::Ignore, st)
            }
        } else {
            (ReportViewerAction::Ignore, st)
        },
        _ => (ReportViewerAction::Ignore, st),
    }
}

/// Scrolling or moving down only works while the offset fits a `usize`.
pub open spec fn can_move_down(st: ReportViewerState) -> bool {
    match st.focus {
        ReportViewerFocus::Content => st.content_scroll < usize::MAX,
        ReportViewerFocus::Threads => st.selected_thread_index < usize::MAX,
    }
}

fn move_down(st: &mut ReportViewerState)
    requires
        can_move_down(*old(st)),
    ensures
        *final(st) == report_viewer_step(*old(st), Key::Down, 0).1,
{
    match st.focus {
        ReportViewerFocus::Content => st.content_scroll = st.content_scroll + 1,
        ReportViewerFocus::Threads => st.selected_thread_index = st.selected_thread_index + 1,
    }
}

fn move_up(st: &mut ReportViewerState)
    ensures
        *final(st) == report_viewer_step(*old(st), Key::Up, 0).1,
{
    match st.focus {
        ReportViewerFocus::Content => st.content_scroll = st.content_scroll.saturating_sub(1),
        ReportViewerFocus::Threads => if st.selected_thread_index > 0 {
            st.selected_thread_index = st.selected_thread_index - 1;
        },
    }
}

/// Handles a key in the report viewer. Moving down requires the offset
/// to fit a `usize` after the move.
pub fn handle_report_viewer_modal_key(st: &mut ReportViewerState, key: Key, versions: usize) -> (r:
    ReportViewerAction)
    requires
        key == Key::Down || key == Key::Char('j') ==> can_move_down(*old(st)),
    ensures
        (r, *final(st)) == report_viewer_step(*old(st), key, versions),
{
    match key {
        Key::Esc => if st.show_copy_menu {
            st.show_copy_menu = false;
            ReportViewerAction::Updated
        } else {
            ReportViewerAction::Close
        },
        Key::Tab => {
            st.view_mode = if st.view_mode == ReportViewMode::Current {
                ReportViewMode::Changes
            } else {
                ReportViewMode::Current
            };
            ReportViewerAction::Updated
        },
        Key::Left => {
            st.focus = ReportViewerFocus::Content;
            ReportViewerAction::Updated
        },
        Key::Right => {
            if st.show_threads {
                st.focus = ReportViewerFocus::Threads;
            }
            ReportViewerAction::Updated
        },
        Key::Up => {
            move_up(st);
            ReportViewerAction::Updated
        },
        Key::Down => {
            move_down(st);
            ReportViewerAction::Updated
        },
        Key::Enter => if st.show_copy_menu {
            st.show_copy_menu = false;
            ReportViewerAction::CopyOption(st.copy_menu_index)
        } else if st.focus == ReportViewerFocus::Threads {
            ReportViewerAction::OpenThread(st.selected_thread_index)
        } else {
            ReportViewerAction::Ignore
        },
        Key::Char(c) => if c == 't' {
            st.show_threads = !st.show_threads;
            ReportViewerAction::Updated
        } else if c == 'h' {
            st.focus = ReportViewerFocus::Content;
            ReportViewerAction::Updated
        } else if c == 'l' {
            if st.show_threads {
                st.focus = ReportViewerFocus::Threads;
            }
            ReportViewerAction::Updated
        } else if c == 'y' {
            st.show_copy_menu = !st.show_copy_menu;
            ReportViewerAction::Updated
        } else if c == '[' {
            if versions > 0 && st.version_index < versions - 1 {
                st.version_index = st.version_index + 1;
                st.content_scroll = 0;
                ReportViewerAction::LoadVersion(st.version_index)
            } else {
                ReportViewerAction::Ignore
            }
        } else if c == ']' {
            if st.version_index > 0 {
                st.version_index = st.version_index - 1;
                if st.version_index < versions {
                    st.content_scroll = 0;
                    ReportViewerAction::LoadVersion(st.version_index)
                } else {
                    ReportViewerAction::Updated
                }
            } else {
                ReportViewerAction::Ignore
            }
        } else if c == 'k' {
            move_up(st);
            ReportViewerAction::Updated
        } else if c == 'j' {
            move_down(st);
            ReportViewerAction::Updated
        } else if c == 'n' {
            if st.focus == ReportViewerFocus::Threads || st.show_threads {
                ReportViewerAction::ThreadCreationUnavailable
            } else {
                ReportViewerAction::Ignore
            }
        } else {
            ReportViewerAction::Ignore
        },
        _ => ReportViewerAction::Ignore,
    }
}

/// An option of the report viewer's copy menu.
#[derive(Debug, Clone, Copy, PartialEq, Eq, Structural)]
pub enum ReportCopyOption {
    /// The report's event id in bech32 form.
    Bech32Id,
    /// The report's raw event, pretty-printed.
    RawEvent,
    /// The report's markdown content.
    Markdown,
}

/// The note id (bech32, `note1...`) of an event id written in hex: the id
/// that nostr parses from the hex text, encoded by nostr's bech32 encoder.
/// `None` when nostr does not parse the text as an event id.
pub uninterp spec fn note_id_bech32(hex: Seq<char>) -> Option<Seq<char>>;

/// Calls `nostr::event::EventId::from_hex` on the text and
/// `nostr::nips::nip19::ToBech32::to_bech32` on the id it parses (whose
/// error type has no values). Claimed: the outcome is `note_id_bech32` of
/// the text, which depends on the text alone.
#[verifier::external_body]
fn note_id_from_hex(hex: &str) -> (r: Option<String>)
    ensures
        opt_view(r) == note_id_bech32(hex@),
{
    match nostr::event::EventId::from_hex(hex) {
        Ok(id) => match nostr::nips::nip19::ToBech32::to_bech32(&id) {
            Ok(text) => Some(text),
            Err(never) => match never {},
        },
        Err(_) => None,
    }
}

/// The text a copy option puts on the clipboard, given the event id in
/// bech32 form (`None` when the hex id did not convert) and the stored raw
/// event (`None` when it was not found). The id falls back to its hex form,
/// a missing event to an error text, and a raw event is pretty-printed when
/// it parses.
pub fn copy_text_for(
    option: ReportCopyOption,
    hex_id: &str,
    bech32_id: Option<String>,
    raw_event: Option<String>,
    content: &str,
) -> (r: String)
    ensures
        match option {
            ReportCopyOption::Bech32Id => r@ == match bech32_id {
                Some(b) => b@,
                None => hex_id@,
            },
            ReportCopyOption::RawEvent => r@ == match raw_event {
                Some(j) => match pretty_json(j@) {
                    Some(p) => p,
                    None => j@,
                },
                None => "Failed to get raw event"@,
            },
            ReportCopyOption::Markdown => r@ == content@,
        },
{
    match option {
        ReportCopyOption::Bech32Id => match bech32_id {
            Some(b) => b,
            None => String::from_str(hex_id),
        },
        ReportCopyOption::RawEvent => match raw_event {
            Some(j) => pretty_event_json(j),
            None => String::from_str("Failed to get raw event"),
        },
        ReportCopyOption::Markdown => String::from_str(content),
    }
}

/// The text a copy option of the report viewer puts on the clipboard for
/// the report with event id `hex_id`: its bech32 id (its hex id when that
/// does not parse as an event id), its stored raw event (`raw_event`,
/// pretty-printed when it parses), or its markdown content.
pub fn report_copy_text(option: ReportCopyOption, hex_id: &str, raw_event: Option<String>, content: &str) -> (r:
    String)
    ensures
        match option {
            ReportCopyOption::Bech32Id => r@ == match note_id_bech32(hex_id@) {
                Some(b) => b,
                None => hex_id@,
            },
            ReportCopyOption::RawEvent => r@ == match raw_event {
                Some(j) => match pretty_json(j@) {
                    Some(p) => p,
                    None => j@,
                },
                None => "Failed to get raw event"@,
            },
            ReportCopyOption::Markdown => r@ == content@,
        },
{
    let bech32_id = match option {
        ReportCopyOption::Bech32Id => note_id_from_hex(hex_id),
        _ => None,
    };
    copy_text_for(option, hex_id, bech32_id, raw_event, content)
}

} // verus!
