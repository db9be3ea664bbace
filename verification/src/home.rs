//! The home view's list handling: cycling the panel tabs, moving the
//! selection (with Shift extending the multi-selection), the project
//! sidebar cursor, and the reports search field.

use vstd::prelude::*;
use vstd::string::*;
use crate::keys::Key;
use crate::text::push_char;
use crate::view_state::HomeTab;

verus! {

/// How a selection move changes the list and the multi-selection.
#[derive(Debug, Clone, Copy, PartialEq, Eq, Structural)]
pub struct ListStep {
    /// Clear the multi-selection (a move without Shift).
    pub clear_multi_selection: bool,
    /// Add the thread at this row to the multi-selection before moving.
    pub mark_before: Option<usize>,
    /// The new selected row, when the selection moves.
    pub new_selection: Option<usize>,
    /// Add the thread at this row to the multi-selection after moving.
    pub mark_after: Option<usize>,
}

/// What a key does while typing in the reports search field.
#[derive(Debug, Clone, Copy, PartialEq, Eq, Structural)]
pub enum ReportSearchStep {
    /// The filter changed; the selection goes back to the first report.
    Edited,
    /// Typing ends.
    Leave,
    Ignore,
}

/// The home tab after `t`, cycling.
pub open spec fn tab_after(t: HomeTab) -> HomeTab {
    match t {
        HomeTab::Conversations => HomeTab::Inbox,
        HomeTab::Inbox => HomeTab::Reports,
        HomeTab::Reports => HomeTab::Feed,
        HomeTab::Feed => HomeTab::ActiveWork,
        HomeTab::ActiveWork => HomeTab::Stats,
        HomeTab::Stats => HomeTab::Conversations,
    }
}

/// The home tab before `t`, cycling.
pub open spec fn tab_before(t: HomeTab) -> HomeTab {
    match t {
        HomeTab::Conversations => HomeTab::Stats,
        HomeTab::Inbox => HomeTab::Conversations,
        HomeTab::Reports => HomeTab::Inbox,
        HomeTab::Feed => HomeTab::Reports,
        HomeTab::ActiveWork => HomeTab::Feed,
        HomeTab::Stats => HomeTab::ActiveWork,
    }
}

/// The last row of a list of `count` rows (0 for an empty list).
pub open spec fn last_row(count: usize) -> usize {
    if count > 0 {
        (count - 1) as usize
    } else {
        0
    }
}

/// A move of the selection from `current` in a list of `count` rows.
pub open spec fn list_step(current: usize, count: usize, down: bool, shift: bool) -> ListStep {
    let target: Option<usize> = if down {
        if current < last_row(count) {
            Some((current + 1) as usize)
        } else {
            None
        }
    } else if current > 0 {
        Some((current - 1) as usize)
    } else {
        None
    };
    ListStep {
        clear_multi_selection: !shift,
        mark_before: if shift {
            Some(current)
        } else {
            None
        },
        new_selection: target,
        mark_after: if shift {
            target
        } else {
            None
        },
    }
}

/// The next home tab, cycling from Stats back to Conversations.
pub fn next_home_tab(t: HomeTab) -> (r: HomeTab)
    ensures
        r == tab_after(t),
{
    match t {
        HomeTab::Conversations => HomeTab::Inbox,
        HomeTab::Inbox => HomeTab::Reports,
        HomeTab::Reports => HomeTab::Feed,
        HomeTab::Feed => HomeTab::ActiveWork,
        HomeTab::ActiveWork => HomeTab::Stats,
        HomeTab::Stats => HomeTab::Conversations,
    }
}

/// The previous home tab, cycling from Conversations back to Stats.
pub fn prev_home_tab(t: HomeTab) -> (r: HomeTab)
    ensures
        r == tab_before(t),
{
    match t {
        HomeTab::Conversations => HomeTab::Stats,
        HomeTab::Inbox => HomeTab::Conversations,
        HomeTab::Reports => HomeTab::Inbox,
        HomeTab::Feed => HomeTab::Reports,
        HomeTab::ActiveWork => HomeTab::Feed,
        HomeTab::Stats => HomeTab::ActiveWork,
    }
}

/// Stepping back undoes stepping forward and the other way round, and six
/// steps forward come back to the same tab.
pub proof fn lemma_home_tabs_cycle(t: HomeTab)
    ensures
        tab_before(tab_after(t)) == t,
        tab_after(tab_before(t)) == t,
        tab_after(tab_after(tab_after(tab_after(tab_after(tab_after(t)))))) == t,
        tab_after(t) != t,
{
}

/// Moves the home list selection up or down within `count` rows. Without
/// Shift the multi-selection is cleared; with Shift the rows left and
/// reached are added to it.
pub fn home_list_step(current: usize, count: usize, down: bool, shift: bool) -> (r: ListStep)
    ensures
        r == list_step(current, count, down, shift),
{
    let target = if down {
        if current < count.saturating_sub(1) {
            Some(current + 1)
        } else {
            None
        }
    } else if current > 0 {
        Some(current - 1)
    } else {
        None
    };
    ListStep {
        clear_multi_selection: !shift,
        mark_before: if shift {
            Some(current)
        } else {
            None
        },
        new_selection: target,
        mark_after: if shift {
            target
        } else {
            None
        },
    }
}

/// Moves the project sidebar cursor up or down within `project_count` rows.
pub fn sidebar_step(index: usize, project_count: usize, down: bool) -> (r: usize)
    ensures
        r == (if down {
            if index < last_row(project_count) {
                (index + 1) as usize
            } else {
                index
            }
        } else if index > 0 {
            (index - 1) as usize
        } else {
            index
        }),
{
    if down {
        if index < project_count.saturating_sub(1) {
            index + 1
        } else {
            index
        }
    } else if index > 0 {
        index - 1
    } else {
        index
    }
}

/// After the list shrank to `count` rows, the selection to move to when
/// `current` is past the last row.
pub fn clamp_selection(current: usize, count: usize) -> (r: Option<usize>)
    ensures
        r == (if current > last_row(count) {
            Some(last_row(count))
        } else {
            None::<usize>
        }),
{
    let max = count.saturating_sub(1);
    if current > max {
        Some(max)
    } else {
        None
    }
}

/// Applies a key typed in the reports search field: characters are added,
/// Backspace removes the last one, Escape and Enter end typing.
pub fn report_search_key(filter: &mut String, key: Key) -> (r: ReportSearchStep)
    ensures
        match key {
            Key::Char(c) => r == ReportSearchStep::Edited && final(filter)@ == old(filter)@.push(c),
            Key::Backspace => r == ReportSearchStep::Edited && final(filter)@ == (if old(
                filter,
            )@.len() > 0 {
                old(filter)@.drop_last()
            } else {
                old(filter)@
            }),
            Key::Esc | Key::Enter => r == ReportSearchStep::Leave && final(filter)@ == old(filter)@,
            _ => r == ReportSearchStep::Ignore && final(filter)@ == old(filter)@,
        },
{
    match key {
        Key::Char(c) => {
            push_char(filter, c);
            ReportSearchStep::Edited
        },
        Key::Backspace => {
            let n = filter.as_str().unicode_len();
            if n > 0 {
                let shorter = filter.as_str().substring_char(0, n - 1).to_owned();
                *filter = shorter;
            }
            ReportSearchStep::Edited
        },
        Key::Esc | Key::Enter => ReportSearchStep::Leave,
        _ => ReportSearchStep::Ignore,
    }
}

/// The status after collapsing or expanding all threads.
pub fn collapse_all_status(now_collapsed: bool) -> (r: &'static str)
    ensures
        r@ == (if now_collapsed {
            "All threads collapsed"@
        } else {
            "All threads expanded"@
        }),
{
    if now_collapsed {
        "All threads collapsed"
    } else {
        "All threads expanded"
    }
}

/// The status after archiving or unarchiving the selected conversation.
pub fn conversation_archive_status(is_archived: bool) -> (r: &'static str)
    ensures
        r@ == (if is_archived {
            "Archived conversation"@
        } else {
            "Unarchived conversation"@
        }),
{
    if is_archived {
        "Archived conversation"
    } else {
        "Unarchived conversation"
    }
}

/// A move never leaves the list: from a row of the list the selection
/// lands on a row of the list, one step away.
pub proof fn lemma_list_step_stays_in_range(current: usize, count: usize, down: bool, shift: bool)
    requires
        current < count,
    ensures
        list_step(current, count, down, shift).new_selection matches Some(i) ==> i < count && (
        if down {
            i == current + 1
        } else {
            i + 1 == current
        }),
{
}

} // verus!
