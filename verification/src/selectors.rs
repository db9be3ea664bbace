//! Selector and search modals: the nudge and skill pickers (with their
//! chosen-id lists), the tab switcher, the draft navigator, the thread and
//! history searches, the sidebar search, and what choosing a project does.

use vstd::prelude::*;
use vstd::string::*;
use crate::fields::{pop_last, string_views, without_last};
use crate::keys::Key;
use crate::text::{push_char, str_eq};
use crate::messages::opt_view;

verus! {

/// A picker that chooses several items by id (nudges, skills).
#[derive(Debug, Clone)]
pub struct MultiSelectState {
    pub filter: String,
    pub index: usize,
    /// The chosen ids, in the order they were chosen.
    pub selected_ids: Vec<String>,
}

/// What a key in a multi-select picker asks of the application.
#[derive(Debug, Clone, Copy, PartialEq, Eq, Structural)]
pub enum MultiSelectAction {
    Close,
    /// Give the chosen ids to the current tab and close.
    Apply,
    Updated,
    Ignore,
}

/// The ids after toggling `id`: its first occurrence removed if it is
/// chosen, else appended.
pub open spec fn toggled(ids: Seq<Seq<char>>, id: Seq<char>) -> Seq<Seq<char>> {
    if ids.contains(id) {
        let k = choose|k: int| 0 <= k < ids.len() && ids[k] == id && forall|j: int| 0 <= j < k ==> ids[j] != id;
        ids.remove(k)
    } else {
        ids.push(id)
    }
}

/// Chooses or unchooses `id`.
fn toggle_id(ids: &mut Vec<String>, id: &str)
    ensures
        string_views(final(ids)@) == toggled(string_views(old(ids)@), id@),
{
    let ghost v = string_views(ids@);
    let mut i: usize = 0;
    while i < ids.len()
        invariant
            i <= ids@.len(),
            v == string_views(ids@),
            v == string_views(old(ids)@),
            forall|j: int| 0 <= j < i ==> ids@[j]@ != id@,
        decreases ids@.len() - i,
    {
        if str_eq(ids[i].as_str(), id) {
            ids.remove(i);
            proof {
                assert(v[i as int] == id@);
                assert(v.contains(id@));
                let k = choose|k: int| 0 <= k < v.len() && v[k] == id@ && forall|j: int| 0 <= j < k ==> v[j] != id@;
                assert(k == i) by {
                    if k < i {
                        assert(v[k] == ids@[k]@);
                    }
                    if k > i {
                        assert(v[i as int] == id@);
                    }
                }
                assert(toggled(v, id@) == v.remove(k));
                assert(string_views(ids@) =~= v.remove(i as int));
            }
            return;
        }
        i = i + 1;
    }
    proof {
        assert(!v.contains(id@)) by {
            if v.contains(id@) {
                let k = choose|k: int| 0 <= k < v.len() && v[k] == id@;
                assert(ids@[k]@ == id@);
            }
        }
    }
    ids.push(String::from_str(id));
    proof {
        assert(string_views(ids@) =~= v.push(id@));
    }
}

/// Toggling an id twice leaves the same ids chosen, when no id was chosen
/// twice: choosing then unchoosing restores the list, and unchoosing then
/// choosing moves the id to the end.
pub proof fn lemma_toggle_twice(ids: Seq<Seq<char>>, id: Seq<char>)
    requires
        ids.no_duplicates(),
    ensures
        toggled(ids, id).no_duplicates(),
        forall|x: Seq<char>| toggled(toggled(ids, id), id).contains(x) <==> ids.contains(x),
        !ids.contains(id) ==> toggled(toggled(ids, id), id) == ids,
{
    let once = toggled(ids, id);
    if ids.contains(id) {
        let k = choose|k: int| 0 <= k < ids.len() && ids[k] == id && forall|j: int| 0 <= j < k ==> ids[j] != id;
        assert(once == ids.remove(k));
        assert(!once.contains(id)) by {
            if once.contains(id) {
                let m = choose|m: int| 0 <= m < once.len() && once[m] == id;
                if m < k {
                    assert(ids[m] == id);
                } else {
                    assert(ids[m + 1] == id);
                }
            }
        }
        assert forall|a: int, b: int| 0 <= a < b < once.len() implies once[a] != once[b] by {
            let a2 = if a < k { a } else { a + 1 };
            let b2 = if b < k { b } else { b + 1 };
            assert(once[a] == ids[a2] && once[b] == ids[b2]);
        }
        let twice = once.push(id);
        assert(toggled(once, id) == twice);
        assert forall|x: Seq<char>| twice.contains(x) <==> ids.contains(x) by {
            if ids.contains(x) && x != id {
                let m = choose|m: int| 0 <= m < ids.len() && ids[m] == x;
                if m < k {
                    assert(twice[m] == x);
                } else {
                    assert(m != k);
                    assert(twice[m - 1] == x);
                }
            }
            if twice.contains(x) && x != id {
                let m = choose|m: int| 0 <= m < twice.len() && twice[m] == x;
                assert(m < once.len());
                if m < k {
                    assert(ids[m] == x);
                } else {
                    assert(ids[m + 1] == x);
                }
            }
            if x == id {
                assert(twice[twice.len() - 1] == id);
                assert(ids[k] == id);
            }
        }
    } else {
        assert(once == ids.push(id));
        assert forall|a: int, b: int| 0 <= a < b < once.len() implies once[a] != once[b] by {
            if b == once.len() - 1 {
                assert(once[a] == ids[a]);
            }
        }
        assert(once.contains(id)) by {
            assert(once[ids.len() as int] == id);
        }
        let k = choose|k: int| 0 <= k < once.len() && once[k] == id && forall|j: int| 0 <= j < k ==> once[j] != id;
        assert(k == ids.len()) by {
            if k < ids.len() {
                assert(ids[k] == id);
            }
        }
        assert(toggled(once, id) =~= ids);
    }
}

/// Handles a key in a multi-select picker; `filtered_ids` are the ids of
/// the items the filter leaves, in display order. Space chooses or
/// unchooses the item under the cursor.
pub fn handle_multi_select_key(st: &mut MultiSelectState, key: Key, filtered_ids: &Vec<String>) -> (r:
    MultiSelectAction)
    ensures
        r == match key {
            Key::Esc => MultiSelectAction::Close,
            Key::Enter => MultiSelectAction::Apply,
            Key::Up | Key::Down | Key::Char(_) | Key::Backspace => MultiSelectAction::Updated,
            _ => MultiSelectAction::Ignore,
        },
        final(st).index == match key {
            Key::Up => if old(st).index > 0 {
                (old(st).index - 1) as usize
            } else {
                old(st).index
            },
            Key::Down => if filtered_ids@.len() > 0 && old(st).index < filtered_ids@.len() - 1 {
                (old(st).index + 1) as usize
            } else {
                old(st).index
            },
            Key::Char(c) => if c == ' ' {
                old(st).index
            } else {
                0
            },
            Key::Backspace => 0,
            _ => old(st).index,
        },
        final(st).filter@ == match key {
            Key::Char(c) => if c == ' ' {
                old(st).filter@
            } else {
                old(st).filter@.push(c)
            },
            Key::Backspace => without_last(old(st).filter@),
            _ => old(st).filter@,
        },
        string_views(final(st).selected_ids@) == if key == Key::Char(' ') && old(st).index
            < filtered_ids@.len() {
            toggled(string_views(old(st).selected_ids@), filtered_ids@[old(st).index as int]@)
        } else {
            string_views(old(st).selected_ids@)
        },
{
    match key {
        Key::Esc => MultiSelectAction::Close,
        Key::Enter => MultiSelectAction::Apply,
        Key::Up => {
            if st.index > 0 {
                st.index = st.index - 1;
            }
            MultiSelectAction::Updated
        },
        Key::Down => {
            if filtered_ids.len() > 0 && st.index < filtered_ids.len() - 1 {
                st.index = st.index + 1;
            }
            MultiSelectAction::Updated
        },
        Key::Char(c) => {
            if c == ' ' {
                if st.index < filtered_ids.len() {
                    toggle_id(&mut st.selected_ids, filtered_ids[st.index].as_str());
                }
            } else {
                push_char(&mut st.filter, c);
                st.index = 0;
            }
            MultiSelectAction::Updated
        },
        Key::Backspace => {
            pop_last(&mut st.filter);
            st.index = 0;
            MultiSelectAction::Updated
        },
        _ => MultiSelectAction::Ignore,
    }
}

/// What a key in the tab switcher does.
#[derive(Debug, Clone, Copy, PartialEq, Eq, Structural)]
pub enum TabModalStep {
    Close,
    /// Select this row.
    MoveTo(usize),
    /// Close the switcher and show the tab at this index in the chat.
    OpenTab(usize),
    /// Close the tab at this index (and the switcher when no tab is left).
    CloseTab(usize),
    /// Close the switcher and go home.
    GoHome,
    Ignore,
}

/// Handles a key in the tab switcher of `tabs` open tabs with row
/// `index` selected: Enter or a digit `2`–`9` opens a tab (closing the
/// switcher even when there is no such tab), `1` goes home, `x` closes the
/// selected tab.
pub fn handle_tab_modal_key(key: Key, index: usize, tabs: usize) -> (r: TabModalStep)
    ensures
        r == match key {
            Key::Esc => TabModalStep::Close,
            Key::Up => if index > 0 {
                TabModalStep::MoveTo((index - 1) as usize)
            } else {
                TabModalStep::Ignore
            },
            Key::Down => if index + 1 < tabs {
                TabModalStep::MoveTo((index + 1) as usize)
            } else {
                TabModalStep::Ignore
            },
            Key::Enter => if index < tabs {
                TabModalStep::OpenTab(index)
            } else {
                TabModalStep::Close
            },
            Key::Char(c) => if c == 'x' {
                if tabs > 0 {
                    TabModalStep::CloseTab(index)
                } else {
                    TabModalStep::Ignore
                }
            } else if c == '1' {
                TabModalStep::GoHome
            } else if '2' <= c && c <= '9' {
                if (c as int) - ('2' as int) < tabs {
                    TabModalStep::OpenTab(((c as int) - ('2' as int)) as usize)
                } else {
                    TabModalStep::Close
                }
            } else {
                TabModalStep::Ignore
            },
            _ => TabModalStep::Ignore,
        },
{
    match key {
        Key::Esc => TabModalStep::Close,
        Key::Up => if index > 0 {
            TabModalStep::MoveTo(index - 1)
        } else {
            TabModalStep::Ignore
        },
        Key::Down => if tabs > 0 && index < tabs - 1 {
            TabModalStep::MoveTo(index + 1)
        } else {
            TabModalStep::Ignore
        },
        Key::Enter => if index < tabs {
            TabModalStep::OpenTab(index)
        } else {
            TabModalStep::Close
        },
        Key::Char(c) => if c == 'x' {
            if tabs > 0 {
                TabModalStep::CloseTab(index)
            } else {
                TabModalStep::Ignore
            }
        } else if c == '1' {
            TabModalStep::GoHome
        } else if '2' <= c && c <= '9' {
            let t = (c as u32 - '2' as u32) as usize;
            if t < tabs {
                TabModalStep::OpenTab(t)
            } else {
                TabModalStep::Close
            }
        } else {
            TabModalStep::Ignore
        },
        _ => TabModalStep::Ignore,
    }
}

/// What a key in the draft navigator does.
#[derive(Debug, Clone, Copy, PartialEq, Eq, Structural)]
pub enum DraftNavigatorStep {
    Close,
    MoveUp,
    MoveDown,
    /// Restore the selected draft into the editor, if there is one, and
    /// close.
    RestoreSelected,
    /// Delete the selected draft, if there is one (see `row_after_refresh`).
    DeleteSelected,
    AddFilterChar(char),
    BackspaceFilter,
    Ignore,
}

/// Handles a key in the draft navigator; `ctrl` when Control was held.
pub fn handle_draft_navigator_key(key: Key, ctrl: bool) -> (r: DraftNavigatorStep)
    ensures
        r == match key {
            Key::Esc => DraftNavigatorStep::Close,
            Key::Up => DraftNavigatorStep::MoveUp,
            Key::Down => DraftNavigatorStep::MoveDown,
            Key::Enter => DraftNavigatorStep::RestoreSelected,
            Key::Backspace => DraftNavigatorStep::BackspaceFilter,
            Key::Char(c) => if c == 'k' {
                DraftNavigatorStep::MoveUp
            } else if c == 'j' {
                DraftNavigatorStep::MoveDown
            } else if c == 'd' && ctrl {
                DraftNavigatorStep::DeleteSelected
            } else if !ctrl {
                DraftNavigatorStep::AddFilterChar(c)
            } else {
                DraftNavigatorStep::Ignore
            },
            _ => DraftNavigatorStep::Ignore,
        },
{
    match key {
        Key::Esc => DraftNavigatorStep::Close,
        Key::Up => DraftNavigatorStep::MoveUp,
        Key::Down => DraftNavigatorStep::MoveDown,
        Key::Enter => DraftNavigatorStep::RestoreSelected,
        Key::Backspace => DraftNavigatorStep::BackspaceFilter,
        Key::Char(c) => if c == 'k' {
            DraftNavigatorStep::MoveUp
        } else if c == 'j' {
            DraftNavigatorStep::MoveDown
        } else if c == 'd' && ctrl {
            DraftNavigatorStep::DeleteSelected
        } else if !ctrl {
            DraftNavigatorStep::AddFilterChar(c)
        } else {
            DraftNavigatorStep::Ignore
        },
        _ => DraftNavigatorStep::Ignore,
    }
}

/// The selected row after the list was reloaded with `count` rows: a
/// cursor past the end moves to the last row (an empty list keeps it).
pub fn row_after_refresh(selected_index: usize, count: usize) -> (r: usize)
    ensures
        r == if selected_index >= count && count > 0 {
            (count - 1) as usize
        } else {
            selected_index
        },
{
    if selected_index >= count && count > 0 {
        count - 1
    } else {
        selected_index
    }
}

/// The thread search modal's state.
#[derive(Debug, Clone)]
pub struct SearchModalState {
    pub showing: bool,
    pub filter: String,
    pub index: usize,
}

/// What a key in the thread search asks of the application.
#[derive(Debug, Clone, Copy, PartialEq, Eq, Structural)]
pub enum SearchModalAction {
    /// Open the thread of the result at this row.
    OpenResult(usize),
    Updated,
    Ignore,
}

/// Handles a key in the thread search over `results` results: Escape
/// closes and clears it, Enter opens the selected result (closing and
/// clearing the search) when there is one, typing refilters from the top.
pub fn handle_search_modal_key(st: &mut SearchModalState, key: Key, results: usize) -> (r:
    SearchModalAction)
    ensures
        ({
            let closed = (key == Key::Esc) || (key == Key::Enter && old(st).index < results);
            &&& r == match key {
                Key::Enter => if old(st).index < results {
                    SearchModalAction::OpenResult(old(st).index)
                } else {
                    SearchModalAction::Ignore
                },
                Key::Esc | Key::Up | Key::Down | Key::Char(_) | Key::Backspace => SearchModalAction::Updated,
                _ => SearchModalAction::Ignore,
            }
            &&& final(st).showing == (old(st).showing && !closed)
            &&& final(st).filter@ == if closed {
                Seq::<char>::empty()
            } else {
                match key {
                    Key::Char(c) => old(st).filter@.push(c),
                    Key::Backspace => without_last(old(st).filter@),
                    _ => old(st).filter@,
                }
            }
            &&& final(st).index == if closed {
                0
            } else {
                match key {
                    Key::Up => if old(st).index > 0 {
                        (old(st).index - 1) as usize
                    } else {
                        old(st).index
                    },
                    Key::Down => if old(st).index + 1 < results {
                        (old(st).index + 1) as usize
                    } else {
                        old(st).index
                    },
                    Key::Char(_) | Key::Backspace => 0,
                    _ => old(st).index,
                }
            }
        }),
{
    match key {
        Key::Esc => {
            st.showing = false;
            st.filter = String::new();
            st.index = 0;
            SearchModalAction::Updated
        },
        Key::Up => {
            if st.index > 0 {
                st.index = st.index - 1;
            }
            SearchModalAction::Updated
        },
        Key::Down => {
            if results > 0 && st.index < results - 1 {
                st.index = st.index + 1;
            }
            SearchModalAction::Updated
        },
        Key::Enter => if st.index < results {
            let at = st.index;
            st.showing = false;
            st.filter = String::new();
            st.index = 0;
            SearchModalAction::OpenResult(at)
        } else {
            SearchModalAction::Ignore
        },
        Key::Char(c) => {
            push_char(&mut st.filter, c);
            st.index = 0;
            SearchModalAction::Updated
        },
        Key::Backspace => {
            pop_last(&mut st.filter);
            st.index = 0;
            SearchModalAction::Updated
        },
        _ => SearchModalAction::Ignore,
    }
}

/// What a key in the in-conversation search does.
#[derive(Debug, Clone, Copy, PartialEq, Eq, Structural)]
pub enum ChatSearchStep {
    Exit,
    Next,
    Prev,
    /// The query changed; search again.
    Requery,
    Ignore,
}

/// Handles a key in the in-conversation search: typing edits the query,
/// Enter and Down go to the next match, Up to the previous one.
pub fn handle_chat_search_key(query: &mut String, key: Key) -> (r: ChatSearchStep)
    ensures
        r == match key {
            Key::Esc => ChatSearchStep::Exit,
            Key::Enter | Key::Down => ChatSearchStep::Next,
            Key::Up => ChatSearchStep::Prev,
            Key::Char(_) | Key::Backspace => ChatSearchStep::Requery,
            _ => ChatSearchStep::Ignore,
        },
        final(query)@ == match key {
            Key::Char(c) => old(query)@.push(c),
            Key::Backspace => without_last(old(query)@),
            _ => old(query)@,
        },
{
    match key {
        Key::Esc => ChatSearchStep::Exit,
        Key::Enter | Key::Down => ChatSearchStep::Next,
        Key::Up => ChatSearchStep::Prev,
        Key::Char(c) => {
            push_char(query, c);
            ChatSearchStep::Requery
        },
        Key::Backspace => {
            pop_last(query);
            ChatSearchStep::Requery
        },
        _ => ChatSearchStep::Ignore,
    }
}

/// What a key in the message history search does.
#[derive(Debug, Clone, Copy, PartialEq, Eq, Structural)]
pub enum HistorySearchStep {
    Close,
    MoveUp,
    MoveDown,
    /// Switch between all projects and the current one, then search again.
    ToggleAllProjects,
    /// Put the selected entry's text into the editor (if there is one) and
    /// close.
    UseSelected,
    /// Type into the query, then search again.
    AddChar(char),
    /// Delete from the query, then search again.
    Backspace,
    Ignore,
}

/// Handles a key in the message history search; characters typed with
/// Control or Alt are not added to the query.
pub fn handle_history_search_key(key: Key, ctrl_or_alt: bool, ctrl: bool) -> (r: HistorySearchStep)
    ensures
        r == match key {
            Key::Esc => HistorySearchStep::Close,
            Key::Up => HistorySearchStep::MoveUp,
            Key::Down => HistorySearchStep::MoveDown,
            Key::Tab => HistorySearchStep::ToggleAllProjects,
            Key::Enter => HistorySearchStep::UseSelected,
            Key::Backspace => HistorySearchStep::Backspace,
            Key::Char(c) => if c == 'k' && ctrl {
                HistorySearchStep::MoveUp
            } else if c == 'j' && ctrl {
                HistorySearchStep::MoveDown
            } else if !ctrl_or_alt {
                HistorySearchStep::AddChar(c)
            } else {
                HistorySearchStep::Ignore
            },
            _ => HistorySearchStep::Ignore,
        },
{
    match key {
        Key::Esc => HistorySearchStep::Close,
        Key::Up => HistorySearchStep::MoveUp,
        Key::Down => HistorySearchStep::MoveDown,
        Key::Tab => HistorySearchStep::ToggleAllProjects,
        Key::Enter => HistorySearchStep::UseSelected,
        Key::Backspace => HistorySearchStep::Backspace,
        Key::Char(c) => if c == 'k' && ctrl {
            HistorySearchStep::MoveUp
        } else if c == 'j' && ctrl {
            HistorySearchStep::MoveDown
        } else if !ctrl_or_alt {
            HistorySearchStep::AddChar(c)
        } else {
            HistorySearchStep::Ignore
        },
        _ => HistorySearchStep::Ignore,
    }
}

/// What a key in the sidebar search does.
#[derive(Debug, Clone, Copy, PartialEq, Eq, Structural)]
pub enum SidebarSearchStep {
    OpenCommandPalette,
    /// Empty the query and search again.
    ClearQuery,
    /// Close the search (the query was empty).
    Close,
    OpenSelected,
    MoveUp,
    /// Move down (in the reports tab, among reports).
    MoveDown { reports: bool },
    CursorLeft,
    CursorRight,
    /// Delete from the query and search again.
    DeleteChar,
    /// Type into the query and search again.
    InsertChar(char),
    Ignore,
}

/// Handles a key in the sidebar search: Escape empties the query, or
/// closes the search when it is already empty; Ctrl+T opens the command
/// palette.
pub fn handle_sidebar_search_key(key: Key, ctrl: bool, query_empty: bool, on_reports_tab: bool) -> (r:
    SidebarSearchStep)
    ensures
        r == match key {
            Key::Esc => if query_empty {
                SidebarSearchStep::Close
            } else {
                SidebarSearchStep::ClearQuery
            },
            Key::Enter => SidebarSearchStep::OpenSelected,
            Key::Up => SidebarSearchStep::MoveUp,
            Key::Down => SidebarSearchStep::MoveDown { reports: on_reports_tab },
            Key::Left => SidebarSearchStep::CursorLeft,
            Key::Right => SidebarSearchStep::CursorRight,
            Key::Backspace => SidebarSearchStep::DeleteChar,
            Key::Char(c) => if c == 't' && ctrl {
                SidebarSearchStep::OpenCommandPalette
            } else {
                SidebarSearchStep::InsertChar(c)
            },
            _ => SidebarSearchStep::Ignore,
        },
{
    match key {
        Key::Esc => if query_empty {
            SidebarSearchStep::Close
        } else {
            SidebarSearchStep::ClearQuery
        },
        Key::Enter => SidebarSearchStep::OpenSelected,
        Key::Up => SidebarSearchStep::MoveUp,
        Key::Down => SidebarSearchStep::MoveDown { reports: on_reports_tab },
        Key::Left => SidebarSearchStep::CursorLeft,
        Key::Right => SidebarSearchStep::CursorRight,
        Key::Backspace => SidebarSearchStep::DeleteChar,
        Key::Char(c) => if c == 't' && ctrl {
            SidebarSearchStep::OpenCommandPalette
        } else {
            SidebarSearchStep::InsertChar(c)
        },
        _ => SidebarSearchStep::Ignore,
    }
}

/// The draft tab's id and title after its project became `a_tag`, named
/// `name` (`New` when the project has no name).
pub fn retargeted_draft_tab(a_tag: &str, name: Option<&str>) -> (r: (String, String))
    ensures
        r.0@ == a_tag@ + ":new"@,
        r.1@ == "New: "@ + match name {
            Some(n) => n@,
            None => "New"@,
        },
{
    let mut id = String::from_str(a_tag);
    id.append(":new");
    let mut title = String::from_str("New: ");
    match name {
        Some(n) => title.append(n),
        None => title.append("New"),
    }
    (id, title)
}

/// What choosing a project (in the projects modal, or for a new
/// conversation from the home view) sets besides the project.
pub struct ProjectChoice {
    /// The agent to select: the project manager, where one is picked.
    pub agent: Option<String>,
    /// The branch to select: the project's default, where one is picked.
    pub branch: Option<String>,
    /// Open a draft tab for a new conversation in the project.
    pub open_draft_tab: bool,
    /// Move the active draft tab to the project (its id and title as
    /// `retargeted_draft_tab` gives them).
    pub retarget_draft_tab: bool,
    /// Leave the active workspace and show this project alone.
    pub show_only_project: bool,
}

/// Choosing a project in the projects modal. Its project manager becomes
/// the agent when starting a new conversation or when no agent is
/// selected. A new conversation opens a draft tab. Otherwise only this
/// project is shown, and in the chat view an active draft tab moves to the
/// project; a tab of an existing conversation never does, as its project
/// is that of its thread.
pub fn project_chosen(
    for_new_thread: bool,
    has_selected_agent: bool,
    in_chat_view: bool,
    active_tab_is_draft: bool,
    pm_agent: Option<String>,
) -> (r: ProjectChoice)
    ensures
        opt_view(r.agent) == (if for_new_thread || !has_selected_agent {
            opt_view(pm_agent)
        } else {
            None
        }),
        r.branch is None,
        r.open_draft_tab == for_new_thread,
        r.retarget_draft_tab == (!for_new_thread && in_chat_view && active_tab_is_draft),
        r.show_only_project == !for_new_thread,
{
    let agent = if for_new_thread || !has_selected_agent {
        pm_agent
    } else {
        None
    };
    ProjectChoice {
        agent,
        branch: None,
        open_draft_tab: for_new_thread,
        retarget_draft_tab: !for_new_thread && in_chat_view && active_tab_is_draft,
        show_only_project: !for_new_thread,
    }
}

/// A new conversation in the first project of the home view's
/// conversation list (`None` when the list is empty): its project manager
/// becomes the agent, and its default branch the branch when none is
/// selected. `Err` holds the status shown when there is no project.
pub fn new_conversation_in_first_project(
    first_project: Option<(Option<String>, Option<String>)>,
    has_selected_branch: bool,
) -> (r: Result<ProjectChoice, &'static str>)
    ensures
        match first_project {
            None => r matches Err(m) && m@ == "No project available for new conversation"@,
            Some((pm, default_branch)) => r matches Ok(c) && opt_view(c.agent) == opt_view(pm)
                && opt_view(c.branch) == (if !has_selected_branch {
                opt_view(default_branch)
            } else {
                None
            }) && c.open_draft_tab && !c.retarget_draft_tab && !c.show_only_project,
        },
{
    match first_project {
        None => Err("No project available for new conversation"),
        Some((pm, default_branch)) => {
            let branch = if !has_selected_branch {
                default_branch
            } else {
                None
            };
            Ok(
                ProjectChoice {
                    agent: pm,
                    branch,
                    open_draft_tab: true,
                    retarget_draft_tab: false,
                    show_only_project: false,
                },
            )
        },
    }
}

} // verus!
