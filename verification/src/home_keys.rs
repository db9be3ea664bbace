//! Keys of the home view and of the chat view's normal mode: what each
//! key does, given the hotkey that the registry resolved it to and the
//! lists on screen.

use vstd::prelude::*;
use crate::home::{last_row, list_step, tab_after, tab_before, ListStep};
use crate::keys::Key;
use crate::messages::opt_view;
use crate::view_state::HomeTab;

verus! {

/// A hotkey of the home view, as the hotkey registry resolves it.
#[derive(Debug, Clone, Copy, PartialEq, Eq, Structural)]
pub enum HomeHotkey {
    Quit,
    SearchReports,
    SwitchProject,
    TimeFilter,
    AgentBrowser,
    CreateProject,
    NewConversation,
    NewConversationWithPicker,
    ShowHideArchived,
    ToggleHideScheduled,
    NextHomeTab,
    PrevHomeTab,
    FocusSidebar,
    UnfocusSidebar,
    /// No hotkey, or one the home view leaves to its plain keys.
    Other,
}

/// The project modals that the home view hands its keys to.
#[derive(Debug, Clone, Copy, PartialEq, Eq, Structural)]
pub enum HomeModal {
    NoModal,
    ProjectsModal,
    ProjectSettings,
    CreateProject,
}

/// What the home view's keys read of the application.
#[derive(Debug, Clone, Copy)]
pub struct HomeKeyState {
    pub tab: HomeTab,
    /// Typing in the reports search field (editing mode).
    pub editing: bool,
    pub modal: HomeModal,
    pub sidebar_focused: bool,
    /// The selected row of the current tab's list.
    pub selection: usize,
    /// The rows of the current tab's list (none on the Stats tab).
    pub row_count: usize,
    /// The project sidebar cursor.
    pub sidebar_index: usize,
    /// The sidebar lists online projects first, then offline ones.
    pub online_count: usize,
    pub project_count: usize,
    pub has_multi_selection: bool,
    pub report_filter_empty: bool,
    pub open_tabs: usize,
}

/// What a key does in the home view.
#[derive(Debug, Clone, Copy, PartialEq, Eq, Structural)]
pub enum HomeKeyAction {
    /// The key edits the reports search field.
    EditReportSearch,
    ProjectsModalKey,
    ProjectSettingsKey,
    CreateProjectKey,
    Quit,
    StartReportSearch,
    /// Open the projects modal; `true` to start a new conversation there.
    OpenProjectsModal(bool),
    CycleTimeFilter,
    OpenAgentBrowser,
    OpenCreateProject,
    NewConversation,
    ToggleShowArchived,
    ToggleHideScheduled,
    SetTab(HomeTab),
    NextStatsSubtab,
    PrevStatsSubtab,
    SetSidebarFocus(bool),
    /// Move the sidebar cursor to this row.
    SidebarMove(usize),
    Move(ListStep),
    /// Show or hide the project at this sidebar row (then clamp the list
    /// selection).
    ToggleProjectVisibility(usize),
    OpenProjectSettings(usize),
    /// Stop the operations of the project at this row, if it is busy.
    StopProject(usize),
    /// Boot the offline project at this row of the offline list.
    BootProject(usize),
    ProjectAlreadyOnline,
    OpenProjectActions { index: usize, online: bool },
    /// Open the item at this row of the tab's list.
    OpenSelected(HomeTab, usize),
    MarkInboxRead(usize),
    ToggleThreadCollapse(usize),
    ToggleCollapseAll,
    ArchiveMultiSelected,
    /// Archive or unarchive the conversation at this row.
    ToggleArchived(usize),
    ClearReportFilter,
    /// Switch to this open tab and show the chat.
    SwitchToTab(usize),
    Nothing,
}

/// The tab index that the digits 2 to 9 stand for (2 is the first tab).
pub open spec fn digit_tab(c: char) -> Option<usize> {
    if '2' <= c && c <= '9' {
        Some(((c as int) - ('2' as int)) as usize)
    } else {
        None
    }
}

/// What a resolved hotkey does in the home view; `None` leaves the key to
/// the plain key bindings.
pub open spec fn home_hotkey_action(s: HomeKeyState, h: HomeHotkey) -> Option<HomeKeyAction> {
    match h {
        HomeHotkey::Quit => Some(HomeKeyAction::Quit),
        HomeHotkey::SearchReports => Some(HomeKeyAction::StartReportSearch),
        HomeHotkey::SwitchProject => Some(HomeKeyAction::OpenProjectsModal(false)),
        HomeHotkey::TimeFilter => Some(HomeKeyAction::CycleTimeFilter),
        HomeHotkey::AgentBrowser => Some(HomeKeyAction::OpenAgentBrowser),
        HomeHotkey::CreateProject => Some(HomeKeyAction::OpenCreateProject),
        HomeHotkey::NewConversation => Some(HomeKeyAction::NewConversation),
        HomeHotkey::NewConversationWithPicker => Some(HomeKeyAction::OpenProjectsModal(true)),
        HomeHotkey::ShowHideArchived => Some(HomeKeyAction::ToggleShowArchived),
        HomeHotkey::ToggleHideScheduled => if !s.sidebar_focused {
            Some(HomeKeyAction::ToggleHideScheduled)
        } else {
            None
        },
        HomeHotkey::NextHomeTab => Some(HomeKeyAction::SetTab(tab_after(s.tab))),
        HomeHotkey::PrevHomeTab => Some(HomeKeyAction::SetTab(tab_before(s.tab))),
        HomeHotkey::FocusSidebar => if s.tab == HomeTab::Stats {
            Some(HomeKeyAction::NextStatsSubtab)
        } else {
            Some(HomeKeyAction::SetSidebarFocus(true))
        },
        HomeHotkey::UnfocusSidebar => Some(HomeKeyAction::SetSidebarFocus(false)),
        HomeHotkey::Other => None,
    }
}

/// The sidebar row a sidebar key acts on, when there is a project there.
pub open spec fn on_project(s: HomeKeyState, a: HomeKeyAction) -> HomeKeyAction {
    if s.sidebar_index < s.project_count {
        a
    } else {
        HomeKeyAction::Nothing
    }
}

/// The list row a key acts on, when the list has that row.
pub open spec fn on_row(s: HomeKeyState, a: HomeKeyAction) -> HomeKeyAction {
    if s.selection < s.row_count {
        a
    } else {
        HomeKeyAction::Nothing
    }
}

/// What a character key does in the home view, in the order the bindings
/// are tried.
pub open spec fn home_char_action(s: HomeKeyState, c: char, shift: bool) -> HomeKeyAction {
    let side = s.sidebar_focused;
    let idx = s.sidebar_index;
    if c == 'h' && s.tab == HomeTab::Stats {
        HomeKeyAction::PrevStatsSubtab
    } else if c == 'l' && s.tab == HomeTab::Stats {
        HomeKeyAction::NextStatsSubtab
    } else if c == ' ' && side {
        on_project(s, HomeKeyAction::ToggleProjectVisibility(idx))
    } else if c == 's' && side {
        on_project(s, HomeKeyAction::OpenProjectSettings(idx))
    } else if c == 'S' && side && shift {
        on_project(s, HomeKeyAction::StopProject(idx))
    } else if c == 'b' && side {
        if idx >= s.online_count {
            on_project(s, HomeKeyAction::BootProject((idx - s.online_count) as usize))
        } else {
            HomeKeyAction::ProjectAlreadyOnline
        }
    } else if c == 'r' && s.tab == HomeTab::Inbox {
        on_row(s, HomeKeyAction::MarkInboxRead(s.selection))
    } else if c == ' ' && s.tab == HomeTab::Conversations {
        on_row(s, HomeKeyAction::ToggleThreadCollapse(s.selection))
    } else if c == 'c' && s.tab == HomeTab::Conversations {
        HomeKeyAction::ToggleCollapseAll
    } else if (c == 'k' || c == 'K') && !side {
        HomeKeyAction::Move(list_step(s.selection, s.row_count, false, shift))
    } else if (c == 'j' || c == 'J') && !side {
        HomeKeyAction::Move(list_step(s.selection, s.row_count, true, shift))
    } else if c == 'a' && !side && s.tab != HomeTab::Reports {
        if s.has_multi_selection {
            HomeKeyAction::ArchiveMultiSelected
        } else {
            on_row(s, HomeKeyAction::ToggleArchived(s.selection))
        }
    } else if digit_tab(c) is Some && digit_tab(c)->0 < s.open_tabs {
        HomeKeyAction::SwitchToTab(digit_tab(c)->0)
    } else {
        HomeKeyAction::Nothing
    }
}

/// What a key without a hotkey does in the home view.
pub open spec fn home_plain_action(s: HomeKeyState, key: Key, shift: bool) -> HomeKeyAction {
    let idx = s.sidebar_index;
    match key {
        Key::Char(c) => home_char_action(s, c, shift),
        Key::Left => if s.tab == HomeTab::Stats {
            HomeKeyAction::PrevStatsSubtab
        } else {
            HomeKeyAction::Nothing
        },
        Key::Up => if s.sidebar_focused {
            HomeKeyAction::SidebarMove(
                if idx > 0 {
                    (idx - 1) as usize
                } else {
                    idx
                },
            )
        } else {
            HomeKeyAction::Move(list_step(s.selection, s.row_count, false, shift))
        },
        Key::Down => if s.sidebar_focused {
            HomeKeyAction::SidebarMove(
                if idx < last_row(s.project_count) {
                    (idx + 1) as usize
                } else {
                    idx
                },
            )
        } else {
            HomeKeyAction::Move(list_step(s.selection, s.row_count, true, shift))
        },
        Key::Enter => if s.sidebar_focused {
            on_project(s, HomeKeyAction::OpenProjectActions { index: idx, online: idx < s.online_count })
        } else if s.tab != HomeTab::Stats {
            on_row(s, HomeKeyAction::OpenSelected(s.tab, s.selection))
        } else {
            HomeKeyAction::Nothing
        },
        Key::Esc => if s.tab == HomeTab::Reports && !s.report_filter_empty {
            HomeKeyAction::ClearReportFilter
        } else {
            HomeKeyAction::Nothing
        },
        _ => HomeKeyAction::Nothing,
    }
}

/// What a key does in the home view: the reports search field takes it
/// while typing, then an open project modal, then the resolved hotkey,
/// then the plain key bindings.
pub open spec fn home_key_action(s: HomeKeyState, key: Key, shift: bool, h: HomeHotkey) -> HomeKeyAction {
    if s.editing && s.tab == HomeTab::Reports {
        HomeKeyAction::EditReportSearch
    } else {
        match s.modal {
            HomeModal::ProjectsModal => HomeKeyAction::ProjectsModalKey,
            HomeModal::ProjectSettings => HomeKeyAction::ProjectSettingsKey,
            HomeModal::CreateProject => HomeKeyAction::CreateProjectKey,
            HomeModal::NoModal => match home_hotkey_action(s, h) {
                Some(a) => a,
                None => home_plain_action(s, key, shift),
            },
        }
    }
}

fn move_step(current: usize, count: usize, down: bool, shift: bool) -> (r: ListStep)
    ensures
        r == list_step(current, count, down, shift),
{
    crate::home::home_list_step(current, count, down, shift)
}

fn hotkey_step(s: &HomeKeyState, h: HomeHotkey) -> (r: Option<HomeKeyAction>)
    ensures
        r == home_hotkey_action(*s, h),
{
    match h {
        HomeHotkey::Quit => Some(HomeKeyAction::Quit),
        HomeHotkey::SearchReports => Some(HomeKeyAction::StartReportSearch),
        HomeHotkey::SwitchProject => Some(HomeKeyAction::OpenProjectsModal(false)),
        HomeHotkey::TimeFilter => Some(HomeKeyAction::CycleTimeFilter),
        HomeHotkey::AgentBrowser => Some(HomeKeyAction::OpenAgentBrowser),
        HomeHotkey::CreateProject => Some(HomeKeyAction::OpenCreateProject),
        HomeHotkey::NewConversation => Some(HomeKeyAction::NewConversation),
        HomeHotkey::NewConversationWithPicker => Some(HomeKeyAction::OpenProjectsModal(true)),
        HomeHotkey::ShowHideArchived => Some(HomeKeyAction::ToggleShowArchived),
        HomeHotkey::ToggleHideScheduled => if !s.sidebar_focused {
            Some(HomeKeyAction::ToggleHideScheduled)
        } else {
            None
        },
        HomeHotkey::NextHomeTab => Some(HomeKeyAction::SetTab(crate::home::next_home_tab(s.tab))),
        HomeHotkey::PrevHomeTab => Some(HomeKeyAction::SetTab(crate::home::prev_home_tab(s.tab))),
        HomeHotkey::FocusSidebar => if s.tab == HomeTab::Stats {
            Some(HomeKeyAction::NextStatsSubtab)
        } else {
            Some(HomeKeyAction::SetSidebarFocus(true))
        },
        HomeHotkey::UnfocusSidebar => Some(HomeKeyAction::SetSidebarFocus(false)),
        HomeHotkey::Other => None,
    }
}

fn char_step(s: &HomeKeyState, c: char, shift: bool) -> (r: HomeKeyAction)
    ensures
        r == home_char_action(*s, c, shift),
{
    let side = s.sidebar_focused;
    let idx = s.sidebar_index;
    let has_project = idx < s.project_count;
    let has_row = s.selection < s.row_count;
    if c == 'h' && s.tab == HomeTab::Stats {
        HomeKeyAction::PrevStatsSubtab
    } else if c == 'l' && s.tab == HomeTab::Stats {
        HomeKeyAction::NextStatsSubtab
    } else if c == ' ' && side {
        if has_project { HomeKeyAction::ToggleProjectVisibility(idx) } else { HomeKeyAction::Nothing }
    } else if c == 's' && side {
        if has_project { HomeKeyAction::OpenProjectSettings(idx) } else { HomeKeyAction::Nothing }
    } else if c == 'S' && side && shift {
        if has_project { HomeKeyAction::StopProject(idx) } else { HomeKeyAction::Nothing }
    } else if c == 'b' && side {
        if idx >= s.online_count {
            if has_project {
                HomeKeyAction::BootProject(idx - s.online_count)
            } else {
                HomeKeyAction::Nothing
            }
        } else {
            HomeKeyAction::ProjectAlreadyOnline
        }
    } else if c == 'r' && s.tab == HomeTab::Inbox {
        if has_row { HomeKeyAction::MarkInboxRead(s.selection) } else { HomeKeyAction::Nothing }
    } else if c == ' ' && s.tab == HomeTab::Conversations {
        if has_row { HomeKeyAction::ToggleThreadCollapse(s.selection) } else { HomeKeyAction::Nothing }
    } else if c == 'c' && s.tab == HomeTab::Conversations {
        HomeKeyAction::ToggleCollapseAll
    } else if (c == 'k' || c == 'K') && !side {
        HomeKeyAction::Move(move_step(s.selection, s.row_count, false, shift))
    } else if (c == 'j' || c == 'J') && !side {
        HomeKeyAction::Move(move_step(s.selection, s.row_count, true, shift))
    } else if c == 'a' && !side && s.tab != HomeTab::Reports {
        if s.has_multi_selection {
            HomeKeyAction::ArchiveMultiSelected
        } else if has_row {
            HomeKeyAction::ToggleArchived(s.selection)
        } else {
            HomeKeyAction::Nothing
        }
    } else if '2' <= c && c <= '9' {
        let i = ((c as u32) - ('2' as u32)) as usize;
        if i < s.open_tabs {
            HomeKeyAction::SwitchToTab(i)
        } else {
            HomeKeyAction::Nothing
        }
    } else {
        HomeKeyAction::Nothing
    }
}

/// The home view's key handling: the reports search field while typing,
/// the project modals, the resolved hotkey (`h`), then the plain bindings
/// for the Stats subtabs, list and sidebar navigation (Shift extends the
/// multi-selection), the project sidebar's actions, opening, marking,
/// collapsing and archiving the selected row, and the digits 2 to 9 for
/// the open tabs.
pub fn handle_home_view_key(s: &HomeKeyState, key: Key, shift: bool, h: HomeHotkey) -> (r: HomeKeyAction)
    ensures
        r == home_key_action(*s, key, shift, h),
{
    if s.editing && s.tab == HomeTab::Reports {
        return HomeKeyAction::EditReportSearch;
    }
    match s.modal {
        HomeModal::ProjectsModal => return HomeKeyAction::ProjectsModalKey,
        HomeModal::ProjectSettings => return HomeKeyAction::ProjectSettingsKey,
        HomeModal::CreateProject => return HomeKeyAction::CreateProjectKey,
        HomeModal::NoModal => {},
    }
    if let Some(a) = hotkey_step(s, h) {
        return a;
    }
    let idx = s.sidebar_index;
    match key {
        Key::Char(c) => char_step(s, c, shift),
        Key::Left => if s.tab == HomeTab::Stats {
            HomeKeyAction::PrevStatsSubtab
        } else {
            HomeKeyAction::Nothing
        },
        Key::Up => if s.sidebar_focused {
            HomeKeyAction::SidebarMove(crate::home::sidebar_step(idx, s.project_count, false))
        } else {
            HomeKeyAction::Move(move_step(s.selection, s.row_count, false, shift))
        },
        Key::Down => if s.sidebar_focused {
            HomeKeyAction::SidebarMove(crate::home::sidebar_step(idx, s.project_count, true))
        } else {
            HomeKeyAction::Move(move_step(s.selection, s.row_count, true, shift))
        },
        Key::Enter => if s.sidebar_focused {
            if idx < s.project_count {
                HomeKeyAction::OpenProjectActions { index: idx, online: idx < s.online_count }
            } else {
                HomeKeyAction::Nothing
            }
        } else if s.tab != HomeTab::Stats && s.selection < s.row_count {
            HomeKeyAction::OpenSelected(s.tab, s.selection)
        } else {
            HomeKeyAction::Nothing
        },
        Key::Esc => if s.tab == HomeTab::Reports && !s.report_filter_empty {
            HomeKeyAction::ClearReportFilter
        } else {
            HomeKeyAction::Nothing
        },
        _ => HomeKeyAction::Nothing,
    }
}

/// The rows behind the home tabs' lists, each by the conversation it
/// leads to.
pub struct HomeRows {
    /// The conversation of each row of the conversation tree.
    pub conversations: Vec<String>,
    /// The conversation of each inbox item, where it has one.
    pub inbox: Vec<Option<String>>,
    /// The conversation of each feed item.
    pub feed: Vec<String>,
    /// For each running operation: its own conversation, if it names one,
    /// and the conversation that its event belongs to, if that is known.
    pub active_work: Vec<(Option<String>, Option<String>)>,
}

/// The conversation of a running operation: the one it names, else the
/// one its event belongs to.
pub open spec fn operation_thread(named: Option<Seq<char>>, by_event: Option<Seq<char>>) -> Option<Seq<char>> {
    match named {
        Some(t) => Some(t),
        None => by_event,
    }
}

/// The conversation at row `index` of the home tab `tab`; reports and
/// statistics lead to none.
pub open spec fn thread_at(rows: HomeRows, tab: HomeTab, index: int) -> Option<Seq<char>> {
    match tab {
        HomeTab::Conversations => if 0 <= index < rows.conversations@.len() {
            Some(rows.conversations@[index]@)
        } else {
            None
        },
        HomeTab::Inbox => if 0 <= index < rows.inbox@.len() {
            opt_view(rows.inbox@[index])
        } else {
            None
        },
        HomeTab::Feed => if 0 <= index < rows.feed@.len() {
            Some(rows.feed@[index]@)
        } else {
            None
        },
        HomeTab::ActiveWork => if 0 <= index < rows.active_work@.len() {
            operation_thread(opt_view(rows.active_work@[index].0), opt_view(rows.active_work@[index].1))
        } else {
            None
        },
        HomeTab::Reports | HomeTab::Stats => None,
    }
}

fn clone_opt(s: &Option<String>) -> (r: Option<String>)
    ensures
        opt_view(r) == opt_view(*s),
{
    match s {
        Some(x) => Some(x.clone()),
        None => None,
    }
}

/// The conversation at row `index` of the home tab `tab`, for the
/// selection and multi-selection keys.
pub fn thread_id_at_index(rows: &HomeRows, tab: HomeTab, index: usize) -> (r: Option<String>)
    ensures
        opt_view(r) == thread_at(*rows, tab, index as int),
{
    match tab {
        HomeTab::Conversations => if index < rows.conversations.len() {
            Some(rows.conversations[index].clone())
        } else {
            None
        },
        HomeTab::Inbox => if index < rows.inbox.len() {
            clone_opt(&rows.inbox[index])
        } else {
            None
        },
        HomeTab::Feed => if index < rows.feed.len() {
            Some(rows.feed[index].clone())
        } else {
            None
        },
        HomeTab::ActiveWork => if index < rows.active_work.len() {
            let (named, by_event) = &rows.active_work[index];
            match named {
                Some(t) => Some(t.clone()),
                None => clone_opt(by_event),
            }
        } else {
            None
        },
        HomeTab::Reports | HomeTab::Stats => None,
    }
}

/// Whatever the keys and hotkeys, the row a home key acts on is a row of
/// the list, and a sidebar action names a project of the sidebar.
pub proof fn lemma_home_keys_act_on_existing_rows(s: HomeKeyState, key: Key, shift: bool, h: HomeHotkey)
    ensures
        ({
            let a = home_key_action(s, key, shift, h);
            &&& a matches HomeKeyAction::OpenSelected(_, i) ==> i < s.row_count
            &&& a matches HomeKeyAction::MarkInboxRead(i) ==> i < s.row_count
            &&& a matches HomeKeyAction::ToggleThreadCollapse(i) ==> i < s.row_count
            &&& a matches HomeKeyAction::ToggleArchived(i) ==> i < s.row_count
            &&& a matches HomeKeyAction::ToggleProjectVisibility(i) ==> i < s.project_count
            &&& a matches HomeKeyAction::OpenProjectSettings(i) ==> i < s.project_count
            &&& a matches HomeKeyAction::StopProject(i) ==> i < s.project_count
            &&& a matches HomeKeyAction::OpenProjectActions { index, .. } ==> index < s.project_count
            &&& a matches HomeKeyAction::BootProject(i) ==> s.online_count + i < s.project_count
            &&& a matches HomeKeyAction::SwitchToTab(i) ==> i < s.open_tabs
        }),
{
}

// ----------------------------------------------------------------------
// Chat view, normal mode
// ----------------------------------------------------------------------

/// A hotkey of the chat view's normal mode, as the registry resolves it.
#[derive(Debug, Clone, Copy, PartialEq, Eq, Structural)]
pub enum ChatHotkey {
    AgentBrowser,
    CreateProject,
    NewConversation,
    NewConversationWithPicker,
    ShowHideArchived,
    SelectBranchAlt,
    GoToHome,
    CloseTab,
    InConversationSearch,
    /// No hotkey, or one that later handlers deal with.
    Other,
}

/// What chat normal mode reads of the application.
#[derive(Debug, Clone, Copy)]
pub struct ChatNormalState {
    pub sidebar_focused: bool,
    /// The conversation sidebar is shown and has items.
    pub sidebar_has_items: bool,
    pub open_tabs: usize,
}

/// What a key does in chat normal mode.
#[derive(Debug, Clone, Copy, PartialEq, Eq, Structural)]
pub enum ChatNormalAction {
    UnfocusSidebar,
    SidebarUp,
    SidebarDown,
    /// Open the selected sidebar item (a delegation or a report), then
    /// leave the sidebar.
    ActivateSidebarItem,
    OpenAgentBrowser,
    OpenCreateProject,
    /// A new conversation with the same project, agent and branch.
    NewConversationSameContext,
    NewConversationWithPicker,
    ToggleShowArchived,
    OpenBranchSelector,
    GoHome,
    CloseTab,
    EnterChatSearch,
    SwitchToTab(usize),
    /// The key is consumed without effect.
    Consumed,
    ToggleSidebarFocus,
    PrevTab,
    NextTab,
    FocusSidebar,
    /// The key goes on to the normal-mode handler.
    NotHandled,
}

/// What a resolved hotkey does in chat normal mode.
pub open spec fn chat_hotkey_action(h: ChatHotkey) -> Option<ChatNormalAction> {
    match h {
        ChatHotkey::AgentBrowser => Some(ChatNormalAction::OpenAgentBrowser),
        ChatHotkey::CreateProject => Some(ChatNormalAction::OpenCreateProject),
        ChatHotkey::NewConversation => Some(ChatNormalAction::NewConversationSameContext),
        ChatHotkey::NewConversationWithPicker => Some(ChatNormalAction::NewConversationWithPicker),
        ChatHotkey::ShowHideArchived => Some(ChatNormalAction::ToggleShowArchived),
        ChatHotkey::SelectBranchAlt => Some(ChatNormalAction::OpenBranchSelector),
        ChatHotkey::GoToHome => Some(ChatNormalAction::GoHome),
        ChatHotkey::CloseTab => Some(ChatNormalAction::CloseTab),
        ChatHotkey::InConversationSearch => Some(ChatNormalAction::EnterChatSearch),
        ChatHotkey::Other => None,
    }
}

/// What a key does while the conversation sidebar has the focus; `None`
/// passes it on.
pub open spec fn sidebar_focus_action(key: Key) -> Option<ChatNormalAction> {
    match key {
        Key::Esc | Key::Char('h') | Key::Tab => Some(ChatNormalAction::UnfocusSidebar),
        Key::Up | Key::Char('k') => Some(ChatNormalAction::SidebarUp),
        Key::Down | Key::Char('j') => Some(ChatNormalAction::SidebarDown),
        Key::Enter => Some(ChatNormalAction::ActivateSidebarItem),
        _ => None,
    }
}

/// What a key does in chat normal mode: the focused sidebar's keys, then
/// the resolved hotkey, then the digits 2 to 9 (open tabs), Tab (sidebar
/// focus when the sidebar has items, else the next tab, or with Shift the
/// previous one) and `l` (focus the sidebar).
pub open spec fn chat_normal_action(s: ChatNormalState, key: Key, shift: bool, h: ChatHotkey) -> ChatNormalAction {
    if s.sidebar_focused && sidebar_focus_action(key) is Some {
        sidebar_focus_action(key)->0
    } else if chat_hotkey_action(h) is Some {
        chat_hotkey_action(h)->0
    } else {
        match key {
            Key::Char(c) => if digit_tab(c) is Some {
                if digit_tab(c)->0 < s.open_tabs {
                    ChatNormalAction::SwitchToTab(digit_tab(c)->0)
                } else {
                    ChatNormalAction::Consumed
                }
            } else if c == 'l' && s.sidebar_has_items {
                ChatNormalAction::FocusSidebar
            } else {
                ChatNormalAction::NotHandled
            },
            Key::Tab => if s.sidebar_has_items {
                ChatNormalAction::ToggleSidebarFocus
            } else if shift {
                ChatNormalAction::PrevTab
            } else {
                ChatNormalAction::NextTab
            },
            _ => ChatNormalAction::NotHandled,
        }
    }
}

/// Chat normal mode's own keys, before the general normal-mode handler.
pub fn handle_chat_normal_mode(s: &ChatNormalState, key: Key, shift: bool, h: ChatHotkey) -> (r: ChatNormalAction)
    ensures
        r == chat_normal_action(*s, key, shift, h),
{
    if s.sidebar_focused {
        match key {
            Key::Esc | Key::Char('h') | Key::Tab => return ChatNormalAction::UnfocusSidebar,
            Key::Up | Key::Char('k') => return ChatNormalAction::SidebarUp,
            Key::Down | Key::Char('j') => return ChatNormalAction::SidebarDown,
            Key::Enter => return ChatNormalAction::ActivateSidebarItem,
            _ => {},
        }
    }
    match h {
        ChatHotkey::AgentBrowser => return ChatNormalAction::OpenAgentBrowser,
        ChatHotkey::CreateProject => return ChatNormalAction::OpenCreateProject,
        ChatHotkey::NewConversation => return ChatNormalAction::NewConversationSameContext,
        ChatHotkey::NewConversationWithPicker => return ChatNormalAction::NewConversationWithPicker,
        ChatHotkey::ShowHideArchived => return ChatNormalAction::ToggleShowArchived,
        ChatHotkey::SelectBranchAlt => return ChatNormalAction::OpenBranchSelector,
        ChatHotkey::GoToHome => return ChatNormalAction::GoHome,
        ChatHotkey::CloseTab => return ChatNormalAction::CloseTab,
        ChatHotkey::InConversationSearch => return ChatNormalAction::EnterChatSearch,
        ChatHotkey::Other => {},
    }
    match key {
        Key::Char(c) => if '2' <= c && c <= '9' {
            let i = ((c as u32) - ('2' as u32)) as usize;
            if i < s.open_tabs {
                ChatNormalAction::SwitchToTab(i)
            } else {
                ChatNormalAction::Consumed
            }
        } else if c == 'l' && s.sidebar_has_items {
            ChatNormalAction::FocusSidebar
        } else {
            ChatNormalAction::NotHandled
        },
        Key::Tab => if s.sidebar_has_items {
            ChatNormalAction::ToggleSidebarFocus
        } else if shift {
            ChatNormalAction::PrevTab
        } else {
            ChatNormalAction::NextTab
        },
        _ => ChatNormalAction::NotHandled,
    }
}

/// The status shown after a new conversation opens with the same project,
/// agent and branch.
pub fn same_context_status() -> (r: &'static str)
    ensures
        r@ == "New conversation (same project, agent, and branch)"@,
{
    "New conversation (same project, agent, and branch)"
}

} // verus!
