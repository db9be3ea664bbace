//! Normal-mode key handling outside the editor: from the view state and a
//! key, the action the application performs.

use vstd::prelude::*;
use crate::view_state::{AppView, InputMode};

verus! {

/// A key of the keyboard, as the handlers distinguish them.
#[derive(Debug, Clone, Copy, PartialEq, Eq, Structural)]
pub enum Key {
    Char(char),
    Backspace,
    Up,
    Down,
    Left,
    Right,
    Home,
    End,
    PageUp,
    PageDown,
    Enter,
    Esc,
    Tab,
    BackTab,
    Delete,
    Other,
}

/// The view state that normal-mode keys read.
#[derive(Debug, Clone, Copy)]
pub struct NormalModeState {
    pub view: AppView,
    /// The agent browser shows one agent's details.
    pub in_agent_detail: bool,
    /// The chat has agents to mention.
    pub has_available_agents: bool,
    /// The selected row of the conversation.
    pub selected_message_index: usize,
    /// The number of rows of the conversation.
    pub display_item_count: usize,
    /// The chat shows a subthread.
    pub in_subthread: bool,
    /// The chat was entered through a delegation that can be popped.
    pub has_navigation_stack: bool,
}

/// What a normal-mode key does.
#[derive(Debug, Clone, Copy, PartialEq, Eq, Structural)]
pub enum NormalModeAction {
    Quit,
    OpenAgentSelector,
    StopAgents,
    ToggleTodoSidebar,
    OpenFirstImage,
    /// Scroll down by this many lines.
    ScrollDown(usize),
    /// Scroll up by this many lines.
    ScrollUp(usize),
    ForkViewedAgent,
    CloneViewedAgent,
    NewAgent,
    AppendToAgentFilter(char),
    BackspaceAgentFilter,
    /// Show this section of the lesson, when the lesson has it.
    SelectLessonSection(usize),
    /// Select this row of the conversation.
    SelectMessage(usize),
    FocusInput,
    SelectPrevAgent,
    SelectNextAgent,
    ScrollToTop,
    ScrollToBottom,
    ChatEnter,
    EnterAgentDetail,
    ExitSubthread,
    PopNavigation,
    CloseTab,
    LeaveLessonViewer,
    ExitAgentDetail,
    LeaveAgentBrowser,
    Nothing,
}

/// What a character key does in normal mode.
pub open spec fn char_action(s: NormalModeState, c: char) -> NormalModeAction {
    let chat = s.view == AppView::Chat;
    let lesson = s.view == AppView::LessonViewer;
    let browser = s.view == AppView::AgentBrowser;
    let detail = s.in_agent_detail;
    if c == 'a' && chat && s.has_available_agents {
        NormalModeAction::OpenAgentSelector
    } else if c == '@' && chat && s.has_available_agents {
        NormalModeAction::OpenAgentSelector
    } else if c == '.' && chat {
        NormalModeAction::StopAgents
    } else if c == 't' && chat {
        NormalModeAction::ToggleTodoSidebar
    } else if c == 'o' && chat {
        NormalModeAction::OpenFirstImage
    } else if c == 'j' && lesson {
        NormalModeAction::ScrollDown(3)
    } else if c == 'k' && lesson {
        NormalModeAction::ScrollUp(3)
    } else if c == 'j' && browser && detail {
        NormalModeAction::ScrollDown(3)
    } else if c == 'k' && browser && detail {
        NormalModeAction::ScrollUp(3)
    } else if c == 'f' && browser && detail {
        NormalModeAction::ForkViewedAgent
    } else if c == 'c' && browser && detail {
        NormalModeAction::CloneViewedAgent
    } else if c == 'n' && browser && !detail {
        NormalModeAction::NewAgent
    } else if browser && !detail && c != 'q' && c != 'n' {
        NormalModeAction::AppendToAgentFilter(c)
    } else if '1' <= c && c <= '5' && lesson {
        NormalModeAction::SelectLessonSection(((c as int) - ('1' as int)) as usize)
    } else {
        NormalModeAction::Nothing
    }
}

/// What a key does in normal mode, outside the editor.
pub open spec fn normal_mode_action_for(s: NormalModeState, key: Key) -> NormalModeAction {
    let chat = s.view == AppView::Chat;
    let lesson = s.view == AppView::LessonViewer;
    let browser = s.view == AppView::AgentBrowser;
    match key {
        Key::Char(c) => if c == 'q' {
            NormalModeAction::Quit
        } else {
            char_action(s, c)
        },
        Key::Backspace => if browser && !s.in_agent_detail {
            NormalModeAction::BackspaceAgentFilter
        } else {
            NormalModeAction::Nothing
        },
        Key::Up => if chat {
            if s.selected_message_index > 0 {
                NormalModeAction::SelectMessage((s.selected_message_index - 1) as usize)
            } else {
                NormalModeAction::Nothing
            }
        } else if lesson {
            NormalModeAction::ScrollUp(3)
        } else if browser {
            if s.in_agent_detail {
                NormalModeAction::ScrollUp(3)
            } else {
                NormalModeAction::SelectPrevAgent
            }
        } else {
            NormalModeAction::Nothing
        },
        Key::Down => if lesson {
            NormalModeAction::ScrollDown(3)
        } else if browser {
            if s.in_agent_detail {
                NormalModeAction::ScrollDown(3)
            } else {
                NormalModeAction::SelectNextAgent
            }
        } else if chat {
            if s.selected_message_index + 1 < s.display_item_count {
                NormalModeAction::SelectMessage((s.selected_message_index + 1) as usize)
            } else {
                NormalModeAction::FocusInput
            }
        } else {
            NormalModeAction::Nothing
        },
        Key::Home => if chat {
            NormalModeAction::ScrollToTop
        } else {
            NormalModeAction::Nothing
        },
        Key::End => if chat {
            NormalModeAction::ScrollToBottom
        } else {
            NormalModeAction::Nothing
        },
        Key::PageUp => if chat {
            NormalModeAction::ScrollUp(20)
        } else {
            NormalModeAction::Nothing
        },
        Key::PageDown => if chat {
            NormalModeAction::ScrollDown(20)
        } else {
            NormalModeAction::Nothing
        },
        Key::Enter => if chat {
            NormalModeAction::ChatEnter
        } else if browser && !s.in_agent_detail {
            NormalModeAction::EnterAgentDetail
        } else {
            NormalModeAction::Nothing
        },
        Key::Esc => if chat {
            if s.in_subthread {
                NormalModeAction::ExitSubthread
            } else if s.has_navigation_stack {
                NormalModeAction::PopNavigation
            } else {
                NormalModeAction::CloseTab
            }
        } else if lesson {
            NormalModeAction::LeaveLessonViewer
        } else if browser {
            if s.in_agent_detail {
                NormalModeAction::ExitAgentDetail
            } else {
                NormalModeAction::LeaveAgentBrowser
            }
        } else {
            NormalModeAction::Nothing
        },
        Key::Tab => NormalModeAction::Nothing,
        Key::Left | Key::Right | Key::BackTab | Key::Delete | Key::Other => NormalModeAction::Nothing,
    }
}

/// What a character key does in normal mode: agent mention, stop, sidebar
/// and image keys in the chat; scrolling and lesson sections in the lesson
/// viewer; forking, cloning, creating and filtering agents in the browser.
pub fn handle_normal_mode_char(s: &NormalModeState, c: char) -> (r: NormalModeAction)
    ensures
        r == char_action(*s, c),
{
    let chat = s.view == AppView::Chat;
    let lesson = s.view == AppView::LessonViewer;
    let browser = s.view == AppView::AgentBrowser;
    let detail = s.in_agent_detail;
    if c == 'a' && chat && s.has_available_agents {
        NormalModeAction::OpenAgentSelector
    } else if c == '@' && chat && s.has_available_agents {
        NormalModeAction::OpenAgentSelector
    } else if c == '.' && chat {
        NormalModeAction::StopAgents
    } else if c == 't' && chat {
        NormalModeAction::ToggleTodoSidebar
    } else if c == 'o' && chat {
        NormalModeAction::OpenFirstImage
    } else if c == 'j' && lesson {
        NormalModeAction::ScrollDown(3)
    } else if c == 'k' && lesson {
        NormalModeAction::ScrollUp(3)
    } else if c == 'j' && browser && detail {
        NormalModeAction::ScrollDown(3)
    } else if c == 'k' && browser && detail {
        NormalModeAction::ScrollUp(3)
    } else if c == 'f' && browser && detail {
        NormalModeAction::ForkViewedAgent
    } else if c == 'c' && browser && detail {
        NormalModeAction::CloneViewedAgent
    } else if c == 'n' && browser && !detail {
        NormalModeAction::NewAgent
    } else if browser && !detail && c != 'q' && c != 'n' {
        NormalModeAction::AppendToAgentFilter(c)
    } else if '1' <= c && c <= '5' && lesson {
        NormalModeAction::SelectLessonSection(((c as u32) - ('1' as u32)) as usize)
    } else {
        NormalModeAction::Nothing
    }
}

/// What a key does in normal mode outside the editor: `q` quits, other
/// characters go to `handle_normal_mode_char`, arrows move the selection or
/// scroll, Enter opens, Escape backs out one level.
pub fn handle_normal_mode(s: &NormalModeState, key: Key) -> (r: NormalModeAction)
    ensures
        r == normal_mode_action_for(*s, key),
{
    let chat = s.view == AppView::Chat;
    let lesson = s.view == AppView::LessonViewer;
    let browser = s.view == AppView::AgentBrowser;
    match key {
        Key::Char(c) => if c == 'q' {
            NormalModeAction::Quit
        } else {
            handle_normal_mode_char(s, c)
        },
        Key::Backspace => if browser && !s.in_agent_detail {
            NormalModeAction::BackspaceAgentFilter
        } else {
            NormalModeAction::Nothing
        },
        Key::Up => if chat {
            if s.selected_message_index > 0 {
                NormalModeAction::SelectMessage(s.selected_message_index - 1)
            } else {
                NormalModeAction::Nothing
            }
        } else if lesson {
            NormalModeAction::ScrollUp(3)
        } else if browser {
            if s.in_agent_detail {
                NormalModeAction::ScrollUp(3)
            } else {
                NormalModeAction::SelectPrevAgent
            }
        } else {
            NormalModeAction::Nothing
        },
        Key::Down => if lesson {
            NormalModeAction::ScrollDown(3)
        } else if browser {
            if s.in_agent_detail {
                NormalModeAction::ScrollDown(3)
            } else {
                NormalModeAction::SelectNextAgent
            }
        } else if chat {
            if s.selected_message_index < s.display_item_count.saturating_sub(1) {
                NormalModeAction::SelectMessage(s.selected_message_index + 1)
            } else {
                NormalModeAction::FocusInput
            }
        } else {
            NormalModeAction::Nothing
        },
        Key::Home => if chat {
            NormalModeAction::ScrollToTop
        } else {
            NormalModeAction::Nothing
        },
        Key::End => if chat {
            NormalModeAction::ScrollToBottom
        } else {
            NormalModeAction::Nothing
        },
        Key::PageUp => if chat {
            NormalModeAction::ScrollUp(20)
        } else {
            NormalModeAction::Nothing
        },
        Key::PageDown => if chat {
            NormalModeAction::ScrollDown(20)
        } else {
            NormalModeAction::Nothing
        },
        Key::Enter => if chat {
            NormalModeAction::ChatEnter
        } else if browser && !s.in_agent_detail {
            NormalModeAction::EnterAgentDetail
        } else {
            NormalModeAction::Nothing
        },
        Key::Esc => if chat {
            if s.in_subthread {
                NormalModeAction::ExitSubthread
            } else if s.has_navigation_stack {
                NormalModeAction::PopNavigation
            } else {
                NormalModeAction::CloseTab
            }
        } else if lesson {
            NormalModeAction::LeaveLessonViewer
        } else if browser {
            if s.in_agent_detail {
                NormalModeAction::ExitAgentDetail
            } else {
                NormalModeAction::LeaveAgentBrowser
            }
        } else {
            NormalModeAction::Nothing
        },
        Key::Tab => NormalModeAction::Nothing,
        Key::Left | Key::Right | Key::BackTab | Key::Delete | Key::Other => NormalModeAction::Nothing,
    }
}

/// The kind of modal on screen, as far as key routing cares.
#[derive(Debug, Clone, Copy, PartialEq, Eq, Structural)]
pub enum ModalKind {
    /// No modal is open.
    NoModal,
    CommandPalette,
    AgentSelector,
    ProjectsModal,
    CreateAgent,
    CreateProject,
    ProjectSettings,
    AgentSettings,
    ExpandedEditor,
    AskModal,
    /// The debug statistics modal on its e-tag query tab.
    DebugStatsETagQuery,
    HotkeyHelp,
    WorkspaceManager,
    /// Any other modal.
    Other,
}

/// A global hotkey, as the hotkey registry resolves it.
#[derive(Debug, Clone, Copy, PartialEq, Eq, Structural)]
pub enum GlobalHotkey {
    CommandPalette,
    Help,
    JumpToNotification,
    WorkspaceManager,
    /// A hotkey that a later handler deals with.
    Other,
}

/// What a resolved global hotkey does.
#[derive(Debug, Clone, Copy, PartialEq, Eq, Structural)]
pub enum GlobalHotkeyAction {
    OpenCommandPalette,
    ShowHelp,
    JumpToNotification,
    OpenWorkspaceManager,
    /// The key is consumed without effect (its modal is already open).
    Consumed,
    /// The key goes on to the later handlers.
    NotHandled,
}

/// The audio player keys.
#[derive(Debug, Clone, Copy, PartialEq, Eq, Structural)]
pub enum AudioKey {
    Stop,
    Replay,
}

/// What global tab navigation does with a key.
#[derive(Debug, Clone, Copy, PartialEq, Eq, Structural)]
pub enum TabNavigation {
    JumpToNotification,
    GoHome,
    /// Switch to this open tab and show the chat.
    SwitchToTab(usize),
    /// The key is consumed without effect (no such tab).
    Consumed,
    NotHandled,
}

/// The handler that a key reaches once modals and global keys passed on it.
#[derive(Debug, Clone, Copy, PartialEq, Eq, Structural)]
pub enum ViewRoute {
    Home,
    ChatEditor,
    /// Chat normal-mode keys first, then the normal-mode handler.
    ChatNormal,
    Normal,
    Editing,
}

/// Whether single keys are text for an input rather than hotkeys.
pub open spec fn text_input_context(view: AppView, input_mode: InputMode, modal: ModalKind) -> bool {
    ||| view == AppView::Login
    ||| input_mode == InputMode::Editing
    ||| modal == ModalKind::DebugStatsETagQuery
    ||| modal == ModalKind::CommandPalette
    ||| modal == ModalKind::AgentSelector
    ||| modal == ModalKind::ProjectsModal
    ||| modal == ModalKind::CreateAgent
    ||| modal == ModalKind::CreateProject
    ||| modal == ModalKind::ProjectSettings
    ||| modal == ModalKind::AgentSettings
    ||| modal == ModalKind::ExpandedEditor
    ||| modal == ModalKind::AskModal
}

/// What a resolved global hotkey does.
pub open spec fn hotkey_action(hotkey: GlobalHotkey, in_text_input: bool, modal: ModalKind) -> GlobalHotkeyAction {
    match hotkey {
        GlobalHotkey::CommandPalette => if modal != ModalKind::CommandPalette {
            GlobalHotkeyAction::OpenCommandPalette
        } else {
            GlobalHotkeyAction::Consumed
        },
        GlobalHotkey::Help => if in_text_input {
            GlobalHotkeyAction::NotHandled
        } else if modal != ModalKind::HotkeyHelp {
            GlobalHotkeyAction::ShowHelp
        } else {
            GlobalHotkeyAction::Consumed
        },
        GlobalHotkey::JumpToNotification => GlobalHotkeyAction::JumpToNotification,
        GlobalHotkey::WorkspaceManager => if modal != ModalKind::WorkspaceManager {
            GlobalHotkeyAction::OpenWorkspaceManager
        } else {
            GlobalHotkeyAction::Consumed
        },
        GlobalHotkey::Other => GlobalHotkeyAction::NotHandled,
    }
}

/// The tab that a macOS Option+digit character stands for (Option+2 is
/// the first tab).
pub open spec fn option_digit_tab(c: char) -> Option<usize> {
    if c == '\u{2122}' { Some(0usize) }
    else if c == '\u{a3}' { Some(1usize) }
    else if c == '\u{a2}' { Some(2usize) }
    else if c == '\u{221e}' { Some(3usize) }
    else if c == '\u{a7}' { Some(4usize) }
    else if c == '\u{b6}' { Some(5usize) }
    else if c == '\u{2022}' { Some(6usize) }
    else if c == '\u{aa}' { Some(7usize) }
    else { None }
}

/// Switching to tab `i`, when it exists.
pub open spec fn switch_to(i: usize, open_tabs: usize) -> TabNavigation {
    if i < open_tabs {
        TabNavigation::SwitchToTab(i)
    } else {
        TabNavigation::Consumed
    }
}

/// What global tab navigation does with a key: macOS Option characters
/// (`\u{b5}`, `\u{a1}`, and the Option+2..9 characters) and Alt+1..9.
pub open spec fn tab_navigation(key: Key, alt: bool, open_tabs: usize) -> TabNavigation {
    match key {
        Key::Char(c) => if c == '\u{b5}' {
            TabNavigation::JumpToNotification
        } else if c == '\u{a1}' {
            TabNavigation::GoHome
        } else if option_digit_tab(c) is Some {
            switch_to(option_digit_tab(c)->0, open_tabs)
        } else if alt && c == '1' {
            TabNavigation::GoHome
        } else if alt && '2' <= c && c <= '9' {
            switch_to(((c as int) - ('2' as int)) as usize, open_tabs)
        } else {
            TabNavigation::NotHandled
        },
        _ => TabNavigation::NotHandled,
    }
}

/// The handler for a key that got past the modals and global keys.
pub open spec fn route_for(view: AppView, input_mode: InputMode) -> ViewRoute {
    if view == AppView::Home {
        ViewRoute::Home
    } else if view == AppView::Chat && input_mode == InputMode::Editing {
        ViewRoute::ChatEditor
    } else if view == AppView::Chat {
        ViewRoute::ChatNormal
    } else if input_mode == InputMode::Normal {
        ViewRoute::Normal
    } else {
        ViewRoute::Editing
    }
}

/// Whether single keys are text for an input rather than hotkeys: the
/// login view, editing mode, and modals with a text field.
pub fn in_text_input_context(view: AppView, input_mode: InputMode, modal: ModalKind) -> (r: bool)
    ensures
        r == text_input_context(view, input_mode, modal),
{
    view == AppView::Login || input_mode == InputMode::Editing || match modal {
        ModalKind::DebugStatsETagQuery | ModalKind::CommandPalette | ModalKind::AgentSelector
        | ModalKind::ProjectsModal | ModalKind::CreateAgent | ModalKind::CreateProject
        | ModalKind::ProjectSettings | ModalKind::AgentSettings | ModalKind::ExpandedEditor
        | ModalKind::AskModal => true,
        _ => false,
    }
}

/// Whether global hotkeys are looked up: always outside text input, and
/// inside it only for keys with Ctrl or Alt.
pub fn should_check_hotkeys(in_text_input: bool, ctrl: bool, alt: bool) -> (r: bool)
    ensures
        r == (!in_text_input || ctrl || alt),
{
    if in_text_input {
        ctrl || alt
    } else {
        true
    }
}

/// What a resolved global hotkey does: the command palette, help and the
/// workspace manager open unless already open (help not while typing);
/// the notification jump always runs.
pub fn global_hotkey_action(hotkey: GlobalHotkey, in_text_input: bool, modal: ModalKind) -> (r:
    GlobalHotkeyAction)
    ensures
        r == hotkey_action(hotkey, in_text_input, modal),
{
    match hotkey {
        GlobalHotkey::CommandPalette => if modal != ModalKind::CommandPalette {
            GlobalHotkeyAction::OpenCommandPalette
        } else {
            GlobalHotkeyAction::Consumed
        },
        GlobalHotkey::Help => if in_text_input {
            GlobalHotkeyAction::NotHandled
        } else if modal != ModalKind::HotkeyHelp {
            GlobalHotkeyAction::ShowHelp
        } else {
            GlobalHotkeyAction::Consumed
        },
        GlobalHotkey::JumpToNotification => GlobalHotkeyAction::JumpToNotification,
        GlobalHotkey::WorkspaceManager => if modal != ModalKind::WorkspaceManager {
            GlobalHotkeyAction::OpenWorkspaceManager
        } else {
            GlobalHotkeyAction::Consumed
        },
        GlobalHotkey::Other => GlobalHotkeyAction::NotHandled,
    }
}

/// The audio player key that a key stands for.
pub open spec fn audio_key_for(key: Key, alt: bool) -> Option<AudioKey> {
    if alt && key == Key::Char('s') {
        Some(AudioKey::Stop)
    } else if alt && key == Key::Char('r') {
        Some(AudioKey::Replay)
    } else {
        None
    }
}

/// The audio player key: Alt+S stops playback, Alt+R replays.
pub fn audio_hotkey(key: Key, alt: bool) -> (r: Option<AudioKey>)
    ensures
        r == audio_key_for(key, alt),
{
    if alt && key == Key::Char('s') {
        Some(AudioKey::Stop)
    } else if alt && key == Key::Char('r') {
        Some(AudioKey::Replay)
    } else {
        None
    }
}

fn option_digit(c: char) -> (r: Option<usize>)
    ensures
        r == option_digit_tab(c),
{
    if c == '\u{2122}' { Some(0) }
    else if c == '\u{a3}' { Some(1) }
    else if c == '\u{a2}' { Some(2) }
    else if c == '\u{221e}' { Some(3) }
    else if c == '\u{a7}' { Some(4) }
    else if c == '\u{b6}' { Some(5) }
    else if c == '\u{2022}' { Some(6) }
    else if c == '\u{aa}' { Some(7) }
    else { None }
}

/// Global tab navigation (all views but login): macOS Option+M, Option+1
/// and Option+2..9 characters, and Alt+1 (home) and Alt+2..9 (tab N-1).
/// A tab number beyond the open tabs is consumed without effect.
pub fn handle_global_tab_navigation(key: Key, alt: bool, open_tabs: usize) -> (r: TabNavigation)
    ensures
        r == tab_navigation(key, alt, open_tabs),
{
    match key {
        Key::Char(c) => {
            if c == '\u{b5}' {
                TabNavigation::JumpToNotification
            } else if c == '\u{a1}' {
                TabNavigation::GoHome
            } else if let Some(i) = option_digit(c) {
                if i < open_tabs {
                    TabNavigation::SwitchToTab(i)
                } else {
                    TabNavigation::Consumed
                }
            } else if alt && c == '1' {
                TabNavigation::GoHome
            } else if alt && '2' <= c && c <= '9' {
                let i = ((c as u32) - ('2' as u32)) as usize;
                if i < open_tabs {
                    TabNavigation::SwitchToTab(i)
                } else {
                    TabNavigation::Consumed
                }
            } else {
                TabNavigation::NotHandled
            }
        },
        _ => TabNavigation::NotHandled,
    }
}

/// The handler for a key that got past the modals and global keys: the
/// home view's, the chat editor's, chat normal mode's, or the input mode's.
pub fn view_route(view: AppView, input_mode: InputMode) -> (r: ViewRoute)
    ensures
        r == route_for(view, input_mode),
{
    if view == AppView::Home {
        ViewRoute::Home
    } else if view == AppView::Chat && input_mode == InputMode::Editing {
        ViewRoute::ChatEditor
    } else if view == AppView::Chat {
        ViewRoute::ChatNormal
    } else if input_mode == InputMode::Normal {
        ViewRoute::Normal
    } else {
        ViewRoute::Editing
    }
}

/// Up and Down move the way they point in every view that lists or
/// scrolls: in the agent list Down selects the next agent and Up the
/// previous one, Enter opens the agent and Escape leaves the browser; in
/// an agent's details and in the lesson viewer they scroll down and up by
/// three lines; in the chat Up selects the row above (if any) and Down the
/// row below, or the input below the last row. So in these views Up and
/// Down never do the same.
pub proof fn lemma_normal_mode_arrows_point_their_way(s: NormalModeState)
    ensures
        s.view == AppView::AgentBrowser && !s.in_agent_detail ==> {
            &&& normal_mode_action_for(s, Key::Down) == NormalModeAction::SelectNextAgent
            &&& normal_mode_action_for(s, Key::Up) == NormalModeAction::SelectPrevAgent
            &&& normal_mode_action_for(s, Key::Enter) == NormalModeAction::EnterAgentDetail
            &&& normal_mode_action_for(s, Key::Esc) == NormalModeAction::LeaveAgentBrowser
        },
        (s.view == AppView::AgentBrowser && s.in_agent_detail) || s.view == AppView::LessonViewer ==> {
            &&& normal_mode_action_for(s, Key::Down) == NormalModeAction::ScrollDown(3)
            &&& normal_mode_action_for(s, Key::Up) == NormalModeAction::ScrollUp(3)
        },
        s.view == AppView::Chat ==> {
            &&& s.selected_message_index > 0 ==> normal_mode_action_for(s, Key::Up)
                == NormalModeAction::SelectMessage((s.selected_message_index - 1) as usize)
            &&& s.selected_message_index == 0 ==> normal_mode_action_for(s, Key::Up)
                == NormalModeAction::Nothing
            &&& s.selected_message_index + 1 < s.display_item_count ==> normal_mode_action_for(
                s,
                Key::Down,
            ) == NormalModeAction::SelectMessage((s.selected_message_index + 1) as usize)
            &&& s.selected_message_index + 1 >= s.display_item_count ==> normal_mode_action_for(
                s,
                Key::Down,
            ) == NormalModeAction::FocusInput
        },
        s.view == AppView::Chat || s.view == AppView::LessonViewer || s.view == AppView::AgentBrowser
            ==> normal_mode_action_for(s, Key::Up) != normal_mode_action_for(s, Key::Down),
{
}

/// Character keys in normal mode: `q` quits in every view; in the agent
/// list `n` creates an agent, Backspace deletes from the name filter and
/// every other character but `q` is typed into it; in the lesson viewer
/// the digits 1 to 5 show sections 0 to 4; in the chat `.` stops the agents
/// and, when there are agents, `@` opens the agent selector.
pub proof fn lemma_normal_mode_characters(s: NormalModeState, c: char)
    ensures
        normal_mode_action_for(s, Key::Char('q')) == NormalModeAction::Quit,
        s.view == AppView::AgentBrowser && !s.in_agent_detail ==> {
            &&& normal_mode_action_for(s, Key::Char('n')) == NormalModeAction::NewAgent
            &&& normal_mode_action_for(s, Key::Backspace) == NormalModeAction::BackspaceAgentFilter
            &&& c != 'q' && c != 'n' ==> normal_mode_action_for(s, Key::Char(c))
                == NormalModeAction::AppendToAgentFilter(c)
        },
        s.view == AppView::LessonViewer && '1' <= c && c <= '5' ==> normal_mode_action_for(s, Key::Char(c))
            == NormalModeAction::SelectLessonSection(((c as int) - ('1' as int)) as usize),
        s.view == AppView::Chat ==> normal_mode_action_for(s, Key::Char('.')) == NormalModeAction::StopAgents,
        s.view == AppView::Chat && s.has_available_agents ==> normal_mode_action_for(s, Key::Char('@'))
            == NormalModeAction::OpenAgentSelector,
{
}

} // verus!
