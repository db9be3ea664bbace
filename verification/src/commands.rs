//! Command definitions for the command palette.
//!
//! Each command is defined once with its key, label, section and action;
//! whether it is available is decided from a snapshot of the application
//! state (`CommandContext`). The application carries out the chosen action.

use vstd::prelude::*;
use crate::text::{
    seq_char_lt, str_less, str_eq, lemma_seq_char_lt_irreflexive, lemma_seq_char_lt_transitive,
    lemma_seq_char_lt_total,
};
use crate::keys::Key;
use crate::view_state::{AppView, HomeTab, InputMode};
use crate::seq_facts::{lemma_filter_none, lemma_filter_push};

verus! {

/// A project of the sidebar, with the store facts the palette reads.
#[derive(Debug, Clone)]
pub struct ProjectSummary {
    /// The project's address tag.
    pub a_tag: String,
    /// Whether the project is archived.
    pub archived: bool,
    /// Whether any operation of the project is running.
    pub busy: bool,
}

/// The application state that command availability depends on.
pub struct CommandContext {
    pub view: AppView,
    pub sidebar_focused: bool,
    pub home_panel_focus: HomeTab,
    pub input_mode: InputMode,
    pub show_archived: bool,
    /// Whether the chat has agents to mention.
    pub has_available_agents: bool,
    pub has_selected_thread: bool,
    /// Whether the selected thread has a parent conversation.
    pub selected_thread_has_parent: bool,
    /// Whether the selected thread has a running operation.
    pub selected_thread_busy: bool,
    pub selected_message_has_trace: bool,
    pub has_undo_action: bool,
    pub in_agent_detail: bool,
    /// Online projects of the sidebar, in display order.
    pub online_projects: Vec<ProjectSummary>,
    /// Offline projects of the sidebar, shown after the online ones.
    pub offline_projects: Vec<ProjectSummary>,
    /// Index of the selected sidebar row, over online then offline projects.
    pub sidebar_project_index: usize,
}

/// What a command does; each command of the palette has its own action,
/// which the application carries out.
#[derive(Debug, Clone, Copy, PartialEq, Eq, Structural)]
pub enum CommandAction {
    OpenAppSettings,
    GoHome,
    ShowHelp,
    ShowDebugStats,
    Quit,
    OpenSelectedConversation,
    OpenSelectedInboxItem,
    ViewReport,
    ArchiveToggle,
    ExportJsonl,
    CycleTimeFilter,
    ShowArchived,
    HideArchived,
    MarkRead,
    MarkAllRead,
    Search,
    OpenAgentBrowser,
    OpenNudgeManager,
    CreateProject,
    ManageWorkspaces,
    NewConversation,
    NewConversationOnProject,
    ToggleProjectVisibility,
    OpenProjectSettings,
    BootProject,
    StopProjectAgents,
    ArchiveProject,
    UnarchiveProject,
    MentionAgent,
    ViewDrafts,
    GoToParent,
    CopyConversationId,
    OpenConversationTrace,
    ReferenceConversation,
    ForkConversation,
    CloseTab,
    ArchiveAndCloseTab,
    CopyMessageContent,
    ViewRawEvent,
    OpenMessageTrace,
    StopAgent,
    ToggleTodoSidebar,
    ExpandEditor,
    SaveDraft,
    SelectSkills,
    Undo,
    ViewAgent,
    ForkAgent,
    CloneAgent,
}

/// A command available in the palette.
#[derive(Debug, Clone, Copy)]
pub struct Command {
    pub key: char,
    pub label: &'static str,
    pub section: &'static str,
    pub action: CommandAction,
}

/// The home view with its main panel (not the sidebar) focused.
pub open spec fn home_main(ctx: CommandContext) -> bool {
    ctx.view == AppView::Home && !ctx.sidebar_focused
}

/// The home view with the project sidebar focused.
pub open spec fn home_sidebar(ctx: CommandContext) -> bool {
    ctx.view == AppView::Home && ctx.sidebar_focused
}

/// The project under the sidebar cursor, over online then offline projects.
pub open spec fn sidebar_project(ctx: CommandContext) -> Option<ProjectSummary> {
    let on = ctx.online_projects@;
    let off = ctx.offline_projects@;
    let i = ctx.sidebar_project_index as int;
    if i < on.len() {
        Some(on[i])
    } else if i - on.len() < off.len() {
        Some(off[i - on.len()])
    } else {
        None
    }
}

/// Whether an online project has this address tag.
pub open spec fn online_has_a_tag(ctx: CommandContext, a_tag: Seq<char>) -> bool {
    exists|k: int| 0 <= k < ctx.online_projects@.len() && #[trigger] ctx.online_projects@[k].a_tag@ == a_tag
}

/// Every command of the palette, each defined once, in definition order.
pub open spec fn command_list() -> Seq<Command> {
    seq![
        Command { key: ',', label: "Settings", section: "System", action: CommandAction::OpenAppSettings },
        Command { key: '1', label: "Go to Home", section: "Navigation", action: CommandAction::GoHome },
        Command { key: '?', label: "Help", section: "Navigation", action: CommandAction::ShowHelp },
        Command { key: 'D', label: "Debug stats", section: "System", action: CommandAction::ShowDebugStats },
        Command { key: 'q', label: "Quit", section: "System", action: CommandAction::Quit },
        Command { key: 'o', label: "Open selected", section: "Conversation", action: CommandAction::OpenSelectedConversation },
        Command { key: 'o', label: "Open selected", section: "Inbox", action: CommandAction::OpenSelectedInboxItem },
        Command { key: 'o', label: "View report", section: "Reports", action: CommandAction::ViewReport },
        Command { key: 'a', label: "Archive/Unarchive", section: "Conversation", action: CommandAction::ArchiveToggle },
        Command { key: 'e', label: "Export JSONL", section: "Conversation", action: CommandAction::ExportJsonl },
        Command { key: 'f', label: "Time filter", section: "Filter", action: CommandAction::CycleTimeFilter },
        Command { key: 'A', label: "Show archived items", section: "Filter", action: CommandAction::ShowArchived },
        Command { key: 'A', label: "Hide archived items", section: "Filter", action: CommandAction::HideArchived },
        Command { key: 'R', label: "Mark as read", section: "Inbox", action: CommandAction::MarkRead },
        Command { key: 'M', label: "Mark all read", section: "Inbox", action: CommandAction::MarkAllRead },
        Command { key: '/', label: "Search", section: "Filter", action: CommandAction::Search },
        Command { key: 'B', label: "Agent Browser", section: "Other", action: CommandAction::OpenAgentBrowser },
        Command { key: 'U', label: "Nudge Manager", section: "Other", action: CommandAction::OpenNudgeManager },
        Command { key: 'C', label: "Create project", section: "Other", action: CommandAction::CreateProject },
        Command { key: 'W', label: "Manage Workspaces", section: "Navigation", action: CommandAction::ManageWorkspaces },
        Command { key: 'N', label: "New conversation (current project)", section: "Conversation", action: CommandAction::NewConversation },
        Command { key: 'P', label: "New conversation on project...", section: "Conversation", action: CommandAction::NewConversationOnProject },
        Command { key: ' ', label: "Toggle visibility", section: "Project", action: CommandAction::ToggleProjectVisibility },
        Command { key: 's', label: "Settings", section: "Project", action: CommandAction::OpenProjectSettings },
        Command { key: 'b', label: "Boot project", section: "Project", action: CommandAction::BootProject },
        Command { key: '.', label: "Stop all agents", section: "Project", action: CommandAction::StopProjectAgents },
        Command { key: 'a', label: "Archive", section: "Project", action: CommandAction::ArchiveProject },
        Command { key: 'a', label: "Unarchive", section: "Project", action: CommandAction::UnarchiveProject },
        Command { key: '@', label: "Mention agent", section: "Input", action: CommandAction::MentionAgent },
        Command { key: 'd', label: "View drafts", section: "Draft", action: CommandAction::ViewDrafts },
        Command { key: 'g', label: "Go to parent", section: "Conversation", action: CommandAction::GoToParent },
        Command { key: 'c', label: "Copy conversation ID", section: "Conversation", action: CommandAction::CopyConversationId },
        Command { key: 'O', label: "Open trace", section: "Conversation", action: CommandAction::OpenConversationTrace },
        Command { key: 'r', label: "Reference conversation", section: "Conversation", action: CommandAction::ReferenceConversation },
        Command { key: 'F', label: "Fork conversation", section: "Conversation", action: CommandAction::ForkConversation },
        Command { key: 'x', label: "Close tab", section: "Tab", action: CommandAction::CloseTab },
        Command { key: 'X', label: "Archive + Close", section: "Tab", action: CommandAction::ArchiveAndCloseTab },
        Command { key: 'y', label: "Copy content", section: "Message", action: CommandAction::CopyMessageContent },
        Command { key: 'v', label: "View raw event", section: "Message", action: CommandAction::ViewRawEvent },
        Command { key: 't', label: "Open trace", section: "Message", action: CommandAction::OpenMessageTrace },
        Command { key: '.', label: "Stop agent", section: "Agent", action: CommandAction::StopAgent },
        Command { key: 's', label: "Toggle sidebar", section: "View", action: CommandAction::ToggleTodoSidebar },
        Command { key: 'E', label: "Expand editor", section: "Input", action: CommandAction::ExpandEditor },
        Command { key: 's', label: "Save as draft", section: "Draft", action: CommandAction::SaveDraft },
        Command { key: 'K', label: "Select Skills", section: "Input", action: CommandAction::SelectSkills },
        Command { key: 'u', label: "Undo", section: "Other", action: CommandAction::Undo },
        Command { key: 'o', label: "View agent", section: "Agent", action: CommandAction::ViewAgent },
        Command { key: 'f', label: "Fork agent", section: "Agent", action: CommandAction::ForkAgent },
        Command { key: 'c', label: "Clone agent", section: "Agent", action: CommandAction::CloneAgent },
    ]
}

/// Whether the command with this action may run in the given state.
pub open spec fn action_available(action: CommandAction, ctx: CommandContext) -> bool {
    match action {
        CommandAction::OpenAppSettings => true,
        CommandAction::GoHome => true,
        CommandAction::ShowHelp => true,
        CommandAction::ShowDebugStats => true,
        CommandAction::Quit => true,
        CommandAction::OpenSelectedConversation => home_main(ctx) && ctx.home_panel_focus == HomeTab::Conversations,
        CommandAction::OpenSelectedInboxItem => home_main(ctx) && ctx.home_panel_focus == HomeTab::Inbox,
        CommandAction::ViewReport => home_main(ctx) && ctx.home_panel_focus == HomeTab::Reports,
        CommandAction::ArchiveToggle => (home_main(ctx) && (ctx.home_panel_focus == HomeTab::Conversations || ctx.home_panel_focus == HomeTab::Inbox)) || ctx.view == AppView::Chat,
        CommandAction::ExportJsonl => (home_main(ctx) && ctx.home_panel_focus == HomeTab::Conversations) || ctx.view == AppView::Chat,
        CommandAction::CycleTimeFilter => home_main(ctx) && ctx.home_panel_focus == HomeTab::Conversations,
        CommandAction::ShowArchived => !ctx.show_archived,
        CommandAction::HideArchived => ctx.show_archived,
        CommandAction::MarkRead => home_main(ctx) && ctx.home_panel_focus == HomeTab::Inbox,
        CommandAction::MarkAllRead => home_main(ctx) && ctx.home_panel_focus == HomeTab::Inbox,
        CommandAction::Search => home_main(ctx) && (ctx.home_panel_focus == HomeTab::Conversations || ctx.home_panel_focus == HomeTab::Reports),
        CommandAction::OpenAgentBrowser => true,
        CommandAction::OpenNudgeManager => true,
        CommandAction::CreateProject => true,
        CommandAction::ManageWorkspaces => true,
        CommandAction::NewConversation => true,
        CommandAction::NewConversationOnProject => true,
        CommandAction::ToggleProjectVisibility => home_sidebar(ctx),
        CommandAction::OpenProjectSettings => home_sidebar(ctx),
        CommandAction::BootProject => home_sidebar(ctx) && sidebar_project(ctx) is Some && !online_has_a_tag(ctx, sidebar_project(ctx)->0.a_tag@),
        CommandAction::StopProjectAgents => home_sidebar(ctx) && ctx.sidebar_project_index < ctx.online_projects@.len() && ctx.online_projects@[ctx.sidebar_project_index as int].busy,
        CommandAction::ArchiveProject => home_sidebar(ctx) && sidebar_project(ctx) is Some && !sidebar_project(ctx)->0.archived,
        CommandAction::UnarchiveProject => home_sidebar(ctx) && sidebar_project(ctx) is Some && sidebar_project(ctx)->0.archived,
        CommandAction::MentionAgent => ctx.view == AppView::Chat && ctx.has_available_agents,
        CommandAction::ViewDrafts => ctx.view == AppView::Chat,
        CommandAction::GoToParent => ctx.view == AppView::Chat && ctx.selected_thread_has_parent,
        CommandAction::CopyConversationId => ctx.view == AppView::Chat && ctx.has_selected_thread,
        CommandAction::OpenConversationTrace => ctx.view == AppView::Chat && ctx.has_selected_thread,
        CommandAction::ReferenceConversation => ctx.view == AppView::Chat && ctx.has_selected_thread,
        CommandAction::ForkConversation => ctx.view == AppView::Chat && ctx.input_mode == InputMode::Normal && ctx.has_selected_thread,
        CommandAction::CloseTab => ctx.view == AppView::Chat,
        CommandAction::ArchiveAndCloseTab => ctx.view == AppView::Chat,
        CommandAction::CopyMessageContent => ctx.view == AppView::Chat && ctx.input_mode == InputMode::Normal,
        CommandAction::ViewRawEvent => ctx.view == AppView::Chat && ctx.input_mode == InputMode::Normal,
        CommandAction::OpenMessageTrace => ctx.view == AppView::Chat && ctx.input_mode == InputMode::Normal && ctx.selected_message_has_trace,
        CommandAction::StopAgent => ctx.view == AppView::Chat && ctx.input_mode == InputMode::Normal && ctx.selected_thread_busy,
        CommandAction::ToggleTodoSidebar => ctx.view == AppView::Chat && ctx.input_mode == InputMode::Normal,
        CommandAction::ExpandEditor => ctx.view == AppView::Chat && ctx.input_mode == InputMode::Editing,
        CommandAction::SaveDraft => ctx.view == AppView::Chat && ctx.input_mode == InputMode::Editing,
        CommandAction::SelectSkills => ctx.view == AppView::Chat,
        CommandAction::Undo => (ctx.view == AppView::Home || ctx.view == AppView::Chat) && ctx.has_undo_action,
        CommandAction::ViewAgent => ctx.view == AppView::AgentBrowser && !ctx.in_agent_detail,
        CommandAction::ForkAgent => ctx.view == AppView::AgentBrowser && ctx.in_agent_detail,
        CommandAction::CloneAgent => ctx.view == AppView::AgentBrowser && ctx.in_agent_detail,
    }
}
/// Every command of the palette, each defined once, in definition order.
pub fn commands() -> (r: Vec<Command>)
    ensures
        r@ == command_list(),
{
    let r = vec![
        Command { key: ',', label: "Settings", section: "System", action: CommandAction::OpenAppSettings },
        Command { key: '1', label: "Go to Home", section: "Navigation", action: CommandAction::GoHome },
        Command { key: '?', label: "Help", section: "Navigation", action: CommandAction::ShowHelp },
        Command { key: 'D', label: "Debug stats", section: "System", action: CommandAction::ShowDebugStats },
        Command { key: 'q', label: "Quit", section: "System", action: CommandAction::Quit },
        Command { key: 'o', label: "Open selected", section: "Conversation", action: CommandAction::OpenSelectedConversation },
        Command { key: 'o', label: "Open selected", section: "Inbox", action: CommandAction::OpenSelectedInboxItem },
        Command { key: 'o', label: "View report", section: "Reports", action: CommandAction::ViewReport },
        Command { key: 'a', label: "Archive/Unarchive", section: "Conversation", action: CommandAction::ArchiveToggle },
        Command { key: 'e', label: "Export JSONL", section: "Conversation", action: CommandAction::ExportJsonl },
        Command { key: 'f', label: "Time filter", section: "Filter", action: CommandAction::CycleTimeFilter },
        Command { key: 'A', label: "Show archived items", section: "Filter", action: CommandAction::ShowArchived },
        Command { key: 'A', label: "Hide archived items", section: "Filter", action: CommandAction::HideArchived },
        Command { key: 'R', label: "Mark as read", section: "Inbox", action: CommandAction::MarkRead },
        Command { key: 'M', label: "Mark all read", section: "Inbox", action: CommandAction::MarkAllRead },
        Command { key: '/', label: "Search", section: "Filter", action: CommandAction::Search },
        Command { key: 'B', label: "Agent Browser", section: "Other", action: CommandAction::OpenAgentBrowser },
        Command { key: 'U', label: "Nudge Manager", section: "Other", action: CommandAction::OpenNudgeManager },
        Command { key: 'C', label: "Create project", section: "Other", action: CommandAction::CreateProject },
        Command { key: 'W', label: "Manage Workspaces", section: "Navigation", action: CommandAction::ManageWorkspaces },
        Command { key: 'N', label: "New conversation (current project)", section: "Conversation", action: CommandAction::NewConversation },
        Command { key: 'P', label: "New conversation on project...", section: "Conversation", action: CommandAction::NewConversationOnProject },
        Command { key: ' ', label: "Toggle visibility", section: "Project", action: CommandAction::ToggleProjectVisibility },
        Command { key: 's', label: "Settings", section: "Project", action: CommandAction::OpenProjectSettings },
        Command { key: 'b', label: "Boot project", section: "Project", action: CommandAction::BootProject },
        Command { key: '.', label: "Stop all agents", section: "Project", action: CommandAction::StopProjectAgents },
        Command { key: 'a', label: "Archive", section: "Project", action: CommandAction::ArchiveProject },
        Command { key: 'a', label: "Unarchive", section: "Project", action: CommandAction::UnarchiveProject },
        Command { key: '@', label: "Mention agent", section: "Input", action: CommandAction::MentionAgent },
        Command { key: 'd', label: "View drafts", section: "Draft", action: CommandAction::ViewDrafts },
        Command { key: 'g', label: "Go to parent", section: "Conversation", action: CommandAction::GoToParent },
        Command { key: 'c', label: "Copy conversation ID", section: "Conversation", action: CommandAction::CopyConversationId },
        Command { key: 'O', label: "Open trace", section: "Conversation", action: CommandAction::OpenConversationTrace },
        Command { key: 'r', label: "Reference conversation", section: "Conversation", action: CommandAction::ReferenceConversation },
        Command { key: 'F', label: "Fork conversation", section: "Conversation", action: CommandAction::ForkConversation },
        Command { key: 'x', label: "Close tab", section: "Tab", action: CommandAction::CloseTab },
        Command { key: 'X', label: "Archive + Close", section: "Tab", action: CommandAction::ArchiveAndCloseTab },
        Command { key: 'y', label: "Copy content", section: "Message", action: CommandAction::CopyMessageContent },
        Command { key: 'v', label: "View raw event", section: "Message", action: CommandAction::ViewRawEvent },
        Command { key: 't', label: "Open trace", section: "Message", action: CommandAction::OpenMessageTrace },
        Command { key: '.', label: "Stop agent", section: "Agent", action: CommandAction::StopAgent },
        Command { key: 's', label: "Toggle sidebar", section: "View", action: CommandAction::ToggleTodoSidebar },
        Command { key: 'E', label: "Expand editor", section: "Input", action: CommandAction::ExpandEditor },
        Command { key: 's', label: "Save as draft", section: "Draft", action: CommandAction::SaveDraft },
        Command { key: 'K', label: "Select Skills", section: "Input", action: CommandAction::SelectSkills },
        Command { key: 'u', label: "Undo", section: "Other", action: CommandAction::Undo },
        Command { key: 'o', label: "View agent", section: "Agent", action: CommandAction::ViewAgent },
        Command { key: 'f', label: "Fork agent", section: "Agent", action: CommandAction::ForkAgent },
        Command { key: 'c', label: "Clone agent", section: "Agent", action: CommandAction::CloneAgent },
    ];
    assert(r@ =~= command_list());
    r
}

impl CommandAction {
    /// Whether the command with this action may run in the given state.
    pub fn is_available(&self, ctx: &CommandContext) -> (r: bool)
        ensures
            r == action_available(*self, *ctx),
    {
        match self {
            CommandAction::OpenAppSettings => true,
            CommandAction::GoHome => true,
            CommandAction::ShowHelp => true,
            CommandAction::ShowDebugStats => true,
            CommandAction::Quit => true,
            CommandAction::OpenSelectedConversation => home_main_exec(ctx) && ctx.home_panel_focus == HomeTab::Conversations,
            CommandAction::OpenSelectedInboxItem => home_main_exec(ctx) && ctx.home_panel_focus == HomeTab::Inbox,
            CommandAction::ViewReport => home_main_exec(ctx) && ctx.home_panel_focus == HomeTab::Reports,
            CommandAction::ArchiveToggle => (home_main_exec(ctx) && (ctx.home_panel_focus == HomeTab::Conversations || ctx.home_panel_focus == HomeTab::Inbox)) || ctx.view == AppView::Chat,
            CommandAction::ExportJsonl => (home_main_exec(ctx) && ctx.home_panel_focus == HomeTab::Conversations) || ctx.view == AppView::Chat,
            CommandAction::CycleTimeFilter => home_main_exec(ctx) && ctx.home_panel_focus == HomeTab::Conversations,
            CommandAction::ShowArchived => !ctx.show_archived,
            CommandAction::HideArchived => ctx.show_archived,
            CommandAction::MarkRead => home_main_exec(ctx) && ctx.home_panel_focus == HomeTab::Inbox,
            CommandAction::MarkAllRead => home_main_exec(ctx) && ctx.home_panel_focus == HomeTab::Inbox,
            CommandAction::Search => home_main_exec(ctx) && (ctx.home_panel_focus == HomeTab::Conversations || ctx.home_panel_focus == HomeTab::Reports),
            CommandAction::OpenAgentBrowser => true,
            CommandAction::OpenNudgeManager => true,
            CommandAction::CreateProject => true,
            CommandAction::ManageWorkspaces => true,
            CommandAction::NewConversation => true,
            CommandAction::NewConversationOnProject => true,
            CommandAction::ToggleProjectVisibility => home_sidebar_exec(ctx),
            CommandAction::OpenProjectSettings => home_sidebar_exec(ctx),
            CommandAction::BootProject => home_sidebar_exec(ctx) && match selected_sidebar_project(ctx) { Some(p) => !online_has_a_tag_exec(ctx, p.a_tag.as_str()), None => false },
            CommandAction::StopProjectAgents => home_sidebar_exec(ctx) && ctx.sidebar_project_index < ctx.online_projects.len() && ctx.online_projects[ctx.sidebar_project_index].busy,
            CommandAction::ArchiveProject => home_sidebar_exec(ctx) && match selected_sidebar_project(ctx) { Some(p) => !p.archived, None => false },
            CommandAction::UnarchiveProject => home_sidebar_exec(ctx) && match selected_sidebar_project(ctx) { Some(p) => p.archived, None => false },
            CommandAction::MentionAgent => ctx.view == AppView::Chat && ctx.has_available_agents,
            CommandAction::ViewDrafts => ctx.view == AppView::Chat,
            CommandAction::GoToParent => ctx.view == AppView::Chat && ctx.selected_thread_has_parent,
            CommandAction::CopyConversationId => ctx.view == AppView::Chat && ctx.has_selected_thread,
            CommandAction::OpenConversationTrace => ctx.view == AppView::Chat && ctx.has_selected_thread,
            CommandAction::ReferenceConversation => ctx.view == AppView::Chat && ctx.has_selected_thread,
            CommandAction::ForkConversation => ctx.view == AppView::Chat && ctx.input_mode == InputMode::Normal && ctx.has_selected_thread,
            CommandAction::CloseTab => ctx.view == AppView::Chat,
            CommandAction::ArchiveAndCloseTab => ctx.view == AppView::Chat,
            CommandAction::CopyMessageContent => ctx.view == AppView::Chat && ctx.input_mode == InputMode::Normal,
            CommandAction::ViewRawEvent => ctx.view == AppView::Chat && ctx.input_mode == InputMode::Normal,
            CommandAction::OpenMessageTrace => ctx.view == AppView::Chat && ctx.input_mode == InputMode::Normal && ctx.selected_message_has_trace,
            CommandAction::StopAgent => ctx.view == AppView::Chat && ctx.input_mode == InputMode::Normal && ctx.selected_thread_busy,
            CommandAction::ToggleTodoSidebar => ctx.view == AppView::Chat && ctx.input_mode == InputMode::Normal,
            CommandAction::ExpandEditor => ctx.view == AppView::Chat && ctx.input_mode == InputMode::Editing,
            CommandAction::SaveDraft => ctx.view == AppView::Chat && ctx.input_mode == InputMode::Editing,
            CommandAction::SelectSkills => ctx.view == AppView::Chat,
            CommandAction::Undo => (ctx.view == AppView::Home || ctx.view == AppView::Chat) && ctx.has_undo_action,
            CommandAction::ViewAgent => ctx.view == AppView::AgentBrowser && !ctx.in_agent_detail,
            CommandAction::ForkAgent => ctx.view == AppView::AgentBrowser && ctx.in_agent_detail,
            CommandAction::CloneAgent => ctx.view == AppView::AgentBrowser && ctx.in_agent_detail,
        }
    }
}

/// Whether a command may run in the given state.
pub open spec fn available_in(ctx: CommandContext) -> spec_fn(Command) -> bool {
    |c: Command| action_available(c.action, ctx)
}

/// Whether a command belongs to the section named `section`.
pub open spec fn in_section(section: Seq<char>) -> spec_fn(Command) -> bool {
    |c: Command| c.section@ == section
}

/// The available commands, in definition order.
pub open spec fn available_list(ctx: CommandContext) -> Seq<Command> {
    command_list().filter(available_in(ctx))
}

/// Sections never decrease along the list.
pub open spec fn sorted_by_section(r: Seq<Command>) -> bool {
    forall|i: int, j: int|
        0 <= i < j < r.len() ==> !seq_char_lt(#[trigger] r[j].section@, #[trigger] r[i].section@)
}

/// `r` is the palette's display list for `ctx`: the available commands,
/// sorted by section name, in definition order within each section.
pub open spec fn is_palette_listing(r: Seq<Command>, ctx: CommandContext) -> bool {
    &&& sorted_by_section(r)
    &&& forall|section: Seq<char>| #[trigger]
        r.filter(in_section(section)) == available_list(ctx).filter(in_section(section))
}

/// Whether command `c` is an available command with key `key`.
pub open spec fn runs_on_key(c: Command, ctx: CommandContext, key: char) -> bool {
    c.key == key && action_available(c.action, ctx)
}

/// The action that pressing `key` runs: that of the first available command
/// with this key in definition order, if any.
pub open spec fn action_for_key(ctx: CommandContext, key: char) -> Option<CommandAction> {
    let table = command_list();
    if exists|i: int| 0 <= i < table.len() && runs_on_key(#[trigger] table[i], ctx, key) {
        let i = choose|i: int|
            0 <= i < table.len() && runs_on_key(#[trigger] table[i], ctx, key) && forall|j: int|
                0 <= j < i ==> !runs_on_key(#[trigger] table[j], ctx, key);
        Some(table[i].action)
    } else {
        None
    }
}

/// Inserting `c` after every entry whose section does not sort after it,
/// and before the first that does, keeps the list sorted and appends `c`
/// to its own section.
proof fn lemma_insert_into_listing(out: Seq<Command>, c: Command, p: int, done: Seq<Command>)
    requires
        0 <= p <= out.len(),
        sorted_by_section(out),
        forall|k: int| 0 <= k < p ==> !seq_char_lt(c.section@, #[trigger] out[k].section@),
        p < out.len() ==> seq_char_lt(c.section@, out[p].section@),
        forall|section: Seq<char>| #[trigger]
            out.filter(in_section(section)) == done.filter(in_section(section)),
    ensures
        sorted_by_section(out.insert(p, c)),
        forall|section: Seq<char>| #[trigger]
            out.insert(p, c).filter(in_section(section)) == done.push(c).filter(
                in_section(section),
            ),
{
    let n = out.insert(p, c);
    let a = out.subrange(0, p);
    let b = out.subrange(p, out.len() as int);
    assert(n =~= a.push(c) + b);
    assert(out =~= a + b);
    assert forall|k: int| p <= k < out.len() implies seq_char_lt(
        c.section@,
        #[trigger] out[k].section@,
    ) by {
        if k > p {
            assert(!seq_char_lt(out[k].section@, out[p].section@));
            if out[k].section@ != out[p].section@ {
                lemma_seq_char_lt_total(out[k].section@, out[p].section@);
                lemma_seq_char_lt_transitive(c.section@, out[p].section@, out[k].section@);
            }
        }
    }
    assert forall|i: int, j: int| 0 <= i < j < n.len() implies !seq_char_lt(
        #[trigger] n[j].section@,
        #[trigger] n[i].section@,
    ) by {
        if j < p {
            assert(n[i] == out[i] && n[j] == out[j]);
        } else if j == p {
            assert(n[i] == out[i]);
        } else if i == p {
            assert(n[j] == out[j - 1]);
            assert(seq_char_lt(c.section@, out[j - 1].section@));
            if seq_char_lt(out[j - 1].section@, c.section@) {
                lemma_seq_char_lt_transitive(c.section@, out[j - 1].section@, c.section@);
                lemma_seq_char_lt_irreflexive(c.section@);
            }
        } else if i < p {
            assert(n[i] == out[i] && n[j] == out[j - 1]);
        } else {
            assert(n[i] == out[i - 1] && n[j] == out[j - 1]);
        }
    }
    assert forall|section: Seq<char>| #[trigger]
        n.filter(in_section(section)) == done.push(c).filter(in_section(section)) by {
        let f = in_section(section);
        Seq::filter_distributes_over_add(a.push(c), b, f);
        Seq::filter_distributes_over_add(a, b, f);
        lemma_filter_push(a, f, c);
        lemma_filter_push(done, f, c);
        assert(out.filter(f) == done.filter(f));
        if f(c) {
            assert forall|k: int| 0 <= k < b.len() implies !f(#[trigger] b[k]) by {
                assert(b[k] == out[k + p]);
                assert(seq_char_lt(c.section@, out[k + p].section@));
                lemma_seq_char_lt_irreflexive(c.section@);
            }
            lemma_filter_none(b, f);
            assert(b.filter(f) + Seq::<Command>::empty() =~= b.filter(f));
            assert(a.filter(f).push(c) + b.filter(f) =~= a.filter(f).push(c));
            assert(a.filter(f) + b.filter(f) =~= a.filter(f));
        }
    }
}

/// The commands available for the current state, in display order:
/// sorted by section name, then by definition order within a section.
pub fn available_commands(ctx: &CommandContext) -> (r: Vec<Command>)
    ensures
        is_palette_listing(r@, *ctx),
        forall|i: int, j: int|
            0 <= i < r@.len() && 0 <= j < r@.len() && i != j ==> #[trigger] r@[i].key
                != #[trigger] r@[j].key,
{
    let table = commands();
    let n = table.len();
    let mut out: Vec<Command> = Vec::new();
    let mut i: usize = 0;
    proof {
        assert forall|section: Seq<char>| #[trigger]
            out@.filter(in_section(section)) == table@.take(0).filter(available_in(*ctx)).filter(
                in_section(section),
            ) by {
            reveal(Seq::filter);
            assert(table@.take(0) =~= Seq::<Command>::empty());
        }
    }
    while i < n
        invariant
            n == table@.len(),
            table@ == command_list(),
            i <= n,
            sorted_by_section(out@),
            forall|section: Seq<char>| #[trigger]
                out@.filter(in_section(section)) == table@.take(i as int).filter(
                    available_in(*ctx),
                ).filter(in_section(section)),
        decreases n - i,
    {
        let c = table[i];
        let ghost done = table@.take(i as int).filter(available_in(*ctx));
        proof {
            assert(table@.take(i + 1) =~= table@.take(i as int).push(c));
            lemma_filter_push(table@.take(i as int), available_in(*ctx), c);
        }
        if c.action.is_available(ctx) {
            let mut p: usize = 0;
            while p < out.len() && !str_less(c.section, out[p].section)
                invariant
                    p <= out@.len(),
                    forall|k: int| 0 <= k < p ==> !seq_char_lt(c.section@, #[trigger] out@[k].section@),
                decreases out@.len() - p,
            {
                p = p + 1;
            }
            let ghost before = out@;
            out.insert(p, c);
            proof {
                lemma_insert_into_listing(before, c, p as int, done);
            }
        }
        i = i + 1;
    }
    proof {
        assert(table@.take(n as int) =~= table@);
        lemma_listed_keys_distinct(*ctx, out@);
    }
    out
}

/// Finds the first available command with this key; the application runs
/// its action. `None` when no available command has this key.
pub fn execute_command(ctx: &CommandContext, key: char) -> (r: Option<CommandAction>)
    ensures
        r == action_for_key(*ctx, key),
{
    let table = commands();
    let n = table.len();
    let mut i: usize = 0;
    while i < n
        invariant
            n == table@.len(),
            table@ == command_list(),
            i <= n,
            forall|j: int| 0 <= j < i ==> !runs_on_key(#[trigger] table@[j], *ctx, key),
        decreases n - i,
    {
        let c = table[i];
        if c.key == key && c.action.is_available(ctx) {
            proof {
                let w = choose|w: int|
                    0 <= w < table@.len() && runs_on_key(#[trigger] table@[w], *ctx, key)
                        && forall|j: int| 0 <= j < w ==> !runs_on_key(#[trigger] table@[j], *ctx, key);
                assert(runs_on_key(table@[i as int], *ctx, key));
                if w < i {
                } else if w > i {
                    assert(!runs_on_key(table@[i as int], *ctx, key));
                }
            }
            return Some(c.action);
        }
        i = i + 1;
    }
    None
}

/// Whether no command of `s` has the action `a`.
spec fn action_absent(s: Seq<Command>, a: CommandAction) -> bool
    decreases s.len(),
{
    s.len() == 0 || (s[0].action != a && action_absent(s.drop_first(), a))
}

/// Whether the commands of `s` have pairwise different actions.
spec fn actions_distinct(s: Seq<Command>) -> bool
    decreases s.len(),
{
    s.len() == 0 || (action_absent(s.drop_first(), s[0].action) && actions_distinct(s.drop_first()))
}

proof fn lemma_action_absent(s: Seq<Command>, a: CommandAction, k: int)
    requires
        action_absent(s, a),
        0 <= k < s.len(),
    ensures
        s[k].action != a,
    decreases s.len(),
{
    if k > 0 {
        lemma_action_absent(s.drop_first(), a, k - 1);
    }
}

proof fn lemma_actions_distinct(s: Seq<Command>, i: int, j: int)
    requires
        actions_distinct(s),
        0 <= i < j < s.len(),
    ensures
        s[i].action != s[j].action,
    decreases s.len(),
{
    if i == 0 {
        lemma_action_absent(s.drop_first(), s[0].action, j - 1);
    } else {
        lemma_actions_distinct(s.drop_first(), i - 1, j - 1);
    }
}

/// Each command is defined exactly once: no two commands of the table
/// share an action.
pub proof fn lemma_each_command_defined_once()
    ensures
        forall|i: int, j: int|
            0 <= i < j < command_list().len() ==> #[trigger] command_list()[i].action
                != #[trigger] command_list()[j].action,
{
    assert(actions_distinct(command_list())) by {
        reveal_with_fuel(actions_distinct, 50);
        reveal_with_fuel(action_absent, 50);
    }
    assert forall|i: int, j: int| 0 <= i < j < command_list().len() implies #[trigger] command_list()[i].action
        != #[trigger] command_list()[j].action by {
        lemma_actions_distinct(command_list(), i, j);
    }
}

/// The palette lists exactly the available commands, and a key runs a
/// command exactly when the palette lists a command with that key.
pub proof fn lemma_listing_matches_keys(ctx: CommandContext, listed: Seq<Command>, key: char)
    requires
        is_palette_listing(listed, ctx),
    ensures
        forall|c: Command| listed.contains(c) <==> available_list(ctx).contains(c),
        (exists|i: int| 0 <= i < listed.len() && #[trigger] listed[i].key == key) <==> action_for_key(
            ctx,
            key,
        ) is Some,
{
    let avail = available_list(ctx);
    assert forall|c: Command| listed.contains(c) <==> avail.contains(c) by {
        let f = in_section(c.section@);
        if listed.contains(c) {
            let k = choose|k: int| 0 <= k < listed.len() && listed[k] == c;
            listed.lemma_filter_contains(f, k);
            assert(avail.filter(f).contains(c));
            avail.lemma_filter_contains_rev(f, c);
        }
        if avail.contains(c) {
            let k = choose|k: int| 0 <= k < avail.len() && avail[k] == c;
            avail.lemma_filter_contains(f, k);
            assert(listed.filter(f).contains(c));
            listed.lemma_filter_contains_rev(f, c);
        }
    }
    let table = command_list();
    if exists|i: int| 0 <= i < listed.len() && #[trigger] listed[i].key == key {
        let i = choose|i: int| 0 <= i < listed.len() && #[trigger] listed[i].key == key;
        assert(listed.contains(listed[i]));
        assert(avail.contains(listed[i]));
        let k = choose|k: int| 0 <= k < avail.len() && avail[k] == listed[i];
        table.lemma_filter_pred(available_in(ctx), k);
        table.lemma_filter_contains_rev(available_in(ctx), listed[i]);
        let t = choose|t: int| 0 <= t < table.len() && table[t] == listed[i];
        assert(runs_on_key(table[t], ctx, key));
        lemma_first_match_exists(ctx, key, t);
    }
    if action_for_key(ctx, key) is Some {
        let t = choose|t: int| 0 <= t < table.len() && runs_on_key(#[trigger] table[t], ctx, key);
        table.lemma_filter_contains(available_in(ctx), t);
        assert(avail.contains(table[t]));
        assert(listed.contains(table[t]));
        let i = choose|i: int| 0 <= i < listed.len() && listed[i] == table[t];
        assert(listed[i].key == key);
    }
}

proof fn lemma_first_match_exists(ctx: CommandContext, key: char, t: int)
    requires
        0 <= t < command_list().len(),
        runs_on_key(command_list()[t], ctx, key),
    ensures
        action_for_key(ctx, key) is Some,
        exists|i: int|
            0 <= i < command_list().len() && runs_on_key(#[trigger] command_list()[i], ctx, key)
                && forall|j: int| 0 <= j < i ==> !runs_on_key(#[trigger] command_list()[j], ctx, key),
    decreases t,
{
    let table = command_list();
    if exists|j: int| 0 <= j < t && runs_on_key(#[trigger] table[j], ctx, key) {
        let j = choose|j: int| 0 <= j < t && runs_on_key(#[trigger] table[j], ctx, key);
        lemma_first_match_exists(ctx, key, j);
    } else {
        assert(runs_on_key(table[t], ctx, key));
    }
}

/// Whether no available command of the table from row `u` on shares its
/// key with the command at row `c`.
spec fn key_unshared_from(ctx: CommandContext, c: int, u: int) -> bool
    decreases command_list().len() - u,
{
    u < 0 || u >= command_list().len() || (!(command_list()[u].key == command_list()[c].key
        && action_available(command_list()[u].action, ctx)) && key_unshared_from(ctx, c, u + 1))
}

/// Whether the available commands of the table from row `t` on have keys
/// that no later available command shares.
spec fn keys_unshared_from(ctx: CommandContext, t: int) -> bool
    decreases command_list().len() - t,
{
    t < 0 || t >= command_list().len() || ((action_available(command_list()[t].action, ctx)
        ==> key_unshared_from(ctx, t, t + 1)) && keys_unshared_from(ctx, t + 1))
}

proof fn lemma_key_unshared_from(ctx: CommandContext, c: int, u: int, v: int)
    requires
        key_unshared_from(ctx, c, u),
        0 <= u <= v < command_list().len(),
        action_available(command_list()[v].action, ctx),
    ensures
        command_list()[v].key != command_list()[c].key,
    decreases v - u,
{
    if u < v {
        lemma_key_unshared_from(ctx, c, u + 1, v);
    }
}

proof fn lemma_keys_unshared_from(ctx: CommandContext, t: int, i: int, j: int)
    requires
        keys_unshared_from(ctx, t),
        0 <= t <= i < j < command_list().len(),
        action_available(command_list()[i].action, ctx),
        action_available(command_list()[j].action, ctx),
    ensures
        command_list()[i].key != command_list()[j].key,
    decreases i - t,
{
    if t < i {
        lemma_keys_unshared_from(ctx, t + 1, i, j);
    } else {
        lemma_key_unshared_from(ctx, i, i + 1, j);
    }
}

/// In every state, two different commands that are both available have
/// different keys.
pub proof fn lemma_available_keys_differ(ctx: CommandContext, i: int, j: int)
    requires
        0 <= i < command_list().len(),
        0 <= j < command_list().len(),
        i != j,
        action_available(command_list()[i].action, ctx),
        action_available(command_list()[j].action, ctx),
    ensures
        command_list()[i].key != command_list()[j].key,
{
    assert(keys_unshared_from(ctx, 0)) by {
        reveal_with_fuel(keys_unshared_from, 50);
        reveal_with_fuel(key_unshared_from, 50);
    }
    if i < j {
        lemma_keys_unshared_from(ctx, 0, i, j);
    } else {
        lemma_keys_unshared_from(ctx, 0, j, i);
    }
}

/// Whether no command of the table from row `t` on has the key `k`.
spec fn key_absent_from(k: char, t: int) -> bool
    decreases command_list().len() - t,
{
    t < 0 || t >= command_list().len() || (command_list()[t].key != k && key_absent_from(k, t + 1))
}

proof fn lemma_key_absent_from(k: char, t: int, u: int)
    requires
        key_absent_from(k, t),
        0 <= t <= u < command_list().len(),
    ensures
        command_list()[u].key != k,
    decreases u - t,
{
    if t < u {
        lemma_key_absent_from(k, t + 1, u);
    }
}

/// No command has `n` or `p` as its key: the palette keeps them for the
/// next and previous tab.
pub proof fn lemma_tab_keys_reserved(t: int)
    requires
        0 <= t < command_list().len(),
    ensures
        command_list()[t].key != 'n',
        command_list()[t].key != 'p',
{
    assert(key_absent_from('n', 0)) by {
        reveal_with_fuel(key_absent_from, 50);
    }
    assert(key_absent_from('p', 0)) by {
        reveal_with_fuel(key_absent_from, 50);
    }
    lemma_key_absent_from('n', 0, t);
    lemma_key_absent_from('p', 0, t);
}

/// How often `x` occurs in `s`.
spec fn occurrences(s: Seq<Command>, x: Command) -> nat
    decreases s.len(),
{
    if s.len() == 0 {
        0
    } else {
        occurrences(s.drop_last(), x) + if s.last() == x {
            1nat
        } else {
            0nat
        }
    }
}

proof fn lemma_occurrences_filter(s: Seq<Command>, f: spec_fn(Command) -> bool, x: Command)
    ensures
        occurrences(s.filter(f), x) == if f(x) {
            occurrences(s, x)
        } else {
            0
        },
    decreases s.len(),
{
    reveal(Seq::filter);
    if s.len() > 0 {
        lemma_occurrences_filter(s.drop_last(), f, x);
        let sub = s.drop_last().filter(f);
        assert(sub.push(s.last()).drop_last() =~= sub);
    }
}

proof fn lemma_occurs_at(s: Seq<Command>, i: int)
    requires
        0 <= i < s.len(),
    ensures
        occurrences(s, s[i]) >= 1,
    decreases s.len(),
{
    if i < s.len() - 1 {
        lemma_occurs_at(s.drop_last(), i);
    }
}

proof fn lemma_occurs_twice_at(s: Seq<Command>, i: int, j: int)
    requires
        0 <= i < j < s.len(),
        s[i] == s[j],
    ensures
        occurrences(s, s[i]) >= 2,
    decreases s.len(),
{
    if j == s.len() - 1 {
        lemma_occurs_at(s.drop_last(), i);
    } else {
        lemma_occurs_twice_at(s.drop_last(), i, j);
    }
}

proof fn lemma_occurs_somewhere(s: Seq<Command>, x: Command) -> (i: int)
    requires
        occurrences(s, x) >= 1,
    ensures
        0 <= i < s.len() && s[i] == x,
    decreases s.len(),
{
    if s.last() == x {
        s.len() - 1
    } else {
        lemma_occurs_somewhere(s.drop_last(), x)
    }
}

proof fn lemma_occurs_twice(s: Seq<Command>, x: Command) -> (ij: (int, int))
    requires
        occurrences(s, x) >= 2,
    ensures
        0 <= ij.0 < ij.1 < s.len(),
        s[ij.0] == x,
        s[ij.1] == x,
    decreases s.len(),
{
    if s.last() == x {
        let i = lemma_occurs_somewhere(s.drop_last(), x);
        (i, s.len() - 1)
    } else {
        lemma_occurs_twice(s.drop_last(), x)
    }
}

/// A palette listing holds no command twice.
proof fn lemma_listing_has_no_repeats(ctx: CommandContext, listed: Seq<Command>, i: int, j: int)
    requires
        is_palette_listing(listed, ctx),
        0 <= i < j < listed.len(),
    ensures
        listed[i] != listed[j],
{
    if listed[i] == listed[j] {
        let x = listed[i];
        let table = command_list();
        let g = in_section(x.section@);
        lemma_occurs_twice_at(listed, i, j);
        lemma_occurrences_filter(listed, g, x);
        assert(listed.filter(g) == available_list(ctx).filter(g));
        lemma_occurrences_filter(available_list(ctx), g, x);
        lemma_occurrences_filter(table, available_in(ctx), x);
        let (a, b) = lemma_occurs_twice(table, x);
        lemma_each_command_defined_once();
        assert(table[a].action != table[b].action);
    }
}

/// Where a listed command stands in the table: the listing holds only
/// available commands of the table.
proof fn lemma_listed_in_table(ctx: CommandContext, listed: Seq<Command>, i: int) -> (t: int)
    requires
        is_palette_listing(listed, ctx),
        0 <= i < listed.len(),
    ensures
        0 <= t < command_list().len(),
        command_list()[t] == listed[i],
        action_available(listed[i].action, ctx),
{
    let table = command_list();
    let avail = available_list(ctx);
    lemma_listing_matches_keys(ctx, listed, listed[i].key);
    assert(listed.contains(listed[i]));
    assert(avail.contains(listed[i]));
    let k = choose|k: int| 0 <= k < avail.len() && avail[k] == listed[i];
    table.lemma_filter_pred(available_in(ctx), k);
    table.lemma_filter_contains_rev(available_in(ctx), listed[i]);
    choose|t: int| 0 <= t < table.len() && table[t] == listed[i]
}

/// In every state the listed commands have pairwise different keys, and
/// none has `n` or `p`.
pub proof fn lemma_listed_keys_distinct(ctx: CommandContext, listed: Seq<Command>)
    requires
        is_palette_listing(listed, ctx),
    ensures
        forall|i: int, j: int|
            0 <= i < listed.len() && 0 <= j < listed.len() && i != j ==> #[trigger] listed[i].key
                != #[trigger] listed[j].key,
        forall|i: int| 0 <= i < listed.len() ==> #[trigger] listed[i].key != 'n' && listed[i].key != 'p',
{
    assert forall|i: int, j: int|
        0 <= i < listed.len() && 0 <= j < listed.len() && i != j implies #[trigger] listed[i].key
        != #[trigger] listed[j].key by {
        let a = lemma_listed_in_table(ctx, listed, i);
        let b = lemma_listed_in_table(ctx, listed, j);
        if i < j {
            lemma_listing_has_no_repeats(ctx, listed, i, j);
        } else {
            lemma_listing_has_no_repeats(ctx, listed, j, i);
        }
        assert(a != b);
        lemma_available_keys_differ(ctx, a, b);
    }
    assert forall|i: int| 0 <= i < listed.len() implies #[trigger] listed[i].key != 'n' && listed[i].key
        != 'p' by {
        let a = lemma_listed_in_table(ctx, listed, i);
        lemma_tab_keys_reserved(a);
    }
}

/// A listed row's key runs that row's own command, never another with the
/// same key.
pub proof fn lemma_listed_row_runs_itself(ctx: CommandContext, listed: Seq<Command>, i: int)
    requires
        is_palette_listing(listed, ctx),
        0 <= i < listed.len(),
    ensures
        action_for_key(ctx, listed[i].key) == Some(listed[i].action),
{
    let table = command_list();
    let key = listed[i].key;
    let t = lemma_listed_in_table(ctx, listed, i);
    assert(runs_on_key(table[t], ctx, key));
    lemma_first_match_exists(ctx, key, t);
    let w = choose|w: int|
        0 <= w < table.len() && runs_on_key(#[trigger] table[w], ctx, key) && forall|j: int|
            0 <= j < w ==> !runs_on_key(#[trigger] table[j], ctx, key);
    if w != t {
        lemma_available_keys_differ(ctx, w, t);
    }
}

/// The commands that are available in every state.
pub open spec fn always_available(a: CommandAction) -> bool {
    ||| a == CommandAction::OpenAppSettings
    ||| a == CommandAction::GoHome
    ||| a == CommandAction::ShowHelp
    ||| a == CommandAction::ShowDebugStats
    ||| a == CommandAction::Quit
    ||| a == CommandAction::OpenAgentBrowser
    ||| a == CommandAction::OpenNudgeManager
    ||| a == CommandAction::CreateProject
    ||| a == CommandAction::ManageWorkspaces
    ||| a == CommandAction::NewConversation
    ||| a == CommandAction::NewConversationOnProject
}

/// The palette always lists the commands available in every state, and
/// exactly one command with key `A`: showing archived items while they are
/// hidden, hiding them while they are shown.
pub proof fn lemma_palette_always_lists(ctx: CommandContext, listed: Seq<Command>)
    requires
        is_palette_listing(listed, ctx),
    ensures
        forall|t: int|
            0 <= t < command_list().len() && always_available(#[trigger] command_list()[t].action)
                ==> listed.contains(command_list()[t]),
        exists|i: int|
            0 <= i < listed.len() && #[trigger] listed[i].key == 'A' && listed[i].action == (if ctx.show_archived {
                CommandAction::HideArchived
            } else {
                CommandAction::ShowArchived
            }) && listed[i].label@ == (if ctx.show_archived {
                "Hide archived items"@
            } else {
                "Show archived items"@
            }),
        forall|i: int, j: int|
            0 <= i < listed.len() && 0 <= j < listed.len() && #[trigger] listed[i].key == 'A'
                && #[trigger] listed[j].key == 'A' ==> i == j,
{
    let table = command_list();
    let avail = available_list(ctx);
    lemma_listing_matches_keys(ctx, listed, 'A');
    assert forall|t: int|
        0 <= t < table.len() && always_available(#[trigger] table[t].action) implies listed.contains(
        table[t],
    ) by {
        table.lemma_filter_contains(available_in(ctx), t);
        assert(avail.contains(table[t]));
    }
    let t: int = if ctx.show_archived {
        12
    } else {
        11
    };
    table.lemma_filter_contains(available_in(ctx), t);
    assert(avail.contains(table[t]));
    assert(listed.contains(table[t]));
    let i = choose|i: int| 0 <= i < listed.len() && listed[i] == table[t];
    assert(listed[i].key == 'A');
    lemma_listed_keys_distinct(ctx, listed);
}

/// What a key does in the open command palette.
#[derive(Debug, Clone, Copy, PartialEq, Eq, Structural)]
pub enum PaletteStep {
    /// Close the palette.
    Close,
    /// Close the palette and go to the previous tab.
    CloseAndPrevTab,
    /// Close the palette and go to the next tab.
    CloseAndNextTab,
    /// Move the palette selection up.
    MoveUp,
    /// Move the palette selection down within `count` commands.
    MoveDown { count: usize },
    /// Close the palette and run this command's action.
    CloseAndRun(CommandAction),
    /// The key does nothing.
    Stay,
}

/// Closing the palette and running what `key` runs.
pub open spec fn run_key(ctx: CommandContext, key: char) -> PaletteStep {
    match action_for_key(ctx, key) {
        Some(a) => PaletteStep::CloseAndRun(a),
        None => PaletteStep::Close,
    }
}

/// What a key does in the command palette showing `listed` with row
/// `selected` selected.
pub open spec fn palette_step(
    ctx: CommandContext,
    listed: Seq<Command>,
    key: Key,
    has_modifiers: bool,
    selected: usize,
) -> PaletteStep {
    match key {
        Key::Esc => PaletteStep::Close,
        Key::Left => if has_modifiers {
            PaletteStep::Close
        } else {
            PaletteStep::CloseAndPrevTab
        },
        Key::Right => if has_modifiers {
            PaletteStep::Close
        } else {
            PaletteStep::CloseAndNextTab
        },
        Key::Up => PaletteStep::MoveUp,
        Key::Down => PaletteStep::MoveDown { count: listed.len() as usize },
        Key::Enter => if selected < listed.len() {
            run_key(ctx, listed[selected as int].key)
        } else {
            PaletteStep::Stay
        },
        Key::Char(c) => if exists|i: int| 0 <= i < listed.len() && #[trigger] listed[i].key == c {
            run_key(ctx, c)
        } else if c == 'n' {
            PaletteStep::CloseAndNextTab
        } else if c == 'p' {
            PaletteStep::CloseAndPrevTab
        } else {
            PaletteStep::Close
        },
        _ => PaletteStep::Stay,
    }
}

/// Handles a key in the command palette: Escape closes it; plain Left and
/// Right close it and change tab (with a modifier they only close it); the
/// arrows move the selection; Enter runs the selected command; a character
/// runs the command with that key, else `n`/`p` change tab, else the
/// palette closes.
pub fn handle_command_palette_key(
    ctx: &CommandContext,
    key: Key,
    has_modifiers: bool,
    selected_index: usize,
) -> (r: PaletteStep)
    ensures
        exists|listed: Seq<Command>|
            is_palette_listing(listed, *ctx) && r == palette_step(
                *ctx,
                listed,
                key,
                has_modifiers,
                selected_index,
            ),
{
    let listed = available_commands(ctx);
    let r = match key {
        Key::Esc => PaletteStep::Close,
        Key::Left => if has_modifiers {
            PaletteStep::Close
        } else {
            PaletteStep::CloseAndPrevTab
        },
        Key::Right => if has_modifiers {
            PaletteStep::Close
        } else {
            PaletteStep::CloseAndNextTab
        },
        Key::Up => PaletteStep::MoveUp,
        Key::Down => PaletteStep::MoveDown { count: listed.len() },
        Key::Enter => if selected_index < listed.len() {
            match execute_command(ctx, listed[selected_index].key) {
                Some(a) => PaletteStep::CloseAndRun(a),
                None => PaletteStep::Close,
            }
        } else {
            PaletteStep::Stay
        },
        Key::Char(c) => {
            let n = listed.len();
            let mut has_command = false;
            let mut i: usize = 0;
            while i < n
                invariant
                    n == listed@.len(),
                    i <= n,
                    has_command == (exists|j: int| 0 <= j < i && #[trigger] listed@[j].key == c),
                decreases n - i,
            {
                if listed[i].key == c {
                    has_command = true;
                }
                i = i + 1;
            }
            if has_command {
                match execute_command(ctx, c) {
                    Some(a) => PaletteStep::CloseAndRun(a),
                    None => PaletteStep::Close,
                }
            } else if c == 'n' {
                PaletteStep::CloseAndNextTab
            } else if c == 'p' {
                PaletteStep::CloseAndPrevTab
            } else {
                PaletteStep::Close
            }
        },
        _ => PaletteStep::Stay,
    };
    assert(r == palette_step(*ctx, listed@, key, has_modifiers, selected_index));
    r
}

/// A listed command always runs, and it is the one chosen: Enter on a row
/// of the palette runs that row's command, and a character that a listed
/// command has as its key runs that command.
pub proof fn lemma_palette_runs_listed_commands(
    ctx: CommandContext,
    listed: Seq<Command>,
    key: Key,
    has_modifiers: bool,
    selected: usize,
)
    requires
        is_palette_listing(listed, ctx),
    ensures
        key == Key::Enter && selected < listed.len() ==> palette_step(
            ctx,
            listed,
            key,
            has_modifiers,
            selected,
        ) == PaletteStep::CloseAndRun(listed[selected as int].action),
        forall|i: int|
            0 <= i < listed.len() && key == Key::Char(#[trigger] listed[i].key) ==> palette_step(
                ctx,
                listed,
                key,
                has_modifiers,
                selected,
            ) == PaletteStep::CloseAndRun(listed[i].action),
{
    if key == Key::Enter && selected < listed.len() {
        lemma_listed_row_runs_itself(ctx, listed, selected as int);
    }
    assert forall|i: int|
        0 <= i < listed.len() && key == Key::Char(#[trigger] listed[i].key) implies palette_step(
        ctx,
        listed,
        key,
        has_modifiers,
        selected,
    ) == PaletteStep::CloseAndRun(listed[i].action) by {
        lemma_listed_row_runs_itself(ctx, listed, i);
    }
}

fn home_main_exec(ctx: &CommandContext) -> (r: bool)
    ensures
        r == home_main(*ctx),
{
    ctx.view == AppView::Home && !ctx.sidebar_focused
}

fn home_sidebar_exec(ctx: &CommandContext) -> (r: bool)
    ensures
        r == home_sidebar(*ctx),
{
    ctx.view == AppView::Home && ctx.sidebar_focused
}

fn selected_sidebar_project(ctx: &CommandContext) -> (r: Option<&ProjectSummary>)
    ensures
        match r {
            Some(p) => sidebar_project(*ctx) == Some(*p),
            None => sidebar_project(*ctx) is None,
        },
{
    let n = ctx.online_projects.len();
    let i = ctx.sidebar_project_index;
    if i < n {
        Some(&ctx.online_projects[i])
    } else if i - n < ctx.offline_projects.len() {
        Some(&ctx.offline_projects[i - n])
    } else {
        None
    }
}

fn online_has_a_tag_exec(ctx: &CommandContext, a_tag: &str) -> (r: bool)
    ensures
        r == online_has_a_tag(*ctx, a_tag@),
{
    let n = ctx.online_projects.len();
    let mut k: usize = 0;
    while k < n
        invariant
            n == ctx.online_projects@.len(),
            k <= n,
            forall|q: int| 0 <= q < k ==> #[trigger] ctx.online_projects@[q].a_tag@ != a_tag@,
        decreases n - k,
    {
        if str_eq(ctx.online_projects[k].a_tag.as_str(), a_tag) {
            return true;
        }
        k = k + 1;
    }
    false
}

/// Each command that acts on something is offered only when that thing is
/// there, and is offered in its view when it is: stopping the agent needs
/// a busy selected thread (and in chat normal mode a busy thread offers
/// it); the message trace needs one; going to the parent needs a parent;
/// undo needs something to undo; mentioning needs agents; the
/// conversation commands need a selected thread; showing archived items is
/// offered while they are hidden and hiding them while they are shown;
/// forking and cloning an agent need its details open, viewing one needs
/// the list; archiving and unarchiving a project need it unarchived and
/// archived.
pub proof fn lemma_commands_need_their_object(ctx: CommandContext)
    ensures
        action_available(CommandAction::StopAgent, ctx) ==> ctx.selected_thread_busy,
        ctx.view == AppView::Chat && ctx.input_mode == InputMode::Normal && ctx.selected_thread_busy
            ==> action_available(CommandAction::StopAgent, ctx),
        action_available(CommandAction::OpenMessageTrace, ctx) ==> ctx.selected_message_has_trace,
        action_available(CommandAction::GoToParent, ctx) ==> ctx.selected_thread_has_parent,
        ctx.view == AppView::Chat && ctx.selected_thread_has_parent ==> action_available(
            CommandAction::GoToParent,
            ctx,
        ),
        action_available(CommandAction::Undo, ctx) ==> ctx.has_undo_action,
        action_available(CommandAction::MentionAgent, ctx) ==> ctx.has_available_agents,
        action_available(CommandAction::CopyConversationId, ctx) ==> ctx.has_selected_thread,
        action_available(CommandAction::OpenConversationTrace, ctx) ==> ctx.has_selected_thread,
        action_available(CommandAction::ReferenceConversation, ctx) ==> ctx.has_selected_thread,
        action_available(CommandAction::ForkConversation, ctx) ==> ctx.has_selected_thread,
        action_available(CommandAction::ShowArchived, ctx) <==> !ctx.show_archived,
        action_available(CommandAction::HideArchived, ctx) <==> ctx.show_archived,
        action_available(CommandAction::ForkAgent, ctx) ==> ctx.in_agent_detail,
        action_available(CommandAction::CloneAgent, ctx) ==> ctx.in_agent_detail,
        action_available(CommandAction::ViewAgent, ctx) ==> !ctx.in_agent_detail,
        action_available(CommandAction::ArchiveProject, ctx) ==> (sidebar_project(ctx) matches Some(p)
            && !p.archived),
        action_available(CommandAction::UnarchiveProject, ctx) ==> (sidebar_project(ctx) matches Some(p)
            && p.archived),
        action_available(CommandAction::StopProjectAgents, ctx) ==> ctx.sidebar_project_index
            < ctx.online_projects@.len() && ctx.online_projects@[ctx.sidebar_project_index as int].busy,
{
}

} // verus!
