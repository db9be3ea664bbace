//! Where a key goes: the global hotkeys, the audio keys, the modal
//! handlers (when modals and overlays are open at once), global tab
//! navigation, and the view's own handler.

use vstd::prelude::*;
use crate::keys::{
    audio_hotkey, audio_key_for, global_hotkey_action, handle_global_tab_navigation, hotkey_action,
    in_text_input_context, route_for, tab_navigation, text_input_context, view_route, AudioKey,
    GlobalHotkey, GlobalHotkeyAction, Key, ModalKind, TabNavigation, ViewRoute,
};
use crate::view_state::{AppView, InputMode};

verus! {

/// The modal that is open, as far as key routing tells modals apart.
#[derive(Debug, Clone, Copy, PartialEq, Eq, Structural)]
pub enum OpenModal {
    NoModal,
    CommandPalette,
    AskModal,
    AgentConfig,
    ProjectsModal,
    ViewRawEvent,
    HotkeyHelp,
    NudgeSkillSelector,
    ComposerProjectSelector,
    CreateAgent,
    ProjectActions,
    ReportViewer,
    ConversationActions,
    ChatActions,
    ExpandedEditor,
    DraftNavigator,
    BackendApproval,
    DebugStats,
    HistorySearch,
    NudgeList,
    NudgeCreate,
    NudgeDetail,
    NudgeDeleteConfirm,
    WorkspaceManager,
    AppSettings,
    /// A modal whose keys are handled outside the modal router.
    Other,
}

/// Overlays that take keys although they are not the open modal.
#[derive(Debug, Clone, Copy)]
pub struct ModalOverlays {
    pub sidebar_search_visible: bool,
    pub attachment_modal_open: bool,
    pub tab_modal_open: bool,
    pub search_modal_open: bool,
    pub chat_search_active: bool,
}

/// The handler that receives a key.
#[derive(Debug, Clone, Copy, PartialEq, Eq, Structural)]
pub enum ModalHandler {
    CommandPalette,
    SidebarSearch,
    Attachments,
    Ask,
    TabModal,
    SearchModal,
    ChatSearch,
    AgentConfig,
    ProjectsModal,
    ViewRawEvent,
    HotkeyHelp,
    NudgeSkillSelector,
    ComposerProjectSelector,
    CreateAgent,
    ProjectActions,
    ReportViewer,
    ConversationActions,
    ChatActions,
    ExpandedEditor,
    DraftNavigator,
    BackendApproval,
    DebugStats,
    HistorySearch,
    NudgeList,
    NudgeCreate,
    NudgeDetail,
    NudgeDeleteConfirm,
    WorkspaceManager,
    AppSettings,
}

/// The handler that owns an open modal, if the router handles it.
pub open spec fn modal_owner(m: OpenModal) -> Option<ModalHandler> {
    match m {
        OpenModal::NoModal => None,
        OpenModal::Other => None,
        OpenModal::CommandPalette => Some(ModalHandler::CommandPalette),
        OpenModal::AskModal => Some(ModalHandler::Ask),
        OpenModal::AgentConfig => Some(ModalHandler::AgentConfig),
        OpenModal::ProjectsModal => Some(ModalHandler::ProjectsModal),
        OpenModal::ViewRawEvent => Some(ModalHandler::ViewRawEvent),
        OpenModal::HotkeyHelp => Some(ModalHandler::HotkeyHelp),
        OpenModal::NudgeSkillSelector => Some(ModalHandler::NudgeSkillSelector),
        OpenModal::ComposerProjectSelector => Some(ModalHandler::ComposerProjectSelector),
        OpenModal::CreateAgent => Some(ModalHandler::CreateAgent),
        OpenModal::ProjectActions => Some(ModalHandler::ProjectActions),
        OpenModal::ReportViewer => Some(ModalHandler::ReportViewer),
        OpenModal::ConversationActions => Some(ModalHandler::ConversationActions),
        OpenModal::ChatActions => Some(ModalHandler::ChatActions),
        OpenModal::ExpandedEditor => Some(ModalHandler::ExpandedEditor),
        OpenModal::DraftNavigator => Some(ModalHandler::DraftNavigator),
        OpenModal::BackendApproval => Some(ModalHandler::BackendApproval),
        OpenModal::DebugStats => Some(ModalHandler::DebugStats),
        OpenModal::HistorySearch => Some(ModalHandler::HistorySearch),
        OpenModal::NudgeList => Some(ModalHandler::NudgeList),
        OpenModal::NudgeCreate => Some(ModalHandler::NudgeCreate),
        OpenModal::NudgeDetail => Some(ModalHandler::NudgeDetail),
        OpenModal::NudgeDeleteConfirm => Some(ModalHandler::NudgeDeleteConfirm),
        OpenModal::WorkspaceManager => Some(ModalHandler::WorkspaceManager),
        OpenModal::AppSettings => Some(ModalHandler::AppSettings),
    }
}

/// Where a key goes. The command palette comes before everything, so that
/// it can close the sidebar search it was opened from; then the sidebar
/// search, the attachment modal, the ask modal, the tab modal, the search
/// modal and the in-conversation search; then the owner of the open modal.
/// `None`: no modal handles the key.
pub open spec fn modal_route(m: OpenModal, o: ModalOverlays) -> Option<ModalHandler> {
    if m == OpenModal::CommandPalette {
        Some(ModalHandler::CommandPalette)
    } else if o.sidebar_search_visible {
        Some(ModalHandler::SidebarSearch)
    } else if o.attachment_modal_open {
        Some(ModalHandler::Attachments)
    } else if m == OpenModal::AskModal {
        Some(ModalHandler::Ask)
    } else if o.tab_modal_open {
        Some(ModalHandler::TabModal)
    } else if o.search_modal_open {
        Some(ModalHandler::SearchModal)
    } else if o.chat_search_active {
        Some(ModalHandler::ChatSearch)
    } else {
        modal_owner(m)
    }
}

/// Routes a key to the modal handler that takes it, or to none.
pub fn route_modal_input(m: OpenModal, o: ModalOverlays) -> (r: Option<ModalHandler>)
    ensures
        r == modal_route(m, o),
        r is None <==> (modal_owner(m) is None && !o.sidebar_search_visible
            && !o.attachment_modal_open && !o.tab_modal_open && !o.search_modal_open
            && !o.chat_search_active),
{
    if m == OpenModal::CommandPalette {
        return Some(ModalHandler::CommandPalette);
    }
    if o.sidebar_search_visible {
        return Some(ModalHandler::SidebarSearch);
    }
    if o.attachment_modal_open {
        return Some(ModalHandler::Attachments);
    }
    if m == OpenModal::AskModal {
        return Some(ModalHandler::Ask);
    }
    if o.tab_modal_open {
        return Some(ModalHandler::TabModal);
    }
    if o.search_modal_open {
        return Some(ModalHandler::SearchModal);
    }
    if o.chat_search_active {
        return Some(ModalHandler::ChatSearch);
    }
    match m {
        OpenModal::NoModal | OpenModal::Other => None,
        OpenModal::CommandPalette => Some(ModalHandler::CommandPalette),
        OpenModal::AskModal => Some(ModalHandler::Ask),
        OpenModal::AgentConfig => Some(ModalHandler::AgentConfig),
        OpenModal::ProjectsModal => Some(ModalHandler::ProjectsModal),
        OpenModal::ViewRawEvent => Some(ModalHandler::ViewRawEvent),
        OpenModal::HotkeyHelp => Some(ModalHandler::HotkeyHelp),
        OpenModal::NudgeSkillSelector => Some(ModalHandler::NudgeSkillSelector),
        OpenModal::ComposerProjectSelector => Some(ModalHandler::ComposerProjectSelector),
        OpenModal::CreateAgent => Some(ModalHandler::CreateAgent),
        OpenModal::ProjectActions => Some(ModalHandler::ProjectActions),
        OpenModal::ReportViewer => Some(ModalHandler::ReportViewer),
        OpenModal::ConversationActions => Some(ModalHandler::ConversationActions),
        OpenModal::ChatActions => Some(ModalHandler::ChatActions),
        OpenModal::ExpandedEditor => Some(ModalHandler::ExpandedEditor),
        OpenModal::DraftNavigator => Some(ModalHandler::DraftNavigator),
        OpenModal::BackendApproval => Some(ModalHandler::BackendApproval),
        OpenModal::DebugStats => Some(ModalHandler::DebugStats),
        OpenModal::HistorySearch => Some(ModalHandler::HistorySearch),
        OpenModal::NudgeList => Some(ModalHandler::NudgeList),
        OpenModal::NudgeCreate => Some(ModalHandler::NudgeCreate),
        OpenModal::NudgeDetail => Some(ModalHandler::NudgeDetail),
        OpenModal::NudgeDeleteConfirm => Some(ModalHandler::NudgeDeleteConfirm),
        OpenModal::WorkspaceManager => Some(ModalHandler::WorkspaceManager),
        OpenModal::AppSettings => Some(ModalHandler::AppSettings),
    }
}

/// Every modal that the router knows keeps its keys to itself while no
/// overlay is showing: its own handler receives them.
pub proof fn lemma_open_modal_owns_its_keys(m: OpenModal, o: ModalOverlays)
    requires
        modal_owner(m) is Some,
        !o.sidebar_search_visible,
        !o.attachment_modal_open,
        !o.tab_modal_open,
        !o.search_modal_open,
        !o.chat_search_active,
    ensures
        modal_route(m, o) == modal_owner(m),
{
}

/// What the application reads of its state to dispatch a key.
#[derive(Debug, Clone, Copy)]
pub struct KeyContext {
    pub view: AppView,
    pub input_mode: InputMode,
    /// The open modal, as text-input detection and the global hotkeys see
    /// it.
    pub modal: ModalKind,
    /// The open modal, as the modal router sees it.
    pub open_modal: OpenModal,
    pub overlays: ModalOverlays,
    pub open_tabs: usize,
}

/// The handler a key is dispatched to.
#[derive(Debug, Clone, Copy, PartialEq, Eq, Structural)]
pub enum KeyDispatch {
    Global(GlobalHotkeyAction),
    Audio(AudioKey),
    Modal(ModalHandler),
    Tab(TabNavigation),
    View(ViewRoute),
}

/// Where a key goes, in order: a global hotkey (while typing, only a key
/// with Ctrl or Alt is looked up), Alt+S and Alt+R for the audio player,
/// the modal handlers, global tab navigation (not on the login view), and
/// last the view's handler. `hotkey` is what the hotkey registry resolved
/// the key to.
pub open spec fn key_dispatch(c: KeyContext, key: Key, ctrl: bool, alt: bool, hotkey: GlobalHotkey) -> KeyDispatch {
    let in_text = text_input_context(c.view, c.input_mode, c.modal);
    let global = hotkey_action(hotkey, in_text, c.modal);
    if (!in_text || ctrl || alt) && global != GlobalHotkeyAction::NotHandled {
        KeyDispatch::Global(global)
    } else if audio_key_for(key, alt) is Some {
        KeyDispatch::Audio(audio_key_for(key, alt)->0)
    } else if modal_route(c.open_modal, c.overlays) is Some {
        KeyDispatch::Modal(modal_route(c.open_modal, c.overlays)->0)
    } else if c.view != AppView::Login && tab_navigation(key, alt, c.open_tabs)
        != TabNavigation::NotHandled {
        KeyDispatch::Tab(tab_navigation(key, alt, c.open_tabs))
    } else {
        KeyDispatch::View(route_for(c.view, c.input_mode))
    }
}

/// The application's key entry point: dispatches a key to the handler
/// that takes it.
pub fn handle_key(c: &KeyContext, key: Key, ctrl: bool, alt: bool, hotkey: GlobalHotkey) -> (r: KeyDispatch)
    ensures
        r == key_dispatch(*c, key, ctrl, alt, hotkey),
{
    let in_text = in_text_input_context(c.view, c.input_mode, c.modal);
    if !in_text || ctrl || alt {
        let global = global_hotkey_action(hotkey, in_text, c.modal);
        if global != GlobalHotkeyAction::NotHandled {
            return KeyDispatch::Global(global);
        }
    }
    if let Some(a) = audio_hotkey(key, alt) {
        return KeyDispatch::Audio(a);
    }
    if let Some(h) = route_modal_input(c.open_modal, c.overlays) {
        return KeyDispatch::Modal(h);
    }
    if c.view != AppView::Login {
        let nav = handle_global_tab_navigation(key, alt, c.open_tabs);
        if nav != TabNavigation::NotHandled {
            return KeyDispatch::Tab(nav);
        }
    }
    KeyDispatch::View(view_route(c.view, c.input_mode))
}

/// The command palette's hotkey is never lost: whatever is open and
/// whatever the user is typing, the palette's hotkey pressed with Ctrl or
/// Alt opens the palette, or is consumed while the palette is already open.
pub proof fn lemma_palette_hotkey_always_wins(c: KeyContext, key: Key, ctrl: bool, alt: bool)
    requires
        ctrl || alt,
    ensures
        key_dispatch(c, key, ctrl, alt, GlobalHotkey::CommandPalette) == KeyDispatch::Global(
            if c.modal == ModalKind::CommandPalette {
                GlobalHotkeyAction::Consumed
            } else {
                GlobalHotkeyAction::OpenCommandPalette
            },
        ),
{
}

} // verus!
