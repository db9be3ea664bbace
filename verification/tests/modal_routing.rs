use tenex_tui::keys::{AudioKey, GlobalHotkey, GlobalHotkeyAction, Key, ModalKind, TabNavigation, ViewRoute};
use tenex_tui::modal_routing::{
    handle_key, route_modal_input, KeyContext, KeyDispatch, ModalHandler, ModalOverlays, OpenModal,
};
use tenex_tui::view_state::{AppView, InputMode};

fn no_overlays() -> ModalOverlays {
    ModalOverlays {
        sidebar_search_visible: false,
        attachment_modal_open: false,
        tab_modal_open: false,
        search_modal_open: false,
        chat_search_active: false,
    }
}

#[test]
fn palette_comes_before_sidebar_search() {
    let mut o = no_overlays();
    o.sidebar_search_visible = true;
    assert_eq!(
        route_modal_input(OpenModal::CommandPalette, o),
        Some(ModalHandler::CommandPalette)
    );
    assert_eq!(route_modal_input(OpenModal::NudgeList, o), Some(ModalHandler::SidebarSearch));
}

#[test]
fn attachment_modal_comes_before_ask_modal() {
    let mut o = no_overlays();
    o.attachment_modal_open = true;
    assert_eq!(route_modal_input(OpenModal::AskModal, o), Some(ModalHandler::Attachments));
    o.attachment_modal_open = false;
    assert_eq!(route_modal_input(OpenModal::AskModal, o), Some(ModalHandler::Ask));
}

#[test]
fn ask_modal_comes_before_tab_modal() {
    let mut o = no_overlays();
    o.tab_modal_open = true;
    assert_eq!(route_modal_input(OpenModal::AskModal, o), Some(ModalHandler::Ask));
    assert_eq!(route_modal_input(OpenModal::AppSettings, o), Some(ModalHandler::TabModal));
}

#[test]
fn chat_search_comes_before_open_modal() {
    let mut o = no_overlays();
    o.chat_search_active = true;
    assert_eq!(route_modal_input(OpenModal::DebugStats, o), Some(ModalHandler::ChatSearch));
    o.search_modal_open = true;
    assert_eq!(route_modal_input(OpenModal::DebugStats, o), Some(ModalHandler::SearchModal));
}

#[test]
fn open_modal_gets_its_own_handler() {
    let o = no_overlays();
    assert_eq!(route_modal_input(OpenModal::WorkspaceManager, o), Some(ModalHandler::WorkspaceManager));
    assert_eq!(route_modal_input(OpenModal::NudgeCreate, o), Some(ModalHandler::NudgeCreate));
    assert_eq!(route_modal_input(OpenModal::HotkeyHelp, o), Some(ModalHandler::HotkeyHelp));
}

#[test]
fn unrouted_modal_is_not_handled() {
    let o = no_overlays();
    assert_eq!(route_modal_input(OpenModal::NoModal, o), None);
    assert_eq!(route_modal_input(OpenModal::Other, o), None);
}

fn context(view: AppView, input_mode: InputMode, modal: ModalKind, open_modal: OpenModal) -> KeyContext {
    KeyContext { view, input_mode, modal, open_modal, overlays: no_overlays(), open_tabs: 2 }
}

#[test]
fn palette_hotkey_works_while_typing_with_ctrl() {
    let c = context(AppView::Chat, InputMode::Editing, ModalKind::NoModal, OpenModal::NoModal);
    assert_eq!(
        handle_key(&c, Key::Char('t'), true, false, GlobalHotkey::CommandPalette),
        KeyDispatch::Global(GlobalHotkeyAction::OpenCommandPalette)
    );
    assert_eq!(
        handle_key(&c, Key::Char('t'), false, false, GlobalHotkey::CommandPalette),
        KeyDispatch::View(ViewRoute::ChatEditor)
    );
    let open = context(AppView::Chat, InputMode::Normal, ModalKind::CommandPalette, OpenModal::CommandPalette);
    assert_eq!(
        handle_key(&open, Key::Char('t'), true, false, GlobalHotkey::CommandPalette),
        KeyDispatch::Global(GlobalHotkeyAction::Consumed)
    );
}

#[test]
fn help_is_not_taken_while_typing() {
    let c = context(AppView::Home, InputMode::Editing, ModalKind::NoModal, OpenModal::NoModal);
    assert_eq!(handle_key(&c, Key::Char('?'), false, true, GlobalHotkey::Help), KeyDispatch::View(ViewRoute::Home));
    let n = context(AppView::Home, InputMode::Normal, ModalKind::NoModal, OpenModal::NoModal);
    assert_eq!(
        handle_key(&n, Key::Char('?'), false, false, GlobalHotkey::Help),
        KeyDispatch::Global(GlobalHotkeyAction::ShowHelp)
    );
}

#[test]
fn audio_then_modal_then_tabs_then_view() {
    let c = context(AppView::Chat, InputMode::Normal, ModalKind::Other, OpenModal::NudgeList);
    assert_eq!(handle_key(&c, Key::Char('s'), false, true, GlobalHotkey::Other), KeyDispatch::Audio(AudioKey::Stop));
    assert_eq!(handle_key(&c, Key::Char('2'), false, true, GlobalHotkey::Other), KeyDispatch::Modal(ModalHandler::NudgeList));
    let plain = context(AppView::Chat, InputMode::Normal, ModalKind::NoModal, OpenModal::NoModal);
    assert_eq!(
        handle_key(&plain, Key::Char('2'), false, true, GlobalHotkey::Other),
        KeyDispatch::Tab(TabNavigation::SwitchToTab(0))
    );
    assert_eq!(handle_key(&plain, Key::Char('x'), false, false, GlobalHotkey::Other), KeyDispatch::View(ViewRoute::ChatNormal));
    let login = context(AppView::Login, InputMode::Editing, ModalKind::NoModal, OpenModal::NoModal);
    assert_eq!(handle_key(&login, Key::Char('1'), false, true, GlobalHotkey::Other), KeyDispatch::View(ViewRoute::Editing));
}
