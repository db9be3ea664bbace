use tenex_tui::editor_keys::{
    handle_attachment_modal_key, handle_chat_editor_key, handle_expanded_editor_key, handle_context_focus_key, selection_after_editing, ContextFocus,
    ContextStep, EditorCommand, EditorKeyState, VimMode,
};
use tenex_tui::input_prefix::PrefixTrigger;
use tenex_tui::keys::Key;

fn st() -> EditorKeyState {
    EditorKeyState {
        has_attachments: false,
        focused_attachment: None,
        total_attachments: 0,
        browsing_history: false,
        on_first_visual_line: true,
        on_last_visual_line: true,
    }
}

fn cmd(s: &EditorKeyState, vim: Option<VimMode>, text: &str, key: Key, ctrl: bool, alt: bool, shift: bool) -> EditorCommand {
    handle_chat_editor_key(s, vim, text, key, ctrl, alt, shift).command
}

#[test]
fn enter_sends_and_modified_enter_breaks_lines() {
    let s = st();
    assert_eq!(cmd(&s, None, "hi", Key::Enter, false, false, false), EditorCommand::Send);
    let step = handle_chat_editor_key(&s, None, "hi", Key::Enter, false, false, true);
    assert_eq!(step.command, EditorCommand::InsertNewline);
    assert!(step.save_draft);
    assert_eq!(cmd(&s, None, "hi", Key::Char('j'), true, false, false), EditorCommand::InsertNewline);
}

#[test]
fn prefix_triggers_only_on_blank_input() {
    let s = st();
    assert_eq!(cmd(&s, None, "", Key::Char('@'), false, false, false), EditorCommand::Trigger(PrefixTrigger::AgentSelector));
    assert_eq!(cmd(&s, None, "x", Key::Char('@'), false, false, false), EditorCommand::InsertChar('@'));
    let mut a = st();
    a.has_attachments = true;
    assert_eq!(cmd(&a, None, "", Key::Char('/'), false, false, false), EditorCommand::InsertChar('/'));
    assert_eq!(cmd(&s, None, "", Key::Char('b'), true, false, false), EditorCommand::InsertChar('b'));
}

#[test]
fn arrows_history_attachments_and_scrolling() {
    let s = st();
    assert_eq!(cmd(&s, None, "", Key::Up, false, false, false), EditorCommand::HistoryPrev);
    assert_eq!(cmd(&s, None, "", Key::Up, true, false, false), EditorCommand::HistoryPrev);
    assert_eq!(cmd(&s, None, "x", Key::Up, true, false, false), EditorCommand::ScrollUp(3));
    assert_eq!(cmd(&s, None, "x", Key::Down, false, false, false), EditorCommand::FocusContextLine);
    let mut a = st();
    a.has_attachments = true;
    a.total_attachments = 2;
    assert_eq!(cmd(&a, None, "x", Key::Up, false, false, false), EditorCommand::FocusAttachments);
    a.focused_attachment = Some(0);
    assert_eq!(cmd(&a, None, "x", Key::Right, false, false, false), EditorCommand::FocusAttachment(1));
    assert_eq!(cmd(&a, None, "x", Key::Left, false, false, false), EditorCommand::Nothing);
    assert_eq!(cmd(&a, None, "x", Key::Down, false, false, false), EditorCommand::UnfocusAttachments);
    assert_eq!(cmd(&a, None, "x", Key::Backspace, false, false, false), EditorCommand::DeleteFocusedAttachment);
    assert_eq!(cmd(&s, None, "x", Key::Left, false, true, true), EditorCommand::WordLeftExtendSelection);
    assert_eq!(cmd(&s, None, "x", Key::PageDown, false, false, false), EditorCommand::ScrollDown(20));
    assert_eq!(cmd(&s, None, "x", Key::Char('z'), true, false, true), EditorCommand::Redo);
}

#[test]
fn vim_modes() {
    let s = st();
    assert_eq!(cmd(&s, Some(VimMode::Normal), "x", Key::Char('j'), false, false, false), EditorCommand::VisualDown);
    assert_eq!(cmd(&s, Some(VimMode::Normal), "x", Key::Char('j'), true, false, false), EditorCommand::InsertNewline);
    assert_eq!(cmd(&s, Some(VimMode::Normal), "x", Key::Char('r'), false, false, false), EditorCommand::Nothing);
    assert_eq!(cmd(&s, Some(VimMode::Normal), "x", Key::Char('o'), false, false, false), EditorCommand::VimOpenBelow);
    assert_eq!(cmd(&s, Some(VimMode::Insert), "x", Key::Esc, false, false, false), EditorCommand::VimNormalMode);
    assert_eq!(cmd(&s, Some(VimMode::Insert), "x", Key::Char('q'), false, false, false), EditorCommand::InsertChar('q'));
    assert_eq!(cmd(&s, None, "x", Key::Esc, false, false, false), EditorCommand::ExitEditing);
    assert_eq!(selection_after_editing(5), 4);
    assert_eq!(selection_after_editing(0), 0);
}

#[test]
fn context_line() {
    assert_eq!(handle_context_focus_key(ContextFocus::Agent, Key::Left), ContextStep::Focus(ContextFocus::Agent));
    assert_eq!(handle_context_focus_key(ContextFocus::Branch, Key::Right), ContextStep::Focus(ContextFocus::Nudge));
    assert_eq!(handle_context_focus_key(ContextFocus::Nudge, Key::Right), ContextStep::Focus(ContextFocus::Nudge));
    assert_eq!(handle_context_focus_key(ContextFocus::Model, Key::Enter), ContextStep::OpenModelSettings);
    assert_eq!(handle_context_focus_key(ContextFocus::Model, Key::Esc), ContextStep::Leave);
}

#[test]
fn modal_editors() {
    assert_eq!(handle_attachment_modal_key(Key::Char('s'), true, false), EditorCommand::SaveModal);
    assert_eq!(handle_attachment_modal_key(Key::Char('d'), true, false), EditorCommand::DeleteAttachment);
    assert_eq!(handle_attachment_modal_key(Key::Char('d'), false, false), EditorCommand::InsertChar('d'));
    assert_eq!(handle_attachment_modal_key(Key::Left, false, true), EditorCommand::WordLeft);
    assert_eq!(handle_attachment_modal_key(Key::Esc, false, false), EditorCommand::CancelModal);
    assert_eq!(handle_expanded_editor_key(Key::Char('z'), true, false, true), EditorCommand::Redo);
    assert_eq!(handle_expanded_editor_key(Key::Char('a'), true, false, false), EditorCommand::SelectAll);
    assert_eq!(handle_expanded_editor_key(Key::Up, false, false, false), EditorCommand::Up);
    assert_eq!(handle_expanded_editor_key(Key::Right, false, true, true), EditorCommand::WordRightExtendSelection);
}
