//! The chat editor's key bindings: which editing command a key runs, in
//! plain editing, in vim's normal mode, and on the context line (agent,
//! model, branch, nudge) below the input.

use vstd::prelude::*;
use crate::input_prefix::{input_is_blank, trigger_for_char, try_handle_prefix, PrefixTrigger};
use crate::keys::Key;

verus! {

/// What the editor's key bindings read of the editor.
#[derive(Debug, Clone, Copy)]
pub struct EditorKeyState {
    pub has_attachments: bool,
    /// The attachment chip that has focus, if any.
    pub focused_attachment: Option<usize>,
    pub total_attachments: usize,
    /// The message history is being browsed with the arrows.
    pub browsing_history: bool,
    /// The cursor is on the first visual line of the input.
    pub on_first_visual_line: bool,
    /// The cursor is on the last visual line of the input.
    pub on_last_visual_line: bool,
}

/// A command of the chat editor.
#[derive(Debug, Clone, Copy, PartialEq, Eq, Structural)]
pub enum EditorCommand {
    InsertNewline,
    /// Send the message or create the thread.
    Send,
    /// Leave editing for normal mode, selecting the last message.
    ExitEditing,
    /// Move focus between the input and the attachment chips, opening the
    /// attachment if one gets focus.
    CycleAttachmentFocus,
    HistoryPrev,
    HistoryNext,
    FocusAttachments,
    UnfocusAttachments,
    /// Focus the attachment chip at this index.
    FocusAttachment(usize),
    OpenNudgeSelector,
    OpenHistorySearch,
    VisualLineStart,
    VisualLineEnd,
    KillToLineEnd,
    /// Clear the input (undoable).
    ClearInput,
    DeleteWordBackward,
    DeleteCharAt,
    DeleteCharBefore,
    DeleteFocusedAttachment,
    Undo,
    Redo,
    CopySelection,
    /// Copy the selection and delete it.
    CutSelection,
    WordLeftExtendSelection,
    WordRightExtendSelection,
    WordLeft,
    WordRight,
    LeftExtendSelection,
    RightExtendSelection,
    Left,
    Right,
    LineStart,
    LineEnd,
    VisualUp,
    VisualDown,
    ScrollUp(usize),
    ScrollDown(usize),
    /// Focus the agent on the context line.
    FocusContextLine,
    InsertChar(char),
    /// Fire a prefix trigger instead of typing.
    Trigger(PrefixTrigger),
    /// Leave vim's insert mode.
    VimNormalMode,
    VimInsert,
    VimAppend,
    /// Go to the line's end, then insert.
    VimInsertAtLineEnd,
    /// Go to the line's start, then insert.
    VimInsertAtLineStart,
    /// Open a new line below and insert there.
    VimOpenBelow,
    /// Open a new line above and insert there.
    VimOpenAbove,
    /// Close a modal editor without keeping its text.
    CancelModal,
    /// Keep a modal editor's text and close it.
    SaveModal,
    /// Delete the attachment being edited and close its editor.
    DeleteAttachment,
    SelectAll,
    /// Move up one line (not by visual line).
    Up,
    /// Move down one line (not by visual line).
    Down,
    Nothing,
}

/// A command and whether the draft is saved after it.
#[derive(Debug, Clone, Copy, PartialEq, Eq, Structural)]
pub struct EditorStep {
    pub command: EditorCommand,
    pub save_draft: bool,
}

/// A command that changes the text, after which the draft is saved.
pub open spec fn edits(c: EditorCommand) -> bool {
    match c {
        EditorCommand::InsertNewline | EditorCommand::ExitEditing | EditorCommand::KillToLineEnd
        | EditorCommand::ClearInput | EditorCommand::DeleteWordBackward
        | EditorCommand::DeleteCharAt | EditorCommand::DeleteCharBefore
        | EditorCommand::DeleteFocusedAttachment | EditorCommand::Undo | EditorCommand::Redo
        | EditorCommand::CutSelection | EditorCommand::InsertChar(_)
        | EditorCommand::VimNormalMode | EditorCommand::VimOpenBelow
        | EditorCommand::VimOpenAbove => true,
        _ => false,
    }
}

fn editing_command(c: EditorCommand) -> (r: bool)
    ensures
        r == edits(c),
{
    match c {
        EditorCommand::InsertNewline | EditorCommand::ExitEditing | EditorCommand::KillToLineEnd
        | EditorCommand::ClearInput | EditorCommand::DeleteWordBackward
        | EditorCommand::DeleteCharAt | EditorCommand::DeleteCharBefore
        | EditorCommand::DeleteFocusedAttachment | EditorCommand::Undo | EditorCommand::Redo
        | EditorCommand::CutSelection | EditorCommand::InsertChar(_)
        | EditorCommand::VimNormalMode | EditorCommand::VimOpenBelow
        | EditorCommand::VimOpenAbove => true,
        _ => false,
    }
}

/// The command a key runs in plain editing. `text` is the input's text;
/// `ctrl`, `alt` and `shift` the modifiers held.
pub open spec fn editing_command_for(
    st: EditorKeyState,
    text: Seq<char>,
    key: Key,
    ctrl: bool,
    alt: bool,
    shift: bool,
) -> EditorCommand {
    let focused = st.focused_attachment;
    match key {
        Key::Enter => if shift || alt {
            EditorCommand::InsertNewline
        } else {
            EditorCommand::Send
        },
        Key::Esc => EditorCommand::ExitEditing,
        Key::Tab => if st.has_attachments {
            EditorCommand::CycleAttachmentFocus
        } else {
            EditorCommand::Nothing
        },
        Key::Up => if text.len() == 0 && !st.has_attachments {
            EditorCommand::HistoryPrev
        } else if st.has_attachments && focused is None && st.on_first_visual_line {
            EditorCommand::FocusAttachments
        } else if ctrl {
            EditorCommand::ScrollUp(3)
        } else {
            EditorCommand::VisualUp
        },
        Key::Down => if st.browsing_history {
            EditorCommand::HistoryNext
        } else if focused is Some {
            EditorCommand::UnfocusAttachments
        } else if ctrl {
            EditorCommand::ScrollDown(3)
        } else if st.on_last_visual_line {
            EditorCommand::FocusContextLine
        } else {
            EditorCommand::VisualDown
        },
        Key::Left => match focused {
            Some(i) => if i > 0 {
                EditorCommand::FocusAttachment((i - 1) as usize)
            } else {
                EditorCommand::Nothing
            },
            None => if alt && shift {
                EditorCommand::WordLeftExtendSelection
            } else if alt {
                EditorCommand::WordLeft
            } else if shift {
                EditorCommand::LeftExtendSelection
            } else {
                EditorCommand::Left
            },
        },
        Key::Right => match focused {
            Some(i) => if i + 1 < st.total_attachments {
                EditorCommand::FocusAttachment((i + 1) as usize)
            } else {
                EditorCommand::Nothing
            },
            None => if alt && shift {
                EditorCommand::WordRightExtendSelection
            } else if alt {
                EditorCommand::WordRight
            } else if shift {
                EditorCommand::RightExtendSelection
            } else {
                EditorCommand::Right
            },
        },
        Key::Home => EditorCommand::LineStart,
        Key::End => EditorCommand::LineEnd,
        Key::Backspace => if alt {
            EditorCommand::DeleteWordBackward
        } else if focused is Some {
            EditorCommand::DeleteFocusedAttachment
        } else {
            EditorCommand::DeleteCharBefore
        },
        Key::Delete => if focused is Some {
            EditorCommand::DeleteFocusedAttachment
        } else {
            EditorCommand::DeleteCharAt
        },
        Key::PageUp => EditorCommand::ScrollUp(20),
        Key::PageDown => EditorCommand::ScrollDown(20),
        Key::Char(c) => if ctrl && (c == 'j' || c == 'J') {
            EditorCommand::InsertNewline
        } else if ctrl && c == 'n' {
            EditorCommand::OpenNudgeSelector
        } else if ctrl && c == 'r' {
            EditorCommand::OpenHistorySearch
        } else if ctrl && c == 'a' {
            EditorCommand::VisualLineStart
        } else if ctrl && c == 'e' {
            EditorCommand::VisualLineEnd
        } else if ctrl && c == 'k' {
            EditorCommand::KillToLineEnd
        } else if ctrl && c == 'u' {
            EditorCommand::ClearInput
        } else if ctrl && c == 'w' {
            EditorCommand::DeleteWordBackward
        } else if ctrl && c == 'd' {
            EditorCommand::DeleteCharAt
        } else if ctrl && c == 'z' {
            if shift {
                EditorCommand::Redo
            } else {
                EditorCommand::Undo
            }
        } else if ctrl && c == 'c' {
            EditorCommand::CopySelection
        } else if ctrl && c == 'x' {
            EditorCommand::CutSelection
        } else if input_is_blank(text, st.has_attachments) && trigger_for_char(c) is Some {
            EditorCommand::Trigger(trigger_for_char(c)->0)
        } else {
            EditorCommand::InsertChar(c)
        },
        _ => EditorCommand::Nothing,
    }
}

/// The command a key runs in vim's normal mode.
pub open spec fn vim_normal_command_for(key: Key, ctrl: bool, alt: bool, shift: bool) -> EditorCommand {
    match key {
        Key::Char(c) => if ctrl && (c == 'j' || c == 'J') {
            EditorCommand::InsertNewline
        } else if c == 'i' {
            EditorCommand::VimInsert
        } else if c == 'a' {
            EditorCommand::VimAppend
        } else if c == 'A' {
            EditorCommand::VimInsertAtLineEnd
        } else if c == 'I' {
            EditorCommand::VimInsertAtLineStart
        } else if c == 'o' {
            EditorCommand::VimOpenBelow
        } else if c == 'O' {
            EditorCommand::VimOpenAbove
        } else if c == 'h' {
            EditorCommand::Left
        } else if c == 'l' {
            EditorCommand::Right
        } else if c == 'j' {
            EditorCommand::VisualDown
        } else if c == 'k' {
            EditorCommand::VisualUp
        } else if c == 'w' {
            EditorCommand::WordRight
        } else if c == 'b' {
            EditorCommand::WordLeft
        } else if c == '0' {
            EditorCommand::LineStart
        } else if c == '$' {
            EditorCommand::LineEnd
        } else if c == 'x' {
            EditorCommand::DeleteCharAt
        } else if c == 'X' {
            EditorCommand::DeleteCharBefore
        } else if c == 'u' {
            EditorCommand::Undo
        } else if c == 'r' && ctrl {
            EditorCommand::Redo
        } else if c == 'D' {
            EditorCommand::KillToLineEnd
        } else {
            EditorCommand::Nothing
        },
        Key::Left => EditorCommand::Left,
        Key::Right => EditorCommand::Right,
        Key::Down => EditorCommand::VisualDown,
        Key::Up => EditorCommand::VisualUp,
        Key::Esc => EditorCommand::ExitEditing,
        Key::Enter => if shift || alt {
            EditorCommand::InsertNewline
        } else {
            EditorCommand::Nothing
        },
        _ => EditorCommand::Nothing,
    }
}

/// Vim's two modes.
#[derive(Debug, Clone, Copy, PartialEq, Eq, Structural)]
pub enum VimMode {
    Normal,
    Insert,
}

/// The command a key runs in the chat editor: vim's normal mode has its
/// own bindings, Escape leaves vim's insert mode, and otherwise the plain
/// editing bindings apply.
pub open spec fn chat_editor_command(
    st: EditorKeyState,
    vim: Option<VimMode>,
    text: Seq<char>,
    key: Key,
    ctrl: bool,
    alt: bool,
    shift: bool,
) -> EditorCommand {
    match vim {
        Some(VimMode::Normal) => vim_normal_command_for(key, ctrl, alt, shift),
        Some(VimMode::Insert) => if key == Key::Esc {
            EditorCommand::VimNormalMode
        } else {
            editing_command_for(st, text, key, ctrl, alt, shift)
        },
        None => editing_command_for(st, text, key, ctrl, alt, shift),
    }
}

fn plain_editing_command(
    st: &EditorKeyState,
    text: &str,
    key: Key,
    ctrl: bool,
    alt: bool,
    shift: bool,
) -> (r: EditorCommand)
    ensures
        r == editing_command_for(*st, text@, key, ctrl, alt, shift),
{
    let focused = st.focused_attachment;
    match key {
        Key::Enter => if shift || alt {
            EditorCommand::InsertNewline
        } else {
            EditorCommand::Send
        },
        Key::Esc => EditorCommand::ExitEditing,
        Key::Tab => if st.has_attachments {
            EditorCommand::CycleAttachmentFocus
        } else {
            EditorCommand::Nothing
        },
        Key::Up => if text.unicode_len() == 0 && !st.has_attachments {
            EditorCommand::HistoryPrev
        } else if st.has_attachments && focused.is_none() && st.on_first_visual_line {
            EditorCommand::FocusAttachments
        } else if ctrl {
            EditorCommand::ScrollUp(3)
        } else {
            EditorCommand::VisualUp
        },
        Key::Down => if st.browsing_history {
            EditorCommand::HistoryNext
        } else if focused.is_some() {
            EditorCommand::UnfocusAttachments
        } else if ctrl {
            EditorCommand::ScrollDown(3)
        } else if st.on_last_visual_line {
            EditorCommand::FocusContextLine
        } else {
            EditorCommand::VisualDown
        },
        Key::Left => match focused {
            Some(i) => if i > 0 {
                EditorCommand::FocusAttachment(i - 1)
            } else {
                EditorCommand::Nothing
            },
            None => if alt && shift {
                EditorCommand::WordLeftExtendSelection
            } else if alt {
                EditorCommand::WordLeft
            } else if shift {
                EditorCommand::LeftExtendSelection
            } else {
                EditorCommand::Left
            },
        },
        Key::Right => match focused {
            Some(i) => if st.total_attachments > 0 && i < st.total_attachments - 1 {
                EditorCommand::FocusAttachment(i + 1)
            } else {
                EditorCommand::Nothing
            },
            None => if alt && shift {
                EditorCommand::WordRightExtendSelection
            } else if alt {
                EditorCommand::WordRight
            } else if shift {
                EditorCommand::RightExtendSelection
            } else {
                EditorCommand::Right
            },
        },
        Key::Home => EditorCommand::LineStart,
        Key::End => EditorCommand::LineEnd,
        Key::Backspace => if alt {
            EditorCommand::DeleteWordBackward
        } else if focused.is_some() {
            EditorCommand::DeleteFocusedAttachment
        } else {
            EditorCommand::DeleteCharBefore
        },
        Key::Delete => if focused.is_some() {
            EditorCommand::DeleteFocusedAttachment
        } else {
            EditorCommand::DeleteCharAt
        },
        Key::PageUp => EditorCommand::ScrollUp(20),
        Key::PageDown => EditorCommand::ScrollDown(20),
        Key::Char(c) => if ctrl && (c == 'j' || c == 'J') {
            EditorCommand::InsertNewline
        } else if ctrl && c == 'n' {
            EditorCommand::OpenNudgeSelector
        } else if ctrl && c == 'r' {
            EditorCommand::OpenHistorySearch
        } else if ctrl && c == 'a' {
            EditorCommand::VisualLineStart
        } else if ctrl && c == 'e' {
            EditorCommand::VisualLineEnd
        } else if ctrl && c == 'k' {
            EditorCommand::KillToLineEnd
        } else if ctrl && c == 'u' {
            EditorCommand::ClearInput
        } else if ctrl && c == 'w' {
            EditorCommand::DeleteWordBackward
        } else if ctrl && c == 'd' {
            EditorCommand::DeleteCharAt
        } else if ctrl && c == 'z' {
            if shift {
                EditorCommand::Redo
            } else {
                EditorCommand::Undo
            }
        } else if ctrl && c == 'c' {
            EditorCommand::CopySelection
        } else if ctrl && c == 'x' {
            EditorCommand::CutSelection
        } else {
            match try_handle_prefix(text, st.has_attachments, c) {
                Some(t) => EditorCommand::Trigger(t),
                None => EditorCommand::InsertChar(c),
            }
        },
        _ => EditorCommand::Nothing,
    }
}

fn vim_normal_command(key: Key, ctrl: bool, alt: bool, shift: bool) -> (r: EditorCommand)
    ensures
        r == vim_normal_command_for(key, ctrl, alt, shift),
{
    match key {
        Key::Char(c) => if ctrl && (c == 'j' || c == 'J') {
            EditorCommand::InsertNewline
        } else if c == 'i' {
            EditorCommand::VimInsert
        } else if c == 'a' {
            EditorCommand::VimAppend
        } else if c == 'A' {
            EditorCommand::VimInsertAtLineEnd
        } else if c == 'I' {
            EditorCommand::VimInsertAtLineStart
        } else if c == 'o' {
            EditorCommand::VimOpenBelow
        } else if c == 'O' {
            EditorCommand::VimOpenAbove
        } else if c == 'h' {
            EditorCommand::Left
        } else if c == 'l' {
            EditorCommand::Right
        } else if c == 'j' {
            EditorCommand::VisualDown
        } else if c == 'k' {
            EditorCommand::VisualUp
        } else if c == 'w' {
            EditorCommand::WordRight
        } else if c == 'b' {
            EditorCommand::WordLeft
        } else if c == '0' {
            EditorCommand::LineStart
        } else if c == '$' {
            EditorCommand::LineEnd
        } else if c == 'x' {
            EditorCommand::DeleteCharAt
        } else if c == 'X' {
            EditorCommand::DeleteCharBefore
        } else if c == 'u' {
            EditorCommand::Undo
        } else if c == 'r' && ctrl {
            EditorCommand::Redo
        } else if c == 'D' {
            EditorCommand::KillToLineEnd
        } else {
            EditorCommand::Nothing
        },
        Key::Left => EditorCommand::Left,
        Key::Right => EditorCommand::Right,
        Key::Down => EditorCommand::VisualDown,
        Key::Up => EditorCommand::VisualUp,
        Key::Esc => EditorCommand::ExitEditing,
        Key::Enter => if shift || alt {
            EditorCommand::InsertNewline
        } else {
            EditorCommand::Nothing
        },
        _ => EditorCommand::Nothing,
    }
}

/// Handles a key in the chat editor (with the context line not focused):
/// the command to run and whether the draft is saved after it. `vim` is
/// vim's mode when vim bindings are on.
pub fn handle_chat_editor_key(
    st: &EditorKeyState,
    vim: Option<VimMode>,
    text: &str,
    key: Key,
    ctrl: bool,
    alt: bool,
    shift: bool,
) -> (r: EditorStep)
    ensures
        r.command == chat_editor_command(*st, vim, text@, key, ctrl, alt, shift),
        r.save_draft == edits(r.command),
{
    let command = match vim {
        Some(VimMode::Normal) => vim_normal_command(key, ctrl, alt, shift),
        Some(VimMode::Insert) => if key == Key::Esc {
            EditorCommand::VimNormalMode
        } else {
            plain_editing_command(st, text, key, ctrl, alt, shift)
        },
        None => plain_editing_command(st, text, key, ctrl, alt, shift),
    };
    EditorStep { command, save_draft: editing_command(command) }
}

/// An item of the context line below the input.
#[derive(Debug, Clone, Copy, PartialEq, Eq, Structural)]
pub enum ContextFocus {
    Agent,
    Model,
    Branch,
    Nudge,
}

/// What a key does on the context line.
#[derive(Debug, Clone, Copy, PartialEq, Eq, Structural)]
pub enum ContextStep {
    /// Return to the text input.
    Leave,
    /// Focus this item.
    Focus(ContextFocus),
    /// Leave the context line and open the agent selector.
    OpenAgentSelector,
    /// Open the selected agent's settings to change its model (when an
    /// agent and a project are selected).
    OpenModelSettings,
    /// Leave the context line and open the branch selector.
    OpenBranchSelector,
    /// Leave the context line and open the nudge selector.
    OpenNudgeSelector,
    Nothing,
}

/// Handles a key on the context line: Up or Escape return to the input,
/// Left and Right move along agent, model, branch and nudge (stopping at
/// the ends), Enter opens the focused item's selector.
pub fn handle_context_focus_key(focus: ContextFocus, key: Key) -> (r: ContextStep)
    ensures
        r == match key {
            Key::Up | Key::Esc => ContextStep::Leave,
            Key::Left => ContextStep::Focus(
                match focus {
                    ContextFocus::Agent => ContextFocus::Agent,
                    ContextFocus::Model => ContextFocus::Agent,
                    ContextFocus::Branch => ContextFocus::Model,
                    ContextFocus::Nudge => ContextFocus::Branch,
                },
            ),
            Key::Right => ContextStep::Focus(
                match focus {
                    ContextFocus::Agent => ContextFocus::Model,
                    ContextFocus::Model => ContextFocus::Branch,
                    ContextFocus::Branch => ContextFocus::Nudge,
                    ContextFocus::Nudge => ContextFocus::Nudge,
                },
            ),
            Key::Enter => match focus {
                ContextFocus::Agent => ContextStep::OpenAgentSelector,
                ContextFocus::Model => ContextStep::OpenModelSettings,
                ContextFocus::Branch => ContextStep::OpenBranchSelector,
                ContextFocus::Nudge => ContextStep::OpenNudgeSelector,
            },
            _ => ContextStep::Nothing,
        },
{
    match key {
        Key::Up | Key::Esc => ContextStep::Leave,
        Key::Left => ContextStep::Focus(
            match focus {
                ContextFocus::Agent => ContextFocus::Agent,
                ContextFocus::Model => ContextFocus::Agent,
                ContextFocus::Branch => ContextFocus::Model,
                ContextFocus::Nudge => ContextFocus::Branch,
            },
        ),
        Key::Right => ContextStep::Focus(
            match focus {
                ContextFocus::Agent => ContextFocus::Model,
                ContextFocus::Model => ContextFocus::Branch,
                ContextFocus::Branch => ContextFocus::Nudge,
                ContextFocus::Nudge => ContextFocus::Nudge,
            },
        ),
        Key::Enter => match focus {
            ContextFocus::Agent => ContextStep::OpenAgentSelector,
            ContextFocus::Model => ContextStep::OpenModelSettings,
            ContextFocus::Branch => ContextStep::OpenBranchSelector,
            ContextFocus::Nudge => ContextStep::OpenNudgeSelector,
        },
        _ => ContextStep::Nothing,
    }
}

/// The row selected when editing ends: the last message, if any.
pub fn selection_after_editing(display_item_count: usize) -> (r: usize)
    ensures
        r == if display_item_count > 0 {
            display_item_count - 1
        } else {
            0
        },
{
    display_item_count.saturating_sub(1)
}

/// The command a key runs in the attachment editor: Ctrl+S keeps the text,
/// Ctrl+D deletes the attachment, Escape cancels.
pub open spec fn attachment_command_for(key: Key, ctrl: bool, alt: bool) -> EditorCommand {
    match key {
        Key::Esc => EditorCommand::CancelModal,
        Key::Enter => EditorCommand::InsertNewline,
        Key::Left => if alt {
            EditorCommand::WordLeft
        } else {
            EditorCommand::Left
        },
        Key::Right => if alt {
            EditorCommand::WordRight
        } else {
            EditorCommand::Right
        },
        Key::Backspace => EditorCommand::DeleteCharBefore,
        Key::Delete => EditorCommand::DeleteCharAt,
        Key::Char(c) => if ctrl && c == 's' {
            EditorCommand::SaveModal
        } else if ctrl && c == 'd' {
            EditorCommand::DeleteAttachment
        } else if ctrl && c == 'a' {
            EditorCommand::LineStart
        } else if ctrl && c == 'e' {
            EditorCommand::LineEnd
        } else if ctrl && c == 'k' {
            EditorCommand::KillToLineEnd
        } else {
            EditorCommand::InsertChar(c)
        },
        _ => EditorCommand::Nothing,
    }
}

/// Handles a key in the attachment editor.
pub fn handle_attachment_modal_key(key: Key, ctrl: bool, alt: bool) -> (r: EditorCommand)
    ensures
        r == attachment_command_for(key, ctrl, alt),
{
    match key {
        Key::Esc => EditorCommand::CancelModal,
        Key::Enter => EditorCommand::InsertNewline,
        Key::Left => if alt {
            EditorCommand::WordLeft
        } else {
            EditorCommand::Left
        },
        Key::Right => if alt {
            EditorCommand::WordRight
        } else {
            EditorCommand::Right
        },
        Key::Backspace => EditorCommand::DeleteCharBefore,
        Key::Delete => EditorCommand::DeleteCharAt,
        Key::Char(c) => if ctrl && c == 's' {
            EditorCommand::SaveModal
        } else if ctrl && c == 'd' {
            EditorCommand::DeleteAttachment
        } else if ctrl && c == 'a' {
            EditorCommand::LineStart
        } else if ctrl && c == 'e' {
            EditorCommand::LineEnd
        } else if ctrl && c == 'k' {
            EditorCommand::KillToLineEnd
        } else {
            EditorCommand::InsertChar(c)
        },
        _ => EditorCommand::Nothing,
    }
}

/// The command a key runs in the expanded editor: Ctrl+S keeps the text,
/// Escape cancels, Ctrl+Z undoes (with Shift, redoes), Ctrl+A selects all,
/// Ctrl+C and Ctrl+X copy and cut, the arrows move (with Alt by words,
/// with Shift extending the selection).
pub open spec fn expanded_command_for(key: Key, ctrl: bool, alt: bool, shift: bool) -> EditorCommand {
    match key {
        Key::Esc => EditorCommand::CancelModal,
        Key::Enter => EditorCommand::InsertNewline,
        Key::Left => if alt && shift {
            EditorCommand::WordLeftExtendSelection
        } else if alt {
            EditorCommand::WordLeft
        } else if shift {
            EditorCommand::LeftExtendSelection
        } else {
            EditorCommand::Left
        },
        Key::Right => if alt && shift {
            EditorCommand::WordRightExtendSelection
        } else if alt {
            EditorCommand::WordRight
        } else if shift {
            EditorCommand::RightExtendSelection
        } else {
            EditorCommand::Right
        },
        Key::Up => EditorCommand::Up,
        Key::Down => EditorCommand::Down,
        Key::Backspace => EditorCommand::DeleteCharBefore,
        Key::Delete => EditorCommand::DeleteCharAt,
        Key::Char(c) => if ctrl && c == 's' {
            EditorCommand::SaveModal
        } else if ctrl && c == 'z' {
            if shift {
                EditorCommand::Redo
            } else {
                EditorCommand::Undo
            }
        } else if ctrl && c == 'a' {
            EditorCommand::SelectAll
        } else if ctrl && c == 'c' {
            EditorCommand::CopySelection
        } else if ctrl && c == 'x' {
            EditorCommand::CutSelection
        } else {
            EditorCommand::InsertChar(c)
        },
        _ => EditorCommand::Nothing,
    }
}

/// Handles a key in the expanded editor.
pub fn handle_expanded_editor_key(key: Key, ctrl: bool, alt: bool, shift: bool) -> (r: EditorCommand)
    ensures
        r == expanded_command_for(key, ctrl, alt, shift),
{
    match key {
        Key::Esc => EditorCommand::CancelModal,
        Key::Enter => EditorCommand::InsertNewline,
        Key::Left => if alt && shift {
            EditorCommand::WordLeftExtendSelection
        } else if alt {
            EditorCommand::WordLeft
        } else if shift {
            EditorCommand::LeftExtendSelection
        } else {
            EditorCommand::Left
        },
        Key::Right => if alt && shift {
            EditorCommand::WordRightExtendSelection
        } else if alt {
            EditorCommand::WordRight
        } else if shift {
            EditorCommand::RightExtendSelection
        } else {
            EditorCommand::Right
        },
        Key::Up => EditorCommand::Up,
        Key::Down => EditorCommand::Down,
        Key::Backspace => EditorCommand::DeleteCharBefore,
        Key::Delete => EditorCommand::DeleteCharAt,
        Key::Char(c) => if ctrl && c == 's' {
            EditorCommand::SaveModal
        } else if ctrl && c == 'z' {
            if shift {
                EditorCommand::Redo
            } else {
                EditorCommand::Undo
            }
        } else if ctrl && c == 'a' {
            EditorCommand::SelectAll
        } else if ctrl && c == 'c' {
            EditorCommand::CopySelection
        } else if ctrl && c == 'x' {
            EditorCommand::CutSelection
        } else {
            EditorCommand::InsertChar(c)
        },
        _ => EditorCommand::Nothing,
    }
}

/// Deleting and moving in the chat editor, whatever the text, the
/// history and the attachments, as long as no attachment has focus and vim
/// is not in normal mode: Backspace deletes the character before the
/// cursor and Delete the one at it (with Alt, Backspace deletes a word),
/// so the two never do the same; plain Left and Right move the cursor to
/// their side, Home and End to the line's ends; Enter sends and
/// Shift+Enter starts a new line; Escape leaves editing (in vim's insert
/// mode it returns to vim's normal mode).
pub proof fn lemma_editor_keys_edit_around_cursor(
    st: EditorKeyState,
    vim: Option<VimMode>,
    text: Seq<char>,
    ctrl: bool,
    alt: bool,
    shift: bool,
)
    requires
        st.focused_attachment is None,
        vim != Some(VimMode::Normal),
    ensures
        chat_editor_command(st, vim, text, Key::Backspace, ctrl, false, shift)
            == EditorCommand::DeleteCharBefore,
        chat_editor_command(st, vim, text, Key::Delete, ctrl, alt, shift) == EditorCommand::DeleteCharAt,
        chat_editor_command(st, vim, text, Key::Backspace, ctrl, true, shift)
            == EditorCommand::DeleteWordBackward,
        chat_editor_command(st, vim, text, Key::Backspace, ctrl, alt, shift) != chat_editor_command(
            st,
            vim,
            text,
            Key::Delete,
            ctrl,
            alt,
            shift,
        ),
        chat_editor_command(st, vim, text, Key::Left, ctrl, false, false) == EditorCommand::Left,
        chat_editor_command(st, vim, text, Key::Right, ctrl, false, false) == EditorCommand::Right,
        chat_editor_command(st, vim, text, Key::Home, ctrl, alt, shift) == EditorCommand::LineStart,
        chat_editor_command(st, vim, text, Key::End, ctrl, alt, shift) == EditorCommand::LineEnd,
        chat_editor_command(st, vim, text, Key::Enter, ctrl, false, false) == EditorCommand::Send,
        chat_editor_command(st, vim, text, Key::Enter, ctrl, alt, true) == EditorCommand::InsertNewline,
        chat_editor_command(st, vim, text, Key::Esc, ctrl, alt, shift) == (if vim is None {
            EditorCommand::ExitEditing
        } else {
            EditorCommand::VimNormalMode
        }),
{
}

/// Typing in the chat editor (outside vim's normal mode, no attachment
/// focused, without Ctrl) inserts the character typed, except that `@` and
/// `/` typed into an empty input with no attachments open the agent and the
/// nudge selector instead. With Ctrl, `z` undoes and Shift+Ctrl+`z` redoes.
/// In vim's normal mode `h` and `l` move left and right, `x` deletes the
/// character at the cursor and `X` the one before it, and `i` enters insert
/// mode.
pub proof fn lemma_typing_inserts_what_is_typed(st: EditorKeyState, vim: Option<VimMode>, text: Seq<char>, c: char, alt: bool, shift: bool)
    requires
        st.focused_attachment is None,
    ensures
        vim != Some(VimMode::Normal) && c != '@' && c != '/' ==> chat_editor_command(
            st,
            vim,
            text,
            Key::Char(c),
            false,
            alt,
            shift,
        ) == EditorCommand::InsertChar(c),
        vim != Some(VimMode::Normal) && (text.len() > 0 || st.has_attachments) ==> chat_editor_command(
            st,
            vim,
            text,
            Key::Char(c),
            false,
            alt,
            shift,
        ) == EditorCommand::InsertChar(c),
        vim != Some(VimMode::Normal) && text.len() == 0 && !st.has_attachments ==> {
            &&& chat_editor_command(st, vim, text, Key::Char('@'), false, alt, shift) == EditorCommand::Trigger(
                PrefixTrigger::AgentSelector,
            )
            &&& chat_editor_command(st, vim, text, Key::Char('/'), false, alt, shift) == EditorCommand::Trigger(
                PrefixTrigger::NudgeSelector,
            )
        },
        vim != Some(VimMode::Normal) ==> chat_editor_command(st, vim, text, Key::Char('z'), true, alt, false)
            == EditorCommand::Undo && chat_editor_command(st, vim, text, Key::Char('z'), true, alt, true)
            == EditorCommand::Redo,
        chat_editor_command(st, Some(VimMode::Normal), text, Key::Char('h'), false, alt, shift)
            == EditorCommand::Left,
        chat_editor_command(st, Some(VimMode::Normal), text, Key::Char('l'), false, alt, shift)
            == EditorCommand::Right,
        chat_editor_command(st, Some(VimMode::Normal), text, Key::Char('x'), false, alt, shift)
            == EditorCommand::DeleteCharAt,
        chat_editor_command(st, Some(VimMode::Normal), text, Key::Char('X'), false, alt, shift)
            == EditorCommand::DeleteCharBefore,
        chat_editor_command(st, Some(VimMode::Normal), text, Key::Char('i'), false, alt, shift)
            == EditorCommand::VimInsert,
{
}

} // verus!
