//! The ask modal, where an agent's questions are answered: choosing
//! options, typing a custom answer, and moving between questions.

use vstd::prelude::*;
use vstd::string::*;
use crate::keys::Key;
use crate::text::{trim, trim_seq};

verus! {

/// Whether the modal chooses among options or edits a custom answer.
#[derive(Debug, Clone, Copy, PartialEq, Eq, Structural)]
pub enum AskInputMode {
    Selection,
    CustomInput,
}

/// What the ask modal's key bindings read of its state.
#[derive(Debug, Clone, Copy)]
pub struct AskView {
    pub mode: AskInputMode,
    /// The "custom answer" row is selected.
    pub custom_selected: bool,
    /// The question allows several options.
    pub multi_select: bool,
}

/// What a key in the ask modal does.
#[derive(Debug, Clone, Copy, PartialEq, Eq, Structural)]
pub enum AskAction {
    PrevOption,
    NextOption,
    /// Skip the question (then submit the answers if all are given).
    SkipQuestion,
    PrevQuestion,
    CursorLeft,
    CursorRight,
    ToggleMultiSelect,
    /// Answer with the current option (then submit if complete).
    SelectCurrent,
    /// Answer with the custom text (then submit if complete).
    SubmitCustom,
    /// Empty the custom text and put its cursor at the start.
    ClearCustom,
    /// Leave the custom answer editor.
    CancelCustom,
    Close,
    DeleteChar,
    InsertChar(char),
    Nothing,
}

/// Whether an action may complete the answers, after which they are
/// submitted when all questions are answered.
pub open spec fn may_complete(a: AskAction) -> bool {
    a == AskAction::SkipQuestion || a == AskAction::SelectCurrent || a == AskAction::SubmitCustom
}

/// What a key does in the ask modal; `custom` is the custom answer's text.
/// On the custom row, typing edits the answer, and Left and Right move its
/// cursor unless it is empty, when they change question.
pub open spec fn ask_action(v: AskView, custom: Seq<char>, key: Key, shift: bool) -> AskAction {
    let c_sel = v.custom_selected;
    let empty = custom.len() == 0;
    match v.mode {
        AskInputMode::Selection => match key {
            Key::Up => if !c_sel || empty {
                AskAction::PrevOption
            } else {
                AskAction::Nothing
            },
            Key::Down => if !c_sel {
                AskAction::NextOption
            } else {
                AskAction::Nothing
            },
            Key::Right => if !c_sel || empty {
                AskAction::SkipQuestion
            } else {
                AskAction::CursorRight
            },
            Key::Left => if !c_sel || empty {
                AskAction::PrevQuestion
            } else {
                AskAction::CursorLeft
            },
            Key::Enter => if c_sel && trim_seq(custom).len() > 0 {
                AskAction::SubmitCustom
            } else if !c_sel {
                AskAction::SelectCurrent
            } else {
                AskAction::Nothing
            },
            Key::Esc => if c_sel && !empty {
                AskAction::ClearCustom
            } else {
                AskAction::Close
            },
            Key::Backspace => if c_sel {
                AskAction::DeleteChar
            } else {
                AskAction::Nothing
            },
            Key::Char(ch) => if !c_sel && ch == 'k' {
                AskAction::PrevOption
            } else if !c_sel && ch == 'j' {
                AskAction::NextOption
            } else if ch == ' ' && v.multi_select && !c_sel {
                AskAction::ToggleMultiSelect
            } else if c_sel {
                AskAction::InsertChar(ch)
            } else {
                AskAction::Nothing
            },
            _ => AskAction::Nothing,
        },
        AskInputMode::CustomInput => match key {
            Key::Enter => if shift {
                AskAction::InsertChar('\n')
            } else {
                AskAction::SubmitCustom
            },
            Key::Esc => AskAction::CancelCustom,
            Key::Left => AskAction::CursorLeft,
            Key::Right => AskAction::CursorRight,
            Key::Backspace => AskAction::DeleteChar,
            Key::Char(ch) => AskAction::InsertChar(ch),
            _ => AskAction::Nothing,
        },
    }
}

/// Handles a key in the ask modal.
pub fn handle_ask_modal_key(v: &AskView, custom: &str, key: Key, shift: bool) -> (r: AskAction)
    ensures
        r == ask_action(*v, custom@, key, shift),
{
    let c_sel = v.custom_selected;
    let empty = custom.unicode_len() == 0;
    match v.mode {
        AskInputMode::Selection => match key {
            Key::Up => if !c_sel || empty {
                AskAction::PrevOption
            } else {
                AskAction::Nothing
            },
            Key::Down => if !c_sel {
                AskAction::NextOption
            } else {
                AskAction::Nothing
            },
            Key::Right => if !c_sel || empty {
                AskAction::SkipQuestion
            } else {
                AskAction::CursorRight
            },
            Key::Left => if !c_sel || empty {
                AskAction::PrevQuestion
            } else {
                AskAction::CursorLeft
            },
            Key::Enter => if c_sel && trim(custom).unicode_len() > 0 {
                AskAction::SubmitCustom
            } else if !c_sel {
                AskAction::SelectCurrent
            } else {
                AskAction::Nothing
            },
            Key::Esc => if c_sel && !empty {
                AskAction::ClearCustom
            } else {
                AskAction::Close
            },
            Key::Backspace => if c_sel {
                AskAction::DeleteChar
            } else {
                AskAction::Nothing
            },
            Key::Char(ch) => if !c_sel && ch == 'k' {
                AskAction::PrevOption
            } else if !c_sel && ch == 'j' {
                AskAction::NextOption
            } else if ch == ' ' && v.multi_select && !c_sel {
                AskAction::ToggleMultiSelect
            } else if c_sel {
                AskAction::InsertChar(ch)
            } else {
                AskAction::Nothing
            },
            _ => AskAction::Nothing,
        },
        AskInputMode::CustomInput => match key {
            Key::Enter => if shift {
                AskAction::InsertChar('\n')
            } else {
                AskAction::SubmitCustom
            },
            Key::Esc => AskAction::CancelCustom,
            Key::Left => AskAction::CursorLeft,
            Key::Right => AskAction::CursorRight,
            Key::Backspace => AskAction::DeleteChar,
            Key::Char(ch) => AskAction::InsertChar(ch),
            _ => AskAction::Nothing,
        },
    }
}

/// Whether the answers are submitted after `action`, given whether all
/// questions are then answered.
pub fn submits_after(action: AskAction, complete: bool) -> (r: bool)
    ensures
        r == (may_complete(action) && complete),
{
    match action {
        AskAction::SkipQuestion | AskAction::SelectCurrent | AskAction::SubmitCustom => complete,
        _ => false,
    }
}

} // verus!
