use tenex_tui::ask::{handle_ask_modal_key, submits_after, AskAction, AskInputMode, AskView};
use tenex_tui::keys::Key;

fn view(mode: AskInputMode, custom_selected: bool, multi_select: bool) -> AskView {
    AskView { mode, custom_selected, multi_select }
}

#[test]
fn option_rows() {
    let v = view(AskInputMode::Selection, false, true);
    assert_eq!(handle_ask_modal_key(&v, "", Key::Char('k'), false), AskAction::PrevOption);
    assert_eq!(handle_ask_modal_key(&v, "", Key::Down, false), AskAction::NextOption);
    assert_eq!(handle_ask_modal_key(&v, "", Key::Char(' '), false), AskAction::ToggleMultiSelect);
    assert_eq!(handle_ask_modal_key(&v, "", Key::Enter, false), AskAction::SelectCurrent);
    assert_eq!(handle_ask_modal_key(&v, "", Key::Right, false), AskAction::SkipQuestion);
    assert_eq!(handle_ask_modal_key(&v, "", Key::Esc, false), AskAction::Close);
    let single = view(AskInputMode::Selection, false, false);
    assert_eq!(handle_ask_modal_key(&single, "", Key::Char(' '), false), AskAction::Nothing);
}

#[test]
fn custom_row() {
    let v = view(AskInputMode::Selection, true, false);
    assert_eq!(handle_ask_modal_key(&v, "", Key::Up, false), AskAction::PrevOption);
    assert_eq!(handle_ask_modal_key(&v, "x", Key::Up, false), AskAction::Nothing);
    assert_eq!(handle_ask_modal_key(&v, "x", Key::Char('k'), false), AskAction::InsertChar('k'));
    assert_eq!(handle_ask_modal_key(&v, "x", Key::Left, false), AskAction::CursorLeft);
    assert_eq!(handle_ask_modal_key(&v, "", Key::Left, false), AskAction::PrevQuestion);
    assert_eq!(handle_ask_modal_key(&v, "  ", Key::Enter, false), AskAction::Nothing);
    assert_eq!(handle_ask_modal_key(&v, " ok ", Key::Enter, false), AskAction::SubmitCustom);
    assert_eq!(handle_ask_modal_key(&v, "x", Key::Esc, false), AskAction::ClearCustom);
    let c = view(AskInputMode::CustomInput, true, false);
    assert_eq!(handle_ask_modal_key(&c, "x", Key::Enter, true), AskAction::InsertChar('\n'));
    assert_eq!(handle_ask_modal_key(&c, "x", Key::Enter, false), AskAction::SubmitCustom);
    assert_eq!(handle_ask_modal_key(&c, "x", Key::Esc, false), AskAction::CancelCustom);
    assert!(submits_after(AskAction::SubmitCustom, true));
    assert!(!submits_after(AskAction::SubmitCustom, false));
    assert!(!submits_after(AskAction::PrevOption, true));
}
