use tenex_tui::event_loop::{
    cleanup_due, image_marker, loop_event_step, loop_rate, needs_tts_focus, paste_keys,
    playback_failed, start_playing, LoopAction, LoopContext, LoopEvent, TtsItem, TtsQueue,
    TtsStatus,
};
use tenex_tui::keys::Key;
use tenex_tui::view_state::{AppView, InputMode};

fn ctx(view: AppView, input_mode: InputMode) -> LoopContext {
    LoopContext { view, input_mode, showing_attachment_modal: false, logged_in: true }
}

#[test]
fn ctrl_c_twice_quits() {
    let c = ctx(AppView::Home, InputMode::Normal);
    let press = LoopEvent::KeyPress { key: Key::Char('c'), ctrl: true };
    let mut pending = false;
    assert_eq!(loop_event_step(&mut pending, &c, press), LoopAction::Nothing);
    assert!(pending);
    assert_eq!(loop_event_step(&mut pending, &c, press), LoopAction::Quit);
}

#[test]
fn other_key_disarms_quit_guard() {
    let c = ctx(AppView::Home, InputMode::Normal);
    let mut pending = true;
    let k = LoopEvent::KeyPress { key: Key::Char('x'), ctrl: false };
    assert_eq!(loop_event_step(&mut pending, &c, k), LoopAction::RouteKey);
    assert!(!pending);
    pending = true;
    assert_eq!(loop_event_step(&mut pending, &c, LoopEvent::ScrollUp), LoopAction::Nothing);
    assert!(pending);
}

#[test]
fn ctrl_v_and_paste_routing() {
    let mut pending = false;
    let chat = ctx(AppView::Chat, InputMode::Editing);
    let v = LoopEvent::KeyPress { key: Key::Char('v'), ctrl: true };
    assert_eq!(loop_event_step(&mut pending, &chat, v), LoopAction::PasteClipboardIntoChat);
    let home = ctx(AppView::Home, InputMode::Normal);
    assert_eq!(loop_event_step(&mut pending, &home, v), LoopAction::ReplayClipboardAsKeys);
    assert_eq!(loop_event_step(&mut pending, &chat, LoopEvent::Paste), LoopAction::PasteImageFileOrText);
    let mut attach = chat;
    attach.showing_attachment_modal = true;
    assert_eq!(loop_event_step(&mut pending, &attach, LoopEvent::Paste), LoopAction::PasteIntoAttachment);
    let mut guest = chat;
    guest.logged_in = false;
    assert_eq!(loop_event_step(&mut pending, &guest, LoopEvent::Paste), LoopAction::PasteIntoEditor);
    assert_eq!(loop_event_step(&mut pending, &guest, v), LoopAction::Nothing);
    assert_eq!(loop_event_step(&mut pending, &home, LoopEvent::Paste), LoopAction::ReplayPasteAsKeys);
    let chat_normal = ctx(AppView::Chat, InputMode::Normal);
    assert_eq!(loop_event_step(&mut pending, &chat_normal, LoopEvent::ScrollDown), LoopAction::ScrollDown(3));
    assert_eq!(loop_event_step(&mut pending, &chat_normal, LoopEvent::ScrollUp), LoopAction::ScrollUp(3));
}

#[test]
fn pasted_line_breaks_are_not_replayed() {
    assert_eq!(paste_keys("ab\r\ncé\n"), vec!['a', 'b', 'c', 'é']);
    assert_eq!(paste_keys(""), Vec::<char>::new());
}

#[test]
fn image_marker_names_the_attachment() {
    assert_eq!(image_marker(1), "[Image #1] ");
    assert_eq!(image_marker(42), "[Image #42] ");
}

#[test]
fn cleanup_every_tenth_confirmation_and_rate() {
    assert!(cleanup_due(10));
    assert!(cleanup_due(0));
    assert!(!cleanup_due(11));
    assert_eq!(loop_rate(1000, 4), 250);
    assert_eq!(loop_rate(1000, 0), 1000);
}

fn item(name: &str, status: TtsStatus) -> TtsItem {
    TtsItem { name: name.to_string(), conversation_id: None, message_id: None, status }
}

#[test]
fn new_audio_replaces_the_playing_item() {
    let mut q = TtsQueue {
        items: vec![item("a", TtsStatus::Completed), item("b", TtsStatus::Playing)],
        playing_index: Some(1),
        selected_index: 0,
    };
    start_playing(&mut q, "c".to_string(), "t1".to_string(), "m1".to_string());
    assert_eq!(q.items.len(), 3);
    assert_eq!(q.items[1].status, TtsStatus::Completed);
    assert_eq!(q.items[2].status, TtsStatus::Playing);
    assert_eq!(q.items[2].name, "c");
    assert_eq!(q.items[2].conversation_id.as_deref(), Some("t1"));
    assert_eq!(q.playing_index, Some(2));
    assert_eq!(q.selected_index, 2);
    playback_failed(&mut q);
    assert_eq!(q.items[2].status, TtsStatus::Failed);
    assert_eq!(q.playing_index, None);
    assert_eq!(q.selected_index, 2);
}

#[test]
fn tts_tab_focus() {
    assert!(!needs_tts_focus(AppView::Chat, 2, 2));
    assert!(needs_tts_focus(AppView::Chat, 1, 2));
    assert!(needs_tts_focus(AppView::Home, 2, 2));
}
