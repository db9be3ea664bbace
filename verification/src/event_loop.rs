//! The decisions of the main event loop: how a terminal event is routed,
//! the pending-quit guard of Ctrl+C, pasted text replayed as keys, the
//! attachment marker of an uploaded image, and the text-to-speech queue that
//! a generated audio notification joins.

use vstd::prelude::*;
use vstd::string::*;
use crate::keys::Key;
use crate::seq_facts::lemma_filter_push;
use crate::text::{decimal, push_decimal};
use crate::view_state::{AppView, InputMode};

verus! {

/// A terminal event, as far as the loop tells them apart.
#[derive(Debug, Clone, Copy, PartialEq, Eq, Structural)]
pub enum LoopEvent {
    /// A key press; `ctrl` when Control was held.
    KeyPress { key: Key, ctrl: bool },
    /// The mouse wheel turned up.
    ScrollUp,
    /// The mouse wheel turned down.
    ScrollDown,
    /// Text was pasted into the terminal.
    Paste,
    /// Any other event.
    Other,
}

/// The application state that routing reads.
#[derive(Debug, Clone, Copy)]
pub struct LoopContext {
    pub view: AppView,
    pub input_mode: InputMode,
    /// The attachment editor is open over the chat editor.
    pub showing_attachment_modal: bool,
    /// A user is logged in (keys are loaded).
    pub logged_in: bool,
}

/// What the loop does with an event.
#[derive(Debug, Clone, Copy, PartialEq, Eq, Structural)]
pub enum LoopAction {
    /// Quit the application.
    Quit,
    /// Paste the clipboard into the chat (image first, then text).
    PasteClipboardIntoChat,
    /// Read the clipboard text and replay it as key presses.
    ReplayClipboardAsKeys,
    /// Hand the key to the key handler.
    RouteKey,
    /// Scroll the chat up by this many lines.
    ScrollUp(usize),
    /// Scroll the chat down by this many lines.
    ScrollDown(usize),
    /// Paste the text into the attachment editor.
    PasteIntoAttachment,
    /// Attach the pasted text as an image file if it names one, else paste
    /// it into the chat editor and save the draft.
    PasteImageFileOrText,
    /// Paste the text into the chat editor and save the draft.
    PasteIntoEditor,
    /// Replay the pasted text as key presses.
    ReplayPasteAsKeys,
    /// Nothing to do.
    Nothing,
}

/// The chat editor has the keyboard.
pub open spec fn chat_editing(ctx: LoopContext) -> bool {
    ctx.view == AppView::Chat && ctx.input_mode == InputMode::Editing
}

/// What the loop does with `event` while the quit guard is `pending_quit`.
pub open spec fn loop_action(pending_quit: bool, ctx: LoopContext, event: LoopEvent) -> LoopAction {
    match event {
        LoopEvent::KeyPress { key, ctrl } => if ctrl && key == Key::Char('c') {
            if pending_quit {
                LoopAction::Quit
            } else {
                LoopAction::Nothing
            }
        } else if ctrl && key == Key::Char('v') {
            if chat_editing(ctx) {
                if ctx.logged_in {
                    LoopAction::PasteClipboardIntoChat
                } else {
                    LoopAction::Nothing
                }
            } else {
                LoopAction::ReplayClipboardAsKeys
            }
        } else {
            LoopAction::RouteKey
        },
        LoopEvent::ScrollUp => if ctx.view == AppView::Chat {
            LoopAction::ScrollUp(3)
        } else {
            LoopAction::Nothing
        },
        LoopEvent::ScrollDown => if ctx.view == AppView::Chat {
            LoopAction::ScrollDown(3)
        } else {
            LoopAction::Nothing
        },
        LoopEvent::Paste => if chat_editing(ctx) {
            if ctx.showing_attachment_modal {
                LoopAction::PasteIntoAttachment
            } else if ctx.logged_in {
                LoopAction::PasteImageFileOrText
            } else {
                LoopAction::PasteIntoEditor
            }
        } else {
            LoopAction::ReplayPasteAsKeys
        },
        LoopEvent::Other => LoopAction::Nothing,
    }
}

/// The quit guard after `event`: the first Ctrl+C arms it, any other key
/// press disarms it, other events leave it.
pub open spec fn next_pending_quit(pending_quit: bool, event: LoopEvent) -> bool {
    match event {
        LoopEvent::KeyPress { key, ctrl } => if ctrl && key == Key::Char('c') {
            true
        } else {
            false
        },
        _ => pending_quit,
    }
}

/// Routes one terminal event and updates the Ctrl+C quit guard: a first
/// Ctrl+C only arms the guard, a second one quits.
pub fn loop_event_step(pending_quit: &mut bool, ctx: &LoopContext, event: LoopEvent) -> (r:
    LoopAction)
    ensures
        r == loop_action(*old(pending_quit), *ctx, event),
        *final(pending_quit) == next_pending_quit(*old(pending_quit), event),
{
    let chat_editing = ctx.view == AppView::Chat && ctx.input_mode == InputMode::Editing;
    match event {
        LoopEvent::KeyPress { key, ctrl } => {
            if ctrl && key == Key::Char('c') {
                if *pending_quit {
                    LoopAction::Quit
                } else {
                    *pending_quit = true;
                    LoopAction::Nothing
                }
            } else if ctrl && key == Key::Char('v') {
                *pending_quit = false;
                if chat_editing {
                    if ctx.logged_in {
                        LoopAction::PasteClipboardIntoChat
                    } else {
                        LoopAction::Nothing
                    }
                } else {
                    LoopAction::ReplayClipboardAsKeys
                }
            } else {
                *pending_quit = false;
                LoopAction::RouteKey
            }
        },
        LoopEvent::ScrollUp => if ctx.view == AppView::Chat {
            LoopAction::ScrollUp(3)
        } else {
            LoopAction::Nothing
        },
        LoopEvent::ScrollDown => if ctx.view == AppView::Chat {
            LoopAction::ScrollDown(3)
        } else {
            LoopAction::Nothing
        },
        LoopEvent::Paste => if chat_editing {
            if ctx.showing_attachment_modal {
                LoopAction::PasteIntoAttachment
            } else if ctx.logged_in {
                LoopAction::PasteImageFileOrText
            } else {
                LoopAction::PasteIntoEditor
            }
        } else {
            LoopAction::ReplayPasteAsKeys
        },
        LoopEvent::Other => LoopAction::Nothing,
    }
}

/// Two Ctrl+C presses in a row quit, whatever the guard was before; one
/// quits only when the guard was armed.
pub proof fn lemma_second_ctrl_c_quits(pending_quit: bool, ctx: LoopContext)
    ensures
        ({
            let press = LoopEvent::KeyPress { key: Key::Char('c'), ctrl: true };
            &&& loop_action(next_pending_quit(pending_quit, press), ctx, press) == LoopAction::Quit
            &&& (loop_action(pending_quit, ctx, press) == LoopAction::Quit <==> pending_quit)
        }),
{
}

/// A line break is not replayed as a key press.
pub open spec fn replayed(c: char) -> bool {
    c != '\n' && c != '\r'
}

/// The characters of pasted text that are replayed as key presses, in order:
/// all but carriage returns and line feeds.
pub fn paste_keys(text: &str) -> (r: Vec<char>)
    ensures
        r@ == text@.filter(|c: char| replayed(c)),
{
    let n = text.unicode_len();
    let mut out: Vec<char> = Vec::new();
    let mut i: usize = 0;
    while i < n
        invariant
            n == text@.len(),
            i <= n,
            out@ == text@.subrange(0, i as int).filter(|c: char| replayed(c)),
        decreases n - i,
    {
        let c = text.get_char(i);
        proof {
            let f = |c: char| replayed(c);
            lemma_filter_push(text@.subrange(0, i as int), f, c);
            assert(text@.subrange(0, i as int).push(c) =~= text@.subrange(0, i as int + 1));
        }
        if c != '\n' && c != '\r' {
            out.push(c);
        }
        i = i + 1;
    }
    assert(text@.subrange(0, n as int) =~= text@);
    out
}

/// The marker inserted into the chat for the image attachment `id`.
pub open spec fn image_marker_text(id: nat) -> Seq<char> {
    "[Image #"@ + decimal(id) + "] "@
}

/// The marker inserted into the chat for the uploaded image `id`.
pub fn image_marker(id: usize) -> (r: String)
    ensures
        r@ == image_marker_text(id as nat),
{
    let mut r = String::from_str("[Image #");
    push_decimal(&mut r, id);
    r.append("] ");
    r
}

/// Old confirmed publish records are cleaned up after every tenth
/// confirmation.
pub fn cleanup_due(confirmations: u64) -> (r: bool)
    ensures
        r == (confirmations % 10 == 0),
{
    confirmations % 10 == 0
}

/// The loop's rate over a run of `elapsed` seconds: loops per second, or
/// the loop count itself before a second has passed.
pub fn loop_rate(loops: u64, elapsed: u64) -> (r: u64)
    ensures
        r == (if elapsed > 0 {
            loops / elapsed
        } else {
            loops
        }),
{
    if elapsed > 0 {
        loops / elapsed
    } else {
        loops
    }
}

/// Where an item of the text-to-speech queue stands.
#[derive(Debug, Clone, Copy, PartialEq, Eq, Structural)]
pub enum TtsStatus {
    Playing,
    Completed,
    Failed,
}

/// An item of the text-to-speech queue.
#[derive(Debug, Clone)]
pub struct TtsItem {
    /// The audio file's name without its extension.
    pub name: String,
    /// The conversation the notification came from.
    pub conversation_id: Option<String>,
    /// The message the notification came from.
    pub message_id: Option<String>,
    pub status: TtsStatus,
}

/// The text-to-speech queue of the TTS tab.
#[derive(Debug, Clone)]
pub struct TtsQueue {
    pub items: Vec<TtsItem>,
    /// The item being played.
    pub playing_index: Option<usize>,
    /// The item under the cursor.
    pub selected_index: usize,
}

/// The statuses of a queue's items, in order.
pub open spec fn statuses(items: Seq<TtsItem>) -> Seq<TtsStatus> {
    items.map_values(|it: TtsItem| it.status)
}

/// The statuses after the item at `playing`, if it exists, is set to `to`.
pub open spec fn statuses_with(items: Seq<TtsItem>, playing: Option<usize>, to: TtsStatus) -> Seq<
    TtsStatus,
> {
    match playing {
        Some(p) => if p < items.len() {
            statuses(items).update(p as int, to)
        } else {
            statuses(items)
        },
        None => statuses(items),
    }
}

/// Only the item at the playing index, if any, is marked playing.
pub open spec fn single_player(queue: TtsQueue) -> bool {
    forall|k: int|
        0 <= k < queue.items@.len() && (#[trigger] queue.items@[k]).status == TtsStatus::Playing
            ==> queue.playing_index == Some(k as usize)
}

/// Queues a generated notification and plays it: the item that was playing
/// is marked completed, the new item is appended as playing, and both the
/// playing index and the cursor move to it.
pub fn start_playing(queue: &mut TtsQueue, name: String, conversation_id: String, message_id: String)
    requires
        old(queue).items.len() < usize::MAX,
    ensures
        final(queue).items.len() == old(queue).items.len() + 1,
        statuses(final(queue).items@) == statuses_with(
            old(queue).items@,
            old(queue).playing_index,
            TtsStatus::Completed,
        ).push(TtsStatus::Playing),
        forall|k: int|
            0 <= k < old(queue).items.len() ==> (#[trigger] final(queue).items@[k]).name@
                == old(queue).items@[k].name@,
        final(queue).items@.last().name@ == name@,
        final(queue).items@.last().conversation_id == Some(conversation_id),
        final(queue).items@.last().message_id == Some(message_id),
        final(queue).playing_index == Some(old(queue).items.len()),
        final(queue).selected_index == old(queue).items.len(),
        single_player(*old(queue)) ==> single_player(*final(queue)),
{
    let ghost before = queue.items@;
    match queue.playing_index {
        Some(p) => {
            if p < queue.items.len() {
                let mut item = queue.items.remove(p);
                item.status = TtsStatus::Completed;
                queue.items.insert(p, item);
                proof {
                    assert(queue.items@ =~= before.update(
                        p as int,
                        TtsItem { status: TtsStatus::Completed, ..before[p as int] },
                    ));
                }
            }
        },
        None => {},
    }
    queue.items.push(TtsItem {
        name,
        conversation_id: Some(conversation_id),
        message_id: Some(message_id),
        status: TtsStatus::Playing,
    });
    let idx = queue.items.len() - 1;
    queue.playing_index = Some(idx);
    queue.selected_index = idx;
    proof {
        assert forall|k: int| 0 <= k < before.len() implies (#[trigger] queue.items@[k]).name@
            == before[k].name@ by {}
        assert(statuses(queue.items@) =~= statuses_with(
            before,
            old(queue).playing_index,
            TtsStatus::Completed,
        ).push(TtsStatus::Playing));
        if single_player(*old(queue)) {
            assert forall|k: int|
                0 <= k < queue.items@.len() && (#[trigger] queue.items@[k]).status
                    == TtsStatus::Playing implies queue.playing_index == Some(k as usize) by {
                if k < before.len() {
                    assert(statuses(queue.items@)[k] == TtsStatus::Playing);
                    assert(before[k].status == TtsStatus::Playing);
                }
            }
        }
    }
}

/// When the audio cannot be played: the playing item, if any, is marked
/// failed and nothing plays.
pub fn playback_failed(queue: &mut TtsQueue)
    ensures
        final(queue).items.len() == old(queue).items.len(),
        statuses(final(queue).items@) == statuses_with(
            old(queue).items@,
            old(queue).playing_index,
            TtsStatus::Failed,
        ),
        forall|k: int|
            0 <= k < old(queue).items.len() ==> (#[trigger] final(queue).items@[k]).name@
                == old(queue).items@[k].name@,
        final(queue).playing_index == None::<usize>,
        final(queue).selected_index == old(queue).selected_index,
        single_player(*old(queue)) ==> single_player(*final(queue)),
{
    let ghost before = queue.items@;
    match queue.playing_index {
        Some(p) => {
            if p < queue.items.len() {
                let mut item = queue.items.remove(p);
                item.status = TtsStatus::Failed;
                queue.items.insert(p, item);
                proof {
                    assert(queue.items@ =~= before.update(
                        p as int,
                        TtsItem { status: TtsStatus::Failed, ..before[p as int] },
                    ));
                }
            }
        },
        None => {},
    }
    queue.playing_index = None;
    proof {
        assert forall|k: int| 0 <= k < before.len() implies (#[trigger] queue.items@[k]).name@
            == before[k].name@ by {}
        assert(statuses(queue.items@) =~= statuses_with(
            before,
            old(queue).playing_index,
            TtsStatus::Failed,
        ));
        if single_player(*old(queue)) {
            assert forall|k: int|
                0 <= k < queue.items@.len() && (#[trigger] queue.items@[k]).status
                    == TtsStatus::Playing implies queue.playing_index == Some(k as usize) by {
                assert(statuses(queue.items@)[k] == TtsStatus::Playing);
                assert(before[k].status == TtsStatus::Playing);
            }
        }
    }
}

/// The TTS tab is brought to the front unless the chat already shows it.
pub fn needs_tts_focus(view: AppView, active_tab: usize, tts_tab: usize) -> (r: bool)
    ensures
        r == (view != AppView::Chat || active_tab != tts_tab),
{
    view != AppView::Chat || active_tab != tts_tab
}

} // verus!
