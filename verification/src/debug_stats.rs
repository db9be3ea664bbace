//! The debug statistics modal: tab and pane navigation, scrolling, and the
//! event-id query field, which holds at most 64 lower-case hex digits.

use vstd::prelude::*;
use vstd::string::*;
use crate::fields::{pop_last, without_last};
use crate::keys::Key;
use crate::seq_facts::lemma_filter_push;
use crate::text::push_char;

verus! {

/// A tab of the debug statistics modal.
#[derive(Debug, Clone, Copy, PartialEq, Eq, Structural)]
pub enum DebugStatsTab {
    Events,
    Subscriptions,
    Negentropy,
    ETagQuery,
    DataStore,
}

/// The longest event id the query field takes, in hex digits.
pub const E_TAG_QUERY_MAX: usize = 64;

/// The state of the debug statistics modal that keys change.
#[derive(Debug, Clone)]
pub struct DebugStatsState {
    pub active_tab: DebugStatsTab,
    /// The event id typed into the query tab.
    pub e_tag_query_input: String,
    /// How many events the last query found.
    pub e_tag_result_count: usize,
    pub e_tag_selected_index: usize,
    pub e_tag_input_focused: bool,
    /// The project filter sidebar of the subscriptions tab has focus.
    pub sub_sidebar_focused: bool,
    pub sub_selected_filter_index: usize,
    /// How many project filters the sidebar lists.
    pub sub_filter_count: usize,
    pub scroll_offset: usize,
}

/// What a key asks of the application beyond the changes to the state.
#[derive(Debug, Clone, Copy, PartialEq, Eq, Structural)]
pub enum DebugStatsAction {
    Close,
    /// Go to the next tab (`forward`) or the previous one; then see
    /// `needs_filter_refresh`.
    ChangeTab { forward: bool },
    /// Go to this tab; then see `needs_filter_refresh`.
    SwitchTab(DebugStatsTab),
    /// Query the events that tag the typed id (see `query_finished`).
    RunQuery,
    /// Read the clipboard and paste its hex digits (see `paste_hex`).
    PasteFromClipboard,
    /// The state changed and nothing else is to be done.
    Updated,
    Ignore,
}

/// A lower-case or upper-case ASCII hex digit.
pub open spec fn is_hex_digit(c: char) -> bool {
    ('0' <= c && c <= '9') || ('a' <= c && c <= 'f') || ('A' <= c && c <= 'F')
}

/// An ASCII letter in lower case; other characters unchanged.
pub open spec fn ascii_lower(c: char) -> char {
    if 'A' <= c && c <= 'Z' {
        ((c as u32) + 32) as char
    } else {
        c
    }
}

/// Whether a text holds lower-case hex digits only, at most 64 of them.
pub open spec fn valid_query(s: Seq<char>) -> bool {
    &&& s.len() <= E_TAG_QUERY_MAX
    &&& forall|k: int| 0 <= k < s.len() ==> ('0' <= #[trigger] s[k] && s[k] <= '9') || ('a' <= s[k]
        && s[k] <= 'f')
}

/// The state's invariant: a valid query text.
pub open spec fn debug_state_ok(st: DebugStatsState) -> bool {
    valid_query(st.e_tag_query_input@)
}

/// The query text after a key on the query tab: Escape and Ctrl+A clear it,
/// Backspace deletes a digit, a hex digit is appended in lower case while
/// fewer than 64 are typed.
pub open spec fn query_after(q: Seq<char>, key: Key, ctrl: bool) -> Seq<char> {
    match key {
        Key::Esc => Seq::<char>::empty(),
        Key::Backspace => without_last(q),
        Key::Char(c) => if ctrl && (c == 'v' || c == 'a') {
            if c == 'a' {
                Seq::<char>::empty()
            } else {
                q
            }
        } else if is_hex_digit(c) && q.len() < E_TAG_QUERY_MAX {
            q.push(ascii_lower(c))
        } else {
            q
        },
        _ => q,
    }
}

/// The action, the result count and the selected result after a key on
/// the query tab.
pub open spec fn query_tab_step(st: DebugStatsState, key: Key, ctrl: bool, shift: bool) -> (
    DebugStatsAction,
    usize,
    usize,
) {
    let q = st.e_tag_query_input@;
    let n = st.e_tag_result_count;
    let i = st.e_tag_selected_index;
    match key {
        Key::Esc => if q.len() > 0 {
            (DebugStatsAction::Updated, 0, i)
        } else {
            (DebugStatsAction::Close, n, i)
        },
        Key::Enter => if q.len() > 0 {
            (DebugStatsAction::RunQuery, n, i)
        } else {
            (DebugStatsAction::Ignore, n, i)
        },
        Key::Tab => (DebugStatsAction::ChangeTab { forward: !shift }, n, i),
        Key::Up => if n > 0 {
            (DebugStatsAction::Updated, n, if i > 0 { (i - 1) as usize } else { 0 })
        } else {
            (DebugStatsAction::Ignore, n, i)
        },
        Key::Down => if n > 0 {
            (DebugStatsAction::Updated, n, if i + 1 < n { (i + 1) as usize } else { i })
        } else {
            (DebugStatsAction::Ignore, n, i)
        },
        Key::Char(c) => if ctrl && c == 'v' {
            (DebugStatsAction::PasteFromClipboard, n, i)
        } else {
            (DebugStatsAction::Updated, n, i)
        },
        Key::Backspace => (DebugStatsAction::Updated, n, i),
        _ => (DebugStatsAction::Ignore, n, i),
    }
}

fn lower_hex(c: char) -> (r: char)
    requires
        is_hex_digit(c),
    ensures
        r == ascii_lower(c),
        ('0' <= r && r <= '9') || ('a' <= r && r <= 'f'),
{
    if 'A' <= c && c <= 'F' {
        let u = c as u32 + 32;
        let r = if u == 0x61 {
            'a'
        } else if u == 0x62 {
            'b'
        } else if u == 0x63 {
            'c'
        } else if u == 0x64 {
            'd'
        } else if u == 0x65 {
            'e'
        } else {
            'f'
        };
        assert(r == ((c as u32) + 32) as char);
        r
    } else {
        c
    }
}

/// Handles a key on the event-id query tab, which takes every key as
/// input; `ctrl` and `shift` say whether Control and Shift were held.
pub fn handle_query_tab_key(st: &mut DebugStatsState, key: Key, ctrl: bool, shift: bool) -> (r:
    DebugStatsAction)
    requires
        old(st).active_tab == DebugStatsTab::ETagQuery,
        debug_state_ok(*old(st)),
    ensures
        ({
            let (a, n, i) = query_tab_step(*old(st), key, ctrl, shift);
            &&& r == a
            &&& final(st).e_tag_result_count == n
            &&& final(st).e_tag_selected_index == i
        }),
        final(st).e_tag_query_input@ == query_after(old(st).e_tag_query_input@, key, ctrl),
        debug_state_ok(*final(st)),
        final(st).active_tab == old(st).active_tab,
        final(st).e_tag_input_focused == old(st).e_tag_input_focused,
        final(st).sub_sidebar_focused == old(st).sub_sidebar_focused,
        final(st).sub_selected_filter_index == old(st).sub_selected_filter_index,
        final(st).sub_filter_count == old(st).sub_filter_count,
        final(st).scroll_offset == old(st).scroll_offset,
{
    let len = st.e_tag_query_input.as_str().unicode_len();
    match key {
        Key::Esc => if len > 0 {
            st.e_tag_query_input = String::new();
            st.e_tag_result_count = 0;
            DebugStatsAction::Updated
        } else {
            st.e_tag_query_input = String::new();
            DebugStatsAction::Close
        },
        Key::Enter => if len > 0 {
            DebugStatsAction::RunQuery
        } else {
            DebugStatsAction::Ignore
        },
        Key::Backspace => {
            pop_last(&mut st.e_tag_query_input);
            DebugStatsAction::Updated
        },
        Key::Tab => DebugStatsAction::ChangeTab { forward: !shift },
        Key::Up => if st.e_tag_result_count > 0 {
            if st.e_tag_selected_index > 0 {
                st.e_tag_selected_index = st.e_tag_selected_index - 1;
            }
            DebugStatsAction::Updated
        } else {
            DebugStatsAction::Ignore
        },
        Key::Down => if st.e_tag_result_count > 0 {
            if st.e_tag_selected_index < st.e_tag_result_count - 1 {
                st.e_tag_selected_index = st.e_tag_selected_index + 1;
            }
            DebugStatsAction::Updated
        } else {
            DebugStatsAction::Ignore
        },
        Key::Char(c) => if ctrl && c == 'v' {
            DebugStatsAction::PasteFromClipboard
        } else if ctrl && c == 'a' {
            st.e_tag_query_input = String::new();
            DebugStatsAction::Updated
        } else {
            if (('0' <= c && c <= '9') || ('a' <= c && c <= 'f') || ('A' <= c && c <= 'F')) && len
                < E_TAG_QUERY_MAX {
                let l = lower_hex(c);
                push_char(&mut st.e_tag_query_input, l);
            }
            DebugStatsAction::Updated
        },
        _ => DebugStatsAction::Ignore,
    }
}

/// The hex digits of a text, lower-cased, as many as fit after `used`
/// digits: what a paste appends to the query field.
pub open spec fn pasted_hex(text: Seq<char>, used: nat) -> Seq<char> {
    let room = if used <= E_TAG_QUERY_MAX {
        (E_TAG_QUERY_MAX - used) as int
    } else {
        0
    };
    let digits = text.filter(|c: char| is_hex_digit(c));
    digits.take(if digits.len() < room { digits.len() as int } else { room }).map_values(
        |c: char| ascii_lower(c),
    )
}

/// Appends the hex digits of pasted text to the query field, lower-cased,
/// up to 64 digits in all; other characters are dropped.
pub fn paste_hex(st: &mut DebugStatsState, text: &str)
    requires
        debug_state_ok(*old(st)),
    ensures
        final(st).e_tag_query_input@ == old(st).e_tag_query_input@ + pasted_hex(
            text@,
            old(st).e_tag_query_input@.len(),
        ),
        debug_state_ok(*final(st)),
        *final(st) == (DebugStatsState { e_tag_query_input: final(st).e_tag_query_input, ..*old(st) }),
{
    let ghost start = st.e_tag_query_input@;
    let room = E_TAG_QUERY_MAX - st.e_tag_query_input.as_str().unicode_len();
    let n = text.unicode_len();
    let ghost hexf = |c: char| is_hex_digit(c);
    let ghost lower = |c: char| ascii_lower(c);
    let mut taken: usize = 0;
    let mut i: usize = 0;
    while i < n && taken < room
        invariant
            n == text@.len(),
            i <= n,
            room == E_TAG_QUERY_MAX - start.len(),
            start.len() <= E_TAG_QUERY_MAX,
            taken <= room,
            taken == text@.subrange(0, i as int).filter(hexf).len(),
            hexf == (|c: char| is_hex_digit(c)),
            lower == (|c: char| ascii_lower(c)),
            st.e_tag_query_input@ == start + text@.subrange(0, i as int).filter(hexf).map_values(
                lower,
            ),
            valid_query(st.e_tag_query_input@),
            *st == (DebugStatsState { e_tag_query_input: st.e_tag_query_input, ..*old(st) }),
        decreases n - i,
    {
        let c = text.get_char(i);
        let ghost pre = text@.subrange(0, i as int);
        proof {
            assert(text@.subrange(0, i + 1) =~= pre.push(c));
            lemma_filter_push(pre, hexf, c);
        }
        if ('0' <= c && c <= '9') || ('a' <= c && c <= 'f') || ('A' <= c && c <= 'F') {
            let l = lower_hex(c);
            push_char(&mut st.e_tag_query_input, l);
            taken = taken + 1;
            proof {
                assert(pre.push(c).filter(hexf).map_values(lower) =~= pre.filter(hexf).map_values(
                    lower,
                ).push(l));
            }
        }
        i = i + 1;
    }
    proof {
        let digits = text@.filter(hexf);
        let pre = text@.subrange(0, i as int);
        lemma_filter_prefix(text@, hexf, i as int);
        let take = if digits.len() < room {
            digits.len() as int
        } else {
            room as int
        };
        if taken < room {
            assert(i == n);
            assert(pre =~= text@);
        } else {
            assert(pre.filter(hexf) =~= digits.take(take));
        }
        assert(pre.filter(hexf).map_values(lower) =~= digits.take(take).map_values(lower));
    }
}

/// Filtering a prefix gives a prefix of the filtered sequence.
proof fn lemma_filter_prefix<A>(s: Seq<A>, f: spec_fn(A) -> bool, i: int)
    requires
        0 <= i <= s.len(),
    ensures
        s.subrange(0, i).filter(f).len() <= s.filter(f).len(),
        s.subrange(0, i).filter(f) == s.filter(f).take(s.subrange(0, i).filter(f).len() as int),
    decreases s.len() - i,
{
    if i == s.len() {
        assert(s.subrange(0, i) =~= s);
        assert(s.filter(f).take(s.filter(f).len() as int) =~= s.filter(f));
    } else {
        lemma_filter_prefix(s, f, i + 1);
        let a = s.subrange(0, i);
        let b = s.subrange(0, i + 1);
        assert(b =~= a.push(s[i]));
        lemma_filter_push(a, f, s[i]);
        let fb = b.filter(f);
        if f(s[i]) {
            assert(a.filter(f) =~= fb.drop_last());
            assert(s.filter(f).take(a.filter(f).len() as int) =~= s.filter(f).take(
                fb.len() as int,
            ).drop_last());
        }
    }
}

/// After a query found `count` events: the results are listed with the
/// first selected.
pub fn query_finished(st: &mut DebugStatsState, count: usize)
    ensures
        *final(st) == (DebugStatsState {
            e_tag_result_count: count,
            e_tag_selected_index: 0,
            ..*old(st)
        }),
{
    st.e_tag_result_count = count;
    st.e_tag_selected_index = 0;
}

/// After a tab change: the subscriptions tab rebuilds its project filters.
pub fn needs_filter_refresh(tab: DebugStatsTab) -> (r: bool)
    ensures
        r == (tab == DebugStatsTab::Subscriptions),
{
    tab == DebugStatsTab::Subscriptions
}

/// The state after a key on the other tabs.
pub open spec fn other_tab_step(st: DebugStatsState, key: Key, shift: bool) -> (
    DebugStatsAction,
    DebugStatsState,
) {
    let subs = st.active_tab == DebugStatsTab::Subscriptions;
    let etag_results = st.active_tab == DebugStatsTab::ETagQuery && st.e_tag_result_count > 0;
    let up = if etag_results {
        DebugStatsState {
            e_tag_selected_index: if st.e_tag_selected_index > 0 {
                (st.e_tag_selected_index - 1) as usize
            } else {
                0
            },
            ..st
        }
    } else if subs && st.sub_sidebar_focused {
        DebugStatsState {
            sub_selected_filter_index: if st.sub_selected_filter_index > 0 {
                (st.sub_selected_filter_index - 1) as usize
            } else {
                0
            },
            ..st
        }
    } else {
        DebugStatsState {
            scroll_offset: if st.scroll_offset > 0 {
                (st.scroll_offset - 1) as usize
            } else {
                0
            },
            ..st
        }
    };
    let down = if etag_results {
        DebugStatsState {
            e_tag_selected_index: if st.e_tag_selected_index + 1 < st.e_tag_result_count {
                (st.e_tag_selected_index + 1) as usize
            } else {
                st.e_tag_selected_index
            },
            ..st
        }
    } else if subs && st.sub_sidebar_focused {
        DebugStatsState {
            sub_selected_filter_index: if st.sub_selected_filter_index + 1 < st.sub_filter_count {
                (st.sub_selected_filter_index + 1) as usize
            } else {
                st.sub_selected_filter_index
            },
            ..st
        }
    } else {
        DebugStatsState {
            scroll_offset: if st.scroll_offset < usize::MAX {
                (st.scroll_offset + 1) as usize
            } else {
                usize::MAX
            },
            ..st
        }
    };
    let left = if subs && !st.sub_sidebar_focused {
        (DebugStatsAction::Updated, DebugStatsState { sub_sidebar_focused: true, ..st })
    } else {
        (DebugStatsAction::ChangeTab { forward: false }, st)
    };
    let right = if subs && st.sub_sidebar_focused {
        (DebugStatsAction::Updated, DebugStatsState { sub_sidebar_focused: false, ..st })
    } else {
        (DebugStatsAction::ChangeTab { forward: true }, st)
    };
    match key {
        Key::Esc => (DebugStatsAction::Close, st),
        Key::Tab => (DebugStatsAction::ChangeTab { forward: !shift }, st),
        Key::Left => left,
        Key::Right => right,
        Key::Up => (DebugStatsAction::Updated, up),
        Key::Down => (DebugStatsAction::Updated, down),
        Key::Enter => if subs {
            (DebugStatsAction::Updated, DebugStatsState { sub_sidebar_focused: false, ..st })
        } else {
            (DebugStatsAction::Ignore, st)
        },
        Key::PageUp => (
            DebugStatsAction::Updated,
            DebugStatsState {
                scroll_offset: if st.scroll_offset >= 10 {
                    (st.scroll_offset - 10) as usize
                } else {
                    0
                },
                ..st
            },
        ),
        Key::PageDown => (
            DebugStatsAction::Updated,
            DebugStatsState {
                scroll_offset: if st.scroll_offset <= usize::MAX - 10 {
                    (st.scroll_offset + 10) as usize
                } else {
                    usize::MAX
                },
                ..st
            },
        ),
        Key::Char(c) => if c == 'q' || c == 'D' {
            (DebugStatsAction::Close, st)
        } else if c == '1' {
            (DebugStatsAction::SwitchTab(DebugStatsTab::Events), st)
        } else if c == '2' {
            (DebugStatsAction::SwitchTab(DebugStatsTab::Subscriptions), st)
        } else if c == '3' {
            (DebugStatsAction::SwitchTab(DebugStatsTab::Negentropy), st)
        } else if c == '4' {
            (DebugStatsAction::SwitchTab(DebugStatsTab::ETagQuery), st)
        } else if c == '5' {
            (DebugStatsAction::SwitchTab(DebugStatsTab::DataStore), st)
        } else if c == 'h' {
            left
        } else if c == 'l' {
            right
        } else if c == 'k' {
            (DebugStatsAction::Updated, up)
        } else if c == 'j' {
            (DebugStatsAction::Updated, down)
        } else if c == 'i' || c == '/' {
            if st.active_tab == DebugStatsTab::ETagQuery {
                (DebugStatsAction::Updated, DebugStatsState { e_tag_input_focused: true, ..st })
            } else {
                (DebugStatsAction::Ignore, st)
            }
        } else {
            (DebugStatsAction::Ignore, st)
        },
        _ => (DebugStatsAction::Ignore, st),
    }
}

fn move_up(st: &mut DebugStatsState)
    ensures
        *final(st) == other_tab_step(*old(st), Key::Up, false).1,
{
    if st.active_tab == DebugStatsTab::ETagQuery && st.e_tag_result_count > 0 {
        if st.e_tag_selected_index > 0 {
            st.e_tag_selected_index = st.e_tag_selected_index - 1;
        }
    } else if st.active_tab == DebugStatsTab::Subscriptions && st.sub_sidebar_focused {
        if st.sub_selected_filter_index > 0 {
            st.sub_selected_filter_index = st.sub_selected_filter_index - 1;
        }
    } else if st.scroll_offset > 0 {
        st.scroll_offset = st.scroll_offset - 1;
    }
}

fn move_down(st: &mut DebugStatsState)
    ensures
        *final(st) == other_tab_step(*old(st), Key::Down, false).1,
{
    if st.active_tab == DebugStatsTab::ETagQuery && st.e_tag_result_count > 0 {
        if st.e_tag_selected_index < st.e_tag_result_count - 1 {
            st.e_tag_selected_index = st.e_tag_selected_index + 1;
        }
    } else if st.active_tab == DebugStatsTab::Subscriptions && st.sub_sidebar_focused {
        if st.sub_filter_count > 0 && st.sub_selected_filter_index < st.sub_filter_count - 1 {
            st.sub_selected_filter_index = st.sub_selected_filter_index + 1;
        }
    } else {
        st.scroll_offset = st.scroll_offset.saturating_add(1);
    }
}

fn move_left(st: &mut DebugStatsState) -> (r: DebugStatsAction)
    ensures
        (r, *final(st)) == other_tab_step(*old(st), Key::Left, false),
{
    if st.active_tab == DebugStatsTab::Subscriptions && !st.sub_sidebar_focused {
        st.sub_sidebar_focused = true;
        DebugStatsAction::Updated
    } else {
        DebugStatsAction::ChangeTab { forward: false }
    }
}

fn move_right(st: &mut DebugStatsState) -> (r: DebugStatsAction)
    ensures
        (r, *final(st)) == other_tab_step(*old(st), Key::Right, false),
{
    if st.active_tab == DebugStatsTab::Subscriptions && st.sub_sidebar_focused {
        st.sub_sidebar_focused = false;
        DebugStatsAction::Updated
    } else {
        DebugStatsAction::ChangeTab { forward: true }
    }
}

/// Handles a key on the tabs other than the event-id query: Escape, `q`
/// and `D` close; Tab and the arrows (or `h`/`l`) change tab, except that
/// on the subscriptions tab Left and Right move between the filter sidebar
/// and the content; `1`–`5` pick a tab; Up and Down (or `k`/`j`) move the
/// selected result, the selected filter or the scroll offset.
pub fn handle_stats_tab_key(st: &mut DebugStatsState, key: Key, shift: bool) -> (r: DebugStatsAction)
    ensures
        (r, *final(st)) == other_tab_step(*old(st), key, shift),
{
    match key {
        Key::Esc => DebugStatsAction::Close,
        Key::Tab => DebugStatsAction::ChangeTab { forward: !shift },
        Key::Left => move_left(st),
        Key::Right => move_right(st),
        Key::Up => {
            move_up(st);
            DebugStatsAction::Updated
        },
        Key::Down => {
            move_down(st);
            DebugStatsAction::Updated
        },
        Key::Enter => if st.active_tab == DebugStatsTab::Subscriptions {
            st.sub_sidebar_focused = false;
            DebugStatsAction::Updated
        } else {
            DebugStatsAction::Ignore
        },
        Key::PageUp => {
            st.scroll_offset = st.scroll_offset.saturating_sub(10);
            DebugStatsAction::Updated
        },
        Key::PageDown => {
            st.scroll_offset = st.scroll_offset.saturating_add(10);
            DebugStatsAction::Updated
        },
        Key::Char(c) => if c == 'q' || c == 'D' {
            DebugStatsAction::Close
        } else if c == '1' {
            DebugStatsAction::SwitchTab(DebugStatsTab::Events)
        } else if c == '2' {
            DebugStatsAction::SwitchTab(DebugStatsTab::Subscriptions)
        } else if c == '3' {
            DebugStatsAction::SwitchTab(DebugStatsTab::Negentropy)
        } else if c == '4' {
            DebugStatsAction::SwitchTab(DebugStatsTab::ETagQuery)
        } else if c == '5' {
            DebugStatsAction::SwitchTab(DebugStatsTab::DataStore)
        } else if c == 'h' {
            move_left(st)
        } else if c == 'l' {
            move_right(st)
        } else if c == 'k' {
            move_up(st);
            DebugStatsAction::Updated
        } else if c == 'j' {
            move_down(st);
            DebugStatsAction::Updated
        } else if c == 'i' || c == '/' {
            if st.active_tab == DebugStatsTab::ETagQuery {
                st.e_tag_input_focused = true;
                DebugStatsAction::Updated
            } else {
                DebugStatsAction::Ignore
            }
        } else {
            DebugStatsAction::Ignore
        },
        _ => DebugStatsAction::Ignore,
    }
}

/// Handles a key in the debug statistics modal: the event-id query tab
/// takes keys as input, the other tabs navigate.
pub fn handle_debug_stats_modal_key(st: &mut DebugStatsState, key: Key, ctrl: bool, shift: bool) -> (r:
    DebugStatsAction)
    requires
        debug_state_ok(*old(st)),
    ensures
        debug_state_ok(*final(st)),
        old(st).active_tab == DebugStatsTab::ETagQuery ==> {
            let (a, n, i) = query_tab_step(*old(st), key, ctrl, shift);
            &&& r == a
            &&& final(st).e_tag_result_count == n
            &&& final(st).e_tag_selected_index == i
            &&& final(st).e_tag_query_input@ == query_after(old(st).e_tag_query_input@, key, ctrl)
            &&& *final(st) == (DebugStatsState {
                e_tag_query_input: final(st).e_tag_query_input,
                e_tag_result_count: n,
                e_tag_selected_index: i,
                ..*old(st)
            })
        },
        old(st).active_tab != DebugStatsTab::ETagQuery ==> (r, *final(st)) == other_tab_step(
            *old(st),
            key,
            shift,
        ),
{
    if st.active_tab == DebugStatsTab::ETagQuery {
        handle_query_tab_key(st, key, ctrl, shift)
    } else {
        handle_stats_tab_key(st, key, shift)
    }
}

/// Backspace undoes a typed hex digit: while the query has room, typing a
/// hex digit and then deleting it gives back the query.
pub proof fn lemma_backspace_undoes_hex_digit(q: Seq<char>, c: char)
    requires
        is_hex_digit(c),
        q.len() < E_TAG_QUERY_MAX,
    ensures
        query_after(query_after(q, Key::Char(c), false), Key::Backspace, false) == q,
{
    assert(q.push(ascii_lower(c)).drop_last() =~= q);
}

} // verus!
