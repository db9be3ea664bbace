//! The agent modals: the agent creation wizard with its multi-line
//! instructions editor, the agent configuration modal, and the agent
//! deletion confirmation.

use vstd::prelude::*;
use vstd::string::*;
use vstd::utf8::{char_is_scalar, encode_scalar, encode_utf8};
use crate::fields::{count_lines, line_count, pop_last, without_last};
use crate::keys::Key;
use crate::text::push_char;

verus! {

/// The byte position where the line holding byte position `i` begins:
/// just after the last line feed before `i`, or the start of the text.
pub open spec fn line_start(s: Seq<u8>, i: int) -> int
    decreases i,
{
    if i <= 0 {
        0
    } else if s[i - 1] == 10u8 {
        i
    } else {
        line_start(s, i - 1)
    }
}

/// The byte position of the first line feed at or after byte `i`, if any.
pub open spec fn next_newline(s: Seq<u8>, i: int) -> Option<int>
    decreases s.len() - i,
{
    if i < 0 || i >= s.len() {
        None
    } else if s[i] == 10u8 {
        Some(i)
    } else {
        next_newline(s, i + 1)
    }
}

/// `line_start` lies between the start and the position.
pub proof fn lemma_line_start_bounds(s: Seq<u8>, i: int)
    requires
        0 <= i <= s.len(),
    ensures
        0 <= line_start(s, i) <= i,
    decreases i,
{
    if i > 0 && s[i - 1] != 10u8 {
        lemma_line_start_bounds(s, i - 1);
    }
}

/// `next_newline` finds a line feed at or after the position.
pub proof fn lemma_next_newline_bounds(s: Seq<u8>, i: int)
    requires
        0 <= i,
    ensures
        next_newline(s, i) matches Some(k) ==> i <= k < s.len() && s[k] == 10u8,
    decreases s.len() - i,
{
    if i < s.len() && s[i] != 10u8 {
        lemma_next_newline_bounds(s, i + 1);
    }
}

/// The smaller of two integers.
pub open spec fn min_int(a: int, b: int) -> int {
    if a <= b {
        a
    } else {
        b
    }
}

/// The cursor after Up: the same byte column on the previous line, or that
/// line's end when it is shorter; unchanged on the first line.
pub open spec fn cursor_up(s: Seq<u8>, c: int) -> int {
    let ls = line_start(s, c);
    if ls > 0 {
        let prev = line_start(s, ls - 1);
        prev + min_int(c - ls, ls - 1 - prev)
    } else {
        c
    }
}

/// The cursor after Down: the same byte column on the next line, or that
/// line's end when it is shorter; unchanged on the last line.
pub open spec fn cursor_down(s: Seq<u8>, c: int) -> int {
    match next_newline(s, c) {
        Some(k) => {
            let next = k + 1;
            let end = match next_newline(s, next) {
                Some(e) => e,
                None => s.len() as int,
            };
            next + min_int(c - line_start(s, c), end - next)
        },
        None => c,
    }
}

/// The cursor after End: the end of its line.
pub open spec fn cursor_end(s: Seq<u8>, c: int) -> int {
    match next_newline(s, c) {
        Some(k) => k,
        None => s.len() as int,
    }
}

/// The byte position where character `k` of `s` begins in its UTF-8
/// encoding (the length of the encoding of the first `k` characters).
pub open spec fn byte_offset(s: Seq<char>, k: int) -> int {
    encode_utf8(s.take(k)).len() as int
}

/// Whether byte position `b` of the UTF-8 encoding of `s` is where a
/// character begins (or the end): a cut that `String::insert`,
/// `String::remove` and slicing accept.
pub open spec fn starts_char(s: Seq<char>, b: int) -> bool {
    exists|k: int| 0 <= k <= s.len() && #[trigger] byte_offset(s, k) == b
}

/// The character index that begins at byte position `b`.
pub open spec fn char_at_byte(s: Seq<char>, b: int) -> int {
    choose|k: int| 0 <= k <= s.len() && #[trigger] byte_offset(s, k) == b
}

/// Encoding a concatenation encodes each part.
proof fn lemma_encode_concat(a: Seq<char>, b: Seq<char>)
    ensures
        encode_utf8(a + b) == encode_utf8(a) + encode_utf8(b),
    decreases a.len(),
{
    if a.len() == 0 {
        assert(a + b =~= b);
        assert(encode_utf8(a) =~= Seq::<u8>::empty());
        assert(encode_utf8(a) + encode_utf8(b) =~= encode_utf8(b));
    } else {
        lemma_encode_concat(a.drop_first(), b);
        assert((a + b).drop_first() =~= a.drop_first() + b);
        assert((a + b)[0] == a[0]);
        assert(encode_scalar(a[0] as u32) + (encode_utf8(a.drop_first()) + encode_utf8(b))
            =~= encode_scalar(a[0] as u32) + encode_utf8(a.drop_first()) + encode_utf8(b));
    }
}

/// The encoding of one character.
proof fn lemma_encode_one(c: char)
    ensures
        encode_utf8(seq![c]) == encode_scalar(c as u32),
        1 <= encode_scalar(c as u32).len() <= 4,
{
    assert(seq![c].drop_first() =~= Seq::<char>::empty());
    assert(encode_scalar(c as u32) + encode_utf8(Seq::<char>::empty()) =~= encode_scalar(c as u32));
}

/// The next character begins one character's encoding later.
proof fn lemma_offset_step(s: Seq<char>, k: int)
    requires
        0 <= k < s.len(),
    ensures
        byte_offset(s, k + 1) == byte_offset(s, k) + encode_scalar(s[k] as u32).len(),
{
    assert(s.take(k + 1) =~= s.take(k) + seq![s[k]]);
    lemma_encode_concat(s.take(k), seq![s[k]]);
    lemma_encode_one(s[k]);
}

/// No character begins beyond the end of the encoding.
proof fn lemma_offset_within(s: Seq<char>, j: int)
    requires
        0 <= j <= s.len(),
    ensures
        byte_offset(s, j) <= encode_utf8(s).len(),
        byte_offset(s, s.len() as int) == encode_utf8(s).len(),
    decreases s.len() - j,
{
    assert(s.take(s.len() as int) =~= s);
    if j < s.len() {
        lemma_offset_step(s, j);
        lemma_encode_one(s[j]);
        lemma_offset_within(s, j + 1);
    }
}

/// Later characters begin at later bytes; the last offset is the length.
proof fn lemma_offset_grows(s: Seq<char>, i: int, j: int)
    requires
        0 <= i <= j <= s.len(),
    ensures
        byte_offset(s, i) <= byte_offset(s, j),
        i < j ==> byte_offset(s, i) < byte_offset(s, j),
        byte_offset(s, j) <= encode_utf8(s).len(),
        byte_offset(s, s.len() as int) == encode_utf8(s).len(),
        byte_offset(s, 0) == 0,
    decreases j - i,
{
    assert(s.take(0) =~= Seq::<char>::empty());
    lemma_offset_within(s, j);
    if i < j {
        lemma_offset_step(s, j - 1);
        lemma_encode_one(s[j - 1]);
        lemma_offset_grows(s, i, j - 1);
    }
}

/// The character that begins at the offset of character `k` is `k`.
proof fn lemma_char_at_offset(s: Seq<char>, k: int)
    requires
        0 <= k <= s.len(),
    ensures
        starts_char(s, byte_offset(s, k)),
        char_at_byte(s, byte_offset(s, k)) == k,
{
    let b = byte_offset(s, k);
    assert(0 <= k <= s.len() && byte_offset(s, k) == b);
    let j = char_at_byte(s, b);
    if j < k {
        lemma_offset_grows(s, j, k);
    } else if k < j {
        lemma_offset_grows(s, k, j);
    }
}

/// The encoding after inserting a character: the character's bytes enter
/// at its offset.
proof fn lemma_insert_encoding(s: Seq<char>, k: int, c: char)
    requires
        0 <= k <= s.len(),
    ensures
        encode_utf8(s.insert(k, c)).len() == encode_utf8(s).len() + encode_scalar(c as u32).len(),
        s.insert(k, c).take(k) == s.take(k),
{
    assert(s.insert(k, c) =~= s.take(k) + (seq![c] + s.skip(k)));
    assert(s =~= s.take(k) + s.skip(k));
    lemma_encode_concat(s.take(k), seq![c] + s.skip(k));
    lemma_encode_concat(seq![c], s.skip(k));
    lemma_encode_concat(s.take(k), s.skip(k));
    lemma_encode_one(c);
    assert(s.insert(k, c).take(k) =~= s.take(k));
}

/// The encoding after removing character `k` keeps the bytes before it.
proof fn lemma_remove_encoding(s: Seq<char>, k: int)
    requires
        0 <= k < s.len(),
    ensures
        encode_utf8(s.remove(k)).len() >= byte_offset(s, k),
{
    assert(s.remove(k) =~= s.take(k) + s.skip(k + 1));
    lemma_encode_concat(s.take(k), s.skip(k + 1));
}

/// The number of UTF-8 bytes of a character, as `char::len_utf8` gives it.
fn char_width(c: char) -> (w: usize)
    ensures
        w == encode_scalar(c as u32).len(),
{
    proof {
        char_is_scalar(c);
    }
    let u = c as u32;
    if u <= 0x7F {
        1
    } else if u <= 0x7FF {
        2
    } else if u <= 0xFFFF {
        3
    } else {
        4
    }
}

/// The character index that begins at byte position `b` of `s`, if one
/// does.
fn char_index_at_byte(s: &str, b: usize) -> (r: Option<usize>)
    ensures
        match r {
            Some(k) => k <= s@.len() && byte_offset(s@, k as int) == b,
            None => !starts_char(s@, b as int),
        },
{
    let n = s.unicode_len();
    let total = s.as_bytes().len();
    let mut i: usize = 0;
    let mut off: usize = 0;
    proof {
        lemma_offset_grows(s@, 0, 0);
    }
    while i < n && off < b
        invariant
            n == s@.len(),
            total == encode_utf8(s@).len(),
            i <= n,
            off == byte_offset(s@, i as int),
            forall|j: int| 0 <= j < i ==> #[trigger] byte_offset(s@, j) < b,
        decreases n - i,
    {
        let w = char_width(s.get_char(i));
        proof {
            lemma_offset_step(s@, i as int);
            lemma_offset_grows(s@, i + 1, n as int);
            assert forall|j: int| 0 <= j < i + 1 implies #[trigger] byte_offset(s@, j) < b by {
                if j < i {
                } else {
                    assert(j == i);
                }
            }
        }
        off = off + w;
        i = i + 1;
    }
    if off == b {
        Some(i)
    } else {
        proof {
            assert forall|k: int| 0 <= k <= s@.len() implies #[trigger] byte_offset(s@, k) != b by {
                if k < i {
                } else if i < n {
                    lemma_offset_grows(s@, i as int, k);
                } else {
                    lemma_offset_grows(s@, k, n as int);
                }
            }
        }
        None
    }
}

fn find_line_start(s: &[u8], i: usize) -> (r: usize)
    requires
        i <= s@.len(),
    ensures
        r == line_start(s@, i as int),
{
    let mut j = i;
    while j > 0 && s[j - 1] != 10u8
        invariant
            j <= i <= s@.len(),
            line_start(s@, i as int) == line_start(s@, j as int),
        decreases j,
    {
        j = j - 1;
    }
    j
}

fn find_newline(s: &[u8], i: usize) -> (r: Option<usize>)
    requires
        i <= s@.len(),
    ensures
        match r {
            Some(k) => next_newline(s@, i as int) == Some(k as int),
            None => next_newline(s@, i as int) is None,
        },
{
    let n = s.len();
    let mut k = i;
    while k < n && s[k] != 10u8
        invariant
            n == s@.len(),
            i <= k <= n,
            next_newline(s@, i as int) == next_newline(s@, k as int),
        decreases n - k,
    {
        k = k + 1;
    }
    if k < n {
        Some(k)
    } else {
        None
    }
}

/// The text with `c` inserted at character position `at`.
fn insert_char(s: &str, at: usize, c: char) -> (r: String)
    requires
        at <= s@.len(),
    ensures
        r@ == s@.insert(at as int, c),
{
    let n = s.unicode_len();
    let mut r = String::from_str(s.substring_char(0, at));
    push_char(&mut r, c);
    r.append(s.substring_char(at, n));
    assert(r@ =~= s@.insert(at as int, c));
    r
}

/// The text without the character at character position `at`.
fn remove_char(s: &str, at: usize) -> (r: String)
    requires
        at < s@.len(),
    ensures
        r@ == s@.remove(at as int),
{
    let n = s.unicode_len();
    let mut r = String::from_str(s.substring_char(0, at));
    r.append(s.substring_char(at + 1, n));
    assert(r@ =~= s@.remove(at as int));
    r
}

/// The step of the agent creation wizard.
#[derive(Debug, Clone, Copy, PartialEq, Eq, Structural)]
pub enum AgentCreateStep {
    Basics,
    Instructions,
    Review,
}

/// The field of the basics step with focus.
#[derive(Debug, Clone, Copy, PartialEq, Eq, Structural)]
pub enum AgentFormFocus {
    Name,
    Description,
    Role,
}

/// The agent creation wizard's state. The instructions cursor is a byte
/// position in the UTF-8 text of the instructions.
#[derive(Debug, Clone)]
pub struct AgentForm {
    pub step: AgentCreateStep,
    pub focus: AgentFormFocus,
    pub name: String,
    pub description: String,
    pub role: String,
    pub instructions: String,
    pub instructions_cursor: usize,
    pub instructions_scroll: usize,
}

/// The wizard as the contracts speak of it.
pub struct AgentFormView {
    pub step: AgentCreateStep,
    pub focus: AgentFormFocus,
    pub name: Seq<char>,
    pub description: Seq<char>,
    pub role: Seq<char>,
    pub instructions: Seq<char>,
    pub cursor: int,
    pub scroll: int,
}

impl View for AgentForm {
    type V = AgentFormView;

    open spec fn view(&self) -> AgentFormView {
        AgentFormView {
            step: self.step,
            focus: self.focus,
            name: self.name@,
            description: self.description@,
            role: self.role@,
            instructions: self.instructions@,
            cursor: self.instructions_cursor as int,
            scroll: self.instructions_scroll as int,
        }
    }
}

/// The wizard's invariant: the cursor lies within the instructions' bytes.
pub open spec fn agent_form_ok(v: AgentFormView) -> bool {
    0 <= v.cursor <= encode_utf8(v.instructions).len()
}

/// Whether a key in the instructions editor would cut the text inside a
/// character (where the string operations panic): inserting, and reading
/// the line around the cursor, need a character to begin at the cursor;
/// Backspace needs one to begin just before it.
pub open spec fn instructions_key_cuts_char(v: AgentFormView, key: Key, ctrl: bool) -> bool {
    let s = v.instructions;
    let c = v.cursor;
    match key {
        Key::Enter => !ctrl && !starts_char(s, c),
        Key::Char(_) | Key::Up | Key::Down | Key::Home | Key::End => !starts_char(s, c),
        Key::Backspace => c > 0 && !starts_char(s, c - 1),
        _ => false,
    }
}

/// What a key in the wizard asks of the application.
#[derive(Debug, Clone, Copy, PartialEq, Eq, Structural)]
pub enum AgentFormAction {
    /// Close the wizard.
    Close,
    /// Publish the agent definition and close the wizard.
    Publish,
    /// The form changed, or nothing happened.
    Stay,
}

/// The focus after Tab: name, description, role, and round again.
pub open spec fn next_focus(f: AgentFormFocus) -> AgentFormFocus {
    match f {
        AgentFormFocus::Name => AgentFormFocus::Description,
        AgentFormFocus::Description => AgentFormFocus::Role,
        AgentFormFocus::Role => AgentFormFocus::Name,
    }
}

/// The wizard after a key in the basics step; Enter moves on when the
/// basics are complete.
pub open spec fn basics_after(v: AgentFormView, key: Key, complete: bool) -> AgentFormView {
    match key {
        Key::Tab => AgentFormView { focus: next_focus(v.focus), ..v },
        Key::Enter => if complete {
            AgentFormView { step: AgentCreateStep::Instructions, ..v }
        } else {
            v
        },
        Key::Char(c) => match v.focus {
            AgentFormFocus::Name => AgentFormView { name: v.name.push(c), ..v },
            AgentFormFocus::Description => AgentFormView { description: v.description.push(c), ..v },
            AgentFormFocus::Role => AgentFormView { role: v.role.push(c), ..v },
        },
        Key::Backspace => match v.focus {
            AgentFormFocus::Name => AgentFormView { name: without_last(v.name), ..v },
            AgentFormFocus::Description => AgentFormView {
                description: without_last(v.description),
                ..v
            },
            AgentFormFocus::Role => AgentFormView { role: without_last(v.role), ..v },
        },
        _ => v,
    }
}

/// The wizard after a key in the instructions editor, with the cursor a
/// byte position: Ctrl+Enter moves to the review; Enter and characters are
/// inserted at the cursor, which then moves one byte on; Backspace moves
/// the cursor one byte back and deletes the character that begins there,
/// or, in empty instructions, goes back to the basics; Left and Right move
/// one byte; Up, Down, Home and End move by lines, with columns counted in
/// bytes.
pub open spec fn instructions_after(v: AgentFormView, key: Key, ctrl: bool) -> AgentFormView {
    let s = v.instructions;
    let b = encode_utf8(s);
    let c = v.cursor;
    match key {
        Key::Enter => if ctrl {
            AgentFormView { step: AgentCreateStep::Review, scroll: 0, ..v }
        } else {
            AgentFormView { instructions: s.insert(char_at_byte(s, c), '\n'), cursor: c + 1, ..v }
        },
        Key::Char(ch) => AgentFormView { instructions: s.insert(char_at_byte(s, c), ch), cursor: c + 1, ..v },
        Key::Backspace => if c > 0 {
            AgentFormView { instructions: s.remove(char_at_byte(s, c - 1)), cursor: c - 1, ..v }
        } else if s.len() == 0 {
            AgentFormView { step: AgentCreateStep::Basics, ..v }
        } else {
            v
        },
        Key::Left => AgentFormView { cursor: if c > 0 { c - 1 } else { c }, ..v },
        Key::Right => AgentFormView { cursor: if c < b.len() { c + 1 } else { c }, ..v },
        Key::Up => AgentFormView { cursor: cursor_up(b, c), ..v },
        Key::Down => AgentFormView { cursor: cursor_down(b, c), ..v },
        Key::Home => AgentFormView { cursor: line_start(b, c), ..v },
        Key::End => AgentFormView { cursor: cursor_end(b, c), ..v },
        _ => v,
    }
}

/// The wizard after a key in the review: Backspace goes back to the
/// instructions; the arrows scroll within the instructions' lines.
pub open spec fn review_after(v: AgentFormView, key: Key) -> AgentFormView {
    match key {
        Key::Backspace => AgentFormView { step: AgentCreateStep::Instructions, scroll: 0, ..v },
        Key::Up => AgentFormView { scroll: if v.scroll > 0 { v.scroll - 1 } else { v.scroll }, ..v },
        Key::Down => AgentFormView {
            scroll: if v.scroll + 1 < line_count(v.instructions) {
                v.scroll + 1
            } else {
                v.scroll
            },
            ..v
        },
        _ => v,
    }
}

/// The wizard after a key.
pub open spec fn agent_form_after(v: AgentFormView, key: Key, ctrl: bool, complete: bool) -> AgentFormView {
    if key == Key::Esc {
        v
    } else {
        match v.step {
            AgentCreateStep::Basics => basics_after(v, key, complete),
            AgentCreateStep::Instructions => instructions_after(v, key, ctrl),
            AgentCreateStep::Review => if key == Key::Enter {
                v
            } else {
                review_after(v, key)
            },
        }
    }
}

/// What a key in the wizard asks of the application.
pub open spec fn agent_form_action(v: AgentFormView, key: Key) -> AgentFormAction {
    if key == Key::Esc {
        AgentFormAction::Close
    } else if v.step == AgentCreateStep::Review && key == Key::Enter {
        AgentFormAction::Publish
    } else {
        AgentFormAction::Stay
    }
}

fn basics_key(form: &mut AgentForm, key: Key, complete: bool)
    ensures
        final(form)@ == basics_after(old(form)@, key, complete),
{
    match key {
        Key::Tab => {
            form.focus = match form.focus {
                AgentFormFocus::Name => AgentFormFocus::Description,
                AgentFormFocus::Description => AgentFormFocus::Role,
                AgentFormFocus::Role => AgentFormFocus::Name,
            };
        },
        Key::Enter => if complete {
            form.step = AgentCreateStep::Instructions;
        },
        Key::Char(c) => match form.focus {
            AgentFormFocus::Name => push_char(&mut form.name, c),
            AgentFormFocus::Description => push_char(&mut form.description, c),
            AgentFormFocus::Role => push_char(&mut form.role, c),
        },
        Key::Backspace => match form.focus {
            AgentFormFocus::Name => pop_last(&mut form.name),
            AgentFormFocus::Description => pop_last(&mut form.description),
            AgentFormFocus::Role => pop_last(&mut form.role),
        },
        _ => {},
    }
}

fn instructions_key(form: &mut AgentForm, key: Key, ctrl: bool)
    requires
        agent_form_ok(old(form)@),
        encode_utf8(old(form).instructions@).len() < usize::MAX,
        !instructions_key_cuts_char(old(form)@, key, ctrl),
    ensures
        final(form)@ == instructions_after(old(form)@, key, ctrl),
{
    let c = form.instructions_cursor;
    let n = form.instructions.as_str().as_bytes().len();
    let ghost s = old(form).instructions@;
    match key {
        Key::Enter => if ctrl {
            form.step = AgentCreateStep::Review;
            form.instructions_scroll = 0;
        } else {
            if let Some(k) = char_index_at_byte(form.instructions.as_str(), c) {
                proof {
                    lemma_char_at_offset(s, k as int);
                }
                form.instructions = insert_char(form.instructions.as_str(), k, '\n');
                form.instructions_cursor = c + 1;
            }
        },
        Key::Char(ch) => {
            if let Some(k) = char_index_at_byte(form.instructions.as_str(), c) {
                proof {
                    lemma_char_at_offset(s, k as int);
                }
                form.instructions = insert_char(form.instructions.as_str(), k, ch);
                form.instructions_cursor = c + 1;
            }
        },
        Key::Backspace => if c > 0 {
            if let Some(k) = char_index_at_byte(form.instructions.as_str(), c - 1) {
                proof {
                    lemma_char_at_offset(s, k as int);
                    lemma_offset_grows(s, k as int, s.len() as int);
                }
                form.instructions = remove_char(form.instructions.as_str(), k);
                form.instructions_cursor = c - 1;
            }
        } else if form.instructions.as_str().unicode_len() == 0 {
            form.step = AgentCreateStep::Basics;
        },
        Key::Left => if c > 0 {
            form.instructions_cursor = c - 1;
        },
        Key::Right => if c < n {
            form.instructions_cursor = c + 1;
        },
        Key::Up => {
            let bytes = form.instructions.as_str().as_bytes();
            let ls = find_line_start(bytes, c);
            proof {
                lemma_line_start_bounds(bytes@, c as int);
            }
            if ls > 0 {
                let prev = find_line_start(bytes, ls - 1);
                proof {
                    lemma_line_start_bounds(bytes@, ls - 1);
                }
                let col = c - ls;
                let prev_len = ls - 1 - prev;
                form.instructions_cursor = prev + if col <= prev_len {
                    col
                } else {
                    prev_len
                };
            }
        },
        Key::Down => {
            let bytes = form.instructions.as_str().as_bytes();
            match find_newline(bytes, c) {
                Some(k) => {
                    proof {
                        lemma_next_newline_bounds(bytes@, c as int);
                        lemma_line_start_bounds(bytes@, c as int);
                    }
                    let next = k + 1;
                    let end = match find_newline(bytes, next) {
                        Some(e) => e,
                        None => n,
                    };
                    proof {
                        lemma_next_newline_bounds(bytes@, next as int);
                    }
                    let ls = find_line_start(bytes, c);
                    let col = c - ls;
                    let len = end - next;
                    form.instructions_cursor = next + if col <= len {
                        col
                    } else {
                        len
                    };
                },
                None => {},
            }
        },
        Key::Home => {
            form.instructions_cursor = find_line_start(form.instructions.as_str().as_bytes(), c);
        },
        Key::End => {
            form.instructions_cursor = match find_newline(form.instructions.as_str().as_bytes(), c) {
                Some(k) => k,
                None => n,
            };
        },
        _ => {},
    }
}

/// The cursor stays within the instructions' bytes, whatever the key that
/// does not cut a character.
pub proof fn lemma_cursor_stays_inside(v: AgentFormView, key: Key, ctrl: bool)
    requires
        agent_form_ok(v),
        v.step == AgentCreateStep::Instructions,
        !instructions_key_cuts_char(v, key, ctrl),
    ensures
        agent_form_ok(instructions_after(v, key, ctrl)),
{
    let s = v.instructions;
    let b = encode_utf8(s);
    let c = v.cursor;
    lemma_line_start_bounds(b, c);
    lemma_next_newline_bounds(b, c);
    let ls = line_start(b, c);
    if ls > 0 {
        lemma_line_start_bounds(b, ls - 1);
    }
    match next_newline(b, c) {
        Some(k) => {
            lemma_next_newline_bounds(b, k + 1);
        },
        None => {},
    }
    match key {
        Key::Enter | Key::Char(_) => {
            if !(key == Key::Enter && ctrl) {
                let ch = match key {
                    Key::Char(x) => x,
                    _ => '\n',
                };
                let k = char_at_byte(s, c);
                lemma_insert_encoding(s, k, ch);
            }
        },
        Key::Backspace => {
            if c > 0 {
                let k = char_at_byte(s, c - 1);
                lemma_offset_grows(s, k, s.len() as int);
                if k == s.len() {
                    assert(s.take(s.len() as int) =~= s);
                }
                lemma_remove_encoding(s, k);
            }
        },
        _ => {},
    }
}

/// Backspace undoes a typed character: in the instructions editor, typing
/// a character where one begins and then deleting it gives back the
/// instructions and the cursor; in the basics, it gives back the field with
/// focus.
pub proof fn lemma_backspace_undoes_typing(v: AgentFormView, ch: char, ctrl: bool, complete: bool)
    requires
        agent_form_ok(v),
        v.step != AgentCreateStep::Review,
        v.step == AgentCreateStep::Instructions ==> starts_char(v.instructions, v.cursor),
    ensures
        agent_form_after(agent_form_after(v, Key::Char(ch), ctrl, complete), Key::Backspace, ctrl, complete)
            == v,
{
    if v.step == AgentCreateStep::Instructions {
        let s = v.instructions;
        let c = v.cursor;
        let k = char_at_byte(s, c);
        lemma_char_at_offset(s, k);
        let t = s.insert(k, ch);
        lemma_insert_encoding(s, k, ch);
        assert(byte_offset(t, k) == byte_offset(s, k));
        lemma_char_at_offset(t, k);
        assert(t.remove(k) =~= s);
    } else {
        match v.focus {
            AgentFormFocus::Name => assert(without_last(v.name.push(ch)) =~= v.name),
            AgentFormFocus::Description => assert(without_last(v.description.push(ch)) =~= v.description),
            AgentFormFocus::Role => assert(without_last(v.role.push(ch)) =~= v.role),
        }
    }
}

/// Handles a key in the agent creation wizard. `ctrl` says whether Control
/// was held; `basics_complete` whether the basics step may be left.
pub fn handle_create_agent_key(form: &mut AgentForm, key: Key, ctrl: bool, basics_complete: bool) -> (r:
    AgentFormAction)
    requires
        agent_form_ok(old(form)@),
        encode_utf8(old(form).instructions@).len() < usize::MAX,
        old(form).step == AgentCreateStep::Instructions && key != Key::Esc ==> !instructions_key_cuts_char(
            old(form)@,
            key,
            ctrl,
        ),
    ensures
        r == agent_form_action(old(form)@, key),
        final(form)@ == agent_form_after(old(form)@, key, ctrl, basics_complete),
        agent_form_ok(final(form)@),
{
    proof {
        if old(form).step == AgentCreateStep::Instructions {
            lemma_cursor_stays_inside(old(form)@, key, ctrl);
        }
    }
    if key == Key::Esc {
        return AgentFormAction::Close;
    }
    match form.step {
        AgentCreateStep::Basics => {
            basics_key(form, key, basics_complete);
            AgentFormAction::Stay
        },
        AgentCreateStep::Instructions => {
            instructions_key(form, key, ctrl);
            AgentFormAction::Stay
        },
        AgentCreateStep::Review => match key {
            Key::Enter => AgentFormAction::Publish,
            Key::Backspace => {
                form.step = AgentCreateStep::Instructions;
                form.instructions_scroll = 0;
                AgentFormAction::Stay
            },
            Key::Up => {
                if form.instructions_scroll > 0 {
                    form.instructions_scroll = form.instructions_scroll - 1;
                }
                AgentFormAction::Stay
            },
            Key::Down => {
                let lines = count_lines(form.instructions.as_str());
                if lines > 0 && form.instructions_scroll < lines - 1 {
                    form.instructions_scroll = form.instructions_scroll + 1;
                }
                AgentFormAction::Stay
            },
            _ => AgentFormAction::Stay,
        },
    }
}

/// The status after publishing an agent definition was attempted: none
/// when not connected, else the error or the creation.
pub fn agent_created_status(name: &str, connected: bool, error: Option<&str>) -> (r: Option<String>)
    ensures
        match r {
            None => !connected,
            Some(m) => connected && m@ == match error {
                Some(e) => "Failed to create agent: "@ + e@,
                None => "Agent '"@ + name@ + "' created"@,
            },
        },
{
    if !connected {
        return None;
    }
    match error {
        Some(e) => {
            let mut m = String::from_str("Failed to create agent: ");
            m.append(e);
            Some(m)
        },
        None => {
            let mut m = String::from_str("Agent '");
            m.append(name);
            m.append("' created");
            Some(m)
        },
    }
}

/// The pane of the agent configuration modal with focus.
#[derive(Debug, Clone, Copy, PartialEq, Eq, Structural)]
pub enum AgentConfigFocus {
    Agents,
    Model,
    Tools,
}

/// The state of the agent configuration modal that keys change.
#[derive(Debug, Clone, Copy, PartialEq, Eq, Structural)]
pub struct AgentConfigState {
    pub focus: AgentConfigFocus,
    /// The row of the agent selector.
    pub selector_index: usize,
    /// Whether the selected agent's settings are loaded.
    pub has_settings: bool,
    pub model_index: usize,
    /// How many models the settings offer.
    pub model_count: usize,
    /// Whether the agent is marked as project manager.
    pub is_pm: bool,
    /// Save for all projects rather than the current one.
    pub save_globally: bool,
}

/// What a key in the agent configuration modal asks of the application.
/// The focus moves are carried out by the caller: the state returned with
/// them keeps its focus.
#[derive(Debug, Clone, Copy, PartialEq, Eq, Structural)]
pub enum AgentConfigAction {
    Close,
    /// The caller moves the focus to the previous pane.
    FocusPrev,
    /// The caller moves the focus to the next pane.
    FocusNext,
    /// The agent selector moved; reload the modal for the new agent.
    Refresh,
    ToolCursorUp,
    ToolCursorDown,
    ToggleToolAtCursor,
    ToggleToolGroup,
    /// Type into the agent filter, then reload.
    AddFilterChar(char),
    /// Delete from the agent filter, then reload.
    BackspaceFilter,
    /// Select the highlighted agent, save changed settings (see
    /// `config_save_target`) and close.
    Confirm,
    Updated,
    Ignore,
}

/// What a key does in the agent configuration modal, and the state after
/// it. Ctrl+G switches between saving for the project and globally;
/// Ctrl+M marks the agent as project manager.
pub open spec fn agent_config_step(
    st: AgentConfigState,
    key: Key,
    shift: bool,
    ctrl: bool,
    alt: bool,
) -> (AgentConfigAction, AgentConfigState) {
    match key {
        Key::Esc => (AgentConfigAction::Close, st),
        Key::Left => (AgentConfigAction::FocusPrev, st),
        Key::Right => (AgentConfigAction::FocusNext, st),
        Key::BackTab => (AgentConfigAction::FocusPrev, st),
        Key::Tab => if shift {
            (AgentConfigAction::FocusPrev, st)
        } else {
            (AgentConfigAction::FocusNext, st)
        },
        Key::Up => match st.focus {
            AgentConfigFocus::Agents => (
                AgentConfigAction::Refresh,
                AgentConfigState {
                    selector_index: if st.selector_index > 0 {
                        (st.selector_index - 1) as usize
                    } else {
                        0
                    },
                    ..st
                },
            ),
            AgentConfigFocus::Model => (
                AgentConfigAction::Updated,
                if st.has_settings && st.model_index > 0 {
                    AgentConfigState { model_index: (st.model_index - 1) as usize, ..st }
                } else {
                    st
                },
            ),
            AgentConfigFocus::Tools => if st.has_settings {
                (AgentConfigAction::ToolCursorUp, st)
            } else {
                (AgentConfigAction::Ignore, st)
            },
        },
        Key::Down => match st.focus {
            AgentConfigFocus::Agents => (
                AgentConfigAction::Refresh,
                AgentConfigState {
                    selector_index: if st.selector_index < usize::MAX {
                        (st.selector_index + 1) as usize
                    } else {
                        usize::MAX
                    },
                    ..st
                },
            ),
            AgentConfigFocus::Model => (
                AgentConfigAction::Updated,
                if st.has_settings && st.model_count > 0 && st.model_index < st.model_count - 1 {
                    AgentConfigState { model_index: (st.model_index + 1) as usize, ..st }
                } else {
                    st
                },
            ),
            AgentConfigFocus::Tools => if st.has_settings {
                (AgentConfigAction::ToolCursorDown, st)
            } else {
                (AgentConfigAction::Ignore, st)
            },
        },
        Key::Char(c) => if c == ' ' {
            if st.focus == AgentConfigFocus::Tools && st.has_settings {
                (AgentConfigAction::ToggleToolAtCursor, st)
            } else {
                (AgentConfigAction::Ignore, st)
            }
        } else if c == 'a' && st.focus == AgentConfigFocus::Tools {
            if st.has_settings {
                (AgentConfigAction::ToggleToolGroup, st)
            } else {
                (AgentConfigAction::Ignore, st)
            }
        } else if c == 'g' && ctrl {
            (AgentConfigAction::Updated, AgentConfigState { save_globally: !st.save_globally, ..st })
        } else if c == 'm' && ctrl {
            (
                AgentConfigAction::Updated,
                if st.has_settings {
                    AgentConfigState { is_pm: !st.is_pm, ..st }
                } else {
                    st
                },
            )
        } else if st.focus == AgentConfigFocus::Agents && !ctrl && !alt && !shift {
            (AgentConfigAction::AddFilterChar(c), st)
        } else {
            (AgentConfigAction::Ignore, st)
        },
        Key::Backspace => if st.focus == AgentConfigFocus::Agents {
            (AgentConfigAction::BackspaceFilter, st)
        } else {
            (AgentConfigAction::Ignore, st)
        },
        Key::Enter => (AgentConfigAction::Confirm, st),
        _ => (AgentConfigAction::Ignore, st),
    }
}

/// Handles a key in the agent configuration modal.
pub fn handle_agent_config_modal_key(st: &mut AgentConfigState, key: Key, shift: bool, ctrl: bool, alt: bool) -> (r:
    AgentConfigAction)
    ensures
        (r, *final(st)) == agent_config_step(*old(st), key, shift, ctrl, alt),
{
    match key {
        Key::Esc => AgentConfigAction::Close,
        Key::Left => AgentConfigAction::FocusPrev,
        Key::Right => AgentConfigAction::FocusNext,
        Key::BackTab => AgentConfigAction::FocusPrev,
        Key::Tab => if shift {
            AgentConfigAction::FocusPrev
        } else {
            AgentConfigAction::FocusNext
        },
        Key::Up => match st.focus {
            AgentConfigFocus::Agents => {
                st.selector_index = st.selector_index.saturating_sub(1);
                AgentConfigAction::Refresh
            },
            AgentConfigFocus::Model => {
                if st.has_settings && st.model_index > 0 {
                    st.model_index = st.model_index - 1;
                }
                AgentConfigAction::Updated
            },
            AgentConfigFocus::Tools => if st.has_settings {
                AgentConfigAction::ToolCursorUp
            } else {
                AgentConfigAction::Ignore
            },
        },
        Key::Down => match st.focus {
            AgentConfigFocus::Agents => {
                st.selector_index = st.selector_index.saturating_add(1);
                AgentConfigAction::Refresh
            },
            AgentConfigFocus::Model => {
                if st.has_settings && st.model_count > 0 && st.model_index < st.model_count - 1 {
                    st.model_index = st.model_index + 1;
                }
                AgentConfigAction::Updated
            },
            AgentConfigFocus::Tools => if st.has_settings {
                AgentConfigAction::ToolCursorDown
            } else {
                AgentConfigAction::Ignore
            },
        },
        Key::Char(c) => if c == ' ' {
            if st.focus == AgentConfigFocus::Tools && st.has_settings {
                AgentConfigAction::ToggleToolAtCursor
            } else {
                AgentConfigAction::Ignore
            }
        } else if c == 'a' && st.focus == AgentConfigFocus::Tools {
            if st.has_settings {
                AgentConfigAction::ToggleToolGroup
            } else {
                AgentConfigAction::Ignore
            }
        } else if c == 'g' && ctrl {
            st.save_globally = !st.save_globally;
            AgentConfigAction::Updated
        } else if c == 'm' && ctrl {
            if st.has_settings {
                st.is_pm = !st.is_pm;
            }
            AgentConfigAction::Updated
        } else if st.focus == AgentConfigFocus::Agents && !ctrl && !alt && !shift {
            AgentConfigAction::AddFilterChar(c)
        } else {
            AgentConfigAction::Ignore
        },
        Key::Backspace => if st.focus == AgentConfigFocus::Agents {
            AgentConfigAction::BackspaceFilter
        } else {
            AgentConfigAction::Ignore
        },
        Key::Enter => AgentConfigAction::Confirm,
        _ => AgentConfigAction::Ignore,
    }
}

/// Where changed agent settings are saved.
#[derive(Debug, Clone, PartialEq, Eq)]
pub enum ConfigSaveTarget {
    /// For every project.
    Global,
    /// For the project with this address tag.
    Project(String),
    /// Nowhere: project scope was chosen with no project active.
    NoProject,
}

/// Decides where to save: globally when so chosen, else for the active
/// project, if there is one.
pub fn config_save_target(save_globally: bool, active_project: Option<&str>) -> (r: ConfigSaveTarget)
    ensures
        save_globally ==> r == ConfigSaveTarget::Global,
        !save_globally ==> match active_project {
            Some(a) => r matches ConfigSaveTarget::Project(t) && t@ == a@,
            None => r == ConfigSaveTarget::NoProject,
        },
{
    if save_globally {
        ConfigSaveTarget::Global
    } else {
        match active_project {
            Some(a) => ConfigSaveTarget::Project(String::from_str(a)),
            None => ConfigSaveTarget::NoProject,
        }
    }
}

/// The tags saved with the settings: `pm` for a project manager, else
/// none.
pub fn config_tags(is_pm: bool) -> (r: Vec<String>)
    ensures
        is_pm ==> r@.len() == 1 && r@[0]@ == "pm"@,
        !is_pm ==> r@.len() == 0,
{
    let mut r: Vec<String> = Vec::new();
    if is_pm {
        r.push(String::from_str("pm"));
    }
    r
}

/// The status after saving agent settings was attempted; none when not
/// connected to the backend (nothing was sent).
pub fn config_saved_status(target: &ConfigSaveTarget, connected: bool, error: Option<&str>) -> (r:
    Option<String>)
    ensures
        match target {
            ConfigSaveTarget::NoProject => r matches Some(m) && m@
                == "No active project \u{2014} toggle 'g' for global"@,
            ConfigSaveTarget::Global => if !connected {
                r is None
            } else {
                r matches Some(m) && m@ == match error {
                    Some(e) => "Failed to save global config: "@ + e@,
                    None => "Agent config saved globally"@,
                }
            },
            ConfigSaveTarget::Project(_) => if !connected {
                r is None
            } else {
                r matches Some(m) && m@ == match error {
                    Some(e) => "Failed to save config: "@ + e@,
                    None => "Agent config saved for project"@,
                }
            },
        },
{
    match target {
        ConfigSaveTarget::NoProject => Some(
            String::from_str("No active project \u{2014} toggle 'g' for global"),
        ),
        ConfigSaveTarget::Global => if !connected {
            None
        } else {
            match error {
                Some(e) => {
                    let mut m = String::from_str("Failed to save global config: ");
                    m.append(e);
                    Some(m)
                },
                None => Some(String::from_str("Agent config saved globally")),
            }
        },
        ConfigSaveTarget::Project(_) => if !connected {
            None
        } else {
            match error {
                Some(e) => {
                    let mut m = String::from_str("Failed to save config: ");
                    m.append(e);
                    Some(m)
                },
                None => Some(String::from_str("Agent config saved for project")),
            }
        },
    }
}

/// Whether an agent is removed from one project or from all.
#[derive(Debug, Clone, Copy, PartialEq, Eq, Structural)]
pub enum DeletionScope {
    Project,
    Global,
}

/// What a key does in the agent deletion confirmation.
#[derive(Debug, Clone, Copy, PartialEq, Eq, Structural)]
pub enum AgentDeletionStep {
    Close,
    /// Switch between Cancel and Delete.
    ToggleAction,
    /// Switch between project and global scope.
    ToggleScope,
    /// Publish the deletion, then close.
    Delete,
    Ignore,
}

/// Handles a key in the agent deletion confirmation, where row 1 is
/// Delete.
pub fn handle_agent_deletion_key(key: Key, selected_index: usize) -> (r: AgentDeletionStep)
    ensures
        r == match key {
            Key::Esc => AgentDeletionStep::Close,
            Key::Up => AgentDeletionStep::ToggleAction,
            Key::Down => AgentDeletionStep::ToggleAction,
            Key::Tab => AgentDeletionStep::ToggleScope,
            Key::Enter => if selected_index == 1 {
                AgentDeletionStep::Delete
            } else {
                AgentDeletionStep::Close
            },
            _ => AgentDeletionStep::Ignore,
        },
{
    match key {
        Key::Esc => AgentDeletionStep::Close,
        Key::Up | Key::Down => AgentDeletionStep::ToggleAction,
        Key::Tab => AgentDeletionStep::ToggleScope,
        Key::Enter => if selected_index == 1 {
            AgentDeletionStep::Delete
        } else {
            AgentDeletionStep::Close
        },
        _ => AgentDeletionStep::Ignore,
    }
}

/// The project a deletion names: the project's address tag for project
/// scope, none for global scope.
pub fn deletion_project(scope: DeletionScope, project_a_tag: &str) -> (r: Option<String>)
    ensures
        match scope {
            DeletionScope::Project => r matches Some(t) && t@ == project_a_tag@,
            DeletionScope::Global => r is None,
        },
{
    match scope {
        DeletionScope::Project => Some(String::from_str(project_a_tag)),
        DeletionScope::Global => None,
    }
}

/// The status after publishing an agent deletion was attempted.
pub fn agent_deletion_status(name: &str, scope: DeletionScope, connected: bool, error: Option<&str>) -> (r:
    String)
    ensures
        r@ == if !connected {
            "Error: Not connected to relays"@
        } else {
            match error {
                Some(e) => "Failed to publish agent deletion: "@ + e@,
                None => "Agent '"@ + name@ + "' deletion event published ("@ + match scope {
                    DeletionScope::Project => "project"@,
                    DeletionScope::Global => "global"@,
                } + ")"@,
            }
        },
{
    if !connected {
        return String::from_str("Error: Not connected to relays");
    }
    match error {
        Some(e) => {
            let mut m = String::from_str("Failed to publish agent deletion: ");
            m.append(e);
            m
        },
        None => {
            let mut m = String::from_str("Agent '");
            m.append(name);
            m.append("' deletion event published (");
            match scope {
                DeletionScope::Project => m.append("project"),
                DeletionScope::Global => m.append("global"),
            }
            m.append(")");
            m
        },
    }
}

/// The pane of the agent settings modal with focus.
#[derive(Debug, Clone, Copy, PartialEq, Eq, Structural)]
pub enum AgentSettingsFocus {
    Model,
    Tools,
}

/// What a key in the agent settings modal asks of the application.
#[derive(Debug, Clone, Copy, PartialEq, Eq, Structural)]
pub enum AgentSettingsAction {
    Close,
    SetFocus(AgentSettingsFocus),
    /// Select the model at this row.
    SelectModel(usize),
    ToolCursorUp,
    ToolCursorDown,
    ToggleToolAtCursor,
    ToggleToolGroup,
    /// Send the selected model and tools, then close.
    SaveAndClose,
    Nothing,
}

/// What a key does in the agent settings modal: Escape closes, Tab
/// switches between the model list and the tool list, Up and Down move in
/// the pane with focus (the model row stays within the `model_count`
/// models), Space and `a` toggle a tool or a tool group, Enter saves.
pub open spec fn agent_settings_action(
    focus: AgentSettingsFocus,
    model_index: usize,
    model_count: usize,
    key: Key,
) -> AgentSettingsAction {
    let tools = focus == AgentSettingsFocus::Tools;
    match key {
        Key::Esc => AgentSettingsAction::Close,
        Key::Tab => AgentSettingsAction::SetFocus(
            if tools {
                AgentSettingsFocus::Model
            } else {
                AgentSettingsFocus::Tools
            },
        ),
        Key::Up => if tools {
            AgentSettingsAction::ToolCursorUp
        } else if model_index > 0 {
            AgentSettingsAction::SelectModel((model_index - 1) as usize)
        } else {
            AgentSettingsAction::Nothing
        },
        Key::Down => if tools {
            AgentSettingsAction::ToolCursorDown
        } else if model_index + 1 < model_count {
            AgentSettingsAction::SelectModel((model_index + 1) as usize)
        } else {
            AgentSettingsAction::Nothing
        },
        Key::Char(' ') => if tools {
            AgentSettingsAction::ToggleToolAtCursor
        } else {
            AgentSettingsAction::Nothing
        },
        Key::Char('a') => if tools {
            AgentSettingsAction::ToggleToolGroup
        } else {
            AgentSettingsAction::Nothing
        },
        Key::Enter => AgentSettingsAction::SaveAndClose,
        _ => AgentSettingsAction::Nothing,
    }
}

/// The agent settings modal's keys.
pub fn handle_agent_settings_modal_key(
    focus: AgentSettingsFocus,
    model_index: usize,
    model_count: usize,
    key: Key,
) -> (r: AgentSettingsAction)
    ensures
        r == agent_settings_action(focus, model_index, model_count, key),
{
    let tools = focus == AgentSettingsFocus::Tools;
    match key {
        Key::Esc => AgentSettingsAction::Close,
        Key::Tab => AgentSettingsAction::SetFocus(
            if tools {
                AgentSettingsFocus::Model
            } else {
                AgentSettingsFocus::Tools
            },
        ),
        Key::Up => if tools {
            AgentSettingsAction::ToolCursorUp
        } else if model_index > 0 {
            AgentSettingsAction::SelectModel(model_index - 1)
        } else {
            AgentSettingsAction::Nothing
        },
        Key::Down => if tools {
            AgentSettingsAction::ToolCursorDown
        } else if model_index < model_count.saturating_sub(1) {
            AgentSettingsAction::SelectModel(model_index + 1)
        } else {
            AgentSettingsAction::Nothing
        },
        Key::Char(' ') => if tools {
            AgentSettingsAction::ToggleToolAtCursor
        } else {
            AgentSettingsAction::Nothing
        },
        Key::Char('a') => if tools {
            AgentSettingsAction::ToggleToolGroup
        } else {
            AgentSettingsAction::Nothing
        },
        Key::Enter => AgentSettingsAction::SaveAndClose,
        _ => AgentSettingsAction::Nothing,
    }
}

/// The status after the agent settings were sent to the backend, or after
/// sending failed with `error`.
pub fn agent_settings_sent_status(error: Option<&str>) -> (r: String)
    ensures
        r@ == match error {
            Some(e) => "Failed to update agent config: "@ + e@,
            None => "Agent config update sent"@,
        },
{
    match error {
        Some(e) => {
            let mut m = String::from_str("Failed to update agent config: ");
            m.append(e);
            m
        },
        None => String::from_str("Agent config update sent"),
    }
}

/// Why the agent settings modal cannot open: no agent or no project is
/// selected (the agent is checked first). `None` when it can open.
pub fn agent_settings_blocker(has_selected_agent: bool, has_selected_project: bool) -> (r: Option<
    &'static str>)
    ensures
        match r {
            Some(m) => if !has_selected_agent {
                m@ == "No agent selected"@
            } else {
                !has_selected_project && m@ == "No project selected"@
            },
            None => has_selected_agent && has_selected_project,
        },
{
    if !has_selected_agent {
        Some("No agent selected")
    } else if !has_selected_project {
        Some("No project selected")
    } else {
        None
    }
}

} // verus!
