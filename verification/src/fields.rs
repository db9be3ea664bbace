//! Text fields of the settings forms: deleting the last character,
//! comma-separated lists, and whole numbers typed as text.

use vstd::prelude::*;
use vstd::string::*;
use crate::seq_facts::lemma_filter_push;
use crate::text::{decimal, digit_char, is_white_space, trim, trim_end_seq, trim_seq, trim_start_seq};

verus! {

/// `s` without its last character, as `String::pop` leaves it.
pub open spec fn without_last(s: Seq<char>) -> Seq<char> {
    if s.len() > 0 {
        s.drop_last()
    } else {
        s
    }
}

/// Deletes the last character of a text field, if it has one.
pub fn pop_last(s: &mut String)
    ensures
        final(s)@ == without_last(old(s)@),
{
    let n = s.as_str().unicode_len();
    if n > 0 {
        let shorter = String::from_str(s.as_str().substring_char(0, n - 1));
        assert(shorter@ =~= old(s)@.drop_last());
        *s = shorter;
    }
}

/// The pieces of `s` between the separators `sep`, as `str::split` gives
/// them: one more piece than separators, empty pieces included.
pub open spec fn split_on(s: Seq<char>, sep: char) -> Seq<Seq<char>>
    decreases s.len(),
{
    if s.len() == 0 {
        seq![Seq::<char>::empty()]
    } else {
        let before = split_on(s.drop_last(), sep);
        if s.last() == sep {
            before.push(Seq::<char>::empty())
        } else {
            before.update(before.len() - 1, before.last().push(s.last()))
        }
    }
}

/// `split_on` never gives an empty list of pieces.
pub proof fn lemma_split_on_nonempty(s: Seq<char>, sep: char)
    ensures
        split_on(s, sep).len() >= 1,
    decreases s.len(),
{
    if s.len() > 0 {
        lemma_split_on_nonempty(s.drop_last(), sep);
    }
}

/// A piece that is not blank.
pub open spec fn not_blank(p: Seq<char>) -> bool {
    p.len() > 0
}

/// The items of a comma-separated list: each piece trimmed of white space,
/// and the pieces that are then empty left out.
pub open spec fn comma_items(s: Seq<char>) -> Seq<Seq<char>> {
    split_on(s, ',').map_values(|p: Seq<char>| trim_seq(p)).filter(|p: Seq<char>| not_blank(p))
}

/// The views of a list of strings.
pub open spec fn string_views(v: Seq<String>) -> Seq<Seq<char>> {
    v.map_values(|s: String| s@)
}

/// The items of a comma-separated field, as
/// `split(',').map(str::trim).filter(|s| !s.is_empty())` collects them.
pub fn comma_list(s: &str) -> (r: Vec<String>)
    ensures
        string_views(r@) == comma_items(s@),
{
    let n = s.unicode_len();
    let mut out: Vec<String> = Vec::new();
    let mut start: usize = 0;
    let mut i: usize = 0;
    let ghost trimf = |p: Seq<char>| trim_seq(p);
    let ghost keep = |p: Seq<char>| not_blank(p);
    proof {
        lemma_split_on_nonempty(s@.subrange(0, 0), ',');
        assert(string_views(out@) =~= split_on(s@.subrange(0, 0), ',').drop_last().map_values(
            trimf,
        ).filter(keep));
    }
    while i < n
        invariant
            n == s@.len(),
            start <= i <= n,
            split_on(s@.subrange(0, i as int), ',').len() >= 1,
            split_on(s@.subrange(0, i as int), ',').last() == s@.subrange(start as int, i as int),
            string_views(out@) == split_on(s@.subrange(0, i as int), ',').drop_last().map_values(
                trimf,
            ).filter(keep),
            trimf == (|p: Seq<char>| trim_seq(p)),
            keep == (|p: Seq<char>| not_blank(p)),
        decreases n - i,
    {
        let c = s.get_char(i);
        let ghost prefix = s@.subrange(0, i as int);
        let ghost pieces = split_on(prefix, ',');
        proof {
            assert(s@.subrange(0, i + 1).drop_last() =~= prefix);
            assert(s@.subrange(0, i + 1).last() == c);
        }
        if c == ',' {
            let piece = trim(s.substring_char(start, i));
            let ghost before_views = string_views(out@);
            if piece.unicode_len() > 0 {
                out.push(String::from_str(piece));
            }
            proof {
                let next = split_on(s@.subrange(0, i + 1), ',');
                assert(next == pieces.push(Seq::<char>::empty()));
                assert(next.drop_last() =~= pieces);
                assert(pieces =~= pieces.drop_last().push(pieces.last()));
                assert(pieces.map_values(trimf) =~= pieces.drop_last().map_values(trimf).push(
                    trimf(pieces.last()),
                ));
                lemma_filter_push(pieces.drop_last().map_values(trimf), keep, trimf(pieces.last()));
                assert(trimf(pieces.last()) == piece@);
                assert(string_views(out@) =~= (if keep(piece@) {
                    before_views.push(piece@)
                } else {
                    before_views
                }));
                assert(next.last() =~= s@.subrange(i + 1, i + 1));
            }
            start = i + 1;
        } else {
            proof {
                let next = split_on(s@.subrange(0, i + 1), ',');
                assert(next == pieces.update(pieces.len() - 1, pieces.last().push(c)));
                assert(next.drop_last() =~= pieces.drop_last());
                assert(next.last() =~= s@.subrange(start as int, i + 1));
            }
        }
        i = i + 1;
    }
    let piece = trim(s.substring_char(start, n));
    let ghost before_views = string_views(out@);
    if piece.unicode_len() > 0 {
        out.push(String::from_str(piece));
    }
    proof {
        let pieces = split_on(s@.subrange(0, n as int), ',');
        assert(s@.subrange(0, n as int) =~= s@);
        assert(pieces =~= pieces.drop_last().push(pieces.last()));
        assert(pieces.map_values(trimf) =~= pieces.drop_last().map_values(trimf).push(
            trimf(pieces.last()),
        ));
        lemma_filter_push(pieces.drop_last().map_values(trimf), keep, trimf(pieces.last()));
        assert(string_views(out@) =~= (if keep(piece@) {
            before_views.push(piece@)
        } else {
            before_views
        }));
    }
    out
}

/// The items with `sep` between them, as `join(sep)` writes them.
pub open spec fn joined(items: Seq<Seq<char>>, sep: Seq<char>) -> Seq<char>
    decreases items.len(),
{
    if items.len() == 0 {
        Seq::<char>::empty()
    } else if items.len() == 1 {
        items[0]
    } else {
        joined(items.drop_last(), sep) + sep + items.last()
    }
}

/// The items joined with `", "` between them.
pub open spec fn join_comma(items: Seq<Seq<char>>) -> Seq<char> {
    joined(items, ", "@)
}

/// The items joined with line feeds between them.
pub open spec fn join_newlines(items: Seq<Seq<char>>) -> Seq<char> {
    joined(items, "\n"@)
}

/// The items with `sep` between them, as `join(sep)` writes them.
pub fn join_strings(items: &Vec<String>, sep: &str) -> (r: String)
    ensures
        r@ == joined(string_views(items@), sep@),
{
    let mut r = String::new();
    let mut i: usize = 0;
    while i < items.len()
        invariant
            i <= items@.len(),
            r@ == joined(string_views(items@.subrange(0, i as int)), sep@),
        decreases items@.len() - i,
    {
        proof {
            let next = string_views(items@.subrange(0, i + 1));
            assert(next.drop_last() =~= string_views(items@.subrange(0, i as int)));
            assert(next.last() == items@[i as int]@);
        }
        if i > 0 {
            r.append(sep);
        }
        r.append(items[i].as_str());
        proof {
            if i == 0 {
                assert(r@ =~= string_views(items@.subrange(0, 1))[0]);
            }
        }
        i = i + 1;
    }
    assert(items@.subrange(0, items@.len() as int) =~= items@);
    r
}

/// The items written back into a comma-separated field.
pub fn join_with_commas(items: &Vec<String>) -> (r: String)
    ensures
        r@ == join_comma(string_views(items@)),
{
    join_strings(items, ", ")
}

/// The items as lines of one text.
pub fn join_with_newlines(items: &Vec<String>) -> (r: String)
    ensures
        r@ == join_newlines(string_views(items@)),
{
    join_strings(items, "\n")
}

/// Splitting at a separator that joins two texts gives the pieces of the
/// first, then the pieces of the second.
proof fn lemma_split_on_at_separator(a: Seq<char>, b: Seq<char>, sep: char)
    ensures
        split_on(a.push(sep) + b, sep) == split_on(a, sep) + split_on(b, sep),
    decreases b.len(),
{
    let s = a.push(sep) + b;
    if b.len() == 0 {
        assert(s =~= a.push(sep));
        assert(a.push(sep).drop_last() =~= a);
        assert(split_on(a, sep).push(Seq::<char>::empty()) =~= split_on(a, sep) + split_on(b, sep));
    } else {
        let b1 = b.drop_last();
        lemma_split_on_at_separator(a, b1, sep);
        lemma_split_on_nonempty(b1, sep);
        assert(s.drop_last() =~= a.push(sep) + b1);
        assert(s.last() == b.last());
        let x = split_on(a, sep);
        let y = split_on(b1, sep);
        if b.last() == sep {
            assert((x + y).push(Seq::<char>::empty()) =~= x + y.push(Seq::<char>::empty()));
        } else {
            assert((x + y).update((x + y).len() - 1, (x + y).last().push(b.last())) =~= x
                + y.update(y.len() - 1, y.last().push(b.last())));
        }
    }
}

/// A text without the separator is a single piece.
proof fn lemma_split_on_without_separator(s: Seq<char>, sep: char)
    requires
        forall|k: int| 0 <= k < s.len() ==> s[k] != sep,
    ensures
        split_on(s, sep) == seq![s],
    decreases s.len(),
{
    if s.len() == 0 {
        assert(s =~= Seq::<char>::empty());
    } else {
        lemma_split_on_without_separator(s.drop_last(), sep);
        assert(s.drop_last().push(s.last()) =~= s);
        assert(seq![s.drop_last()].update(0, s.drop_last().push(s.last())) =~= seq![s]);
    }
}

/// The pieces that splitting a `", "`-joined list at its commas gives:
/// the first item, then each other item after a space.
pub open spec fn comma_pieces(items: Seq<Seq<char>>) -> Seq<Seq<char>> {
    Seq::new(
        items.len(),
        |i: int|
            if i == 0 {
                items[0]
            } else {
                seq![' '] + items[i]
            },
    )
}

/// A text that holds no comma.
pub open spec fn comma_free(x: Seq<char>) -> bool {
    forall|k: int| 0 <= k < x.len() ==> x[k] != ','
}

proof fn lemma_split_joined(items: Seq<Seq<char>>)
    requires
        items.len() >= 1,
        forall|i: int| 0 <= i < items.len() ==> comma_free(#[trigger] items[i]),
    ensures
        split_on(join_comma(items), ',') == comma_pieces(items),
    decreases items.len(),
{
    if items.len() == 1 {
        lemma_split_on_without_separator(items[0], ',');
        assert(comma_pieces(items) =~= seq![items[0]]);
    } else {
        let d = items.drop_last();
        let last = items.last();
        assert(comma_free(items[items.len() - 1]));
        assert forall|i: int| 0 <= i < d.len() implies comma_free(#[trigger] d[i]) by {
            assert(comma_free(items[i]));
        }
        lemma_split_joined(d);
        reveal_strlit(", ");
        let tail = seq![' '] + last;
        assert(join_comma(items) =~= joined(d, ", "@).push(',') + tail);
        lemma_split_on_at_separator(joined(d, ", "@), tail, ',');
        assert forall|k: int| 0 <= k < tail.len() implies tail[k] != ',' by {
            if k > 0 {
                assert(tail[k] == last[k - 1]);
            }
        }
        lemma_split_on_without_separator(tail, ',');
        assert(comma_pieces(items) =~= comma_pieces(d) + seq![tail]);
    }
}

proof fn lemma_trim_after_space(x: Seq<char>)
    requires
        trim_seq(x) == x,
    ensures
        trim_seq(seq![' '] + x) == x,
{
    let s = seq![' '] + x;
    assert(is_white_space(s[0]));
    assert(s.drop_first() =~= x);
    assert(trim_start_seq(s) == trim_start_seq(x));
}

/// A list written back with `", "` and read again as a comma-separated
/// field gives the same items, when each item is non-empty, holds no
/// comma, and has no white space at either end (as read items are).
pub proof fn lemma_comma_list_round_trip(items: Seq<Seq<char>>)
    requires
        forall|i: int|
            0 <= i < items.len() ==> {
                &&& not_blank(#[trigger] items[i])
                &&& comma_free(items[i])
                &&& trim_seq(items[i]) == items[i]
            },
    ensures
        comma_items(join_comma(items)) == items,
{
    let trimf = |p: Seq<char>| trim_seq(p);
    let keep = |p: Seq<char>| not_blank(p);
    if items.len() == 0 {
        let e = Seq::<char>::empty();
        assert(join_comma(items) =~= e);
        assert(trim_start_seq(e) == e);
        assert(trim_end_seq(e) == e);
        let mapped = split_on(e, ',').map_values(trimf);
        assert(mapped =~= seq![e]);
        crate::seq_facts::lemma_filter_none(mapped, keep);
        assert(comma_items(join_comma(items)) == mapped.filter(keep));
    } else {
        assert forall|i: int| 0 <= i < items.len() implies comma_free(#[trigger] items[i]) by {
            assert(not_blank(items[i]));
        }
        lemma_split_joined(items);
        let mapped = comma_pieces(items).map_values(trimf);
        assert forall|i: int| 0 <= i < items.len() implies #[trigger] mapped[i] == items[i] by {
            assert(not_blank(items[i]));
            if i > 0 {
                lemma_trim_after_space(items[i]);
            }
        }
        assert(mapped =~= items);
        assert forall|k: int| 0 <= k < mapped.len() implies keep(#[trigger] mapped[k]) by {
            assert(not_blank(items[k]));
        }
        crate::seq_facts::lemma_filter_all(mapped, keep);
        assert(comma_items(join_comma(items)) == mapped.filter(keep));
    }
}

/// A character is an ASCII decimal digit.
pub open spec fn is_digit(c: char) -> bool {
    '0' <= c && c <= '9'
}

/// The value of a decimal digit.
pub open spec fn digit_value(c: char) -> nat {
    (c as int - '0' as int) as nat
}

/// The value of a run of decimal digits.
pub open spec fn digits_value(s: Seq<char>) -> nat
    decreases s.len(),
{
    if s.len() == 0 {
        0
    } else {
        digits_value(s.drop_last()) * 10 + digit_value(s.last())
    }
}

/// The digits of an unsigned number, after an optional leading `+`.
pub open spec fn unsigned_digits(s: Seq<char>) -> Seq<char> {
    if s.len() > 0 && s[0] == '+' {
        s.drop_first()
    } else {
        s
    }
}

/// The number `s` denotes, as `str::parse::<u64>` reads it: an optional `+`
/// and at least one ASCII digit, nothing else, and no more than `u64::MAX`.
pub open spec fn parsed_u64(s: Seq<char>) -> Option<u64> {
    let d = unsigned_digits(s);
    if d.len() > 0 && (forall|k: int| 0 <= k < d.len() ==> is_digit(#[trigger] d[k]))
        && digits_value(d) <= u64::MAX {
        Some(digits_value(d) as u64)
    } else {
        None
    }
}

/// Appending digits never makes a value smaller.
proof fn lemma_digits_value_grows(s: Seq<char>, i: int)
    requires
        0 <= i <= s.len(),
    ensures
        digits_value(s.subrange(0, i)) <= digits_value(s),
    decreases s.len() - i,
{
    if i < s.len() {
        lemma_digits_value_grows(s, i + 1);
        let t = s.subrange(0, i + 1);
        assert(t.drop_last() =~= s.subrange(0, i));
    } else {
        assert(s.subrange(0, i) =~= s);
    }
}

/// Reads a whole number as `str::parse::<u64>` does: `None` where that
/// returns an error.
pub fn parse_u64(s: &str) -> (r: Option<u64>)
    ensures
        r == parsed_u64(s@),
{
    let n = s.unicode_len();
    let start: usize = if n > 0 && s.get_char(0) == '+' {
        1
    } else {
        0
    };
    let ghost d = unsigned_digits(s@);
    proof {
        assert(d =~= s@.subrange(start as int, n as int));
    }
    if start == n {
        return None;
    }
    let mut acc: u64 = 0;
    let mut i: usize = start;
    while i < n
        invariant
            n == s@.len(),
            start <= i <= n,
            start < n,
            d == s@.subrange(start as int, n as int),
            d == unsigned_digits(s@),
            forall|k: int| start <= k < i ==> is_digit(#[trigger] s@[k]),
            acc == digits_value(s@.subrange(start as int, i as int)),
        decreases n - i,
    {
        let c = s.get_char(i);
        let ghost p = s@.subrange(start as int, i + 1);
        proof {
            assert(p.drop_last() =~= s@.subrange(start as int, i as int));
            assert(p.last() == c);
        }
        if !('0' <= c && c <= '9') {
            proof {
                assert(d[i - start] == c);
                assert(!is_digit(d[i - start]));
            }
            return None;
        }
        let digit: u64 = (c as u32 - '0' as u32) as u64;
        assert(digit == digit_value(c));
        match acc.checked_mul(10) {
            Some(m) => match m.checked_add(digit) {
                Some(v) => {
                    acc = v;
                },
                None => {
                    proof {
                        assert(digits_value(p) == acc * 10 + digit);
                        assert(digits_value(p) > u64::MAX);
                        lemma_digits_value_grows(d, i + 1 - start);
                        assert(d.subrange(0, i + 1 - start) =~= p);
                        assert(digits_value(d) > u64::MAX);
                    }
                    return None;
                },
            },
            None => {
                proof {
                    lemma_digits_value_grows(d, i + 1 - start);
                    assert(d.subrange(0, i + 1 - start) =~= p);
                }
                return None;
            },
        }
        i = i + 1;
    }
    proof {
        assert(s@.subrange(start as int, n as int) =~= d);
        assert forall|k: int| 0 <= k < d.len() implies is_digit(#[trigger] d[k]) by {
            assert(d[k] == s@[k + start]);
        }
    }
    Some(acc)
}

/// The number of lines of a text, as `str::lines().count()` gives it: one
/// for each character that begins a line, that is, the first character
/// and each one after a line feed.
pub open spec fn line_count(s: Seq<char>) -> nat
    decreases s.len(),
{
    if s.len() == 0 {
        0
    } else {
        line_count(s.drop_last()) + if s.len() == 1 || s[s.len() - 2] == '\n' {
            1nat
        } else {
            0nat
        }
    }
}

/// The number of lines of a text, as `str::lines().count()` gives it.
pub fn count_lines(s: &str) -> (r: usize)
    ensures
        r == line_count(s@),
{
    let n = s.unicode_len();
    let mut count: usize = 0;
    let mut i: usize = 0;
    while i < n
        invariant
            n == s@.len(),
            i <= n,
            count == line_count(s@.subrange(0, i as int)),
            count <= i,
        decreases n - i,
    {
        let ghost p = s@.subrange(0, i + 1);
        proof {
            assert(p.drop_last() =~= s@.subrange(0, i as int));
        }
        if i == 0 || s.get_char(i - 1) == '\n' {
            count = count + 1;
        }
        i = i + 1;
    }
    proof {
        assert(s@.subrange(0, n as int) =~= s@);
    }
    count
}

/// A decimal digit's character reads back as the digit.
proof fn lemma_digit_char_value(d: nat)
    requires
        d < 10,
    ensures
        is_digit(digit_char(d)),
        digit_value(digit_char(d)) == d,
{
    assert('0' as int == 48);
    assert('9' as int == 57);
    if d == 0 {
        assert('0' as int - '0' as int == 0);
    } else if d == 1 {
        assert('1' as int == 49);
    } else if d == 2 {
        assert('2' as int == 50);
    } else if d == 3 {
        assert('3' as int == 51);
    } else if d == 4 {
        assert('4' as int == 52);
    } else if d == 5 {
        assert('5' as int == 53);
    } else if d == 6 {
        assert('6' as int == 54);
    } else if d == 7 {
        assert('7' as int == 55);
    } else if d == 8 {
        assert('8' as int == 56);
    }
}

/// The digits of a number read back as that number.
proof fn lemma_decimal_digits(n: nat)
    ensures
        decimal(n).len() > 0,
        forall|k: int| 0 <= k < decimal(n).len() ==> is_digit(#[trigger] decimal(n)[k]),
        digits_value(decimal(n)) == n,
    decreases n,
{
    lemma_digit_char_value(n % 10);
    if n < 10 {
        let s = decimal(n);
        assert(s.drop_last() =~= Seq::<char>::empty());
        assert(s.last() == digit_char(n));
        assert(digits_value(s) == digits_value(s.drop_last()) * 10 + digit_value(s.last()));
        assert(n % 10 == n);
    } else {
        lemma_decimal_digits(n / 10);
        let s = decimal(n);
        let p = decimal(n / 10);
        assert(s.drop_last() =~= p);
        assert(s.last() == digit_char(n % 10));
        assert(digits_value(s) == digits_value(p) * 10 + digit_value(digit_char(n % 10)));
        assert(n == (n / 10) * 10 + n % 10);
        assert forall|k: int| 0 <= k < s.len() implies is_digit(#[trigger] s[k]) by {
            if k < p.len() {
                assert(s[k] == p[k]);
            }
        }
    }
}

/// A number written in decimal reads back as the same number: what a
/// settings field shows of a stored whole number parses to that number.
pub proof fn lemma_parse_written_number(n: u64)
    ensures
        parsed_u64(decimal(n as nat)) == Some(n),
{
    lemma_decimal_digits(n as nat);
    let s = decimal(n as nat);
    assert(is_digit(s[0]));
    assert(unsigned_digits(s) == s);
}

} // verus!
