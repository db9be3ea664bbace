//! Pasting images: the PNG encoding of clipboard pixels, and pasted text
//! that names an image file (percent-decoding of `file://` URLs, unescaping
//! of drag-and-drop paths, the MIME type of an image extension). Reading
//! the clipboard and the file is left to the application.

use vstd::prelude::*;
use vstd::string::*;
use crate::text::{push_char, trim, trim_seq, starts_with};
use crate::nudges::{lowercase, to_lowercase};

verus! {

/// The value of a hexadecimal digit, in either case.
pub open spec fn hex_digit_value(c: char) -> Option<u8> {
    if '0' <= c && c <= '9' {
        Some(((c as int) - ('0' as int)) as u8)
    } else if 'a' <= c && c <= 'f' {
        Some(((c as int) - ('a' as int) + 10) as u8)
    } else if 'A' <= c && c <= 'F' {
        Some(((c as int) - ('A' as int) + 10) as u8)
    } else {
        None
    }
}

/// What `u8::from_str_radix(h, 16)` gives for a string of at most two
/// characters: an optional leading `+`, then one or two hex digits.
pub open spec fn parse_hex_byte(h: Seq<char>) -> Option<u8> {
    if h.len() == 0 {
        None
    } else if h.len() == 1 {
        hex_digit_value(h[0])
    } else if h[0] == '+' {
        hex_digit_value(h[1])
    } else {
        match (hex_digit_value(h[0]), hex_digit_value(h[1])) {
            (Some(a), Some(b)) => Some((a * 16 + b) as u8),
            _ => None,
        }
    }
}

/// The number of characters read after a `%` at the start of `s`: up to two.
pub open spec fn escape_len(s: Seq<char>) -> int {
    if s.len() >= 3 {
        2
    } else {
        s.len() - 1
    }
}

/// Percent-decoding of a file path: each `%` and the (up to two) characters
/// after it become the byte they spell in hex, read as a character; when
/// they spell no byte, they are kept as they are.
pub open spec fn url_decoded(s: Seq<char>) -> Seq<char>
    decreases s.len(),
{
    if s.len() == 0 {
        seq![]
    } else if s[0] == '%' {
        let n = escape_len(s);
        let h = s.subrange(1, 1 + n);
        let rest = s.subrange(1 + n, s.len() as int);
        match parse_hex_byte(h) {
            Some(b) => seq![b as char] + url_decoded(rest),
            None => seq!['%'] + h + url_decoded(rest),
        }
    } else {
        seq![s[0]] + url_decoded(s.drop_first())
    }
}

/// `s` with every `\ ` (a backslash-escaped space) replaced by a space.
pub open spec fn unescaped_spaces(s: Seq<char>) -> Seq<char>
    decreases s.len(),
{
    if s.len() == 0 {
        seq![]
    } else if s.len() >= 2 && s[0] == '\\' && s[1] == ' ' {
        seq![' '] + unescaped_spaces(s.subrange(2, s.len() as int))
    } else {
        seq![s[0]] + unescaped_spaces(s.drop_first())
    }
}

/// The file path that pasted text names: none for blank text; the decoded
/// remainder of a `file://` URL; otherwise the trimmed text with escaped
/// spaces unescaped.
pub open spec fn pasted_path(text: Seq<char>) -> Option<Seq<char>> {
    let t = trim_seq(text);
    if t.len() == 0 {
        None
    } else if "file://"@.is_prefix_of(t) {
        Some(url_decoded(t.subrange(7, t.len() as int)))
    } else {
        Some(unescaped_spaces(t))
    }
}

/// The MIME type of a lower-case image file extension.
pub open spec fn image_mime(ext: Seq<char>) -> Option<Seq<char>> {
    if ext == "png"@ {
        Some("image/png"@)
    } else if ext == "jpg"@ || ext == "jpeg"@ {
        Some("image/jpeg"@)
    } else if ext == "gif"@ {
        Some("image/gif"@)
    } else if ext == "webp"@ {
        Some("image/webp"@)
    } else if ext == "bmp"@ {
        Some("image/bmp"@)
    } else {
        None
    }
}

fn hex_digit(c: char) -> (r: Option<u8>)
    ensures
        r == hex_digit_value(c),
{
    if '0' <= c && c <= '9' {
        Some(((c as u32) - ('0' as u32)) as u8)
    } else if 'a' <= c && c <= 'f' {
        Some(((c as u32) - ('a' as u32) + 10) as u8)
    } else if 'A' <= c && c <= 'F' {
        Some(((c as u32) - ('A' as u32) + 10) as u8)
    } else {
        None
    }
}

/// Parses up to two characters as `u8::from_str_radix(.., 16)` does.
fn hex_byte(h: &str) -> (r: Option<u8>)
    requires
        h@.len() <= 2,
    ensures
        r == parse_hex_byte(h@),
{
    let n = h.unicode_len();
    if n == 0 {
        None
    } else if n == 1 {
        hex_digit(h.get_char(0))
    } else if h.get_char(0) == '+' {
        hex_digit(h.get_char(1))
    } else {
        match (hex_digit(h.get_char(0)), hex_digit(h.get_char(1))) {
            (Some(a), Some(b)) => Some(a * 16 + b),
            _ => None,
        }
    }
}

proof fn lemma_url_decoded_step(s: Seq<char>, i: int, step: int)
    requires
        0 <= i < s.len(),
        step == (if s[i] == '%' {
            1 + escape_len(s.subrange(i, s.len() as int))
        } else {
            1
        }),
    ensures
        i + step <= s.len(),
        url_decoded(s.subrange(i, s.len() as int)) == (if s[i] == '%' {
            let h = s.subrange(i + 1, i + step);
            match parse_hex_byte(h) {
                Some(b) => seq![b as char],
                None => seq!['%'] + h,
            }
        } else {
            seq![s[i]]
        }) + url_decoded(s.subrange(i + step, s.len() as int)),
{
    let t = s.subrange(i, s.len() as int);
    assert(t[0] == s[i]);
    if s[i] == '%' {
        let n = escape_len(t);
        assert(t.subrange(1, 1 + n) =~= s.subrange(i + 1, i + step));
        assert(t.subrange(1 + n, t.len() as int) =~= s.subrange(i + step, s.len() as int));
    } else {
        assert(t.drop_first() =~= s.subrange(i + 1, s.len() as int));
    }
}

/// Simple URL decoding for file paths: `%XX` escapes become the byte they
/// spell; an escape that spells no byte is kept as written.
pub fn urlencoded_decode(s: &str) -> (r: String)
    ensures
        r@ == url_decoded(s@),
{
    let n = s.unicode_len();
    let mut result = String::new();
    let mut i: usize = 0;
    proof {
        assert(s@.subrange(0, n as int) =~= s@);
    }
    while i < n
        invariant
            n == s@.len(),
            i <= n,
            result@ + url_decoded(s@.subrange(i as int, n as int)) == url_decoded(s@),
        decreases n - i,
    {
        let c = s.get_char(i);
        if c == '%' {
            let avail = n - i - 1;
            let take = if avail >= 2 {
                2
            } else {
                avail
            };
            let hex = s.substring_char(i + 1, i + 1 + take);
            proof {
                assert(escape_len(s@.subrange(i as int, n as int)) == take);
                lemma_url_decoded_step(s@, i as int, 1 + take);
            }
            let ghost before = result@;
            match hex_byte(hex) {
                Some(byte) => {
                    push_char(&mut result, byte as char);
                },
                None => {
                    push_char(&mut result, '%');
                    result.append(hex);
                },
            }
            proof {
                let piece = match parse_hex_byte(hex@) {
                    Some(b) => seq![b as char],
                    None => seq!['%'] + hex@,
                };
                assert(result@ =~= before + piece);
                assert(url_decoded(s@.subrange(i as int, n as int)) == piece + url_decoded(
                    s@.subrange(i + 1 + take, n as int),
                ));
                assert(before + (piece + url_decoded(s@.subrange(i + 1 + take, n as int))) =~= (
                before + piece) + url_decoded(s@.subrange(i + 1 + take, n as int)));
            }
            i = i + 1 + take;
        } else {
            let ghost before = result@;
            push_char(&mut result, c);
            proof {
                lemma_url_decoded_step(s@, i as int, 1);
                assert(url_decoded(s@.subrange(i as int, n as int)) == seq![c] + url_decoded(
                    s@.subrange(i + 1, n as int),
                ));
                assert(before + (seq![c] + url_decoded(s@.subrange(i + 1, n as int))) =~= before.push(
                    c,
                ) + url_decoded(s@.subrange(i + 1, n as int)));
            }
            i = i + 1;
        }
    }
    proof {
        assert(s@.subrange(n as int, n as int) =~= Seq::<char>::empty());
        assert(result@ + Seq::<char>::empty() =~= result@);
    }
    result
}

/// Replaces every backslash-escaped space (`\ `) with a space.
pub fn unescape_spaces(s: &str) -> (r: String)
    ensures
        r@ == unescaped_spaces(s@),
{
    let n = s.unicode_len();
    let mut result = String::new();
    let mut i: usize = 0;
    proof {
        assert(s@.subrange(0, n as int) =~= s@);
    }
    while i < n
        invariant
            n == s@.len(),
            i <= n,
            result@ + unescaped_spaces(s@.subrange(i as int, n as int)) == unescaped_spaces(s@),
        decreases n - i,
    {
        let ghost before = result@;
        let ghost t = s@.subrange(i as int, n as int);
        let c = s.get_char(i);
        if c == '\\' && i + 1 < n && s.get_char(i + 1) == ' ' {
            push_char(&mut result, ' ');
            proof {
                assert(t[0] == '\\' && t[1] == ' ');
                assert(t.subrange(2, t.len() as int) =~= s@.subrange(i + 2, n as int));
                assert(before + (seq![' '] + unescaped_spaces(s@.subrange(i + 2, n as int))) =~= before.push(
                    ' ',
                ) + unescaped_spaces(s@.subrange(i + 2, n as int)));
            }
            i = i + 2;
        } else {
            push_char(&mut result, c);
            proof {
                assert(t[0] == c);
                if t.len() >= 2 {
                    assert(t[1] == s@[i + 1]);
                }
                assert(t.drop_first() =~= s@.subrange(i + 1, n as int));
                assert(before + (seq![c] + unescaped_spaces(s@.subrange(i + 1, n as int))) =~= before.push(
                    c,
                ) + unescaped_spaces(s@.subrange(i + 1, n as int)));
            }
            i = i + 1;
        }
    }
    proof {
        assert(s@.subrange(n as int, n as int) =~= Seq::<char>::empty());
        assert(result@ + Seq::<char>::empty() =~= result@);
    }
    result
}

/// The file path that pasted text names, or `None` for blank text: the
/// text is trimmed; a `file://` URL is percent-decoded, any other text has
/// its backslash-escaped spaces unescaped.
pub fn pasted_file_path(text: &str) -> (r: Option<String>)
    ensures
        match r {
            Some(p) => pasted_path(text@) == Some(p@),
            None => pasted_path(text@) is None,
        },
{
    let path = trim(text);
    let n = path.unicode_len();
    if n == 0 {
        return None;
    }
    if starts_with(path, "file://") {
        proof {
            reveal_strlit("file://");
        }
        let rest = path.substring_char(7, n);
        Some(urlencoded_decode(rest))
    } else {
        Some(unescape_spaces(path))
    }
}

/// The MIME type of a lower-case image file extension; `None` for a file
/// that is not a supported image.
pub fn image_mime_type(ext: &str) -> (r: Option<&'static str>)
    ensures
        match r {
            Some(m) => image_mime(ext@) == Some(m@),
            None => image_mime(ext@) is None,
        },
{
    if crate::text::str_eq(ext, "png") {
        Some("image/png")
    } else if crate::text::str_eq(ext, "jpg") || crate::text::str_eq(ext, "jpeg") {
        Some("image/jpeg")
    } else if crate::text::str_eq(ext, "gif") {
        Some("image/gif")
    } else if crate::text::str_eq(ext, "webp") {
        Some("image/webp")
    } else if crate::text::str_eq(ext, "bmp") {
        Some("image/bmp")
    } else {
        None
    }
}

/// A path without `%` decodes to itself.
pub proof fn lemma_decode_without_escapes(s: Seq<char>)
    requires
        forall|i: int| 0 <= i < s.len() ==> s[i] != '%',
    ensures
        url_decoded(s) == s,
    decreases s.len(),
{
    if s.len() > 0 {
        lemma_decode_without_escapes(s.drop_first());
        assert(seq![s[0]] + s.drop_first() =~= s);
    }
}

/// Decoding never makes a path longer.
pub proof fn lemma_decode_never_lengthens(s: Seq<char>)
    ensures
        url_decoded(s).len() <= s.len(),
    decreases s.len(),
{
    if s.len() > 0 {
        if s[0] == '%' {
            let n = escape_len(s);
            lemma_decode_never_lengthens(s.subrange(1 + n, s.len() as int));
        } else {
            lemma_decode_never_lengthens(s.drop_first());
        }
    }
}

/// The upper-case hex digit of a value below 16.
pub open spec fn hex_upper(d: int) -> char {
    if d < 10 {
        (d + 48) as char
    } else {
        (d + 55) as char
    }
}

/// Each character written as `%` and the two upper-case hex digits of its
/// code, as a `file://` URL escapes the bytes of an ASCII path.
pub open spec fn percent_encoded(s: Seq<char>) -> Seq<char>
    decreases s.len(),
{
    if s.len() == 0 {
        seq![]
    } else {
        seq!['%', hex_upper((s[0] as int) / 16), hex_upper((s[0] as int) % 16)] + percent_encoded(
            s.drop_first(),
        )
    }
}

proof fn lemma_hex_upper_value(d: int)
    requires
        0 <= d < 16,
    ensures
        hex_digit_value(hex_upper(d)) == Some(d as u8),
        hex_upper(d) != '+',
{
}

/// Decoding undoes percent-encoding of an ASCII path: every character
/// written as `%XY` reads back as itself.
pub proof fn lemma_decode_percent_encoded_ascii(s: Seq<char>)
    requires
        forall|i: int| #![trigger s[i]] 0 <= i < s.len() ==> 0 <= (s[i] as int) < 128,
    ensures
        url_decoded(percent_encoded(s)) == s,
    decreases s.len(),
{
    if s.len() > 0 {
        let c = s[0];
        let v = c as int;
        assert(0 <= (s[0] as int) < 128);
        assert((v / 16) * 16 + v % 16 == v) by (nonlinear_arith);
        let e = percent_encoded(s);
        let tail = s.drop_first();
        assert forall|i: int| #![trigger tail[i]] 0 <= i < tail.len() implies 0 <= (tail[i] as int) < 128 by {
            assert(tail[i] == s[i + 1]);
        }
        lemma_decode_percent_encoded_ascii(tail);
        lemma_hex_upper_value(v / 16);
        lemma_hex_upper_value(v % 16);
        assert(e[0] == '%');
        assert(escape_len(e) == 2);
        let h = e.subrange(1, 3);
        assert(h =~= seq![hex_upper(v / 16), hex_upper(v % 16)]);
        assert(e.subrange(3, e.len() as int) =~= percent_encoded(tail));
        assert(h.len() == 2 && h[0] != '+');
        assert(parse_hex_byte(h) == Some(v as u8));
        assert((v as u8) as char == c);
        assert(seq![c] + tail =~= s);
    }
}

/// A path without backslashes is left as it is.
pub proof fn lemma_unescape_without_backslashes(s: Seq<char>)
    requires
        forall|i: int| 0 <= i < s.len() ==> s[i] != '\\',
    ensures
        unescaped_spaces(s) == s,
    decreases s.len(),
{
    if s.len() > 0 {
        lemma_unescape_without_backslashes(s.drop_first());
        assert(seq![s[0]] + s.drop_first() =~= s);
    }
}

/// The MIME type of an image file's extension in any case: the extension
/// is lower-cased first.
pub fn pasted_image_mime(ext: &str) -> (r: Option<&'static str>)
    ensures
        match r {
            Some(m) => image_mime(lowercase(ext@)) == Some(m@),
            None => image_mime(lowercase(ext@)) is None,
        },
{
    let lower = to_lowercase(ext);
    image_mime_type(lower.as_str())
}

/// The PNG file that the png encoder writes for an image of `width` by
/// `height` pixels given as 8-bit RGBA bytes, row by row; `None` when the
/// encoder refuses the image (a zero size, or bytes that do not fill it).
pub uninterp spec fn png_rgba8(width: u32, height: u32, rgba: Seq<u8>) -> Option<Seq<u8>>;

/// Calls the png crate's `Encoder::new` (with RGBA colour and 8-bit depth),
/// `Encoder::write_header` and `Writer::write_image_data`, writing into
/// memory. Claimed: it succeeds exactly when `png_rgba8` gives a file, and
/// then returns that file; both depend on the arguments alone. Its error
/// text is the encoder's error as it displays; nothing is said of it.
#[verifier::external_body]
fn encode_rgba_png(width: u32, height: u32, rgba: &[u8]) -> (r: Result<Vec<u8>, String>)
    ensures
        match r {
            Ok(d) => png_rgba8(width, height, rgba@) == Some(d@),
            Err(_) => png_rgba8(width, height, rgba@) is None,
        },
{
    let mut png_data: Vec<u8> = Vec::new();
    let mut encoder = png::Encoder::new(std::io::Cursor::new(&mut png_data), width, height);
    encoder.set_color(png::ColorType::Rgba);
    encoder.set_depth(png::BitDepth::Eight);
    let written = match encoder.write_header() {
        Ok(mut writer) => writer.write_image_data(rgba),
        Err(e) => Err(e),
    };
    match written {
        Ok(()) => Ok(png_data),
        Err(e) => Err(format!("{}", e)),
    }
}

/// An image ready for upload, with its MIME type.
pub struct ImageUpload {
    pub data: Vec<u8>,
    pub mime_type: String,
}

/// The upload for an image on the clipboard: its pixels (`width` by
/// `height`, 8-bit RGBA, as the clipboard gives them) encoded as PNG, with
/// the MIME type `image/png`. The sizes are cut to 32 bits, as the encoder
/// takes them. When the encoder refuses the image, the status line to show
/// begins with "Failed to convert image: ", followed by the encoder's error.
pub fn clipboard_image_upload(width: usize, height: usize, rgba: &[u8]) -> (r: Result<ImageUpload, String>)
    ensures
        match r {
            Ok(u) => png_rgba8(width as u32, height as u32, rgba@) == Some(u.data@) && u.mime_type@
                == "image/png"@,
            Err(m) => png_rgba8(width as u32, height as u32, rgba@) is None && "Failed to convert image: "@.is_prefix_of(m@),
        },
{
    #[verifier::truncate]
    let w = width as u32;
    #[verifier::truncate]
    let h = height as u32;
    match encode_rgba_png(w, h, rgba) {
        Ok(data) => Ok(ImageUpload { data, mime_type: String::from_str("image/png") }),
        Err(e) => {
            let mut m = String::from_str("Failed to convert image: ");
            let ghost prefix = m@;
            m.append(e.as_str());
            proof {
                reveal_strlit("Failed to convert image: ");
                assert(m@.subrange(0, prefix.len() as int) =~= prefix);
            }
            Err(m)
        },
    }
}

} // verus!
