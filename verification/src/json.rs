//! Reading single members out of JSON documents, and writing texts into
//! them.

use crate::outside::{json_field, json_member};
use crate::text::{chars_of, digit_char, digit_str};
use vstd::prelude::*;
use vstd::utf8::*;

verus! {

/// The string that a JSON document holds under a key of its top-level object.
/// Nothing where the bytes are no JSON document, the document is no object,
/// the key is absent or its value is no string.
pub open spec fn json_string_member(document: Seq<u8>, key: Seq<char>) -> Option<Seq<char>> {
    match json_member(document, key) {
        Some((Some(text), _)) => Some(text),
        _ => None,
    }
}

/// The non-negative integer that a JSON document holds under a key of its
/// top-level object, where it fits in 64 bits. Nothing otherwise.
pub open spec fn json_u64_member(document: Seq<u8>, key: Seq<char>) -> Option<u64> {
    match json_member(document, key) {
        Some((_, Some(number))) => Some(number),
        _ => None,
    }
}

/// Reads a string member of a JSON document.
pub fn json_string_field(document: &[u8], key: &str) -> (r: Option<String>)
    ensures
        match r {
            Some(text) => json_string_member(document@, key@) == Some(text@),
            None => json_string_member(document@, key@) is None,
        },
{
    match json_field(document, key) {
        Some((Some(text), _)) => Some(text),
        _ => None,
    }
}

/// Reads a member of a JSON document that is a non-negative integer.
pub fn json_u64_field(document: &[u8], key: &str) -> (r: Option<u64>)
    ensures
        r == json_u64_member(document@, key@),
{
    match json_field(document, key) {
        Some((_, Some(number))) => Some(number),
        _ => None,
    }
}

/// Whether a character cannot stand as itself inside a JSON string: the
/// double quote, the backslash and the control characters below the space.
pub open spec fn needs_escape(c: char) -> bool {
    c == '"' || c == '\\' || c <= '\u{1f}'
}

/// The lower-case hexadecimal digit of a value below sixteen.
pub open spec fn hex_lower(d: nat) -> char
    recommends
        d < 16,
{
    if d < 10 {
        digit_char(d)
    } else {
        ((d + 87) as u8) as char
    }
}

/// How a character is written inside a JSON string. The double quote and the
/// backslash get a backslash in front; line feed, carriage return, tab,
/// backspace and form feed get their short escapes; every other control
/// character is written as `\u00` and its two hexadecimal digits; all other
/// characters stand as themselves.
pub open spec fn escaped_char(c: char) -> Seq<char> {
    if c == '"' {
        seq!['\\', '"']
    } else if c == '\\' {
        seq!['\\', '\\']
    } else if c == '\n' {
        seq!['\\', 'n']
    } else if c == '\r' {
        seq!['\\', 'r']
    } else if c == '\t' {
        seq!['\\', 't']
    } else if c == '\u{8}' {
        seq!['\\', 'b']
    } else if c == '\u{c}' {
        seq!['\\', 'f']
    } else if c <= '\u{1f}' {
        seq!['\\', 'u', '0', '0', hex_lower((c as nat) / 16), hex_lower((c as nat) % 16)]
    } else {
        seq![c]
    }
}

/// A text as it is written between the quotes of a JSON string: character by
/// character, each one escaped where it has to be.
pub open spec fn json_escaped(text: Seq<char>) -> Seq<char>
    decreases text.len(),
{
    if text.len() == 0 {
        Seq::empty()
    } else {
        json_escaped(text.drop_last()) + escaped_char(text.last())
    }
}

/// A text without quotes, backslashes and control characters is written as
/// it is.
pub proof fn lemma_plain_text_is_kept(text: Seq<char>)
    requires
        forall|i: int| 0 <= i < text.len() ==> !needs_escape(#[trigger] text[i]),
    ensures
        json_escaped(text) == text,
    decreases text.len(),
{
    if text.len() > 0 {
        lemma_plain_text_is_kept(text.drop_last());
        assert(!needs_escape(text.last()));
        assert(text.drop_last() + seq![text.last()] =~= text);
    }
}

/// The one-character text of a hexadecimal digit.
fn hex_digit_str(d: u8) -> (r: &'static str)
    requires
        d < 16,
    ensures
        r@ == seq![hex_lower(d as nat)],
{
    proof {
        reveal_strlit("a");
        reveal_strlit("b");
        reveal_strlit("c");
        reveal_strlit("d");
        reveal_strlit("e");
        reveal_strlit("f");
    }
    if d < 10 {
        digit_str(d as u64)
    } else {
        let r = if d == 10 {
            "a"
        } else if d == 11 {
            "b"
        } else if d == 12 {
            "c"
        } else if d == 13 {
            "d"
        } else if d == 14 {
            "e"
        } else {
            "f"
        };
        assert(r@ =~= seq![hex_lower(d as nat)]);
        r
    }
}

/// Writes a character that cannot stand as itself.
fn escape_char(c: char) -> (r: String)
    requires
        needs_escape(c),
    ensures
        r@ == escaped_char(c),
{
    proof {
        reveal_strlit("\\\"");
        reveal_strlit("\\\\");
        reveal_strlit("\\n");
        reveal_strlit("\\r");
        reveal_strlit("\\t");
        reveal_strlit("\\b");
        reveal_strlit("\\f");
        reveal_strlit("\\u00");
    }
    if c == '"' {
        let r = String::from_str("\\\"");
        assert(r@ =~= escaped_char(c));
        r
    } else if c == '\\' {
        let r = String::from_str("\\\\");
        assert(r@ =~= escaped_char(c));
        r
    } else if c == '\n' {
        let r = String::from_str("\\n");
        assert(r@ =~= escaped_char(c));
        r
    } else if c == '\r' {
        let r = String::from_str("\\r");
        assert(r@ =~= escaped_char(c));
        r
    } else if c == '\t' {
        let r = String::from_str("\\t");
        assert(r@ =~= escaped_char(c));
        r
    } else if c == '\u{8}' {
        let r = String::from_str("\\b");
        assert(r@ =~= escaped_char(c));
        r
    } else if c == '\u{c}' {
        let r = String::from_str("\\f");
        assert(r@ =~= escaped_char(c));
        r
    } else {
        let code: u8 = c as u8;
        let mut r = String::from_str("\\u00");
        r.append(hex_digit_str(code / 16));
        r.append(hex_digit_str(code % 16));
        assert(r@ =~= escaped_char(c));
        r
    }
}

/// The part of a text from one character to another.
fn part<'a>(text: &'a str, ascii: bool, from: usize, to: usize) -> (r: &'a str)
    requires
        ascii == is_ascii_chars(text@),
        from <= to <= text@.len(),
    ensures
        r@ == text@.subrange(from as int, to as int),
{
    if ascii {
        text.substring_ascii(from, to)
    } else {
        text.substring_char(from, to)
    }
}

/// Writes a text as it stands between the quotes of a JSON string.
pub fn json_escape(text: &str) -> (r: String)
    ensures
        r@ == json_escaped(text@),
{
    let cs = chars_of(text);
    let ascii = text.is_ascii();
    let n = cs.len();
    let mut out = String::new();
    let mut start: usize = 0;
    let mut i: usize = 0;
    assert(out@ + text@.subrange(0, 0) =~= json_escaped(text@.subrange(0, 0)));
    while i < n
        invariant
            start <= i <= n,
            n == cs@.len(),
            cs@ == text@,
            ascii == is_ascii_chars(text@),
            out@ + text@.subrange(start as int, i as int) == json_escaped(
                text@.subrange(0, i as int),
            ),
        decreases n - i,
    {
        let c = cs[i];
        let ghost done = text@.subrange(0, i as int);
        let ghost next = text@.subrange(0, i + 1);
        proof {
            assert(next.drop_last() =~= done);
            assert(next.last() == c);
            assert(json_escaped(next) == json_escaped(done) + escaped_char(c));
        }
        if c == '"' || c == '\\' || c <= '\u{1f}' {
            let run = part(text, ascii, start, i);
            out.append(run);
            let escape = escape_char(c);
            out.append(escape.as_str());
            start = i + 1;
            assert(out@ + text@.subrange(start as int, i + 1) =~= json_escaped(next));
        } else {
            assert(escaped_char(c) =~= seq![c]);
            assert(text@.subrange(start as int, i + 1) =~= text@.subrange(
                start as int,
                i as int,
            ) + seq![c]);
            assert(out@ + text@.subrange(start as int, i + 1) =~= json_escaped(next));
        }
        i += 1;
    }
    let rest = part(text, ascii, start, n);
    out.append(rest);
    assert(text@.subrange(0, n as int) =~= text@);
    out
}

} // verus!
