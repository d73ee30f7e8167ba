use vstd::prelude::*;
use vstd::string::*;

verus! {

/// serde_json's error type, which its serialisers return.
#[verifier::external_type_specification]
#[verifier::external_body]
pub struct ExJsonError(serde_json::Error);

/// The lower-case hexadecimal digit of `n`, for `0 <= n < 16`.
pub open spec fn hex_digit(n: int) -> char {
    if n < 10 {
        ((n + '0' as int) as u32) as char
    } else {
        ((n - 10 + 'a' as int) as u32) as char
    }
}

/// How one character stands inside a JSON string literal: `"` and `\` are escaped,
/// so are the control characters below U+0020 (by a short escape where JSON has
/// one, else by `\u00` and two lower-case hexadecimal digits); every other
/// character stands for itself.
pub open spec fn escaped_char(c: char) -> Seq<char> {
    if c == '"' {
        seq!['\\', '"']
    } else if c == '\\' {
        seq!['\\', '\\']
    } else if c == '\u{8}' {
        seq!['\\', 'b']
    } else if c == '\t' {
        seq!['\\', 't']
    } else if c == '\n' {
        seq!['\\', 'n']
    } else if c == '\u{c}' {
        seq!['\\', 'f']
    } else if c == '\r' {
        seq!['\\', 'r']
    } else if (c as u32) < 0x20 {
        seq!['\\', 'u', '0', '0', hex_digit(c as int / 16), hex_digit(c as int % 16)]
    } else {
        seq![c]
    }
}

/// The characters of `s`, each escaped as inside a JSON string literal.
pub open spec fn escaped(s: Seq<char>) -> Seq<char>
    decreases s.len(),
{
    if s.len() == 0 {
        Seq::empty()
    } else {
        escaped(s.drop_last()) + escaped_char(s.last())
    }
}

/// The JSON string literal that stands for `s`.
pub open spec fn string_literal(s: Seq<char>) -> Seq<char> {
    seq!['"'] + escaped(s) + seq!['"']
}

/// Relies on serde_json::to_string on a `str`: it writes the string as a JSON
/// string literal between double quotes, each character escaped by serde_json's
/// escape table (the quote, the backslash, short escapes for backspace, tab, line
/// feed, form feed and carriage return, and a six-character escape with lower-case
/// digits for the other characters below U+0020). Serialising a `str` into memory
/// has no failing path.
#[verifier::external_body]
fn to_json_string(s: &str) -> (r: Result<String, serde_json::Error>)
    ensures
        r is Ok,
        r->Ok_0@ == string_literal(s@),
{
    serde_json::to_string(s)
}

/// Appends the JSON string literal of `s` to `out`.
pub fn push_string_literal(out: &mut String, s: &str)
    ensures
        final(out)@ == old(out)@ + string_literal(s@),
{
    match to_json_string(s) {
        Ok(t) => out.append(t.as_str()),
        Err(_) => {},
    }
}

/// The JSON value of an optional string: its literal, or `null`.
pub open spec fn optional_value(v: Option<String>) -> Seq<char> {
    match v {
        Some(s) => string_literal(s@),
        None => "null"@,
    }
}

/// Appends the JSON value of `v` to `out`.
pub fn push_optional_value(out: &mut String, v: &Option<String>)
    ensures
        final(out)@ == old(out)@ + optional_value(*v),
{
    match v {
        Some(s) => push_string_literal(out, s.as_str()),
        None => out.append("null"),
    }
}

/// The character that a two-character escape `\e` stands for, by its letter `e`.
pub open spec fn short_unescape(e: char) -> Option<char> {
    if e == '"' {
        Some('"')
    } else if e == '\\' {
        Some('\\')
    } else if e == '/' {
        Some('/')
    } else if e == 'b' {
        Some('\u{8}')
    } else if e == 'f' {
        Some('\u{c}')
    } else if e == 'n' {
        Some('\n')
    } else if e == 'r' {
        Some('\r')
    } else if e == 't' {
        Some('\t')
    } else {
        None
    }
}

/// The value of a hexadecimal digit, of either case.
pub open spec fn hex_value(c: char) -> Option<int> {
    if '0' <= c && c <= '9' {
        Some(c as int - '0' as int)
    } else if 'a' <= c && c <= 'f' {
        Some(c as int - 'a' as int + 10)
    } else if 'A' <= c && c <= 'F' {
        Some(c as int - 'A' as int + 10)
    } else {
        None
    }
}

/// The character that the escape `\uXXXX` stands for, by its four digits `d`;
/// none for a surrogate, which stands for no character alone.
pub open spec fn unicode_unescape(d: Seq<char>) -> Option<char> {
    if d.len() == 4 && hex_value(d[0]) is Some && hex_value(d[1]) is Some && hex_value(d[2]) is Some
        && hex_value(d[3]) is Some {
        let v = hex_value(d[0])->Some_0 * 4096 + hex_value(d[1])->Some_0 * 256 + hex_value(d[2])->Some_0
            * 16 + hex_value(d[3])->Some_0;
        if v < 0xd800 || 0xe000 <= v {
            Some((v as u32) as char)
        } else {
            None
        }
    } else {
        None
    }
}

/// `c` in front of what a decoding returned.
pub open spec fn prepend(c: char, o: Option<(Seq<char>, Seq<char>)>) -> Option<(Seq<char>, Seq<char>)> {
    match o {
        Some((d, rest)) => Some((seq![c] + d, rest)),
        None => None,
    }
}

/// Decodes the inside of a JSON string literal from the start of `s` up to its
/// closing quote: the characters it stands for, and what follows the quote. None
/// when `s` holds no well-formed rest of a literal.
pub open spec fn decode_body(s: Seq<char>) -> Option<(Seq<char>, Seq<char>)>
    decreases s.len(),
{
    if s.len() == 0 {
        None
    } else if s[0] == '"' {
        Some((Seq::empty(), s.drop_first()))
    } else if s[0] == '\\' {
        if s.len() >= 2 && short_unescape(s[1]) is Some {
            prepend(short_unescape(s[1])->Some_0, decode_body(s.subrange(2, s.len() as int)))
        } else if s.len() >= 6 && s[1] == 'u' && unicode_unescape(s.subrange(2, 6)) is Some {
            prepend(unicode_unescape(s.subrange(2, 6))->Some_0, decode_body(s.subrange(6, s.len() as int)))
        } else {
            None
        }
    } else if (s[0] as u32) < 0x20 {
        None
    } else {
        prepend(s[0], decode_body(s.drop_first()))
    }
}

/// Decodes a JSON value that is a string or `null` from the start of `p`: the
/// string, or none for `null`, and what follows the value.
pub open spec fn decode_optional(p: Seq<char>) -> Option<(Option<Seq<char>>, Seq<char>)> {
    if p.len() > 0 && p[0] == '"' {
        match decode_body(p.drop_first()) {
            Some((d, rest)) => Some((Some(d), rest)),
            None => None,
        }
    } else if p.len() >= 4 && p.subrange(0, 4) == "null"@ {
        Some((None, p.subrange(4, p.len() as int)))
    } else {
        None
    }
}

/// The view of an optional string.
pub open spec fn optional_view(v: Option<String>) -> Option<Seq<char>> {
    match v {
        Some(s) => Some(s@),
        None => None,
    }
}

/// Escaping a character in front of `t` escapes it in front of the escaped `t`.
pub proof fn lemma_escaped_front(c: char, t: Seq<char>)
    ensures
        escaped(seq![c] + t) == escaped_char(c) + escaped(t),
    decreases t.len(),
{
    let u = seq![c] + t;
    assert(escaped(u) == escaped(u.drop_last()) + escaped_char(u.last()));
    if t.len() == 0 {
        assert(u.drop_last() =~= Seq::<char>::empty());
        assert(escaped(Seq::<char>::empty()) == Seq::<char>::empty());
        assert(escaped_char(c) + escaped(t) =~= escaped_char(c));
        assert(Seq::<char>::empty() + escaped_char(c) =~= escaped_char(c));
    } else {
        assert(u.drop_last() =~= seq![c] + t.drop_last());
        assert(u.last() == t.last());
        lemma_escaped_front(c, t.drop_last());
        assert(escaped(t) == escaped(t.drop_last()) + escaped_char(t.last()));
        assert(escaped_char(c) + escaped(t.drop_last()) + escaped_char(t.last()) =~= escaped_char(c) + (
        escaped(t.drop_last()) + escaped_char(t.last())));
    }
}

/// Decoding an escaped character in front of `m` yields that character in front of
/// what decoding `m` yields.
pub proof fn lemma_decode_escaped_char(c: char, m: Seq<char>)
    ensures
        decode_body(escaped_char(c) + m) == prepend(c, decode_body(m)),
{
    let s = escaped_char(c) + m;
    if c == '"' || c == '\\' || c == '\u{8}' || c == '\t' || c == '\n' || c == '\u{c}' || c == '\r' {
        assert(s.subrange(2, s.len() as int) =~= m);
    } else if (c as u32) < 0x20 {
        let d = s.subrange(2, 6);
        assert(d =~= seq!['0', '0', hex_digit(c as int / 16), hex_digit(c as int % 16)]);
        assert(s.subrange(6, s.len() as int) =~= m);
        assert(unicode_unescape(d) == Some(c));
    } else {
        assert(s.drop_first() =~= m);
    }
}

/// Decoding a string literal's inside, up to its closing quote, gives back the
/// string and what follows the quote.
pub proof fn lemma_decode_literal(s: Seq<char>, rest: Seq<char>)
    ensures
        decode_body(escaped(s) + seq!['"'] + rest) == Some((s, rest)),
    decreases s.len(),
{
    if s.len() == 0 {
        assert(escaped(s) + seq!['"'] + rest =~= seq!['"'] + rest);
        assert((seq!['"'] + rest).drop_first() =~= rest);
    } else {
        let c = s[0];
        let t = s.drop_first();
        assert(s =~= seq![c] + t);
        lemma_escaped_front(c, t);
        let m = escaped(t) + seq!['"'] + rest;
        lemma_decode_literal(t, rest);
        lemma_decode_escaped_char(c, m);
        assert(escaped(s) + seq!['"'] + rest =~= escaped_char(c) + m);
    }
}

/// Decoding the JSON value of an optional string gives back the optional string and
/// what follows it.
pub proof fn lemma_decode_optional(v: Option<String>, rest: Seq<char>)
    ensures
        decode_optional(optional_value(v) + rest) == Some((optional_view(v), rest)),
{
    reveal_strlit("null");
    let p = optional_value(v) + rest;
    match v {
        Some(s) => {
            lemma_decode_literal(s@, rest);
            assert(p.drop_first() =~= escaped(s@) + seq!['"'] + rest);
        },
        None => {
            assert(p.subrange(0, 4) =~= "null"@);
            assert(p.subrange(4, p.len() as int) =~= rest);
        },
    }
}

} // verus!
