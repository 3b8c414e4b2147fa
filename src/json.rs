use vstd::prelude::*;

verus! {

#[verifier::external_type_specification]
#[verifier::external_body]
pub struct ExJsonError(serde_json::Error);

/// The lower-case hexadecimal digit for `n`, which is below sixteen.
pub open spec fn hex_digit(n: u32) -> char {
    if n == 0 { '0' } else if n == 1 { '1' } else if n == 2 { '2' } else if n == 3 { '3' }
    else if n == 4 { '4' } else if n == 5 { '5' } else if n == 6 { '6' } else if n == 7 { '7' }
    else if n == 8 { '8' } else if n == 9 { '9' } else if n == 10 { 'a' } else if n == 11 { 'b' }
    else if n == 12 { 'c' } else if n == 13 { 'd' } else if n == 14 { 'e' } else { 'f' }
}

/// What a JSON string literal holds for one character of the text.
pub open spec fn escape_char(c: char) -> Seq<char> {
    if c == '"' {
        seq!['\\', '"']
    } else if c == '\\' {
        seq!['\\', '\\']
    } else if c == '\n' {
        seq!['\\', 'n']
    } else if c == '\r' {
        seq!['\\', 'r']
    } else if c == '\t' {
        seq!['\\', 't']
    } else if c == '\x08' {
        seq!['\\', 'b']
    } else if c == '\x0c' {
        seq!['\\', 'f']
    } else if (c as u32) < 0x20 {
        seq!['\\', 'u', '0', '0', hex_digit((c as u32) / 16), hex_digit((c as u32) % 16)]
    } else {
        seq![c]
    }
}

/// The body of a JSON string literal for `s`, character by character.
pub open spec fn escape_text(s: Seq<char>) -> Seq<char>
    decreases s.len(),
{
    if s.len() == 0 {
        Seq::empty()
    } else {
        escape_char(s[0]) + escape_text(s.drop_first())
    }
}

/// The JSON string literal for `s`: its escaped body between double quotes.
pub open spec fn json_quote(s: Seq<char>) -> Seq<char> {
    seq!['"'] + escape_text(s) + seq!['"']
}

/// The character that a two-character escape `\e` stands for in a script
/// string literal.
pub open spec fn unescape_char(e: char) -> char {
    if e == 'n' {
        '\n'
    } else if e == 'r' {
        '\r'
    } else if e == 't' {
        '\t'
    } else if e == 'b' {
        '\x08'
    } else if e == 'f' {
        '\x0c'
    } else {
        e
    }
}

/// The value of a hexadecimal digit, in either case.
pub open spec fn hex_value(h: char) -> int {
    if h == '0' { 0 } else if h == '1' { 1 } else if h == '2' { 2 } else if h == '3' { 3 }
    else if h == '4' { 4 } else if h == '5' { 5 } else if h == '6' { 6 } else if h == '7' { 7 }
    else if h == '8' { 8 } else if h == '9' { 9 } else if h == 'a' || h == 'A' { 10 }
    else if h == 'b' || h == 'B' { 11 } else if h == 'c' || h == 'C' { 12 }
    else if h == 'd' || h == 'D' { 13 } else if h == 'e' || h == 'E' { 14 } else { 15 }
}

/// The code point of a character.
pub open spec fn code_point(c: char) -> int {
    (c as u32) as int
}

/// The character whose code point is `code`.
pub open spec fn char_of(code: int) -> char {
    choose|c: char| #[trigger] code_point(c) == code
}

/// What a script engine reads from the body of a string literal: the
/// two-character escapes and the `\uXXXX` escapes decoded.
pub open spec fn unescape_text(t: Seq<char>) -> Seq<char>
    decreases t.len(),
{
    if t.len() == 0 {
        Seq::empty()
    } else if t[0] == '\\' && t.len() >= 6 && t[1] == 'u' {
        seq![
            char_of(
                4096 * hex_value(t[2]) + 256 * hex_value(t[3]) + 16 * hex_value(t[4]) + hex_value(
                    t[5],
                ),
            ),
        ] + unescape_text(t.subrange(6, t.len() as int))
    } else if t[0] == '\\' && t.len() >= 2 {
        seq![unescape_char(t[1])] + unescape_text(t.subrange(2, t.len() as int))
    } else {
        seq![t[0]] + unescape_text(t.drop_first())
    }
}

/// The text that a double-quoted string literal stands for.
pub open spec fn literal_text(lit: Seq<char>) -> Seq<char> {
    unescape_text(lit.subrange(1, lit.len() - 1))
}

/// A character that JSON writes with a `\u00XX` escape.
pub open spec fn needs_code_escape(c: char) -> bool {
    (c as u32) < 0x20 && c != '\n' && c != '\r' && c != '\t' && c != '\x08' && c != '\x0c'
}

/// Relies on serde_json::to_string: a string always serialises (it is
/// written into a `Vec`, which never fails), to a JSON string literal, with `"`, `\` and the control characters escaped as `escape_char`
/// shows and every other character written as it is.
#[verifier::external_body]
fn serialize_text(s: &str) -> (r: Result<String, serde_json::Error>)
    ensures
        r is Ok,
        r matches Ok(t) ==> t@ == json_quote(s@),
{
    serde_json::to_string(s)
}

/// The JSON string literal for `text`, ready to stand in a script.
pub fn json_literal(text: &str) -> (r: String)
    ensures
        r@ == json_quote(text@),
{
    match serialize_text(text) {
        Ok(t) => t,
        Err(_) => String::new(),
    }
}

proof fn lemma_hex_digit_value(n: u32)
    requires
        n < 16,
    ensures
        hex_value(hex_digit(n)) == n,
{
}

proof fn lemma_unescape_step(c: char, rest: Seq<char>)
    ensures
        unescape_text(escape_char(c) + rest) == seq![c] + unescape_text(rest),
{
    let t = escape_char(c) + rest;
    if needs_code_escape(c) {
        let code = c as u32;
        lemma_hex_digit_value(code / 16);
        lemma_hex_digit_value(code % 16);
        assert(t.subrange(6, t.len() as int) =~= rest);
        assert(t[2] == '0' && t[3] == '0');
        assert(16 * hex_value(t[4]) + hex_value(t[5]) == code as int);
        let d = char_of(code as int);
        assert(code_point(c) == code as int);
        assert(code_point(d) == code as int);
        assert(d == c);
    } else if escape_char(c).len() == 2 {
        assert(t.subrange(2, t.len() as int) =~= rest);
    } else {
        assert(t.drop_first() =~= rest);
    }
}

/// Reading back the JSON literal of any text gives that text.
pub proof fn lemma_literal_round_trip(s: Seq<char>)
    ensures
        unescape_text(escape_text(s)) == s,
        literal_text(json_quote(s)) == s,
    decreases s.len(),
{
    if s.len() > 0 {
        let rest = s.drop_first();
        lemma_literal_round_trip(rest);
        lemma_unescape_step(s[0], escape_text(rest));
        assert(seq![s[0]] + rest =~= s);
    } else {
        assert(escape_text(s) =~= Seq::<char>::empty());
    }
    let q = json_quote(s);
    assert(q.subrange(1, q.len() - 1) =~= escape_text(s));
}

} // verus!
