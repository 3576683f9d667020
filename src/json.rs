//! JSON text for flat records whose values are strings.
use vstd::prelude::*;

verus! {

/// Lower-case hexadecimal digits, as JSON `\u00XX` escapes spell them.
pub open spec fn hex_digits() -> Seq<char> {
    seq!['0', '1', '2', '3', '4', '5', '6', '7', '8', '9', 'a', 'b', 'c', 'd', 'e', 'f']
}

/// How one character appears inside a JSON string literal: the quote and the
/// backslash are escaped, control characters take their short escape or
/// `\u00XX`, everything else stands as it is.
pub open spec fn escape_char(c: char) -> Seq<char> {
    if c == '"' {
        seq!['\\', '"']
    } else if c == '\\' {
        seq!['\\', '\\']
    } else if c == '\x08' {
        seq!['\\', 'b']
    } else if c == '\t' {
        seq!['\\', 't']
    } else if c == '\n' {
        seq!['\\', 'n']
    } else if c == '\x0C' {
        seq!['\\', 'f']
    } else if c == '\r' {
        seq!['\\', 'r']
    } else if (c as u32) < 0x20 {
        seq!['\\', 'u', '0', '0', hex_digits()[((c as u32) / 16) as int], hex_digits()[((c as u32) % 16) as int]]
    } else {
        seq![c]
    }
}

/// The characters of `s`, each escaped.
pub open spec fn escaped(s: Seq<char>) -> Seq<char>
    decreases s.len(),
{
    if s.len() == 0 {
        Seq::empty()
    } else {
        escaped(s.drop_last()) + escape_char(s.last())
    }
}

/// `s` as a JSON string literal.
pub open spec fn quoted(s: Seq<char>) -> Seq<char> {
    seq!['"'] + escaped(s) + seq!['"']
}

/// A JSON object with one member, written compactly: `{"key":"value"}`.
pub open spec fn object_of(key: Seq<char>, value: Seq<char>) -> Seq<char> {
    seq!['{'] + quoted(key) + seq![':'] + quoted(value) + seq!['}']
}

/// A character that stands for itself inside a JSON string literal.
pub open spec fn is_plain(c: char) -> bool {
    c != '"' && c != '\\' && (c as u32) >= 0x20
}

/// Text made of plain characters is its own escape.
pub proof fn lemma_escaped_plain(s: Seq<char>)
    requires
        forall|i: int| 0 <= i < s.len() ==> is_plain(#[trigger] s[i]),
    ensures
        escaped(s) == s,
    decreases s.len(),
{
    if s.len() > 0 {
        lemma_escaped_plain(s.drop_last());
        assert(s.drop_last().push(s.last()) =~= s);
    }
}

#[verifier::external_type_specification]
#[verifier::external_body]
pub struct ExJsonError(serde_json::Error);

/// Relies on serde_json::to_string on a `str`: the text between two quotes,
/// escaped by serde_json's table (`"`, `\`, and the characters below U+0020);
/// the writer is a `Vec`, which never fails, so the result is `Ok`.
#[verifier::external_body]
fn to_json_string(s: &str) -> (r: Result<String, serde_json::Error>)
    ensures
        r is Ok,
        r->Ok_0@ == quoted(s@),
{
    serde_json::to_string(s)
}

/// Text of a JSON string literal for `s`.
pub fn quote(s: &str) -> (r: String)
    ensures
        r@ == quoted(s@),
{
    match to_json_string(s) {
        Ok(t) => t,
        Err(_) => String::new(),
    }
}

/// Text of the one-member JSON object `{"key":"value"}`.
pub fn encode_member(key: &str, value: &str) -> (r: String)
    ensures
        r@ == object_of(key@, value@),
{
    let k = quote(key);
    let v = quote(value);
    let mut out = String::from_str("{");
    out.append(k.as_str());
    out.append(":");
    out.append(v.as_str());
    out.append("}");
    proof {
        reveal_strlit("{");
        reveal_strlit(":");
        reveal_strlit("}");
        assert(out@ =~= object_of(key@, value@));
    }
    out
}

} // verus!
