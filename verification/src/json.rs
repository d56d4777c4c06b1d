//! The one JSON value at a path that a decision reads.
use vstd::prelude::*;

use crate::signing::hex_char;
use crate::text::str_eq;

verus! {

/// A JSON value as the decisions see it. A missing key reads as `Null`;
/// numbers that are not whole `i64` values, arrays and objects read as
/// `Other`.
#[derive(Clone, Debug)]
pub enum Scalar {
    Null,
    Bool(bool),
    Int(i64),
    Str(String),
    Other,
}

/// The value equals the JSON string `t`.
pub open spec fn is_text(s: Scalar, t: Seq<char>) -> bool {
    match s {
        Scalar::Str(x) => x@ == t,
        _ => false,
    }
}

/// The value equals the JSON number `n`.
pub open spec fn is_int(s: Scalar, n: i64) -> bool {
    match s {
        Scalar::Int(x) => x == n,
        _ => false,
    }
}

/// The value is JSON `true`.
pub open spec fn is_true(s: Scalar) -> bool {
    match s {
        Scalar::Bool(b) => b,
        _ => false,
    }
}

pub fn scalar_is_text(s: &Scalar, t: &str) -> (r: bool)
    ensures
        r == is_text(*s, t@),
{
    match s {
        Scalar::Str(x) => str_eq(x.as_str(), t),
        _ => false,
    }
}

pub fn scalar_is_int(s: &Scalar, n: i64) -> (r: bool)
    ensures
        r == is_int(*s, n),
{
    match s {
        Scalar::Int(x) => *x == n,
        _ => false,
    }
}

pub fn scalar_is_true(s: &Scalar) -> (r: bool)
    ensures
        r == is_true(*s),
{
    match s {
        Scalar::Bool(b) => *b,
        _ => false,
    }
}

// ---------------------------------------------------------------------------
// JSON text

/// How a JSON string writes `c`: `"` and `\` behind a backslash, the
/// control characters as `\b`, `\t`, `\n`, `\f`, `\r` or `\u00xx`, and
/// any other character as itself.
pub open spec fn json_char(c: char) -> Seq<char> {
    if c == '"' {
        seq!['\\', '"']
    } else if c == '\\' {
        seq!['\\', '\\']
    } else if c == '\u{8}' {
        seq!['\\', 'b']
    } else if c == '\t' {
        seq!['\\', 't']
    } else if c == '\n' {
        seq!['\\', 'n']
    } else if c == '\u{c}' {
        seq!['\\', 'f']
    } else if c == '\r' {
        seq!['\\', 'r']
    } else if (c as int) < 0x20 {
        seq!['\\', 'u', '0', '0', hex_char((c as nat) / 16), hex_char((c as nat) % 16)]
    } else {
        seq![c]
    }
}

pub open spec fn json_chars(s: Seq<char>) -> Seq<char>
    decreases s.len(),
{
    if s.len() == 0 {
        Seq::empty()
    } else {
        json_char(s[0]) + json_chars(s.drop_first())
    }
}

/// `s` as a JSON string literal, quotes included.
pub open spec fn json_quoted(s: Seq<char>) -> Seq<char> {
    seq!['"'] + json_chars(s) + seq!['"']
}

/// Calls `serde_json::to_string` on a string.
///
/// Trusted: the result is the JSON string literal of `s` as
/// `format_escaped_str` of serde_json 1.0.154 writes it (escape table
/// `ESCAPE`, lowercase hex in `\u00xx`). Writing into a `Vec` cannot fail,
/// so the `expect` never fires.
#[verifier::external_body]
pub(crate) fn json_string(s: &str) -> (r: String)
    ensures
        r@ == json_quoted(s@),
{
    serde_json::to_string(s).expect("a string always serialises")
}

} // verus!
