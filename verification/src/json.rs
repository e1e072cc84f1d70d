//! The JSON text of the session claims, framed here as `serde_json` frames
//! a struct (compact, fields in declaration order), with the string value
//! written by `serde_json` itself.

use vstd::prelude::*;
use crate::text::decimal;

verus! {

/// A lower-case hexadecimal digit.
pub open spec fn hex_char(d: nat) -> char {
    if d < 10 { crate::text::digit_char(d) }
    else if d == 10 { 'a' }
    else if d == 11 { 'b' }
    else if d == 12 { 'c' }
    else if d == 13 { 'd' }
    else if d == 14 { 'e' }
    else { 'f' }
}

/// How `serde_json` writes one character inside a string literal: quote,
/// backslash and the control characters escaped, everything else as is.
pub open spec fn json_escape_char(c: char) -> Seq<char> {
    let u = c as u32;
    if c == '"' { seq!['\\', '"'] }
    else if c == '\\' { seq!['\\', '\\'] }
    else if u == 8 { seq!['\\', 'b'] }
    else if u == 9 { seq!['\\', 't'] }
    else if u == 10 { seq!['\\', 'n'] }
    else if u == 12 { seq!['\\', 'f'] }
    else if u == 13 { seq!['\\', 'r'] }
    else if u < 32 { seq!['\\', 'u', '0', '0', hex_char((u / 16) as nat), hex_char((u % 16) as nat)] }
    else { seq![c] }
}

pub open spec fn json_escape(s: Seq<char>) -> Seq<char>
    decreases s.len(),
{
    if s.len() == 0 {
        Seq::empty()
    } else {
        json_escape(s.drop_last()) + json_escape_char(s.last())
    }
}

/// A JSON string literal holding `s`.
pub open spec fn json_string(s: Seq<char>) -> Seq<char> {
    seq!['"'] + json_escape(s) + seq!['"']
}

pub(crate) fn hex_str(d: u32) -> (r: &'static str)
    requires
        d < 16,
    ensures
        r@ == seq![hex_char(d as nat)],
{
    if d == 0 { proof { reveal_strlit("0"); } "0" }
    else if d == 1 { proof { reveal_strlit("1"); } "1" }
    else if d == 2 { proof { reveal_strlit("2"); } "2" }
    else if d == 3 { proof { reveal_strlit("3"); } "3" }
    else if d == 4 { proof { reveal_strlit("4"); } "4" }
    else if d == 5 { proof { reveal_strlit("5"); } "5" }
    else if d == 6 { proof { reveal_strlit("6"); } "6" }
    else if d == 7 { proof { reveal_strlit("7"); } "7" }
    else if d == 8 { proof { reveal_strlit("8"); } "8" }
    else if d == 9 { proof { reveal_strlit("9"); } "9" }
    else if d == 10 { proof { reveal_strlit("a"); } "a" }
    else if d == 11 { proof { reveal_strlit("b"); } "b" }
    else if d == 12 { proof { reveal_strlit("c"); } "c" }
    else if d == 13 { proof { reveal_strlit("d"); } "d" }
    else if d == 14 { proof { reveal_strlit("e"); } "e" }
    else { proof { reveal_strlit("f"); } "f" }
}

/// `serde_json::to_string` of a string: the JSON string literal holding it.
/// `serde_json` escapes the quote, the backslash and the control characters
/// (`\b \t \n \f \r` by name, the others as `\u00XX` in lower-case hex) and
/// writes everything else as it is, which is what `json_string` states.
/// Writing a string cannot fail.
#[verifier::external_body]
fn json_string_literal(s: &str) -> (r: String)
    ensures
        r@ == json_string(s@),
{
    serde_json::to_string(s).unwrap_or_default()
}

/// Appends `s` as a JSON string literal.
pub fn push_json_string(out: &mut String, s: &str)
    ensures
        final(out)@ == old(out)@ + json_string(s@),
{
    let lit = json_string_literal(s);
    out.append(lit.as_str());
}

/// The JSON object `{"sub":…,"exp":…,"iss":…}` of a session's claims.
pub open spec fn claims_json(sub: u64, exp: u64, iss: Seq<char>) -> Seq<char> {
    "{\"sub\":"@ + decimal(sub as nat) + ",\"exp\":"@ + decimal(exp as nat) + ",\"iss\":"@ + json_string(iss) + "}"@
}

/// Writes the claims' JSON object.
pub fn write_claims_json(sub: u64, exp: u64, iss: &str) -> (r: String)
    ensures
        r@ == claims_json(sub, exp, iss@),
{
    let mut out = String::from_str("{\"sub\":");
    out.append(crate::text::u64_to_string(sub).as_str());
    out.append(",\"exp\":");
    out.append(crate::text::u64_to_string(exp).as_str());
    out.append(",\"iss\":");
    push_json_string(&mut out, iss);
    out.append("}");
    out
}

} // verus!
