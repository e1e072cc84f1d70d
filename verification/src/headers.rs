//! Request headers, kept in `http`'s `HeaderMap` and read through two trusted
//! lookups whose contracts speak of the map's contents.

use vstd::prelude::*;

verus! {

#[verifier::external_type_specification]
#[verifier::external_body]
#[verifier::reject_recursive_types(T)]
pub struct ExHeaderMap<T>(http::HeaderMap<T>);

#[verifier::external_type_specification]
#[verifier::external_body]
pub struct ExHeaderValue(http::HeaderValue);

/// The contents of a header map: for each lower-cased header name, the raw
/// bytes of its values in the order in which they were added.
pub uninterp spec fn header_values(h: http::HeaderMap) -> Map<Seq<char>, Seq<Seq<u8>>>;

pub open spec fn ascii_lower_char(c: char) -> char {
    if 'A' <= c && c <= 'Z' {
        ((c as int) + 32) as char
    } else {
        c
    }
}

/// ASCII lower-casing, which is how header names are compared.
pub open spec fn ascii_lower(s: Seq<char>) -> Seq<char> {
    s.map_values(|c: char| ascii_lower_char(c))
}

/// A header-value byte that `HeaderValue::to_str` accepts: visible ASCII or tab.
pub open spec fn is_visible_ascii(b: u8) -> bool {
    (32 <= b && b < 127) || b == 9
}

/// A header value as text, when every byte is visible ASCII (as
/// `HeaderValue::to_str` requires); `None` otherwise.
pub open spec fn header_text(v: Seq<u8>) -> Option<Seq<char>> {
    if forall|i: int| 0 <= i < v.len() ==> is_visible_ascii(#[trigger] v[i]) {
        Some(v.map_values(|b: u8| b as char))
    } else {
        None
    }
}

/// All values stored under `name`, compared without regard to ASCII case.
pub open spec fn values_named(m: Map<Seq<char>, Seq<Seq<u8>>>, name: Seq<char>) -> Seq<Seq<u8>> {
    let key = ascii_lower(name);
    if m.contains_key(key) {
        m[key]
    } else {
        Seq::empty()
    }
}

/// What `headers.get(name)` followed by `to_str()` gives: the first value
/// stored under `name`, as text.
pub open spec fn first_header_text(m: Map<Seq<char>, Seq<Seq<u8>>>, name: Seq<char>) -> Option<Seq<char>> {
    let vs = values_named(m, name);
    if vs.len() > 0 {
        header_text(vs[0])
    } else {
        None
    }
}

/// `HeaderMap::get` followed by `HeaderValue::to_str`: the first value stored
/// under `name` (ASCII case ignored), as text, or `None` when there is none or
/// when it holds a byte that is not visible ASCII.
#[verifier::external_body]
pub(crate) fn header_str(headers: &http::HeaderMap, name: &str) -> (r: Option<String>)
    ensures
        match r {
            Some(t) => first_header_text(header_values(*headers), name@) == Some(t@),
            None => first_header_text(header_values(*headers), name@) is None,
        },
{
    headers.get(name).and_then(|v| v.to_str().ok()).map(|s| s.to_string())
}

/// `HeaderMap::get_all` with `HeaderValue::to_str` applied to each value: every
/// value stored under `name` (ASCII case ignored), in order, each as text or
/// `None` when it holds a byte that is not visible ASCII.
#[verifier::external_body]
pub(crate) fn header_strs(headers: &http::HeaderMap, name: &str) -> (r: Vec<Option<String>>)
    ensures
        r@.len() == values_named(header_values(*headers), name@).len(),
        forall|i: int|
            0 <= i < r@.len() ==> match #[trigger] r@[i] {
                Some(t) => header_text(values_named(header_values(*headers), name@)[i]) == Some(t@),
                None => header_text(values_named(header_values(*headers), name@)[i]) is None,
            },
{
    headers.get_all(name).iter().map(|v| v.to_str().ok().map(|s| s.to_string())).collect()
}

} // verus!
