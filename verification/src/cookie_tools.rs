//! Reading cookies out of `Cookie` request headers, and writing `Set-Cookie`
//! header values, through the `cookie` crate.

use vstd::prelude::*;
use crate::text::{index_of, split_on};
use crate::headers::{header_strs, header_text, header_values, values_named};

verus! {

/// Unicode `White_Space`, the set that `char::is_whitespace` and `str::trim` use.
pub open spec fn is_whitespace(c: char) -> bool {
    let u = c as u32;
    (0x9 <= u && u <= 0xD) || u == 0x20 || u == 0x85 || u == 0xA0 || u == 0x1680
        || (0x2000 <= u && u <= 0x200A) || u == 0x2028 || u == 0x2029 || u == 0x202F
        || u == 0x205F || u == 0x3000
}

pub open spec fn all_whitespace(s: Seq<char>) -> bool {
    forall|i: int| 0 <= i < s.len() ==> is_whitespace(#[trigger] s[i])
}

pub open spec fn trim_start(s: Seq<char>) -> Seq<char>
    decreases s.len(),
{
    if s.len() > 0 && is_whitespace(s[0]) {
        trim_start(s.drop_first())
    } else {
        s
    }
}

pub open spec fn trim_end(s: Seq<char>) -> Seq<char>
    decreases s.len(),
{
    if s.len() > 0 && is_whitespace(s.last()) {
        trim_end(s.drop_last())
    } else {
        s
    }
}

/// `str::trim`: leading and trailing white space removed.
pub open spec fn trim(s: Seq<char>) -> Seq<char> {
    trim_end(trim_start(s))
}

/// How the `cookie` crate reads one `name=value` piece of a `Cookie` header:
/// trimmed, split at the first `=`, name and value trimmed again; a piece with
/// no `=` or with an empty name is an error (`None`).
pub open spec fn cookie_pair(piece: Seq<char>) -> Option<(Seq<char>, Seq<char>)> {
    let t = trim(piece);
    let k = index_of(t, '=');
    if k < 0 {
        None
    } else {
        let name = trim(t.subrange(0, k));
        let value = trim(t.subrange(k + 1, t.len() as int));
        if name.len() == 0 { None } else { Some((name, value)) }
    }
}

/// The pieces that are not blank, each read as a cookie pair.
pub open spec fn cookie_pieces(parts: Seq<Seq<char>>) -> Seq<Option<(Seq<char>, Seq<char>)>>
    decreases parts.len(),
{
    if parts.len() == 0 {
        Seq::empty()
    } else {
        let rest = cookie_pieces(parts.drop_first());
        if all_whitespace(parts[0]) {
            rest
        } else {
            seq![cookie_pair(parts[0])] + rest
        }
    }
}

/// What `Cookie::split_parse` yields for a `Cookie` header value: the header
/// split at `;`, blank pieces skipped, each other piece parsed as a pair.
pub open spec fn split_cookies(header: Seq<char>) -> Seq<Option<(Seq<char>, Seq<char>)>> {
    cookie_pieces(split_on(header, ';'))
}

pub open spec fn pair_view(p: Option<(String, String)>) -> Option<(Seq<char>, Seq<char>)> {
    match p {
        Some((n, v)) => Some((n@, v@)),
        None => None,
    }
}

pub open spec fn pairs_view(ps: Seq<Option<(String, String)>>) -> Seq<Option<(Seq<char>, Seq<char>)>> {
    ps.map_values(|p: Option<(String, String)>| pair_view(p))
}

/// The value of the first well-formed cookie called `name`.
pub open spec fn first_cookie_value(pairs: Seq<Option<(Seq<char>, Seq<char>)>>, name: Seq<char>) -> Option<Seq<char>>
    decreases pairs.len(),
{
    if pairs.len() == 0 {
        None
    } else {
        match pairs[0] {
            Some((n, v)) => if n == name { Some(v) } else { first_cookie_value(pairs.drop_first(), name) },
            None => first_cookie_value(pairs.drop_first(), name),
        }
    }
}

/// Text that a cookie name or value can hold so that a `name=value` pair
/// reads back as written: no `;` and no white space.
pub open spec fn plain_cookie_text(s: Seq<char>) -> bool {
    forall|j: int| 0 <= j < s.len() ==> #[trigger] s[j] != ';' && !is_whitespace(s[j])
}

/// A text that starts and ends with characters that are not white space is
/// its own trim.
proof fn lemma_trim_unchanged(s: Seq<char>)
    requires
        s.len() == 0 || (!is_whitespace(s[0]) && !is_whitespace(s.last())),
    ensures
        trim(s) == s,
{
    assert(trim_start(s) == s);
    assert(trim_end(s) == s);
}

/// Law: a browser that sends back a cookie as `name=value` has `value` read
/// back as the cookie called `name`, for any name (not empty, without `=`)
/// and value made of plain cookie text.
pub proof fn lemma_cookie_round_trip(name: Seq<char>, value: Seq<char>)
    requires
        name.len() > 0,
        plain_cookie_text(name),
        plain_cookie_text(value),
        forall|j: int| 0 <= j < name.len() ==> name[j] != '=',
    ensures
        first_cookie_value(split_cookies(name + seq!['='] + value), name) == Some(value),
{
    let s = name + seq!['='] + value;
    let k = name.len() as int;
    assert forall|j: int| 0 <= j < s.len() implies s[j] != ';' by {
        if j < k {
            assert(s[j] == name[j]);
        } else if j > k {
            assert(s[j] == value[j - k - 1]);
        }
    }
    crate::text::lemma_index_of_none(s, ';');
    crate::text::lemma_split_on(s, ';');
    assert(s[0] == name[0]);
    assert(!is_whitespace(s[0]));
    assert(!all_whitespace(s));
    assert(cookie_pieces(seq![s]) =~= seq![cookie_pair(s)]) by {
        assert(seq![s].drop_first() =~= Seq::<Seq<char>>::empty());
        assert(cookie_pieces(Seq::<Seq<char>>::empty()) =~= Seq::empty());
    }
    if value.len() > 0 {
        assert(s.last() == value.last());
    } else {
        assert(s.last() == '=');
    }
    lemma_trim_unchanged(s);
    assert forall|j: int| 0 <= j < k implies s[j] != '=' by {
        assert(s[j] == name[j]);
    }
    crate::text::lemma_index_of_unique(s, '=', k);
    assert(s.subrange(0, k) =~= name);
    assert(s.subrange(k + 1, s.len() as int) =~= value);
    lemma_trim_unchanged(name);
    lemma_trim_unchanged(value);
    assert(cookie_pair(s) == Some((name, value)));
    let pairs = split_cookies(s);
    assert(pairs =~= seq![Some((name, value))]);
    assert(pairs.drop_first() =~= Seq::<Option<(Seq<char>, Seq<char>)>>::empty());
}

/// `Cookie::split_parse`, with each cookie reduced to its name and value and
/// each parse error to `None`.
#[verifier::external_body]
fn cookie_split_parse(header: &str) -> (r: Vec<Option<(String, String)>>)
    ensures
        pairs_view(r@) == split_cookies(header@),
{
    cookie::Cookie::split_parse(header)
        .map(|c| c.ok().map(|c| (c.name().to_string(), c.value().to_string())))
        .collect()
}

/// The value of the first well-formed cookie called `name` among `pairs`.
pub fn find_cookie(pairs: &Vec<Option<(String, String)>>, name: &str) -> (r: Option<String>)
    ensures
        match r {
            Some(v) => first_cookie_value(pairs_view(pairs@), name@) == Some(v@),
            None => first_cookie_value(pairs_view(pairs@), name@) is None,
        },
{
    let wanted = String::from_str(name);
    let mut i: usize = 0;
    assert(pairs_view(pairs@).subrange(0, pairs@.len() as int) =~= pairs_view(pairs@));
    while i < pairs.len()
        invariant
            i <= pairs@.len(),
            wanted@ == name@,
            first_cookie_value(pairs_view(pairs@), name@)
                == first_cookie_value(pairs_view(pairs@).subrange(i as int, pairs@.len() as int), name@),
        decreases pairs.len() - i,
    {
        let ghost rest = pairs_view(pairs@).subrange(i as int, pairs@.len() as int);
        assert(rest.drop_first() =~= pairs_view(pairs@).subrange(i + 1, pairs@.len() as int));
        assert(rest[0] == pair_view(pairs@[i as int]));
        match &pairs[i] {
            Some((n, v)) => {
                if *n == wanted {
                    return Some(v.clone());
                }
            },
            None => {},
        }
        i = i + 1;
    }
    assert(pairs_view(pairs@).subrange(i as int, pairs@.len() as int) =~= Seq::<Option<(Seq<char>, Seq<char>)>>::empty());
    None
}

/// The value of the first well-formed cookie called `name` in a `Cookie`
/// header value.
pub fn cookie_value(header: &str, name: &str) -> (r: Option<String>)
    ensures
        match r {
            Some(v) => first_cookie_value(split_cookies(header@), name@) == Some(v@),
            None => first_cookie_value(split_cookies(header@), name@) is None,
        },
{
    let pairs = cookie_split_parse(header);
    find_cookie(&pairs, name)
}

/// The value of the first well-formed cookie called `name` across every
/// `Cookie` header value that is text, in header order.
pub open spec fn cookie_in_header_values(values: Seq<Seq<u8>>, name: Seq<char>) -> Option<Seq<char>>
    decreases values.len(),
{
    if values.len() == 0 {
        None
    } else {
        let rest = cookie_in_header_values(values.drop_first(), name);
        match header_text(values[0]) {
            Some(t) => match first_cookie_value(split_cookies(t), name) {
                Some(v) => Some(v),
                None => rest,
            },
            None => rest,
        }
    }
}

/// Finds the cookie called `name` in the `Cookie` headers of a request: the
/// first well-formed one, looking through every `Cookie` header in order.
pub fn cookie_from_headers(headers: &http::HeaderMap, name: &str) -> (r: Option<String>)
    ensures
        match r {
            Some(v) => cookie_in_header_values(values_named(header_values(*headers), "Cookie"@), name@) == Some(v@),
            None => cookie_in_header_values(values_named(header_values(*headers), "Cookie"@), name@) is None,
        },
{
    let values = header_strs(headers, "Cookie");
    let ghost all = values_named(header_values(*headers), "Cookie"@);
    let mut i: usize = values.len();
    let mut found: Option<String> = None;
    assert(all.subrange(values@.len() as int, all.len() as int) =~= Seq::<Seq<u8>>::empty());
    while i > 0
        invariant
            i <= values@.len(),
            values@.len() == all.len(),
            all == values_named(header_values(*headers), "Cookie"@),
            forall|j: int|
                0 <= j < values@.len() ==> match #[trigger] values@[j] {
                    Some(t) => header_text(all[j]) == Some(t@),
                    None => header_text(all[j]) is None,
                },
            match found {
                Some(v) => cookie_in_header_values(all.subrange(i as int, all.len() as int), name@) == Some(v@),
                None => cookie_in_header_values(all.subrange(i as int, all.len() as int), name@) is None,
            },
        decreases i,
    {
        i = i - 1;
        let ghost tail = all.subrange(i as int, all.len() as int);
        assert(tail.drop_first() =~= all.subrange(i + 1, all.len() as int));
        assert(tail[0] == all[i as int]);
        match &values[i] {
            Some(t) => {
                match cookie_value(t, name) {
                    Some(v) => { found = Some(v); },
                    None => {},
                }
            },
            None => {},
        }
    }
    assert(all.subrange(0, all.len() as int) =~= all);
    found
}

/// The `SameSite` policy of a cookie.
pub enum SameSite {
    Strict,
    Lax,
    /// Written `SameSite=None`.
    Unrestricted,
}

/// The `Expires` date that the `cookie` crate writes for the instant `secs`
/// seconds after the Unix epoch (RFC 2616 form, e.g. `Wed, 21 Oct 2015 07:28:00 GMT`).
pub uninterp spec fn cookie_date(secs: i64) -> Seq<char>;

/// The latest instant that a cookie expiry can name (the end of the year
/// 9999, the last instant of `OffsetDateTime`).
pub const MAX_COOKIE_TIME: i64 = 253402300799;

/// The earliest instant that a cookie expiry can name (the start of the
/// year -9999, the first instant of `OffsetDateTime`).
pub const MIN_COOKIE_TIME: i64 = -377705116800;

/// How the `cookie` crate writes a cookie as a `Set-Cookie` value: `name=value`,
/// then the attributes that are set, in its fixed order.
pub open spec fn set_cookie_text(
    name: Seq<char>,
    value: Seq<char>,
    http_only: bool,
    same_site: Option<SameSite>,
    path: Option<Seq<char>>,
    domain: Option<Seq<char>>,
    max_age: Option<nat>,
    expires: Option<Seq<char>>,
) -> Seq<char> {
    name + "="@ + value
        + (if http_only { "; HttpOnly"@ } else { Seq::empty() })
        + match same_site {
            Some(SameSite::Strict) => "; SameSite=Strict"@,
            Some(SameSite::Lax) => "; SameSite=Lax"@,
            Some(SameSite::Unrestricted) => "; SameSite=None; Secure"@,
            None => Seq::empty(),
        }
        + match path { Some(p) => "; Path="@ + p, None => Seq::empty() }
        + match domain {
            Some(d) => "; Domain="@ + (if d.len() > 0 && d[0] == '.' { d.drop_first() } else { d }),
            None => Seq::empty(),
        }
        + match max_age { Some(a) => "; Max-Age="@ + crate::text::decimal(a), None => Seq::empty() }
        + match expires { Some(t) => "; Expires="@ + t, None => Seq::empty() }
}

/// `Cookie::build((name, value)).path(path).http_only(http_only).same_site(same_site)
/// .expires(at).build().to_string()`, `at` being `expires` seconds after the epoch.
#[verifier::external_body]
pub(crate) fn cookie_expiring(name: &str, value: &str, path: &str, http_only: bool, same_site: SameSite, expires: i64) -> (r: String)
    requires
        MIN_COOKIE_TIME <= expires <= MAX_COOKIE_TIME,
    ensures
        r@ == set_cookie_text(name@, value@, http_only, Some(same_site), Some(path@), None, None, Some(cookie_date(expires))),
{
    let at = cookie::time::OffsetDateTime::from_unix_timestamp(expires).unwrap();
    let same_site = match same_site {
        SameSite::Strict => cookie::SameSite::Strict,
        SameSite::Lax => cookie::SameSite::Lax,
        SameSite::Unrestricted => cookie::SameSite::None,
    };
    cookie::Cookie::build((name.to_string(), value.to_string()))
        .path(path.to_string()).http_only(http_only).same_site(same_site).expires(at).build().to_string()
}

/// `Cookie::build((name, value)).path(path).http_only(http_only).domain(domain)
/// .same_site(same_site).expires(at).build().to_string()`.
#[verifier::external_body]
pub(crate) fn cookie_expiring_for_domain(
    name: &str,
    value: &str,
    path: &str,
    http_only: bool,
    domain: &str,
    same_site: SameSite,
    expires: i64,
) -> (r: String)
    requires
        MIN_COOKIE_TIME <= expires <= MAX_COOKIE_TIME,
    ensures
        r@ == set_cookie_text(name@, value@, http_only, Some(same_site), Some(path@), Some(domain@), None, Some(cookie_date(expires))),
{
    let at = cookie::time::OffsetDateTime::from_unix_timestamp(expires).unwrap();
    let same_site = match same_site {
        SameSite::Strict => cookie::SameSite::Strict,
        SameSite::Lax => cookie::SameSite::Lax,
        SameSite::Unrestricted => cookie::SameSite::None,
    };
    cookie::Cookie::build((name.to_string(), value.to_string()))
        .path(path.to_string()).http_only(http_only).domain(domain.to_string())
        .same_site(same_site).expires(at).build().to_string()
}

/// `Cookie::build((name, value)).expires(at).path(path).to_string()`.
#[verifier::external_body]
pub(crate) fn cookie_expiring_plain(name: &str, value: &str, path: &str, expires: i64) -> (r: String)
    requires
        MIN_COOKIE_TIME <= expires <= MAX_COOKIE_TIME,
    ensures
        r@ == set_cookie_text(name@, value@, false, None, Some(path@), None, None, Some(cookie_date(expires))),
{
    let at = cookie::time::OffsetDateTime::from_unix_timestamp(expires).unwrap();
    cookie::Cookie::build((name.to_string(), value.to_string())).expires(at).path(path.to_string()).to_string()
}

/// `Cookie::build((name, value)).path(path).max_age(Duration::seconds(max_age)).to_string()`.
#[verifier::external_body]
pub(crate) fn cookie_with_max_age(name: &str, value: &str, path: &str, max_age: u32) -> (r: String)
    ensures
        r@ == set_cookie_text(name@, value@, false, None, Some(path@), None, Some(max_age as nat), None),
{
    cookie::Cookie::build((name.to_string(), value.to_string()))
        .path(path.to_string()).max_age(cookie::time::Duration::seconds(max_age as i64)).to_string()
}

/// The current time, in whole seconds since the Unix epoch
/// (`OffsetDateTime::now_utc().unix_timestamp()`). Which instant is left
/// open; what holds of every one is that it lies in the range of
/// `OffsetDateTime` (years -9999 to 9999).
#[verifier::external_body]
pub(crate) fn now_unix() -> (r: i64)
    ensures
        MIN_COOKIE_TIME <= r <= MAX_COOKIE_TIME,
{
    cookie::time::OffsetDateTime::now_utc().unix_timestamp()
}

/// The expiry that `FromCookie::expires` gives a cookie made at `now`: one day later.
pub open spec fn day_later(now: i64) -> int {
    now + 86400
}

/// A session cookie as `FromCookie::to_cookie` writes it: `name=body`, path
/// `/`, HTTP only, the given domain, `SameSite=Lax`, expiring a day after `now`.
/// `None` when that instant cannot be written as a cookie date.
pub fn lax_session_cookie(name: &str, body: &str, domain: &str, now: i64) -> (r: Option<String>)
    ensures
        match r {
            Some(c) => MIN_COOKIE_TIME <= day_later(now) <= MAX_COOKIE_TIME && c@ == set_cookie_text(
                name@, body@, true, Some(SameSite::Lax), Some("/"@), Some(domain@), None, Some(cookie_date(day_later(now) as i64))),
            None => !(MIN_COOKIE_TIME <= day_later(now) <= MAX_COOKIE_TIME),
        },
{
    if now < MIN_COOKIE_TIME - 86400 || now > MAX_COOKIE_TIME - 86400 {
        return None;
    }
    let expires = now + 86400;
    Some(cookie_expiring_for_domain(name, body, "/", true, domain, SameSite::Lax, expires))
}

} // verus!
