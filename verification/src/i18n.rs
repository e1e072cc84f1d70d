//! Languages: which ones the site speaks, which one a request asks for (by
//! its path or its `Accept-Language` header), and where to send a request
//! that names none.

use vstd::prelude::*;
use crate::text::{index_of, split_on, split_char, second_segment, strings_view};
use crate::headers::{header_str, first_header_text, header_values};

verus! {

/// A BCP 47 language identifier, held as its subtags (as `unic_langid` normalises them).
#[derive(Debug, PartialEq, Eq)]
pub struct LangId {
    pub language: String,
    pub script: Option<String>,
    pub region: Option<String>,
    pub variants: Vec<String>,
}

pub open spec fn opt_view(o: Option<String>) -> Option<Seq<char>> {
    match o {
        Some(s) => Some(s@),
        None => None,
    }
}

impl View for LangId {
    type V = (Seq<char>, Option<Seq<char>>, Option<Seq<char>>, Seq<Seq<char>>);

    open spec fn view(&self) -> Self::V {
        (self.language@, opt_view(self.script), opt_view(self.region), strings_view(self.variants@))
    }
}

/// What `LanguageIdentifier::from_str` makes of a text: its language, script,
/// region and variants, or `None` when it is not a language identifier.
pub uninterp spec fn langid_parse(s: Seq<char>) -> Option<(Seq<char>, Option<Seq<char>>, Option<Seq<char>>, Seq<Seq<char>>)>;

/// `s.parse::<LanguageIdentifier>()`, with the identifier taken apart into its subtags.
#[verifier::external_body]
pub(crate) fn parse_langid(s: &str) -> (r: Option<LangId>)
    ensures
        match r {
            Some(l) => langid_parse(s@) == Some(l@),
            None => langid_parse(s@) is None,
        },
{
    s.parse::<unic_langid::LanguageIdentifier>().ok().map(|l| LangId {
        language: l.language.as_str().to_string(),
        script: l.script.map(|x| x.as_str().to_string()),
        region: l.region.map(|x| x.as_str().to_string()),
        variants: l.variants().map(|v| v.as_str().to_string()).collect(),
    })
}

/// The site is written in English and Japanese.
pub open spec fn supported_spec(l: (Seq<char>, Option<Seq<char>>, Option<Seq<char>>, Seq<Seq<char>>)) -> bool {
    l.0 == "en"@ || l.0 == "ja"@
}

/// Whether the site has its pages in the language of `lang` (region, script
/// and variants do not matter).
pub fn supported(lang: &LangId) -> (r: bool)
    ensures
        r == supported_spec(lang@),
{
    let en = String::from_str("en");
    let ja = String::from_str("ja");
    lang.language == en || lang.language == ja
}

/// English, `en`.
pub fn english() -> (r: LangId)
    ensures
        r@ == ("en"@, None::<Seq<char>>, None::<Seq<char>>, Seq::<Seq<char>>::empty()),
{
    let v: Vec<String> = Vec::new();
    assert(strings_view(v@) =~= Seq::<Seq<char>>::empty());
    LangId { language: String::from_str("en"), script: None, region: None, variants: v }
}

/// Japanese, `ja`.
pub fn japanese() -> (r: LangId)
    ensures
        r@ == ("ja"@, None::<Seq<char>>, None::<Seq<char>>, Seq::<Seq<char>>::empty()),
{
    let v: Vec<String> = Vec::new();
    assert(strings_view(v@) =~= Seq::<Seq<char>>::empty());
    LangId { language: String::from_str("ja"), script: None, region: None, variants: v }
}

/// A language identifier as handed to the templates.
#[derive(Debug)]
pub struct TeraLanguageIdentifier(pub LangId);

/// `-` and the subtag, when there is one.
pub open spec fn dash_part(o: Option<Seq<char>>) -> Seq<char> {
    match o {
        Some(p) => seq!['-'] + p,
        None => Seq::empty(),
    }
}

/// Each variant, preceded by `-`.
pub open spec fn dash_parts(vs: Seq<Seq<char>>) -> Seq<char>
    decreases vs.len(),
{
    if vs.len() == 0 {
        Seq::empty()
    } else {
        dash_parts(vs.drop_last()) + seq!['-'] + vs.last()
    }
}

/// How `unic_langid` writes an identifier: language, then script, region and
/// variants, each after a `-` (`en-US`, `sr-Latn-RS`).
pub open spec fn lang_tag(l: (Seq<char>, Option<Seq<char>>, Option<Seq<char>>, Seq<Seq<char>>)) -> Seq<char> {
    l.0 + dash_part(l.1) + dash_part(l.2) + dash_parts(l.3)
}

impl TeraLanguageIdentifier {
    /// The identifier as the templates get it, written as `unic_langid` writes it.
    pub fn to_tag(&self) -> (r: String)
        ensures
            r@ == lang_tag(self.0@),
    {
        let l = &self.0;
        let mut out = l.language.clone();
        proof { reveal_strlit("-"); }
        match &l.script {
            Some(p) => { out.append("-"); out.append(p.as_str()); },
            None => {},
        }
        match &l.region {
            Some(p) => { out.append("-"); out.append(p.as_str()); },
            None => {},
        }
        let ghost head = out@;
        let ghost vs = strings_view(l.variants@);
        let mut i: usize = 0;
        assert(vs.subrange(0, 0) =~= Seq::<Seq<char>>::empty());
        while i < l.variants.len()
            invariant
                i <= l.variants@.len(),
                vs == strings_view(l.variants@),
                out@ == head + dash_parts(vs.subrange(0, i as int)),
            decreases l.variants.len() - i,
        {
            proof { reveal_strlit("-"); }
            let ghost before = out@;
            out.append("-");
            out.append(l.variants[i].as_str());
            assert(vs.subrange(0, i + 1).drop_last() =~= vs.subrange(0, i as int));
            assert(out@ =~= before + seq!['-'] + l.variants@[i as int]@);
            assert(vs.subrange(0, i + 1).last() == l.variants@[i as int]@);
            assert(out@ =~= head + dash_parts(vs.subrange(0, i + 1)));
            i = i + 1;
        }
        assert(vs.subrange(0, vs.len() as int) =~= vs);
        assert(out@ =~= lang_tag(self.0@));
        out
    }

    /// The identifier itself.
    pub fn as_lang(&self) -> (r: &LangId)
        ensures
            r == &self.0,
    {
        &self.0
    }
}

/// A parse result, kept when the site speaks that language.
pub open spec fn keep_supported(p: Option<(Seq<char>, Option<Seq<char>>, Option<Seq<char>>, Seq<Seq<char>>)>)
    -> Option<(Seq<char>, Option<Seq<char>>, Option<Seq<char>>, Seq<Seq<char>>)>
{
    match p {
        Some(l) => if supported_spec(l) { Some(l) } else { None },
        None => None,
    }
}

/// The language a path starts with: its first segment (`/ja/lists` gives
/// `ja`) read as a language identifier, when the site speaks it.
pub open spec fn lang_from_path(path: Seq<char>) -> Option<(Seq<char>, Option<Seq<char>>, Option<Seq<char>>, Seq<Seq<char>>)> {
    let parts = split_on(path, '/');
    if parts.len() >= 2 { keep_supported(langid_parse(parts[1])) } else { None }
}

/// The language a request path asks for, when the site speaks it.
pub fn lang_code_from_path(path: &str) -> (r: Option<TeraLanguageIdentifier>)
    ensures
        match r {
            Some(t) => lang_from_path(path@) == Some(t.0@),
            None => lang_from_path(path@) is None,
        },
{
    match second_segment(path) {
        Some(code) => match parse_langid(code.as_str()) {
            Some(ident) => if supported(&ident) { Some(TeraLanguageIdentifier(ident)) } else { None },
            None => None,
        },
        None => None,
    }
}

/// The path of a URI (`"http://localhost:3000/ja/lists"` has `/ja/lists`),
/// or `None` when the text is not a URI.
pub uninterp spec fn uri_path_of(s: Seq<char>) -> Option<Seq<char>>;

/// `s.parse::<http::Uri>()` followed by `Uri::path`.
#[verifier::external_body]
pub(crate) fn uri_path(s: &str) -> (r: Option<String>)
    ensures
        match r {
            Some(p) => uri_path_of(s@) == Some(p@),
            None => uri_path_of(s@) is None,
        },
{
    s.parse::<http::Uri>().ok().map(|u| u.path().to_string())
}

/// The language a URI's path starts with, when the site speaks it; `None`
/// also when the text is not a URI.
pub fn lang_code_from_uri(uri: &str) -> (r: Option<TeraLanguageIdentifier>)
    ensures
        match uri_path_of(uri@) {
            Some(p) => match r {
                Some(t) => lang_from_path(p) == Some(t.0@),
                None => lang_from_path(p) is None,
            },
            None => r is None,
        },
{
    match uri_path(uri) {
        Some(p) => lang_code_from_path(p.as_str()),
        None => None,
    }
}

/// A part of an `Accept-Language` header with its quality value (`;q=...`) cut off.
pub open spec fn strip_quality(part: Seq<char>) -> Seq<char> {
    let k = index_of(part, ';');
    if k < 0 { part } else { part.subrange(0, k) }
}

/// The language ranges an `Accept-Language` header lists, in order: its
/// comma-separated parts that are not empty, each without its quality value.
pub open spec fn accept_candidates(parts: Seq<Seq<char>>) -> Seq<Seq<char>>
    decreases parts.len(),
{
    if parts.len() == 0 {
        Seq::empty()
    } else {
        let rest = accept_candidates(parts.drop_first());
        if parts[0].len() == 0 { rest } else { seq![strip_quality(parts[0])] + rest }
    }
}

/// The first candidate that reads as a language identifier the site speaks.
pub open spec fn first_supported(cands: Seq<Seq<char>>) -> Option<(Seq<char>, Option<Seq<char>>, Option<Seq<char>>, Seq<Seq<char>>)>
    decreases cands.len(),
{
    if cands.len() == 0 {
        None
    } else {
        match keep_supported(langid_parse(cands[0])) {
            Some(l) => Some(l),
            None => first_supported(cands.drop_first()),
        }
    }
}

/// The language an `Accept-Language` header asks for: the whole header read
/// as one identifier when the site speaks it, else the first listed language
/// range that the site speaks.
pub open spec fn lang_from_accept_language(h: Seq<char>) -> Option<(Seq<char>, Option<Seq<char>>, Option<Seq<char>>, Seq<Seq<char>>)> {
    match keep_supported(langid_parse(h)) {
        Some(l) => Some(l),
        None => first_supported(accept_candidates(split_on(h, ','))),
    }
}

fn strip_quality_value(part: &str) -> (r: &str)
    ensures
        r@ == strip_quality(part@),
{
    assert(part@.subrange(0, part@.len() as int) =~= part@);
    match crate::text::find_char_from(part, ';', 0) {
        Some(k) => part.substring_char(0, k),
        None => part,
    }
}

/// The language an `Accept-Language` header value asks for, when the site speaks it.
pub fn lang_code_from_accept_language(h: &str) -> (r: Option<TeraLanguageIdentifier>)
    ensures
        match r {
            Some(t) => lang_from_accept_language(h@) == Some(t.0@),
            None => lang_from_accept_language(h@) is None,
        },
{
    match parse_langid(h) {
        Some(ident) => {
            if supported(&ident) {
                return Some(TeraLanguageIdentifier(ident));
            }
        },
        None => {},
    }
    let parts = split_char(h, ',');
    let ghost all = strings_view(parts@);
    let mut i: usize = 0;
    assert(all.subrange(0, all.len() as int) =~= all);
    while i < parts.len()
        invariant
            i <= parts@.len(),
            all == strings_view(parts@),
            all == split_on(h@, ','),
            keep_supported(langid_parse(h@)) is None,
            first_supported(accept_candidates(all)) == first_supported(accept_candidates(all.subrange(i as int, all.len() as int))),
        decreases parts.len() - i,
    {
        let ghost tail = all.subrange(i as int, all.len() as int);
        assert(tail.drop_first() =~= all.subrange(i + 1, all.len() as int));
        assert(tail[0] == parts@[i as int]@);
        let part = parts[i].as_str();
        if part.unicode_len() > 0 {
            let cand = strip_quality_value(part);
            let ghost rest = accept_candidates(tail.drop_first());
            assert((seq![cand@] + rest)[0] == cand@);
            assert((seq![cand@] + rest).drop_first() =~= rest);
            match parse_langid(cand) {
                Some(ident) => {
                    if supported(&ident) {
                        return Some(TeraLanguageIdentifier(ident));
                    }
                },
                None => {},
            }
        }
        i = i + 1;
    }
    None
}

/// The language that a request's `Accept-Language` header asks for, when it
/// has one and the site speaks that language.
pub fn lang_code_from_headers(headers: &http::HeaderMap) -> (r: Option<TeraLanguageIdentifier>)
    ensures
        match first_header_text(header_values(*headers), "Accept-Language"@) {
            Some(h) => match r {
                Some(t) => lang_from_accept_language(h) == Some(t.0@),
                None => lang_from_accept_language(h) is None,
            },
            None => r is None,
        },
{
    match header_str(headers, "Accept-Language") {
        Some(h) => lang_code_from_accept_language(h.as_str()),
        None => None,
    }
}

/// Law: the language a path yields is always one the site speaks.
pub proof fn lemma_path_language_supported(path: Seq<char>)
    ensures
        lang_from_path(path) matches Some(l) ==> supported_spec(l),
{
}

proof fn lemma_first_supported_is_supported(cands: Seq<Seq<char>>)
    ensures
        first_supported(cands) matches Some(l) ==> supported_spec(l),
    decreases cands.len(),
{
    if cands.len() > 0 {
        lemma_first_supported_is_supported(cands.drop_first());
    }
}

/// Law: the language an `Accept-Language` header yields is always one the
/// site speaks.
pub proof fn lemma_accept_language_supported(h: Seq<char>)
    ensures
        lang_from_accept_language(h) matches Some(l) ==> supported_spec(l),
{
    lemma_first_supported_is_supported(accept_candidates(split_on(h, ',')));
}

/// What the language layer does with a request.
pub enum LanguageRoute {
    /// The path names a language the site speaks: handle the request in it.
    Proceed(TeraLanguageIdentifier),
    /// It does not: send the visitor (permanently) to this path instead.
    Redirect(String),
}

/// The language a visitor is sent to when the path names none: the one
/// their `Accept-Language` header asks for, else English.
pub open spec fn fallback_language(accept: Option<Seq<char>>) -> Seq<char> {
    match accept {
        Some(h) => match lang_from_accept_language(h) {
            Some(l) => l.0,
            None => "en"@,
        },
        None => "en"@,
    }
}

/// How the language layer routes a request for `path` with these headers:
/// on when the path starts with a language the site speaks, else a redirect to
/// the same path under `/{language}` (`/lists` becomes `/ja/lists`).
pub fn route_language(path: &str, headers: &http::HeaderMap) -> (r: LanguageRoute)
    ensures
        match lang_from_path(path@) {
            Some(l) => r matches LanguageRoute::Proceed(t) && t.0@ == l,
            None => r matches LanguageRoute::Redirect(to)
                && to@ == "/"@ + fallback_language(first_header_text(header_values(*headers), "Accept-Language"@)) + path@,
        },
        lang_from_path(path@) is None ==> (r matches LanguageRoute::Redirect(to) && to@ == "/"@
            + match first_header_text(header_values(*headers), "Accept-Language"@) {
                Some(h) => match lang_from_accept_language(h) {
                    Some(l) => l.0,
                    None => "en"@,
                },
                None => "en"@,
            } + path@),
{
    match lang_code_from_path(path) {
        Some(t) => LanguageRoute::Proceed(t),
        None => {
            let target = match lang_code_from_headers(headers) {
                Some(t) => t,
                None => TeraLanguageIdentifier(english()),
            };
            let mut to = String::from_str("/");
            to.append(target.0.language.as_str());
            to.append(path);
            LanguageRoute::Redirect(to)
        },
    }
}

/// The paths the language layer leaves alone: the API, the socket, the
/// static assets and the certificate validation files (each a path prefix).
pub open spec fn language_excluded(path: Seq<char>) -> bool {
    "/.well-known"@.is_prefix_of(path) || "/assets"@.is_prefix_of(path)
        || "/api"@.is_prefix_of(path) || "/ws"@.is_prefix_of(path)
}

/// Whether the language layer leaves a request for `path` alone.
pub fn is_language_excluded(path: &str) -> (r: bool)
    ensures
        r == language_excluded(path@),
{
    crate::text::starts_with(path, "/.well-known") || crate::text::starts_with(path, "/assets")
        || crate::text::starts_with(path, "/api") || crate::text::starts_with(path, "/ws")
}

/// Whether one comma-separated part of an `Accept-Language` header names,
/// once its quality value is cut off, a language the site speaks.
pub open spec fn usable_range(part: Seq<char>) -> bool {
    part.len() > 0 && keep_supported(langid_parse(strip_quality(part))) is Some
}

proof fn lemma_first_usable(parts: Seq<Seq<char>>, i: int)
    requires
        0 <= i < parts.len(),
        usable_range(parts[i]),
        forall|j: int| 0 <= j < i ==> !usable_range(#[trigger] parts[j]),
    ensures
        first_supported(accept_candidates(parts)) == keep_supported(langid_parse(strip_quality(parts[i]))),
    decreases parts.len(),
{
    let tail = parts.drop_first();
    if parts[0].len() == 0 {
        assert(i > 0);
        assert forall|j: int| 0 <= j < i - 1 implies !usable_range(#[trigger] tail[j]) by {
            assert(tail[j] == parts[j + 1]);
        }
        assert(tail[i - 1] == parts[i]);
        lemma_first_usable(tail, i - 1);
    } else {
        let c = strip_quality(parts[0]);
        let rest = accept_candidates(tail);
        assert(accept_candidates(parts) == seq![c] + rest);
        assert((seq![c] + rest)[0] == c);
        assert((seq![c] + rest).drop_first() =~= rest);
        if i > 0 {
            assert(!usable_range(parts[0]));
            assert forall|j: int| 0 <= j < i - 1 implies !usable_range(#[trigger] tail[j]) by {
                assert(tail[j] == parts[j + 1]);
            }
            assert(tail[i - 1] == parts[i]);
            lemma_first_usable(tail, i - 1);
        }
    }
}

proof fn lemma_none_usable(parts: Seq<Seq<char>>)
    requires
        forall|j: int| 0 <= j < parts.len() ==> !usable_range(#[trigger] parts[j]),
    ensures
        first_supported(accept_candidates(parts)) is None,
    decreases parts.len(),
{
    if parts.len() > 0 {
        let tail = parts.drop_first();
        assert forall|j: int| 0 <= j < tail.len() implies !usable_range(#[trigger] tail[j]) by {
            assert(tail[j] == parts[j + 1]);
        }
        lemma_none_usable(tail);
        assert(!usable_range(parts[0]));
        if parts[0].len() > 0 {
            let c = strip_quality(parts[0]);
            let rest = accept_candidates(tail);
            assert(accept_candidates(parts) == seq![c] + rest);
            assert((seq![c] + rest)[0] == c);
            assert((seq![c] + rest).drop_first() =~= rest);
        }
    }
}

/// Law: the language an `Accept-Language` header asks for. A header that is
/// itself a language identifier the site speaks gives that language;
/// otherwise the header's comma-separated parts are tried in order, each
/// without its quality value, and the first that names a language the site
/// speaks gives it; when none does, the header names no language.
pub proof fn lemma_accept_language_negotiation(h: Seq<char>, i: int)
    ensures
        keep_supported(langid_parse(h)) is Some ==> lang_from_accept_language(h) == keep_supported(langid_parse(h)),
        keep_supported(langid_parse(h)) is None && 0 <= i < split_on(h, ',').len() && usable_range(split_on(h, ',')[i])
            && (forall|j: int| 0 <= j < i ==> !usable_range(#[trigger] split_on(h, ',')[j]))
            ==> lang_from_accept_language(h) == keep_supported(langid_parse(strip_quality(split_on(h, ',')[i]))),
        keep_supported(langid_parse(h)) is None
            && (forall|j: int| 0 <= j < split_on(h, ',').len() ==> !usable_range(#[trigger] split_on(h, ',')[j]))
            ==> lang_from_accept_language(h) is None,
{
    let parts = split_on(h, ',');
    if keep_supported(langid_parse(h)) is None {
        if 0 <= i < parts.len() && usable_range(parts[i]) && (forall|j: int| 0 <= j < i ==> !usable_range(#[trigger] parts[j])) {
            lemma_first_usable(parts, i);
        }
        if forall|j: int| 0 <= j < parts.len() ==> !usable_range(#[trigger] parts[j]) {
            lemma_none_usable(parts);
        }
    }
}

/// Law: a visitor whose path names no language is always sent to a path
/// under a language the site speaks (English or Japanese).
pub proof fn lemma_redirect_language_supported(accept: Option<Seq<char>>)
    ensures
        fallback_language(accept) == "en"@ || fallback_language(accept) == "ja"@,
{
    if let Some(h) = accept {
        lemma_accept_language_supported(h);
    }
}

/// Puts the language layer in front of a service.
pub struct LanguageIdentifierExtractor<S> {
    pub inner: S,
}

/// Builds `LanguageIdentifierExtractor`s.
pub struct LanguageIdentifierExtractorLayer;

impl LanguageIdentifierExtractorLayer {
    /// Wraps `inner`.
    pub fn layer<S>(&self, inner: S) -> (r: LanguageIdentifierExtractor<S>)
        ensures
            r.inner == inner,
    {
        LanguageIdentifierExtractor { inner }
    }
}

/// Why a translation could not be looked up.
#[derive(Debug, PartialEq, Eq)]
pub enum LocalizeError {
    MissingLang,
    MissingKey,
    LocaleNotRegistered,
    KeyNotInLocale,
    NoValue,
}

impl LocalizeError {
    /// The message that the template engine reports.
    pub fn message(&self) -> (r: &'static str)
        ensures
            r@ == match self {
                LocalizeError::MissingLang => "missing lang param"@,
                LocalizeError::MissingKey => "missing ftl key"@,
                LocalizeError::LocaleNotRegistered => "locale not registered"@,
                LocalizeError::KeyNotInLocale => "FTL key not in locale"@,
                LocalizeError::NoValue => "No value in fluent message"@,
            },
    {
        match self {
            LocalizeError::MissingLang => "missing lang param",
            LocalizeError::MissingKey => "missing ftl key",
            LocalizeError::LocaleNotRegistered => "locale not registered",
            LocalizeError::KeyNotInLocale => "FTL key not in locale",
            LocalizeError::NoValue => "No value in fluent message",
        }
    }
}

/// A translation lookup, read from the arguments of the template function.
pub struct LocalizeRequest {
    /// The language subtag whose bundle holds the message.
    pub language: String,
    /// The message key.
    pub key: String,
    /// The arguments handed on to the message.
    pub args: Vec<(String, String)>,
}

/// Pairs of strings, as text.
pub open spec fn string_pairs_view(v: Seq<(String, String)>) -> Seq<(Seq<char>, Seq<char>)> {
    v.map_values(|a: (String, String)| (a.0@, a.1@))
}

pub open spec fn arg_view(a: (String, Option<String>)) -> (Seq<char>, Option<Seq<char>>) {
    (a.0@, opt_view(a.1))
}

/// The template arguments handed on to a message: all but `lang` and `key`,
/// and only those whose value is a string.
pub open spec fn message_args(args: Seq<(Seq<char>, Option<Seq<char>>)>) -> Seq<(Seq<char>, Seq<char>)>
    decreases args.len(),
{
    if args.len() == 0 {
        Seq::empty()
    } else {
        let rest = message_args(args.drop_first());
        let (k, v) = args[0];
        if k != "lang"@ && k != "key"@ && v is Some {
            seq![(k, v->0)] + rest
        } else {
            rest
        }
    }
}

/// Whether a template argument goes on to the message: its name is neither
/// `lang` nor `key`, and its value is a string.
pub open spec fn is_message_arg(a: (Seq<char>, Option<Seq<char>>)) -> bool {
    a.0 != "lang"@ && a.0 != "key"@ && a.1 is Some
}

/// Law: the message arguments are exactly the template arguments whose
/// name is neither `lang` nor `key` and whose value is a string: every such
/// argument is among them, each of them is such an argument, and there are
/// no more of them than arguments.
pub proof fn lemma_message_args(args: Seq<(Seq<char>, Option<Seq<char>>)>)
    ensures
        forall|i: int| 0 <= i < args.len() && is_message_arg(#[trigger] args[i])
            ==> message_args(args).contains((args[i].0, args[i].1->0)),
        forall|k: int| 0 <= k < message_args(args).len() ==> exists|i: int|
            0 <= i < args.len() && is_message_arg(args[i]) && #[trigger] message_args(args)[k] == (args[i].0, args[i].1->0),
        message_args(args).len() <= args.len(),
    decreases args.len(),
{
    if args.len() > 0 {
        let tail = args.drop_first();
        lemma_message_args(tail);
        let rest = message_args(tail);
        let m = message_args(args);
        if is_message_arg(args[0]) {
            assert(m == seq![(args[0].0, args[0].1->0)] + rest);
        } else {
            assert(m == rest);
        }
        assert forall|i: int| 0 <= i < args.len() && is_message_arg(#[trigger] args[i])
            implies m.contains((args[i].0, args[i].1->0)) by {
            if i == 0 {
                assert(m[0] == (args[0].0, args[0].1->0));
            } else {
                assert(args[i] == tail[i - 1]);
                assert(is_message_arg(tail[i - 1]));
                let k = choose|k: int| 0 <= k < rest.len() && rest[k] == (tail[i - 1].0, tail[i - 1].1->0);
                if is_message_arg(args[0]) {
                    assert(m[k + 1] == rest[k]);
                } else {
                    assert(m[k] == rest[k]);
                }
            }
        }
        assert forall|k: int| 0 <= k < m.len() implies exists|i: int|
            0 <= i < args.len() && is_message_arg(args[i]) && #[trigger] m[k] == (args[i].0, args[i].1->0) by {
            if is_message_arg(args[0]) && k == 0 {
                assert(is_message_arg(args[0]) && m[0] == (args[0].0, args[0].1->0));
            } else {
                let kk = if is_message_arg(args[0]) { k - 1 } else { k };
                assert(m[k] == rest[kk]);
                let j = choose|j: int| 0 <= j < tail.len() && is_message_arg(tail[j]) && rest[kk] == (tail[j].0, tail[j].1->0);
                assert(args[j + 1] == tail[j]);
                assert(is_message_arg(args[j + 1]) && m[k] == (args[j + 1].0, args[j + 1].1->0));
            }
        }
    }
}

/// Whether a (name, value) pair is one of the template arguments, with a
/// name that is neither `lang` nor `key` and a string value.
pub open spec fn is_taken_from(args: Seq<(String, Option<String>)>, p: (Seq<char>, Seq<char>)) -> bool {
    exists|i: int| 0 <= i < args.len() && #[trigger] args[i].0@ != "lang"@ && args[i].0@ != "key"@ && args[i].1 is Some
        && p == (args[i].0@, args[i].1->0@)
}

/// The message arguments of a request, read back against the template
/// arguments they were taken from.
proof fn lemma_kept_args(args: Seq<(String, Option<String>)>, kept: Seq<(String, String)>)
    requires
        string_pairs_view(kept) == message_args(args.map_values(|a: (String, Option<String>)| arg_view(a))),
    ensures
        forall|i: int|
            0 <= i < args.len() && #[trigger] args[i].0@ != "lang"@ && args[i].0@ != "key"@ && args[i].1 is Some
                ==> string_pairs_view(kept).contains((args[i].0@, args[i].1->0@)),
        forall|k: int| 0 <= k < kept.len() ==> is_taken_from(args, #[trigger] string_pairs_view(kept)[k]),
        kept.len() <= args.len(),
{
    let all = args.map_values(|a: (String, Option<String>)| arg_view(a));
    lemma_message_args(all);
    let sp = string_pairs_view(kept);
    assert forall|j: int|
        0 <= j < args.len() && #[trigger] args[j].0@ != "lang"@ && args[j].0@ != "key"@ && args[j].1 is Some
        implies sp.contains((args[j].0@, args[j].1->0@)) by {
        assert(all[j] == arg_view(args[j]));
        assert(is_message_arg(all[j]));
    }
    assert forall|k: int| 0 <= k < kept.len() implies is_taken_from(args, #[trigger] sp[k]) by {
        assert(sp.len() == kept.len());
        assert(sp[k] == message_args(all)[k]);
        let j = choose|j: int| 0 <= j < all.len() && is_message_arg(all[j]) && message_args(all)[k] == (all[j].0, all[j].1->0);
        assert(all[j] == arg_view(args[j]));
        assert(0 <= j < args.len() && args[j].0@ != "lang"@ && args[j].0@ != "key"@ && args[j].1 is Some
            && sp[k] == (args[j].0@, args[j].1->0@));
    }
    assert(sp.len() == kept.len());
}

/// Reads the arguments of the template function `fluent`: `lang` must be a
/// string that reads as a language identifier, `key` must be a string; the
/// other string-valued arguments go on to the message. `lang` and `key` are
/// given as their string values (`None` when absent or not a string), the
/// others in the order the caller lists them.
pub fn localize_request(lang: Option<&str>, key: Option<&str>, args: &Vec<(String, Option<String>)>) -> (r: Result<LocalizeRequest, LocalizeError>)
    ensures
        match lang {
            None => r == Err::<LocalizeRequest, LocalizeError>(LocalizeError::MissingLang),
            Some(l) => match langid_parse(l@) {
                None => r == Err::<LocalizeRequest, LocalizeError>(LocalizeError::MissingLang),
                Some(id) => match key {
                    None => r == Err::<LocalizeRequest, LocalizeError>(LocalizeError::MissingKey),
                    Some(k) => r matches Ok(req) && req.language@ == id.0 && req.key@ == k@
                        && string_pairs_view(req.args@)
                            == message_args(args@.map_values(|a: (String, Option<String>)| arg_view(a))),
                },
            },
        },
        r matches Ok(req) ==> forall|i: int|
            0 <= i < args@.len() && #[trigger] args@[i].0@ != "lang"@ && args@[i].0@ != "key"@ && args@[i].1 is Some
                ==> string_pairs_view(req.args@).contains((args@[i].0@, args@[i].1->0@)),
        r matches Ok(req) ==> forall|k: int| 0 <= k < req.args@.len() ==> is_taken_from(args@, #[trigger] string_pairs_view(req.args@)[k]),
        r matches Ok(req) ==> req.args@.len() <= args@.len(),
{
    let ident = match lang {
        None => return Err(LocalizeError::MissingLang),
        Some(l) => match parse_langid(l) {
            None => return Err(LocalizeError::MissingLang),
            Some(i) => i,
        },
    };
    let key = match key {
        None => return Err(LocalizeError::MissingKey),
        Some(k) => String::from_str(k),
    };
    let ghost all = args@.map_values(|a: (String, Option<String>)| arg_view(a));
    let lang_name = String::from_str("lang");
    let key_name = String::from_str("key");
    let mut i: usize = args.len();
    let mut kept: Vec<(String, String)> = Vec::new();
    assert(all.subrange(args@.len() as int, all.len() as int) =~= Seq::<(Seq<char>, Option<Seq<char>>)>::empty());
    while i > 0
        invariant
            i <= args@.len(),
            all == args@.map_values(|a: (String, Option<String>)| arg_view(a)),
            lang_name@ == "lang"@,
            key_name@ == "key"@,
            kept@.map_values(|a: (String, String)| (a.0@, a.1@)) == message_args(all.subrange(i as int, all.len() as int)),
        decreases i,
    {
        i = i - 1;
        let ghost tail = all.subrange(i as int, all.len() as int);
        assert(tail.drop_first() =~= all.subrange(i + 1, all.len() as int));
        assert(tail[0] == arg_view(args@[i as int]));
        let (k, v) = &args[i];
        match v {
            Some(val) => {
                if !(*k == lang_name) && !(*k == key_name) {
                    let ghost before = kept@.map_values(|a: (String, String)| (a.0@, a.1@));
                    kept.insert(0, (k.clone(), val.clone()));
                    assert(kept@.map_values(|a: (String, String)| (a.0@, a.1@)) =~= seq![(k@, val@)] + before);
                }
            },
            None => {},
        }
    }
    assert(all.subrange(0, all.len() as int) =~= all);
    proof { lemma_kept_args(args@, kept@); }
    Ok(LocalizeRequest { language: ident.language, key, args: kept })
}

} // verus!
