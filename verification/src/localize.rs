//! Translation lookup for the templates: which message bundle a request
//! reads, which errors it meets, and what it gives back, through `fluent`.

use vstd::prelude::*;
use fluent::FluentResource;
use fluent::bundle::FluentBundle;
use intl_memoizer::concurrent::IntlLangMemoizer;
use crate::i18n::{arg_view, langid_parse, localize_request, message_args, string_pairs_view, LocalizeError};

verus! {

#[verifier::external_type_specification]
#[verifier::external_body]
#[verifier::reject_recursive_types(R)]
#[verifier::reject_recursive_types(M)]
pub struct ExFluentBundle<R, M>(FluentBundle<R, M>);

#[verifier::external_type_specification]
#[verifier::external_body]
pub struct ExFluentResource(FluentResource);

#[verifier::external_type_specification]
#[verifier::external_body]
pub struct ExIntlLangMemoizer(IntlLangMemoizer);

/// What a bundle holds under a message key: `None` when there is no such
/// message, `Some(false)` when the message has no value (only attributes),
/// `Some(true)` when it has one.
pub uninterp spec fn message_state_of(b: FluentBundle<FluentResource, IntlLangMemoizer>, key: Seq<char>) -> Option<bool>;

/// The text that a bundle formats the value of message `key` into, with the
/// given string arguments.
pub uninterp spec fn formatted(b: FluentBundle<FluentResource, IntlLangMemoizer>, key: Seq<char>, args: Seq<(Seq<char>, Seq<char>)>) -> Seq<char>;

/// `FluentBundle::get_message(key)` and `FluentMessage::value`: whether the
/// message exists, and whether it has a value.
#[verifier::external_body]
fn message_state(b: &FluentBundle<FluentResource, IntlLangMemoizer>, key: &str) -> (r: Option<bool>)
    ensures
        r == message_state_of(*b, key@),
{
    b.get_message(key).map(|m| m.value().is_some())
}

/// `FluentBundle::format_pattern` on the value of message `key`, with the
/// arguments collected into `FluentArgs` (formatting errors are dropped, as
/// the formatter then still gives back its text).
#[verifier::external_body]
fn format_message(b: &FluentBundle<FluentResource, IntlLangMemoizer>, key: &str, args: &Vec<(String, String)>) -> (r: String)
    requires
        message_state_of(*b, key@) == Some(true),
    ensures
        r@ == formatted(*b, key@, string_pairs_view(args@)),
{
    let fluent_args: fluent::FluentArgs = args.iter().map(|(k, v)| (k.clone(), v.clone())).collect();
    let pattern = b.get_message(key).and_then(|m| m.value()).expect("the message has a value");
    let mut errors = Vec::new();
    b.format_pattern(pattern, Some(&fluent_args), &mut errors).to_string()
}

/// The bundle registered for a language: the one added last.
pub open spec fn bundle_for(entries: Seq<(Seq<char>, FluentBundle<FluentResource, IntlLangMemoizer>)>, language: Seq<char>)
    -> Option<FluentBundle<FluentResource, IntlLangMemoizer>>
    decreases entries.len(),
{
    if entries.len() == 0 {
        None
    } else if entries[0].0 == language {
        Some(entries[0].1)
    } else {
        bundle_for(entries.drop_first(), language)
    }
}

/// The message bundles of the site, by language subtag.
pub struct Locales {
    bundles: Vec<(String, FluentBundle<FluentResource, IntlLangMemoizer>)>,
}

impl Locales {
    /// The registered bundles, the latest first.
    pub closed spec fn entries(&self) -> Seq<(Seq<char>, FluentBundle<FluentResource, IntlLangMemoizer>)> {
        self.bundles@.map_values(|e: (String, FluentBundle<FluentResource, IntlLangMemoizer>)| (e.0@, e.1))
    }

    /// No bundles.
    pub fn new() -> (r: Locales)
        ensures
            r.entries() == Seq::<(Seq<char>, FluentBundle<FluentResource, IntlLangMemoizer>)>::empty(),
    {
        let r = Locales { bundles: Vec::new() };
        assert(r.entries() =~= Seq::empty());
        r
    }

    /// Registers `bundle` for `language`, in place of any earlier one.
    pub fn add(&mut self, language: String, bundle: FluentBundle<FluentResource, IntlLangMemoizer>)
        ensures
            final(self).entries() == seq![(language@, bundle)] + old(self).entries(),
    {
        let ghost l = language@;
        let ghost b = bundle;
        self.bundles.insert(0, (language, bundle));
        assert(self.entries() =~= seq![(l, b)] + old(self).entries());
    }

    /// The bundle registered for `language`, if any.
    pub fn get(&self, language: &str) -> (r: Option<&FluentBundle<FluentResource, IntlLangMemoizer>>)
        ensures
            match r {
                Some(b) => bundle_for(self.entries(), language@) == Some(*b),
                None => bundle_for(self.entries(), language@) is None,
            },
    {
        let ghost all = self.entries();
        let wanted = String::from_str(language);
        let mut i: usize = 0;
        assert(all.subrange(0, all.len() as int) =~= all);
        while i < self.bundles.len()
            invariant
                i <= self.bundles@.len(),
                all == self.entries(),
                wanted@ == language@,
                all.len() == self.bundles@.len(),
                bundle_for(all, language@) == bundle_for(all.subrange(i as int, all.len() as int), language@),
            decreases self.bundles.len() - i,
        {
            let ghost tail = all.subrange(i as int, all.len() as int);
            assert(tail.drop_first() =~= all.subrange(i + 1, all.len() as int));
            assert(tail[0] == (self.bundles@[i as int].0@, self.bundles@[i as int].1));
            let entry = &self.bundles[i];
            if entry.0 == wanted {
                return Some(&entry.1);
            }
            i = i + 1;
        }
        assert(all.subrange(i as int, all.len() as int) =~= Seq::<(Seq<char>, FluentBundle<FluentResource, IntlLangMemoizer>)>::empty());
        None
    }
}

/// What the template function `fluent` answers: `lang` must be a string that
/// reads as a language identifier and `key` a string (else `MissingLang`,
/// `MissingKey`); a bundle must be registered for the language's subtag (else
/// `LocaleNotRegistered`); it must hold a message `key` (else
/// `KeyNotInLocale`) that has a value (else `NoValue`); then the answer is
/// that value formatted with the other string-valued arguments.
pub open spec fn localize_spec(
    entries: Seq<(Seq<char>, FluentBundle<FluentResource, IntlLangMemoizer>)>,
    lang: Option<Seq<char>>,
    key: Option<Seq<char>>,
    args: Seq<(Seq<char>, Option<Seq<char>>)>,
) -> Result<Seq<char>, LocalizeError> {
    match lang {
        None => Err(LocalizeError::MissingLang),
        Some(l) => match langid_parse(l) {
            None => Err(LocalizeError::MissingLang),
            Some(id) => match key {
                None => Err(LocalizeError::MissingKey),
                Some(k) => match bundle_for(entries, id.0) {
                    None => Err(LocalizeError::LocaleNotRegistered),
                    Some(b) => match message_state_of(b, k) {
                        None => Err(LocalizeError::KeyNotInLocale),
                        Some(false) => Err(LocalizeError::NoValue),
                        Some(true) => Ok(formatted(b, k, message_args(args))),
                    },
                },
            },
        },
    }
}

pub open spec fn opt_str_view(o: Option<&str>) -> Option<Seq<char>> {
    match o {
        Some(s) => Some(s@),
        None => None,
    }
}

/// The template function `fluent`: looks up message `key` in the bundle of
/// language `lang` and formats it with the other string-valued arguments.
pub fn localize(l: &Locales, lang: Option<&str>, key: Option<&str>, args: &Vec<(String, Option<String>)>) -> (r: Result<String, LocalizeError>)
    ensures
        match r {
            Ok(s) => localize_spec(l.entries(), opt_str_view(lang), opt_str_view(key), args@.map_values(|a: (String, Option<String>)| arg_view(a))) == Ok::<Seq<char>, LocalizeError>(s@),
            Err(e) => localize_spec(l.entries(), opt_str_view(lang), opt_str_view(key), args@.map_values(|a: (String, Option<String>)| arg_view(a))) == Err::<Seq<char>, LocalizeError>(e),
        },
{
    let req = match localize_request(lang, key, args) {
        Ok(req) => req,
        Err(e) => return Err(e),
    };
    let bundle = match l.get(req.language.as_str()) {
        Some(b) => b,
        None => return Err(LocalizeError::LocaleNotRegistered),
    };
    match message_state(bundle, req.key.as_str()) {
        None => Err(LocalizeError::KeyNotInLocale),
        Some(false) => Err(LocalizeError::NoValue),
        Some(true) => Ok(format_message(bundle, req.key.as_str(), &req.args)),
    }
}

} // verus!
