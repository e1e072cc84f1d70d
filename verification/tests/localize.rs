use fluent::bundle::FluentBundle;
use fluent::FluentResource;
use listo_rs::i18n::LocalizeError;
use listo_rs::localize::{localize, Locales};
use unic_langid::LanguageIdentifier;

fn english_locales() -> Locales {
    let en: LanguageIdentifier = "en".parse().unwrap();
    let mut bundle = FluentBundle::new_concurrent(vec![en]);
    bundle.set_use_isolating(false);
    let ftl = String::from("title = Hello { $name }\nplain = Lists\nonly-attr =\n    .label = x\n");
    bundle.add_resource(FluentResource::try_new(ftl).unwrap()).unwrap();
    let mut locales = Locales::new();
    locales.add(String::from("en"), bundle);
    locales
}

#[test]
fn translations_are_formatted_with_the_string_arguments() {
    let locales = english_locales();
    let args = vec![
        (String::from("lang"), Some(String::from("en"))),
        (String::from("key"), Some(String::from("title"))),
        (String::from("name"), Some(String::from("Austin"))),
    ];
    assert_eq!(localize(&locales, Some("en-US"), Some("title"), &args), Ok(String::from("Hello Austin")));
    assert_eq!(localize(&locales, Some("en"), Some("plain"), &args), Ok(String::from("Lists")));
}

#[test]
fn translation_errors() {
    let locales = english_locales();
    let args = Vec::new();
    assert_eq!(localize(&locales, None, Some("title"), &args), Err(LocalizeError::MissingLang));
    assert_eq!(localize(&locales, Some("en"), None, &args), Err(LocalizeError::MissingKey));
    assert_eq!(localize(&locales, Some("ja"), Some("title"), &args), Err(LocalizeError::LocaleNotRegistered));
    assert_eq!(localize(&locales, Some("en"), Some("missing"), &args), Err(LocalizeError::KeyNotInLocale));
    assert_eq!(localize(&locales, Some("en"), Some("only-attr"), &args), Err(LocalizeError::NoValue));
}
