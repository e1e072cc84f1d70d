use http::{HeaderMap, HeaderValue};
use listo_rs::i18n::{
    english, japanese, lang_code_from_accept_language, lang_code_from_headers, lang_code_from_path,
    lang_code_from_uri, localize_request, route_language, supported, LangId, LanguageRoute,
    LocalizeError, TeraLanguageIdentifier,
};

fn lang(language: &str, region: Option<&str>) -> LangId {
    LangId {
        language: language.to_string(),
        script: None,
        region: region.map(|r| r.to_string()),
        variants: Vec::new(),
    }
}

#[test]
fn can_get_supported_lang_code_from_uri() {
    let uri = "http://localhost:3000/ja/lists";

    let ident = lang_code_from_uri(uri);

    assert!(ident.is_some());
    assert_eq!(ident.unwrap().as_lang(), &japanese())
}

#[test]
fn unsupported_lang_code_from_uri() {
    let uri = "http://localhost:3000/de/lists";

    let ident = lang_code_from_uri(uri);

    assert!(ident.is_none());
}

#[test]
fn can_extract_lang_header_single() {
    let mut headers = HeaderMap::new();
    headers.insert("Accept-Language", HeaderValue::from_static("en"));

    let ident = lang_code_from_headers(&headers).unwrap();

    let target = lang("en", None);
    assert_eq!(ident.as_lang(), &target)
}

#[test]
fn can_extract_lang_header_compound() {
    let mut headers = HeaderMap::new();
    headers.insert("Accept-Language", HeaderValue::from_static("en-US"));

    let ident = lang_code_from_headers(&headers).unwrap();

    let target = lang("en", Some("US"));
    assert_eq!(ident.as_lang(), &target)
}

#[test]
fn can_extract_lang_header_compound_with_quality_val() {
    let mut headers = HeaderMap::new();
    headers.insert("Accept-Language", HeaderValue::from_static("en-US,en;q=0.5"));

    let ident = lang_code_from_headers(&headers).unwrap();

    let target = lang("en", Some("US"));
    assert_eq!(ident.as_lang(), &target)
}

#[test]
fn can_extract_lang_header_wildcard() {
    let mut headers = HeaderMap::new();
    headers.insert("Accept-Language", HeaderValue::from_static("*"));
}

#[test]
fn wildcard_header_names_no_language() {
    let mut headers = HeaderMap::new();
    headers.insert("Accept-Language", HeaderValue::from_static("*"));
    assert!(lang_code_from_headers(&headers).is_none());
    assert!(lang_code_from_headers(&HeaderMap::new()).is_none());
}

#[test]
fn accept_language_takes_first_supported_range() {
    assert_eq!(lang_code_from_accept_language("de-DE,ja;q=0.8,en;q=0.5").unwrap().0, lang("ja", None));
    assert!(lang_code_from_accept_language("de,fr").is_none());
    // Parts are not trimmed: " ja" is not a language identifier.
    assert!(lang_code_from_accept_language("de, ja").is_none());
    assert_eq!(lang_code_from_accept_language("ja-JP").unwrap().0, lang("ja", Some("JP")));
}

#[test]
fn supported_languages() {
    assert!(supported(&english()));
    assert!(supported(&japanese()));
    assert!(supported(&lang("en", Some("GB"))));
    assert!(!supported(&lang("de", None)));
}

#[test]
fn parses_language_identifiers() {
    // Identifiers are normalised as they are read.
    assert_eq!(lang_code_from_accept_language("EN-us").unwrap().0, lang("en", Some("US")));
    assert!(lang_code_from_accept_language("not a lang").is_none());
}

#[test]
fn path_language() {
    assert_eq!(lang_code_from_path("/ja/lists").unwrap().0, japanese());
    assert!(lang_code_from_path("/lists").is_none());
    assert!(lang_code_from_path("").is_none());
}

#[test]
fn routes_requests_by_language() {
    let headers = HeaderMap::new();
    match route_language("/en/lists", &headers) {
        LanguageRoute::Proceed(t) => assert_eq!(t.0, english()),
        LanguageRoute::Redirect(_) => panic!("expected to proceed"),
    }
    match route_language("/lists", &headers) {
        LanguageRoute::Redirect(to) => assert_eq!(to, "/en/lists"),
        LanguageRoute::Proceed(_) => panic!("expected a redirect"),
    }
    let mut headers = HeaderMap::new();
    headers.insert("Accept-Language", HeaderValue::from_static("ja"));
    match route_language("/lists", &headers) {
        LanguageRoute::Redirect(to) => assert_eq!(to, "/ja/lists"),
        LanguageRoute::Proceed(_) => panic!("expected a redirect"),
    }
}

#[test]
fn localize_request_reads_template_arguments() {
    let args = vec![
        (String::from("lang"), Some(String::from("ja"))),
        (String::from("key"), Some(String::from("title"))),
        (String::from("name"), Some(String::from("Austin"))),
        (String::from("count"), None),
    ];
    let req = localize_request(Some("ja"), Some("title"), &args).unwrap();
    assert_eq!(req.language, "ja");
    assert_eq!(req.key, "title");
    assert_eq!(req.args, vec![(String::from("name"), String::from("Austin"))]);
    assert_eq!(localize_request(None, Some("title"), &args).err(), Some(LocalizeError::MissingLang));
    assert_eq!(localize_request(Some("??"), Some("title"), &args).err(), Some(LocalizeError::MissingLang));
    assert_eq!(localize_request(Some("en"), None, &args).err(), Some(LocalizeError::MissingKey));
    assert_eq!(LocalizeError::KeyNotInLocale.message(), "FTL key not in locale");
}

#[test]
fn language_tags() {
    assert_eq!(TeraLanguageIdentifier(lang("en", Some("US"))).to_tag(), "en-US");
    let sr = LangId {
        language: String::from("sr"),
        script: Some(String::from("Latn")),
        region: Some(String::from("RS")),
        variants: vec![String::from("ekavsk")],
    };
    assert_eq!(TeraLanguageIdentifier(sr).to_tag(), "sr-Latn-RS-ekavsk");
    assert_eq!(TeraLanguageIdentifier(japanese()).to_tag(), "ja");
}
