use wikilook::interpret::{interpret, DecodedBody, Page, TransportFailure};
use wikilook::lang::resolve_language;
use wikilook::query::{build_request, endpoint_url, query_string};
use wikilook::LookupError;

/// Decodes a raw response body against the expected schema, the way the
/// driver around the library does: a top-level object with a `query`
/// object holding a `pages` mapping from page id to an object with a
/// string `extract` field; anything else is malformed. Extra fields are
/// ignored.
fn decode_body(body: &str) -> DecodedBody {
    let value: serde_json::Value = match serde_json::from_str(body) {
        Ok(v) => v,
        Err(_) => return DecodedBody::Malformed,
    };
    let pages = match value.get("query").and_then(|q| q.get("pages")).and_then(|p| p.as_object()) {
        Some(p) => p,
        None => return DecodedBody::Malformed,
    };
    let mut out: Vec<Page> = Vec::new();
    for (id, page) in pages {
        match page.get("extract").and_then(|e| e.as_str()) {
            Some(extract) => out.push(Page {
                id: id.clone(),
                extract: extract.to_string(),
            }),
            None => return DecodedBody::Malformed,
        }
    }
    DecodedBody::Pages(out)
}

#[test]
fn happy_path_prints_first_extract() {
    let body = r#"{"query":{"pages":{"123":{"extract":"Rust is a programming language."}}}}"#;
    let outcome: Result<DecodedBody, TransportFailure> = Ok(decode_body(body));
    let r = interpret(outcome);
    assert_eq!(r, Ok("Rust is a programming language.".to_string()));
}

#[test]
fn empty_pages_is_not_found() {
    let body = r#"{"query":{"pages":{}}}"#;
    let r = interpret(Ok(decode_body(body)));
    assert_eq!(r, Err(LookupError::NotFound));
    assert_eq!(LookupError::NotFound.message(), "Not found...");
}

#[test]
fn malformed_body_is_not_found() {
    let body = "not json";
    let r = interpret(Ok(decode_body(body)));
    assert_eq!(r, Err(LookupError::NotFound));
}

#[test]
fn missing_pages_field_is_not_found() {
    let body = r#"{"query":{}}"#;
    let r = interpret(Ok(decode_body(body)));
    assert_eq!(r, Err(LookupError::NotFound));
}

#[test]
fn page_without_extract_is_not_found() {
    let body = r#"{"query":{"pages":{"7":{"title":"Untitled"}}}}"#;
    let r = interpret(Ok(decode_body(body)));
    assert_eq!(r, Err(LookupError::NotFound));
}

#[test]
fn extra_fields_are_ignored() {
    let body = r#"{"batchcomplete":"","query":{"normalized":[],"pages":{"5":{"pageid":5,"ns":0,"title":"T","extract":"Text."}}}}"#;
    let r = interpret(Ok(decode_body(body)));
    assert_eq!(r, Ok("Text.".to_string()));
}

#[test]
fn several_pages_yield_one_of_their_extracts() {
    let body = r#"{"query":{"pages":{"1":{"extract":"First."},"2":{"extract":"Second."}}}}"#;
    let r = interpret(Ok(decode_body(body))).unwrap();
    assert!(r == "First." || r == "Second.");
}

#[test]
fn transport_failure_is_language_not_found() {
    let r = interpret(Err(TransportFailure));
    assert_eq!(r, Err(LookupError::LanguageNotFound));
    assert_eq!(
        LookupError::LanguageNotFound.message(),
        "That language does not exist"
    );
}

#[test]
fn extract_passes_through_verbatim() {
    let extract = "  \n Rust is a language.\n\nIt has no runtime. \t\n";
    let pages = vec![Page {
        id: "9".to_string(),
        extract: extract.to_string(),
    }];
    let r = interpret(Ok(DecodedBody::Pages(pages)));
    assert_eq!(r, Ok(extract.to_string()));
}

#[test]
fn flag_wins_over_locale() {
    let r = resolve_language(Some("de".to_string()), Some("fr_FR.UTF-8".to_string()));
    assert_eq!(r, "de");
}

#[test]
fn locale_prefix_when_no_flag() {
    let r = resolve_language(None, Some("fr_FR.UTF-8".to_string()));
    assert_eq!(r, "fr");
}

#[test]
fn default_language_is_en() {
    let r = resolve_language(None, None);
    assert_eq!(r, "en");
}

#[test]
fn two_character_locale_is_taken_whole() {
    let r = resolve_language(None, Some("de".to_string()));
    assert_eq!(r, "de");
}

#[test]
fn endpoint_follows_template() {
    assert_eq!(endpoint_url("en"), "https://en.wikipedia.org/w/api.php");
    assert_eq!(endpoint_url("de"), "https://de.wikipedia.org/w/api.php");
}

#[test]
fn query_string_carries_fixed_parameters_and_phrase() {
    assert_eq!(
        query_string("Rust (programming language)"),
        "format=json&action=query&prop=extracts&exintro=true&explaintext=true&redirects=1&titles=Rust+%28programming+language%29"
    );
}

#[test]
fn query_string_encodes_multibyte_characters() {
    assert_eq!(
        query_string("café"),
        "format=json&action=query&prop=extracts&exintro=true&explaintext=true&redirects=1&titles=caf%C3%A9"
    );
}

#[test]
fn encoding_matches_form_urlencoding() {
    let phrases = [
        "Rust (programming language)",
        "café au lait",
        "a*b-c.d_e",
        "ümläute & mehr?",
        "日本語",
        "",
    ];
    for phrase in phrases {
        let expected: String = url::form_urlencoded::byte_serialize(phrase.as_bytes()).collect();
        let q = query_string(phrase);
        let got = &q[q.find("titles=").unwrap() + "titles=".len()..];
        assert_eq!(got, expected, "phrase {:?}", phrase);
    }
}

#[test]
fn built_request_parses_as_url() {
    let req = build_request("en", "Rust (programming language)").unwrap();
    let full = req.url_with_query();
    let parsed = url::Url::parse(&full).unwrap();
    assert_eq!(parsed.host_str(), Some("en.wikipedia.org"));
    assert_eq!(parsed.path(), "/w/api.php");
    assert_eq!(
        parsed.query(),
        Some("format=json&action=query&prop=extracts&exintro=true&explaintext=true&redirects=1&titles=Rust+%28programming+language%29")
    );
}

#[test]
fn malformed_language_code_is_invalid_endpoint() {
    let r = build_request("a b", "Rust");
    assert!(matches!(r, Err(LookupError::InvalidEndpoint)));
    assert_eq!(LookupError::InvalidEndpoint.message(), "Invalid endpoint");
}

#[test]
fn well_formed_language_code_builds_a_request() {
    let r = build_request("zz", "anything");
    assert!(r.is_ok());
}
