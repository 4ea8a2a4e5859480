use tokogate::json::{parse_json, JsonValue};
use tokogate::media::{accept_tokens, has, negotiate_page, priority, Representation};
use tokogate::route::{route, Route};
use tokogate::text::{between, fmt_u64, parse_u64, replace_all};
use tokogate::transform::{transform_search, UpstreamError};

fn chars(s: &str) -> Vec<char> {
    s.chars().collect()
}

#[test]
fn routes_dispatch_as_the_table_says() {
    assert!(matches!(route("HEAD", "/anything/at/all"), Route::Head));
    assert!(matches!(route("GET", "/"), Route::Info));
    match route("GET", "/search/shoes") {
        Route::Search(q) => assert_eq!(q, "shoes"),
        other => panic!("wrong route: {:?}", other),
    }
    match route("GET", "/lookup/seller/product") {
        Route::Lookup(s, p) => {
            assert_eq!(s, "seller");
            assert_eq!(p, "product");
        },
        other => panic!("wrong route: {:?}", other),
    }
    assert!(matches!(route("GET", "/unknown/thing"), Route::NotFound));
    assert!(matches!(route("POST", "/search/shoes"), Route::NotFound));
    assert!(matches!(route("GET", "/search/a/b"), Route::NotFound));
    assert!(matches!(route("GET", "/search"), Route::NotFound));
    assert!(matches!(route("GET", "//"), Route::NotFound));
}

#[test]
fn empty_path_segments_are_dropped() {
    match route("GET", "/search//shoes/") {
        Route::Search(q) => assert_eq!(q, "shoes"),
        other => panic!("wrong route: {:?}", other),
    }
}

#[test]
fn accept_tokens_are_normalized_in_order() {
    let toks = accept_tokens("text/html, application/xhtml+xml;q=0.9, IMAGE/PNG, */*");
    assert_eq!(toks, vec!["text/html", "application/xhtml", "image/png", "*/*"]);
    // Trimming happens before the `;` cut, so a space before `;` survives,
    // and such a token never matches a supported type.
    let toks = accept_tokens("text/html ;q=1");
    assert_eq!(toks, vec!["text/html "]);
}

#[test]
fn accept_tokens_keep_empty_pieces() {
    let toks = accept_tokens("a,,b");
    assert_eq!(toks, vec!["a", "", "b"]);
}

#[test]
fn priority_follows_client_order_not_server_order() {
    let supported = vec!["application/json".to_string(), "text/html".to_string()];
    let chosen = priority("text/html;q=0.1, application/json", &supported);
    assert_eq!(chosen, Some("text/html".to_string()));
    let chosen = priority("image/png, audio/ogg", &supported);
    assert_eq!(chosen, None);
}

#[test]
fn has_names_normalized_tokens() {
    assert!(has("text/html, application/json;q=0.2", "application/json"));
    assert!(!has("text/html, application/json", "image/png"));
}

#[test]
fn negotiation_is_case_insensitive() {
    assert_eq!(
        negotiate_page(Some("Application/JSON")),
        Representation::Json
    );
}

#[test]
fn between_extracts_strictly_between_markers() {
    let r = between(&chars("https://x.com/shopA/111?extra=1"), &chars("shopA/"), &chars("?"));
    assert_eq!(r, Some(chars("111")));
    // first marker missing
    assert_eq!(between(&chars("abcdef"), &chars("x"), &chars("f")), None);
    // second marker missing after the first
    assert_eq!(between(&chars("abcdef"), &chars("ab"), &chars("x")), None);
    // empty piece between the markers
    assert_eq!(between(&chars("ab?cd"), &chars("ab"), &chars("?")), None);
    // the second marker is searched only after the first
    assert_eq!(
        between(&chars("?abXcd"), &chars("ab"), &chars("?")),
        None
    );
}

#[test]
fn replace_all_replaces_every_occurrence() {
    let r = replace_all(&chars("aXbXc"), &chars("X"), &chars("--"));
    assert_eq!(r, chars("a--b--c"));
    let r = replace_all(&chars("https://www.tokopedia.com/shopA"), &chars("https://www.tokopedia.com/"), &chars(""));
    assert_eq!(r, chars("shopA"));
}

#[test]
fn parse_u64_matches_standard_parsing() {
    assert_eq!(parse_u64(&chars("0")), Some(0));
    assert_eq!(parse_u64(&chars("42")), Some(42));
    assert_eq!(parse_u64(&chars("+5")), Some(5));
    assert_eq!(parse_u64(&chars("many")), None);
    assert_eq!(parse_u64(&chars("")), None);
    assert_eq!(parse_u64(&chars("+")), None);
    assert_eq!(parse_u64(&chars("-1")), None);
    assert_eq!(parse_u64(&chars("4 2")), None);
    assert_eq!(parse_u64(&chars("18446744073709551615")), Some(u64::MAX));
    assert_eq!(parse_u64(&chars("18446744073709551616")), None);
    assert_eq!(parse_u64(&chars("99999999999999999999999")), None);
}

#[test]
fn fmt_u64_writes_decimal() {
    assert_eq!(fmt_u64(0), chars("0"));
    assert_eq!(fmt_u64(7), chars("7"));
    assert_eq!(fmt_u64(15000), chars("15000"));
    assert_eq!(fmt_u64(u64::MAX), chars("18446744073709551615"));
}

#[test]
fn parse_json_builds_the_gateway_tree() {
    let v = parse_json("{\"a\":1,\"b\":[true,null,\"s\"],\"c\":-2.5}").expect("valid json");
    match &v {
        JsonValue::Object(fields) => {
            assert_eq!(fields.len(), 3);
            assert_eq!(fields[0].0, "a");
            assert!(matches!(fields[0].1, JsonValue::UInt(1)));
            match &fields[1].1 {
                JsonValue::Array(items) => {
                    assert_eq!(items.len(), 3);
                    assert!(matches!(items[0], JsonValue::Bool(true)));
                    assert!(matches!(items[1], JsonValue::Null));
                    match &items[2] {
                        JsonValue::Str(s) => assert_eq!(s, "s"),
                        other => panic!("wrong value: {:?}", other),
                    }
                },
                other => panic!("wrong value: {:?}", other),
            }
            assert!(matches!(fields[2].1, JsonValue::NonUInt));
        },
        other => panic!("wrong value: {:?}", other),
    }
    assert!(parse_json("not json").is_none());
}

#[test]
fn transform_rejects_a_body_of_the_wrong_shape() {
    let r = transform_search(&JsonValue::Null);
    assert!(matches!(r, Err(UpstreamError::Schema)));
}
