use tokogate::gateway::{
    error_reply, head_reply, info_reply, lookup_reply, not_found_reply, search_reply,
};
use tokogate::media::Representation;
use tokogate::transform::UpstreamError;

const TEMPLATE_INFO: &str = "<html><title>$title</title><body>$title build $build</body></html>\n";
const TEMPLATE_404: &str = "<html><title>$title</title><body>404</body></html>\n";

#[test]
fn info_json_has_exactly_the_fixed_keys() {
    let r = info_reply(Some("application/json"), "Tokopedia Client API", "abc123", TEMPLATE_INFO);
    assert_eq!(r.status, 200);
    assert_eq!(r.kind, Representation::Json);
    assert_eq!(
        r.body,
        "{\"build\":\"abc123\",\"name\":\"Tokopedia Client API\",\"success\":true}"
    );
}

#[test]
fn info_json_wins_when_listed_first() {
    let r = info_reply(
        Some("application/json, text/html"),
        "App",
        "b1",
        TEMPLATE_INFO,
    );
    assert_eq!(r.kind, Representation::Json);
    let r = info_reply(
        Some("text/html, application/json"),
        "App",
        "b1",
        TEMPLATE_INFO,
    );
    assert_eq!(r.kind, Representation::Html);
}

#[test]
fn info_plain_text_without_header_or_overlap() {
    let r = info_reply(None, "App", "b1", TEMPLATE_INFO);
    assert_eq!(r.kind, Representation::PlainText);
    assert_eq!(r.body, "App (build b1)");
    let r = info_reply(Some("text/plain, image/png"), "App", "b1", TEMPLATE_INFO);
    assert_eq!(r.kind, Representation::PlainText);
    assert_eq!(r.body, "App (build b1)");
}

#[test]
fn info_html_substitutes_and_trims() {
    let r = info_reply(Some("text/html"), "App", "b1", TEMPLATE_INFO);
    assert_eq!(r.kind, Representation::Html);
    assert_eq!(
        r.body,
        "<html><title>App</title><body>App build b1</body></html>"
    );
}

#[test]
fn not_found_plain_text_body_is_exact() {
    let r = not_found_reply(None, "App", TEMPLATE_404);
    assert_eq!(r.status, 404);
    assert_eq!(r.kind, Representation::PlainText);
    assert_eq!(r.body, "404 Not found");
}

#[test]
fn not_found_negotiates_json_and_html() {
    let r = not_found_reply(Some("application/json, text/html"), "App", TEMPLATE_404);
    assert_eq!(r.status, 404);
    assert_eq!(r.kind, Representation::Json);
    assert_eq!(r.body, "{\"reason\":\"404 Not found\",\"success\":false}");
    let r = not_found_reply(Some("text/html, application/json"), "App", TEMPLATE_404);
    assert_eq!(r.kind, Representation::Html);
    assert_eq!(
        r.body,
        "<html><title>App</title><body>404</body></html>"
    );
}

#[test]
fn head_reply_is_empty_ok() {
    let r = head_reply();
    assert_eq!(r.status, 200);
    assert_eq!(r.body, "");
}

#[test]
fn lookup_sentinel_short_circuits_without_parsing() {
    // Not valid JSON at all: only the sentinel decides the outcome.
    let body = "this is not json at all ... product: not found ... trailing";
    let r = lookup_reply(body);
    assert_eq!(r.status, 200);
    assert_eq!(r.body, "{\"reason\":\"Product not found\",\"success\":false}");
}

fn lookup_fixture(basic_info: &str, stock_value: &str) -> String {
    format!(
        "[{{\"data\":{{\"pdpGetLayout\":{{\"basicInfo\":{basic},\"components\":[\
         {{\"name\":\"product_content\",\"data\":[{{\"name\":\"Thing\",\
         \"price\":{{\"value\":15000}},\"stock\":{{\"value\":\"{stock}\"}}}}]}},\
         {{\"name\":\"product_detail\",\"data\":[{{\"content\":[\
         {{\"title\":\"Spec\",\"subtitle\":\"ignored\"}},\
         {{\"title\":\"Deskripsi\",\"subtitle\":\"A nice thing\"}}]}}]}},\
         {{\"name\":\"other_component\"}}]}}}}}}]",
        basic = basic_info,
        stock = stock_value
    )
}

const GOOD_BASIC: &str = "{\"shopName\":\"Shop\",\"url\":\"https://www.tokopedia.com/shop/thing\",\"createdAt\":\"2020-01-01\"}";

#[test]
fn lookup_success_renders_the_detail() {
    let r = lookup_reply(&lookup_fixture(GOOD_BASIC, "5"));
    assert_eq!(r.status, 200);
    assert_eq!(
        r.body,
        "{\"createdAt\":\"2020-01-01\",\"description\":\"A nice thing\",\
         \"originalUrl\":\"https://www.tokopedia.com/shop/thing\",\"price\":15000,\
         \"stock\":5,\"storeName\":\"Shop\",\"success\":true,\"title\":\"Thing\"}"
    );
}

#[test]
fn lookup_missing_shop_name_is_a_schema_error_not_a_crash() {
    let basic = "{\"url\":\"https://www.tokopedia.com/shop/thing\",\"createdAt\":\"2020-01-01\"}";
    let r = lookup_reply(&lookup_fixture(basic, "5"));
    assert_eq!(r.status, 502);
    assert_eq!(r.body, "{\"reason\":\"Upstream schema error\",\"success\":false}");
    // The process keeps serving: an unrelated request still succeeds.
    let ok = lookup_reply(&lookup_fixture(GOOD_BASIC, "5"));
    assert_eq!(ok.status, 200);
}

#[test]
fn lookup_non_numeric_stock_is_a_numeric_parse_error() {
    let r = lookup_reply(&lookup_fixture(GOOD_BASIC, "many"));
    assert_eq!(r.status, 502);
    assert_eq!(
        r.body,
        "{\"reason\":\"Upstream numeric parse error\",\"success\":false}"
    );
}

#[test]
fn lookup_without_product_content_keeps_zero_defaults() {
    let body = format!(
        "[{{\"data\":{{\"pdpGetLayout\":{{\"basicInfo\":{GOOD_BASIC},\"components\":[]}}}}}}]"
    );
    let r = lookup_reply(&body);
    assert_eq!(r.status, 200);
    assert_eq!(
        r.body,
        "{\"createdAt\":\"2020-01-01\",\"description\":\"\",\
         \"originalUrl\":\"https://www.tokopedia.com/shop/thing\",\"price\":0,\
         \"stock\":0,\"storeName\":\"Shop\",\"success\":true,\"title\":\"\"}"
    );
}

fn search_fixture() -> String {
    let product_a = "{\"name\":\"Shoe A\",\"url\":\"https://www.tokopedia.com/shopA/111?extra=1\",\
        \"price\":\"Rp100\",\"imageUrl\":\"https://img/a.jpg\",\"categoryName\":\"Shoes\",\
        \"shop\":{\"name\":\"Shop A\",\"url\":\"https://www.tokopedia.com/shopA\",\
        \"city\":\"Jakarta\",\"isOfficial\":true,\"isPowerBadge\":false}}";
    let product_b = "{\"name\":\"Shoe B\",\"url\":\"https://www.tokopedia.com/shopB/222?x=2\",\
        \"price\":\"Rp200\",\"imageUrl\":\"https://img/b.jpg\",\"categoryName\":\"Shoes\",\
        \"shop\":{\"name\":\"Shop B\",\"url\":\"https://www.tokopedia.com/shopB\",\
        \"city\":\"Bandung\",\"isOfficial\":false,\"isPowerBadge\":true}}";
    format!(
        "[{{\"data\":{{\"ace_search_product_v4\":{{\"data\":{{\
         \"suggestion\":{{\"currentKeyword\":\"shoes\",\"suggestion\":\"\"}},\
         \"products\":[{product_a},{product_b}]}}}}}}}}]"
    )
}

#[test]
fn search_derives_product_ids_from_urls() {
    let r = search_reply(&search_fixture());
    assert_eq!(r.status, 200);
    let seller_a = "{\"city\":\"Jakarta\",\"hasPowerBadge\":false,\"id\":\"shopA\",\
        \"isOfficial\":true,\"name\":\"Shop A\",\"url\":\"https://www.tokopedia.com/shopA\"}";
    let seller_b = "{\"city\":\"Bandung\",\"hasPowerBadge\":true,\"id\":\"shopB\",\
        \"isOfficial\":false,\"name\":\"Shop B\",\"url\":\"https://www.tokopedia.com/shopB\"}";
    let expected = format!(
        "{{\"keyword\":\"shoes\",\"results\":[\
         {{\"category\":\"Shoes\",\"id\":\"111\",\"name\":\"Shoe A\",\"price\":\"Rp100\",\
         \"seller\":{seller_a},\"thumbnail\":\"https://img/a.jpg\",\
         \"url\":\"https://www.tokopedia.com/shopA/111?extra=1\"}},\
         {{\"category\":\"Shoes\",\"id\":\"222\",\"name\":\"Shoe B\",\"price\":\"Rp200\",\
         \"seller\":{seller_b},\"thumbnail\":\"https://img/b.jpg\",\
         \"url\":\"https://www.tokopedia.com/shopB/222?x=2\"}}],\
         \"success\":true,\"suggestion\":\"\"}}"
    );
    assert_eq!(r.body, expected);
}

#[test]
fn search_product_without_both_markers_fails_whole_request() {
    // The product URL has no `?`, so id extraction fails: no partial output.
    let body = "[{\"data\":{\"ace_search_product_v4\":{\"data\":{\
        \"suggestion\":{\"currentKeyword\":\"x\",\"suggestion\":\"\"},\
        \"products\":[{\"name\":\"P\",\"url\":\"https://www.tokopedia.com/s/1\",\
        \"price\":\"Rp1\",\"imageUrl\":\"i\",\"categoryName\":\"c\",\
        \"shop\":{\"name\":\"S\",\"url\":\"https://www.tokopedia.com/s\",\
        \"city\":\"J\",\"isOfficial\":true,\"isPowerBadge\":true}}]}}}}]";
    let r = search_reply(body);
    assert_eq!(r.status, 502);
    assert_eq!(r.body, "{\"reason\":\"Upstream schema error\",\"success\":false}");
}

#[test]
fn search_on_invalid_json_is_a_schema_error() {
    let r = search_reply("not json");
    assert_eq!(r.status, 502);
    assert_eq!(r.body, "{\"reason\":\"Upstream schema error\",\"success\":false}");
}

#[test]
fn search_mistyped_field_is_a_schema_error() {
    // isOfficial is a string, not a boolean.
    let body = "[{\"data\":{\"ace_search_product_v4\":{\"data\":{\
        \"suggestion\":{\"currentKeyword\":\"x\",\"suggestion\":\"\"},\
        \"products\":[{\"name\":\"P\",\"url\":\"https://www.tokopedia.com/s/1?a=1\",\
        \"price\":\"Rp1\",\"imageUrl\":\"i\",\"categoryName\":\"c\",\
        \"shop\":{\"name\":\"S\",\"url\":\"https://www.tokopedia.com/s\",\
        \"city\":\"J\",\"isOfficial\":\"yes\",\"isPowerBadge\":true}}]}}}}]";
    let r = search_reply(body);
    assert_eq!(r.status, 502);
    assert_eq!(r.body, "{\"reason\":\"Upstream schema error\",\"success\":false}");
}

#[test]
fn transport_failure_is_classified() {
    let r = error_reply(UpstreamError::Transport);
    assert_eq!(r.status, 502);
    assert_eq!(
        r.body,
        "{\"reason\":\"Upstream transport error\",\"success\":false}"
    );
}

#[test]
fn json_string_escaping_matches_the_upstream_serializer() {
    let r = tokogate::render::render_error_json("a\"b\\c\nd\u{1}e");
    assert_eq!(
        r,
        "{\"reason\":\"a\\\"b\\\\c\\nd\\u0001e\",\"success\":false}"
    );
}
