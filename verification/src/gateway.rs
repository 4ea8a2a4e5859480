//! The gateway's top-level decisions: one reply per routed request, with
//! failures classified into user-visible outcomes.
//!
//! The functions here take the upstream response body (or its absence) as
//! plain text and decide status, representation and body bytes. The
//! surrounding process performs the HTTP calls and hands the results in.

use crate::json::{json_parse, parse_json, JsonValue};
use crate::media::{negotiate_page, spec_negotiate_page, Representation};
use crate::render::{
    render_detail_json, render_error_json, render_info_json, render_info_text,
    render_search_json, render_template, pairs_view, spec_detail_json, spec_error_json,
    spec_info_json, spec_info_text, spec_render_template, spec_search_json,
};
use crate::text::{chars_to_string, contains_sub, has_sub, spec_trim, str_to_chars, trim};
use crate::transform::{
    spec_lookup, spec_search, transform_lookup, transform_search, UpstreamError,
};
use vstd::prelude::*;

verus! {

/// One response as the gateway decides it: a status code, the negotiated
/// representation (which names the `Content-Type`), and the body.
pub struct Reply {
    pub status: u16,
    pub kind: Representation,
    pub body: String,
}

/// Model of a reply.
pub struct ReplyModel {
    pub status: u16,
    pub kind: Representation,
    pub body: Seq<char>,
}

impl View for Reply {
    type V = ReplyModel;

    open spec fn view(&self) -> ReplyModel {
        ReplyModel { status: self.status, kind: self.kind, body: self.body@ }
    }
}

/// The sentinel substring that marks a business-level not-found in an
/// otherwise unstructured upstream lookup body.
pub open spec fn sentinel() -> Seq<char> {
    "product: not found"@
}

/// The user-visible reason for each classified failure.
pub open spec fn spec_error_reason(e: UpstreamError) -> Seq<char> {
    match e {
        UpstreamError::NotFound => "Product not found"@,
        UpstreamError::Transport => "Upstream transport error"@,
        UpstreamError::Schema => "Upstream schema error"@,
        UpstreamError::NumericParse => "Upstream numeric parse error"@,
    }
}

/// The status for each classified failure. A business not-found is an
/// ordinary response carrying an unsuccessful payload, not a protocol
/// fault; everything else is a bad gateway.
pub open spec fn spec_error_status(e: UpstreamError) -> u16 {
    match e {
        UpstreamError::NotFound => 200,
        _ => 502,
    }
}

/// The classified failure reply: always JSON, with the reason.
pub open spec fn spec_error_reply(e: UpstreamError) -> ReplyModel {
    ReplyModel {
        status: spec_error_status(e),
        kind: Representation::Json,
        body: spec_error_json(spec_error_reason(e)),
    }
}

/// Classify a failure into its reply.
pub fn error_reply(e: UpstreamError) -> (r: Reply)
    ensures
        r@ == spec_error_reply(e),
{
    match e {
        UpstreamError::NotFound => Reply {
            status: 200,
            kind: Representation::Json,
            body: render_error_json("Product not found"),
        },
        UpstreamError::Transport => Reply {
            status: 502,
            kind: Representation::Json,
            body: render_error_json("Upstream transport error"),
        },
        UpstreamError::Schema => Reply {
            status: 502,
            kind: Representation::Json,
            body: render_error_json("Upstream schema error"),
        },
        UpstreamError::NumericParse => Reply {
            status: 502,
            kind: Representation::Json,
            body: render_error_json("Upstream numeric parse error"),
        },
    }
}

/// The reply decided by a parsed search body: a JSON result on success,
/// the classified failure otherwise; an unparseable body is a schema
/// failure.
pub open spec fn spec_search_reply(p: Option<JsonValue>) -> ReplyModel {
    match p {
        None => spec_error_reply(UpstreamError::Schema),
        Some(v) => match spec_search(v) {
            Ok(m) => ReplyModel {
                status: 200,
                kind: Representation::Json,
                body: spec_search_json(m),
            },
            Err(e) => spec_error_reply(e),
        },
    }
}

/// Decide the search reply from the upstream response body.
pub fn search_reply(upstream_body: &str) -> (r: Reply)
    ensures
        r@ == spec_search_reply(json_parse(upstream_body@)),
{
    match parse_json(upstream_body) {
        None => error_reply(UpstreamError::Schema),
        Some(v) => match transform_search(&v) {
            Ok(sr) => Reply {
                status: 200,
                kind: Representation::Json,
                body: render_search_json(&sr),
            },
            Err(e) => error_reply(e),
        },
    }
}

/// The reply decided by an upstream lookup body: the sentinel wins before
/// any parsing; otherwise parse, transform and classify.
pub open spec fn spec_lookup_reply(body: Seq<char>) -> ReplyModel {
    if contains_sub(body, sentinel()) {
        spec_error_reply(UpstreamError::NotFound)
    } else {
        match json_parse(body) {
            None => spec_error_reply(UpstreamError::Schema),
            Some(v) => match spec_lookup(v) {
                Ok(d) => ReplyModel {
                    status: 200,
                    kind: Representation::Json,
                    body: spec_detail_json(d),
                },
                Err(e) => spec_error_reply(e),
            },
        }
    }
}

/// Decide the lookup reply from the upstream response body.
pub fn lookup_reply(upstream_body: &str) -> (r: Reply)
    ensures
        r@ == spec_lookup_reply(upstream_body@),
{
    let body_chars = str_to_chars(upstream_body);
    let sent = str_to_chars("product: not found");
    if has_sub(&body_chars, &sent) {
        return error_reply(UpstreamError::NotFound);
    }
    match parse_json(upstream_body) {
        None => error_reply(UpstreamError::Schema),
        Some(v) => match transform_lookup(&v) {
            Ok(d) => Reply {
                status: 200,
                kind: Representation::Json,
                body: render_detail_json(&d),
            },
            Err(e) => error_reply(e),
        },
    }
}

/// LAW: a lookup body holding the sentinel short-circuits to the business
/// not-found payload; what any JSON parse of the body would give cannot
/// matter.
pub proof fn sentinel_short_circuits(body: Seq<char>)
    requires
        contains_sub(body, sentinel()),
    ensures
        spec_lookup_reply(body) == spec_error_reply(UpstreamError::NotFound),
{
}

/// The substitution pairs of the info page.
pub open spec fn spec_info_pairs(name: Seq<char>, build: Seq<char>) -> Seq<
    (Seq<char>, Seq<char>),
> {
    seq![("$title"@, name), ("$build"@, build)]
}

/// The reply of `GET /` for one negotiation outcome: an HTML page from
/// the template, the fixed JSON object, or the trimmed plain description.
pub open spec fn spec_info_reply(
    accept: Option<Seq<char>>,
    name: Seq<char>,
    build: Seq<char>,
    template: Seq<char>,
) -> ReplyModel {
    match spec_negotiate_page(accept) {
        Representation::Html => ReplyModel {
            status: 200,
            kind: Representation::Html,
            body: spec_render_template(template, spec_info_pairs(name, build)),
        },
        Representation::Json => ReplyModel {
            status: 200,
            kind: Representation::Json,
            body: spec_info_json(name, build),
        },
        Representation::PlainText => ReplyModel {
            status: 200,
            kind: Representation::PlainText,
            body: spec_trim(spec_info_text(name, build)),
        },
    }
}

/// Decide the info reply: negotiate, then render for the chosen
/// representation.
pub fn info_reply(accept: Option<&str>, name: &str, build: &str, template: &str) -> (r: Reply)
    ensures
        r@ == spec_info_reply(
            match accept {
                Some(h) => Some(h@),
                None => None,
            },
            name@,
            build@,
            template@,
        ),
        r.status == 200,
        r.kind == spec_negotiate_page(
            match accept {
                Some(h) => Some(h@),
                None => None,
            },
        ),
{
    let chosen = negotiate_page(accept);
    match chosen {
        Representation::Html => {
            let mut pairs: Vec<(String, String)> = Vec::new();
            pairs.push((chars_to_string(&str_to_chars("$title")), name.to_owned()));
            pairs.push((chars_to_string(&str_to_chars("$build")), build.to_owned()));
            proof {
                reveal_strlit("$title");
                reveal_strlit("$build");
                assert(pairs_view(pairs@) =~= spec_info_pairs(name@, build@));
                assert(forall|j: int|
                    0 <= j < pairs@.len() ==> (#[trigger] pairs@[j]).0@.len() > 0);
            }
            Reply {
                status: 200,
                kind: Representation::Html,
                body: render_template(template, &pairs),
            }
        },
        Representation::Json => Reply {
            status: 200,
            kind: Representation::Json,
            body: render_info_json(name, build),
        },
        Representation::PlainText => {
            let text = render_info_text(name, build);
            let trimmed = trim(&str_to_chars(text.as_str()));
            Reply {
                status: 200,
                kind: Representation::PlainText,
                body: chars_to_string(&trimmed),
            }
        },
    }
}

/// The substitution pairs of the not-found page.
pub open spec fn spec_not_found_pairs(name: Seq<char>) -> Seq<(Seq<char>, Seq<char>)> {
    seq![("$title"@, name)]
}

/// The reply for a request no route matches, always with status 404: an
/// HTML page from the template, the fixed JSON payload, or the fixed
/// plain-text line.
pub open spec fn spec_not_found_reply(
    accept: Option<Seq<char>>,
    name: Seq<char>,
    template: Seq<char>,
) -> ReplyModel {
    match spec_negotiate_page(accept) {
        Representation::Html => ReplyModel {
            status: 404,
            kind: Representation::Html,
            body: spec_render_template(template, spec_not_found_pairs(name)),
        },
        Representation::Json => ReplyModel {
            status: 404,
            kind: Representation::Json,
            body: spec_error_json("404 Not found"@),
        },
        Representation::PlainText => ReplyModel {
            status: 404,
            kind: Representation::PlainText,
            body: "404 Not found"@,
        },
    }
}

/// Decide the not-found reply: negotiate, then render for the chosen
/// representation.
pub fn not_found_reply(accept: Option<&str>, name: &str, template: &str) -> (r: Reply)
    ensures
        r@ == spec_not_found_reply(
            match accept {
                Some(h) => Some(h@),
                None => None,
            },
            name@,
            template@,
        ),
        r.status == 404,
        r.kind == spec_negotiate_page(
            match accept {
                Some(h) => Some(h@),
                None => None,
            },
        ),
{
    let chosen = negotiate_page(accept);
    match chosen {
        Representation::Html => {
            let mut pairs: Vec<(String, String)> = Vec::new();
            pairs.push((chars_to_string(&str_to_chars("$title")), name.to_owned()));
            proof {
                reveal_strlit("$title");
                assert(pairs_view(pairs@) =~= spec_not_found_pairs(name@));
                assert(forall|j: int|
                    0 <= j < pairs@.len() ==> (#[trigger] pairs@[j]).0@.len() > 0);
            }
            Reply {
                status: 404,
                kind: Representation::Html,
                body: render_template(template, &pairs),
            }
        },
        Representation::Json => Reply {
            status: 404,
            kind: Representation::Json,
            body: render_error_json("404 Not found"),
        },
        Representation::PlainText => Reply {
            status: 404,
            kind: Representation::PlainText,
            body: chars_to_string(&str_to_chars("404 Not found")),
        },
    }
}

/// LAW: when the client's normalized preference list names
/// `application/json` at position `i` and neither supported page type
/// appears earlier, the info and not-found endpoints both answer in JSON.
pub proof fn pages_prefer_json_first(
    h: Seq<char>,
    i: int,
    name: Seq<char>,
    build: Seq<char>,
    template: Seq<char>,
)
    requires
        0 <= i < crate::media::spec_accept_tokens(h).len(),
        crate::media::spec_accept_tokens(h)[i] == "application/json"@,
        forall|j: int|
            0 <= j < i ==> crate::media::spec_accept_tokens(h)[j] != "application/json"@
                && crate::media::spec_accept_tokens(h)[j] != "text/html"@,
    ensures
        spec_info_reply(Some(h), name, build, template).kind == Representation::Json,
        spec_not_found_reply(Some(h), name, template).kind == Representation::Json,
{
    crate::media::negotiation_prefers_json_first(h, i);
}

/// LAW: when the client's normalized preference list names `text/html` at
/// position `i` and neither supported page type appears earlier, the info
/// and not-found endpoints both answer in HTML.
pub proof fn pages_prefer_html_first(
    h: Seq<char>,
    i: int,
    name: Seq<char>,
    build: Seq<char>,
    template: Seq<char>,
)
    requires
        0 <= i < crate::media::spec_accept_tokens(h).len(),
        crate::media::spec_accept_tokens(h)[i] == "text/html"@,
        forall|j: int|
            0 <= j < i ==> crate::media::spec_accept_tokens(h)[j] != "application/json"@
                && crate::media::spec_accept_tokens(h)[j] != "text/html"@,
    ensures
        spec_info_reply(Some(h), name, build, template).kind == Representation::Html,
        spec_not_found_reply(Some(h), name, template).kind == Representation::Html,
{
    crate::media::negotiation_prefers_html_first(h, i);
}

/// LAW: when neither supported page type appears among the client's
/// normalized tokens, or no `Accept` header is present, the info and
/// not-found endpoints both answer in plain text.
pub proof fn pages_default_to_plain(
    h: Seq<char>,
    name: Seq<char>,
    build: Seq<char>,
    template: Seq<char>,
)
    requires
        forall|j: int|
            0 <= j < crate::media::spec_accept_tokens(h).len()
                ==> crate::media::spec_accept_tokens(h)[j] != "application/json"@
                && crate::media::spec_accept_tokens(h)[j] != "text/html"@,
    ensures
        spec_info_reply(Some(h), name, build, template).kind == Representation::PlainText,
        spec_not_found_reply(Some(h), name, template).kind == Representation::PlainText,
        spec_info_reply(None, name, build, template).kind == Representation::PlainText,
        spec_not_found_reply(None, name, template).kind == Representation::PlainText,
{
    crate::media::negotiation_defaults_to_plain(h);
}

/// The reply to any `HEAD` request: empty 200 before all other dispatch.
pub fn head_reply() -> (r: Reply)
    ensures
        r.status == 200,
        r.kind == Representation::PlainText,
        r@.body == Seq::<char>::empty(),
{
    let empty: Vec<char> = Vec::new();
    proof {
        assert(empty@ =~= Seq::<char>::empty());
    }
    Reply { status: 200, kind: Representation::PlainText, body: chars_to_string(&empty) }
}

} // verus!
