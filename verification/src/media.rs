//! Representation negotiation over the `Accept` header.
//!
//! A header value is split on `,`; each piece is trimmed, cut at the first
//! `;` (dropping parameters, quality values included) and at the first `+`
//! (dropping suffixes), then ASCII-lowercased. The client's left-to-right
//! order is the preference order: the first token the server supports wins,
//! and quality parameters are deliberately ignored.

use crate::text::{
    chars_eq, chars_to_string, cut_at, spec_cut, spec_lower, spec_split_all, spec_trim,
    split_all, str_to_chars, to_lower, trim,
};
use vstd::prelude::*;

verus! {

/// A response representation the gateway can produce.
#[derive(Clone, Copy, PartialEq, Eq, Structural, Debug)]
pub enum Representation {
    Html,
    Json,
    PlainText,
}

/// One `Accept` token, normalized: trimmed, cut at the first `;` and the
/// first `+`, ASCII-lowercased.
pub open spec fn spec_normalize_token(t: Seq<char>) -> Seq<char> {
    spec_lower(spec_cut(spec_cut(spec_trim(t), ';'), '+'))
}

/// The ordered client preference list of one `Accept` header value.
pub open spec fn spec_accept_tokens(h: Seq<char>) -> Seq<Seq<char>> {
    spec_split_all(h, ',').map_values(|t: Seq<char>| spec_normalize_token(t))
}

/// The first token of `toks` that occurs in `supported`.
pub open spec fn spec_priority(toks: Seq<Seq<char>>, supported: Seq<Seq<char>>) -> Option<
    Seq<char>,
>
    decreases toks.len(),
{
    if toks.len() == 0 {
        None
    } else if supported.contains(toks[0]) {
        Some(toks[0])
    } else {
        spec_priority(toks.drop_first(), supported)
    }
}

/// The representations the info and not-found pages can take.
pub open spec fn page_supported() -> Seq<Seq<char>> {
    seq!["text/html"@, "application/json"@]
}

/// The representation negotiated for a page endpoint from one header value.
pub open spec fn spec_negotiated(h: Seq<char>) -> Representation {
    match spec_priority(spec_accept_tokens(h), page_supported()) {
        Some(t) => if t == "text/html"@ {
            Representation::Html
        } else if t == "application/json"@ {
            Representation::Json
        } else {
            Representation::PlainText
        },
        None => Representation::PlainText,
    }
}

/// The representation negotiated for a page endpoint; plain text when no
/// header is present or nothing overlaps.
pub open spec fn spec_negotiate_page(accept: Option<Seq<char>>) -> Representation {
    match accept {
        Some(h) => spec_negotiated(h),
        None => Representation::PlainText,
    }
}

fn normalize_token_chars(p: &Vec<char>) -> (r: Vec<char>)
    ensures
        r@ == spec_normalize_token(p@),
{
    let t = trim(p);
    let c1 = cut_at(&t, ';');
    let c2 = cut_at(&c1, '+');
    to_lower(&c2)
}

fn accept_tokens_chars(header: &Vec<char>) -> (r: Vec<Vec<char>>)
    ensures
        r.deep_view() == spec_accept_tokens(header@),
{
    let pieces = split_all(header, ',');
    let n = pieces.len();
    let mut out: Vec<Vec<char>> = Vec::new();
    let mut i: usize = 0;
    while i < n
        invariant
            n == pieces@.len(),
            pieces.deep_view() == spec_split_all(header@, ','),
            i <= n,
            out.deep_view().len() == i,
            forall|j: int|
                0 <= j < i ==> out.deep_view()[j] == spec_normalize_token(
                    pieces.deep_view()[j],
                ),
        decreases n - i,
    {
        let norm = normalize_token_chars(&pieces[i]);
        let ghost old_out = out.deep_view();
        out.push(norm);
        proof {
            assert(out.deep_view() =~~= old_out.push(norm@));
            assert(pieces.deep_view()[i as int] == pieces@[i as int].deep_view());
            assert(pieces@[i as int].deep_view() =~= pieces@[i as int]@);
        }
        i += 1;
    }
    proof {
        assert(out.deep_view() =~~= spec_accept_tokens(header@));
    }
    out
}

/// The client's normalized `Accept` tokens, in header order.
pub fn accept_tokens(header: &str) -> (r: Vec<String>)
    ensures
        r.deep_view() == spec_accept_tokens(header@),
{
    let chars = str_to_chars(header);
    let toks = accept_tokens_chars(&chars);
    let n = toks.len();
    let mut out: Vec<String> = Vec::new();
    let mut i: usize = 0;
    while i < n
        invariant
            n == toks@.len(),
            toks.deep_view() == spec_accept_tokens(chars@),
            chars@ == header@,
            i <= n,
            out.deep_view().len() == i,
            forall|j: int| 0 <= j < i ==> out.deep_view()[j] == toks.deep_view()[j],
        decreases n - i,
    {
        let s = chars_to_string(&toks[i]);
        let ghost old_out = out.deep_view();
        out.push(s);
        proof {
            assert(out.deep_view() =~~= old_out.push(s@));
            assert(toks.deep_view()[i as int] == toks@[i as int].deep_view());
        }
        i += 1;
    }
    proof {
        assert(out.deep_view() =~~= spec_accept_tokens(header@));
    }
    out
}

/// The first client token in `supported` is the one `spec_priority` names.
pub proof fn lemma_priority_first(toks: Seq<Seq<char>>, supported: Seq<Seq<char>>, i: int)
    requires
        0 <= i < toks.len(),
        supported.contains(toks[i]),
        forall|j: int| 0 <= j < i ==> !supported.contains(toks[j]),
    ensures
        spec_priority(toks, supported) == Some(toks[i]),
    decreases i,
{
    if i == 0 {
    } else {
        lemma_priority_first(toks.drop_first(), supported, i - 1);
    }
}

/// With no client token supported, `spec_priority` names nothing.
pub proof fn lemma_priority_none(toks: Seq<Seq<char>>, supported: Seq<Seq<char>>)
    requires
        forall|j: int| 0 <= j < toks.len() ==> !supported.contains(toks[j]),
    ensures
        spec_priority(toks, supported) is None,
    decreases toks.len(),
{
    if toks.len() > 0 {
        lemma_priority_none(toks.drop_first(), supported);
    }
}

/// Whether the client's normalized tokens name `value`.
pub fn has(header: &str, value: &str) -> (r: bool)
    ensures
        r == spec_accept_tokens(header@).contains(value@),
{
    let chars = str_to_chars(header);
    let toks = accept_tokens_chars(&chars);
    let value_chars = str_to_chars(value);
    let n = toks.len();
    let ghost tv = toks.deep_view();
    let mut i: usize = 0;
    while i < n
        invariant
            n == toks@.len(),
            tv == toks.deep_view(),
            tv == spec_accept_tokens(header@),
            tv.len() == n,
            value_chars@ == value@,
            i <= n,
            forall|j: int| 0 <= j < i ==> tv[j] != value@,
        decreases n - i,
    {
        if chars_eq(&toks[i], &value_chars) {
            proof {
                assert(toks@[i as int].deep_view() =~= toks@[i as int]@);
                assert(tv[i as int] == value@);
                assert(tv.contains(value@));
            }
            return true;
        }
        proof {
            assert(toks@[i as int].deep_view() =~= toks@[i as int]@);
        }
        i += 1;
    }
    proof {
        assert(!tv.contains(value@));
    }
    false
}

/// The first of the client's tokens that the server supports, in the
/// client's order; `None` when none is supported.
pub fn priority(header: &str, supported: &Vec<String>) -> (r: Option<String>)
    ensures
        match r {
            Some(s) => spec_priority(spec_accept_tokens(header@), supported.deep_view())
                == Some(s@),
            None => spec_priority(spec_accept_tokens(header@), supported.deep_view()) is None,
        },
{
    let chars = str_to_chars(header);
    let toks = accept_tokens_chars(&chars);
    let n = toks.len();
    let m = supported.len();
    let ghost tv = toks.deep_view();
    let ghost sv = supported.deep_view();
    let mut i: usize = 0;
    while i < n
        invariant
            n == toks@.len(),
            m == supported@.len(),
            tv == toks.deep_view(),
            sv == supported.deep_view(),
            tv == spec_accept_tokens(header@),
            tv.len() == n,
            sv.len() == m,
            i <= n,
            forall|j: int| 0 <= j < i ==> !sv.contains(tv[j]),
        decreases n - i,
    {
        let tok = &toks[i];
        let mut k: usize = 0;
        let mut found = false;
        while k < m
            invariant
                m == supported@.len(),
                sv == supported.deep_view(),
                sv.len() == m,
                k <= m,
                n == toks@.len(),
                tv == toks.deep_view(),
                0 <= i < n,
                tok@ == tv[i as int],
                !found ==> forall|l: int| 0 <= l < k ==> sv[l] != tok@,
                found ==> sv.contains(tok@),
            decreases m - k,
        {
            let sup_chars = str_to_chars(supported[k].as_str());
            proof {
                assert(sup_chars@ == sv[k as int]);
            }
            if chars_eq(tok, &sup_chars) {
                found = true;
                k = m;
            } else {
                k += 1;
            }
        }
        if found {
            proof {
                lemma_priority_first(tv, sv, i as int);
            }
            return Some(chars_to_string(tok));
        }
        proof {
            assert(!sv.contains(tv[i as int]));
        }
        i += 1;
    }
    proof {
        lemma_priority_none(tv, sv);
    }
    None
}

/// Negotiate the representation of a page endpoint (info and not-found)
/// over `{text/html, application/json}`, defaulting to plain text.
pub fn negotiate_page(accept: Option<&str>) -> (r: Representation)
    ensures
        r == spec_negotiate_page(
            match accept {
                Some(h) => Some(h@),
                None => None,
            },
        ),
{
    let header = match accept {
        None => {
            return Representation::PlainText;
        },
        Some(h) => h,
    };
    let mut supported: Vec<String> = Vec::new();
    supported.push(chars_to_string(&str_to_chars("text/html")));
    supported.push(chars_to_string(&str_to_chars("application/json")));
    proof {
        assert(supported.deep_view() =~~= page_supported());
    }
    let chosen = priority(header, &supported);
    let html = str_to_chars("text/html");
    let json = str_to_chars("application/json");
    match chosen {
        None => Representation::PlainText,
        Some(t) => {
            let tc = str_to_chars(t.as_str());
            if chars_eq(&tc, &html) {
                Representation::Html
            } else if chars_eq(&tc, &json) {
                Representation::Json
            } else {
                Representation::PlainText
            }
        },
    }
}

/// LAW: when the client's normalized preference list names
/// `application/json` at position `i` and neither supported page type
/// appears earlier, the page endpoints negotiate JSON.
pub proof fn negotiation_prefers_json_first(h: Seq<char>, i: int)
    requires
        0 <= i < spec_accept_tokens(h).len(),
        spec_accept_tokens(h)[i] == "application/json"@,
        forall|j: int|
            0 <= j < i ==> spec_accept_tokens(h)[j] != "application/json"@ && spec_accept_tokens(
                h,
            )[j] != "text/html"@,
    ensures
        spec_negotiate_page(Some(h)) == Representation::Json,
{
    let toks = spec_accept_tokens(h);
    let sup = page_supported();
    assert(sup[1] == "application/json"@);
    assert(sup.contains(toks[i]));
    assert forall|j: int| 0 <= j < i implies !sup.contains(toks[j]) by {
        assert forall|k: int| 0 <= k < sup.len() implies sup[k] != toks[j] by {
            if k == 0 {
                assert(sup[0] == "text/html"@);
            } else {
                assert(sup[1] == "application/json"@);
            }
        }
    }
    lemma_priority_first(toks, sup, i);
    reveal_strlit("text/html");
    reveal_strlit("application/json");
    assert("application/json"@.len() != "text/html"@.len());
}

/// LAW: when the client's normalized preference list names `text/html` at
/// position `i` and neither supported page type appears earlier, the page
/// endpoints negotiate HTML.
pub proof fn negotiation_prefers_html_first(h: Seq<char>, i: int)
    requires
        0 <= i < spec_accept_tokens(h).len(),
        spec_accept_tokens(h)[i] == "text/html"@,
        forall|j: int|
            0 <= j < i ==> spec_accept_tokens(h)[j] != "application/json"@ && spec_accept_tokens(
                h,
            )[j] != "text/html"@,
    ensures
        spec_negotiate_page(Some(h)) == Representation::Html,
{
    let toks = spec_accept_tokens(h);
    let sup = page_supported();
    assert(sup[0] == "text/html"@);
    assert(sup.contains(toks[i]));
    assert forall|j: int| 0 <= j < i implies !sup.contains(toks[j]) by {
        assert forall|k: int| 0 <= k < sup.len() implies sup[k] != toks[j] by {
            if k == 0 {
                assert(sup[0] == "text/html"@);
            } else {
                assert(sup[1] == "application/json"@);
            }
        }
    }
    lemma_priority_first(toks, sup, i);
}

/// LAW: when neither `text/html` nor `application/json` appears among the
/// client's normalized tokens, the page endpoints fall back to plain text;
/// so do they when no `Accept` header is present at all.
pub proof fn negotiation_defaults_to_plain(h: Seq<char>)
    requires
        forall|j: int|
            0 <= j < spec_accept_tokens(h).len() ==> spec_accept_tokens(h)[j]
                != "application/json"@ && spec_accept_tokens(h)[j] != "text/html"@,
    ensures
        spec_negotiate_page(Some(h)) == Representation::PlainText,
        spec_negotiate_page(None) == Representation::PlainText,
{
    let toks = spec_accept_tokens(h);
    let sup = page_supported();
    assert forall|j: int| 0 <= j < toks.len() implies !sup.contains(toks[j]) by {
        assert forall|k: int| 0 <= k < sup.len() implies sup[k] != toks[j] by {
            if k == 0 {
                assert(sup[0] == "text/html"@);
            } else {
                assert(sup[1] == "application/json"@);
            }
        }
    }
    lemma_priority_none(toks, sup);
}

} // verus!
