//! Rendering of normalized records into response bodies: compact JSON with
//! alphabetically ordered keys, plain text, and HTML by placeholder
//! substitution over a template.
//!
//! JSON strings are escaped as serde_json's serializer writes them: only
//! `"`, `\` and control characters below `0x20` are escaped, the latter as
//! `\b`, `\t`, `\n`, `\f`, `\r` or `\u00xx` with lowercase hex digits.

use crate::text::{
    append_vec, chars_to_string, fmt_u64, lemma_skip_step, replace_all, spec_replace,
    spec_trim, spec_u64_chars, str_to_chars, trim,
};
use crate::transform::{
    DetailModel, NormalizedProduct, ProductDetail, ProductModel, SearchModel, SearchResult,
    SellerModel,
};
use vstd::prelude::*;

verus! {

/// The lowercase hex digit character for `d`.
pub open spec fn hex_digit(d: nat) -> char {
    if d < 10 {
        ((48 + d) as u8) as char
    } else {
        ((87 + d) as u8) as char
    }
}

/// How one character appears inside a JSON string literal.
pub open spec fn spec_escape_char(c: char) -> Seq<char> {
    if c == '"' {
        seq!['\\', '"']
    } else if c == '\\' {
        seq!['\\', '\\']
    } else if c == '\u{8}' {
        seq!['\\', 'b']
    } else if c == '\t' {
        seq!['\\', 't']
    } else if c == '\n' {
        seq!['\\', 'n']
    } else if c == '\u{c}' {
        seq!['\\', 'f']
    } else if c == '\r' {
        seq!['\\', 'r']
    } else if (c as u32) < 32 {
        seq!['\\', 'u', '0', '0', hex_digit((c as u32 / 16) as nat), hex_digit(
            (c as u32 % 16) as nat,
        )]
    } else {
        seq![c]
    }
}

/// The escaped body of a JSON string literal.
pub open spec fn spec_escape(s: Seq<char>) -> Seq<char>
    decreases s.len(),
{
    if s.len() == 0 {
        Seq::empty()
    } else {
        spec_escape_char(s[0]) + spec_escape(s.drop_first())
    }
}

/// A JSON string literal for `s`.
pub open spec fn spec_json_str(s: Seq<char>) -> Seq<char> {
    seq!['"'] + spec_escape(s) + seq!['"']
}

/// A JSON boolean.
pub open spec fn spec_json_bool(b: bool) -> Seq<char> {
    if b {
        "true"@
    } else {
        "false"@
    }
}

fn escape_chars(s: &Vec<char>) -> (r: Vec<char>)
    ensures
        r@ == spec_escape(s@),
{
    let n = s.len();
    let mut out: Vec<char> = Vec::new();
    let mut i: usize = 0;
    proof {
        assert(s@.skip(0) =~= s@);
        assert(Seq::<char>::empty() + spec_escape(s@) =~= spec_escape(s@));
    }
    while i < n
        invariant
            n == s@.len(),
            i <= n,
            spec_escape(s@) == out@ + spec_escape(s@.skip(i as int)),
        decreases n - i,
    {
        proof {
            lemma_skip_step(s@, i as int);
        }
        let c = s[i];
        let ghost old_out = out@;
        if c == '"' {
            out.push('\\');
            out.push('"');
        } else if c == '\\' {
            out.push('\\');
            out.push('\\');
        } else if c == '\u{8}' {
            out.push('\\');
            out.push('b');
        } else if c == '\t' {
            out.push('\\');
            out.push('t');
        } else if c == '\n' {
            out.push('\\');
            out.push('n');
        } else if c == '\u{c}' {
            out.push('\\');
            out.push('f');
        } else if c == '\r' {
            out.push('\\');
            out.push('r');
        } else {
            let u = c as u32;
            if u < 32 {
                out.push('\\');
                out.push('u');
                out.push('0');
                out.push('0');
                let hi = u / 16;
                let lo = u % 16;
                let hc: char = if hi < 10 {
                    ((48 + hi) as u8) as char
                } else {
                    ((87 + hi) as u8) as char
                };
                let lc: char = if lo < 10 {
                    ((48 + lo) as u8) as char
                } else {
                    ((87 + lo) as u8) as char
                };
                out.push(hc);
                out.push(lc);
            } else {
                out.push(c);
            }
        }
        proof {
            assert(out@ =~= old_out + spec_escape_char(s@[i as int]));
            assert(old_out + spec_escape_char(s@[i as int]) + spec_escape(s@.skip(i + 1 as int))
                =~= old_out + (spec_escape_char(s@[i as int]) + spec_escape(
                s@.skip(i + 1 as int),
            )));
        }
        i += 1;
    }
    proof {
        assert(s@.skip(n as int) =~= Seq::<char>::empty());
        assert(out@ + Seq::<char>::empty() =~= out@);
    }
    out
}

fn push_lit(out: &mut Vec<char>, lit: &str)
    ensures
        final(out)@ == old(out)@ + lit@,
{
    let v = str_to_chars(lit);
    append_vec(out, &v);
}

fn push_quoted(out: &mut Vec<char>, s: &str)
    ensures
        final(out)@ == old(out)@ + spec_json_str(s@),
{
    let chars = str_to_chars(s);
    let esc = escape_chars(&chars);
    out.push('"');
    proof {
        assert(out@ =~= old(out)@ + seq!['"']);
    }
    append_vec(out, &esc);
    out.push('"');
    proof {
        assert(out@ =~= old(out)@ + (seq!['"'] + spec_escape(s@) + seq!['"']));
    }
}

fn push_u64(out: &mut Vec<char>, x: u64)
    ensures
        final(out)@ == old(out)@ + spec_u64_chars(x as nat),
{
    let d = fmt_u64(x);
    append_vec(out, &d);
}

fn push_bool(out: &mut Vec<char>, b: bool)
    ensures
        final(out)@ == old(out)@ + spec_json_bool(b),
{
    if b {
        push_lit(out, "true");
    } else {
        push_lit(out, "false");
    }
}

/// The info endpoint's JSON body.
pub open spec fn spec_info_json(name: Seq<char>, build: Seq<char>) -> Seq<char> {
    "{\"build\":"@ + spec_json_str(build) + ",\"name\":"@ + spec_json_str(name)
        + ",\"success\":true}"@
}

/// The info endpoint's plain-text body.
pub open spec fn spec_info_text(name: Seq<char>, build: Seq<char>) -> Seq<char> {
    name + " (build "@ + build + ")"@
}

/// An unsuccessful JSON payload: a reason and `success: false`.
pub open spec fn spec_error_json(reason: Seq<char>) -> Seq<char> {
    "{\"reason\":"@ + spec_json_str(reason) + ",\"success\":false}"@
}

/// One seller as JSON.
#[verifier::opaque]
pub open spec fn spec_seller_json(s: SellerModel) -> Seq<char> {
    "{\"city\":"@ + spec_json_str(s.city) + ",\"hasPowerBadge\":"@ + spec_json_bool(
        s.has_power_badge,
    ) + ",\"id\":"@ + spec_json_str(s.id) + ",\"isOfficial\":"@ + spec_json_bool(s.is_official)
        + ",\"name\":"@ + spec_json_str(s.name) + ",\"url\":"@ + spec_json_str(s.url) + "}"@
}

/// One product as JSON.
#[verifier::opaque]
pub open spec fn spec_product_json(p: ProductModel) -> Seq<char> {
    "{\"category\":"@ + spec_json_str(p.category) + ",\"id\":"@ + spec_json_str(p.id)
        + ",\"name\":"@ + spec_json_str(p.name) + ",\"price\":"@ + spec_json_str(p.price)
        + ",\"seller\":"@ + spec_seller_json(p.seller) + ",\"thumbnail\":"@ + spec_json_str(
        p.thumbnail,
    ) + ",\"url\":"@ + spec_json_str(p.url) + "}"@
}

/// The elements after the first of a JSON array of products.
pub open spec fn spec_products_json_rest(ps: Seq<ProductModel>) -> Seq<char>
    decreases ps.len(),
{
    if ps.len() == 0 {
        Seq::empty()
    } else {
        seq![','] + spec_product_json(ps[0]) + spec_products_json_rest(ps.drop_first())
    }
}

/// The comma-joined elements of a JSON array of products.
pub open spec fn spec_products_json(ps: Seq<ProductModel>) -> Seq<char> {
    if ps.len() == 0 {
        Seq::empty()
    } else {
        spec_product_json(ps[0]) + spec_products_json_rest(ps.drop_first())
    }
}

/// The search endpoint's JSON body.
pub open spec fn spec_search_json(m: SearchModel) -> Seq<char> {
    "{\"keyword\":"@ + spec_json_str(m.keyword) + ",\"results\":["@ + spec_products_json(
        m.results,
    ) + "],\"success\":true,\"suggestion\":"@ + spec_json_str(m.suggestion) + "}"@
}

/// The lookup endpoint's JSON body.
pub open spec fn spec_detail_json(d: DetailModel) -> Seq<char> {
    "{\"createdAt\":"@ + spec_json_str(d.created_at) + ",\"description\":"@ + spec_json_str(
        d.description,
    ) + ",\"originalUrl\":"@ + spec_json_str(d.original_url) + ",\"price\":"@ + spec_u64_chars(
        d.price as nat,
    ) + ",\"stock\":"@ + spec_u64_chars(d.stock as nat) + ",\"storeName\":"@ + spec_json_str(
        d.store_name,
    ) + ",\"success\":true,\"title\":"@ + spec_json_str(d.title) + "}"@
}

/// Render the info endpoint's JSON body.
pub fn render_info_json(name: &str, build: &str) -> (r: String)
    ensures
        r@ == spec_info_json(name@, build@),
{
    let mut out: Vec<char> = Vec::new();
    push_lit(&mut out, "{\"build\":");
    push_quoted(&mut out, build);
    push_lit(&mut out, ",\"name\":");
    push_quoted(&mut out, name);
    push_lit(&mut out, ",\"success\":true}");
    chars_to_string(&out)
}

/// Render the info endpoint's plain-text body.
pub fn render_info_text(name: &str, build: &str) -> (r: String)
    ensures
        r@ == spec_info_text(name@, build@),
{
    let mut out: Vec<char> = Vec::new();
    push_lit(&mut out, name);
    push_lit(&mut out, " (build ");
    push_lit(&mut out, build);
    push_lit(&mut out, ")");
    chars_to_string(&out)
}

/// Render an unsuccessful JSON payload.
pub fn render_error_json(reason: &str) -> (r: String)
    ensures
        r@ == spec_error_json(reason@),
{
    let mut out: Vec<char> = Vec::new();
    push_lit(&mut out, "{\"reason\":");
    push_quoted(&mut out, reason);
    push_lit(&mut out, ",\"success\":false}");
    chars_to_string(&out)
}

#[verifier::rlimit(80)]
fn push_seller(out: &mut Vec<char>, s: &crate::transform::NormalizedSeller)
    ensures
        final(out)@ == old(out)@ + spec_seller_json(s@),
{
    proof {
        reveal(spec_seller_json);
    }
    push_lit(out, "{\"city\":");
    push_quoted(out, s.city.as_str());
    push_lit(out, ",\"hasPowerBadge\":");
    push_bool(out, s.has_power_badge);
    push_lit(out, ",\"id\":");
    push_quoted(out, s.id.as_str());
    push_lit(out, ",\"isOfficial\":");
    push_bool(out, s.is_official);
    push_lit(out, ",\"name\":");
    push_quoted(out, s.name.as_str());
    push_lit(out, ",\"url\":");
    push_quoted(out, s.url.as_str());
    push_lit(out, "}");
}

#[verifier::rlimit(80)]
fn push_product(out: &mut Vec<char>, p: &NormalizedProduct)
    ensures
        final(out)@ == old(out)@ + spec_product_json(p@),
{
    proof {
        reveal(spec_product_json);
    }
    push_lit(out, "{\"category\":");
    push_quoted(out, p.category.as_str());
    push_lit(out, ",\"id\":");
    push_quoted(out, p.id.as_str());
    push_lit(out, ",\"name\":");
    push_quoted(out, p.name.as_str());
    push_lit(out, ",\"price\":");
    push_quoted(out, p.price.as_str());
    push_lit(out, ",\"seller\":");
    push_seller(out, &p.seller);
    push_lit(out, ",\"thumbnail\":");
    push_quoted(out, p.thumbnail.as_str());
    push_lit(out, ",\"url\":");
    push_quoted(out, p.url.as_str());
    push_lit(out, "}");
}

#[verifier::rlimit(100)]
fn push_products(out: &mut Vec<char>, ps: &Vec<NormalizedProduct>)
    ensures
        final(out)@ == old(out)@ + spec_products_json(ps.deep_view()),
{
    let n = ps.len();
    let ghost dv = ps.deep_view();
    if n == 0 {
        proof {
            assert(old(out)@ + spec_products_json(dv) =~= old(out)@);
        }
        return ;
    }
    proof {
        assert(dv[0] == ps@[0].deep_view());
    }
    push_product(out, &ps[0]);
    let mut i: usize = 1;
    proof {
        lemma_skip_step(dv, 0);
        assert(old(out)@ + spec_product_json(dv[0]) + spec_products_json_rest(dv.skip(1))
            =~= old(out)@ + spec_products_json(dv));
    }
    while i < n
        invariant
            n == ps@.len(),
            dv == ps.deep_view(),
            dv.len() == n,
            1 <= i <= n,
            out@ + spec_products_json_rest(dv.skip(i as int)) == old(out)@
                + spec_products_json(dv),
        decreases n - i,
    {
        proof {
            lemma_skip_step(dv, i as int);
            assert(dv[i as int] == ps@[i as int].deep_view());
        }
        let ghost mid = out@;
        out.push(',');
        push_product(out, &ps[i]);
        proof {
            assert(out@ =~= mid + (seq![','] + spec_product_json(dv[i as int])));
            assert(mid + (seq![','] + spec_product_json(dv[i as int]))
                + spec_products_json_rest(dv.skip(i + 1 as int)) =~= mid + (seq![',']
                + spec_product_json(dv[i as int]) + spec_products_json_rest(
                dv.skip(i + 1 as int),
            )));
        }
        i += 1;
    }
    proof {
        assert(dv.skip(n as int) =~= Seq::<ProductModel>::empty());
        assert(out@ + Seq::<char>::empty() =~= out@);
    }
}

/// Render the search endpoint's JSON body.
#[verifier::rlimit(80)]
pub fn render_search_json(m: &SearchResult) -> (r: String)
    ensures
        r@ == spec_search_json(m@),
{
    let mut out: Vec<char> = Vec::new();
    push_lit(&mut out, "{\"keyword\":");
    push_quoted(&mut out, m.keyword.as_str());
    push_lit(&mut out, ",\"results\":[");
    push_products(&mut out, &m.results);
    push_lit(&mut out, "],\"success\":true,\"suggestion\":");
    push_quoted(&mut out, m.suggestion.as_str());
    push_lit(&mut out, "}");
    chars_to_string(&out)
}

/// Render the lookup endpoint's JSON body.
#[verifier::rlimit(80)]
pub fn render_detail_json(d: &ProductDetail) -> (r: String)
    ensures
        r@ == spec_detail_json(d@),
{
    let mut out: Vec<char> = Vec::new();
    push_lit(&mut out, "{\"createdAt\":");
    push_quoted(&mut out, d.created_at.as_str());
    push_lit(&mut out, ",\"description\":");
    push_quoted(&mut out, d.description.as_str());
    push_lit(&mut out, ",\"originalUrl\":");
    push_quoted(&mut out, d.original_url.as_str());
    push_lit(&mut out, ",\"price\":");
    push_u64(&mut out, d.price);
    push_lit(&mut out, ",\"stock\":");
    push_u64(&mut out, d.stock);
    push_lit(&mut out, ",\"storeName\":");
    push_quoted(&mut out, d.store_name.as_str());
    push_lit(&mut out, ",\"success\":true,\"title\":");
    push_quoted(&mut out, d.title.as_str());
    push_lit(&mut out, "}");
    chars_to_string(&out)
}

/// The pairs of a substitution list as character sequences.
pub open spec fn pairs_view(pairs: Seq<(String, String)>) -> Seq<(Seq<char>, Seq<char>)> {
    pairs.map_values(|p: (String, String)| (p.0@, p.1@))
}

/// The template after every `(placeholder, value)` pair is applied by
/// literal replacement, left to right.
pub open spec fn spec_apply_pairs(t: Seq<char>, pairs: Seq<(Seq<char>, Seq<char>)>) -> Seq<char>
    decreases pairs.len(),
{
    if pairs.len() == 0 {
        t
    } else {
        spec_apply_pairs(spec_replace(t, pairs[0].0, pairs[0].1), pairs.drop_first())
    }
}

/// A rendered page: the substituted template, trimmed.
pub open spec fn spec_render_template(t: Seq<char>, pairs: Seq<(Seq<char>, Seq<char>)>) -> Seq<
    char,
> {
    spec_trim(spec_apply_pairs(t, pairs))
}

/// Apply an ordered list of `(placeholder, value)` substitutions to a
/// template and trim the result.
pub fn render_template(template: &str, pairs: &Vec<(String, String)>) -> (r: String)
    requires
        forall|j: int| 0 <= j < pairs@.len() ==> (#[trigger] pairs@[j]).0@.len() > 0,
    ensures
        r@ == spec_render_template(template@, pairs_view(pairs@)),
{
    let n = pairs.len();
    let mut cur = str_to_chars(template);
    let mut i: usize = 0;
    let ghost pv = pairs_view(pairs@);
    proof {
        assert(pv.skip(0) =~= pv);
    }
    while i < n
        invariant
            n == pairs@.len(),
            pv == pairs_view(pairs@),
            pv.len() == n,
            i <= n,
            forall|j: int| 0 <= j < pairs@.len() ==> (#[trigger] pairs@[j]).0@.len() > 0,
            spec_apply_pairs(template@, pv) == spec_apply_pairs(cur@, pv.skip(i as int)),
        decreases n - i,
    {
        proof {
            lemma_skip_step(pv, i as int);
            assert(pv[i as int] == (pairs@[i as int].0@, pairs@[i as int].1@));
        }
        let from = str_to_chars(pairs[i].0.as_str());
        let to = str_to_chars(pairs[i].1.as_str());
        cur = replace_all(&cur, &from, &to);
        i += 1;
    }
    proof {
        assert(pv.skip(n as int) =~= Seq::<(Seq<char>, Seq<char>)>::empty());
    }
    let trimmed = trim(&cur);
    chars_to_string(&trimmed)
}

} // verus!
