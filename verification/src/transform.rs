//! Transformation of the upstream provider's nested, loosely typed JSON
//! into the gateway's normalized records.
//!
//! Every field read yields an explicit outcome: the first missing or
//! mistyped field makes the whole transformation fail with
//! [`UpstreamError::Schema`]; a stock string that is not a non-negative
//! integer fails with [`UpstreamError::NumericParse`]. No partial records
//! are emitted.

use crate::json::{
    as_array, as_bool, as_str, as_u64, at, get, spec_as_array, spec_as_bool, spec_as_str,
    spec_as_u64, spec_at, spec_get, JsonValue,
};
use crate::text::{
    between, chars_to_string, lemma_skip_step, parse_u64, replace_all, spec_between,
    spec_parse_u64, spec_replace, str_to_chars,
};
use vstd::prelude::*;

verus! {

/// Why an upstream response could not be turned into output.
#[derive(Clone, Copy, Debug, PartialEq, Eq, Structural)]
pub enum UpstreamError {
    /// Business-level not-found: the product or shop does not exist.
    NotFound,
    /// The HTTP call to the provider failed.
    Transport,
    /// The body was not JSON, or an expected field was missing or of the
    /// wrong kind.
    Schema,
    /// A numeric-looking field failed to parse as a non-negative integer.
    NumericParse,
}

/// A normalized seller record.
pub struct NormalizedSeller {
    pub name: String,
    /// The shop handle: the storefront URL with the store prefix removed.
    pub id: String,
    pub url: String,
    pub city: String,
    pub is_official: bool,
    pub has_power_badge: bool,
}

/// Model of a seller record.
pub struct SellerModel {
    pub name: Seq<char>,
    pub id: Seq<char>,
    pub url: Seq<char>,
    pub city: Seq<char>,
    pub is_official: bool,
    pub has_power_badge: bool,
}

impl View for NormalizedSeller {
    type V = SellerModel;

    open spec fn view(&self) -> SellerModel {
        SellerModel {
            name: self.name@,
            id: self.id@,
            url: self.url@,
            city: self.city@,
            is_official: self.is_official,
            has_power_badge: self.has_power_badge,
        }
    }
}

/// A normalized search product record.
pub struct NormalizedProduct {
    pub seller: NormalizedSeller,
    pub name: String,
    pub url: String,
    /// Upstream-formatted price string, passed through unchanged.
    pub price: String,
    pub thumbnail: String,
    pub category: String,
    /// Derived from the product URL: the piece strictly between the
    /// `<sellerId>/` marker and the `?` marker; never empty.
    pub id: String,
}

/// Model of a product record.
pub struct ProductModel {
    pub seller: SellerModel,
    pub name: Seq<char>,
    pub url: Seq<char>,
    pub price: Seq<char>,
    pub thumbnail: Seq<char>,
    pub category: Seq<char>,
    pub id: Seq<char>,
}

impl View for NormalizedProduct {
    type V = ProductModel;

    open spec fn view(&self) -> ProductModel {
        ProductModel {
            seller: self.seller@,
            name: self.name@,
            url: self.url@,
            price: self.price@,
            thumbnail: self.thumbnail@,
            category: self.category@,
            id: self.id@,
        }
    }
}

impl DeepView for NormalizedProduct {
    type V = ProductModel;

    open spec fn deep_view(&self) -> ProductModel {
        self.view()
    }
}

/// A search response: keyword echo, suggestion, and the products in
/// upstream order.
pub struct SearchResult {
    pub keyword: String,
    pub suggestion: String,
    pub results: Vec<NormalizedProduct>,
}

/// Model of a search response.
pub struct SearchModel {
    pub keyword: Seq<char>,
    pub suggestion: Seq<char>,
    pub results: Seq<ProductModel>,
}

impl View for SearchResult {
    type V = SearchModel;

    open spec fn view(&self) -> SearchModel {
        SearchModel {
            keyword: self.keyword@,
            suggestion: self.suggestion@,
            results: self.results.deep_view(),
        }
    }
}

/// A product detail record.
pub struct ProductDetail {
    pub title: String,
    pub description: String,
    pub price: u64,
    pub stock: u64,
    pub store_name: String,
    pub original_url: String,
    /// Opaque creation timestamp, passed through unchanged.
    pub created_at: String,
}

/// Model of a product detail record.
pub struct DetailModel {
    pub title: Seq<char>,
    pub description: Seq<char>,
    pub price: u64,
    pub stock: u64,
    pub store_name: Seq<char>,
    pub original_url: Seq<char>,
    pub created_at: Seq<char>,
}

impl View for ProductDetail {
    type V = DetailModel;

    open spec fn view(&self) -> DetailModel {
        DetailModel {
            title: self.title@,
            description: self.description@,
            price: self.price,
            stock: self.stock,
            store_name: self.store_name@,
            original_url: self.original_url@,
            created_at: self.created_at@,
        }
    }
}

/// The storefront URL prefix that is stripped to obtain the seller handle.
pub open spec fn store_prefix() -> Seq<char> {
    "https://www.tokopedia.com/"@
}

/// A string field of an object value.
pub open spec fn str_field(v: JsonValue, k: Seq<char>) -> Option<Seq<char>> {
    match spec_get(v, k) {
        Some(x) => spec_as_str(x),
        None => None,
    }
}

/// A boolean field of an object value.
pub open spec fn bool_field(v: JsonValue, k: Seq<char>) -> Option<bool> {
    match spec_get(v, k) {
        Some(x) => spec_as_bool(x),
        None => None,
    }
}

/// A `u64` field two keys deep.
pub open spec fn nested_u64_field(v: JsonValue, k1: Seq<char>, k2: Seq<char>) -> Option<u64> {
    match spec_get(v, k1) {
        Some(x) => match spec_get(x, k2) {
            Some(y) => spec_as_u64(y),
            None => None,
        },
        None => None,
    }
}

/// A string field two keys deep.
pub open spec fn nested_str_field(v: JsonValue, k1: Seq<char>, k2: Seq<char>) -> Option<
    Seq<char>,
> {
    match spec_get(v, k1) {
        Some(x) => match spec_get(x, k2) {
            Some(y) => spec_as_str(y),
            None => None,
        },
        None => None,
    }
}

fn get_str<'a>(v: &'a JsonValue, k: &str) -> (r: Option<&'a String>)
    ensures
        match r {
            Some(s) => str_field(*v, k@) == Some(s@),
            None => str_field(*v, k@) is None,
        },
{
    match get(v, k) {
        Some(x) => as_str(x),
        None => None,
    }
}

fn get_bool(v: &JsonValue, k: &str) -> (r: Option<bool>)
    ensures
        r == bool_field(*v, k@),
{
    match get(v, k) {
        Some(x) => as_bool(x),
        None => None,
    }
}

fn get_nested_u64(v: &JsonValue, k1: &str, k2: &str) -> (r: Option<u64>)
    ensures
        r == nested_u64_field(*v, k1@, k2@),
{
    match get(v, k1) {
        Some(x) => match get(x, k2) {
            Some(y) => as_u64(y),
            None => None,
        },
        None => None,
    }
}

fn get_nested_str<'a>(v: &'a JsonValue, k1: &str, k2: &str) -> (r: Option<&'a String>)
    ensures
        match r {
            Some(s) => nested_str_field(*v, k1@, k2@) == Some(s@),
            None => nested_str_field(*v, k1@, k2@) is None,
        },
{
    match get(v, k1) {
        Some(x) => match get(x, k2) {
            Some(y) => as_str(y),
            None => None,
        },
        None => None,
    }
}

/// One normalized product from one upstream product entry: all scalar
/// fields must be present with their expected kinds, the seller handle is
/// the storefront URL with the store prefix removed, and the product id is
/// the piece of the product URL strictly between `<handle>/` and `?`.
pub open spec fn spec_product(p: JsonValue) -> Result<ProductModel, UpstreamError> {
    match spec_get(p, "shop"@) {
        None => Err(UpstreamError::Schema),
        Some(shop) => match (
            str_field(shop, "name"@),
            str_field(shop, "url"@),
            str_field(shop, "city"@),
            bool_field(shop, "isOfficial"@),
            bool_field(shop, "isPowerBadge"@),
            str_field(p, "name"@),
            str_field(p, "url"@),
            str_field(p, "price"@),
            str_field(p, "imageUrl"@),
            str_field(p, "categoryName"@),
        ) {
            (
                Some(sname),
                Some(surl),
                Some(scity),
                Some(soff),
                Some(spow),
                Some(pname),
                Some(purl),
                Some(pprice),
                Some(pthumb),
                Some(pcat),
            ) => {
                let handle = spec_replace(surl, store_prefix(), Seq::empty());
                match spec_between(purl, handle.push('/'), "?"@) {
                    None => Err(UpstreamError::Schema),
                    Some(pid) => Ok(
                        ProductModel {
                            seller: SellerModel {
                                name: sname,
                                id: handle,
                                url: surl,
                                city: scity,
                                is_official: soff,
                                has_power_badge: spow,
                            },
                            name: pname,
                            url: purl,
                            price: pprice,
                            thumbnail: pthumb,
                            category: pcat,
                            id: pid,
                        },
                    ),
                }
            },
            _ => Err(UpstreamError::Schema),
        },
    }
}

/// The normalized products of an upstream product list, in upstream order;
/// the first failing entry fails the whole list.
pub open spec fn spec_products(ps: Seq<JsonValue>) -> Result<Seq<ProductModel>, UpstreamError>
    decreases ps.len(),
{
    if ps.len() == 0 {
        Ok(Seq::empty())
    } else {
        match spec_product(ps[0]) {
            Err(e) => Err(e),
            Ok(m) => match spec_products(ps.drop_first()) {
                Err(e) => Err(e),
                Ok(rest) => Ok(seq![m] + rest),
            },
        }
    }
}

/// The search transformation over a parsed upstream body.
pub open spec fn spec_search(v: JsonValue) -> Result<SearchModel, UpstreamError> {
    match spec_at(v, 0) {
        None => Err(UpstreamError::Schema),
        Some(e0) => match spec_get(e0, "data"@) {
            None => Err(UpstreamError::Schema),
            Some(d1) => match spec_get(d1, "ace_search_product_v4"@) {
                None => Err(UpstreamError::Schema),
                Some(d2) => match spec_get(d2, "data"@) {
                    None => Err(UpstreamError::Schema),
                    Some(data) => match spec_get(data, "suggestion"@) {
                        None => Err(UpstreamError::Schema),
                        Some(sug) => match (
                            str_field(sug, "currentKeyword"@),
                            str_field(sug, "suggestion"@),
                        ) {
                            (Some(kw), Some(sg)) => match spec_get(data, "products"@) {
                                None => Err(UpstreamError::Schema),
                                Some(parr) => match spec_as_array(parr) {
                                    None => Err(UpstreamError::Schema),
                                    Some(ps) => match spec_products(ps) {
                                        Err(e) => Err(e),
                                        Ok(rs) => Ok(
                                            SearchModel {
                                                keyword: kw,
                                                suggestion: sg,
                                                results: rs,
                                            },
                                        ),
                                    },
                                },
                            },
                            _ => Err(UpstreamError::Schema),
                        },
                    },
                },
            },
        },
    }
}

/// Transform one upstream product entry.
pub fn transform_product(p: &JsonValue) -> (r: Result<NormalizedProduct, UpstreamError>)
    ensures
        match r {
            Ok(np) => spec_product(*p) == Ok::<_, UpstreamError>(np@),
            Err(e) => spec_product(*p) == Err::<ProductModel, _>(e),
        },
{
    let shop = match get(p, "shop") {
        Some(s) => s,
        None => {
            return Err(UpstreamError::Schema);
        },
    };
    let sname = match get_str(shop, "name") {
        Some(s) => s.clone(),
        None => {
            return Err(UpstreamError::Schema);
        },
    };
    let surl = match get_str(shop, "url") {
        Some(s) => s.clone(),
        None => {
            return Err(UpstreamError::Schema);
        },
    };
    let scity = match get_str(shop, "city") {
        Some(s) => s.clone(),
        None => {
            return Err(UpstreamError::Schema);
        },
    };
    let soff = match get_bool(shop, "isOfficial") {
        Some(b) => b,
        None => {
            return Err(UpstreamError::Schema);
        },
    };
    let spow = match get_bool(shop, "isPowerBadge") {
        Some(b) => b,
        None => {
            return Err(UpstreamError::Schema);
        },
    };
    let pname = match get_str(p, "name") {
        Some(s) => s.clone(),
        None => {
            return Err(UpstreamError::Schema);
        },
    };
    let purl = match get_str(p, "url") {
        Some(s) => s.clone(),
        None => {
            return Err(UpstreamError::Schema);
        },
    };
    let pprice = match get_str(p, "price") {
        Some(s) => s.clone(),
        None => {
            return Err(UpstreamError::Schema);
        },
    };
    let pthumb = match get_str(p, "imageUrl") {
        Some(s) => s.clone(),
        None => {
            return Err(UpstreamError::Schema);
        },
    };
    let pcat = match get_str(p, "categoryName") {
        Some(s) => s.clone(),
        None => {
            return Err(UpstreamError::Schema);
        },
    };
    let prefix = str_to_chars("https://www.tokopedia.com/");
    proof {
        reveal_strlit("https://www.tokopedia.com/");
        assert(prefix@.len() > 0);
    }
    let surl_chars = str_to_chars(surl.as_str());
    let empty: Vec<char> = Vec::new();
    proof {
        assert(empty@ =~= Seq::<char>::empty());
    }
    let mut marker = replace_all(&surl_chars, &prefix, &empty);
    let handle = chars_to_string(&marker);
    marker.push('/');
    let purl_chars = str_to_chars(purl.as_str());
    let qmark = str_to_chars("?");
    let pid_chars = match between(&purl_chars, &marker, &qmark) {
        Some(c) => c,
        None => {
            return Err(UpstreamError::Schema);
        },
    };
    Ok(
        NormalizedProduct {
            seller: NormalizedSeller {
                name: sname,
                id: handle,
                url: surl,
                city: scity,
                is_official: soff,
                has_power_badge: spow,
            },
            name: pname,
            url: purl,
            price: pprice,
            thumbnail: pthumb,
            category: pcat,
            id: chars_to_string(&pid_chars),
        },
    )
}

spec fn prepend_products(
    pre: Seq<ProductModel>,
    r: Result<Seq<ProductModel>, UpstreamError>,
) -> Result<Seq<ProductModel>, UpstreamError> {
    match r {
        Ok(rest) => Ok(pre + rest),
        Err(e) => Err(e),
    }
}

fn fold_products(ps: &Vec<JsonValue>) -> (r: Result<Vec<NormalizedProduct>, UpstreamError>)
    ensures
        match r {
            Ok(out) => spec_products(ps@) == Ok::<_, UpstreamError>(out.deep_view()),
            Err(e) => spec_products(ps@) == Err::<Seq<ProductModel>, _>(e),
        },
{
    let n = ps.len();
    let mut out: Vec<NormalizedProduct> = Vec::new();
    let mut i: usize = 0;
    proof {
        assert(ps@.skip(0) =~= ps@);
        assert(out.deep_view() =~= Seq::<ProductModel>::empty());
        assert(spec_products(ps@) == prepend_products(out.deep_view(), spec_products(ps@)));
    }
    while i < n
        invariant
            n == ps@.len(),
            i <= n,
            spec_products(ps@) == prepend_products(out.deep_view(), spec_products(
                ps@.skip(i as int),
            )),
        decreases n - i,
    {
        proof {
            lemma_skip_step(ps@, i as int);
        }
        match transform_product(&ps[i]) {
            Err(e) => {
                return Err(e);
            },
            Ok(np) => {
                let ghost old_out = out.deep_view();
                out.push(np);
                proof {
                    assert(out.deep_view() =~~= old_out.push(np@));
                    match spec_products(ps@.skip(i + 1 as int)) {
                        Ok(rest) => {
                            assert(old_out + (seq![np@] + rest) =~= old_out.push(np@) + rest);
                        },
                        Err(_) => {},
                    }
                }
            },
        }
        i += 1;
    }
    proof {
        assert(ps@.skip(n as int) =~= Seq::<JsonValue>::empty());
        match spec_products(ps@) {
            Ok(all) => {
                assert(out.deep_view() + Seq::<ProductModel>::empty() =~= out.deep_view());
            },
            Err(_) => {},
        }
    }
    Ok(out)
}

/// Transform a parsed upstream search body into a normalized search
/// result.
pub fn transform_search(v: &JsonValue) -> (r: Result<SearchResult, UpstreamError>)
    ensures
        match r {
            Ok(sr) => spec_search(*v) == Ok::<_, UpstreamError>(sr@),
            Err(e) => spec_search(*v) == Err::<SearchModel, _>(e),
        },
{
    let e0 = match at(v, 0) {
        Some(x) => x,
        None => {
            return Err(UpstreamError::Schema);
        },
    };
    let d1 = match get(e0, "data") {
        Some(x) => x,
        None => {
            return Err(UpstreamError::Schema);
        },
    };
    let d2 = match get(d1, "ace_search_product_v4") {
        Some(x) => x,
        None => {
            return Err(UpstreamError::Schema);
        },
    };
    let data = match get(d2, "data") {
        Some(x) => x,
        None => {
            return Err(UpstreamError::Schema);
        },
    };
    let sug = match get(data, "suggestion") {
        Some(x) => x,
        None => {
            return Err(UpstreamError::Schema);
        },
    };
    let kw = match get_str(sug, "currentKeyword") {
        Some(s) => s.clone(),
        None => {
            return Err(UpstreamError::Schema);
        },
    };
    let sg = match get_str(sug, "suggestion") {
        Some(s) => s.clone(),
        None => {
            return Err(UpstreamError::Schema);
        },
    };
    let parr = match get(data, "products") {
        Some(x) => x,
        None => {
            return Err(UpstreamError::Schema);
        },
    };
    let ps = match as_array(parr) {
        Some(a) => a,
        None => {
            return Err(UpstreamError::Schema);
        },
    };
    let results = match fold_products(ps) {
        Ok(rs) => rs,
        Err(e) => {
            return Err(e);
        },
    };
    Ok(SearchResult { keyword: kw, suggestion: sg, results })
}

/// What the `product_content` component supplies, as it stands while the
/// component list is scanned.
pub struct ContentState {
    pub title: Seq<char>,
    pub description: Seq<char>,
    pub price: u64,
    pub stock: Seq<char>,
}

/// The scan state before any component is read: empty strings, zero
/// price, and the stock numeral `0`.
pub open spec fn initial_content() -> ContentState {
    ContentState { title: Seq::empty(), description: Seq::empty(), price: 0, stock: "0"@ }
}

/// The description after scanning `product_detail` content entries: every
/// entry must carry a `title`, and each entry titled `Deskripsi` supplies
/// the description (the last one wins); other entries are ignored.
pub open spec fn spec_detail_entries(es: Seq<JsonValue>, desc: Seq<char>) -> Result<
    Seq<char>,
    UpstreamError,
>
    decreases es.len(),
{
    if es.len() == 0 {
        Ok(desc)
    } else {
        match str_field(es[0], "title"@) {
            None => Err(UpstreamError::Schema),
            Some(t) => if t == "Deskripsi"@ {
                match str_field(es[0], "subtitle"@) {
                    None => Err(UpstreamError::Schema),
                    Some(st) => spec_detail_entries(es.drop_first(), st),
                }
            } else {
                spec_detail_entries(es.drop_first(), desc)
            },
        }
    }
}

/// The effect of one component on the scan state, keyed by its `name`
/// discriminator: `product_content` supplies title, price and the stock
/// string from its first data element; `product_detail` supplies the
/// description; any other name leaves the state unchanged.
pub open spec fn spec_component(c: JsonValue, st: ContentState) -> Result<
    ContentState,
    UpstreamError,
> {
    match str_field(c, "name"@) {
        None => Err(UpstreamError::Schema),
        Some(nm) => if nm == "product_content"@ {
            match spec_get(c, "data"@) {
                None => Err(UpstreamError::Schema),
                Some(dv) => match spec_at(dv, 0) {
                    None => Err(UpstreamError::Schema),
                    Some(d0) => match (
                        str_field(d0, "name"@),
                        nested_u64_field(d0, "price"@, "value"@),
                        nested_str_field(d0, "stock"@, "value"@),
                    ) {
                        (Some(t), Some(pr), Some(stk)) => Ok(
                            ContentState {
                                title: t,
                                description: st.description,
                                price: pr,
                                stock: stk,
                            },
                        ),
                        _ => Err(UpstreamError::Schema),
                    },
                },
            }
        } else if nm == "product_detail"@ {
            match spec_get(c, "data"@) {
                None => Err(UpstreamError::Schema),
                Some(dv) => match spec_at(dv, 0) {
                    None => Err(UpstreamError::Schema),
                    Some(d0) => match spec_get(d0, "content"@) {
                        None => Err(UpstreamError::Schema),
                        Some(ct) => match spec_as_array(ct) {
                            None => Err(UpstreamError::Schema),
                            Some(es) => match spec_detail_entries(es, st.description) {
                                Err(e) => Err(e),
                                Ok(d) => Ok(
                                    ContentState {
                                        title: st.title,
                                        description: d,
                                        price: st.price,
                                        stock: st.stock,
                                    },
                                ),
                            },
                        },
                    },
                },
            }
        } else {
            Ok(st)
        },
    }
}

/// The scan state after a whole component list, left to right.
pub open spec fn spec_components(cs: Seq<JsonValue>, st: ContentState) -> Result<
    ContentState,
    UpstreamError,
>
    decreases cs.len(),
{
    if cs.len() == 0 {
        Ok(st)
    } else {
        match spec_component(cs[0], st) {
            Err(e) => Err(e),
            Ok(st2) => spec_components(cs.drop_first(), st2),
        }
    }
}

/// The lookup transformation over a parsed upstream body.
pub open spec fn spec_lookup(v: JsonValue) -> Result<DetailModel, UpstreamError> {
    match spec_at(v, 0) {
        None => Err(UpstreamError::Schema),
        Some(e0) => match spec_get(e0, "data"@) {
            None => Err(UpstreamError::Schema),
            Some(d1) => match spec_get(d1, "pdpGetLayout"@) {
                None => Err(UpstreamError::Schema),
                Some(layout) => match spec_get(layout, "components"@) {
                    None => Err(UpstreamError::Schema),
                    Some(carr) => match spec_as_array(carr) {
                        None => Err(UpstreamError::Schema),
                        Some(cs) => match spec_get(layout, "basicInfo"@) {
                            None => Err(UpstreamError::Schema),
                            Some(basic) => match (
                                str_field(basic, "shopName"@),
                                str_field(basic, "url"@),
                                str_field(basic, "createdAt"@),
                            ) {
                                (Some(store), Some(ourl), Some(created)) => match spec_components(
                                    cs,
                                    initial_content(),
                                ) {
                                    Err(e) => Err(e),
                                    Ok(st) => match spec_parse_u64(st.stock) {
                                        None => Err(UpstreamError::NumericParse),
                                        Some(stock) => Ok(
                                            DetailModel {
                                                title: st.title,
                                                description: st.description,
                                                price: st.price,
                                                stock: stock,
                                                store_name: store,
                                                original_url: ourl,
                                                created_at: created,
                                            },
                                        ),
                                    },
                                },
                                _ => Err(UpstreamError::Schema),
                            },
                        },
                    },
                },
            },
        },
    }
}

/// The scan state as executable data.
pub struct Content {
    pub title: String,
    pub description: String,
    pub price: u64,
    pub stock: String,
}

impl View for Content {
    type V = ContentState;

    open spec fn view(&self) -> ContentState {
        ContentState {
            title: self.title@,
            description: self.description@,
            price: self.price,
            stock: self.stock@,
        }
    }
}

fn scan_detail_entries(es: &Vec<JsonValue>, desc: String) -> (r: Result<String, UpstreamError>)
    ensures
        match r {
            Ok(d) => spec_detail_entries(es@, desc@) == Ok::<_, UpstreamError>(d@),
            Err(e) => spec_detail_entries(es@, desc@) == Err::<Seq<char>, _>(e),
        },
{
    let n = es.len();
    let ghost desc0 = desc@;
    let mut cur = desc;
    let mut i: usize = 0;
    proof {
        assert(es@.skip(0) =~= es@);
    }
    while i < n
        invariant
            n == es@.len(),
            i <= n,
            desc0 == desc@,
            spec_detail_entries(es@, desc0) == spec_detail_entries(
                es@.skip(i as int),
                cur@,
            ),
        decreases n - i,
    {
        proof {
            lemma_skip_step(es@, i as int);
        }
        let entry = &es[i];
        let t = match get_str(entry, "title") {
            Some(s) => s,
            None => {
                return Err(UpstreamError::Schema);
            },
        };
        let tc = str_to_chars(t.as_str());
        let deskripsi = str_to_chars("Deskripsi");
        if crate::text::chars_eq(&tc, &deskripsi) {
            match get_str(entry, "subtitle") {
                Some(s) => {
                    cur = s.clone();
                },
                None => {
                    return Err(UpstreamError::Schema);
                },
            }
        }
        i += 1;
    }
    proof {
        assert(es@.skip(n as int) =~= Seq::<JsonValue>::empty());
    }
    Ok(cur)
}

fn apply_component(c: &JsonValue, st: Content) -> (r: Result<Content, UpstreamError>)
    ensures
        match r {
            Ok(s2) => spec_component(*c, st@) == Ok::<_, UpstreamError>(s2@),
            Err(e) => spec_component(*c, st@) == Err::<ContentState, _>(e),
        },
{
    let nm = match get_str(c, "name") {
        Some(s) => s,
        None => {
            return Err(UpstreamError::Schema);
        },
    };
    let nmc = str_to_chars(nm.as_str());
    let pc = str_to_chars("product_content");
    let pd = str_to_chars("product_detail");
    if crate::text::chars_eq(&nmc, &pc) {
        let dv = match get(c, "data") {
            Some(x) => x,
            None => {
                return Err(UpstreamError::Schema);
            },
        };
        let d0 = match at(dv, 0) {
            Some(x) => x,
            None => {
                return Err(UpstreamError::Schema);
            },
        };
        let t = match get_str(d0, "name") {
            Some(s) => s.clone(),
            None => {
                return Err(UpstreamError::Schema);
            },
        };
        let pr = match get_nested_u64(d0, "price", "value") {
            Some(x) => x,
            None => {
                return Err(UpstreamError::Schema);
            },
        };
        let stk = match get_nested_str(d0, "stock", "value") {
            Some(s) => s.clone(),
            None => {
                return Err(UpstreamError::Schema);
            },
        };
        Ok(Content { title: t, description: st.description, price: pr, stock: stk })
    } else if crate::text::chars_eq(&nmc, &pd) {
        let dv = match get(c, "data") {
            Some(x) => x,
            None => {
                return Err(UpstreamError::Schema);
            },
        };
        let d0 = match at(dv, 0) {
            Some(x) => x,
            None => {
                return Err(UpstreamError::Schema);
            },
        };
        let ct = match get(d0, "content") {
            Some(x) => x,
            None => {
                return Err(UpstreamError::Schema);
            },
        };
        let es = match as_array(ct) {
            Some(a) => a,
            None => {
                return Err(UpstreamError::Schema);
            },
        };
        let d = match scan_detail_entries(es, st.description) {
            Ok(d) => d,
            Err(e) => {
                return Err(e);
            },
        };
        Ok(Content { title: st.title, description: d, price: st.price, stock: st.stock })
    } else {
        Ok(st)
    }
}

fn fold_components(cs: &Vec<JsonValue>) -> (r: Result<Content, UpstreamError>)
    ensures
        match r {
            Ok(s) => spec_components(cs@, initial_content()) == Ok::<_, UpstreamError>(s@),
            Err(e) => spec_components(cs@, initial_content()) == Err::<ContentState, _>(e),
        },
{
    let n = cs.len();
    let mut zero: Vec<char> = Vec::new();
    zero.push('0');
    let mut st = Content {
        title: String::new(),
        description: String::new(),
        price: 0,
        stock: chars_to_string(&zero),
    };
    proof {
        reveal_strlit("0");
        assert(zero@ =~= "0"@);
        assert(st@ == initial_content());
        assert(cs@.skip(0) =~= cs@);
    }
    let mut i: usize = 0;
    while i < n
        invariant
            n == cs@.len(),
            i <= n,
            spec_components(cs@, initial_content()) == spec_components(
                cs@.skip(i as int),
                st@,
            ),
        decreases n - i,
    {
        proof {
            lemma_skip_step(cs@, i as int);
        }
        st = match apply_component(&cs[i], st) {
            Ok(s2) => s2,
            Err(e) => {
                return Err(e);
            },
        };
        i += 1;
    }
    proof {
        assert(cs@.skip(n as int) =~= Seq::<JsonValue>::empty());
    }
    Ok(st)
}

/// Transform a parsed upstream lookup body into a product detail record.
pub fn transform_lookup(v: &JsonValue) -> (r: Result<ProductDetail, UpstreamError>)
    ensures
        match r {
            Ok(d) => spec_lookup(*v) == Ok::<_, UpstreamError>(d@),
            Err(e) => spec_lookup(*v) == Err::<DetailModel, _>(e),
        },
{
    let e0 = match at(v, 0) {
        Some(x) => x,
        None => {
            return Err(UpstreamError::Schema);
        },
    };
    let d1 = match get(e0, "data") {
        Some(x) => x,
        None => {
            return Err(UpstreamError::Schema);
        },
    };
    let layout = match get(d1, "pdpGetLayout") {
        Some(x) => x,
        None => {
            return Err(UpstreamError::Schema);
        },
    };
    let carr = match get(layout, "components") {
        Some(x) => x,
        None => {
            return Err(UpstreamError::Schema);
        },
    };
    let cs = match as_array(carr) {
        Some(a) => a,
        None => {
            return Err(UpstreamError::Schema);
        },
    };
    let basic = match get(layout, "basicInfo") {
        Some(x) => x,
        None => {
            return Err(UpstreamError::Schema);
        },
    };
    let store = match get_str(basic, "shopName") {
        Some(s) => s.clone(),
        None => {
            return Err(UpstreamError::Schema);
        },
    };
    let ourl = match get_str(basic, "url") {
        Some(s) => s.clone(),
        None => {
            return Err(UpstreamError::Schema);
        },
    };
    let created = match get_str(basic, "createdAt") {
        Some(s) => s.clone(),
        None => {
            return Err(UpstreamError::Schema);
        },
    };
    let st = match fold_components(cs) {
        Ok(s) => s,
        Err(e) => {
            return Err(e);
        },
    };
    let stock_chars = str_to_chars(st.stock.as_str());
    let stock = match parse_u64(&stock_chars) {
        Some(x) => x,
        None => {
            return Err(UpstreamError::NumericParse);
        },
    };
    Ok(
        ProductDetail {
            title: st.title,
            description: st.description,
            price: st.price,
            stock,
            store_name: store,
            original_url: ourl,
            created_at: created,
        },
    )
}

} // verus!
