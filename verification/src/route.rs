//! Path-based routing: one special-cased root route, a `HEAD` short
//! circuit, and a generic `/<kind>/<args...>` scheme over the nonempty
//! path segments.

use crate::text::{chars_eq, chars_to_string, spec_segments, split_segments, str_to_chars};
use vstd::prelude::*;

verus! {

/// Where one request is dispatched.
#[derive(Debug)]
pub enum Route {
    /// Any `HEAD` request: empty 200 before all other dispatch.
    Head,
    /// `GET /`: the info page.
    Info,
    /// `GET /search/<query>`.
    Search(String),
    /// `GET /lookup/<seller>/<product>`.
    Lookup(String, String),
    /// Everything else.
    NotFound,
}

/// Model of a dispatch decision.
pub enum RouteModel {
    Head,
    Info,
    Search(Seq<char>),
    Lookup(Seq<char>, Seq<char>),
    NotFound,
}

impl View for Route {
    type V = RouteModel;

    open spec fn view(&self) -> RouteModel {
        match self {
            Route::Head => RouteModel::Head,
            Route::Info => RouteModel::Info,
            Route::Search(q) => RouteModel::Search(q@),
            Route::Lookup(s, p) => RouteModel::Lookup(s@, p@),
            Route::NotFound => RouteModel::NotFound,
        }
    }
}

/// The dispatch decision for one request line: `HEAD` first, then the
/// exact root route, then the segment-counted schemes, else not found.
pub open spec fn spec_route(method: Seq<char>, path: Seq<char>) -> RouteModel {
    if method == "HEAD"@ {
        RouteModel::Head
    } else if method == "GET"@ && path == "/"@ {
        RouteModel::Info
    } else {
        let segs = spec_segments(path, '/');
        if method == "GET"@ && segs.len() == 2 && segs[0] == "search"@ {
            RouteModel::Search(segs[1])
        } else if method == "GET"@ && segs.len() == 3 && segs[0] == "lookup"@ {
            RouteModel::Lookup(segs[1], segs[2])
        } else {
            RouteModel::NotFound
        }
    }
}

/// Dispatch one request line.
pub fn route(method: &str, path: &str) -> (r: Route)
    ensures
        r@ == spec_route(method@, path@),
{
    let m = str_to_chars(method);
    let p = str_to_chars(path);
    let head = str_to_chars("HEAD");
    if chars_eq(&m, &head) {
        return Route::Head;
    }
    let get = str_to_chars("GET");
    let is_get = chars_eq(&m, &get);
    let root = str_to_chars("/");
    if is_get && chars_eq(&p, &root) {
        return Route::Info;
    }
    let segs = split_segments(&p, '/');
    let ghost sv = spec_segments(path@, '/');
    proof {
        assert(segs@.len() == sv.len());
        assert forall|j: int| 0 <= j < segs@.len() implies segs@[j]@ == sv[j] by {
            assert(segs.deep_view()[j] == segs@[j].deep_view());
            assert(segs@[j].deep_view() =~= segs@[j]@);
        }
    }
    let nsegs = segs.len();
    let search = str_to_chars("search");
    let lookup = str_to_chars("lookup");
    if is_get && nsegs == 2 {
        if chars_eq(&segs[0], &search) {
            return Route::Search(chars_to_string(&segs[1]));
        }
    }
    if is_get && nsegs == 3 {
        if chars_eq(&segs[0], &lookup) {
            return Route::Lookup(chars_to_string(&segs[1]), chars_to_string(&segs[2]));
        }
    }
    Route::NotFound
}

} // verus!
