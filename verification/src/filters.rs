//! The points where the library hands work to `warp` (and to `http`, which
//! `warp` re-exports).  Every item here is trusted: its contract is taken on
//! the word of the outside crate's source, not proved.

use vstd::prelude::*;
use warp::filters::BoxedFilter;
use warp::http::status::InvalidStatusCode;
use warp::http::StatusCode;
use warp::Filter;

use crate::path::slash_free;

verus! {

/// A boxed `warp` filter that extracts nothing (`BoxedFilter<()>`): a method
/// check, a path check, or both joined.
///
/// `BoxedFilter<T>` requires `T: warp::generic::Tuple`, a trait in a private
/// module of `warp`, so the type cannot be declared to Verus; it is carried
/// here opaquely instead.
#[verifier::external_body]
pub struct UnitFilter {
    pub inner: BoxedFilter<()>,
}

/// A complete, type-erased route (`BoxedFilter<(warp::reply::Response,)>`),
/// as built by a route builder's `handle`.  Opaque for the same reason as
/// [`UnitFilter`].
#[verifier::external_body]
pub struct RouteFilter {
    pub inner: BoxedFilter<(warp::reply::Response,)>,
}

#[verifier::external_type_specification]
#[verifier::external_body]
pub struct ExStatusCode(StatusCode);

#[verifier::external_type_specification]
#[verifier::external_body]
pub struct ExInvalidStatusCode(InvalidStatusCode);

/// Why a unit filter rejects a request: `warp`'s `reject::not_found()` (a
/// 404 reply when nothing recovers it) or its method-not-allowed rejection
/// (a 405 reply when nothing recovers it).
#[derive(Clone, Copy, Debug, PartialEq, Eq, Structural)]
pub enum RejectionKind {
    NotFound,
    MethodNotAllowed,
}

/// What the unit filter `f` does to a request whose method is named `method`
/// and whose path, as far as the route has not yet consumed it, is made of
/// the segments `path`: `Ok(rest)` when `f` accepts the request, with
/// `rest` the segments it leaves unconsumed, `Err(kind)` when it rejects it
/// with a rejection of that kind.
/// Method and path filters depend on nothing else of a request.  How `warp`
/// reads a raw request path into segments (leading and trailing slashes,
/// percent-encoding) is not stated.
pub uninterp spec fn filter_step(f: UnitFilter, method: Seq<char>, path: Seq<Seq<char>>) -> Result<
    Seq<Seq<char>>,
    RejectionKind,
>;

/// The `http::StatusCode` whose number is `code`, as `StatusCode::from_u16`
/// builds it (a plain wrapper around the number).
pub uninterp spec fn http_status_code(code: u16) -> StatusCode;

/// `http::StatusCode::from_u16`: succeeds exactly on `100..1000`, and then
/// returns the status code of that number.  A `StatusCode` is its number
/// (`StatusCode(NonZeroU16)`), so no other valid number gives the same value.
#[verifier::external_body]
pub(crate) fn status_code_from_u16(code: u16) -> (r: Result<StatusCode, InvalidStatusCode>)
    ensures
        r is Ok <==> 100 <= code < 1000,
        r matches Ok(c) ==> c == http_status_code(code),
        r matches Ok(c) ==> (forall|k: u16|
            100 <= k < 1000 && #[trigger] http_status_code(k) == c ==> k == code),
{
    StatusCode::from_u16(code)
}

/// `warp::get()`, boxed: accepts exactly the requests whose
/// method is GET, and consumes no path segment;
/// others it rejects as method-not-allowed.
#[verifier::external_body]
pub(crate) fn warp_get() -> (r: UnitFilter)
    ensures
        forall|m: Seq<char>, p: Seq<Seq<char>>| #[trigger]
            filter_step(r, m, p) == (if m == "GET"@ {
                Ok(p)
            } else {
                Err(RejectionKind::MethodNotAllowed)
            }),
{
    UnitFilter { inner: warp::get().boxed() }
}

/// `warp::post()`, boxed: accepts exactly the requests whose
/// method is POST, and consumes no path segment;
/// others it rejects as method-not-allowed.
#[verifier::external_body]
pub(crate) fn warp_post() -> (r: UnitFilter)
    ensures
        forall|m: Seq<char>, p: Seq<Seq<char>>| #[trigger]
            filter_step(r, m, p) == (if m == "POST"@ {
                Ok(p)
            } else {
                Err(RejectionKind::MethodNotAllowed)
            }),
{
    UnitFilter { inner: warp::post().boxed() }
}

/// `warp::put()`, boxed: accepts exactly the requests whose
/// method is PUT, and consumes no path segment;
/// others it rejects as method-not-allowed.
#[verifier::external_body]
pub(crate) fn warp_put() -> (r: UnitFilter)
    ensures
        forall|m: Seq<char>, p: Seq<Seq<char>>| #[trigger]
            filter_step(r, m, p) == (if m == "PUT"@ {
                Ok(p)
            } else {
                Err(RejectionKind::MethodNotAllowed)
            }),
{
    UnitFilter { inner: warp::put().boxed() }
}

/// `warp::delete()`, boxed: accepts exactly the requests whose
/// method is DELETE, and consumes no path segment;
/// others it rejects as method-not-allowed.
#[verifier::external_body]
pub(crate) fn warp_delete() -> (r: UnitFilter)
    ensures
        forall|m: Seq<char>, p: Seq<Seq<char>>| #[trigger]
            filter_step(r, m, p) == (if m == "DELETE"@ {
                Ok(p)
            } else {
                Err(RejectionKind::MethodNotAllowed)
            }),
{
    UnitFilter { inner: warp::delete().boxed() }
}

/// `warp::patch()`, boxed: accepts exactly the requests whose
/// method is PATCH, and consumes no path segment;
/// others it rejects as method-not-allowed.
#[verifier::external_body]
pub(crate) fn warp_patch() -> (r: UnitFilter)
    ensures
        forall|m: Seq<char>, p: Seq<Seq<char>>| #[trigger]
            filter_step(r, m, p) == (if m == "PATCH"@ {
                Ok(p)
            } else {
                Err(RejectionKind::MethodNotAllowed)
            }),
{
    UnitFilter { inner: warp::patch().boxed() }
}

/// `warp::head()`, boxed: accepts exactly the requests whose
/// method is HEAD, and consumes no path segment;
/// others it rejects as method-not-allowed.
#[verifier::external_body]
pub(crate) fn warp_head() -> (r: UnitFilter)
    ensures
        forall|m: Seq<char>, p: Seq<Seq<char>>| #[trigger]
            filter_step(r, m, p) == (if m == "HEAD"@ {
                Ok(p)
            } else {
                Err(RejectionKind::MethodNotAllowed)
            }),
{
    UnitFilter { inner: warp::head().boxed() }
}

/// `warp::options()`, boxed: accepts exactly the requests whose
/// method is OPTIONS, and consumes no path segment;
/// others it rejects as method-not-allowed.
#[verifier::external_body]
pub(crate) fn warp_options() -> (r: UnitFilter)
    ensures
        forall|m: Seq<char>, p: Seq<Seq<char>>| #[trigger]
            filter_step(r, m, p) == (if m == "OPTIONS"@ {
                Ok(p)
            } else {
                Err(RejectionKind::MethodNotAllowed)
            }),
{
    UnitFilter { inner: warp::options().boxed() }
}

/// `warp::path(segment)`, boxed: accepts exactly when the next unconsumed
/// path segment equals `segment`, and consumes it; otherwise it rejects as
/// not found.
/// `warp::path` panics on an empty segment or one that holds a `'/'`; the
/// `requires` rules both out.  The segment is leaked to `&'static str`, as
/// `warp::path` keeps it for the life of the filter.
#[verifier::external_body]
pub(crate) fn warp_path_segment(segment: &str) -> (r: UnitFilter)
    requires
        segment@.len() > 0,
        slash_free(segment@),
    ensures
        forall|m: Seq<char>, p: Seq<Seq<char>>| #[trigger]
            filter_step(r, m, p) == (if p.len() > 0 && p[0] == segment@ {
                Ok(p.drop_first())
            } else {
                Err(RejectionKind::NotFound)
            }),
{
    let leaked: &'static str = Box::leak(segment.to_owned().into_boxed_str());
    UnitFilter { inner: warp::path(leaked).boxed() }
}

/// `warp::path::end()`, boxed: accepts exactly when no path segment is
/// left unconsumed; otherwise it rejects as not found.
#[verifier::external_body]
pub(crate) fn warp_path_end() -> (r: UnitFilter)
    ensures
        forall|m: Seq<char>, p: Seq<Seq<char>>| #[trigger]
            filter_step(r, m, p) == (if p.len() == 0 {
                Ok(p)
            } else {
                Err(RejectionKind::NotFound)
            }),
{
    UnitFilter { inner: warp::path::end().boxed() }
}

/// `Filter::and` on two unit filters, boxed: runs `first`, then `second` on
/// what `first` left unconsumed; accepts when both accept, and otherwise
/// rejects with the rejection of the first filter that rejected.
#[verifier::external_body]
pub(crate) fn warp_and(first: UnitFilter, second: UnitFilter) -> (r: UnitFilter)
    ensures
        forall|m: Seq<char>, p: Seq<Seq<char>>| #[trigger]
            filter_step(r, m, p) == (match filter_step(first, m, p) {
                Ok(rest) => filter_step(second, m, rest),
                Err(kind) => Err(kind),
            }),
{
    UnitFilter { inner: first.inner.and(second.inner).boxed() }
}

/// The route that tries `first` on a request and, when `first` rejects it,
/// tries `second` on the same request from the same point of its path, as
/// `Filter::or` followed by `unify` builds it.  What it does is a function of
/// the two routes alone.
pub uninterp spec fn or_routes(first: RouteFilter, second: RouteFilter) -> RouteFilter;

/// `Filter::or` followed by `unify`, boxed: tries `first`, then `second`.
#[verifier::external_body]
pub(crate) fn warp_or(first: RouteFilter, second: RouteFilter) -> (r: RouteFilter)
    ensures
        r == or_routes(first, second),
{
    RouteFilter { inner: first.inner.or(second.inner).unify().boxed() }
}

} // verus!
