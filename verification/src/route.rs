use vstd::prelude::*;

use crate::filters::{filter_step, warp_and, RejectionKind, UnitFilter};
use crate::method::{method_filter, method_name, HttpMethod};
use crate::path::{path_filter, segments};

verus! {

/// Builder for a single route: an HTTP method and a `'/'`-separated path.
///
/// Attach a handler with `handle` (see the companion application crate) to
/// turn it into a route; or first switch to a JSON body (`json`) or to query
/// parameters (`query`).
pub struct RouteBuilder {
    method: HttpMethod,
    path: String,
}

impl View for RouteBuilder {
    type V = (HttpMethod, Seq<char>);

    /// The method and the path text, as given to the constructor.
    closed spec fn view(&self) -> (HttpMethod, Seq<char>) {
        (self.method, self.path@)
    }
}

impl RouteBuilder {
    /// A route for `method` on `path`.
    fn new(method: HttpMethod, path: &str) -> (r: Self)
        ensures
            r@ == (method, path@),
    {
        RouteBuilder { method, path: path.to_owned() }
    }

    /// A GET route on `path`.
    pub fn get(path: &str) -> (r: Self)
        ensures
            r@ == (HttpMethod::Get, path@),
    {
        Self::new(HttpMethod::Get, path)
    }

    /// A POST route on `path`.
    pub fn post(path: &str) -> (r: Self)
        ensures
            r@ == (HttpMethod::Post, path@),
    {
        Self::new(HttpMethod::Post, path)
    }

    /// A PUT route on `path`.
    pub fn put(path: &str) -> (r: Self)
        ensures
            r@ == (HttpMethod::Put, path@),
    {
        Self::new(HttpMethod::Put, path)
    }

    /// A DELETE route on `path`.
    pub fn delete(path: &str) -> (r: Self)
        ensures
            r@ == (HttpMethod::Delete, path@),
    {
        Self::new(HttpMethod::Delete, path)
    }

    /// A PATCH route on `path`.
    pub fn patch(path: &str) -> (r: Self)
        ensures
            r@ == (HttpMethod::Patch, path@),
    {
        Self::new(HttpMethod::Patch, path)
    }

    /// A HEAD route on `path`.
    pub fn head(path: &str) -> (r: Self)
        ensures
            r@ == (HttpMethod::Head, path@),
    {
        Self::new(HttpMethod::Head, path)
    }

    /// An OPTIONS route on `path`.
    pub fn options(path: &str) -> (r: Self)
        ensures
            r@ == (HttpMethod::Options, path@),
    {
        Self::new(HttpMethod::Options, path)
    }

    /// The route's method.
    pub fn method(&self) -> (m: HttpMethod)
        ensures
            m == self@.0,
    {
        self.method
    }

    /// The route's path, as given.
    pub fn path(&self) -> (p: &str)
        ensures
            p@ == self@.1,
    {
        self.path.as_str()
    }

    /// Expect a JSON body, deserialised into `T` when the route is handled.
    pub fn json<T>(self) -> (r: JsonRouteBuilder<T>)
        ensures
            r@ == self@,
    {
        JsonRouteBuilder { base: self, _phantom: std::marker::PhantomData }
    }

    /// Expect URL query parameters, deserialised into `T` when the route is
    /// handled.
    pub fn query<T>(self) -> (r: QueryRouteBuilder<T>)
        ensures
            r@ == self@,
    {
        QueryRouteBuilder { base: self, _phantom: std::marker::PhantomData }
    }

    /// The filter that accepts this route's method on exactly this route's
    /// path: the method check joined with the path check.  It accepts a
    /// request exactly when the request's method is this route's method and
    /// its unconsumed path segments are the segments of this route's path,
    /// and consumes them all.  It rejects a request of another method as
    /// method-not-allowed, and one of this method on another path as not
    /// found.
    pub fn route_filter(&self) -> (r: UnitFilter)
        ensures
            forall|m: Seq<char>, p: Seq<Seq<char>>| #[trigger]
                filter_step(r, m, p) == route_step(self@.0, self@.1, m, p),
    {
        let mf = method_filter(self.method);
        let pf = path_filter(self.path.as_str());
        let r = warp_and(mf, pf);
        proof {
            assert forall|m: Seq<char>, p: Seq<Seq<char>>| #[trigger]
                filter_step(r, m, p) == route_step(self@.0, self@.1, m, p) by {
                assert(filter_step(mf, m, p) == (if m == method_name(self.method) {
                    Ok(p)
                } else {
                    Err(RejectionKind::MethodNotAllowed)
                }));
                if m == method_name(self.method) {
                    assert(filter_step(pf, m, p) == (if p == segments(self.path@) {
                        Ok(Seq::<Seq<char>>::empty())
                    } else {
                        Err(RejectionKind::NotFound)
                    }));
                }
            }
        }
        r
    }
}

/// What the filter of a route for `method` on `path` does to a request whose
/// method is named `m` and whose unconsumed path segments are `p`: a wrong
/// method is rejected as method-not-allowed, then a wrong path as not found;
/// a match consumes the whole path.
pub open spec fn route_step(method: HttpMethod, path: Seq<char>, m: Seq<char>, p: Seq<Seq<char>>) -> Result<
    Seq<Seq<char>>,
    RejectionKind,
> {
    if m != method_name(method) {
        Err(RejectionKind::MethodNotAllowed)
    } else if p != segments(path) {
        Err(RejectionKind::NotFound)
    } else {
        Ok(Seq::<Seq<char>>::empty())
    }
}

/// A route accepts a request of its own method on exactly its own path, and
/// then leaves nothing of the path unconsumed.
pub proof fn law_route_accepts_own_method_and_path(method: HttpMethod, path: Seq<char>)
    ensures
        route_step(method, path, method_name(method), segments(path)) == Ok::<
            Seq<Seq<char>>,
            RejectionKind,
        >(Seq::<Seq<char>>::empty()),
{
}

/// A route rejects a request of any method other than its own as
/// method-not-allowed, whatever the request's path.
pub proof fn law_route_rejects_other_methods(
    method: HttpMethod,
    path: Seq<char>,
    m: Seq<char>,
    p: Seq<Seq<char>>,
)
    requires
        m != method_name(method),
    ensures
        route_step(method, path, m, p) == Err::<Seq<Seq<char>>, RejectionKind>(
            RejectionKind::MethodNotAllowed,
        ),
{
}

/// Distinct methods have distinct names, so a route for one method rejects
/// requests of every other method (e.g. a PATCH route never answers PUT).
pub proof fn law_method_names_distinct(a: HttpMethod, b: HttpMethod)
    requires
        a != b,
    ensures
        method_name(a) != method_name(b),
{
    reveal_strlit("GET");
    reveal_strlit("POST");
    reveal_strlit("PUT");
    reveal_strlit("DELETE");
    reveal_strlit("PATCH");
    reveal_strlit("HEAD");
    reveal_strlit("OPTIONS");
    if method_name(a) == method_name(b) {
        assert(method_name(a).len() == method_name(b).len());
        assert(method_name(a)[0] == method_name(b)[0]);
        assert(method_name(a)[1] == method_name(b)[1]);
    }
}

/// A route accepts a request only when the request's unconsumed path
/// segments are exactly the segments of the route's path, and then consumes
/// them all; a request of the route's method on any other path is rejected
/// as not found.  So a route whose path has no segments (`""`, `"/"`)
/// accepts only a request with no path left, and never shadows other paths.
pub proof fn law_route_accepts_only_its_path(
    method: HttpMethod,
    path: Seq<char>,
    m: Seq<char>,
    p: Seq<Seq<char>>,
)
    ensures
        route_step(method, path, m, p) is Ok ==> p == segments(path) && route_step(
            method,
            path,
            m,
            p,
        ) == Ok::<Seq<Seq<char>>, RejectionKind>(Seq::<Seq<char>>::empty()),
        m == method_name(method) && p != segments(path) ==> route_step(method, path, m, p)
            == Err::<Seq<Seq<char>>, RejectionKind>(RejectionKind::NotFound),
        segments(path).len() == 0 && p.len() > 0 ==> route_step(method, path, m, p) is Err,
{
}

/// A [`RouteBuilder`] configured to deserialise a JSON body into `T`.
pub struct JsonRouteBuilder<T> {
    base: RouteBuilder,
    _phantom: std::marker::PhantomData<T>,
}

impl<T> View for JsonRouteBuilder<T> {
    type V = (HttpMethod, Seq<char>);

    /// The method and path of the underlying route.
    closed spec fn view(&self) -> (HttpMethod, Seq<char>) {
        self.base@
    }
}

impl<T> JsonRouteBuilder<T> {
    /// The underlying method-and-path route.
    pub fn base(&self) -> (b: &RouteBuilder)
        ensures
            b@ == self@,
    {
        &self.base
    }
}

/// A [`RouteBuilder`] configured to deserialise URL query parameters into `T`.
pub struct QueryRouteBuilder<T> {
    base: RouteBuilder,
    _phantom: std::marker::PhantomData<T>,
}

impl<T> View for QueryRouteBuilder<T> {
    type V = (HttpMethod, Seq<char>);

    /// The method and path of the underlying route.
    closed spec fn view(&self) -> (HttpMethod, Seq<char>) {
        self.base@
    }
}

impl<T> QueryRouteBuilder<T> {
    /// The underlying method-and-path route.
    pub fn base(&self) -> (b: &RouteBuilder)
        ensures
            b@ == self@,
    {
        &self.base
    }
}

} // verus!
