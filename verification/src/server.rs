use vstd::prelude::*;

use crate::filters::{or_routes, warp_or, RouteFilter};

verus! {

/// A fully type-erased route whose output is a `warp::reply::Response`,
/// as produced by the route builders' `handle`.
pub type _Filter = RouteFilter;

/// The routes `s` combined in order: the first route or-ed with the second,
/// that or-ed with the third, and so on, so that an earlier route is tried
/// before a later one.
pub open spec fn fold_routes(s: Seq<_Filter>) -> _Filter
    decreases s.len(),
{
    if s.len() <= 1 {
        s[0]
    } else {
        or_routes(fold_routes(s.drop_last()), s.last())
    }
}

/// A single route combined is that route itself.
pub proof fn law_fold_routes_single(x: _Filter)
    ensures
        fold_routes(seq![x]) == x,
{
}

/// Registering one more route extends the combined route by exactly that
/// route, tried after all the earlier ones: every registered route takes
/// part, and an earlier route is always tried first.
pub proof fn law_fold_routes_push(s: Seq<_Filter>, x: _Filter)
    requires
        s.len() >= 1,
    ensures
        fold_routes(s.push(x)) == or_routes(fold_routes(s), x),
{
    assert(s.push(x).drop_last() =~= s);
}

/// A collection of routes, served together.
pub struct Unwarp {
    routes: Vec<_Filter>,
}

impl View for Unwarp {
    type V = Seq<_Filter>;

    /// The registered routes, in registration order.
    closed spec fn view(&self) -> Seq<_Filter> {
        self.routes@
    }
}

impl Default for Unwarp {
    fn default() -> (u: Self)
        ensures
            u@ == Seq::<_Filter>::empty(),
    {
        Self::new()
    }
}

impl Unwarp {
    /// A new instance with no routes.
    pub fn new() -> (u: Self)
        ensures
            u@ == Seq::<_Filter>::empty(),
    {
        Unwarp { routes: Vec::new() }
    }

    /// Registers `route` after every route registered so far.  Returns
    /// `self`, so calls can be chained.
    pub fn route(&mut self, route: _Filter) -> (r: &mut Self)
        ensures
            r@ == old(self)@.push(route),
            final(self)@ == final(r)@,
    {
        self.routes.push(route);
        self
    }

    /// All registered routes combined into one, tried in registration order
    /// (the first route, or-ed with the second, then the third, ...: see
    /// [`fold_routes`]).
    /// `None` when no route has been registered: there is nothing to serve.
    pub fn combined(self) -> (r: Option<_Filter>)
        ensures
            r is None <==> self@.len() == 0,
            self@.len() == 1 ==> r == Some(self@[0]),
            self@.len() > 0 ==> r == Some(fold_routes(self@)),
    {
        let ghost all = self@;
        let mut acc: Option<_Filter> = None;
        for route in it: self.routes.into_iter()
            invariant
                it.seq() == all,
                acc is None <==> it.index() == 0,
                it.index() == 1 ==> acc == Some(all[0]),
                it.index() > 0 ==> acc == Some(fold_routes(all.take(it.index()))),
        {
            let ghost before = it.index();
            acc = match acc {
                None => Some(route),
                Some(earlier) => Some(warp_or(earlier, route)),
            };
            proof {
                assert(all.take(before + 1).drop_last() =~= all.take(before));
                if before == 0 {
                    assert(all.take(1)[0] == all[0]);
                }
            }
        }
        proof {
            assert(all.take(all.len() as int) =~= all);
        }
        acc
    }
}

} // verus!
