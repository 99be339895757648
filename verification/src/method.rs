use vstd::prelude::*;

use crate::filters::{
    filter_step, warp_delete, warp_get, warp_head, warp_options, warp_patch, warp_post, warp_put,
    RejectionKind, UnitFilter,
};

verus! {

/// The HTTP methods a route can be built for.
#[derive(Clone, Copy, Debug, PartialEq, Eq, Structural)]
pub enum HttpMethod {
    Get,
    Post,
    Put,
    Delete,
    Patch,
    Head,
    Options,
}

/// The name of a method as it stands in a request, e.g. `"GET"`.
pub open spec fn method_name(method: HttpMethod) -> Seq<char> {
    match method {
        HttpMethod::Get => "GET"@,
        HttpMethod::Post => "POST"@,
        HttpMethod::Put => "PUT"@,
        HttpMethod::Delete => "DELETE"@,
        HttpMethod::Patch => "PATCH"@,
        HttpMethod::Head => "HEAD"@,
        HttpMethod::Options => "OPTIONS"@,
    }
}

/// The filter that accepts requests of method `method` only, whatever their
/// path, and consumes no path segment; it rejects every other request as
/// method-not-allowed.
pub fn method_filter(method: HttpMethod) -> (r: UnitFilter)
    ensures
        forall|m: Seq<char>, p: Seq<Seq<char>>| #[trigger]
            filter_step(r, m, p) == (if m == method_name(method) {
                Ok(p)
            } else {
                Err(RejectionKind::MethodNotAllowed)
            }),
{
    match method {
        HttpMethod::Get => warp_get(),
        HttpMethod::Post => warp_post(),
        HttpMethod::Put => warp_put(),
        HttpMethod::Delete => warp_delete(),
        HttpMethod::Patch => warp_patch(),
        HttpMethod::Head => warp_head(),
        HttpMethod::Options => warp_options(),
    }
}

} // verus!
