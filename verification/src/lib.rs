//! Route building on top of `warp`: pick an HTTP method and a path, register
//! routes on an [`Unwarp`], and serve them.  The HTTP work is `warp`'s; this
//! crate holds the route model (methods, path segments, status codes, the
//! route registry) and its proofs.

pub use warp;

pub mod filters;
pub mod method;
pub mod path;
pub mod prelude;
pub mod route;
pub mod server;
pub mod status;

pub use filters::{RouteFilter, UnitFilter};
pub use method::HttpMethod;
pub use route::{JsonRouteBuilder, QueryRouteBuilder, RouteBuilder};
pub use server::{Unwarp, _Filter};
pub use status::Status;
