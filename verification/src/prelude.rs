pub use crate::method::HttpMethod;
pub use crate::route::{JsonRouteBuilder, QueryRouteBuilder, RouteBuilder};
pub use crate::server::{Unwarp, _Filter};
pub use crate::status::Status;
pub use warp;
