//! A small HTTP request router: classifies a request path against three
//! mount points (a static-asset directory, an API namespace, and a
//! catch-all page) and builds the response for each outcome.

mod route;
mod response;

pub use route::Decision;
pub use route::RouteClass;
pub use route::route;

pub use response::ContentType;
pub use response::ReadOutcome;
pub use response::Response;
pub use response::Router;
pub use response::not_found_response;
pub use response::static_response;
