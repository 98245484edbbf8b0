//! A small HTTP request router and responder: route tables, request parsing,
//! static-file resolution and response serialisation, with their contracts.
use vstd::prelude::*;

pub mod app;
pub mod header;
pub mod http_method;
pub mod mime;
pub mod request;
pub mod response;
pub mod response_code;
pub mod static_files;
pub mod str_map;
pub mod template;
pub mod text;
pub mod utils;

pub use app::App;
pub use http_method::HTTPMethod;
pub use request::Request;
pub use response::Response;
pub use response_code::ResponseCode;

verus! {

} // verus!
