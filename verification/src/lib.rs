//! A verified parser for the request line of an HTTP-like request.
//!
//! [`Request::from`] reads the first line of a request, takes its first
//! token for the method and its second for the target, and splits the
//! target into a path and a query string. [`request::parse_request`] says
//! what it returns for every input, over the grammar of [`grammar`];
//! [`round_trip`] proves that a request line written for a path and a query
//! string reads back as the same two.

pub mod error;
pub mod grammar;
pub mod method;
pub mod request;
pub mod round_trip;
pub mod server;
pub mod text;

pub use error::ParseError;
pub use method::Method;
pub use request::Request;
pub use server::Server;
