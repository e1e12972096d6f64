//! The listener's configuration and the reply that it sends.

use crate::error::ParseError;
use crate::request::Request;
use vstd::prelude::*;

verus! {

/// How many bytes of a request are read from a connection.
pub const BUFFER_SIZE: usize = 1024;

/// The reply that every connection gets: a status line, an empty header
/// block, and a body.
pub const RESPONSE: &'static str =
    "HTTP/1.1 200 OK\r\n\r\nHello from \n                                                                        Rust!";

/// A server and the address that it listens on.
#[derive(Debug)]
pub struct Server {
    /// The address to bind, as host and port.
    pub addr: String,
}

impl Server {
    /// A server that will listen on `addr`.
    pub fn new(addr: String) -> (server: Server)
        ensures
            server.addr == addr,
    {
        Server { addr }
    }

    /// The reply to a connection whose request parsed to `outcome`. It does
    /// not depend on the outcome: a request that could not be parsed is
    /// answered like one that could.
    pub fn response(outcome: &Result<Request, ParseError>) -> (reply: &'static str)
        ensures
            reply@ == RESPONSE@,
    {
        RESPONSE
    }
}

} // verus!
