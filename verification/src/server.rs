//! The server configuration. The accept loop, socket reads and writes are
//! transport plumbing and belong to the host application; the core only
//! carries the address the host should listen on.

use vstd::prelude::*;

verus! {

/// A server bound to one socket address.
pub struct Server<'a> {
    pub socket_addr: &'a str,
}

impl<'a> Server<'a> {
    /// A server configured with the given socket address.
    pub fn new(socket_addr: &'a str) -> (r: Server<'a>)
        ensures
            r.socket_addr@ == socket_addr@,
    {
        Server { socket_addr }
    }
}

} // verus!

