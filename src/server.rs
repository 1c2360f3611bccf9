//! The server's listening endpoint.
use vstd::prelude::*;

verus! {

/// An RPC server over TCP: all programs share its one listening address.
pub struct RpcServer {
    addr: String,
}

impl RpcServer {
    /// The `host:port` address the server listens on.
    pub closed spec fn address(&self) -> Seq<char> {
        self.addr@
    }

    pub fn new(addr: String) -> (r: RpcServer)
        ensures
            r.address() == addr@,
    {
        RpcServer { addr }
    }

    pub fn addr(&self) -> (r: &str)
        ensures
            r@ == self.address(),
    {
        self.addr.as_str()
    }
}

} // verus!
