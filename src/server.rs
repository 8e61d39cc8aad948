//! The server handle and the errors of the server's lifecycle.

use vstd::prelude::*;
use vstd::string::*;
use crate::address::{decimal, host_text, host_text_ends_with_port, push_decimal};
use hyper::Error as HttpError;

verus! {

#[verifier::external_type_specification]
#[verifier::external_body]
pub struct ExHyperError(HttpError);

#[verifier::external_type_specification]
#[verifier::external_body]
pub struct ExListening(hyper::server::Listening);

/// Relies on hyper's `Listening::close`, which drops the accept thread's
/// handle and returns `Ok(())` on every call.
pub assume_specification[ hyper::server::Listening::close ](
    l: &mut hyper::server::Listening,
) -> (r: Result<(), HttpError>)
    ensures
        r is Ok,
;

/// Errors of the server's lifecycle.
#[derive(Debug)]
pub enum Error {
    /// The underlying HTTP server failed, for instance when binding.
    HttpServer(HttpError),
}

impl From<HttpError> for Error {
    fn from(err: HttpError) -> (r: Error) {
        Error::HttpServer(err)
    }
}

impl vstd::std_specs::convert::FromSpecImpl<HttpError> for Error {
    open spec fn obeys_from_spec() -> bool {
        true
    }

    open spec fn from_spec(err: HttpError) -> Error {
        Error::HttpServer(err)
    }
}

/// A running server: reports its bound address on `addr`, and is marked
/// closed by `close`.
#[derive(Debug)]
pub struct Server {
    inner: hyper::server::Listening,
    addr: String,
    port: u16,
    closed: bool,
}

impl Server {
    /// The port the server is bound to.
    pub closed spec fn spec_port(&self) -> u16 {
        self.port
    }

    /// The text form of the bound socket address.
    pub closed spec fn spec_addr(&self) -> Seq<char> {
        self.addr@
    }

    /// Whether `close` has been called.
    pub closed spec fn spec_closed(&self) -> bool {
        self.closed
    }

    /// Takes charge of an IPv4 listener that has just started, given the text
    /// form of its IP address and its port.
    pub fn from_listening(inner: hyper::server::Listening, ip: &str, port: u16) -> (r: Server)
        ensures
            r.spec_addr() == host_text(ip@, port),
            r.spec_port() == port,
            !r.spec_closed(),
    {
        proof {
            reveal_strlit(":");
        }
        let mut addr = String::from_str(ip);
        addr.append(":");
        push_decimal(&mut addr, port);
        proof {
            assert(addr@ =~= host_text(ip@, port));
        }
        Server { inner, addr, port, closed: false }
    }

    /// The port the server is bound to.
    pub fn port(&self) -> (r: u16)
        ensures
            r == self.spec_port(),
    {
        self.port
    }

    /// Marks the server closed and releases hyper's handle on its accept
    /// thread. hyper 0.10's listener keeps accepting connections after this
    /// call: it does not stop the server. Closing again also succeeds.
    pub fn close(&mut self) -> (r: Result<(), Error>)
        ensures
            r is Ok,
            final(self).spec_closed(),
            final(self).spec_addr() == old(self).spec_addr(),
            final(self).spec_port() == old(self).spec_port(),
    {
        let r = self.inner.close();
        self.closed = true;
        match r {
            Ok(()) => Ok(()),
            Err(e) => Err(Error::from(e)),
        }
    }

    /// Whether `close` has been called.
    pub fn is_closed(&self) -> (r: bool)
        ensures
            r == self.spec_closed(),
    {
        self.closed
    }

    /// The listening address, such as `0.0.0.0:3000`.
    pub fn addr(&self) -> (r: String)
        ensures
            r@ == self.spec_addr(),
    {
        self.addr.clone()
    }

    /// The reported address ends in `:` and the bound port's digits.
    pub proof fn addr_ends_with_port(&self, ip: Seq<char>)
        requires
            self.spec_addr() == host_text(ip, self.spec_port()),
        ensures
            ({
                let t = self.spec_addr();
                let tail = seq![':'] + decimal(self.spec_port() as nat);
                t.len() >= tail.len() && t.subrange(t.len() - tail.len(), t.len() as int) == tail
            }),
    {
        host_text_ends_with_port(ip, self.spec_port());
    }
}

} // verus!
