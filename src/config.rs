//! Settings that the embedding program supplies when starting a server.

use vstd::prelude::*;

verus! {

/// Server settings; read-only once handed to the server.
#[derive(Clone, Copy, Debug, PartialEq, Eq, Structural)]
pub struct Config {
    /// TCP port to bind on every IPv4 interface; 0 lets the system choose.
    pub port: u16,
    /// Whether each request is logged on arrival and on completion.
    pub print_http_logs: bool,
}

impl Config {
    /// Settings with a system-chosen port and logging off.
    pub fn new() -> (r: Config)
        ensures
            r.port == 0,
            !r.print_http_logs,
    {
        Config { port: 0, print_http_logs: false }
    }
}

} // verus!
