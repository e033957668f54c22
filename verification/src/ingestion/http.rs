use vstd::prelude::*;

verus! {

/// Accepts readings posted over HTTP.
#[derive(Clone, Debug)]
pub struct HttpIngestionHandler {
    pub port: u16,
}

impl HttpIngestionHandler {
    pub fn new(port: u16) -> (h: Self)
        ensures
            h.port == port,
    {
        HttpIngestionHandler { port }
    }

    /// Port the handler listens on.
    pub fn port(&self) -> (p: u16)
        ensures
            p == self.port,
    {
        self.port
    }
}

} // verus!
