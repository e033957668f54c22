use vstd::prelude::*;

verus! {

/// Accepts readings streamed over WebSocket connections.
#[derive(Clone, Debug)]
pub struct WebSocketIngestionHandler {
    pub port: u16,
}

impl WebSocketIngestionHandler {
    pub fn new(port: u16) -> (h: Self)
        ensures
            h.port == port,
    {
        WebSocketIngestionHandler { port }
    }

    /// Port the handler listens on.
    pub fn port(&self) -> (p: u16)
        ensures
            p == self.port,
    {
        self.port
    }

    /// Greeting sent to each new connection.
    pub fn welcome_message() -> (m: &'static str)
        ensures
            m@ == "Connected to Truck Central Server"@,
    {
        "Connected to Truck Central Server"
    }
}

} // verus!
