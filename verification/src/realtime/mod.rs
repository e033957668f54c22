use vstd::prelude::*;
use crate::config::ServerConfig;
use crate::realtime::websocket::WebSocketServer;

pub mod websocket;

verus! {

/// Pushes readings and alerts to dashboard clients.
pub struct RealtimeManager {
    pub config: ServerConfig,
    pub websocket_server: WebSocketServer,
}

impl RealtimeManager {
    pub fn new(config: ServerConfig) -> (m: Self)
        ensures
            m.config == config,
            m.websocket_server.port == config.server.websocket_port,
    {
        let port = config.server.websocket_port;
        RealtimeManager { config, websocket_server: WebSocketServer::new(port) }
    }
}

} // verus!
