use vstd::prelude::*;
use crate::ingestion::{websocket_routing, EventKind, Routing};

verus! {

/// Serves dashboard clients over WebSocket.
#[derive(Clone, Debug)]
pub struct WebSocketServer {
    pub port: u16,
}

/// The `type` tag a pushed message of each kind carries.
pub open spec fn kind_tag(kind: EventKind) -> Seq<char> {
    match kind {
        EventKind::Telemetry => "telemetry"@,
        EventKind::Alert => "alert"@,
        EventKind::MlEvent => "ml_event"@,
        EventKind::HealthStatus => "health_status"@,
    }
}

/// A pushed message: `{"type":"<tag>","data":<payload>}`.
pub open spec fn frame_of(kind: EventKind, payload: Seq<char>) -> Seq<char> {
    "{\"type\":\""@ + kind_tag(kind) + "\",\"data\":"@ + payload + "}"@
}

fn kind_tag_text(kind: EventKind) -> (t: &'static str)
    ensures
        t@ == kind_tag(kind),
{
    match kind {
        EventKind::Telemetry => "telemetry",
        EventKind::Alert => "alert",
        EventKind::MlEvent => "ml_event",
        EventKind::HealthStatus => "health_status",
    }
}

impl WebSocketServer {
    pub fn new(port: u16) -> (s: Self)
        ensures
            s.port == port,
    {
        WebSocketServer { port }
    }

    /// Wraps the JSON text of a record into the message pushed to clients.
    pub fn frame(kind: EventKind, payload: &str) -> (m: String)
        ensures
            m@ == frame_of(kind, payload@),
    {
        let mut m = String::from_str("{\"type\":\"");
        m.append(kind_tag_text(kind));
        m.append("\",\"data\":");
        m.append(payload);
        m.append("}");
        m
    }
}

/// A kind's tag, read back by the ingestion side, routes to that kind.
pub proof fn lemma_tag_routes_back(kind: EventKind)
    ensures
        websocket_routing(kind_tag(kind)) == Routing::Dispatch(kind),
{
    reveal_strlit("telemetry");
    reveal_strlit("alert");
    reveal_strlit("ml_event");
    reveal_strlit("health_status");
    match kind {
        EventKind::Telemetry => {},
        EventKind::Alert => {
            assert("alert"@.len() != "telemetry"@.len());
        },
        EventKind::MlEvent => {
            assert("ml_event"@.len() != "telemetry"@.len());
            assert("ml_event"@.len() != "alert"@.len());
        },
        EventKind::HealthStatus => {
            assert("health_status"@.len() != "telemetry"@.len());
            assert("health_status"@.len() != "alert"@.len());
            assert("health_status"@.len() != "ml_event"@.len());
        },
    }
}

} // verus!
