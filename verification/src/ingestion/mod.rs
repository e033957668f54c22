use vstd::prelude::*;
use crate::config::ServerConfig;
use crate::models::alert::Alert;
use crate::models::health::HealthStatus;
use crate::models::ml::MlEvent;
use crate::models::telemetry::TelemetryData;
use crate::ingestion::http::HttpIngestionHandler;
use crate::ingestion::kafka::{texts, KafkaIngestionHandler};
use crate::ingestion::mqtt::MqttIngestionHandler;
use crate::ingestion::websocket::WebSocketIngestionHandler;
use crate::util::text::{ends_with, has_suffix, same_text, split_on, split_text};

pub mod http;
pub mod kafka;
pub mod mqtt;
pub mod websocket;

verus! {

/// The four kinds of message the server ingests.
#[derive(Clone, Copy, Debug, PartialEq, Eq, Structural)]
pub enum EventKind {
    Telemetry,
    Alert,
    MlEvent,
    HealthStatus,
}

/// A decoded message, ready for processing.
#[derive(Debug)]
pub enum IngestionEvent {
    Telemetry(TelemetryData),
    Alert(Alert),
    MlEvent(MlEvent),
    HealthStatus(HealthStatus),
}

/// What to do with an incoming message, decided from its topic or type tag.
#[derive(Clone, Copy, Debug, PartialEq, Eq, Structural)]
pub enum Routing {
    /// The message is not addressed in a form the server reads; drop it.
    Ignored,
    /// The message names a kind the server does not know; report and drop it.
    UnknownType,
    /// Decode the payload as this kind and pass it on.
    Dispatch(EventKind),
}

/// Event kind named by the last segment of an MQTT topic.
pub open spec fn mqtt_kind(word: Seq<char>) -> Routing {
    if word == "telemetry"@ {
        Routing::Dispatch(EventKind::Telemetry)
    } else if word == "alert"@ {
        Routing::Dispatch(EventKind::Alert)
    } else if word == "ml"@ {
        Routing::Dispatch(EventKind::MlEvent)
    } else if word == "health"@ {
        Routing::Dispatch(EventKind::HealthStatus)
    } else {
        Routing::UnknownType
    }
}

/// MQTT topics have the form `truck/<truck>/<kind>`: a topic of fewer than
/// three `/`-separated segments is ignored, otherwise the third segment
/// names the kind.
pub open spec fn mqtt_routing(topic: Seq<char>) -> Routing {
    let parts = split_on(topic, '/');
    if parts.len() < 3 {
        Routing::Ignored
    } else {
        mqtt_kind(parts[2])
    }
}

/// Kafka topics are routed by their ending.
pub open spec fn kafka_routing(topic: Seq<char>) -> Routing {
    if has_suffix(topic, "telemetry"@) {
        Routing::Dispatch(EventKind::Telemetry)
    } else if has_suffix(topic, "alert"@) {
        Routing::Dispatch(EventKind::Alert)
    } else if has_suffix(topic, "ml"@) {
        Routing::Dispatch(EventKind::MlEvent)
    } else if has_suffix(topic, "health"@) {
        Routing::Dispatch(EventKind::HealthStatus)
    } else {
        Routing::UnknownType
    }
}

/// Any Kafka topic ending in `telemetry` carries telemetry, whatever comes
/// before the ending: `telemetry`, `truck-telemetry`, `fleet.telemetry`.
pub proof fn lemma_telemetry_topics_route_to_telemetry(prefix: Seq<char>)
    ensures
        kafka_routing(prefix + "telemetry"@) == Routing::Dispatch(EventKind::Telemetry),
{
    reveal_strlit("telemetry");
    let t = prefix + "telemetry"@;
    assert(t.subrange(t.len() - "telemetry"@.len(), t.len() as int) =~= "telemetry"@);
}

/// Kafka topics ending in `alert`, `ml` or `health` carry alerts, ML events
/// and health reports, whatever comes before the ending.
pub proof fn lemma_other_topics_route_by_ending(prefix: Seq<char>)
    ensures
        kafka_routing(prefix + "alert"@) == Routing::Dispatch(EventKind::Alert),
        kafka_routing(prefix + "ml"@) == Routing::Dispatch(EventKind::MlEvent),
        kafka_routing(prefix + "health"@) == Routing::Dispatch(EventKind::HealthStatus),
{
    reveal_strlit("telemetry");
    reveal_strlit("alert");
    reveal_strlit("ml");
    reveal_strlit("health");
    let a = prefix + "alert"@;
    assert(a.subrange(a.len() - 5, a.len() as int) =~= "alert"@);
    if has_suffix(a, "telemetry"@) {
        assert(a[a.len() - 1] == "telemetry"@[8]);
    }
    let m = prefix + "ml"@;
    assert(m.subrange(m.len() - 2, m.len() as int) =~= "ml"@);
    if has_suffix(m, "telemetry"@) {
        assert(m[m.len() - 1] == "telemetry"@[8]);
    }
    if has_suffix(m, "alert"@) {
        assert(m[m.len() - 1] == "alert"@[4]);
    }
    let h = prefix + "health"@;
    assert(h.subrange(h.len() - 6, h.len() as int) =~= "health"@);
    if has_suffix(h, "telemetry"@) {
        assert(h[h.len() - 1] == "telemetry"@[8]);
    }
    if has_suffix(h, "alert"@) {
        assert(h[h.len() - 1] == "alert"@[4]);
    }
    if has_suffix(h, "ml"@) {
        assert(h[h.len() - 1] == "ml"@[1]);
    }
}

/// WebSocket messages carry their kind in a `type` field.
pub open spec fn websocket_routing(type_tag: Seq<char>) -> Routing {
    if type_tag == "telemetry"@ {
        Routing::Dispatch(EventKind::Telemetry)
    } else if type_tag == "alert"@ {
        Routing::Dispatch(EventKind::Alert)
    } else if type_tag == "ml_event"@ {
        Routing::Dispatch(EventKind::MlEvent)
    } else if type_tag == "health_status"@ {
        Routing::Dispatch(EventKind::HealthStatus)
    } else {
        Routing::UnknownType
    }
}

fn route_mqtt_kind(word: &str) -> (r: Routing)
    ensures
        r == mqtt_kind(word@),
{
    if same_text(word, "telemetry") {
        Routing::Dispatch(EventKind::Telemetry)
    } else if same_text(word, "alert") {
        Routing::Dispatch(EventKind::Alert)
    } else if same_text(word, "ml") {
        Routing::Dispatch(EventKind::MlEvent)
    } else if same_text(word, "health") {
        Routing::Dispatch(EventKind::HealthStatus)
    } else {
        Routing::UnknownType
    }
}

/// Routing of an MQTT message by its topic.
pub fn route_mqtt_topic(topic: &str) -> (r: Routing)
    ensures
        r == mqtt_routing(topic@),
{
    let parts = split_text(topic, '/');
    if parts.len() < 3 {
        Routing::Ignored
    } else {
        assert(parts@[2]@ == split_on(topic@, '/')[2]);
        route_mqtt_kind(parts[2].as_str())
    }
}

/// Routing of a Kafka message by its topic.
pub fn route_kafka_topic(topic: &str) -> (r: Routing)
    ensures
        r == kafka_routing(topic@),
{
    if ends_with(topic, "telemetry") {
        Routing::Dispatch(EventKind::Telemetry)
    } else if ends_with(topic, "alert") {
        Routing::Dispatch(EventKind::Alert)
    } else if ends_with(topic, "ml") {
        Routing::Dispatch(EventKind::MlEvent)
    } else if ends_with(topic, "health") {
        Routing::Dispatch(EventKind::HealthStatus)
    } else {
        Routing::UnknownType
    }
}

/// Routing of a WebSocket message by its `type` field.
pub fn route_websocket_type(type_tag: &str) -> (r: Routing)
    ensures
        r == websocket_routing(type_tag@),
{
    if same_text(type_tag, "telemetry") {
        Routing::Dispatch(EventKind::Telemetry)
    } else if same_text(type_tag, "alert") {
        Routing::Dispatch(EventKind::Alert)
    } else if same_text(type_tag, "ml_event") {
        Routing::Dispatch(EventKind::MlEvent)
    } else if same_text(type_tag, "health_status") {
        Routing::Dispatch(EventKind::HealthStatus)
    } else {
        Routing::UnknownType
    }
}

/// The listeners the server runs: MQTT when a broker is configured, Kafka
/// when brokers are listed, HTTP and WebSocket always.
pub struct IngestionPlan {
    pub mqtt: Option<MqttIngestionHandler>,
    pub kafka: Option<KafkaIngestionHandler>,
    pub http: HttpIngestionHandler,
    pub websocket: WebSocketIngestionHandler,
}

/// Decides which ingestion channels run for a configuration.
pub struct IngestionManager {
    pub config: ServerConfig,
}

impl IngestionManager {
    pub fn new(config: ServerConfig) -> (m: Self)
        ensures
            m.config == config,
    {
        IngestionManager { config }
    }

    /// The listeners this configuration asks for.
    pub fn plan(&self) -> (p: IngestionPlan)
        ensures
            match p.mqtt {
                Some(h) => self.config.message_queue.mqtt_broker@.len() > 0
                    && h.broker@ == self.config.message_queue.mqtt_broker@
                    && h.username == self.config.message_queue.mqtt_username
                    && h.password == self.config.message_queue.mqtt_password,
                None => self.config.message_queue.mqtt_broker@.len() == 0,
            },
            match p.kafka {
                Some(h) => self.config.message_queue.kafka_brokers@.len() > 0
                    && texts(h.brokers@) == texts(self.config.message_queue.kafka_brokers@)
                    && h.topic@ == self.config.message_queue.kafka_topic@,
                None => self.config.message_queue.kafka_brokers@.len() == 0,
            },
            p.http.port == self.config.server.http_port,
            p.websocket.port == self.config.server.websocket_port,
    {
        let mq = &self.config.message_queue;
        let mqtt = if !mq.mqtt_broker.as_str().is_empty() {
            Some(
                MqttIngestionHandler::new(
                    mq.mqtt_broker.as_str(),
                    mq.mqtt_username.clone(),
                    mq.mqtt_password.clone(),
                ),
            )
        } else {
            None
        };
        let kafka = if mq.kafka_brokers.len() > 0 {
            Some(KafkaIngestionHandler::new(mq.kafka_brokers.as_slice(), mq.kafka_topic.as_str()))
        } else {
            None
        };
        IngestionPlan {
            mqtt,
            kafka,
            http: HttpIngestionHandler::new(self.config.server.http_port),
            websocket: WebSocketIngestionHandler::new(self.config.server.websocket_port),
        }
    }
}

} // verus!
