use vstd::prelude::*;
use crate::config::ServerConfig;
use crate::ingestion::IngestionEvent;
use crate::processing::aggregation::AggregationProcessor;
use crate::models::alert::{Alert, AlertStatus};
use crate::processing::alerts::{
    health_rules, issued_alerts, ml_rules, rules_drafts, telemetry_rules, AlertProcessor, AlertRule,
};
use crate::processing::enrichment::EnrichmentProcessor;
use crate::processing::ml::MlProcessor;

pub mod aggregation;
pub mod alerts;
pub mod enrichment;
pub mod ml;

verus! {

/// Runs every ingested message through enrichment and the alert rules.
pub struct ProcessingManager {
    pub config: ServerConfig,
    pub alert_processor: AlertProcessor,
    pub ml_processor: MlProcessor,
    pub aggregation_processor: AggregationProcessor,
    pub enrichment_processor: EnrichmentProcessor,
}

/// Alerts an ingested message raises: those of its readings' rules; an
/// alert that arrives already formed raises no further alert.
pub open spec fn event_alerts(event: IngestionEvent) -> Seq<crate::processing::alerts::AlertDraftView> {
    match event {
        IngestionEvent::Telemetry(t) => rules_drafts(telemetry_rules(t)),
        IngestionEvent::Alert(_) => seq![],
        IngestionEvent::MlEvent(e) => rules_drafts(ml_rules(e)),
        IngestionEvent::HealthStatus(h) => rules_drafts(health_rules(h)),
    }
}

/// The truck a message concerns.
pub open spec fn event_truck(event: IngestionEvent) -> u128 {
    match event {
        IngestionEvent::Telemetry(t) => t.truck_id,
        IngestionEvent::Alert(a) => a.truck_id,
        IngestionEvent::MlEvent(e) => e.truck_id,
        IngestionEvent::HealthStatus(h) => h.truck_id,
    }
}

/// The truck a message concerns.
pub fn event_truck_id(event: &IngestionEvent) -> (id: u128)
    ensures
        id == event_truck(*event),
{
    match event {
        IngestionEvent::Telemetry(t) => t.truck_id,
        IngestionEvent::Alert(a) => a.truck_id,
        IngestionEvent::MlEvent(e) => e.truck_id,
        IngestionEvent::HealthStatus(h) => h.truck_id,
    }
}

impl ProcessingManager {
    pub fn new(config: ServerConfig) -> (m: Self)
        ensures
            m.config == config,
    {
        ProcessingManager {
            config,
            alert_processor: AlertProcessor::new(),
            ml_processor: MlProcessor::new(),
            aggregation_processor: AggregationProcessor::new(),
            enrichment_processor: EnrichmentProcessor::new(),
        }
    }

    /// Handles one message at `now`: telemetry and health reports are
    /// enriched, ML events post-processed, and the alert rules of the kind
    /// applied; the alerts are issued for the truck the message concerns,
    /// `context` writing each one's context. An alert that arrives already
    /// formed raises no further alert.
    pub fn process_event<F: Fn(AlertRule) -> String>(
        &self,
        event: IngestionEvent,
        now: i64,
        context: F,
    ) -> (alerts: Vec<Alert>)
        requires
            forall|r: AlertRule| context.requires((r,)),
        ensures
            issued_alerts(alerts@, event_alerts(event), event_truck(event), now, context),
            forall|i: int|
                #![trigger alerts@[i]]
                0 <= i < alerts@.len() ==> alerts@[i].truck_id == event_truck(event) && alerts@[i].status
                    == AlertStatus::Triggered,
    {
        match event {
            IngestionEvent::Telemetry(telemetry) => {
                let enriched = self.enrichment_processor.enrich_telemetry(telemetry);
                self.alert_processor.process_telemetry(&enriched, now, context)
            },
            IngestionEvent::Alert(alert) => {
                let _processed = self.alert_processor.process_alert(alert);
                let none: Vec<Alert> = Vec::new();
                none
            },
            IngestionEvent::MlEvent(ml_event) => {
                let processed = self.ml_processor.process_ml_event(ml_event);
                self.alert_processor.process_ml_event(&processed, now, context)
            },
            IngestionEvent::HealthStatus(health_status) => {
                let enriched = self.enrichment_processor.enrich_health_status(health_status);
                self.alert_processor.process_health_status(&enriched, now, context)
            },
        }
    }
}

} // verus!
