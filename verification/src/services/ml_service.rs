use vstd::prelude::*;
use crate::models::ml::{MlEvent, MlResult};
use crate::processing::alerts::ml_rules;

verus! {

/// Whether an inference counts as an alert event on dashboards: a positive
/// drowsiness or cargo result above 0.8 confidence, or a positive lane
/// result above 0.7.
pub open spec fn alert_event(e: MlEvent) -> bool {
    match e.result {
        MlResult::Drowsiness { is_drowsy, .. } => is_drowsy && e.confidence > 800,
        MlResult::LaneDeparture { is_departing, .. } => is_departing && e.confidence > 700,
        MlResult::CargoTamper { is_tampered, .. } => is_tampered && e.confidence > 800,
        _ => false,
    }
}

pub fn is_alert_event(ml_event: &MlEvent) -> (r: bool)
    ensures
        r == alert_event(*ml_event),
{
    match &ml_event.result {
        MlResult::Drowsiness { is_drowsy, .. } => *is_drowsy && ml_event.confidence > 800,
        MlResult::LaneDeparture { is_departing, .. } => *is_departing && ml_event.confidence > 700,
        MlResult::CargoTamper { is_tampered, .. } => *is_tampered && ml_event.confidence > 800,
        _ => false,
    }
}

/// Every inference that raises an alert counts as an alert event on the
/// dashboards.
pub proof fn lemma_alerting_inference_is_alert_event(e: MlEvent)
    requires
        ml_rules(e).len() > 0,
    ensures
        alert_event(e),
{
}

} // verus!
