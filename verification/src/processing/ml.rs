use vstd::prelude::*;
use crate::models::ml::{MlEvent, MlResult, SensorContext};
use crate::util::text::same_text;
use crate::processing::alerts::ml_rules;

verus! {

/// Quotient rounded toward zero, as integer division in Rust rounds.
pub open spec fn div_toward_zero(a: int, b: int) -> int {
    if a >= 0 {
        a / b
    } else {
        -((-a) / b)
    }
}

/// Confidence after calibration: 90% of the raw confidence when the device
/// ran hotter than 75 °C, the raw confidence otherwise.
pub open spec fn calibrated(confidence: i64, temperature_c: i64) -> int {
    if temperature_c > 75_000 {
        div_toward_zero(confidence as int * 9, 10)
    } else {
        confidence as int
    }
}

/// Result after fusing with the vehicle context: a drowsiness result turns
/// positive at night with an eye closure ratio above 0.3, or below 30 km/h
/// with a ratio above 0.4; a lane result turns positive above 80 km/h with
/// a deviation of more than 30 pixels. Positive results stay positive.
pub open spec fn fused(r: MlResult, ctx: SensorContext) -> MlResult {
    match r {
        MlResult::Drowsiness { is_drowsy, eye_closure_ratio } => MlResult::Drowsiness {
            is_drowsy: is_drowsy || (ctx.time_of_day@ == "night"@ && eye_closure_ratio > 300) || (
            ctx.speed_kmh < 30_000 && eye_closure_ratio > 400),
            eye_closure_ratio,
        },
        MlResult::LaneDeparture { is_departing, deviation_pixels } => MlResult::LaneDeparture {
            is_departing: is_departing || (ctx.speed_kmh > 80_000 && deviation_pixels > 30),
            deviation_pixels,
        },
        _ => r,
    }
}

/// Calibration never inflates a confidence: the calibrated value lies
/// between zero and the raw value.
pub proof fn lemma_calibration_never_inflates(confidence: i64, temperature_c: i64)
    ensures
        confidence >= 0 ==> 0 <= calibrated(confidence, temperature_c) <= confidence,
        confidence < 0 ==> confidence <= calibrated(confidence, temperature_c) <= 0,
{
}

/// Fusion only ever turns a detection on: the kind and the measured values
/// stay, and an inference that raised an alert before fusion raises the
/// same alert after it.
pub proof fn lemma_fusion_keeps_alerts(e: MlEvent, ctx: SensorContext)
    ensures
        ml_rules(e).len() > 0 ==> ml_rules(MlEvent { result: fused(e.result, ctx), ..e }) == ml_rules(e),
        e.result is Drowsiness ==> fused(e.result, ctx) is Drowsiness && fused(e.result, ctx)->eye_closure_ratio == e.result->eye_closure_ratio && (e.result->is_drowsy ==> fused(e.result, ctx)->is_drowsy),
        e.result is LaneDeparture ==> fused(e.result, ctx) is LaneDeparture && fused(e.result, ctx)->deviation_pixels == e.result->deviation_pixels && (e.result->is_departing ==> fused(e.result, ctx)->is_departing),
        !(e.result is Drowsiness) && !(e.result is LaneDeparture) ==> fused(e.result, ctx) == e.result,
{
}

/// Fusion turns a lane result positive only above 80 km/h and more than 30
/// pixels off centre: at or below 80 km/h, or within 30 pixels, a negative
/// lane result stays negative; above 80 km/h and beyond 30 pixels it
/// becomes positive. The deviation is never changed.
pub proof fn lemma_lane_fusion_needs_speed(is_departing: bool, deviation_pixels: i32, ctx: SensorContext)
    ensures
        ({
            let f = fused(MlResult::LaneDeparture { is_departing, deviation_pixels }, ctx);
            &&& f is LaneDeparture
            &&& f->deviation_pixels == deviation_pixels
            &&& (ctx.speed_kmh <= 80_000 || deviation_pixels <= 30) ==> f->is_departing == is_departing
            &&& (ctx.speed_kmh > 80_000 && deviation_pixels > 30) ==> f->is_departing
        }),
{
}

/// Fusion turns a drowsiness result positive only at night with the eyes
/// closed more than 30 % of the time, or below 30 km/h with them closed
/// more than 40 %: otherwise a negative result stays negative.
pub proof fn lemma_drowsiness_fusion_needs_context(is_drowsy: bool, eye_closure_ratio: i64, ctx: SensorContext)
    ensures
        ({
            let f = fused(MlResult::Drowsiness { is_drowsy, eye_closure_ratio }, ctx);
            &&& f is Drowsiness
            &&& f->eye_closure_ratio == eye_closure_ratio
            &&& (ctx.time_of_day@ != "night"@ || eye_closure_ratio <= 300) && (ctx.speed_kmh >= 30_000
                || eye_closure_ratio <= 400) ==> f->is_drowsy == is_drowsy
            &&& (ctx.time_of_day@ == "night"@ && eye_closure_ratio > 300) ==> f->is_drowsy
            &&& (ctx.speed_kmh < 30_000 && eye_closure_ratio > 400) ==> f->is_drowsy
        }),
{
}

/// Post-processes inferences before the alert rules see them.
pub struct MlProcessor;

impl MlProcessor {
    pub fn new() -> (p: Self) {
        MlProcessor
    }

    /// Inferences pass through unchanged.
    pub fn process_ml_event(&self, ml_event: MlEvent) -> (processed: MlEvent)
        ensures
            processed == ml_event,
    {
        ml_event
    }

    /// Sets the calibrated confidence from the raw confidence and the device
    /// temperature; nothing else changes.
    pub fn calibrate_confidence(&self, ml_event: &mut MlEvent)
        ensures
            final(ml_event).calibrated_confidence == calibrated(
                old(ml_event).confidence,
                old(ml_event).metadata.temperature_c,
            ),
            *final(ml_event) == (MlEvent {
                calibrated_confidence: final(ml_event).calibrated_confidence,
                ..*old(ml_event)
            }),
    {
        if ml_event.metadata.temperature_c > 75_000 {
            let scaled: i128 = (ml_event.confidence as i128) * 9;
            let q: i128 = if scaled >= 0 {
                scaled / 10
            } else {
                -((-scaled) / 10)
            };
            ml_event.calibrated_confidence = q as i64;
        } else {
            ml_event.calibrated_confidence = ml_event.confidence;
        }
    }

    /// Fuses the inference with the vehicle context; only the result's flag
    /// can change.
    pub fn fuse_with_sensor_data(&self, ml_event: &mut MlEvent, sensor_context: &SensorContext)
        ensures
            *final(ml_event) == (MlEvent {
                result: fused(old(ml_event).result, *sensor_context),
                ..*old(ml_event)
            }),
    {
        let new_result = match &ml_event.result {
            MlResult::Drowsiness { is_drowsy, eye_closure_ratio } => {
                let mut drowsy = *is_drowsy;
                let ratio = *eye_closure_ratio;
                if same_text(sensor_context.time_of_day.as_str(), "night") && ratio > 300 {
                    drowsy = true;
                }
                if sensor_context.speed_kmh < 30_000 && ratio > 400 {
                    drowsy = true;
                }
                Some(MlResult::Drowsiness { is_drowsy: drowsy, eye_closure_ratio: ratio })
            },
            MlResult::LaneDeparture { is_departing, deviation_pixels } => {
                let mut departing = *is_departing;
                let dev = *deviation_pixels;
                if sensor_context.speed_kmh > 80_000 && dev > 30 {
                    departing = true;
                }
                Some(MlResult::LaneDeparture { is_departing: departing, deviation_pixels: dev })
            },
            _ => None,
        };
        if let Some(r) = new_result {
            ml_event.result = r;
        }
    }
}

} // verus!
