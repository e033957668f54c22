use vstd::prelude::*;
use crate::simulator::types::{MlEvent, MlResult, PlateBox};
use crate::util::random::{random_chance, random_in};
use crate::util::text::{decimal, same_text, u64_text};

verus! {

/// Identifier of an inference: `ml-<truck>-<model>-<timestamp>`.
pub open spec fn ml_event_id(truck_id: Seq<char>, model: Seq<char>, timestamp: u64) -> Seq<char> {
    "ml-"@ + truck_id + "-"@ + model + "-"@ + decimal(timestamp as nat)
}

/// An event of the given model, named after the truck and the instant.
pub open spec fn ml_event_of(e: MlEvent, truck_id: Seq<char>, model: Seq<char>, timestamp: u64) -> bool {
    &&& e.event_id@ == ml_event_id(truck_id, model, timestamp)
    &&& e.model_name@ == model
    &&& e.timestamp == timestamp
}

/// A drowsy driver: eyes closed 70 to 90 % of the time.
pub open spec fn drowsy_event(e: MlEvent, truck_id: Seq<char>, timestamp: u64) -> bool {
    &&& ml_event_of(e, truck_id, "drowsiness"@, timestamp)
    &&& e.result matches MlResult::Drowsiness { is_drowsy, eye_closure_ratio } && is_drowsy && 700
        <= eye_closure_ratio < 900
    &&& 850 <= e.confidence < 950
    &&& 40_000 <= e.latency_ms < 70_000
}

/// A lane departure of 50 to 79 pixels.
pub open spec fn departing_event(e: MlEvent, truck_id: Seq<char>, timestamp: u64) -> bool {
    &&& ml_event_of(e, truck_id, "lane_departure"@, timestamp)
    &&& e.result matches MlResult::LaneDeparture { is_departing, deviation_pixels } && is_departing
        && 50 <= deviation_pixels < 80
    &&& 800 <= e.confidence < 900
    &&& 40_000 <= e.latency_ms < 60_000
}

/// Cargo moved, with a motion score of 0.65 to 0.85.
pub open spec fn tamper_event(e: MlEvent, truck_id: Seq<char>, timestamp: u64) -> bool {
    &&& ml_event_of(e, truck_id, "cargo_tamper"@, timestamp)
    &&& e.result matches MlResult::CargoTamper { is_tampered, motion_score } && is_tampered && 650
        <= motion_score < 850
    &&& 870 <= e.confidence < 970
    &&& 50_000 <= e.latency_ms < 80_000
}

/// A plate `TRK-<n>` with n from 1000 to 9998, in a fixed box.
pub open spec fn plate_event(e: MlEvent, truck_id: Seq<char>, timestamp: u64) -> bool {
    &&& ml_event_of(e, truck_id, "license_plate"@, timestamp)
    &&& e.result matches MlResult::LicensePlate { plate_text, bounding_box } && bounding_box
        == PlateBox(100, 100, 200, 100) && exists|n: nat|
        1000 <= n < 9999 && plate_text@ == "TRK-"@ + #[trigger] decimal(n)
    &&& 830 <= e.confidence < 930
    &&& 60_000 <= e.latency_ms < 90_000
}

/// An alert driver: eyes closed 10 to 30 % of the time.
pub open spec fn alert_driver_event(e: MlEvent, truck_id: Seq<char>, timestamp: u64) -> bool {
    &&& ml_event_of(e, truck_id, "drowsiness"@, timestamp)
    &&& e.result matches MlResult::Drowsiness { is_drowsy, eye_closure_ratio } && !is_drowsy && 100
        <= eye_closure_ratio < 300
    &&& 900 <= e.confidence < 1000
    &&& 43_000 <= e.latency_ms < 58_000
}

/// A truck well inside its lane: 5 to 24 pixels off centre.
pub open spec fn in_lane_event(e: MlEvent, truck_id: Seq<char>, timestamp: u64) -> bool {
    &&& ml_event_of(e, truck_id, "lane_departure"@, timestamp)
    &&& e.result matches MlResult::LaneDeparture { is_departing, deviation_pixels } && !is_departing
        && 5 <= deviation_pixels < 25
    &&& 850 <= e.confidence < 950
    &&& 37_000 <= e.latency_ms < 52_000
}

/// The inferences a scenario can produce at one instant: one positive
/// detection in each of the four detection scenarios; in normal driving at
/// most a negative drowsiness check followed by at most a negative lane
/// check; nothing otherwise.
pub open spec fn ml_events_fit(
    es: Seq<MlEvent>,
    truck_id: Seq<char>,
    scenario: Seq<char>,
    timestamp: u64,
) -> bool {
    if scenario == "drowsy_driver"@ {
        es.len() == 1 && drowsy_event(es[0], truck_id, timestamp)
    } else if scenario == "lane_departure"@ {
        es.len() == 1 && departing_event(es[0], truck_id, timestamp)
    } else if scenario == "cargo_tamper"@ {
        es.len() == 1 && tamper_event(es[0], truck_id, timestamp)
    } else if scenario == "license_plate"@ {
        es.len() == 1 && plate_event(es[0], truck_id, timestamp)
    } else if scenario == "normal_driving"@ {
        ||| es.len() == 0
        ||| es.len() == 1 && (alert_driver_event(es[0], truck_id, timestamp) || in_lane_event(
            es[0],
            truck_id,
            timestamp,
        ))
        ||| es.len() == 2 && alert_driver_event(es[0], truck_id, timestamp) && in_lane_event(
            es[1],
            truck_id,
            timestamp,
        )
    } else {
        es.len() == 0
    }
}

/// A half-open range `lo..hi` a value is drawn from.
#[derive(Clone, Copy, Debug)]
pub struct ValueRange {
    pub lo: i64,
    pub hi: i64,
}

pub open spec fn in_range(x: i64, r: ValueRange) -> bool {
    r.lo <= x < r.hi
}

/// The ranges of one inference's draws: its measured value (an offset, or
/// the plate number), and the offsets of its confidence and latency.
#[derive(Clone, Copy, Debug)]
pub struct InferenceRanges {
    pub value: ValueRange,
    pub confidence: ValueRange,
    pub latency: ValueRange,
}

/// The draws of one inference.
#[derive(Clone, Copy, Debug)]
pub struct InferenceDraws {
    pub value: i64,
    pub confidence: i64,
    pub latency: i64,
}

/// What a scenario draws from: the odds (numerator, denominator) that its
/// first and its second inference are made, and the ranges of each.
#[derive(Clone, Copy, Debug)]
pub struct MlPlan {
    pub first_odds: (u32, u32),
    pub second_odds: (u32, u32),
    pub first: InferenceRanges,
    pub second: InferenceRanges,
}

/// The draws of one update: whether each inference is made, and its values.
#[derive(Clone, Copy, Debug)]
pub struct MlDraws {
    pub first: bool,
    pub second: bool,
    pub first_values: InferenceDraws,
    pub second_values: InferenceDraws,
}

pub open spec fn ranges(value: (i64, i64), confidence: (i64, i64), latency: (i64, i64)) -> InferenceRanges {
    InferenceRanges {
        value: ValueRange { lo: value.0, hi: value.1 },
        confidence: ValueRange { lo: confidence.0, hi: confidence.1 },
        latency: ValueRange { lo: latency.0, hi: latency.1 },
    }
}

/// Ranges of an inference that is never made.
pub open spec fn unused_ranges() -> InferenceRanges {
    ranges((0i64, 1i64), (0i64, 1i64), (0i64, 1i64))
}

/// What each scenario draws from. The four detection scenarios always make
/// their one inference: the drowsiness ratio ±0.1 around 0.8, the lane
/// deviation −10 to +20 pixels around 60, the cargo motion ±0.1 around
/// 0.75, the plate number from 1000 to 9998. Normal driving checks
/// drowsiness 1 time in 10 (ratio ±0.1 around 0.2) and the lane 1 time in
/// 20 (−5 to +15 pixels around 10). Other scenarios make none.
pub open spec fn ml_plan_spec(scenario: Seq<char>) -> MlPlan {
    if scenario == "drowsy_driver"@ {
        MlPlan {
            first_odds: (1u32, 1u32),
            second_odds: (0u32, 1u32),
            first: ranges((-100i64, 100i64), (-50i64, 50i64), (-10_000i64, 20_000i64)),
            second: unused_ranges(),
        }
    } else if scenario == "lane_departure"@ {
        MlPlan {
            first_odds: (1u32, 1u32),
            second_odds: (0u32, 1u32),
            first: ranges((-10i64, 20i64), (-50i64, 50i64), (-5_000i64, 15_000i64)),
            second: unused_ranges(),
        }
    } else if scenario == "cargo_tamper"@ {
        MlPlan {
            first_odds: (1u32, 1u32),
            second_odds: (0u32, 1u32),
            first: ranges((-100i64, 100i64), (-50i64, 50i64), (-10_000i64, 20_000i64)),
            second: unused_ranges(),
        }
    } else if scenario == "license_plate"@ {
        MlPlan {
            first_odds: (1u32, 1u32),
            second_odds: (0u32, 1u32),
            first: ranges((1000i64, 9999i64), (-50i64, 50i64), (-10_000i64, 20_000i64)),
            second: unused_ranges(),
        }
    } else if scenario == "normal_driving"@ {
        MlPlan {
            first_odds: (1u32, 10u32),
            second_odds: (1u32, 20u32),
            first: ranges((-100i64, 100i64), (-50i64, 50i64), (-5_000i64, 10_000i64)),
            second: ranges((-5i64, 15i64), (-50i64, 50i64), (-5_000i64, 10_000i64)),
        }
    } else {
        MlPlan { first_odds: (0u32, 1u32), second_odds: (0u32, 1u32), first: unused_ranges(), second: unused_ranges() }
    }
}

pub open spec fn inference_within(d: InferenceDraws, r: InferenceRanges) -> bool {
    in_range(d.value, r.value) && in_range(d.confidence, r.confidence) && in_range(d.latency, r.latency)
}

/// Draws that the plan allows: an inference whose odds are nil is not
/// made, one whose odds are certain is, and the values of each inference
/// made lie in their ranges.
pub open spec fn ml_draws_allowed(d: MlDraws, plan: MlPlan) -> bool {
    &&& plan.first_odds.0 == 0 ==> !d.first
    &&& plan.first_odds.0 == plan.first_odds.1 ==> d.first
    &&& plan.second_odds.0 == 0 ==> !d.second
    &&& plan.second_odds.0 == plan.second_odds.1 ==> d.second
    &&& d.first ==> inference_within(d.first_values, plan.first)
    &&& d.second ==> inference_within(d.second_values, plan.second)
}

/// An event with exactly the given fields.
pub open spec fn exact_event(
    e: MlEvent,
    truck_id: Seq<char>,
    model: Seq<char>,
    timestamp: u64,
    result: MlResult,
    confidence: int,
    latency: int,
) -> bool {
    &&& ml_event_of(e, truck_id, model, timestamp)
    &&& e.result == result
    &&& e.confidence == confidence
    &&& e.latency_ms == latency
}

/// The first inference of a scenario, made with the given draws.
pub open spec fn first_event(e: MlEvent, truck_id: Seq<char>, scenario: Seq<char>, timestamp: u64, d: InferenceDraws) -> bool {
    if scenario == "drowsy_driver"@ {
        exact_event(e, truck_id, "drowsiness"@, timestamp,
            MlResult::Drowsiness { is_drowsy: true, eye_closure_ratio: (800 + d.value) as i64 },
            900 + d.confidence, 50_000 + d.latency)
    } else if scenario == "lane_departure"@ {
        exact_event(e, truck_id, "lane_departure"@, timestamp,
            MlResult::LaneDeparture { is_departing: true, deviation_pixels: (60 + d.value) as i32 },
            850 + d.confidence, 45_000 + d.latency)
    } else if scenario == "cargo_tamper"@ {
        exact_event(e, truck_id, "cargo_tamper"@, timestamp,
            MlResult::CargoTamper { is_tampered: true, motion_score: (750 + d.value) as i64 },
            920 + d.confidence, 60_000 + d.latency)
    } else if scenario == "license_plate"@ {
        &&& ml_event_of(e, truck_id, "license_plate"@, timestamp)
        &&& e.result matches MlResult::LicensePlate { plate_text, bounding_box } && bounding_box
            == PlateBox(100, 100, 200, 100) && plate_text@ == "TRK-"@ + decimal(d.value as nat)
        &&& e.confidence == 880 + d.confidence
        &&& e.latency_ms == 70_000 + d.latency
    } else {
        exact_event(e, truck_id, "drowsiness"@, timestamp,
            MlResult::Drowsiness { is_drowsy: false, eye_closure_ratio: (200 + d.value) as i64 },
            950 + d.confidence, 48_000 + d.latency)
    }
}

/// The second inference (the lane check of normal driving), made with the
/// given draws.
pub open spec fn second_event(e: MlEvent, truck_id: Seq<char>, timestamp: u64, d: InferenceDraws) -> bool {
    exact_event(e, truck_id, "lane_departure"@, timestamp,
        MlResult::LaneDeparture { is_departing: false, deviation_pixels: (10 + d.value) as i32 },
        900 + d.confidence, 42_000 + d.latency)
}

/// The inferences of one update with the given draws: the first where it
/// was drawn, then the second where it was drawn.
pub open spec fn ml_events_drawn(es: Seq<MlEvent>, truck_id: Seq<char>, scenario: Seq<char>, timestamp: u64, d: MlDraws) -> bool {
    if d.first && d.second {
        es.len() == 2 && first_event(es[0], truck_id, scenario, timestamp, d.first_values)
            && second_event(es[1], truck_id, timestamp, d.second_values)
    } else if d.first {
        es.len() == 1 && first_event(es[0], truck_id, scenario, timestamp, d.first_values)
    } else if d.second {
        es.len() == 1 && second_event(es[0], truck_id, timestamp, d.second_values)
    } else {
        es.len() == 0
    }
}

fn value_range(lo: i64, hi: i64) -> (r: ValueRange)
    ensures
        r == (ValueRange { lo, hi }),
{
    ValueRange { lo, hi }
}

fn inference_ranges(value: (i64, i64), confidence: (i64, i64), latency: (i64, i64)) -> (r: InferenceRanges)
    ensures
        r == ranges(value, confidence, latency),
{
    InferenceRanges {
        value: value_range(value.0, value.1),
        confidence: value_range(confidence.0, confidence.1),
        latency: value_range(latency.0, latency.1),
    }
}

/// What a scenario draws from (see `ml_plan_spec`).
pub fn ml_plan(scenario: &str) -> (p: MlPlan)
    ensures
        p == ml_plan_spec(scenario@),
{
    proof {
        reveal_strlit("drowsy_driver");
        reveal_strlit("lane_departure");
        reveal_strlit("cargo_tamper");
        reveal_strlit("license_plate");
        reveal_strlit("normal_driving");
    }
    let unused = inference_ranges((0, 1), (0, 1), (0, 1));
    if same_text(scenario, "drowsy_driver") {
        MlPlan {
            first_odds: (1, 1),
            second_odds: (0, 1),
            first: inference_ranges((-100, 100), (-50, 50), (-10_000, 20_000)),
            second: unused,
        }
    } else if same_text(scenario, "lane_departure") {
        MlPlan {
            first_odds: (1, 1),
            second_odds: (0, 1),
            first: inference_ranges((-10, 20), (-50, 50), (-5_000, 15_000)),
            second: unused,
        }
    } else if same_text(scenario, "cargo_tamper") {
        MlPlan {
            first_odds: (1, 1),
            second_odds: (0, 1),
            first: inference_ranges((-100, 100), (-50, 50), (-10_000, 20_000)),
            second: unused,
        }
    } else if same_text(scenario, "license_plate") {
        MlPlan {
            first_odds: (1, 1),
            second_odds: (0, 1),
            first: inference_ranges((1000, 9999), (-50, 50), (-10_000, 20_000)),
            second: unused,
        }
    } else if same_text(scenario, "normal_driving") {
        MlPlan {
            first_odds: (1, 10),
            second_odds: (1, 20),
            first: inference_ranges((-100, 100), (-50, 50), (-5_000, 10_000)),
            second: inference_ranges((-5, 15), (-50, 50), (-5_000, 10_000)),
        }
    } else {
        MlPlan { first_odds: (0, 1), second_odds: (0, 1), first: unused, second: unused }
    }
}

fn draw_inference(r: InferenceRanges) -> (d: InferenceDraws)
    requires
        r.value.lo < r.value.hi,
        r.confidence.lo < r.confidence.hi,
        r.latency.lo < r.latency.hi,
    ensures
        inference_within(d, r),
{
    InferenceDraws {
        value: random_in(r.value.lo, r.value.hi),
        confidence: random_in(r.confidence.lo, r.confidence.hi),
        latency: random_in(r.latency.lo, r.latency.hi),
    }
}

/// Produces the edge-model inferences of one truck.
pub struct MlGenerator {
    pub truck_id: String,
}

fn event_named(
    truck_id: &str,
    model: &str,
    timestamp: u64,
    result: MlResult,
    confidence: i64,
    latency_ms: i64,
) -> (e: MlEvent)
    ensures
        ml_event_of(e, truck_id@, model@, timestamp),
        e.result == result,
        e.confidence == confidence,
        e.latency_ms == latency_ms,
{
    let mut id = String::from_str("ml-");
    id.append(truck_id);
    id.append("-");
    id.append(model);
    id.append("-");
    let ts = u64_text(timestamp);
    id.append(ts.as_str());
    MlEvent {
        event_id: id,
        model_name: String::from_str(model),
        timestamp,
        result,
        confidence,
        latency_ms,
    }
}

/// Inferences made from draws the plan allows are inferences the scenario
/// can produce.
pub proof fn lemma_drawn_events_fit(es: Seq<MlEvent>, truck_id: Seq<char>, scenario: Seq<char>, timestamp: u64, d: MlDraws)
    requires
        ml_draws_allowed(d, ml_plan_spec(scenario)),
        ml_events_drawn(es, truck_id, scenario, timestamp, d),
    ensures
        ml_events_fit(es, truck_id, scenario, timestamp),
{
    reveal_strlit("drowsy_driver");
    reveal_strlit("lane_departure");
    reveal_strlit("cargo_tamper");
    reveal_strlit("license_plate");
    reveal_strlit("normal_driving");
    if scenario == "license_plate"@ {
        let plan = ml_plan_spec(scenario);
        assert(plan.first_odds.0 == plan.first_odds.1);
        assert(d.first);
        assert(scenario[0] != "drowsy_driver"@[0]);
        assert(inference_within(d.first_values, plan.first));
        assert(1000 <= d.first_values.value < 9999);
        let n = d.first_values.value as nat;
        assert(es[0].result matches MlResult::LicensePlate { plate_text, .. } && plate_text@ == "TRK-"@ + decimal(n));
    }
}

impl MlGenerator {
    pub fn new(truck_id: &str) -> (g: Self)
        ensures
            g.truck_id@ == truck_id@,
    {
        MlGenerator { truck_id: String::from_str(truck_id) }
    }

    /// The inferences of one update at the given instant (nanoseconds since
    /// the Unix epoch).
    pub fn generate_ml_events(&self, scenario: &str, timestamp: u64) -> (events: Vec<MlEvent>)
        ensures
            ml_events_fit(events@, self.truck_id@, scenario@, timestamp),
            exists|d: MlDraws|
                ml_draws_allowed(d, ml_plan_spec(scenario@)) && ml_events_drawn(
                    events@,
                    self.truck_id@,
                    scenario@,
                    timestamp,
                    d,
                ),
    {
        let plan = ml_plan(scenario);
        let first = random_chance(plan.first_odds.0, plan.first_odds.1);
        let first_values = if first {
            draw_inference(plan.first)
        } else {
            InferenceDraws { value: 0, confidence: 0, latency: 0 }
        };
        let second = random_chance(plan.second_odds.0, plan.second_odds.1);
        let second_values = if second {
            draw_inference(plan.second)
        } else {
            InferenceDraws { value: 0, confidence: 0, latency: 0 }
        };
        let draws = MlDraws { first, second, first_values, second_values };
        let events = self.events_for_draws(scenario, timestamp, &draws);
        proof {
            assert(ml_draws_allowed(draws, ml_plan_spec(scenario@)));
            assert(ml_events_drawn(events@, self.truck_id@, scenario@, timestamp, draws));
            lemma_drawn_events_fit(events@, self.truck_id@, scenario@, timestamp, draws);
        }
        events
    }

    /// The inferences of one update at the given instant, given the draws
    /// (see `ml_events_drawn`).
    pub fn events_for_draws(&self, scenario: &str, timestamp: u64, draws: &MlDraws) -> (events: Vec<MlEvent>)
        requires
            ml_draws_allowed(*draws, ml_plan_spec(scenario@)),
        ensures
            ml_events_drawn(events@, self.truck_id@, scenario@, timestamp, *draws),
    {
        proof {
            reveal_strlit("drowsy_driver");
            reveal_strlit("lane_departure");
            reveal_strlit("cargo_tamper");
            reveal_strlit("license_plate");
            reveal_strlit("normal_driving");
        }
        let id = self.truck_id.as_str();
        let mut events: Vec<MlEvent> = Vec::new();
        if draws.first {
            let d = draws.first_values;
            if same_text(scenario, "drowsy_driver") {
                events.push(
                    event_named(
                        id,
                        "drowsiness",
                        timestamp,
                        MlResult::Drowsiness { is_drowsy: true, eye_closure_ratio: 800 + d.value },
                        900 + d.confidence,
                        50_000 + d.latency,
                    ),
                );
            } else if same_text(scenario, "lane_departure") {
                events.push(
                    event_named(
                        id,
                        "lane_departure",
                        timestamp,
                        MlResult::LaneDeparture { is_departing: true, deviation_pixels: (60 + d.value) as i32 },
                        850 + d.confidence,
                        45_000 + d.latency,
                    ),
                );
            } else if same_text(scenario, "cargo_tamper") {
                events.push(
                    event_named(
                        id,
                        "cargo_tamper",
                        timestamp,
                        MlResult::CargoTamper { is_tampered: true, motion_score: 750 + d.value },
                        920 + d.confidence,
                        60_000 + d.latency,
                    ),
                );
            } else if same_text(scenario, "license_plate") {
                let mut plate = String::from_str("TRK-");
                let digits = u64_text(d.value as u64);
                plate.append(digits.as_str());
                assert(plate@ == "TRK-"@ + decimal(d.value as nat));
                events.push(
                    event_named(
                        id,
                        "license_plate",
                        timestamp,
                        MlResult::LicensePlate { plate_text: plate, bounding_box: PlateBox(100, 100, 200, 100) },
                        880 + d.confidence,
                        70_000 + d.latency,
                    ),
                );
            } else {
                events.push(
                    event_named(
                        id,
                        "drowsiness",
                        timestamp,
                        MlResult::Drowsiness { is_drowsy: false, eye_closure_ratio: 200 + d.value },
                        950 + d.confidence,
                        48_000 + d.latency,
                    ),
                );
            }
        }
        if draws.second {
            let d = draws.second_values;
            events.push(
                event_named(
                    id,
                    "lane_departure",
                    timestamp,
                    MlResult::LaneDeparture { is_departing: false, deviation_pixels: (10 + d.value) as i32 },
                    900 + d.confidence,
                    42_000 + d.latency,
                ),
            );
        }
        events
    }
}

} // verus!
