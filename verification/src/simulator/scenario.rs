use vstd::prelude::*;
use crate::simulator::config::{ScenarioConfig, SimulatorConfig};
use crate::simulator::truck::{scenario_applied, stepped, TruckSimulator};
use crate::simulator::types::{OtaCommand, Position, TruckState};
use crate::util::keyed::{distinct_keys, keyed, lemma_keyed_append, lemma_keyed_lookup, lemma_keyed_replace};
use crate::util::random::random_range;
use crate::util::text::same_text;

verus! {

/// The driving scenarios the simulator knows.
#[derive(Clone, Copy, Debug, PartialEq, Eq, Structural)]
pub enum ScenarioKind {
    NormalDriving,
    EmergencyBraking,
    RapidAcceleration,
    SharpTurn,
    SystemFailure,
    Maintenance,
    DrowsyDriver,
    LaneDeparture,
    CargoTamper,
}

/// The scenario a configured name selects; unknown names drive normally.
pub open spec fn kind_named(name: Seq<char>) -> ScenarioKind {
    if name == "emergency_braking"@ {
        ScenarioKind::EmergencyBraking
    } else if name == "rapid_acceleration"@ {
        ScenarioKind::RapidAcceleration
    } else if name == "sharp_turn"@ {
        ScenarioKind::SharpTurn
    } else if name == "system_failure"@ {
        ScenarioKind::SystemFailure
    } else if name == "maintenance"@ {
        ScenarioKind::Maintenance
    } else if name == "drowsy_driver"@ {
        ScenarioKind::DrowsyDriver
    } else if name == "lane_departure"@ {
        ScenarioKind::LaneDeparture
    } else if name == "cargo_tamper"@ {
        ScenarioKind::CargoTamper
    } else {
        ScenarioKind::NormalDriving
    }
}

/// The name a scenario puts a truck in.
pub open spec fn truck_scenario(kind: ScenarioKind) -> Seq<char> {
    match kind {
        ScenarioKind::NormalDriving => "normal_driving"@,
        ScenarioKind::EmergencyBraking => "emergency_braking"@,
        ScenarioKind::RapidAcceleration => "rapid_acceleration"@,
        ScenarioKind::SharpTurn => "sharp_turn"@,
        ScenarioKind::SystemFailure => "system_failure"@,
        ScenarioKind::Maintenance => "maintenance"@,
        ScenarioKind::DrowsyDriver => "drowsy_driver"@,
        ScenarioKind::LaneDeparture => "lane_departure"@,
        ScenarioKind::CargoTamper => "cargo_tamper"@,
    }
}

/// A configured scenario.
#[derive(Clone, Debug)]
pub struct Scenario {
    pub kind: ScenarioKind,
    pub config: ScenarioConfig,
}

/// The scenario a configuration describes.
pub open spec fn scenario_of(config: ScenarioConfig) -> Scenario {
    Scenario { kind: kind_named(config.name@), config }
}

fn kind_of(name: &str) -> (k: ScenarioKind)
    ensures
        k == kind_named(name@),
{
    if same_text(name, "emergency_braking") {
        ScenarioKind::EmergencyBraking
    } else if same_text(name, "rapid_acceleration") {
        ScenarioKind::RapidAcceleration
    } else if same_text(name, "sharp_turn") {
        ScenarioKind::SharpTurn
    } else if same_text(name, "system_failure") {
        ScenarioKind::SystemFailure
    } else if same_text(name, "maintenance") {
        ScenarioKind::Maintenance
    } else if same_text(name, "drowsy_driver") {
        ScenarioKind::DrowsyDriver
    } else if same_text(name, "lane_departure") {
        ScenarioKind::LaneDeparture
    } else if same_text(name, "cargo_tamper") {
        ScenarioKind::CargoTamper
    } else {
        ScenarioKind::NormalDriving
    }
}

fn truck_scenario_text(kind: ScenarioKind) -> (s: &'static str)
    ensures
        s@ == truck_scenario(kind),
{
    match kind {
        ScenarioKind::NormalDriving => "normal_driving",
        ScenarioKind::EmergencyBraking => "emergency_braking",
        ScenarioKind::RapidAcceleration => "rapid_acceleration",
        ScenarioKind::SharpTurn => "sharp_turn",
        ScenarioKind::SystemFailure => "system_failure",
        ScenarioKind::Maintenance => "maintenance",
        ScenarioKind::DrowsyDriver => "drowsy_driver",
        ScenarioKind::LaneDeparture => "lane_departure",
        ScenarioKind::CargoTamper => "cargo_tamper",
    }
}

impl Scenario {
    pub fn new(config: &ScenarioConfig) -> (s: Self)
        ensures
            s == scenario_of(*config),
    {
        Scenario { kind: kind_of(config.name.as_str()), config: config.duplicate() }
    }

    pub fn name(&self) -> (n: &str)
        ensures
            n@ == self.config.name@,
    {
        self.config.name.as_str()
    }

    pub fn duration_minutes(&self) -> (m: u32)
        ensures
            m == self.config.duration_minutes,
    {
        self.config.duration_minutes
    }

    /// The scenario's parameters, as JSON text.
    pub fn parameters(&self) -> (p: &str)
        ensures
            p@ == self.config.parameters@,
    {
        self.config.parameters.as_str()
    }

    /// Whether the scenario (re)starts on a truck `elapsed_ms` into it:
    /// normal driving always does, the others during their first six
    /// seconds.
    pub open spec fn restarts_at(&self, elapsed_ms: u64) -> bool {
        self.kind == ScenarioKind::NormalDriving || elapsed_ms < 6_000
    }

    /// Drives a truck through one step of the scenario, `elapsed_ms` into
    /// it: (re)starts the scenario on the truck when due, then steps the
    /// truck as `TruckSimulator::update` does.
    pub fn update_truck(
        &self,
        truck: &mut TruckSimulator,
        elapsed_ms: u64,
        now_ms: u64,
        timestamp: u64,
        next_location: Position,
    ) -> (r: (TruckState, Option<OtaCommand>))
        requires
            old(truck).well_formed(),
        ensures
            final(truck).well_formed(),
            exists|mid: TruckSimulator|
                #[trigger] mid.well_formed() && (if self.restarts_at(elapsed_ms) {
                    scenario_applied(
                        *old(truck),
                        mid,
                        truck_scenario(self.kind),
                        self.config.duration_minutes,
                        now_ms,
                    )
                } else {
                    mid == *old(truck)
                }) && stepped(mid, *final(truck), r, now_ms, timestamp, next_location),
    {
        if self.kind == ScenarioKind::NormalDriving || elapsed_ms < 6_000 {
            truck.set_scenario(truck_scenario_text(self.kind), self.config.duration_minutes, now_ms);
        }
        let ghost mid = *truck;
        let r = truck.update(now_ms, timestamp, next_location);
        assert(mid.well_formed());
        r
    }
}

/// A scenario is filed under its name.
pub open spec fn name_key() -> spec_fn(Scenario) -> Seq<char> {
    |s: Scenario| s.config.name@
}

/// Scenario names appear once each.
pub open spec fn distinct_names(ss: Seq<Scenario>) -> bool {
    distinct_keys(ss, name_key())
}

/// The scenarios by name.
pub open spec fn by_name(ss: Seq<Scenario>) -> Map<Seq<char>, Scenario> {
    keyed(ss, name_key())
}

/// The scenarios a list of configurations registers: each under its
/// name, a later configuration replacing an earlier one of the same name.
pub open spec fn registered(configs: Seq<ScenarioConfig>) -> Map<Seq<char>, Scenario>
    decreases configs.len(),
{
    if configs.len() == 0 {
        Map::empty()
    } else {
        registered(configs.drop_last()).insert(configs.last().name@, scenario_of(configs.last()))
    }
}

/// Sum of the first `n` weights.
pub open spec fn prefix_sum(ws: Seq<u32>, n: int) -> int
    decreases n,
{
    if n <= 0 || n > ws.len() {
        0
    } else {
        prefix_sum(ws, n - 1) + ws[n - 1]
    }
}

/// A draw falls in the band of index `i`: at or above the weights before
/// it, below those up to and including it.
pub open spec fn in_band(ws: Seq<u32>, i: int, draw: int) -> bool {
    prefix_sum(ws, i) <= draw < prefix_sum(ws, i + 1)
}

proof fn lemma_prefix_bounds(ws: Seq<u32>, n: int)
    requires
        0 <= n <= ws.len(),
    ensures
        0 <= prefix_sum(ws, n) <= n * 0xffff_ffff,
    decreases n,
{
    if n > 0 {
        lemma_prefix_bounds(ws, n - 1);
    }
}

proof fn lemma_prefix_monotone(ws: Seq<u32>, a: int, b: int)
    requires
        0 <= a <= b <= ws.len(),
    ensures
        prefix_sum(ws, a) <= prefix_sum(ws, b),
    decreases b - a,
{
    if a < b {
        lemma_prefix_monotone(ws, a, b - 1);
    }
}

/// Weighted choice: every draw below the total weight falls in exactly one
/// band, the band of index `i` is `ws[i]` draws wide, so an index of weight
/// zero is never chosen and each index is chosen on as many draws as its
/// weight.
pub proof fn lemma_bands(ws: Seq<u32>, i: int, j: int, draw: int)
    requires
        0 <= i < ws.len(),
        0 <= j < ws.len(),
        in_band(ws, i, draw),
        in_band(ws, j, draw),
    ensures
        i == j,
        prefix_sum(ws, i + 1) - prefix_sum(ws, i) == ws[i],
        ws[i] > 0,
{
    if i < j {
        lemma_prefix_monotone(ws, i + 1, j);
    } else if j < i {
        lemma_prefix_monotone(ws, j + 1, i);
    }
}

/// The index whose band a draw falls in.
pub fn pick_weighted(ws: &Vec<u32>, draw: u128) -> (i: usize)
    requires
        draw < prefix_sum(ws@, ws@.len() as int),
    ensures
        i < ws@.len(),
        in_band(ws@, i as int, draw as int),
{
    let mut acc: u128 = 0;
    let mut i: usize = 0;
    while i < ws.len()
        invariant
            i <= ws@.len(),
            acc == prefix_sum(ws@, i as int),
            acc <= draw,
            draw < prefix_sum(ws@, ws@.len() as int),
        decreases ws@.len() - i,
    {
        proof {
            lemma_prefix_bounds(ws@, i as int + 1);
            assert((i as int + 1) * 0xffff_ffff <= 0x1_0000_0000_0000_0000 * 0xffff_ffff) by (nonlinear_arith)
                requires
                    i < 0x1_0000_0000_0000_0000,
            ;
        }
        let next: u128 = acc + ws[i] as u128;
        if draw < next {
            return i;
        }
        acc = next;
        i = i + 1;
    }
    proof {
        assert(false);
    }
    0
}

/// The configured scenarios, each under its own name.
pub struct ScenarioManager {
    pub scenarios: Vec<Scenario>,
}

impl View for ScenarioManager {
    type V = Map<Seq<char>, Scenario>;

    open spec fn view(&self) -> Map<Seq<char>, Scenario> {
        by_name(self.scenarios@)
    }
}

impl ScenarioManager {
    pub open spec fn well_formed(&self) -> bool {
        distinct_names(self.scenarios@)
    }

    /// Registers the configured scenarios; a later configuration replaces
    /// an earlier one of the same name.
    pub fn new(config: &SimulatorConfig) -> (m: Self)
        ensures
            m.well_formed(),
            m@ == registered(config.scenarios@),
    {
        let mut scenarios: Vec<Scenario> = Vec::new();
        let n = config.scenarios.len();
        let mut k: usize = 0;
        assert(by_name(scenarios@) =~= Map::<Seq<char>, Scenario>::empty());
        assert(config.scenarios@.take(0) =~= Seq::<ScenarioConfig>::empty());
        while k < n
            invariant
                k <= n,
                n == config.scenarios@.len(),
                distinct_names(scenarios@),
                by_name(scenarios@) == registered(config.scenarios@.take(k as int)),
            decreases n - k,
        {
            let cfg = &config.scenarios[k];
            let s = Scenario::new(cfg);
            let mut found: Option<usize> = None;
            let mut j: usize = 0;
            while j < scenarios.len()
                invariant
                    j <= scenarios@.len(),
                    found matches Some(f) ==> f < scenarios@.len() && scenarios@[f as int].config.name@
                        == cfg.name@,
                    found is None ==> forall|q: int|
                        0 <= q < j ==> #[trigger] scenarios@[q].config.name@ != cfg.name@,
                decreases scenarios@.len() - j,
            {
                if found.is_none() && same_text(scenarios[j].config.name.as_str(), cfg.name.as_str()) {
                    found = Some(j);
                }
                j = j + 1;
            }
            proof {
                assert(config.scenarios@.take(k as int + 1).drop_last() =~= config.scenarios@.take(
                    k as int,
                ));
            }
            match found {
                Some(f) => {
                    proof {
                        lemma_keyed_replace(scenarios@, name_key(), f as int, s);
                    }
                    scenarios.set(f, s);
                },
                None => {
                    proof {
                        lemma_keyed_append(scenarios@, name_key(), s);
                    }
                    scenarios.push(s);
                },
            }
            k = k + 1;
        }
        assert(config.scenarios@.take(n as int) =~= config.scenarios@);
        ScenarioManager { scenarios }
    }

    /// The scenario registered under `name`.
    pub fn get_scenario(&self, name: &str) -> (r: Option<&Scenario>)
        requires
            self.well_formed(),
        ensures
            r is Some <==> self@.contains_key(name@),
            r matches Some(s) ==> *s == self@[name@],
    {
        let mut j: usize = 0;
        while j < self.scenarios.len()
            invariant
                j <= self.scenarios@.len(),
                distinct_names(self.scenarios@),
                forall|q: int| 0 <= q < j ==> #[trigger] self.scenarios@[q].config.name@ != name@,
            decreases self.scenarios@.len() - j,
        {
            if same_text(self.scenarios[j].config.name.as_str(), name) {
                proof {
                    lemma_keyed_lookup(self.scenarios@, name_key(), j as int);
                }
                return Some(&self.scenarios[j]);
            }
            j = j + 1;
        }
        None
    }

    /// The configuration of the scenario registered under `name`.
    pub fn get_scenario_config(&self, name: &str) -> (r: Option<&ScenarioConfig>)
        requires
            self.well_formed(),
        ensures
            r is Some <==> self@.contains_key(name@),
            r matches Some(c) ==> *c == self@[name@].config,
    {
        match self.get_scenario(name) {
            Some(s) => Some(&s.config),
            None => None,
        }
    }

    /// The weights of the scenarios, in registration order.
    pub open spec fn weights(&self) -> Seq<u32> {
        Seq::new(self.scenarios@.len(), |i: int| self.scenarios@[i].config.probability)
    }

    /// Whether a draw can pick the scenario at index `i`: when the weights
    /// sum to zero only the first can be picked; otherwise any whose band
    /// some draw falls in, that is any of positive weight.
    pub open spec fn selectable(&self, i: int) -> bool {
        let total = prefix_sum(self.weights(), self.scenarios@.len() as int);
        &&& 0 <= i < self.scenarios@.len()
        &&& if total == 0 {
            i == 0
        } else {
            exists|draw: int| 0 <= draw < total && #[trigger] in_band(self.weights(), i, draw)
        }
    }

    /// Picks a scenario at random, weighted by probability; when every
    /// weight is zero, the first registered scenario; none when there are
    /// no scenarios.
    pub fn select_scenario(&self) -> (r: Option<&Scenario>)
        ensures
            r is None <==> self.scenarios@.len() == 0,
            r matches Some(s) ==> exists|i: int| #[trigger] self.selectable(i) && *s == self.scenarios@[i],
    {
        if self.scenarios.len() == 0 {
            return None;
        }
        let mut ws: Vec<u32> = Vec::new();
        let mut total: u128 = 0;
        let mut i: usize = 0;
        while i < self.scenarios.len()
            invariant
                i <= self.scenarios@.len(),
                ws@ == self.weights().take(i as int),
                total == prefix_sum(ws@, i as int),
            decreases self.scenarios@.len() - i,
        {
            proof {
                lemma_prefix_bounds(ws@, i as int);
                assert((i as int) * 0xffff_ffff <= 0x1_0000_0000_0000_0000 * 0xffff_ffff) by (nonlinear_arith)
                    requires
                        i < 0x1_0000_0000_0000_0000,
                ;
            }
            let w = self.scenarios[i].config.probability;
            let ghost before = ws@;
            ws.push(w);
            proof {
                assert(ws@ =~= self.weights().take(i as int + 1));
                assert(ws@.drop_last() =~= before);
                assert forall|m: int| 0 <= m <= i implies prefix_sum(ws@, m) == prefix_sum(before, m) by {
                    lemma_prefix_stable(before, w, m);
                }
            }
            total = total + w as u128;
            i = i + 1;
        }
        assert(ws@ =~= self.weights());
        if total == 0 {
            assert(self.selectable(0));
            return Some(&self.scenarios[0]);
        }
        proof {
            let len = self.scenarios@.len() as int;
            lemma_prefix_bounds(ws@, len);
            assert(len * 0xffff_ffff <= 0x1_0000_0000_0000_0000 * 0xffff_ffff) by (nonlinear_arith)
                requires
                    len <= 0x1_0000_0000_0000_0000,
            ;
        }
        let draw = random_range(0, total as i128) as u128;
        let k = pick_weighted(&ws, draw);
        assert(in_band(self.weights(), k as int, draw as int));
        assert(self.selectable(k as int));
        Some(&self.scenarios[k])
    }
}

proof fn lemma_prefix_stable(ws: Seq<u32>, w: u32, m: int)
    requires
        0 <= m <= ws.len(),
    ensures
        prefix_sum(ws.push(w), m) == prefix_sum(ws, m),
    decreases m,
{
    if m > 0 {
        lemma_prefix_stable(ws, w, m - 1);
    }
}

} // verus!
