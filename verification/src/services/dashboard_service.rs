use vstd::prelude::*;
use crate::models::truck::{TruckStatus, TruckSummary};
use crate::processing::ml::div_toward_zero;

verus! {

/// Fleet figures shown on the dashboard.
#[derive(Clone, Debug)]
pub struct FleetCounts {
    pub total: u64,
    pub online: u64,
    pub offline: u64,
    pub maintenance: u64,
    pub with_alerts: u64,
    /// Mean health score in thousandths; `None` for an empty listing.
    pub avg_health_score: Option<i64>,
}

pub open spec fn count_status(t: Seq<TruckSummary>, s: TruckStatus) -> nat
    decreases t.len(),
{
    if t.len() == 0 {
        0
    } else {
        count_status(t.drop_last(), s) + if t.last().status == s {
            1nat
        } else {
            0nat
        }
    }
}

pub open spec fn count_with_alerts(t: Seq<TruckSummary>) -> nat
    decreases t.len(),
{
    if t.len() == 0 {
        0
    } else {
        count_with_alerts(t.drop_last()) + if t.last().active_alerts > 0 {
            1nat
        } else {
            0nat
        }
    }
}

pub open spec fn sum_scores(t: Seq<TruckSummary>) -> int
    decreases t.len(),
{
    if t.len() == 0 {
        0
    } else {
        sum_scores(t.drop_last()) + t.last().health_score
    }
}

/// The figures of a listing: counts by status, trucks with open alerts, and
/// the mean health score.
pub open spec fn fleet_counts_of(c: FleetCounts, t: Seq<TruckSummary>) -> bool {
    &&& c.total == t.len()
    &&& c.online == count_status(t, TruckStatus::Online)
    &&& c.offline == count_status(t, TruckStatus::Offline)
    &&& c.maintenance == count_status(t, TruckStatus::Maintenance)
    &&& c.with_alerts == count_with_alerts(t)
    &&& c.avg_health_score == if t.len() == 0 {
        None
    } else {
        Some(div_toward_zero(sum_scores(t), t.len() as int) as i64)
    }
}

pub proof fn lemma_counts_bounded(t: Seq<TruckSummary>)
    ensures
        count_status(t, TruckStatus::Online) + count_status(t, TruckStatus::Offline) + count_status(
            t,
            TruckStatus::Maintenance,
        ) <= t.len(),
        count_with_alerts(t) <= t.len(),
        sum_scores(t) <= t.len() * 0x7fff_ffff_ffff_ffff,
        sum_scores(t) >= t.len() * (-0x8000_0000_0000_0000),
    decreases t.len(),
{
    if t.len() > 0 {
        lemma_counts_bounded(t.drop_last());
    }
}

proof fn lemma_scores_within(t: Seq<TruckSummary>)
    requires
        forall|i: int| 0 <= i < t.len() ==> 0 <= #[trigger] t[i].health_score <= 100_000,
    ensures
        0 <= sum_scores(t) <= t.len() * 100_000,
    decreases t.len(),
{
    if t.len() > 0 {
        assert forall|i: int| 0 <= i < t.drop_last().len() implies 0 <= #[trigger] t.drop_last()[i].health_score
            <= 100_000 by {
            assert(t.drop_last()[i] == t[i]);
        }
        lemma_scores_within(t.drop_last());
        assert(t.last() == t[t.len() - 1]);
    }
}

/// The dashboard's figures are consistent: trucks online, offline and in
/// maintenance together never outnumber the trucks listed, nor do trucks
/// with open alerts; and when every listed score is a valid health score
/// (0 to 100 points), so is the fleet's mean score.
pub proof fn lemma_fleet_figures_bounded(c: FleetCounts, t: Seq<TruckSummary>)
    requires
        fleet_counts_of(c, t),
    ensures
        c.online + c.offline + c.maintenance <= c.total,
        c.with_alerts <= c.total,
        (forall|i: int| 0 <= i < t.len() ==> 0 <= #[trigger] t[i].health_score <= 100_000) ==> match c.avg_health_score {
            Some(a) => 0 <= a <= 100_000,
            None => true,
        },
{
    lemma_counts_bounded(t);
    if forall|i: int| 0 <= i < t.len() ==> 0 <= #[trigger] t[i].health_score <= 100_000 {
        lemma_scores_within(t);
        if t.len() > 0 {
            let n = t.len() as int;
            let s = sum_scores(t);
            assert(0 <= s / n <= 100_000) by (nonlinear_arith)
                requires
                    0 <= s <= n * 100_000,
                    n > 0,
            ;
        }
    }
}

/// Figures of a truck listing.
pub fn fleet_counts(trucks: &Vec<TruckSummary>) -> (c: FleetCounts)
    ensures
        fleet_counts_of(c, trucks@),
{
    let mut online: u64 = 0;
    let mut offline: u64 = 0;
    let mut maintenance: u64 = 0;
    let mut with_alerts: u64 = 0;
    let mut sum: i128 = 0;
    let mut i: usize = 0;
    while i < trucks.len()
        invariant
            i <= trucks@.len(),
            online == count_status(trucks@.take(i as int), TruckStatus::Online),
            offline == count_status(trucks@.take(i as int), TruckStatus::Offline),
            maintenance == count_status(trucks@.take(i as int), TruckStatus::Maintenance),
            with_alerts == count_with_alerts(trucks@.take(i as int)),
            sum == sum_scores(trucks@.take(i as int)),
        decreases trucks@.len() - i,
    {
        proof {
            lemma_counts_bounded(trucks@.take(i as int));
            assert(trucks@.take(i + 1).drop_last() =~= trucks@.take(i as int));
            assert(i * 0x7fff_ffff_ffff_ffff <= 0x1_0000_0000_0000_0000 * 0x7fff_ffff_ffff_ffff)
                by (nonlinear_arith)
                requires i <= 0x1_0000_0000_0000_0000;
            assert(i * (-0x8000_0000_0000_0000) >= 0x1_0000_0000_0000_0000 * (-0x8000_0000_0000_0000))
                by (nonlinear_arith)
                requires 0 <= i <= 0x1_0000_0000_0000_0000;
        }
        let t = &trucks[i];
        match t.status {
            TruckStatus::Online => online = online + 1,
            TruckStatus::Offline => offline = offline + 1,
            TruckStatus::Maintenance => maintenance = maintenance + 1,
            TruckStatus::Inactive => {},
        }
        if t.active_alerts > 0 {
            with_alerts = with_alerts + 1;
        }
        sum = sum + (t.health_score as i128);
        i = i + 1;
    }
    assert(trucks@.take(i as int) =~= trucks@);
    let n = trucks.len();
    let avg = if n == 0 {
        None
    } else {
        proof {
            lemma_counts_bounded(trucks@);
        }
        let q: i128 = if sum >= 0 {
            sum / (n as i128)
        } else {
            -((-sum) / (n as i128))
        };
        assert(-0x8000_0000_0000_0000 <= q <= 0x7fff_ffff_ffff_ffff) by {
            lemma_avg_bounds(sum as int, n as int);
        }
        Some(q as i64)
    };
    FleetCounts { total: n as u64, online, offline, maintenance, with_alerts, avg_health_score: avg }
}

proof fn lemma_avg_bounds(sum: int, n: int)
    requires
        n >= 1,
        sum <= n * 0x7fff_ffff_ffff_ffff,
        sum >= n * (-0x8000_0000_0000_0000),
    ensures
        -0x8000_0000_0000_0000 <= div_toward_zero(sum, n) <= 0x7fff_ffff_ffff_ffff,
{
    if sum >= 0 {
        assert(sum / n <= 0x7fff_ffff_ffff_ffff) by (nonlinear_arith)
            requires n >= 1, 0 <= sum <= n * 0x7fff_ffff_ffff_ffff;
        assert(sum / n >= 0) by (nonlinear_arith)
            requires n >= 1, sum >= 0;
    } else {
        assert((-sum) / n <= 0x8000_0000_0000_0000) by (nonlinear_arith)
            requires n >= 1, 0 < -sum <= n * 0x8000_0000_0000_0000;
        assert((-sum) / n >= 0) by (nonlinear_arith)
            requires n >= 1, -sum >= 0;
    }
}

} // verus!
