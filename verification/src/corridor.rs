//! The corridor gate over residual snapshots: stop on a touched hard limit,
//! derate on a growing residual.

use vstd::prelude::*;
use vstd::string::StringExecFns;
use crate::fixed::{in_unit_interval, MAX_WEIGHT, SCALE};
use crate::lyapunov::{residual_did_not_worsen_strict, ResidualState};

verus! {

/// A dimensionless risk coordinate with its corridor bands: 0 is fully
/// safe, `SCALE` is at the hard limit.
#[derive(Clone, Debug)]
pub struct RiskCoord {
    pub var_id: String,
    pub value: i64,
    pub safe: i64,
    pub gold: i64,
    pub hard: i64,
    /// Contribution weight into the residual.
    pub weight: i64,
    /// Channel index for residual aggregation.
    pub lyap_channel: u16,
}

/// A residual snapshot: the coordinates of one tick, the weights by
/// position, and the aggregated value `vt`.
#[derive(Clone, Debug)]
pub struct Residual {
    pub vt: i128,
    pub weights: Vec<i64>,
    pub rx: Vec<RiskCoord>,
}

/// The weight at position `j`, or 0 where the weight list is too short.
pub open spec fn weight_at(weights: Seq<i64>, j: int) -> int {
    if 0 <= j < weights.len() {
        weights[j] as int
    } else {
        0
    }
}

/// The sum of `weight_at(weights, j) * rx[j].value` over all positions of `rx`.
pub open spec fn weighted_sum(rx: Seq<RiskCoord>, weights: Seq<i64>) -> int
    decreases rx.len(),
{
    if rx.len() == 0 {
        0
    } else {
        weighted_sum(rx.drop_last(), weights) + weight_at(weights, rx.len() - 1)
            * rx.last().value as int
    }
}

/// Some coordinate touches or exceeds its hard limit.
pub open spec fn hard_limit_touched(rx: Seq<RiskCoord>) -> bool {
    exists|i: int| 0 <= i < rx.len() && (#[trigger] rx[i]).value >= SCALE
}

impl Residual {
    /// Every coordinate lies in the unit interval and every weight in
    /// `[0, MAX_WEIGHT]`, so that the weighted sum is representable.
    pub open spec fn inputs_in_range(&self) -> bool {
        &&& forall|i: int|
            0 <= i < self.rx@.len() ==> in_unit_interval((#[trigger] self.rx@[i]).value as int)
        &&& forall|i: int|
            0 <= i < self.weights@.len() ==> 0 <= (#[trigger] self.weights@[i]) <= MAX_WEIGHT
    }

    /// Decides `inputs_in_range`.
    pub fn is_in_range(&self) -> (b: bool)
        ensures
            b == self.inputs_in_range(),
    {
        let mut i: usize = 0;
        while i < self.rx.len()
            invariant
                0 <= i <= self.rx@.len(),
                forall|k: int| 0 <= k < i ==> in_unit_interval((#[trigger] self.rx@[k]).value as int),
            decreases self.rx@.len() - i,
        {
            if self.rx[i].value < 0 || self.rx[i].value > SCALE {
                return false;
            }
            i += 1;
        }
        let mut j: usize = 0;
        while j < self.weights.len()
            invariant
                0 <= j <= self.weights@.len(),
                forall|k: int| 0 <= k < j ==> 0 <= (#[trigger] self.weights@[k]) <= MAX_WEIGHT,
            decreases self.weights@.len() - j,
        {
            if self.weights[j] < 0 || self.weights[j] > MAX_WEIGHT {
                return false;
            }
            j += 1;
        }
        true
    }

    /// Recomputes `vt` as the weighted sum of the coordinates; a coordinate
    /// without a weight at its position counts with weight 0.
    pub fn recompute(&mut self)
        requires
            old(self).inputs_in_range(),
        ensures
            final(self).vt as int == weighted_sum(old(self).rx@, old(self).weights@),
            final(self).rx == old(self).rx,
            final(self).weights == old(self).weights,
    {
        let mut v: i128 = 0;
        let mut j: usize = 0;
        while j < self.rx.len()
            invariant
                0 <= j <= self.rx@.len(),
                self.inputs_in_range(),
                self.rx == old(self).rx,
                self.weights == old(self).weights,
                v as int == weighted_sum(self.rx@.take(j as int), self.weights@),
                0 <= v as int <= j as int * 1_000_000_000_000_000_000,
            decreases self.rx@.len() - j,
        {
            let w: i64 = if j < self.weights.len() {
                self.weights[j]
            } else {
                0
            };
            let value: i64 = self.rx[j].value;
            proof {
                let rx = self.rx@;
                assert(rx.take(j as int + 1).drop_last() =~= rx.take(j as int));
                assert(rx.take(j as int + 1).last() == rx[j as int]);
                assert(in_unit_interval(rx[j as int].value as int));
                assert(w as int == weight_at(self.weights@, j as int));
                assert(0 <= w <= MAX_WEIGHT) by {
                    if j < self.weights@.len() {
                        assert(0 <= self.weights@[j as int] <= MAX_WEIGHT);
                    }
                }
                assert(0 <= w as int * value as int <= 1_000_000_000_000_000_000) by (nonlinear_arith)
                    requires
                        0 <= w as int <= 1_000_000_000_000,
                        0 <= value as int <= 1_000_000,
                ;
                assert(j as int * 1_000_000_000_000_000_000 <= 0xffff_ffff_ffff_ffff
                    * 1_000_000_000_000_000_000) by (nonlinear_arith)
                    requires
                        0 <= j as int <= 0xffff_ffff_ffff_ffff,
                ;
            }
            let term: i128 = (w as i128) * (value as i128);
            v = v + term;
            j += 1;
        }
        assert(self.rx@.take(self.rx@.len() as int) =~= self.rx@);
        self.vt = v;
    }
}

/// The outcome of the corridor gate for a proposed operating point.
#[derive(Clone, Debug)]
pub struct CorridorDecision {
    pub derate: bool,
    pub stop: bool,
    pub reason: String,
}

/// The reason text that goes with an outcome.
pub open spec fn corridor_reason(hard: bool, increased: bool) -> Seq<char> {
    if hard {
        "hard corridor limit exceeded"@
    } else if increased {
        "Lyapunov residual increased"@
    } else {
        "within corridors"@
    }
}

/// Whether any coordinate touches or exceeds its hard limit.
pub fn any_hard_limit_touched(rx: &Vec<RiskCoord>) -> (b: bool)
    ensures
        b == hard_limit_touched(rx@),
{
    let mut i: usize = 0;
    while i < rx.len()
        invariant
            0 <= i <= rx@.len(),
            forall|k: int| 0 <= k < i ==> (#[trigger] rx@[k]).value < SCALE,
        decreases rx@.len() - i,
    {
        if rx[i].value >= SCALE {
            return true;
        }
        i += 1;
    }
    false
}

/// The residual grew from `prev` to `next`, by however little.
pub open spec fn residual_increased(prev: Residual, next: Residual) -> bool {
    !residual_did_not_worsen_strict(prev.vt as int, next.vt as int)
}

/// The corridor gate. A touched hard limit stops the system whatever the
/// trend; otherwise any strict increase of the residual derates it. The
/// tolerance `eps` is accepted for uniformity with the cascade of gates and
/// plays no part here: this trend check is strict.
pub fn enforce_safestep(prev: &Residual, next: &Residual, eps: i128) -> (d: CorridorDecision)
    ensures
        d.stop == hard_limit_touched(next.rx@),
        d.derate == (hard_limit_touched(next.rx@) || residual_increased(*prev, *next)),
        d.reason@ == corridor_reason(hard_limit_touched(next.rx@), residual_increased(*prev, *next)),
        hard_limit_touched(next.rx@) ==> d.derate && d.stop,
        !hard_limit_touched(next.rx@) && next.vt == prev.vt ==> !d.derate && !d.stop,
{
    decide(any_hard_limit_touched(&next.rx), next.vt > prev.vt)
}

/// The decision that goes with the two findings: limit touched, residual grown.
fn decide(hard: bool, increased: bool) -> (d: CorridorDecision)
    ensures
        d.stop == hard,
        d.derate == (hard || increased),
        d.reason@ == corridor_reason(hard, increased),
{
    if hard {
        return CorridorDecision {
            derate: true,
            stop: true,
            reason: String::from_str("hard corridor limit exceeded"),
        };
    }
    if increased {
        return CorridorDecision {
            derate: true,
            stop: false,
            reason: String::from_str("Lyapunov residual increased"),
        };
    }
    CorridorDecision { derate: false, stop: false, reason: String::from_str("within corridors") }
}

/// Some coordinate of an aggregated state touches its hard limit.
pub open spec fn state_hard_limit_touched(state: ResidualState) -> bool {
    exists|i: int| 0 <= i < state.coords@.len() && (#[trigger] state.coords@[i]).r >= SCALE
}

/// The corridor gate over aggregated states, with the same priorities:
/// a touched hard limit stops, else any strict increase of the residual
/// derates, whatever the tolerance `eps`.
pub fn enforce_safestep_state(prev: &ResidualState, next: &ResidualState, eps: i128) -> (d:
    CorridorDecision)
    ensures
        d.stop == state_hard_limit_touched(*next),
        d.derate == (state_hard_limit_touched(*next) || !residual_did_not_worsen_strict(
            prev.v as int,
            next.v as int,
        )),
        d.reason@ == corridor_reason(
            state_hard_limit_touched(*next),
            !residual_did_not_worsen_strict(prev.v as int, next.v as int),
        ),
        state_hard_limit_touched(*next) ==> d.derate && d.stop,
        !state_hard_limit_touched(*next) && next.v == prev.v ==> !d.derate && !d.stop,
{
    let mut hard: bool = false;
    let mut i: usize = 0;
    while i < next.coords.len() && !hard
        invariant
            0 <= i <= next.coords@.len(),
            hard ==> state_hard_limit_touched(*next),
            !hard ==> forall|k: int| 0 <= k < i ==> (#[trigger] next.coords@[k]).r < SCALE,
        decreases next.coords@.len() - i,
    {
        if next.coords[i].r >= SCALE {
            hard = true;
        }
        i += 1;
    }
    decide(hard, next.v > prev.v)
}

} // verus!
