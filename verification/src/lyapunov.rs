//! Risk-coordinate normalization and the aggregated residual `V`.
//!
//! A coordinate `r` is a scaled value in `[0, SCALE]`; a weight `w` is a
//! scaled value in `[0, MAX_WEIGHT]`. The residual is the exact sum of the
//! products `r * w`, so it counts units of `1 / SCALE^2`.

use vstd::prelude::*;
use vstd::arithmetic::div_mod::{lemma_div_is_ordered, lemma_div_multiples_vanish};
use vstd::seq_lib::{to_multiset_len, to_multiset_remove};
use crate::fixed::{clip01_spec, in_unit_interval, MAX_WEIGHT, SCALE};
use crate::types::{Parameter, RiskCoordinateDef};

verus! {

/// A normalized risk coordinate with its weight.
#[derive(Clone, Copy, Debug, PartialEq, Eq)]
pub struct RiskCoord {
    pub r: i64,
    pub w: i64,
}

impl RiskCoord {
    /// `r` lies in the unit interval and `w` in `[0, MAX_WEIGHT]`.
    pub open spec fn wf(&self) -> bool {
        &&& in_unit_interval(self.r as int)
        &&& 0 <= self.w <= MAX_WEIGHT
    }

    /// The coordinate's contribution to the residual.
    pub open spec fn term(&self) -> int {
        self.r as int * self.w as int
    }

    /// Decides `wf`.
    pub fn is_valid(&self) -> (b: bool)
        ensures
            b == self.wf(),
    {
        0 <= self.r && self.r <= SCALE && 0 <= self.w && self.w <= MAX_WEIGHT
    }
}

/// The coordinate set of one tick with its aggregated residual.
#[derive(Clone, Debug)]
pub struct ResidualState {
    pub coords: Vec<RiskCoord>,
    pub v: i128,
}

/// Every coordinate of the sequence is well formed.
pub open spec fn all_wf(coords: Seq<RiskCoord>) -> bool {
    forall|i: int| 0 <= i < coords.len() ==> (#[trigger] coords[i]).wf()
}

/// The residual of a coordinate sequence: the sum of `r * w` over its items.
pub open spec fn residual_sum(coords: Seq<RiskCoord>) -> int
    decreases coords.len(),
{
    if coords.len() == 0 {
        0
    } else {
        residual_sum(coords.drop_last()) + coords.last().term()
    }
}

impl ResidualState {
    /// The state holds a non-empty, well-formed coordinate set and its residual.
    pub open spec fn wf(&self) -> bool {
        &&& self.coords@.len() > 0
        &&& all_wf(self.coords@)
        &&& self.v as int == residual_sum(self.coords@)
    }
}

/// The unclamped coordinate of reading `x`, rounded toward negative infinity.
pub open spec fn raw_coord(direction_max: bool, r_min: int, r_max: int, x: int) -> int {
    if direction_max {
        ((x - r_min) * SCALE as int) / (r_max - r_min)
    } else {
        ((r_max - x) * SCALE as int) / (r_max - r_min)
    }
}

/// The normalized coordinate of reading `x`: the raw coordinate clamped to `[0, 1]`.
pub open spec fn normalized(direction_max: bool, r_min: int, r_max: int, x: int) -> int {
    clip01_spec(raw_coord(direction_max, r_min, r_max, x))
}

/// The quotient `num * SCALE / den` is non-positive for `num <= 0` and at
/// least `SCALE` for `num >= den`.
proof fn lemma_scaled_quotient_bounds(num: int, den: int)
    requires
        den > 0,
    ensures
        num <= 0 ==> (num * SCALE as int) / den <= 0,
        num >= den ==> (num * SCALE as int) / den >= SCALE as int,
        0 <= num <= den ==> 0 <= (num * SCALE as int) / den <= SCALE as int,
{
    let s = SCALE as int;
    lemma_div_multiples_vanish(s, den);
    assert((den * s) / den == s);
    assert(0int / den == 0) by (nonlinear_arith)
        requires
            den > 0,
    ;
    if num <= 0 {
        assert(num * s <= 0) by (nonlinear_arith)
            requires
                num <= 0,
                s > 0,
        ;
        lemma_div_is_ordered(num * s, 0, den);
    }
    if num >= den {
        assert(den * s <= num * s) by (nonlinear_arith)
            requires
                num >= den,
                s > 0,
        ;
        lemma_div_is_ordered(den * s, num * s, den);
    }
    if 0 <= num <= den {
        assert(0 <= num * s <= den * s) by (nonlinear_arith)
            requires
                0 <= num <= den,
                s > 0,
        ;
        lemma_div_is_ordered(0, num * s, den);
        lemma_div_is_ordered(num * s, den * s, den);
    }
}

/// Maps a raw reading of a parameter into its risk coordinate.
pub fn compute_risk_coord(param: &Parameter, rc_def: &RiskCoordinateDef, x: i64) -> (c: RiskCoord)
    requires
        rc_def.r_max > rc_def.r_min,
        0 <= rc_def.weight_w <= MAX_WEIGHT,
    ensures
        c.r as int == normalized(
            param.direction_max,
            rc_def.r_min as int,
            rc_def.r_max as int,
            x as int,
        ),
        c.w == rc_def.weight_w,
        in_unit_interval(c.r as int),
        c.wf(),
{
    let denom: i128 = rc_def.r_max as i128 - rc_def.r_min as i128;
    let num: i128 = if param.direction_max {
        x as i128 - rc_def.r_min as i128
    } else {
        rc_def.r_max as i128 - x as i128
    };
    proof {
        lemma_scaled_quotient_bounds(num as int, denom as int);
    }
    let r: i64 = if num <= 0 {
        0
    } else if num >= denom {
        SCALE
    } else {
        let scaled: i128 = num * (SCALE as i128);
        (scaled / denom) as i64
    };
    RiskCoord { r, w: rc_def.weight_w }
}

/// Taking one more item adds that item's term to the residual.
proof fn lemma_residual_sum_step(coords: Seq<RiskCoord>, i: int)
    requires
        0 <= i < coords.len(),
    ensures
        residual_sum(coords.take(i + 1)) == residual_sum(coords.take(i)) + coords[i].term(),
{
    assert(coords.take(i + 1).drop_last() =~= coords.take(i));
    assert(coords.take(i + 1).last() == coords[i]);
}

/// A well-formed coordinate contributes between 0 and `SCALE * MAX_WEIGHT`.
proof fn lemma_term_bounds(c: RiskCoord)
    requires
        c.wf(),
    ensures
        0 <= c.term() <= SCALE as int * MAX_WEIGHT as int,
{
    assert(0 <= c.r as int * c.w as int <= SCALE as int * MAX_WEIGHT as int) by (nonlinear_arith)
        requires
            0 <= c.r as int <= SCALE as int,
            0 <= c.w as int <= MAX_WEIGHT as int,
    ;
}

/// Aggregates a non-empty coordinate set into its residual, summing in input order.
pub fn compute_residual(coords: &[RiskCoord]) -> (s: ResidualState)
    requires
        coords@.len() > 0,
        all_wf(coords@),
    ensures
        s.coords@ == coords@,
        s.v as int == residual_sum(coords@),
        s.wf(),
{
    let mut v: i128 = 0;
    let mut kept: Vec<RiskCoord> = Vec::new();
    let mut i: usize = 0;
    while i < coords.len()
        invariant
            0 <= i <= coords@.len(),
            all_wf(coords@),
            kept@ == coords@.take(i as int),
            v as int == residual_sum(coords@.take(i as int)),
            0 <= v as int <= i as int * (SCALE as int * MAX_WEIGHT as int),
        decreases coords@.len() - i,
    {
        let c: RiskCoord = coords[i];
        proof {
            lemma_residual_sum_step(coords@, i as int);
            lemma_term_bounds(c);
            assert((i as int + 1) * (SCALE as int * MAX_WEIGHT as int) == i as int * (SCALE as int
                * MAX_WEIGHT as int) + SCALE as int * MAX_WEIGHT as int) by (nonlinear_arith);
            assert(i as int * (SCALE as int * MAX_WEIGHT as int) <= 0xffff_ffff_ffff_ffff
                * 1_000_000_000_000_000_000) by (nonlinear_arith)
                requires
                    0 <= i as int <= 0xffff_ffff_ffff_ffff,
                    SCALE as int * MAX_WEIGHT as int == 1_000_000_000_000_000_000,
            ;
        }
        let term: i128 = (c.r as i128) * (c.w as i128);
        v = v + term;
        kept.push(c);
        assert(kept@ =~= coords@.take(i as int + 1));
        i += 1;
    }
    assert(coords@.take(coords@.len() as int) =~= coords@);
    ResidualState { coords: kept, v }
}

/// The trend check with tolerance: the residual grew by at most `eps`.
pub open spec fn residual_within_tolerance(v_prev: int, v_next: int, eps: int) -> bool {
    v_next <= v_prev + eps
}

/// The strict trend check: the residual did not grow at all.
pub open spec fn residual_did_not_worsen_strict(v_prev: int, v_next: int) -> bool {
    v_next <= v_prev
}

/// Whether the step from `v_prev` to `v_next` stays within the tolerance `eps`.
pub fn is_admissible(v_prev: i128, v_next: i128, eps: i128) -> (b: bool)
    ensures
        b == residual_within_tolerance(v_prev as int, v_next as int, eps as int),
{
    match v_prev.checked_add(eps) {
        Some(bound) => v_next <= bound,
        // The bound lies outside the 128-bit range: above it when `eps` is
        // positive, below it otherwise.
        None => eps > 0,
    }
}

/// Removing the item at `k` lowers the residual by that item's term.
proof fn lemma_residual_sum_remove(s: Seq<RiskCoord>, k: int)
    requires
        0 <= k < s.len(),
    ensures
        residual_sum(s) == residual_sum(s.remove(k)) + s[k].term(),
    decreases s.len(),
{
    if k == s.len() - 1 {
        assert(s.remove(k) =~= s.drop_last());
    } else {
        lemma_residual_sum_remove(s.drop_last(), k);
        assert(s.remove(k).drop_last() =~= s.drop_last().remove(k));
        assert(s.remove(k).last() == s.last());
    }
}

/// The residual does not depend on the order of the coordinates: two
/// sequences that hold the same items the same number of times have the
/// same residual.
pub proof fn lemma_residual_order_independent(a: Seq<RiskCoord>, b: Seq<RiskCoord>)
    requires
        a.to_multiset() == b.to_multiset(),
    ensures
        residual_sum(a) == residual_sum(b),
    decreases a.len(),
{
    to_multiset_len(a);
    to_multiset_len(b);
    if a.len() > 0 {
        let k = a.len() - 1;
        let x = a[k];
        a.to_multiset_ensures();
        b.to_multiset_ensures();
        assert(a.contains(x));
        assert(b.to_multiset().count(x) > 0);
        assert(b.contains(x));
        let j = choose|j: int| 0 <= j < b.len() && b[j] == x;
        to_multiset_remove(a, k);
        to_multiset_remove(b, j);
        lemma_residual_order_independent(a.remove(k), b.remove(j));
        lemma_residual_sum_remove(a, k);
        lemma_residual_sum_remove(b, j);
    }
}

/// The residual is monotone in every coordinate: raising coordinates while
/// the weights stay the same, and non-negative, never lowers it.
pub proof fn lemma_residual_monotone(a: Seq<RiskCoord>, b: Seq<RiskCoord>)
    requires
        a.len() == b.len(),
        forall|i: int| 0 <= i < a.len() ==> (#[trigger] a[i]).w == b[i].w && a[i].w >= 0,
        forall|i: int| 0 <= i < a.len() ==> (#[trigger] a[i]).r <= b[i].r,
    ensures
        residual_sum(a) <= residual_sum(b),
    decreases a.len(),
{
    if a.len() > 0 {
        let k = a.len() - 1;
        assert forall|i: int| 0 <= i < a.drop_last().len() implies (#[trigger] a.drop_last()[i]).w
            == b.drop_last()[i].w && a.drop_last()[i].w >= 0 by {
            assert(a.drop_last()[i] == a[i]);
            assert(b.drop_last()[i] == b[i]);
        }
        assert forall|i: int| 0 <= i < a.drop_last().len() implies (#[trigger] a.drop_last()[i]).r
            <= b.drop_last()[i].r by {
            assert(a.drop_last()[i] == a[i]);
            assert(b.drop_last()[i] == b[i]);
        }
        lemma_residual_monotone(a.drop_last(), b.drop_last());
        assert(a[k].w == b[k].w && a[k].w >= 0);
        assert(a[k].r <= b[k].r);
        assert(a[k].r as int * a[k].w as int <= b[k].r as int * b[k].w as int) by (nonlinear_arith)
            requires
                a[k].r as int <= b[k].r as int,
                a[k].w as int == b[k].w as int,
                a[k].w as int >= 0,
        ;
    }
}

/// The raw coordinate follows the reading: it never falls when the reading
/// rises on a parameter where higher is worse, and never rises when the
/// reading rises on a parameter where lower is worse.
pub proof fn lemma_raw_coord_monotone(direction_max: bool, r_min: int, r_max: int, x: int, y: int)
    requires
        r_min < r_max,
        x <= y,
    ensures
        direction_max ==> raw_coord(direction_max, r_min, r_max, x) <= raw_coord(
            direction_max,
            r_min,
            r_max,
            y,
        ),
        !direction_max ==> raw_coord(direction_max, r_min, r_max, y) <= raw_coord(
            direction_max,
            r_min,
            r_max,
            x,
        ),
{
    let s = SCALE as int;
    let d = r_max - r_min;
    assert((x - r_min) * s <= (y - r_min) * s) by (nonlinear_arith)
        requires
            x <= y,
            s > 0,
    ;
    assert((r_max - y) * s <= (r_max - x) * s) by (nonlinear_arith)
        requires
            x <= y,
            s > 0,
    ;
    lemma_div_is_ordered((x - r_min) * s, (y - r_min) * s, d);
    lemma_div_is_ordered((r_max - y) * s, (r_max - x) * s, d);
}

/// Raising the raw value of one coordinate, all others held fixed, never
/// lowers the residual.
pub proof fn lemma_residual_monotone_in_raw(
    coords: Seq<RiskCoord>,
    k: int,
    raw_low: int,
    raw_high: int,
)
    requires
        0 <= k < coords.len(),
        forall|i: int| 0 <= i < coords.len() ==> (#[trigger] coords[i]).w >= 0,
        raw_low <= raw_high,
    ensures
        residual_sum(
            coords.update(k, RiskCoord { r: clip01_spec(raw_low) as i64, w: coords[k].w }),
        ) <= residual_sum(
            coords.update(k, RiskCoord { r: clip01_spec(raw_high) as i64, w: coords[k].w }),
        ),
{
    crate::fixed::lemma_clip01_monotone(raw_low, raw_high);
    crate::fixed::lemma_clip01_monotone(raw_high, raw_high);
    let a = coords.update(k, RiskCoord { r: clip01_spec(raw_low) as i64, w: coords[k].w });
    let b = coords.update(k, RiskCoord { r: clip01_spec(raw_high) as i64, w: coords[k].w });
    assert forall|i: int| 0 <= i < a.len() implies (#[trigger] a[i]).w == b[i].w && a[i].w
        >= 0 by {
        assert(coords[i].w >= 0);
    }
    assert forall|i: int| 0 <= i < a.len() implies (#[trigger] a[i]).r <= b[i].r by {}
    lemma_residual_monotone(a, b);
}

} // verus!
