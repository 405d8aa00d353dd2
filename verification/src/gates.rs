//! The cascade of gates: safety, scale-up and deployment.

use vstd::prelude::*;
use crate::lyapunov::{is_admissible, residual_within_tolerance};

verus! {

/// Per-tick corridor flags, computed by the caller.
#[derive(Clone, Copy, Debug, PartialEq, Eq)]
pub struct ResidualFlags {
    /// No coordinate exceeds its hard limit.
    pub corridor_ok: bool,
    /// No coordinate exceeds its legal limit.
    pub legal_ok: bool,
    /// Every coordinate lies within its gold band.
    pub gold_ok: bool,
}

/// The three gates of one evaluation.
#[derive(Clone, Copy, Debug, PartialEq, Eq)]
pub struct GateResult {
    pub safety_gate: bool,
    pub scaleup_gate: bool,
    pub deployment_gate: bool,
}

/// The safety gate: both corridor flags hold and the residual stays within tolerance.
pub open spec fn safety_gate_spec(flags: ResidualFlags, v_prev: int, v_next: int, eps: int) -> bool {
    flags.corridor_ok && flags.legal_ok && residual_within_tolerance(v_prev, v_next, eps)
}

/// The gates as a function of their inputs.
pub open spec fn gates_spec(
    flags: ResidualFlags,
    v_prev: int,
    v_next: int,
    eps: int,
    lca_ok: bool,
    pilot_gates_ok: bool,
) -> GateResult {
    GateResult {
        safety_gate: safety_gate_spec(flags, v_prev, v_next, eps),
        scaleup_gate: safety_gate_spec(flags, v_prev, v_next, eps) && flags.gold_ok && lca_ok,
        deployment_gate: lca_ok && pilot_gates_ok,
    }
}

/// Computes the three gates. Scale-up presupposes safety; deployment depends
/// on the lifecycle comparison and pilot readiness alone.
pub fn compute_gates(
    flags: &ResidualFlags,
    v_prev: i128,
    v_next: i128,
    eps: i128,
    lca_ok: bool,
    pilot_gates_ok: bool,
) -> (g: GateResult)
    ensures
        g == gates_spec(*flags, v_prev as int, v_next as int, eps as int, lca_ok, pilot_gates_ok),
        g.scaleup_gate ==> g.safety_gate,
{
    let safety: bool = flags.corridor_ok && flags.legal_ok && is_admissible(v_prev, v_next, eps);
    let scaleup: bool = safety && flags.gold_ok && lca_ok;
    let deploy: bool = lca_ok && pilot_gates_ok;
    GateResult { safety_gate: safety, scaleup_gate: scaleup, deployment_gate: deploy }
}

} // verus!
