//! The lifecycle comparison gate: baseline against candidate system.

use vstd::prelude::*;
use vstd::string::StringExecFns;
use crate::types::LcaScenario;

verus! {

/// Why two scenarios cannot be compared.
#[derive(Clone, Copy, Debug, PartialEq, Eq)]
pub enum LcaMismatch {
    /// The scenarios belong to different regions.
    Region,
    /// The scenarios use different functional units.
    FunctionalUnit,
    /// The first scenario is not tagged as the baseline.
    BaselineMode,
    /// The second scenario is not tagged as the candidate system.
    CandidateMode,
}

/// The first reason, in checking order, why `base` and `cybo` cannot be
/// compared, or `None` when they can.
pub open spec fn mismatch_spec(base: LcaScenario, cybo: LcaScenario) -> Option<LcaMismatch> {
    if base.region_id@ != cybo.region_id@ {
        Some(LcaMismatch::Region)
    } else if base.functional_unit@ != cybo.functional_unit@ {
        Some(LcaMismatch::FunctionalUnit)
    } else if base.mode@ != "STATUS_QUO"@ {
        Some(LcaMismatch::BaselineMode)
    } else if cybo.mode@ != "CYBOCINDER"@ {
        Some(LcaMismatch::CandidateMode)
    } else {
        None
    }
}

/// The scenarios share region and functional unit, the first is the
/// baseline and the second the candidate system.
pub open spec fn comparable(base: LcaScenario, cybo: LcaScenario) -> bool {
    mismatch_spec(base, cybo) is None
}

/// Checks that two scenarios can be compared, naming the first mismatch otherwise.
pub fn check_comparable(base: &LcaScenario, cybo: &LcaScenario) -> (r: Result<(), LcaMismatch>)
    ensures
        r is Ok <==> comparable(*base, *cybo),
        r is Err ==> mismatch_spec(*base, *cybo) == Some(r->Err_0),
        base.region_id@ != cybo.region_id@ ==> r == Err::<(), LcaMismatch>(LcaMismatch::Region),
{
    let baseline_tag: String = String::from_str("STATUS_QUO");
    let candidate_tag: String = String::from_str("CYBOCINDER");
    if base.region_id != cybo.region_id {
        Err(LcaMismatch::Region)
    } else if base.functional_unit != cybo.functional_unit {
        Err(LcaMismatch::FunctionalUnit)
    } else if base.mode != baseline_tag {
        Err(LcaMismatch::BaselineMode)
    } else if cybo.mode != candidate_tag {
        Err(LcaMismatch::CandidateMode)
    } else {
        Ok(())
    }
}

/// Whether the candidate system beats the baseline on the greenhouse-gas metric.
pub fn lca_ok(base: &LcaScenario, cybo: &LcaScenario) -> (b: bool)
    requires
        comparable(*base, *cybo),
    ensures
        b == (cybo.gwp_kg_co2eq < base.gwp_kg_co2eq),
{
    cybo.gwp_kg_co2eq < base.gwp_kg_co2eq
}

} // verus!
