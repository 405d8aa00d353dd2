//! The node duty-cycle controller: unit conversion, mass removed,
//! hazard-weighted impact and the saturating duty-cycle update.
//!
//! Concentrations, airflow (m^3/s), period (s), temperature (K), molar mass
//! (kg/mol), gains, weights and duty cycles are scaled values. Mass is held
//! in scaled nanograms, the hazard weight per mass in NanoKarmaBytes per
//! nanogram, and the impact in scaled NanoKarmaBytes.

use vstd::prelude::*;
use vstd::string::StringExecFns;
use crate::fixed::{
    checked_mul_div, checked_product3, checked_product4, clip01, clip01_spec, div_floor,
    in_unit_interval, lemma_quotient_representable, mul_scaled, mul_scaled_i64, representable,
    SCALE,
};
use crate::karma_linker::{first_bad_number, texts};
use crate::text::{contains_text, has_substring, same_text};

verus! {

/// One measurement row of a device.
#[derive(Clone, Debug)]
pub struct CyboAirRow {
    pub machineid: String,
    pub rtype: String,
    pub location: String,
    pub pollutant: String,
    /// Inlet concentration, in `unit`.
    pub cin: i64,
    /// Outlet concentration, in `unit`.
    pub cout: i64,
    pub unit: String,
    pub airflow_m3_per_s: i64,
    pub period_s: i64,
    /// Hazard coefficient of the pollutant.
    pub lambda_hazard: i64,
    /// NanoKarmaBytes per nanogram removed.
    pub beta_nb_per_ng: i64,
    pub ecoimpact_score: i64,
    pub notes: String,
}

/// The state of one device: its current row, what the last update derived
/// from it, and the duty cycle that persists across ticks.
#[derive(Clone, Debug)]
pub struct NodeState {
    pub row: CyboAirRow,
    /// Mass removed over the period, in scaled nanograms.
    pub mass_ng: i128,
    /// Hazard-weighted impact, in scaled NanoKarmaBytes.
    pub karma_bytes: i128,
    pub duty_cycle: i64,
    /// The geospatial priority weight used by the last update.
    pub w_geo: i64,
    /// The normalized power cost used by the last update.
    pub c_power: i64,
}

/// The factor from a concentration unit to kg/m^3, as the exact fraction
/// `num / den`.
#[derive(Clone, Copy, Debug, PartialEq, Eq)]
pub struct UnitFactor {
    pub num: i128,
    pub den: i128,
    /// `false` for a unit the engine does not know; the factor is then 0.
    pub recognized: bool,
}

/// Whether the concentration unit of a row was known to the engine.
#[derive(Clone, Copy, Debug, PartialEq, Eq)]
pub enum UnitStatus {
    Recognized,
    /// The unit is unknown: the mass removed was taken as zero.
    Unrecognized,
}

/// The update needs a value outside the 128-bit range the engine computes in.
#[derive(Clone, Copy, Debug, PartialEq, Eq)]
pub enum RangeError {
    OutOfRange,
}

/// The universal gas constant, 8.3145 J/(mol K), in ten-thousandths.
pub const GAS_CONSTANT_E4: i128 = 83_145;

/// A spelling of micrograms per cubic metre.
pub open spec fn is_microgram_unit(unit: Seq<char>) -> bool {
    unit == "ugm3"@ || unit == "µg/m3"@ || unit == "ug/m3"@
}

/// A spelling of milligrams per cubic metre.
pub open spec fn is_milligram_unit(unit: Seq<char>) -> bool {
    unit == "mgm3"@ || unit == "mg/m3"@
}

/// Parts per billion by volume.
pub open spec fn is_ppb_unit(unit: Seq<char>) -> bool {
    unit == "ppb"@
}

/// The unit is one the engine converts.
pub open spec fn unit_recognized(unit: Seq<char>) -> bool {
    is_microgram_unit(unit) || is_milligram_unit(unit) || is_ppb_unit(unit)
}

/// Numerator of the factor to kg/m^3. Mass concentrations have the fixed
/// factors 1e-9 and 1e-6; parts per billion follow the ideal-gas relation
/// `molar_mass / (R * T) * 1e-9`; an unknown unit has factor 0.
pub open spec fn factor_num(unit: Seq<char>, molar_mass: int) -> int {
    if is_microgram_unit(unit) || is_milligram_unit(unit) {
        1
    } else if is_ppb_unit(unit) {
        molar_mass * 10_000
    } else {
        0
    }
}

/// Denominator of the factor to kg/m^3.
pub open spec fn factor_den(unit: Seq<char>, temperature: int) -> int {
    if is_microgram_unit(unit) {
        1_000_000_000
    } else if is_milligram_unit(unit) {
        1_000_000
    } else if is_ppb_unit(unit) {
        GAS_CONSTANT_E4 as int * temperature * 1_000_000_000
    } else {
        1
    }
}

/// The factor from a concentration unit to kg/m^3, at the given
/// temperature and molar mass.
pub fn unit_to_kg_factor(unit: &str, temperature_k: i64, molar_mass_kg_per_mol: i64) -> (f:
    UnitFactor)
    requires
        temperature_k > 0,
    ensures
        f.num as int == factor_num(unit@, molar_mass_kg_per_mol as int),
        f.den as int == factor_den(unit@, temperature_k as int),
        f.recognized == unit_recognized(unit@),
        f.den > 0,
{
    if same_text(unit, "ugm3") || same_text(unit, "µg/m3") || same_text(unit, "ug/m3") {
        UnitFactor { num: 1, den: 1_000_000_000, recognized: true }
    } else if same_text(unit, "mgm3") || same_text(unit, "mg/m3") {
        UnitFactor { num: 1, den: 1_000_000, recognized: true }
    } else if same_text(unit, "ppb") {
        let rt: i128 = GAS_CONSTANT_E4 * (temperature_k as i128);
        UnitFactor {
            num: (molar_mass_kg_per_mol as i128) * 10_000,
            den: rt * 1_000_000_000,
            recognized: true,
        }
    } else {
        UnitFactor { num: 0, den: 1, recognized: false }
    }
}

/// The concentration removed between inlet and outlet; a negative
/// difference counts as zero.
pub open spec fn concentration_drop(cin: int, cout: int) -> int {
    if cin > cout {
        cin - cout
    } else {
        0
    }
}

/// Mass removed, in scaled nanograms: drop x factor x airflow x period,
/// rounded down once; `None` where the product is not representable.
pub open spec fn mass_removed_spec(
    cin: int,
    cout: int,
    airflow: int,
    period: int,
    num: int,
    den: int,
) -> Option<i128> {
    let p = concentration_drop(cin, cout) * airflow * period * num;
    if representable(p) {
        Some((p / den) as i128)
    } else {
        None
    }
}

/// Mass removed by a device over one period, in scaled nanograms.
pub fn mass_removed(cin: i64, cout: i64, factor: &UnitFactor, airflow: i64, period: i64) -> (m:
    Option<i128>)
    requires
        factor.den > 0,
    ensures
        m == mass_removed_spec(
            cin as int,
            cout as int,
            airflow as int,
            period as int,
            factor.num as int,
            factor.den as int,
        ),
        m is Some ==> representable(m->Some_0 as int),
{
    let drop: i128 = if cin > cout {
        cin as i128 - cout as i128
    } else {
        0
    };
    match checked_product4(drop, airflow as i128, period as i128, factor.num) {
        None => None,
        Some(p) => {
            proof {
                lemma_quotient_representable(p as int, factor.den as int);
            }
            Some(div_floor(p, factor.den))
        },
    }
}

/// Hazard-weighted impact, in scaled NanoKarmaBytes: hazard coefficient x
/// hazard weight per mass x mass, rounded down once; `None` where the
/// product is not representable.
pub open spec fn karma_spec(lambda: int, beta: int, mass: int) -> Option<i128> {
    let p = lambda * beta * mass;
    if representable(p) {
        Some((p / (SCALE as int * SCALE as int)) as i128)
    } else {
        None
    }
}

/// Hazard-weighted impact of a removed mass.
pub fn karma(lambda_hazard: i64, beta_nb_per_ng: i64, mass_ng: i128) -> (k: Option<i128>)
    ensures
        k == karma_spec(lambda_hazard as int, beta_nb_per_ng as int, mass_ng as int),
        k is Some ==> representable(k->Some_0 as int),
{
    match checked_product3(lambda_hazard as i128, beta_nb_per_ng as i128, mass_ng) {
        None => None,
        Some(p) => {
            let d: i128 = (SCALE as i128) * (SCALE as i128);
            proof {
                lemma_quotient_representable(p as int, d as int);
            }
            Some(div_floor(p, d))
        },
    }
}

/// One ratio term of the control law, `gain * x / reference`; a reference
/// that is not positive switches the term off. `None` where the product is
/// not representable.
pub open spec fn ratio_term(gain: int, x: int, reference: int) -> Option<i128> {
    if reference > 0 {
        if representable(gain * x) {
            Some(((gain * x) / reference) as i128)
        } else {
            None
        }
    } else {
        Some(0i128)
    }
}

/// The next duty cycle: the previous one plus the mass and impact terms and
/// the priority term, minus the power-cost term, clamped to `[0, 1]`.
pub open spec fn next_duty_cycle_spec(
    u_prev: int,
    mass: int,
    m_ref: int,
    karma: int,
    k_ref: int,
    w_i: int,
    c_power_i: int,
    eta1: int,
    eta2: int,
    eta3: int,
    eta4: int,
) -> Option<i64> {
    match (ratio_term(eta1, mass, m_ref), ratio_term(eta2, karma, k_ref)) {
        (Some(t1), Some(t2)) => Some(
            clip01_spec(u_prev + t1 + t2 + mul_scaled(eta3, w_i) - mul_scaled(eta4, c_power_i)) as i64,
        ),
        _ => None,
    }
}

/// Computes one ratio term.
fn ratio(gain: i64, x: i128, reference: i64) -> (t: Option<i128>)
    ensures
        t == ratio_term(gain as int, x as int, reference as int),
        t is Some ==> representable(t->Some_0 as int),
{
    if reference > 0 {
        checked_mul_div(gain as i128, x, reference as i128)
    } else {
        Some(0)
    }
}

/// `clip01(base + t1 + t2)` for a moderate `base` and any representable
/// `t1` and `t2`: where a partial sum leaves the 128-bit range, the total
/// lies far outside the unit interval on the side of that partial sum.
fn clipped_total(base: i128, t1: i128, t2: i128) -> (u: i64)
    requires
        -0x1_0000_0000_0000_0000_0000_0000_0000 <= base <= 0x1_0000_0000_0000_0000_0000_0000_0000,
        representable(t1 as int),
        representable(t2 as int),
    ensures
        u as int == clip01_spec(base as int + t1 as int + t2 as int),
{
    match t1.checked_add(t2) {
        None => if t1 > 0 {
            SCALE
        } else {
            0
        },
        Some(s) => match s.checked_add(base) {
            None => if s > 0 {
                SCALE
            } else {
                0
            },
            Some(total) => clip01(total),
        },
    }
}

/// The saturating duty-cycle update.
pub fn next_duty_cycle(
    u_prev: i64,
    mass: i128,
    m_ref: i64,
    karma: i128,
    k_ref: i64,
    w_i: i64,
    c_power_i: i64,
    eta1: i64,
    eta2: i64,
    eta3: i64,
    eta4: i64,
) -> (u: Option<i64>)
    ensures
        u == next_duty_cycle_spec(
            u_prev as int,
            mass as int,
            m_ref as int,
            karma as int,
            k_ref as int,
            w_i as int,
            c_power_i as int,
            eta1 as int,
            eta2 as int,
            eta3 as int,
            eta4 as int,
        ),
        u is Some ==> in_unit_interval(u->Some_0 as int),
{
    let t1: i128 = match ratio(eta1, mass, m_ref) {
        Some(t) => t,
        None => {
            return None;
        },
    };
    let t2: i128 = match ratio(eta2, karma, k_ref) {
        Some(t) => t,
        None => {
            return None;
        },
    };
    let t3: i128 = mul_scaled_i64(eta3, w_i);
    let t4: i128 = mul_scaled_i64(eta4, c_power_i);
    let base: i128 = (u_prev as i128) + t3 - t4;
    Some(clipped_total(base, t1, t2))
}

/// The status that goes with a unit.
pub open spec fn unit_status(unit: Seq<char>) -> UnitStatus {
    if unit_recognized(unit) {
        UnitStatus::Recognized
    } else {
        UnitStatus::Unrecognized
    }
}

/// The node after one update, or `None` where the update is out of range.
/// Mass comes first, the impact follows from the mass, and the duty cycle
/// from both.
pub open spec fn updated_node(
    node: NodeState,
    temperature_k: int,
    molar_mass: int,
    m_ref: int,
    k_ref: int,
    w_i: i64,
    c_power_i: i64,
    eta1: int,
    eta2: int,
    eta3: int,
    eta4: int,
) -> Option<NodeState> {
    let row = node.row;
    match mass_removed_spec(
        row.cin as int,
        row.cout as int,
        row.airflow_m3_per_s as int,
        row.period_s as int,
        factor_num(row.unit@, molar_mass),
        factor_den(row.unit@, temperature_k),
    ) {
        None => None,
        Some(mass) => match karma_spec(
            row.lambda_hazard as int,
            row.beta_nb_per_ng as int,
            mass as int,
        ) {
            None => None,
            Some(karma) => match next_duty_cycle_spec(
                node.duty_cycle as int,
                mass as int,
                m_ref,
                karma as int,
                k_ref,
                w_i as int,
                c_power_i as int,
                eta1,
                eta2,
                eta3,
                eta4,
            ) {
                None => None,
                Some(u) => Some(
                    NodeState {
                        row: node.row,
                        mass_ng: mass,
                        karma_bytes: karma,
                        duty_cycle: u,
                        w_geo: w_i,
                        c_power: c_power_i,
                    },
                ),
            },
        },
    }
}

/// Updates one node for one tick: mass removed, impact and duty cycle. On
/// an out-of-range update the node is left as it was. The result tells
/// whether the row's concentration unit was known; an unknown unit counts
/// as zero mass.
pub fn update_node(
    node: &mut NodeState,
    temperature_k: i64,
    molar_mass_kg_per_mol: i64,
    m_ref: i64,
    k_ref: i64,
    w_i: i64,
    c_power_i: i64,
    eta1: i64,
    eta2: i64,
    eta3: i64,
    eta4: i64,
) -> (r: Result<UnitStatus, RangeError>)
    requires
        temperature_k > 0,
    ensures
        match r {
            Ok(status) => {
                &&& updated_node(
                    *old(node),
                    temperature_k as int,
                    molar_mass_kg_per_mol as int,
                    m_ref as int,
                    k_ref as int,
                    w_i,
                    c_power_i,
                    eta1 as int,
                    eta2 as int,
                    eta3 as int,
                    eta4 as int,
                ) == Some(*final(node))
                &&& status == unit_status(old(node).row.unit@)
                &&& in_unit_interval(final(node).duty_cycle as int)
            },
            Err(_) => {
                &&& updated_node(
                    *old(node),
                    temperature_k as int,
                    molar_mass_kg_per_mol as int,
                    m_ref as int,
                    k_ref as int,
                    w_i,
                    c_power_i,
                    eta1 as int,
                    eta2 as int,
                    eta3 as int,
                    eta4 as int,
                ) is None
                &&& *final(node) == *old(node)
            },
        },
{
    let factor: UnitFactor = unit_to_kg_factor(
        node.row.unit.as_str(),
        temperature_k,
        molar_mass_kg_per_mol,
    );
    let mass: i128 = match mass_removed(
        node.row.cin,
        node.row.cout,
        &factor,
        node.row.airflow_m3_per_s,
        node.row.period_s,
    ) {
        Some(m) => m,
        None => {
            return Err(RangeError::OutOfRange);
        },
    };
    let impact: i128 = match karma(node.row.lambda_hazard, node.row.beta_nb_per_ng, mass) {
        Some(k) => k,
        None => {
            return Err(RangeError::OutOfRange);
        },
    };
    let u: i64 = match next_duty_cycle(
        node.duty_cycle,
        mass,
        m_ref,
        impact,
        k_ref,
        w_i,
        c_power_i,
        eta1,
        eta2,
        eta3,
        eta4,
    ) {
        Some(u) => u,
        None => {
            return Err(RangeError::OutOfRange);
        },
    };
    node.mass_ng = mass;
    node.karma_bytes = impact;
    node.duty_cycle = u;
    node.w_geo = w_i;
    node.c_power = c_power_i;
    if factor.recognized {
        Ok(UnitStatus::Recognized)
    } else {
        Ok(UnitStatus::Unrecognized)
    }
}

/// The duty cycle never leaves the unit interval, whatever the inputs.
pub proof fn lemma_duty_cycle_saturates(
    u_prev: int,
    mass: int,
    m_ref: int,
    karma: int,
    k_ref: int,
    w_i: int,
    c_power_i: int,
    eta1: int,
    eta2: int,
    eta3: int,
    eta4: int,
)
    ensures
        match next_duty_cycle_spec(
            u_prev,
            mass,
            m_ref,
            karma,
            k_ref,
            w_i,
            c_power_i,
            eta1,
            eta2,
            eta3,
            eta4,
        ) {
            Some(u) => in_unit_interval(u as int),
            None => true,
        },
{
}

/// With zero mass, zero impact, zero priority weight and zero power cost, a
/// duty cycle in the unit interval stays exactly where it is, whatever the
/// gains and reference scales.
pub proof fn lemma_duty_cycle_fixed_point(
    u_prev: i64,
    m_ref: int,
    k_ref: int,
    eta1: int,
    eta2: int,
    eta3: int,
    eta4: int,
)
    requires
        in_unit_interval(u_prev as int),
    ensures
        next_duty_cycle_spec(u_prev as int, 0, m_ref, 0, k_ref, 0, 0, eta1, eta2, eta3, eta4)
            == Some(u_prev),
{
    assert(eta1 * 0 == 0) by (nonlinear_arith);
    assert(eta2 * 0 == 0) by (nonlinear_arith);
    assert(eta3 * 0 == 0) by (nonlinear_arith);
    assert(eta4 * 0 == 0) by (nonlinear_arith);
    assert(mul_scaled(eta3, 0) == 0);
    assert(mul_scaled(eta4, 0) == 0);
    if m_ref > 0 {
        assert(0int / m_ref == 0) by (nonlinear_arith)
            requires
                m_ref > 0,
        ;
    }
    if k_ref > 0 {
        assert(0int / k_ref == 0) by (nonlinear_arith)
            requires
                k_ref > 0,
        ;
    }
    assert(ratio_term(eta1, 0, m_ref) == Some(0i128));
    assert(ratio_term(eta2, 0, k_ref) == Some(0i128));
}

/// The geospatial priority weight of a location tag: schools first, then
/// intersections and bus routes, then canals and farms, then the rest.
pub open spec fn w_geo_spec(location: Seq<char>) -> int {
    if has_substring(location, "School"@) {
        1_000_000
    } else if has_substring(location, "Intersection"@) || has_substring(location, "BusRoute"@) {
        800_000
    } else if has_substring(location, "Canal"@) || has_substring(location, "Farm"@) {
        700_000
    } else {
        500_000
    }
}

/// Classifies a location tag into its geospatial priority weight.
pub fn compute_w_geo(location: &str) -> (w: i64)
    ensures
        w as int == w_geo_spec(location@),
        w == 500_000 || w == 700_000 || w == 800_000 || w == 1_000_000,
{
    if contains_text(location, "School") {
        1_000_000
    } else if contains_text(location, "Intersection") || contains_text(location, "BusRoute") {
        800_000
    } else if contains_text(location, "Canal") || contains_text(location, "Farm") {
        700_000
    } else {
        500_000
    }
}

/// The power cost charged where no telemetry is at hand: 0.3.
pub const DEFAULT_POWER_COST: i64 = 300_000;

/// A power cost that grows with the airflow of the machine: a third of the
/// airflow in m^3/s, and at most 1.
pub open spec fn power_cost_spec(airflow: int) -> int {
    if airflow / 3 < SCALE as int {
        airflow / 3
    } else {
        SCALE as int
    }
}

/// The normalized power cost of a machine, derived from its airflow.
pub fn power_cost_from_airflow(airflow_m3_per_s: i64) -> (c: i64)
    ensures
        c as int == power_cost_spec(airflow_m3_per_s as int),
        c <= SCALE,
{
    let third: i128 = div_floor(airflow_m3_per_s as i128, 3);
    if third < SCALE as i128 {
        third as i64
    } else {
        SCALE
    }
}

/// The number of fields that a measurement row must hold at least.
pub const ROW_FIELDS: usize = 13;

/// `row` is the measurement row that the fields and their parsed numbers
/// describe.
pub open spec fn is_row_of(
    row: CyboAirRow,
    fields: Seq<Seq<char>>,
    numbers: Seq<Result<i64, String>>,
) -> bool {
    &&& row.machineid@ == fields[0]
    &&& row.rtype@ == fields[1]
    &&& row.location@ == fields[2]
    &&& row.pollutant@ == fields[3]
    &&& numbers[0] == Ok::<i64, String>(row.cin)
    &&& numbers[1] == Ok::<i64, String>(row.cout)
    &&& row.unit@ == fields[6]
    &&& numbers[2] == Ok::<i64, String>(row.airflow_m3_per_s)
    &&& numbers[3] == Ok::<i64, String>(row.period_s)
    &&& numbers[4] == Ok::<i64, String>(row.lambda_hazard)
    &&& numbers[5] == Ok::<i64, String>(row.beta_nb_per_ng)
    &&& numbers[6] == Ok::<i64, String>(row.ecoimpact_score)
    &&& row.notes@ == fields[12]
}

/// What reading a measurement row gives: an error text where the row is
/// short or a number is bad, the first bad number deciding, else the row.
pub open spec fn row_reading_ok(
    r: Result<CyboAirRow, String>,
    fields: Seq<Seq<char>>,
    numbers: Seq<Result<i64, String>>,
) -> bool {
    if fields.len() < ROW_FIELDS {
        r matches Err(m) && m@ == "Not enough columns in CyboAir row"@
    } else {
        match first_bad_number(numbers, 0) {
            Some(k) => r matches Err(m) && m@ == numbers[k]->Err_0@,
            None => r matches Ok(row) && is_row_of(row, fields, numbers),
        }
    }
}

/// Builds a measurement row from the fields of its line. `numbers` holds
/// what the seven number columns (fields 4, 5 and 7 to 11) parsed to, each
/// a scaled value or the reason why it is no number.
pub fn row_from_fields(parts: &Vec<String>, numbers: &[Result<i64, String>; 7]) -> (r: Result<
    CyboAirRow,
    String,
>)
    ensures
        row_reading_ok(r, texts(parts@), numbers@),
{
    if parts.len() < ROW_FIELDS {
        return Err(String::from_str("Not enough columns in CyboAir row"));
    }
    let mut values: Vec<i64> = Vec::new();
    let mut k: usize = 0;
    while k < 7
        invariant
            0 <= k <= 7,
            parts@.len() >= ROW_FIELDS,
            values@.len() == k,
            forall|j: int| 0 <= j < k ==> numbers@[j] == Ok::<i64, String>(#[trigger] values@[j]),
            first_bad_number(numbers@, 0) == first_bad_number(numbers@, k as int),
        decreases 7 - k,
    {
        match &numbers[k] {
            Ok(v) => {
                values.push(*v);
            },
            Err(detail) => {
                assert(numbers@[k as int] is Err);
                assert(first_bad_number(numbers@, k as int) == Some(k as int));
                assert(numbers@[k as int]->Err_0 == *detail);
                return Err(detail.clone());
            },
        }
        k += 1;
    }
    let ghost field_texts = texts(parts@);
    assert(field_texts[0] == parts@[0]@);
    assert(field_texts[1] == parts@[1]@);
    assert(field_texts[2] == parts@[2]@);
    assert(field_texts[3] == parts@[3]@);
    assert(field_texts[6] == parts@[6]@);
    assert(field_texts[12] == parts@[12]@);
    Ok(
        CyboAirRow {
            machineid: parts[0].clone(),
            rtype: parts[1].clone(),
            location: parts[2].clone(),
            pollutant: parts[3].clone(),
            cin: values[0],
            cout: values[1],
            unit: parts[6].clone(),
            airflow_m3_per_s: values[2],
            period_s: values[3],
            lambda_hazard: values[4],
            beta_nb_per_ng: values[5],
            ecoimpact_score: values[6],
            notes: parts[12].clone(),
        },
    )
}

} // verus!
