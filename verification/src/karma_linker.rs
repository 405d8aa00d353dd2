//! Air-node records: pollutant and unit tags, line splitting for tabular
//! shards, and the canonical impact of a node over its horizon.

use vstd::prelude::*;
use vstd::string::StringExecFns;
use crate::fixed::{
    checked_product3, checked_product4, checked_sum, clip01, clip01_spec, div_floor,
    lemma_quotient_representable, representable, SCALE,
};
use crate::node_control::concentration_drop;
use crate::text::{
    decimal_spec, decimal_text, join_from, join_spec, same_text, to_chars, to_upper, trim_chars,
    trim_spec, uppercased,
};

verus! {

/// Unique identifier of an air node.
#[derive(Debug, Clone, PartialEq, Eq, Hash)]
pub struct AirNodeId(pub String);

/// Air pollutant tracked by a node.
#[derive(Debug, Clone, PartialEq, Eq, Hash)]
pub enum AirPollutant {
    Pm25,
    No2,
    O3,
    Voc,
    BlackCarbon,
    Other(String),
}

/// The mathematical value of an `AirPollutant`.
pub enum PollutantTag {
    Pm25,
    No2,
    O3,
    Voc,
    BlackCarbon,
    Other(Seq<char>),
}

impl View for AirPollutant {
    type V = PollutantTag;

    open spec fn view(&self) -> PollutantTag {
        match self {
            AirPollutant::Pm25 => PollutantTag::Pm25,
            AirPollutant::No2 => PollutantTag::No2,
            AirPollutant::O3 => PollutantTag::O3,
            AirPollutant::Voc => PollutantTag::Voc,
            AirPollutant::BlackCarbon => PollutantTag::BlackCarbon,
            AirPollutant::Other(s) => PollutantTag::Other(s@),
        }
    }
}

/// The pollutant that a normalized key stands for.
pub open spec fn pollutant_of(key: Seq<char>) -> PollutantTag {
    if key == "PM2.5"@ || key == "PM_2_5"@ || key == "PM25"@ {
        PollutantTag::Pm25
    } else if key == "NO2"@ || key == "NO_2"@ {
        PollutantTag::No2
    } else if key == "O3"@ || key == "OZONE"@ {
        PollutantTag::O3
    } else if key == "VOC"@ || key == "VOCs"@ || key == "VOCS"@ {
        PollutantTag::Voc
    } else if key == "BC"@ || key == "BLACK_CARBON"@ || key == "BLACKCARBON"@ {
        PollutantTag::BlackCarbon
    } else {
        PollutantTag::Other(key)
    }
}

impl AirPollutant {
    /// The pollutant named by a key that is already trimmed and in upper case.
    pub fn from_key(key: &str) -> (p: AirPollutant)
        ensures
            p@ == pollutant_of(key@),
    {
        if same_text(key, "PM2.5") || same_text(key, "PM_2_5") || same_text(key, "PM25") {
            AirPollutant::Pm25
        } else if same_text(key, "NO2") || same_text(key, "NO_2") {
            AirPollutant::No2
        } else if same_text(key, "O3") || same_text(key, "OZONE") {
            AirPollutant::O3
        } else if same_text(key, "VOC") || same_text(key, "VOCs") || same_text(key, "VOCS") {
            AirPollutant::Voc
        } else if same_text(key, "BC") || same_text(key, "BLACK_CARBON") || same_text(
            key,
            "BLACKCARBON",
        ) {
            AirPollutant::BlackCarbon
        } else {
            AirPollutant::Other(String::from_str(key))
        }
    }

    /// Reads a pollutant name, ignoring surrounding white space and case.
    pub fn from_str(s: &str) -> (p: AirPollutant)
        ensures
            p@ == pollutant_of(uppercased(trim_spec(s@))),
    {
        let trimmed: String = trim_chars(&to_chars(s));
        let key: String = to_upper(trimmed.as_str());
        AirPollutant::from_key(key.as_str())
    }
}

/// Concentration unit of an air pollutant.
#[derive(Debug, Clone, PartialEq, Eq, Hash)]
pub enum AirConcentrationUnit {
    UgPerM3,
    Ppb,
    Ppm,
    Other(String),
}

/// The mathematical value of an `AirConcentrationUnit`.
pub enum ConcentrationUnitTag {
    UgPerM3,
    Ppb,
    Ppm,
    Other(Seq<char>),
}

impl View for AirConcentrationUnit {
    type V = ConcentrationUnitTag;

    open spec fn view(&self) -> ConcentrationUnitTag {
        match self {
            AirConcentrationUnit::UgPerM3 => ConcentrationUnitTag::UgPerM3,
            AirConcentrationUnit::Ppb => ConcentrationUnitTag::Ppb,
            AirConcentrationUnit::Ppm => ConcentrationUnitTag::Ppm,
            AirConcentrationUnit::Other(s) => ConcentrationUnitTag::Other(s@),
        }
    }
}

/// The concentration unit that a trimmed key stands for.
pub open spec fn concentration_unit_of(key: Seq<char>) -> ConcentrationUnitTag {
    if key == "ug/m3"@ || key == "µg/m3"@ || key == "ug/m^3"@ {
        ConcentrationUnitTag::UgPerM3
    } else if key == "ppb"@ || key == "PPB"@ {
        ConcentrationUnitTag::Ppb
    } else if key == "ppm"@ || key == "PPM"@ {
        ConcentrationUnitTag::Ppm
    } else {
        ConcentrationUnitTag::Other(key)
    }
}

impl AirConcentrationUnit {
    /// The concentration unit named by a key that is already trimmed.
    pub fn from_key(key: &str) -> (u: AirConcentrationUnit)
        ensures
            u@ == concentration_unit_of(key@),
    {
        if same_text(key, "ug/m3") || same_text(key, "µg/m3") || same_text(key, "ug/m^3") {
            AirConcentrationUnit::UgPerM3
        } else if same_text(key, "ppb") || same_text(key, "PPB") {
            AirConcentrationUnit::Ppb
        } else if same_text(key, "ppm") || same_text(key, "PPM") {
            AirConcentrationUnit::Ppm
        } else {
            AirConcentrationUnit::Other(String::from_str(key))
        }
    }

    /// Reads a concentration unit, ignoring surrounding white space.
    pub fn from_str(s: &str) -> (u: AirConcentrationUnit)
        ensures
            u@ == concentration_unit_of(trim_spec(s@)),
    {
        let trimmed: String = trim_chars(&to_chars(s));
        AirConcentrationUnit::from_key(trimmed.as_str())
    }
}

/// Volumetric air-flow unit of a device.
#[derive(Debug, Clone, PartialEq, Eq, Hash)]
pub enum AirFlowUnit {
    M3PerS,
    M3PerH,
    Other(String),
}

/// The mathematical value of an `AirFlowUnit`.
pub enum FlowUnitTag {
    M3PerS,
    M3PerH,
    Other(Seq<char>),
}

impl View for AirFlowUnit {
    type V = FlowUnitTag;

    open spec fn view(&self) -> FlowUnitTag {
        match self {
            AirFlowUnit::M3PerS => FlowUnitTag::M3PerS,
            AirFlowUnit::M3PerH => FlowUnitTag::M3PerH,
            AirFlowUnit::Other(s) => FlowUnitTag::Other(s@),
        }
    }
}

/// The flow unit that a trimmed key stands for.
pub open spec fn flow_unit_of(key: Seq<char>) -> FlowUnitTag {
    if key == "m3/s"@ {
        FlowUnitTag::M3PerS
    } else if key == "m3/h"@ || key == "m3/hr"@ {
        FlowUnitTag::M3PerH
    } else {
        FlowUnitTag::Other(key)
    }
}

impl AirFlowUnit {
    /// The flow unit named by a key that is already trimmed.
    pub fn from_key(key: &str) -> (u: AirFlowUnit)
        ensures
            u@ == flow_unit_of(key@),
    {
        if same_text(key, "m3/s") {
            AirFlowUnit::M3PerS
        } else if same_text(key, "m3/h") || same_text(key, "m3/hr") {
            AirFlowUnit::M3PerH
        } else {
            AirFlowUnit::Other(String::from_str(key))
        }
    }

    /// Reads a flow unit, ignoring surrounding white space.
    pub fn from_str(s: &str) -> (u: AirFlowUnit)
        ensures
            u@ == flow_unit_of(trim_spec(s@)),
    {
        let trimmed: String = trim_chars(&to_chars(s));
        AirFlowUnit::from_key(trimmed.as_str())
    }
}

/// The state of the line splitter after reading some characters.
pub struct ScanState {
    /// The fields closed so far, each trimmed.
    pub fields: Seq<Seq<char>>,
    /// The characters of the field being read.
    pub current: Seq<char>,
    /// Whether the reader is inside a quoted stretch.
    pub in_quotes: bool,
}

/// Reading one character: a quote toggles quoting and is dropped, a comma
/// outside quotes closes the field, anything else joins the field.
pub open spec fn scan_step(st: ScanState, c: char) -> ScanState {
    if c == '"' {
        ScanState { in_quotes: !st.in_quotes, ..st }
    } else if c == ',' && !st.in_quotes {
        ScanState {
            fields: st.fields.push(trim_spec(st.current)),
            current: Seq::empty(),
            in_quotes: st.in_quotes,
        }
    } else {
        ScanState { current: st.current.push(c), ..st }
    }
}

/// The splitter's state after reading all of `line`.
pub open spec fn scan(line: Seq<char>) -> ScanState
    decreases line.len(),
{
    if line.len() == 0 {
        ScanState { fields: Seq::empty(), current: Seq::empty(), in_quotes: false }
    } else {
        scan_step(scan(line.drop_last()), line.last())
    }
}

/// The fields of a line: those closed by commas outside quotes, and the
/// last one where it is not empty or the line ends in a comma.
pub open spec fn csv_fields(line: Seq<char>) -> Seq<Seq<char>> {
    let st = scan(line);
    if st.current.len() > 0 || (line.len() > 0 && line.last() == ',') {
        st.fields.push(trim_spec(st.current))
    } else {
        st.fields
    }
}

/// The fields of a measurement row: those closed by commas outside
/// quotes, and the last one where it is not empty.
pub open spec fn row_fields(line: Seq<char>) -> Seq<Seq<char>> {
    let st = scan(line);
    if st.current.len() > 0 {
        st.fields.push(trim_spec(st.current))
    } else {
        st.fields
    }
}

/// The texts of a list of strings.
pub open spec fn texts(v: Seq<String>) -> Seq<Seq<char>> {
    Seq::new(v.len(), |i: int| v[i]@)
}

/// Reads a line up to its end: the closed fields, and the characters of
/// the field that is still open.
fn scan_line(chars: &Vec<char>) -> (r: (Vec<String>, Vec<char>))
    ensures
        texts(r.0@) == scan(chars@).fields,
        r.1@ == scan(chars@).current,
{
    let mut fields: Vec<String> = Vec::new();
    let mut current: Vec<char> = Vec::new();
    let mut in_quotes: bool = false;
    let mut i: usize = 0;
    assert(texts(fields@) =~= Seq::<Seq<char>>::empty());
    while i < chars.len()
        invariant
            0 <= i <= chars@.len(),
            texts(fields@) == scan(chars@.take(i as int)).fields,
            current@ == scan(chars@.take(i as int)).current,
            in_quotes == scan(chars@.take(i as int)).in_quotes,
        decreases chars@.len() - i,
    {
        let c: char = chars[i];
        proof {
            assert(chars@.take(i as int + 1).drop_last() =~= chars@.take(i as int));
            assert(chars@.take(i as int + 1).last() == c);
        }
        if c == '"' {
            in_quotes = !in_quotes;
        } else if c == ',' && !in_quotes {
            let field: String = trim_chars(&current);
            let ghost before = fields@;
            fields.push(field);
            assert(texts(fields@) =~= texts(before).push(field@));
            current = Vec::new();
        } else {
            current.push(c);
        }
        i += 1;
    }
    assert(chars@.take(chars@.len() as int) =~= chars@);
    (fields, current)
}

/// Splits one line into its comma-separated fields. Quotes group text
/// that holds commas and are not part of the field; every field is trimmed.
pub fn split_csv_line(line: &str) -> (fields: Vec<String>)
    ensures
        texts(fields@) == csv_fields(line@),
{
    let chars: Vec<char> = to_chars(line);
    let (mut fields, current) = scan_line(&chars);
    let n: usize = chars.len();
    if current.len() > 0 || (n > 0 && chars[n - 1] == ',') {
        let field: String = trim_chars(&current);
        let ghost before = fields@;
        fields.push(field);
        assert(texts(fields@) =~= texts(before).push(field@));
    }
    fields
}

/// Splits one measurement row into its fields, as `split_csv_line` does,
/// but without an empty field after a trailing comma.
pub fn split_row_line(line: &str) -> (fields: Vec<String>)
    ensures
        texts(fields@) == row_fields(line@),
{
    let chars: Vec<char> = to_chars(line);
    let (mut fields, current) = scan_line(&chars);
    if current.len() > 0 {
        let field: String = trim_chars(&current);
        let ghost before = fields@;
        fields.push(field);
        assert(texts(fields@) =~= texts(before).push(field@));
    }
    fields
}

/// Configuration and baseline conditions of one air node. Numeric fields
/// are scaled values.
#[derive(Debug, Clone)]
pub struct CyboAirNodeMeta {
    pub node_id: AirNodeId,
    /// Human-readable description.
    pub label: String,
    pub pollutant: AirPollutant,
    pub cin_baseline: i64,
    pub cin_unit: AirConcentrationUnit,
    /// Reference concentration (standard or guideline).
    pub cref: i64,
    pub cref_unit: AirConcentrationUnit,
    pub q_air: i64,
    pub q_unit: AirFlowUnit,
    /// Time horizon in seconds over which impact accumulates.
    pub horizon_s: i64,
    /// Normalized eco-impact score, meant to lie in `[0, 1]`.
    pub ecoimpactscore: i64,
    /// Hazard weight of the pollutant.
    pub hazard_weight: i64,
    /// NanoKarmaBytes per unit of canonical impact.
    pub karma_per_unit: i64,
    pub notes: String,
}

/// Canonical impact and NanoKarmaBytes of a node over one horizon, as
/// scaled values.
#[derive(Debug, Clone, Copy, PartialEq, Eq)]
pub struct CyboAirImpact {
    /// Concentration drop x flow x time, in concentration units x m^3.
    pub mass_removed: i128,
    /// Hazard-weighted, reference-normalized impact (dimensionless).
    pub canonical_impact: i128,
    /// NanoKarmaBytes awarded for the horizon.
    pub nano_karma_bytes: i128,
}

/// What went wrong while reading a shard.
#[derive(Debug, Clone, PartialEq, Eq)]
pub enum CyboAirShardError {
    /// The shard could not be read; the text says why.
    Io(String),
    /// A line of the shard is malformed; the text says how.
    Parse(String),
}

impl CyboAirShardError {
    /// The text of the error's message.
    pub open spec fn message_spec(&self) -> Seq<char> {
        match self {
            CyboAirShardError::Io(e) => "IO error: "@ + e@,
            CyboAirShardError::Parse(e) => "Parse error: "@ + e@,
        }
    }

    /// The error as a message for people.
    pub fn message(&self) -> (m: String)
        ensures
            m@ == self.message_spec(),
    {
        match self {
            CyboAirShardError::Io(e) => {
                let mut m: String = String::from_str("IO error: ");
                m.append(e.as_str());
                m
            },
            CyboAirShardError::Parse(e) => {
                let mut m: String = String::from_str("Parse error: ");
                m.append(e.as_str());
                m
            },
        }
    }
}

/// A flow in m^3/s: flows per hour are divided by 3600, rounding down;
/// flows in an unknown unit are taken as they are.
pub open spec fn flow_m3_per_s(q: int, unit: FlowUnitTag) -> int {
    match unit {
        FlowUnitTag::M3PerH => q / 3600,
        _ => q,
    }
}

/// Converts a volumetric air flow to m^3/s.
pub fn normalize_flow_to_m3_per_s(q: i64, unit: &AirFlowUnit) -> (r: i64)
    ensures
        r as int == flow_m3_per_s(q as int, unit@),
{
    match unit {
        AirFlowUnit::M3PerS => q,
        AirFlowUnit::M3PerH => {
            proof {
                lemma_quotient_representable(q as int, 3600);
            }
            div_floor(q as i128, 3600) as i64
        },
        AirFlowUnit::Other(_) => q,
    }
}

/// Pollutant removed over a horizon, in scaled concentration units x m^3:
/// drop x flow x time, rounded down once; `None` where the product is not
/// representable.
pub open spec fn cyboair_mass_removed_spec(cin: int, cout: int, q: int, horizon: int) -> Option<
    i128,
> {
    let p = concentration_drop(cin, cout) * q * horizon;
    if representable(p) {
        Some((p / (SCALE as int * SCALE as int)) as i128)
    } else {
        None
    }
}

/// Pollutant removed by a node over its horizon. A negative concentration
/// difference counts as zero.
pub fn compute_cyboair_mass_removed(cin: i64, cout: i64, q_air_m3_per_s: i64, horizon_s: i64) -> (m:
    Option<i128>)
    ensures
        m == cyboair_mass_removed_spec(
            cin as int,
            cout as int,
            q_air_m3_per_s as int,
            horizon_s as int,
        ),
{
    let drop: i128 = if cin > cout {
        cin as i128 - cout as i128
    } else {
        0
    };
    match checked_product3(drop, q_air_m3_per_s as i128, horizon_s as i128) {
        None => None,
        Some(p) => {
            let d: i128 = (SCALE as i128) * (SCALE as i128);
            Some(div_floor(p, d))
        },
    }
}

/// The reference concentration that impact is normalized by: the node's
/// own where it is positive, else 1.
pub open spec fn effective_cref(cref: int) -> int {
    if cref > 0 {
        cref
    } else {
        SCALE as int
    }
}

/// Canonical impact: hazard weight x (drop / reference) x flow x time,
/// rounded down once; `None` where the product is not representable.
pub open spec fn canonical_impact_spec(
    hazard_weight: int,
    cin: int,
    cout: int,
    cref: int,
    q: int,
    horizon: int,
) -> Option<i128> {
    let p = hazard_weight * concentration_drop(cin, cout) * q * horizon;
    if representable(p) {
        Some((p / (effective_cref(cref) * (SCALE as int * SCALE as int))) as i128)
    } else {
        None
    }
}

/// NanoKarmaBytes: canonical impact x eco-impact score clamped to
/// `[0, 1]` x bytes per unit, rounded down once; `None` where the product
/// is not representable.
pub open spec fn nano_karma_spec(canonical: int, ecoimpactscore: int, karma_per_unit: int) -> Option<
    i128,
> {
    let p = canonical * clip01_spec(ecoimpactscore) * karma_per_unit;
    if representable(p) {
        Some((p / (SCALE as int * SCALE as int)) as i128)
    } else {
        None
    }
}

/// The impact of a node whose outlet concentration is `cout`, or `None`
/// where one of its three quantities is out of range.
pub open spec fn impact_spec(meta: CyboAirNodeMeta, cout: int) -> Option<CyboAirImpact> {
    let q = flow_m3_per_s(meta.q_air as int, meta.q_unit@);
    match (
        cyboair_mass_removed_spec(meta.cin_baseline as int, cout, q, meta.horizon_s as int),
        canonical_impact_spec(
            meta.hazard_weight as int,
            meta.cin_baseline as int,
            cout,
            meta.cref as int,
            q,
            meta.horizon_s as int,
        ),
    ) {
        (Some(mass), Some(canonical)) => match nano_karma_spec(
            canonical as int,
            meta.ecoimpactscore as int,
            meta.karma_per_unit as int,
        ) {
            Some(karma) => Some(
                CyboAirImpact {
                    mass_removed: mass,
                    canonical_impact: canonical,
                    nano_karma_bytes: karma,
                },
            ),
            None => None,
        },
        _ => None,
    }
}

/// Canonical impact and NanoKarmaBytes of a node over its horizon.
pub fn evaluate_cyboair_impact(meta: &CyboAirNodeMeta, cout: i64) -> (r: Option<CyboAirImpact>)
    ensures
        r == impact_spec(*meta, cout as int),
{
    let q_m3_s: i64 = normalize_flow_to_m3_per_s(meta.q_air, &meta.q_unit);
    let mass_removed: i128 = match compute_cyboair_mass_removed(
        meta.cin_baseline,
        cout,
        q_m3_s,
        meta.horizon_s,
    ) {
        Some(m) => m,
        None => {
            return None;
        },
    };
    let cref: i128 = if meta.cref > 0 {
        meta.cref as i128
    } else {
        SCALE as i128
    };
    let drop: i128 = if meta.cin_baseline > cout {
        meta.cin_baseline as i128 - cout as i128
    } else {
        0
    };
    let canonical_impact: i128 = match checked_product4(
        meta.hazard_weight as i128,
        drop,
        q_m3_s as i128,
        meta.horizon_s as i128,
    ) {
        Some(p) => {
            let d: i128 = cref * ((SCALE as i128) * (SCALE as i128));
            proof {
                lemma_quotient_representable(p as int, d as int);
            }
            div_floor(p, d)
        },
        None => {
            return None;
        },
    };
    let score: i64 = clip01(meta.ecoimpactscore as i128);
    let nano_karma_bytes: i128 = match checked_product3(
        canonical_impact,
        score as i128,
        meta.karma_per_unit as i128,
    ) {
        Some(p) => {
            let d: i128 = (SCALE as i128) * (SCALE as i128);
            div_floor(p, d)
        },
        None => {
            return None;
        },
    };
    Some(CyboAirImpact { mass_removed, canonical_impact, nano_karma_bytes })
}

/// Adding one impact to the totals `(mass, canonical impact, bytes)`, or
/// `None` where a total leaves the range.
pub open spec fn add_impact(acc: (i128, i128, i128), imp: CyboAirImpact) -> Option<
    (i128, i128, i128),
> {
    if representable(acc.0 + imp.mass_removed) && representable(acc.1 + imp.canonical_impact)
        && representable(acc.2 + imp.nano_karma_bytes) {
        Some(
            (
                (acc.0 + imp.mass_removed) as i128,
                (acc.1 + imp.canonical_impact) as i128,
                (acc.2 + imp.nano_karma_bytes) as i128,
            ),
        )
    } else {
        None
    }
}

/// The totals `(mass, canonical impact, bytes)` over the first `n` nodes,
/// each with the outlet concentration at its position, added in order;
/// `None` where an impact or a running total is out of range.
pub open spec fn system_impact_spec(nodes: Seq<CyboAirNodeMeta>, couts: Seq<i64>, n: int) -> Option<
    (i128, i128, i128),
>
    decreases n,
{
    if n <= 0 {
        Some((0i128, 0i128, 0i128))
    } else {
        match (system_impact_spec(nodes, couts, n - 1), impact_spec(nodes[n - 1], couts[n - 1] as int)) {
            (Some(acc), Some(imp)) => add_impact(acc, imp),
            _ => None,
        }
    }
}

/// Once a prefix is out of range, every longer prefix is.
proof fn lemma_system_impact_none_extends(
    nodes: Seq<CyboAirNodeMeta>,
    couts: Seq<i64>,
    k: int,
    n: int,
)
    requires
        0 <= k <= n,
        system_impact_spec(nodes, couts, k) is None,
    ensures
        system_impact_spec(nodes, couts, n) is None,
    decreases n - k,
{
    if k < n {
        lemma_system_impact_none_extends(nodes, couts, k, n - 1);
    }
}

/// Totals of mass removed, canonical impact and NanoKarmaBytes over a set
/// of nodes, one outlet concentration per node.
pub fn evaluate_cyboair_system_impact(nodes: &[CyboAirNodeMeta], couts: &[i64]) -> (r: Option<
    (i128, i128, i128),
>)
    requires
        nodes@.len() == couts@.len(),
    ensures
        r == system_impact_spec(nodes@, couts@, nodes@.len() as int),
{
    let mut total_mass: i128 = 0;
    let mut total_canonical: i128 = 0;
    let mut total_karma: i128 = 0;
    let mut i: usize = 0;
    while i < nodes.len()
        invariant
            0 <= i <= nodes@.len(),
            nodes@.len() == couts@.len(),
            system_impact_spec(nodes@, couts@, i as int) == Some(
                (total_mass, total_canonical, total_karma),
            ),
        decreases nodes@.len() - i,
    {
        let impact: Option<CyboAirImpact> = evaluate_cyboair_impact(&nodes[i], couts[i]);
        let next: Option<(i128, i128, i128)> = match impact {
            None => None,
            Some(imp) => match (
                checked_sum(total_mass, imp.mass_removed),
                checked_sum(total_canonical, imp.canonical_impact),
                checked_sum(total_karma, imp.nano_karma_bytes),
            ) {
                (Some(m), Some(c), Some(k)) => Some((m, c, k)),
                _ => None,
            },
        };
        match next {
            None => {
                proof {
                    assert(system_impact_spec(nodes@, couts@, i as int + 1) is None);
                    lemma_system_impact_none_extends(
                        nodes@,
                        couts@,
                        i as int + 1,
                        nodes@.len() as int,
                    );
                }
                return None;
            },
            Some(t) => {
                total_mass = t.0;
                total_canonical = t.1;
                total_karma = t.2;
            },
        }
        i += 1;
    }
    Some((total_mass, total_canonical, total_karma))
}

/// The number of fields that a node line must hold at least.
pub const NODE_FIELDS: usize = 14;

/// The name of the `k`-th number column of a node line.
pub open spec fn number_column_name(k: int) -> Seq<char> {
    if k == 0 {
        "cin_baseline"@
    } else if k == 1 {
        "cref"@
    } else if k == 2 {
        "q_air"@
    } else if k == 3 {
        "horizon_s"@
    } else if k == 4 {
        "ecoimpactscore"@
    } else if k == 5 {
        "hazard_weight"@
    } else {
        "karma_per_unit"@
    }
}

/// The first number column that failed to parse, if any.
pub open spec fn first_bad_number(numbers: Seq<Result<i64, String>>, from: int) -> Option<int>
    decreases numbers.len() - from,
{
    if from >= numbers.len() {
        None
    } else if numbers[from] is Err {
        Some(from)
    } else {
        first_bad_number(numbers, from + 1)
    }
}

/// The message for a line with too few fields.
pub open spec fn insufficient_fields_message(line_no: nat, found: nat) -> Seq<char> {
    "Line "@ + decimal_spec(line_no) + " has insufficient fields: "@ + decimal_spec(found)
}

/// The message for a number column that failed to parse.
pub open spec fn bad_number_message(k: int, detail: Seq<char>) -> Seq<char> {
    number_column_name(k) + " parse error: "@ + detail
}

/// `meta` is the node that the fields and their parsed numbers describe.
pub open spec fn is_node_of(
    meta: CyboAirNodeMeta,
    fields: Seq<Seq<char>>,
    numbers: Seq<Result<i64, String>>,
) -> bool {
    &&& meta.node_id.0@ == fields[0]
    &&& meta.label@ == fields[1]
    &&& meta.pollutant@ == pollutant_of(uppercased(trim_spec(fields[2])))
    &&& numbers[0] == Ok::<i64, String>(meta.cin_baseline)
    &&& meta.cin_unit@ == concentration_unit_of(trim_spec(fields[4]))
    &&& numbers[1] == Ok::<i64, String>(meta.cref)
    &&& meta.cref_unit@ == concentration_unit_of(trim_spec(fields[6]))
    &&& numbers[2] == Ok::<i64, String>(meta.q_air)
    &&& meta.q_unit@ == flow_unit_of(trim_spec(fields[8]))
    &&& numbers[3] == Ok::<i64, String>(meta.horizon_s)
    &&& numbers[4] == Ok::<i64, String>(meta.ecoimpactscore)
    &&& numbers[5] == Ok::<i64, String>(meta.hazard_weight)
    &&& numbers[6] == Ok::<i64, String>(meta.karma_per_unit)
    &&& meta.notes@ == join_spec(fields, 13)
}

/// What reading a node line gives: a parse error where the line is short
/// or a number is bad, the first bad number deciding, else the node.
pub open spec fn node_reading_ok(
    r: Result<CyboAirNodeMeta, CyboAirShardError>,
    line_no: nat,
    fields: Seq<Seq<char>>,
    numbers: Seq<Result<i64, String>>,
) -> bool {
    if fields.len() < NODE_FIELDS {
        r matches Err(CyboAirShardError::Parse(m)) && m@ == insufficient_fields_message(
            line_no,
            fields.len(),
        )
    } else {
        match first_bad_number(numbers, 0) {
            Some(k) => r matches Err(CyboAirShardError::Parse(m)) && m@ == bad_number_message(
                k,
                numbers[k]->Err_0@,
            ),
            None => r matches Ok(meta) && is_node_of(meta, fields, numbers),
        }
    }
}

/// The error for the bad number column `k`.
fn bad_number(k: usize, detail: &String) -> (e: CyboAirShardError)
    requires
        k < 7,
    ensures
        e matches CyboAirShardError::Parse(m) && m@ == bad_number_message(k as int, detail@),
{
    let mut m: String = if k == 0 {
        String::from_str("cin_baseline")
    } else if k == 1 {
        String::from_str("cref")
    } else if k == 2 {
        String::from_str("q_air")
    } else if k == 3 {
        String::from_str("horizon_s")
    } else if k == 4 {
        String::from_str("ecoimpactscore")
    } else if k == 5 {
        String::from_str("hazard_weight")
    } else {
        String::from_str("karma_per_unit")
    };
    m.append(" parse error: ");
    m.append(detail.as_str());
    CyboAirShardError::Parse(m)
}

/// Builds a node from the fields of its line. `numbers` holds what the
/// seven number columns (fields 3, 5, 7, 9, 10, 11 and 12) parsed to, each
/// a scaled value or the reason why it is no number; `line_no` is the
/// line's number in its shard, for the message. Fields beyond the
/// thirteenth are notes and are joined by commas again.
pub fn node_from_fields(
    line_no: usize,
    fields: &Vec<String>,
    numbers: &[Result<i64, String>; 7],
) -> (r: Result<CyboAirNodeMeta, CyboAirShardError>)
    ensures
        node_reading_ok(r, line_no as nat, texts(fields@), numbers@),
{
    let ghost field_texts = texts(fields@);
    if fields.len() < NODE_FIELDS {
        let mut m: String = String::from_str("Line ");
        m.append(decimal_text(line_no as u128).as_str());
        m.append(" has insufficient fields: ");
        m.append(decimal_text(fields.len() as u128).as_str());
        return Err(CyboAirShardError::Parse(m));
    }
    let mut values: Vec<i64> = Vec::new();
    let mut k: usize = 0;
    while k < 7
        invariant
            0 <= k <= 7,
            fields@.len() >= NODE_FIELDS,
            values@.len() == k,
            forall|j: int| 0 <= j < k ==> numbers@[j] == Ok::<i64, String>(#[trigger] values@[j]),
            first_bad_number(numbers@, 0) == first_bad_number(numbers@, k as int),
        decreases 7 - k,
    {
        match &numbers[k] {
            Ok(v) => {
                values.push(*v);
            },
            Err(detail) => {
                assert(numbers@[k as int] is Err);
                assert(first_bad_number(numbers@, k as int) == Some(k as int));
                assert(numbers@[k as int]->Err_0 == *detail);
                return Err(bad_number(k, detail));
            },
        }
        k += 1;
    }
    assert(field_texts[0] == fields@[0]@);
    assert(field_texts[1] == fields@[1]@);
    assert(field_texts[2] == fields@[2]@);
    assert(field_texts[4] == fields@[4]@);
    assert(field_texts[6] == fields@[6]@);
    assert(field_texts[8] == fields@[8]@);
    let meta = CyboAirNodeMeta {
        node_id: AirNodeId(fields[0].clone()),
        label: fields[1].clone(),
        pollutant: AirPollutant::from_str(fields[2].as_str()),
        cin_baseline: values[0],
        cin_unit: AirConcentrationUnit::from_str(fields[4].as_str()),
        cref: values[1],
        cref_unit: AirConcentrationUnit::from_str(fields[6].as_str()),
        q_air: values[2],
        q_unit: AirFlowUnit::from_str(fields[8].as_str()),
        horizon_s: values[3],
        ecoimpactscore: values[4],
        hazard_weight: values[5],
        karma_per_unit: values[6],
        notes: join_from(fields, 13),
    };
    assert(field_texts =~= Seq::new(fields@.len(), |i: int| fields@[i]@));
    Ok(meta)
}

} // verus!
