use econet_corridor::fixed::SCALE;
use econet_corridor::karma_linker::{
    compute_cyboair_mass_removed, evaluate_cyboair_impact, evaluate_cyboair_system_impact,
    normalize_flow_to_m3_per_s, split_csv_line, AirConcentrationUnit, AirFlowUnit, AirNodeId,
    AirPollutant, CyboAirImpact, CyboAirNodeMeta, CyboAirShardError,
};

fn to_real(x: i128) -> f64 {
    x as f64 / SCALE as f64
}

fn test_meta() -> CyboAirNodeMeta {
    CyboAirNodeMeta {
        node_id: AirNodeId("PHX-ARTERIAL-01".to_string()),
        label: "Phoenix arterial canopy".to_string(),
        pollutant: AirPollutant::Pm25,
        cin_baseline: 25 * SCALE,
        cin_unit: AirConcentrationUnit::UgPerM3,
        cref: 10 * SCALE,
        cref_unit: AirConcentrationUnit::UgPerM3,
        q_air: 100_000,
        q_unit: AirFlowUnit::M3PerS,
        horizon_s: 3600 * SCALE,
        ecoimpactscore: 900_000,
        hazard_weight: 2 * SCALE,
        karma_per_unit: 1_000_000 * SCALE,
        notes: "Test node".to_string(),
    }
}

#[test]
fn test_compute_cyboair_mass_removed() {
    let cin = 25 * SCALE;
    let cout = 15 * SCALE;
    let q = 100_000;
    let t = 3600 * SCALE;
    let m = compute_cyboair_mass_removed(cin, cout, q, t).unwrap();
    // (25 - 15) * 0.1 * 3600 = 10 * 360 = 3600
    assert!((to_real(m) - 3600.0).abs() < 1e-6);
    assert_eq!(m, 3_600_000_000);
}

#[test]
fn test_evaluate_cyboair_impact() {
    let meta = test_meta();
    let cout = 15 * SCALE;
    let impact = evaluate_cyboair_impact(&meta, cout).unwrap();

    assert!(to_real(impact.mass_removed) > 0.0);
    assert!(to_real(impact.canonical_impact) > 0.0);
    assert!(to_real(impact.nano_karma_bytes) > 0.0);
}

#[test]
fn test_system_impact() {
    let meta = test_meta();
    let nodes = vec![meta.clone(), meta];
    let couts = vec![15 * SCALE, 18 * SCALE];

    let (m, k_can, k_bytes) = evaluate_cyboair_system_impact(&nodes, &couts).unwrap();
    assert!(to_real(m) > 0.0);
    assert!(to_real(k_can) > 0.0);
    assert!(to_real(k_bytes) > 0.0);
}

#[test]
fn impact_exact_values() {
    let impact = evaluate_cyboair_impact(&test_meta(), 15 * SCALE);
    // mass 3600; canonical 2 * (10 / 10) * 0.1 * 3600 = 720; karma 720 * 0.9 * 1e6
    assert_eq!(
        impact,
        Some(CyboAirImpact {
            mass_removed: 3_600_000_000,
            canonical_impact: 720_000_000,
            nano_karma_bytes: 648_000_000_000_000,
        })
    );
}

#[test]
fn impact_with_hourly_flow_and_missing_reference() {
    let mut meta = test_meta();
    meta.q_air = 360 * SCALE;
    meta.q_unit = AirFlowUnit::M3PerH;
    meta.cref = 0;
    meta.ecoimpactscore = 5 * SCALE;
    let impact = evaluate_cyboair_impact(&meta, 15 * SCALE).unwrap();
    assert_eq!(impact.mass_removed, 3_600_000_000);
    // The reference falls back to 1 and the score is clamped to 1.
    assert_eq!(impact.canonical_impact, 7_200_000_000);
    assert_eq!(impact.nano_karma_bytes, 7_200_000_000_000_000);
    meta.ecoimpactscore = -1;
    meta.cref = -4 * SCALE;
    let impact = evaluate_cyboair_impact(&meta, 15 * SCALE).unwrap();
    assert_eq!(impact.canonical_impact, 7_200_000_000);
    assert_eq!(impact.nano_karma_bytes, 0);
}

#[test]
fn impact_of_a_negative_drop_is_zero() {
    let impact = evaluate_cyboair_impact(&test_meta(), 30 * SCALE);
    assert_eq!(
        impact,
        Some(CyboAirImpact { mass_removed: 0, canonical_impact: 0, nano_karma_bytes: 0 })
    );
    assert_eq!(compute_cyboair_mass_removed(1, 2, i64::MAX, i64::MAX), Some(0));
}

#[test]
fn impact_out_of_range() {
    assert_eq!(compute_cyboair_mass_removed(i64::MAX, 0, i64::MAX, i64::MAX), None);
    let mut meta = test_meta();
    meta.cin_baseline = i64::MAX;
    meta.q_air = i64::MAX;
    meta.horizon_s = i64::MAX;
    assert_eq!(evaluate_cyboair_impact(&meta, 0), None);
    let mut meta = test_meta();
    meta.hazard_weight = i64::MAX;
    meta.q_air = 1_000_000 * SCALE;
    meta.horizon_s = 1_000_000_000 * SCALE;
    assert_eq!(evaluate_cyboair_impact(&meta, 0), None);
    let nodes = vec![test_meta(), meta];
    assert_eq!(evaluate_cyboair_system_impact(&nodes, &[0, 0]), None);
}

#[test]
fn system_impact_exact_totals() {
    let nodes = vec![test_meta(), test_meta()];
    let totals = evaluate_cyboair_system_impact(&nodes, &[15 * SCALE, 18 * SCALE]);
    assert_eq!(
        totals,
        Some((
            3_600_000_000 + 2_520_000_000,
            720_000_000 + 504_000_000,
            648_000_000_000_000 + 453_600_000_000_000
        ))
    );
    assert_eq!(evaluate_cyboair_system_impact(&[], &[]), Some((0, 0, 0)));
}

#[test]
fn flow_normalization() {
    assert_eq!(normalize_flow_to_m3_per_s(7_200 * SCALE, &AirFlowUnit::M3PerH), 2 * SCALE);
    assert_eq!(normalize_flow_to_m3_per_s(3_599, &AirFlowUnit::M3PerH), 0);
    assert_eq!(normalize_flow_to_m3_per_s(-1, &AirFlowUnit::M3PerH), -1);
    assert_eq!(normalize_flow_to_m3_per_s(5, &AirFlowUnit::M3PerS), 5);
    assert_eq!(normalize_flow_to_m3_per_s(5, &AirFlowUnit::Other("cfm".to_string())), 5);
    assert_eq!(normalize_flow_to_m3_per_s(i64::MIN, &AirFlowUnit::M3PerH), -2_562_047_788_015_216);
}

#[test]
fn pollutant_names() {
    for s in ["PM2.5", "pm2.5", "  Pm_2_5 ", "PM25\n", "\tpm25"] {
        assert_eq!(AirPollutant::from_str(s), AirPollutant::Pm25);
    }
    for s in ["NO2", "no_2"] {
        assert_eq!(AirPollutant::from_str(s), AirPollutant::No2);
    }
    for s in ["o3", "Ozone"] {
        assert_eq!(AirPollutant::from_str(s), AirPollutant::O3);
    }
    for s in ["voc", "VOCs", "vocs"] {
        assert_eq!(AirPollutant::from_str(s), AirPollutant::Voc);
    }
    for s in ["bc", "Black_Carbon", "blackcarbon"] {
        assert_eq!(AirPollutant::from_str(s), AirPollutant::BlackCarbon);
    }
    assert_eq!(AirPollutant::from_str(" so2 "), AirPollutant::Other("SO2".to_string()));
    assert_eq!(AirPollutant::from_str(""), AirPollutant::Other(String::new()));
    assert_eq!(AirPollutant::from_str("straße"), AirPollutant::Other("STRASSE".to_string()));
}

#[test]
fn pollutant_keys_are_taken_literally() {
    assert_eq!(AirPollutant::from_key("PM25"), AirPollutant::Pm25);
    assert_eq!(AirPollutant::from_key("VOCs"), AirPollutant::Voc);
    assert_eq!(AirPollutant::from_key("pm25"), AirPollutant::Other("pm25".to_string()));
    assert_eq!(AirPollutant::from_key(" PM25"), AirPollutant::Other(" PM25".to_string()));
}

#[test]
fn concentration_units() {
    for s in ["ug/m3", " µg/m3", "ug/m^3 "] {
        assert_eq!(AirConcentrationUnit::from_str(s), AirConcentrationUnit::UgPerM3);
    }
    for s in ["ppb", "PPB "] {
        assert_eq!(AirConcentrationUnit::from_str(s), AirConcentrationUnit::Ppb);
    }
    for s in [" ppm", "PPM"] {
        assert_eq!(AirConcentrationUnit::from_str(s), AirConcentrationUnit::Ppm);
    }
    assert_eq!(AirConcentrationUnit::from_str(" Ppb "), AirConcentrationUnit::Other("Ppb".to_string()));
    assert_eq!(AirConcentrationUnit::from_str("mg / m3"), AirConcentrationUnit::Other("mg / m3".to_string()));
}

#[test]
fn flow_units() {
    assert_eq!(AirFlowUnit::from_str(" m3/s "), AirFlowUnit::M3PerS);
    assert_eq!(AirFlowUnit::from_str("m3/h"), AirFlowUnit::M3PerH);
    assert_eq!(AirFlowUnit::from_str("m3/hr"), AirFlowUnit::M3PerH);
    assert_eq!(AirFlowUnit::from_str("\u{a0}cfm\u{3000}"), AirFlowUnit::Other("cfm".to_string()));
    assert_eq!(AirFlowUnit::from_str("M3/S"), AirFlowUnit::Other("M3/S".to_string()));
}

#[test]
fn error_messages() {
    assert_eq!(CyboAirShardError::Io("no such file".to_string()).message(), "IO error: no such file");
    assert_eq!(
        CyboAirShardError::Parse("Line 3 has insufficient fields: 2".to_string()).message(),
        "Parse error: Line 3 has insufficient fields: 2"
    );
    assert_eq!(CyboAirShardError::Parse(String::new()).message(), "Parse error: ");
}

#[test]
fn split_plain_and_edge_lines() {
    assert_eq!(split_csv_line("a,b,c"), vec!["a", "b", "c"]);
    assert_eq!(split_csv_line(""), Vec::<String>::new());
    assert_eq!(split_csv_line("a"), vec!["a"]);
    assert_eq!(split_csv_line(","), vec!["", ""]);
    assert_eq!(split_csv_line("a,"), vec!["a", ""]);
    assert_eq!(split_csv_line(",a"), vec!["", "a"]);
    assert_eq!(split_csv_line("a,,b"), vec!["a", "", "b"]);
    assert_eq!(split_csv_line("  a  ,\tb\t, c d "), vec!["a", "b", "c d"]);
    // A last field of white space alone is kept, trimmed to nothing.
    assert_eq!(split_csv_line("a, "), vec!["a", ""]);
    assert_eq!(split_csv_line(" "), vec![""]);
}

#[test]
fn split_quoted_fields() {
    assert_eq!(split_csv_line("\"a,b\",c"), vec!["a,b", "c"]);
    assert_eq!(split_csv_line("x\"y\"z"), vec!["xyz"]);
    assert_eq!(split_csv_line("\"\""), Vec::<String>::new());
    assert_eq!(split_csv_line("\"\","), vec!["", ""]);
    assert_eq!(split_csv_line("\" a \",b"), vec!["a", "b"]);
    // An unclosed quote swallows the commas that follow.
    assert_eq!(split_csv_line("\"a,b,c"), vec!["a,b,c"]);
    // A line that ends in a quoted comma still ends in a comma.
    assert_eq!(split_csv_line("a,\","), vec!["a", ","]);
    assert_eq!(split_csv_line("µg/m3,\"é,ü\""), vec!["µg/m3", "é,ü"]);
}
