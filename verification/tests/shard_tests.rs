use econet_corridor::fixed::SCALE;
use econet_corridor::karma_linker::{
    node_from_fields, split_csv_line, split_row_line, AirConcentrationUnit, AirFlowUnit,
    AirNodeId, AirPollutant, CyboAirShardError,
};
use econet_corridor::node_control::row_from_fields;
use econet_corridor::text::{
    contains_text, decimal_text, from_chars, is_blank_line, join_from, render_fixed,
    replace_double_quotes, same_text, to_chars, trim_chars,
};

fn strings(items: &[&str]) -> Vec<String> {
    items.iter().map(|s| s.to_string()).collect()
}

fn good_numbers() -> [Result<i64, String>; 7] {
    [
        Ok(25 * SCALE),
        Ok(10 * SCALE),
        Ok(200_000),
        Ok(3600 * SCALE),
        Ok(900_000),
        Ok(2 * SCALE),
        Ok(1_000_000 * SCALE),
    ]
}

#[test]
fn node_from_a_full_line() {
    let line = "ID1,\"Phoenix arterial canopy\",PM2.5,25.0,ug/m3,10.0,ug/m3,0.2,m3/h,3600,0.9,2.0,1.0e6,\"High priority\"";
    let fields = split_csv_line(line);
    let node = node_from_fields(2, &fields, &good_numbers()).unwrap();
    assert_eq!(node.node_id, AirNodeId("ID1".to_string()));
    assert_eq!(node.label, "Phoenix arterial canopy");
    assert_eq!(node.pollutant, AirPollutant::Pm25);
    assert_eq!(node.cin_baseline, 25 * SCALE);
    assert_eq!(node.cin_unit, AirConcentrationUnit::UgPerM3);
    assert_eq!(node.cref, 10 * SCALE);
    assert_eq!(node.cref_unit, AirConcentrationUnit::UgPerM3);
    assert_eq!(node.q_air, 200_000);
    assert_eq!(node.q_unit, AirFlowUnit::M3PerH);
    assert_eq!(node.horizon_s, 3600 * SCALE);
    assert_eq!(node.ecoimpactscore, 900_000);
    assert_eq!(node.hazard_weight, 2 * SCALE);
    assert_eq!(node.karma_per_unit, 1_000_000 * SCALE);
    assert_eq!(node.notes, "High priority");
}

#[test]
fn node_notes_keep_their_commas() {
    let fields = strings(&[
        "N", "L", "ozone", "1", "ppb", "2", "PPM", "3", "cfm", "4", "5", "6", "7", "a", "b", "",
        "c",
    ]);
    let node = node_from_fields(9, &fields, &good_numbers()).unwrap();
    assert_eq!(node.notes, "a,b,,c");
    assert_eq!(node.pollutant, AirPollutant::O3);
    assert_eq!(node.cin_unit, AirConcentrationUnit::Ppb);
    assert_eq!(node.cref_unit, AirConcentrationUnit::Ppm);
    assert_eq!(node.q_unit, AirFlowUnit::Other("cfm".to_string()));
}

#[test]
fn node_line_with_too_few_fields() {
    let fields = strings(&["a", "b", "c"]);
    let err = node_from_fields(12, &fields, &good_numbers()).unwrap_err();
    assert_eq!(err, CyboAirShardError::Parse("Line 12 has insufficient fields: 3".to_string()));
    assert_eq!(err.message(), "Parse error: Line 12 has insufficient fields: 3");
    let thirteen = strings(&["x"; 13]);
    let err = node_from_fields(0, &thirteen, &good_numbers()).unwrap_err();
    assert_eq!(err, CyboAirShardError::Parse("Line 0 has insufficient fields: 13".to_string()));
    // A short line is reported before any bad number.
    let mut numbers = good_numbers();
    numbers[0] = Err("invalid float literal".to_string());
    let err = node_from_fields(usize::MAX, &strings(&[]), &numbers).unwrap_err();
    assert_eq!(
        err,
        CyboAirShardError::Parse(format!("Line {} has insufficient fields: 0", usize::MAX))
    );
}

#[test]
fn node_line_with_bad_numbers() {
    let fields = strings(&["x"; 14]);
    let names = [
        "cin_baseline",
        "cref",
        "q_air",
        "horizon_s",
        "ecoimpactscore",
        "hazard_weight",
        "karma_per_unit",
    ];
    for (k, name) in names.iter().enumerate() {
        let mut numbers = good_numbers();
        numbers[k] = Err("invalid float literal".to_string());
        // A later bad number does not change the report.
        numbers[6] = Err(if k == 6 { "invalid float literal" } else { "later" }.to_string());
        let err = node_from_fields(2, &fields, &numbers).unwrap_err();
        assert_eq!(
            err,
            CyboAirShardError::Parse(format!("{} parse error: invalid float literal", name))
        );
    }
}

#[test]
fn row_split_drops_an_empty_tail() {
    assert_eq!(split_row_line("a,b,"), vec!["a", "b"]);
    assert_eq!(split_csv_line("a,b,"), vec!["a", "b", ""]);
    assert_eq!(split_row_line("a,b, "), vec!["a", "b", ""]);
    assert_eq!(split_row_line(""), Vec::<String>::new());
    assert_eq!(split_row_line(","), vec![""]);
    assert_eq!(split_row_line("\"x,y\", z "), vec!["x,y", "z"]);
}

#[test]
fn row_from_a_full_line() {
    let line = "CA-01,scrubber,\"Roosevelt School, east\",PM2.5,25.0,15.0,ug/m3,0.1,3600,2.0,1e4,0.9,first run";
    let parts = split_row_line(line);
    let numbers = [
        Ok(25 * SCALE),
        Ok(15 * SCALE),
        Ok(100_000),
        Ok(3600 * SCALE),
        Ok(2 * SCALE),
        Ok(10_000 * SCALE),
        Ok(900_000),
    ];
    let row = row_from_fields(&parts, &numbers).unwrap();
    assert_eq!(row.machineid, "CA-01");
    assert_eq!(row.rtype, "scrubber");
    assert_eq!(row.location, "Roosevelt School, east");
    assert_eq!(row.pollutant, "PM2.5");
    assert_eq!(row.cin, 25 * SCALE);
    assert_eq!(row.cout, 15 * SCALE);
    assert_eq!(row.unit, "ug/m3");
    assert_eq!(row.airflow_m3_per_s, 100_000);
    assert_eq!(row.period_s, 3600 * SCALE);
    assert_eq!(row.lambda_hazard, 2 * SCALE);
    assert_eq!(row.beta_nb_per_ng, 10_000 * SCALE);
    assert_eq!(row.ecoimpact_score, 900_000);
    assert_eq!(row.notes, "first run");
}

#[test]
fn row_errors() {
    let numbers = good_numbers();
    let err = row_from_fields(&strings(&["x"; 12]), &numbers).unwrap_err();
    assert_eq!(err, "Not enough columns in CyboAir row");
    let mut bad = good_numbers();
    bad[3] = Err("invalid float literal".to_string());
    bad[5] = Err("cannot parse float from empty string".to_string());
    let err = row_from_fields(&strings(&["x"; 13]), &bad).unwrap_err();
    assert_eq!(err, "invalid float literal");
    let err = row_from_fields(&strings(&["x"; 3]), &bad).unwrap_err();
    assert_eq!(err, "Not enough columns in CyboAir row");
    assert!(row_from_fields(&strings(&["x"; 20]), &numbers).is_ok());
}

#[test]
fn decimal_numerals() {
    assert_eq!(decimal_text(0), "0");
    assert_eq!(decimal_text(7), "7");
    assert_eq!(decimal_text(10), "10");
    assert_eq!(decimal_text(1234567890), "1234567890");
    assert_eq!(decimal_text(u128::MAX), u128::MAX.to_string());
}

#[test]
fn joining_with_commas() {
    let items = strings(&["a", "", "b c", "d"]);
    assert_eq!(join_from(&items, 0), "a,,b c,d");
    assert_eq!(join_from(&items, 2), "b c,d");
    assert_eq!(join_from(&items, 3), "d");
    assert_eq!(join_from(&items, 4), "");
    assert_eq!(join_from(&items, 9), "");
    assert_eq!(join_from(&strings(&[]), 0), "");
}

#[test]
fn blank_lines() {
    assert!(is_blank_line(""));
    assert!(is_blank_line(" \t\r\n"));
    assert!(is_blank_line("\u{2003}\u{a0}"));
    assert!(!is_blank_line(" , "));
    assert!(!is_blank_line("x"));
    assert!(!is_blank_line("\u{200b}"));
}

#[test]
fn text_helpers() {
    assert!(same_text("µg/m3", "µg/m3"));
    assert!(!same_text("ug/m3", "µg/m3"));
    assert!(!same_text("a", "ab"));
    assert!(same_text("", ""));
    assert_eq!(to_chars("aé\u{1F600}"), vec!['a', 'é', '\u{1F600}']);
    let chars = to_chars("  héllo \n");
    assert_eq!(from_chars(&chars, 2, 7), "héllo");
    assert_eq!(from_chars(&chars, 3, 3), "");
    assert_eq!(trim_chars(&chars), "héllo");
    assert_eq!(trim_chars(&to_chars(" \t ")), "");
    assert_eq!(trim_chars(&to_chars("")), "");
    assert_eq!(trim_chars(&to_chars("a b")), "a b");
    assert!(contains_text("abc", ""));
    assert!(contains_text("", ""));
    assert!(!contains_text("", "a"));
    assert!(contains_text("abc", "abc"));
    assert!(contains_text("xxabc", "abc"));
    assert!(contains_text("aab", "ab"));
    assert!(!contains_text("abc", "abcd"));
    assert!(!contains_text("abc", "ac"));
    assert!(contains_text("añb", "ñ"));
}

#[test]
fn fixed_point_decimals() {
    assert_eq!(render_fixed(33_448_400, 4), "33.4484");
    assert_eq!(render_fixed(-112_074_000, 4), "-112.0740");
    assert_eq!(render_fixed(7_016_125, 1), "7.0");
    assert_eq!(render_fixed(500_000, 3), "0.500");
    assert_eq!(render_fixed(12_500_000, 2), "12.50");
    assert_eq!(render_fixed(0, 3), "0.000");
    assert_eq!(render_fixed(0, 0), "0");
    assert_eq!(render_fixed(-1, 6), "-0.000001");
    assert_eq!(render_fixed(1, 6), "0.000001");
    // Ties go to the even neighbour, as for floats that hold the tie exactly.
    assert_eq!(render_fixed(1_250_000, 1), format!("{:.1}", 1.25));
    assert_eq!(render_fixed(1_250_000, 1), "1.2");
    assert_eq!(render_fixed(1_350_000, 1), "1.4");
    assert_eq!(render_fixed(1_250_001, 1), "1.3");
    assert_eq!(render_fixed(500_000, 0), "0");
    assert_eq!(render_fixed(1_500_000, 0), "2");
    assert_eq!(render_fixed(2_500_000, 0), "2");
    assert_eq!(render_fixed(999_999, 0), "1");
    assert_eq!(render_fixed(999_999, 5), "1.00000");
    assert_eq!(render_fixed(999_994, 5), "0.99999");
    // A negative value keeps its sign even where it rounds to zero.
    assert_eq!(render_fixed(-40_000, 1), format!("{:.1}", -0.04));
    assert_eq!(render_fixed(-40_000, 1), "-0.0");
    assert_eq!(render_fixed(-1_500_000, 0), "-2");
    assert_eq!(
        render_fixed(i128::MAX, 6),
        "170141183460469231731687303715884.105727"
    );
    assert_eq!(
        render_fixed(i128::MIN, 6),
        "-170141183460469231731687303715884.105728"
    );
    assert_eq!(render_fixed(i128::MIN, 0), "-170141183460469231731687303715884");
    assert_eq!(replace_double_quotes("a \"b\" 'c'"), "a 'b' 'c'");
    assert_eq!(replace_double_quotes(""), "");
}

#[test]
fn unit_keys_are_taken_literally() {
    assert_eq!(AirConcentrationUnit::from_key("ppb"), AirConcentrationUnit::Ppb);
    assert_eq!(AirConcentrationUnit::from_key("ppb "), AirConcentrationUnit::Other("ppb ".to_string()));
    assert_eq!(AirFlowUnit::from_key("m3/hr"), AirFlowUnit::M3PerH);
    assert_eq!(AirFlowUnit::from_key(" m3/s"), AirFlowUnit::Other(" m3/s".to_string()));
}
