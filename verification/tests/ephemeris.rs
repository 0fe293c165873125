use horizons::ephemeris::{
    EphemerisOrbitalElementsParser, EphemerisVectorParser, ParseError,
};

/// One position line: each value right-aligned in its 22-character field.
fn position_line(x: &str, y: &str, z: &str) -> String {
    format!(" X ={:>22} Y ={:>22} Z ={:>22}", x, y, z)
}

/// One velocity line.
fn velocity_line(vx: &str, vy: &str, vz: &str) -> String {
    format!(" VX={:>22} VY={:>22} VZ={:>22}", vx, vy, vz)
}

fn orbital_line1(ec: &str, qr: &str, inc: &str) -> String {
    format!(" EC={:>22} QR={:>22} IN={:>22}", ec, qr, inc)
}

fn orbital_line2(om: &str, w: &str, tp: &str) -> String {
    format!(" OM={:>22} W ={:>22} Tp={:>22}", om, w, tp)
}

fn orbital_line3(n: &str, ma: &str, ta: &str) -> String {
    format!(" N ={:>22} MA={:>22} TA={:>22}", n, ma, ta)
}

fn orbital_line4(a: &str, ad: &str, pr: &str) -> String {
    format!(" A ={:>22} AD={:>22} PR={:>22}", a, ad, pr)
}

/// A report with four vector data blocks; the first block holds the
/// values the assertions check.
fn vector_report() -> Vec<String> {
    let mut lines: Vec<String> = Vec::new();
    lines.push("$$SOE".to_string());
    let dates = [
        "2459396.500000000 = A.D. 2021-Jul-01 00:00:00.0000 TDB",
        "2459397.500000000 = A.D. 2021-Jul-02 00:00:00.0000 TDB",
        "2459398.500000000 = A.D. 2021-Jul-03 00:00:00.0000 TDB",
        "2459399.500000000 = A.D. 2021-Jul-04 00:00:00.0000 TDB",
    ];
    let positions = [
        ["1.870010427985840E+02", "2.484687803242536E+03", "-5.861602653492581E+03"],
        ["-2.905934510886221E+04", "2.301448096183395E+03", "-5.763564144570300E+03"],
        ["-5.801427093828202E+04", "2.061668207378469E+03", "-5.657776241204925E+03"],
        ["-8.685229580986816E+04", "1.767536305438600E+03", "-5.544818016374955E+03"],
    ];
    let velocities = [
        ["-3.362664133558439E-01", "1.344100266143978E-02", "-5.030275220358716E-03"],
        ["-3.333168641020752E-01", "-2.537029882398185E-03", "1.102255517364676E-02"],
        ["-3.331029907073756E-01", "-2.767109185316896E-03", "1.112639074899368E-02"],
        ["-3.345288394450773E-01", "-3.982873645730249E-03", "1.267795301774736E-02"],
    ];
    for i in 0..4 {
        lines.push(dates[i].to_string());
        lines.push(position_line(positions[i][0], positions[i][1], positions[i][2]));
        lines.push(velocity_line(velocities[i][0], velocities[i][1], velocities[i][2]));
        lines.push(
            " LT= 1.950812901927432E-02 RG= 5.848709955136530E+06 RR=-2.925056877437905E+00"
                .to_string(),
        );
    }
    lines.push("$$EOE".to_string());
    lines
}

/// A report with four orbital-element data blocks; the first block holds
/// the values the assertions check.
fn orbital_elements_report() -> Vec<String> {
    let mut lines: Vec<String> = Vec::new();
    lines.push("$$SOE".to_string());
    let blocks = [
        [
            "1.711794334680415E-02",
            "1.469885520304013E+08",
            "3.134746902320420E-03",
            "1.633896137466430E+02",
            "3.006492364709574E+02",
            "2459392.818915294670",
            "1.141316101270797E-05",
            "1.635515780663357E+02",
            "1.640958153023696E+02",
            "1.495485150384278E+08",
            "1.521084780464543E+08",
            "3.154253230977451E+07",
        ],
        [
            "1.712092962724087E-02",
            "1.469843387484571E+08",
            "3.134496400432760E-03",
            "1.633888841035643E+02",
            "3.006563467240419E+02",
            "2459392.820276766457",
            "1.141320968593313E-05",
            "1.645411214317668E+02",
            "1.650716865878571E+02",
            "1.495480898085994E+08",
            "1.521118408687417E+08",
            "3.154239778329178E+07",
        ],
        [
            "1.712355610599324E-02",
            "1.469802752024346E+08",
            "3.134226004840845E-03",
            "1.633881516268222E+02",
            "3.006626124665883E+02",
            "2459392.821388172824",
            "1.141325449337659E-05",
            "1.655307948578512E+02",
            "1.660477476625115E+02",
            "1.495476984488082E+08",
            "1.521151216951819E+08",
            "3.154227397042575E+07",
        ],
        [
            "1.712584893435909E-02",
            "1.469763726886050E+08",
            "3.133939177134780E-03",
            "1.633874123091269E+02",
            "3.006680489184371E+02",
            "2459392.822189738415",
            "1.141329532229438E-05",
            "1.665206119280611E+02",
            "1.670240379195102E+02",
            "1.495473411656061E+08",
            "1.521183096426072E+08",
            "3.154216112942050E+07",
        ],
    ];
    let dates = [
        "2459396.500000000 = A.D. 2021-Jul-01 00:00:00.0000 TDB",
        "2459397.500000000 = A.D. 2021-Jul-02 00:00:00.0000 TDB",
        "2459398.500000000 = A.D. 2021-Jul-03 00:00:00.0000 TDB",
        "2459399.500000000 = A.D. 2021-Jul-04 00:00:00.0000 TDB",
    ];
    for i in 0..4 {
        let b = &blocks[i];
        lines.push(dates[i].to_string());
        lines.push(orbital_line1(b[0], b[1], b[2]));
        lines.push(orbital_line2(b[3], b[4], b[5]));
        lines.push(orbital_line3(b[6], b[7], b[8]));
        lines.push(orbital_line4(b[9], b[10], b[11]));
    }
    lines.push("$$EOE".to_string());
    lines
}

#[test]
fn test_parsing_ephemeris_vector() {
    let mut parser = EphemerisVectorParser::parse(vector_report());
    let ephem = parser.collect_all().unwrap();
    assert_eq!(4, ephem.len());
    assert_eq!(
        1.870010427985840E+02_f64,
        ephem[0].position[0].parse::<f64>().unwrap()
    );
    assert_eq!(
        2.484687803242536E+03_f64,
        ephem[0].position[1].parse::<f64>().unwrap()
    );
    assert_eq!(
        -5.861602653492581E+03_f64,
        ephem[0].position[2].parse::<f64>().unwrap()
    );
    assert_eq!(
        -3.362664133558439E-01_f64,
        ephem[0].velocity[0].parse::<f64>().unwrap()
    );
    assert_eq!(
        1.344100266143978E-02_f64,
        ephem[0].velocity[1].parse::<f64>().unwrap()
    );
    assert_eq!(
        -5.030275220358716E-03_f64,
        ephem[0].velocity[2].parse::<f64>().unwrap()
    );
}

#[test]
fn test_parsing_ephemeris_orbital_elements() {
    let mut parser = EphemerisOrbitalElementsParser::parse(orbital_elements_report());
    let ephem = parser.collect_all().unwrap();
    assert_eq!(4, ephem.len());
    assert_eq!(
        1.711794334680415E-02_f64,
        ephem[0].eccentricity.parse::<f64>().unwrap()
    );
    assert_eq!(
        3.134746902320420E-03_f64,
        ephem[0].inclination.parse::<f64>().unwrap()
    );
    assert_eq!(
        1.633896137466430E+02_f64,
        ephem[0].longitude_of_ascending_node.parse::<f64>().unwrap()
    );
    assert_eq!(
        3.006492364709574E+02_f64,
        ephem[0].argument_of_perifocus.parse::<f64>().unwrap()
    );
    assert_eq!(
        1.635515780663357E+02_f64,
        ephem[0].mean_anomaly.parse::<f64>().unwrap()
    );
    assert_eq!(
        1.495485150384278E+08_f64,
        ephem[0].semi_major_axis.parse::<f64>().unwrap()
    );
}

#[test]
fn vector_record_fields_keep_the_report_text() {
    let mut parser = EphemerisVectorParser::parse(vector_report());
    let ephem = parser.collect_all().unwrap();
    assert_eq!("1.870010427985840E+02", ephem[0].position[0]);
    assert_eq!("2.484687803242536E+03", ephem[0].position[1]);
    assert_eq!("-5.861602653492581E+03", ephem[0].position[2]);
    assert_eq!("-3.362664133558439E-01", ephem[0].velocity[0]);
    assert_eq!("1.344100266143978E-02", ephem[0].velocity[1]);
    assert_eq!("-5.030275220358716E-03", ephem[0].velocity[2]);
}

#[test]
fn one_vector_block_round_trips_whatever_the_annotation_says() {
    for annotation in ["", "any text at all", "$$EOE trap", " X = not a field line"] {
        let lines = vec![
            "$$SOE".to_string(),
            "2459396.500000000 = A.D. 2021-Jul-01 00:00:00.0000 TDB".to_string(),
            position_line("1.0", "-2.5", "3.0E+01"),
            velocity_line("-4.25E-03", "5.5", "6.125"),
            annotation.to_string(),
            "$$EOE".to_string(),
        ];
        let mut parser = EphemerisVectorParser::parse(lines);
        let ephem = parser.collect_all().unwrap();
        assert_eq!(1, ephem.len());
        assert_eq!("1.0", ephem[0].position[0]);
        assert_eq!("-2.5", ephem[0].position[1]);
        assert_eq!("3.0E+01", ephem[0].position[2]);
        assert_eq!("-4.25E-03", ephem[0].velocity[0]);
        assert_eq!("5.5", ephem[0].velocity[1]);
        assert_eq!("6.125", ephem[0].velocity[2]);
    }
}

#[test]
fn discarded_orbital_fields_never_change_the_record() {
    let mut records = Vec::new();
    for (qr, tp, n, ta, ad, pr) in [
        ("1.0", "2.0", "3.0", "4.0", "5.0", "6.0"),
        ("9.9E+09", "-1.0E-09", "0.0", "360.0", "totally", "ignored"),
    ] {
        let lines = vec![
            "$$SOE".to_string(),
            "a date line".to_string(),
            orbital_line1("1.711794334680415E-02", qr, "3.134746902320420E-03"),
            orbital_line2("1.633896137466430E+02", "3.006492364709574E+02", tp),
            orbital_line3(n, "1.635515780663357E+02", ta),
            orbital_line4("1.495485150384278E+08", ad, pr),
            "$$EOE".to_string(),
        ];
        let mut parser = EphemerisOrbitalElementsParser::parse(lines);
        records.push(parser.collect_all().unwrap());
    }
    assert_eq!(records[0], records[1]);
    assert_eq!(1, records[0].len());
    assert_eq!("1.711794334680415E-02", records[0][0].eccentricity);
    assert_eq!("3.134746902320420E-03", records[0][0].inclination);
    assert_eq!("1.633896137466430E+02", records[0][0].longitude_of_ascending_node);
    assert_eq!("3.006492364709574E+02", records[0][0].argument_of_perifocus);
    assert_eq!("1.635515780663357E+02", records[0][0].mean_anomaly);
    assert_eq!("1.495485150384278E+08", records[0][0].semi_major_axis);
}

#[test]
fn empty_data_section_yields_empty_sequence() {
    let lines = vec!["$$SOE".to_string(), "$$EOE".to_string()];
    let mut vectors = EphemerisVectorParser::parse(lines.clone());
    assert_eq!(0, vectors.collect_all().unwrap().len());
    let mut elements = EphemerisOrbitalElementsParser::parse(lines);
    assert_eq!(0, elements.collect_all().unwrap().len());
}

#[test]
fn missing_start_marker_yields_empty_sequence() {
    let lines = vec![
        "Ephemeris / WWW_USER Thu Jul  1 12:00:00 2021 Pasadena, USA      / Horizons".to_string(),
        "2459396.500000000 = A.D. 2021-Jul-01 00:00:00.0000 TDB".to_string(),
        position_line("1.0", "2.0", "3.0"),
        velocity_line("4.0", "5.0", "6.0"),
        "$$EOE".to_string(),
    ];
    let mut vectors = EphemerisVectorParser::parse(lines.clone());
    assert_eq!(0, vectors.collect_all().unwrap().len());
    let mut elements = EphemerisOrbitalElementsParser::parse(lines);
    assert_eq!(0, elements.collect_all().unwrap().len());
}

#[test]
fn empty_input_yields_empty_sequence() {
    let mut parser = EphemerisVectorParser::parse(Vec::new());
    assert!(parser.next().is_none());
}

#[test]
fn input_exhausted_mid_block_yields_no_partial_record() {
    let lines = vec![
        "$$SOE".to_string(),
        "a date line".to_string(),
        position_line("1.0", "2.0", "3.0"),
    ];
    let mut parser = EphemerisVectorParser::parse(lines);
    let ephem = parser.collect_all().unwrap();
    assert_eq!(0, ephem.len());
}

#[test]
fn missing_end_marker_still_emits_complete_blocks() {
    let lines = vec![
        "$$SOE".to_string(),
        "a date line".to_string(),
        position_line("1.0", "2.0", "3.0"),
        velocity_line("4.0", "5.0", "6.0"),
        "an annotation line".to_string(),
    ];
    let mut parser = EphemerisVectorParser::parse(lines);
    let ephem = parser.collect_all().unwrap();
    assert_eq!(1, ephem.len());
    assert_eq!("3.0", ephem[0].position[2]);
}

#[test]
fn wrong_position_tag_is_a_fatal_tag_mismatch() {
    let bad = format!(" Y ={:>22} Y ={:>22} Z ={:>22}", "1.0", "2.0", "3.0");
    let lines = vec![
        "$$SOE".to_string(),
        "a date line".to_string(),
        bad.clone(),
        velocity_line("4.0", "5.0", "6.0"),
        "an annotation line".to_string(),
        "another date line".to_string(),
        position_line("1.0", "2.0", "3.0"),
        velocity_line("4.0", "5.0", "6.0"),
        "an annotation line".to_string(),
        "$$EOE".to_string(),
    ];
    let mut parser = EphemerisVectorParser::parse(lines);
    match parser.next() {
        Some(Err(ParseError::FieldTagMismatch { expected, actual })) => {
            assert_eq!(" X =", expected);
            assert_eq!(bad, actual);
        },
        other => panic!("expected a tag mismatch, got {:?}", other),
    }
    // The error is fatal: no record of that block or any later block.
    assert!(parser.next().is_none());
}

#[test]
fn wrong_velocity_tag_is_a_fatal_tag_mismatch() {
    let lines = vec![
        "$$SOE".to_string(),
        "a date line".to_string(),
        position_line("1.0", "2.0", "3.0"),
        position_line("4.0", "5.0", "6.0"),
        "an annotation line".to_string(),
        "$$EOE".to_string(),
    ];
    let mut parser = EphemerisVectorParser::parse(lines);
    match parser.next() {
        Some(Err(ParseError::FieldTagMismatch { expected, .. })) => {
            assert_eq!(" VX=", expected);
        },
        other => panic!("expected a tag mismatch, got {:?}", other),
    }
}

#[test]
fn garbage_field_is_a_numeric_format_error() {
    let lines = vec![
        "$$SOE".to_string(),
        "a date line".to_string(),
        position_line("n/a", "2.0", "3.0"),
        "$$EOE".to_string(),
    ];
    let mut parser = EphemerisVectorParser::parse(lines);
    match parser.next() {
        Some(Err(ParseError::NumericFormatError { value })) => {
            assert_eq!("n/a", value);
        },
        other => panic!("expected a numeric format error, got {:?}", other),
    }
    assert!(parser.next().is_none());
}

#[test]
fn orbital_tag_mismatch_names_the_expected_tag() {
    let lines = vec![
        "$$SOE".to_string(),
        "a date line".to_string(),
        orbital_line2("1.0", "2.0", "3.0"),
        "$$EOE".to_string(),
    ];
    let mut parser = EphemerisOrbitalElementsParser::parse(lines);
    match parser.next() {
        Some(Err(ParseError::FieldTagMismatch { expected, .. })) => {
            assert_eq!(" EC=", expected);
        },
        other => panic!("expected a tag mismatch, got {:?}", other),
    }
}

#[test]
fn exhausted_parser_stays_exhausted() {
    let mut parser = EphemerisVectorParser::parse(vector_report());
    assert_eq!(4, parser.collect_all().unwrap().len());
    assert!(parser.next().is_none());
    assert_eq!(0, parser.collect_all().unwrap().len());
}

#[test]
fn garbage_kept_orbital_field_is_a_numeric_format_error() {
    let lines = vec![
        "$$SOE".to_string(),
        "a date line".to_string(),
        orbital_line1("bad", "1.469885520304013E+08", "3.134746902320420E-03"),
        "$$EOE".to_string(),
    ];
    let mut parser = EphemerisOrbitalElementsParser::parse(lines);
    match parser.next() {
        Some(Err(ParseError::NumericFormatError { value })) => {
            assert_eq!("bad", value);
        },
        other => panic!("expected a numeric format error, got {:?}", other),
    }
}

#[test]
fn parse_concrete_vector_scenario() {
    let lines = vec![
        "$$SOE".to_string(),
        "2459396.500000000 = A.D. 2021-Jul-01 00:00:00.0000 TDB".to_string(),
        position_line(
            "1.870010427985840E+02",
            "2.484687803242536E+03",
            "-5.861602653492581E+03",
        ),
        velocity_line(
            "-3.362664133558439E-01",
            "1.344100266143978E-02",
            "-5.030275220358716E-03",
        ),
        "an annotation line".to_string(),
        "$$EOE".to_string(),
    ];
    let mut parser = EphemerisVectorParser::parse(lines);
    let ephem = parser.collect_all().unwrap();
    assert_eq!(1, ephem.len());
    let expected_position = [1.870010427985840E+02_f64, 2.484687803242536E+03, -5.861602653492581E+03];
    let expected_velocity = [-3.362664133558439E-01_f64, 1.344100266143978E-02, -5.030275220358716E-03];
    for i in 0..3 {
        assert_eq!(expected_position[i], ephem[0].position[i].parse::<f64>().unwrap());
        assert_eq!(expected_velocity[i], ephem[0].velocity[i].parse::<f64>().unwrap());
    }
}
