use rusty_cdb::crs::wkt2::{classify, is_crs_node, is_dynamic, parse, unit_kind, CrsKind, UnitKind, WktValue};
use rusty_cdb::crs::{authority_ids_match, CrsError, CrsViolation};
use rusty_cdb::error::CdbError;

#[test]
fn crs_error_converts_to_cdb_error() {
    let error: CdbError = CrsError::from(CrsViolation::MissingEpoch).into();
    assert!(matches!(error, CdbError::Crs(_)));
}

#[test]
fn authority_ids_match_is_ascii_case_insensitive() {
    let a = ("EPSG".to_owned(), "4326".to_owned());
    let b = ("epsg".to_owned(), "4326".to_owned());
    let c = ("EPSG".to_owned(), "4269".to_owned());
    assert!(authority_ids_match(&a, &b));
    assert!(authority_ids_match(&a, &a));
    assert!(!authority_ids_match(&a, &c));
}

#[test]
fn wkt2_parses_nested_structure() {
    let node = parse(r#"AXIS["latitude",north,ORDER[1]]"#).unwrap();
    assert_eq!(node.keyword, "AXIS");
    assert_eq!(node.name(), Some("latitude"));
    assert!(node.arguments[1] == WktValue::Keyword("NORTH".into()));
    let order = node.find("ORDER").unwrap();
    assert!(order.arguments[0] == WktValue::Number("1".into()));
}

#[test]
fn wkt2_unescapes_doubled_quotes() {
    let node = parse(r#"REMARK["say ""hi"""]"#).unwrap();
    assert_eq!(node.name(), Some(r#"say "hi""#));
}

#[test]
fn wkt2_lenient_missing_commas_and_spaced_brackets() {
    let node = parse(r#"COMPOUNDCRS ["x" GEOGCRS["a"] VERTCRS["b"]]"#).unwrap();
    assert_eq!(node.keyword, "COMPOUNDCRS");
    assert_eq!(node.child_nodes().len(), 2);
}

#[test]
fn wkt2_rejects_malformed() {
    for input in [
        "",
        "GEOGCRS",
        r#"GEOGCRS["x""#,
        r#"GEOGCRS["x"] extra"#,
        "ORDER[1.2.3]",
        r#"A[1)"#,
        r#"NAME["unterminated]"#,
    ] {
        assert!(
            matches!(parse(input), Err(CrsViolation::InvalidWkt { .. })),
            "{input:?}"
        );
    }
}

#[test]
fn wkt2_depth_limit_guards_recursion() {
    let mut deep = String::new();
    for _ in 0..100 {
        deep.push_str("A[");
    }
    deep.push('1');
    deep.push_str(&"]".repeat(100));
    assert!(matches!(parse(&deep), Err(CrsViolation::InvalidWkt { .. })));
}

#[test]
fn wkt2_classifies_crs_kinds_with_aliases() {
    let cases = [
        (r#"GEODCRS["x"]"#, CrsKind::Geodetic),
        (r#"GEOGRAPHICCRS["x"]"#, CrsKind::Geographic),
        (r#"PROJCRS["x"]"#, CrsKind::Projected),
        (r#"VERTICALCRS["x"]"#, CrsKind::Vertical),
        (r#"ENGCRS["x"]"#, CrsKind::Engineering),
        (r#"COMPOUNDCRS["x"]"#, CrsKind::Compound),
        (r#"DATUM["x"]"#, CrsKind::Other("DATUM".into())),
    ];
    for (input, expected) in cases {
        assert_eq!(classify(&parse(input).unwrap()), expected, "{input}");
    }
    assert!(is_crs_node(&parse(r#"GEOGCRS["x"]"#).unwrap()));
    assert!(!is_crs_node(&parse(r#"DATUM["x"]"#).unwrap()));
}

#[test]
fn wkt2_canonical_display_roundtrips() {
    let input = r#"GEOGCRS["NTF (Paris)",
        DATUM["D", ELLIPSOID["Clarke 1880 (IGN)",6378249.2,293.4660213]],
        REMARK["Nouvelle Triangulation Française"]]"#;
    let node = parse(input).unwrap();
    let canonical = node.to_string();
    assert!(parse(&canonical).unwrap() == node);
    assert!(canonical.contains(r#"ELLIPSOID["Clarke 1880 (IGN)",6378249.2,293.4660213]"#));
}

#[test]
fn wkt2_error_positions_are_byte_offsets() {
    // "é" takes two bytes, so the trailing word starts at byte 8, character 7.
    match parse("A[\"é\"] extra") {
        Err(CrsViolation::InvalidWkt { position, reason }) => {
            assert_eq!(position, 8);
            assert_eq!(reason, "unexpected trailing content");
        }
        other => panic!("{other:?}"),
    }
    match parse("ORDER[1.2.3]") {
        Err(CrsViolation::InvalidWkt { position, reason }) => {
            assert_eq!(position, 6);
            assert_eq!(reason, "invalid number \"1.2.3\"");
        }
        other => panic!("{other:?}"),
    }
    match parse("GEOGCRS") {
        Err(CrsViolation::InvalidWkt { position, reason }) => {
            assert_eq!(position, 7);
            assert_eq!(reason, "expected `[` after GEOGCRS");
        }
        other => panic!("{other:?}"),
    }
}

#[test]
fn wkt2_keywords_are_uppercased_and_quotes_doubled_on_display() {
    let node = parse(r#"remark ( "a""b" , north )"#).unwrap();
    assert_eq!(node.keyword, "REMARK");
    assert_eq!(node.to_string(), r#"REMARK["a""b",NORTH]"#);
}

#[test]
fn wkt2_number_grammar() {
    for ok in ["N[1]", "N[+1.]", "N[-.5]", "N[1e5]", "N[2.5E-3]"] {
        assert!(parse(ok).is_ok(), "{ok}");
    }
    for bad in ["N[1e]", "N[.]", "N[+]", "N[1e+]", "N[--1]"] {
        assert!(parse(bad).is_err(), "{bad}");
    }
}

#[test]
fn wkt2_canonical_form_of_a_lenient_definition_reads_back() {
    let input = "geogcrs ( \"Q\"\"uote\" , cs[ellipsoidal,2] axis[\"lat\", north, order[1]], -1.5e-3 )";
    let node = parse(input).unwrap();
    let canonical = node.to_string();
    assert_eq!(
        canonical,
        r#"GEOGCRS["Q""uote",CS[ELLIPSOIDAL,2],AXIS["lat",NORTH,ORDER[1]],-1.5e-3]"#
    );
    let again = parse(&canonical).unwrap();
    assert_eq!(again, node);
    assert_eq!(again.to_string(), canonical);
}

#[test]
fn unit_keywords_name_their_dimension() {
    let length = parse("LENGTHUNIT[\"metre\",1]").unwrap();
    assert_eq!(unit_kind(&length), Some(UnitKind::Length));
    let angle = parse("ANGLEUNIT[\"degree\",0.0174532925199433]").unwrap();
    assert_eq!(unit_kind(&angle), Some(UnitKind::Angle));
    let generic = parse("UNIT[\"metre\",1]").unwrap();
    assert_eq!(unit_kind(&generic), Some(UnitKind::Generic));
    let axis = parse("AXIS[\"latitude\",north]").unwrap();
    assert_eq!(unit_kind(&axis), None);
}

#[test]
fn a_dynamic_frame_is_a_dynamic_child() {
    let dynamic = parse("GEOGCRS[\"ITRF2014\",DYNAMIC[FRAMEEPOCH[2010]],CS[ellipsoidal,2]]").unwrap();
    assert!(is_dynamic(&dynamic));
    let fixed = parse("GEOGCRS[\"WGS 84\",CS[ellipsoidal,2]]").unwrap();
    assert!(!is_dynamic(&fixed));
}
