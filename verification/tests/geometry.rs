use rusty_cdb::error::CdbError;
use rusty_cdb::geometry::{check_len, Extra, GeometryCode, GeometryContext, GeometryViolation};
use rusty_cdb::metadata::UnitOfMeasure;

#[test]
fn req_core_geometry_types_codes_match_geopackage_table() {
    let expected: [(u16, &str); 20] = [
        (0, "Geometry"),
        (1, "Point"),
        (2, "Linestring"),
        (3, "Polygon"),
        (4, "MultiPoint"),
        (5, "MultiLinestring"),
        (6, "MultiPolygon"),
        (7, "GeometryCollection"),
        (1001, "Point Z"),
        (1002, "Linestring Z"),
        (1003, "Polygon Z"),
        (1004, "MultiPoint Z"),
        (2001, "Point M"),
        (2002, "Linestring M"),
        (2003, "Polygon M"),
        (2004, "MultiPoint M"),
        (11, "MULTICURVE"),
        (12, "MULTISURFACE"),
        (13, "CURVE"),
        (14, "SURFACE"),
    ];
    assert_eq!(GeometryCode::ALL.len(), expected.len());
    for (code, name) in expected {
        let parsed = GeometryCode::from_code(code).unwrap();
        assert_eq!(parsed.code(), code);
        assert_eq!(parsed.name(), name);
        assert_eq!(parsed.to_string(), name);
        assert!(GeometryCode::ALL.contains(&parsed));
    }
}

#[test]
fn req_core_geometry_types_unknown_code_rejected() {
    for bad in [8u16, 10, 15, 999, 1005, 2005, 3001] {
        assert!(matches!(
            GeometryCode::from_code(bad),
            Err(GeometryViolation::UnknownGeometryCode { code }) if code == bad
        ));
    }
}

#[test]
fn req_core_geometry_types_extension_codes_flagged() {
    for code in [11u16, 12, 13, 14] {
        let c = GeometryCode::from_code(code).unwrap();
        assert!(c.is_extension());
        assert!(!c.is_core());
    }
    for code in [0u16, 1, 7, 1001, 1004, 2001, 2004] {
        let c = GeometryCode::from_code(code).unwrap();
        assert!(c.is_core());
        assert!(!c.is_extension());
    }
}

#[test]
fn geometry_violation_converts_to_cdb_error() {
    let err: CdbError = GeometryViolation::UnknownGeometryCode { code: 999 }.into();
    assert!(matches!(err, CdbError::Geometry(_)));
}

#[test]
fn length_check_names_the_family_and_part() {
    assert_eq!(check_len(3, 3, "exterior", Extra::Z), Ok(()));
    assert_eq!(
        check_len(3, 1, "exterior", Extra::Z),
        Err(GeometryViolation::ZLengthMismatch {
            expected: 3,
            found: 1,
            part: "exterior".to_owned()
        })
    );
    assert_eq!(
        check_len(4, 2, "interior 0", Extra::M),
        Err(GeometryViolation::MLengthMismatch {
            expected: 4,
            found: 2,
            part: "interior 0".to_owned()
        })
    );
}

#[test]
fn context_checks_crs_then_z_then_m() {
    let wgs84 = ("EPSG".to_owned(), "4326".to_owned());
    let ctx = GeometryContext::new(Some(wgs84.clone()), Some(UnitOfMeasure::Meters), None);
    assert_eq!(ctx.check_geometry(true, false, None), Ok(()));
    assert_eq!(
        ctx.check_geometry(false, true, None),
        Err(GeometryViolation::MissingMUom)
    );
    assert_eq!(
        ctx.check_geometry(false, false, Some(&("epsg".to_owned(), "4326".to_owned()))),
        Ok(())
    );
    assert_eq!(
        ctx.check_geometry(true, true, Some(&("EPSG".to_owned(), "3857".to_owned()))),
        Err(GeometryViolation::ForeignCrs {
            declared: "EPSG:3857".to_owned(),
            datastore: "EPSG:4326".to_owned()
        })
    );
    let unidentified = GeometryContext::new(None, None, None);
    assert_eq!(
        unidentified.check_geometry(false, false, Some(&wgs84)),
        Err(GeometryViolation::ForeignCrs {
            declared: "EPSG:4326".to_owned(),
            datastore: "unidentified".to_owned()
        })
    );
    assert_eq!(
        unidentified.check_geometry(true, false, None),
        Err(GeometryViolation::MissingZUom)
    );
}
