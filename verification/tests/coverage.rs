use rusty_cdb::coverage::{CoverageViolation, GridCellEncoding, GridCorner};
use rusty_cdb::error::CdbError;

#[test]
fn coverage_violation_converts_to_cdb_error() {
    let err: CdbError = CoverageViolation::UnknownGridCorner { value: "x".into() }.into();
    assert!(matches!(err, CdbError::Coverage(_)));
}

#[test]
fn grid_enum_wire_spellings_roundtrip() {
    let encodings = [
        (GridCellEncoding::ValueIsCenter, "value-is-center"),
        (GridCellEncoding::ValueIsArea, "value-is-area"),
        (GridCellEncoding::ValueIsCorner, "value-is-corner"),
    ];
    assert_eq!(GridCellEncoding::ALL.len(), encodings.len());
    for (variant, wire) in encodings {
        assert_eq!(variant.as_str(), wire);
        assert_eq!(variant.to_string(), wire);
        assert_eq!(GridCellEncoding::parse(wire).unwrap(), variant);
    }
    assert_eq!(GridCellEncoding::default(), GridCellEncoding::ValueIsCenter);
    assert!(matches!(
        GridCellEncoding::parse("value-is-random"),
        Err(CoverageViolation::UnknownGridCellEncoding { .. })
    ));
    let corners = [
        (GridCorner::LowerLeft, "lower-left-corner"),
        (GridCorner::UpperLeft, "upper-left-corner"),
        (GridCorner::LowerRight, "lower-right-corner"),
        (GridCorner::UpperRight, "upper-right-corner"),
    ];
    assert_eq!(GridCorner::ALL.len(), corners.len());
    for (variant, wire) in corners {
        assert_eq!(variant.as_str(), wire);
        assert_eq!(GridCorner::parse(wire).unwrap(), variant);
    }
    assert!(matches!(
        GridCorner::parse("center"),
        Err(CoverageViolation::UnknownGridCorner { .. })
    ));
}
