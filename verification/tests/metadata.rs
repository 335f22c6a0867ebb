use rusty_cdb::error::CdbError;
use rusty_cdb::links::{Link, LinkViolation};
use rusty_cdb::metadata::{
    check_builder, check_global_elements, check_resource_elements, BuilderElements,
    encoding_violations, LanguageTag, MetadataEncoding, MetadataError, MetadataStandard,
    MetadataViolation, UnitOfMeasure,
};

#[test]
fn req_core_metadata_encoding_values() {
    assert_eq!(MetadataEncoding::parse("xml"), Ok(MetadataEncoding::Xml));
    assert_eq!(MetadataEncoding::parse("json"), Ok(MetadataEncoding::Json));
    assert_eq!(MetadataEncoding::parse("gpkg"), Ok(MetadataEncoding::Gpkg));
    assert!(matches!(
        MetadataEncoding::parse("yaml"),
        Err(MetadataViolation::UnknownEncoding { .. })
    ));
    assert_eq!(MetadataEncoding::Json.extension(), "json");
}

#[test]
fn req_core_metadata_encoding_consistency() {
    let violations = encoding_violations(
        MetadataEncoding::Json,
        &[
            "global_metadata.json",
            "Lights.xml",
            "Elevation.tif",
            "Datasets.xsd",
        ],
    );
    assert_eq!(violations.len(), 2);
    assert!(matches!(
        &violations[0],
        MetadataViolation::EncodingMismatch { file, found: MetadataEncoding::Xml, .. }
            if file == "Lights.xml"
    ));
    assert!(encoding_violations(
        MetadataEncoding::Json,
        &["global_metadata.json", "RoadNetwork.json"],
    )
    .is_empty());
}

#[test]
fn req_core_metadata_language_bcp47() {
    for tag in ["en", "en-US", "zh-Hant-CN", "x-private"] {
        assert!(LanguageTag::new(tag).is_ok(), "{tag}");
    }
    for tag in ["", "en_US", "xx!", "-en", "en-", "en--US", "abcdefghi", "en-abcdefghi"] {
        assert!(
            matches!(
                LanguageTag::new(tag),
                Err(MetadataViolation::InvalidLanguageTag { .. })
            ),
            "{tag}"
        );
    }
}

#[test]
fn req_core_metadata_uom_values() {
    let cases = [
        (UnitOfMeasure::Meters, "M"),
        (UnitOfMeasure::Feet, "FT"),
        (UnitOfMeasure::Kilometers, "K"),
        (UnitOfMeasure::Miles, "MI"),
    ];
    for (uom, text) in cases {
        assert_eq!(uom.as_str(), text);
        assert_eq!(UnitOfMeasure::parse(text), Ok(uom));
    }
    assert!(matches!(
        UnitOfMeasure::parse("CM"),
        Err(MetadataViolation::UnknownUnitOfMeasure { .. })
    ));
}

#[test]
fn metadata_error_converts_to_cdb_error() {
    let violation = MetadataViolation::MissingElement { element: "ID" };
    let error: CdbError = MetadataError::from(violation).into();
    assert!(matches!(error, CdbError::Metadata(_)));
}

#[test]
fn metadata_standard_spellings_roundtrip() {
    for standard in MetadataStandard::ALL {
        assert_eq!(MetadataStandard::parse(standard.as_str()), Ok(standard));
    }
    assert_eq!(MetadataStandard::Ngcmp.as_str(), "NGCMP");
    assert_eq!(
        MetadataStandard::parse("YAML-MD"),
        Err(MetadataViolation::UnknownMetadataStandard {
            value: "YAML-MD".into()
        })
    );
}

#[test]
fn language_tag_keeps_its_text() {
    assert_eq!(LanguageTag::new("zh-Hant-CN").unwrap().as_str(), "zh-Hant-CN");
}

#[test]
fn req_core_metadata_global_mandatory_elements() {
    assert!(check_global_elements("Store", "My Store", "Demo", "ops@example.com").is_ok());
    assert!(matches!(
        check_global_elements("", "", "Demo", "ops@example.com"),
        Err(MetadataViolation::MissingElement { element: "ID" })
    ));
    assert!(matches!(
        check_global_elements("Store", "My Store", "Demo", ""),
        Err(MetadataViolation::MissingElement { element: "contactPoint" })
    ));
}

#[test]
fn req_core_metadata_resource_mandatory_elements_and_links() {
    let good = Link::new("https://example.com/roads", "related").unwrap();
    let bad = Link {
        href: "https://example.com/x".to_owned(),
        rel: String::new(),
        media_type: None,
        title: None,
    };
    assert!(check_resource_elements("Roads", "Roads", "Road network", &[good.clone()]).is_ok());
    assert!(matches!(
        check_resource_elements("Roads", "", "", &[]),
        Err(MetadataViolation::MissingElement { element: "title" })
    ));
    assert!(matches!(
        check_resource_elements("Roads", "Roads", "Road network", &[good, bad]),
        Err(MetadataViolation::Link(LinkViolation::MissingRel))
    ));
}

#[test]
fn req_core_metadata_builder_reports_first_missing_element() {
    let full = BuilderElements {
        id: Some("Store".to_owned()),
        title: Some("My Store".to_owned()),
        description: Some("Demo".to_owned()),
        contact_point: Some("ops@example.com".to_owned()),
        created: true,
        language: true,
        metadata_standard: true,
        encoding: true,
        uom: true,
    };
    assert!(check_builder(&full).is_ok());
    let no_created = BuilderElements { created: false, uom: false, ..full };
    assert!(matches!(
        check_builder(&no_created),
        Err(MetadataViolation::MissingElement { element: "created" })
    ));
    let empty_title = BuilderElements { title: Some(String::new()), created: false, ..no_created };
    assert!(matches!(
        check_builder(&empty_title),
        Err(MetadataViolation::MissingElement { element: "title" })
    ));
}
