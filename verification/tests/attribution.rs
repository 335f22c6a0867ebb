use rusty_cdb::attribution::{
    file_name_for, parse_file_name, validate_attribute_model_document, AttributeDef,
    AttributeModel, AttributionViolation,
};
use rusty_cdb::metadata::MetadataEncoding;

fn street_fixture() -> AttributeModel {
    AttributeModel {
        schema_uri: None,
        attributes: vec![
            AttributeDef {
                id: "1".to_owned(),
                name: "StreetName".to_owned(),
                description: "Name of a street as an alphanumeric string".to_owned(),
            },
            AttributeDef {
                id: "2".to_owned(),
                name: "StreetType".to_owned(),
                description: "Type street as an alphanumeric string (Interstate, Arterial, . . .)"
                    .to_owned(),
            },
            AttributeDef {
                id: "3".to_owned(),
                name: "StreetWidth".to_owned(),
                description: "Width of street in feet as an integer number)".to_owned(),
            },
        ],
    }
}

#[test]
fn req_core_attribute_model_content_fixture_validates() {
    let model = street_fixture();
    assert!(model.validate().is_ok());
    let with_uri = AttributeModel {
        schema_uri: Some("https://example.org/schemas/street.xsd".to_owned()),
        ..model
    };
    assert!(with_uri.validate().is_ok());
}

#[test]
fn req_core_attribute_model_content_empty_model_rejected() {
    let empty = AttributeModel {
        schema_uri: None,
        attributes: Vec::new(),
    };
    assert_eq!(empty.validate(), Err(AttributionViolation::EmptyModel));
    let uri_only = AttributeModel {
        schema_uri: Some("https://example.org/schemas/nas.xsd".to_owned()),
        attributes: Vec::new(),
    };
    assert_eq!(uri_only.validate(), Err(AttributionViolation::EmptyModel));
}

#[test]
fn req_core_attribute_model_content_duplicate_id_rejected() {
    let mut model = street_fixture();
    model.attributes[2].id = "1".to_owned();
    assert_eq!(
        model.validate(),
        Err(AttributionViolation::DuplicateId { id: "1".to_owned() })
    );
}

#[test]
fn req_core_attribute_model_content_blank_elements_rejected() {
    let mut blank_id = street_fixture();
    blank_id.attributes[0].id = "   ".to_owned();
    assert_eq!(
        blank_id.validate(),
        Err(AttributionViolation::EmptyId { position: 0 })
    );
    let mut control_id = street_fixture();
    control_id.attributes[1].id = "2\u{7}".to_owned();
    assert_eq!(
        control_id.validate(),
        Err(AttributionViolation::EmptyId { position: 1 })
    );
    let mut blank_name = street_fixture();
    blank_name.attributes[1].name = String::new();
    assert_eq!(
        blank_name.validate(),
        Err(AttributionViolation::EmptyName { id: "2".to_owned() })
    );
    let mut blank_description = street_fixture();
    blank_description.attributes[2].description = "\t \n".to_owned();
    assert_eq!(
        blank_description.validate(),
        Err(AttributionViolation::EmptyDescription { id: "3".to_owned() })
    );
}

#[test]
fn per_core_attribute_schema_uri_shapes() {
    for valid in [
        "https://example.org/schemas/nas.xsd",
        "http://mmisw.org/ont/cf/parameter/air_temperature",
        "urn:ogc:def:crs:EPSG::4326",
        "file:///schemas/lccs.json",
    ] {
        let model = AttributeModel {
            schema_uri: Some(valid.to_owned()),
            ..street_fixture()
        };
        assert!(model.validate().is_ok(), "expected valid URI: {valid}");
    }
    for invalid in [
        "",
        "   ",
        "not a uri",
        "://missing-scheme",
        "http:",
        "http:   ",
        "a:\u{a0}",
        "1http://leading-digit",
        "ht tp://space-in-scheme",
        "https://example.org/\u{7}",
    ] {
        let model = AttributeModel {
            schema_uri: Some(invalid.to_owned()),
            ..street_fixture()
        };
        assert_eq!(
            model.validate(),
            Err(AttributionViolation::InvalidSchemaUri {
                uri: invalid.to_owned()
            }),
            "expected invalid URI: {invalid:?}"
        );
    }
}

#[test]
fn req_core_attribute_model_file_name_rules() {
    assert_eq!(
        parse_file_name("vector_attributes.json"),
        Ok(MetadataEncoding::Json)
    );
    assert_eq!(
        parse_file_name("vector_attributes.xml"),
        Ok(MetadataEncoding::Xml)
    );
    for bad in [
        "vector_attributes.txt",
        "vector_attributes",
        "Vector_Attributes.json",
        "vector_attributes.JSON",
        "vector_attributes.Xml",
        "vector_attributes.json.bak",
        "attributes.json",
    ] {
        assert_eq!(
            parse_file_name(bad),
            Err(AttributionViolation::InvalidFileName {
                name: bad.to_owned()
            }),
            "expected invalid file name: {bad}"
        );
    }
    assert_eq!(
        file_name_for(MetadataEncoding::Json).as_deref(),
        Some("vector_attributes.json")
    );
    assert_eq!(
        file_name_for(MetadataEncoding::Xml).as_deref(),
        Some("vector_attributes.xml")
    );
    assert_eq!(file_name_for(MetadataEncoding::Gpkg), None);
}

#[test]
fn duplicate_ids_are_compared_after_trimming() {
    let mut model = street_fixture();
    model.attributes[1].id = " 1 ".to_owned();
    assert_eq!(
        model.validate(),
        Err(AttributionViolation::DuplicateId { id: " 1 ".to_owned() })
    );
}

#[test]
fn canonicalize_trims_every_leaf() {
    let mut model = AttributeModel {
        schema_uri: Some("  https://example.org/x.xsd\n".to_owned()),
        attributes: vec![AttributeDef {
            id: " 7 ".to_owned(),
            name: "\tName ".to_owned(),
            description: " Desc".to_owned(),
        }],
    };
    model.canonicalize();
    assert_eq!(model.schema_uri.as_deref(), Some("https://example.org/x.xsd"));
    assert_eq!(model.attributes[0].id, "7");
    assert_eq!(model.attributes[0].name, "Name");
    assert_eq!(model.attributes[0].description, "Desc");
}

#[test]
fn document_entry_point_judges_name_then_content() {
    assert_eq!(
        validate_attribute_model_document("attributes.json", Ok(street_fixture())).unwrap_err(),
        AttributionViolation::InvalidFileName {
            name: "attributes.json".to_owned()
        }
    );
    assert_eq!(
        validate_attribute_model_document(
            "vector_attributes.json",
            Err("expected value at line 1".to_owned())
        )
        .unwrap_err(),
        AttributionViolation::Malformed {
            reason: "expected value at line 1".to_owned()
        }
    );
    let empty = AttributeModel {
        schema_uri: None,
        attributes: Vec::new(),
    };
    assert_eq!(
        validate_attribute_model_document("vector_attributes.xml", Ok(empty)).unwrap_err(),
        AttributionViolation::EmptyModel
    );
    let mut padded = street_fixture();
    padded.attributes[0].name = "  StreetName  ".to_owned();
    let accepted = validate_attribute_model_document("vector_attributes.json", Ok(padded)).unwrap();
    assert_eq!(accepted, street_fixture());
}
