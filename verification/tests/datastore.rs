use rusty_cdb::attribution::{AttributeDef, AttributeModel, AttributionError, AttributionViolation};
use rusty_cdb::crs::{CrsError, CrsViolation};
use rusty_cdb::datastore::{attribute_model_write_target, record_encoding, CdbDatastore, DatastoreSeed};
use rusty_cdb::metadata::temporal::UtcInstant;
use rusty_cdb::error::CdbError;
use rusty_cdb::hierarchy::HierarchyError;
use rusty_cdb::metadata::{MetadataEncoding, MetadataError, MetadataViolation, ResourceRecord};
use rusty_cdb::naming::NamingViolation;

fn street_model() -> AttributeModel {
    AttributeModel {
        schema_uri: None,
        attributes: vec![AttributeDef {
            id: "1".to_owned(),
            name: "StreetName".to_owned(),
            description: "An attribute of a street".to_owned(),
        }],
    }
}

fn roads() -> ResourceRecord {
    ResourceRecord {
        id: "Roads".to_owned(),
        title: "Road Network".to_owned(),
        description: "Tiled roads".to_owned(),
        associations: Vec::new(),
    }
}

#[test]
fn attribute_model_write_target_follows_the_declared_encoding() {
    let model = street_model();
    assert_eq!(
        attribute_model_write_target(&model, MetadataEncoding::Json, false).unwrap(),
        "vector_attributes.json"
    );
    assert_eq!(
        attribute_model_write_target(&model, MetadataEncoding::Xml, false).unwrap(),
        "vector_attributes.xml"
    );
    assert!(matches!(
        attribute_model_write_target(&model, MetadataEncoding::Json, true),
        Err(CdbError::Metadata(MetadataError::Violation(MetadataViolation::EncodingMismatch {
            file,
            declared: MetadataEncoding::Json,
            found: MetadataEncoding::Xml,
        }))) if file == "vector_attributes.xml"
    ));
    assert!(matches!(
        attribute_model_write_target(&model, MetadataEncoding::Gpkg, false),
        Err(CdbError::Metadata(MetadataError::UnsupportedEncoding(MetadataEncoding::Gpkg)))
    ));
    let empty = AttributeModel { schema_uri: None, attributes: Vec::new() };
    assert!(matches!(
        attribute_model_write_target(&empty, MetadataEncoding::Json, true),
        Err(CdbError::Attribution(AttributionError::Violation(AttributionViolation::EmptyModel)))
    ));
}

#[test]
fn resource_write_target_enforces_the_declared_encoding() {
    let store = CdbDatastore::open("/tmp/cdb", true, true).unwrap();
    let record = roads();
    let path = store
        .resource_write_target("/Tiles/metadata/Roads.json", MetadataEncoding::Json, &record)
        .unwrap();
    assert_eq!(path, "/tmp/cdb/Tiles/metadata/Roads.json");
    assert!(matches!(
        store.resource_write_target("/Tiles/metadata/Roads.xml", MetadataEncoding::Json, &record),
        Err(CdbError::Metadata(MetadataError::Violation(MetadataViolation::EncodingMismatch {
            file,
            declared: MetadataEncoding::Json,
            found: MetadataEncoding::Xml,
        }))) if file == "/Tiles/metadata/Roads.xml"
    ));
    assert!(matches!(
        store.resource_write_target("/Tiles/metadata/Roads", MetadataEncoding::Json, &record),
        Err(CdbError::Metadata(MetadataError::Violation(MetadataViolation::Malformed { reason })))
            if reason == "resource metadata path \"/Tiles/metadata/Roads\" must end in .json to match the datastore's declared encoding"
    ));
    assert!(matches!(
        store.resource_write_target("/Tiles/metadata/Roads.gpkg", MetadataEncoding::Gpkg, &record),
        Err(CdbError::Metadata(MetadataError::UnsupportedEncoding(MetadataEncoding::Gpkg)))
    ));
    assert!(matches!(
        store.resource_write_target("/Tiles/../Roads.json", MetadataEncoding::Json, &record),
        Err(CdbError::Hierarchy(HierarchyError::Naming(NamingViolation::PathTraversal { .. })))
    ));
    let untitled = ResourceRecord { title: String::new(), ..roads() };
    assert!(matches!(
        store.resource_write_target("/Tiles/metadata/Roads.json", MetadataEncoding::Json, &untitled),
        Err(CdbError::Metadata(MetadataError::Violation(MetadataViolation::MissingElement {
            element: "title"
        })))
    ));
}

const WGS84: &str = "GEOGCRS[\"WGS 84\",ID[\"EPSG\",4326]]";

#[test]
fn create_rejects_empty_seed_identity() {
    let tmp = tempfile::tempdir().unwrap();
    let parent = tmp.path().to_string_lossy().into_owned();
    let result = CdbDatastore::create(
        &parent,
        "cdb",
        &DatastoreSeed::new("", "Title", "Description", "contact"),
        "en",
        Ok(WGS84.to_owned()),
    );
    assert!(matches!(
        result,
        Err(CdbError::Metadata(MetadataError::Violation(MetadataViolation::MissingElement { element: "ID" })))
    ));
    assert!(!tmp.path().join("cdb").exists(), "no datastore directory must be created when policy fails");
}

#[test]
fn open_missing_root_errors() {
    let result = CdbDatastore::open("/srv/does-not-exist", false, false);
    assert!(matches!(result, Err(CdbError::Hierarchy(HierarchyError::RootMissing(_)))));
}

#[test]
fn create_judges_policy_in_order_before_any_write() {
    let seed = DatastoreSeed::new("doi:cdb.demo", "Demo", "A demonstration datastore", "CAE");
    let store = CdbDatastore::create("/srv", "cdb", &seed, "en", Ok(WGS84.to_owned())).unwrap();
    assert_eq!(store.root(), "/srv/cdb");

    let bad_language = CdbDatastore::create("/srv", "cdb", &seed, "", Ok(WGS84.to_owned()));
    assert!(matches!(
        bad_language,
        Err(CdbError::Metadata(MetadataError::Violation(MetadataViolation::InvalidLanguageTag { .. })))
    ));

    let empty_contact = DatastoreSeed::new("id", "Title", "Description", "");
    let no_contact = CdbDatastore::create("/srv", "cdb", &empty_contact, "en", Err(CrsViolation::MissingEpoch));
    assert!(matches!(
        no_contact,
        Err(CdbError::Metadata(MetadataError::Violation(MetadataViolation::MissingElement {
            element: "contactPoint"
        })))
    ));

    let bad_crs = CdbDatastore::create("/srv", "cdb", &seed, "en", Err(CrsViolation::MissingEpoch));
    assert!(matches!(bad_crs, Err(CdbError::Crs(CrsError::Violation(CrsViolation::MissingEpoch)))));

    let bad_root = CdbDatastore::create("/srv", "my store", &seed, "en", Ok(WGS84.to_owned()));
    assert!(matches!(bad_root, Err(CdbError::Hierarchy(HierarchyError::Naming(_)))));
}

#[test]
fn datastore_seed_carries_its_creation_instant() {
    let seed = DatastoreSeed::new("id", "Title", "Description", "contact");
    assert!(seed.created.is_none());
    let at = UtcInstant { secs: 1_700_000_000, nanos: 0 };
    let seed = seed.created(at);
    assert_eq!(seed.created, Some(at));
    assert_eq!(seed.id, "id");
}

#[test]
fn record_encoding_reads_json_and_xml_only() {
    assert_eq!(record_encoding("/Tiles/metadata/Roads.json").unwrap(), MetadataEncoding::Json);
    assert_eq!(record_encoding("/Tiles/metadata/Roads.XML").unwrap(), MetadataEncoding::Xml);
    assert_eq!(record_encoding("/Tiles/metadata/Roads.xsd").unwrap(), MetadataEncoding::Xml);
    match record_encoding("/Tiles/Roads.gpkg") {
        Err(MetadataViolation::Malformed { reason }) => {
            assert_eq!(reason, "resource metadata path \"/Tiles/Roads.gpkg\" has no json or xml extension")
        }
        other => panic!("{other:?}"),
    }
    assert!(matches!(record_encoding("/Tiles.v2/Roads"), Err(MetadataViolation::Malformed { .. })));
}

#[test]
fn req_core_metadata_encoding_global_write_refuses_switch() {
    assert!(matches!(
        rusty_cdb::datastore::global_write_check(MetadataEncoding::Xml, true, false),
        Err(MetadataViolation::EncodingMismatch { file, declared: MetadataEncoding::Xml, found: MetadataEncoding::Json })
            if file == "global_metadata.json"
    ));
    assert!(rusty_cdb::datastore::global_write_check(MetadataEncoding::Json, true, false).is_ok());
    assert!(rusty_cdb::datastore::global_write_check(MetadataEncoding::Json, false, false).is_ok());
    assert!(matches!(
        rusty_cdb::datastore::global_write_check(MetadataEncoding::Json, false, true),
        Err(MetadataViolation::EncodingMismatch { found: MetadataEncoding::Xml, .. })
    ));
}
