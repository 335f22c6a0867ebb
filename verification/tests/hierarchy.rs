use rusty_cdb::hierarchy::{
    join, logical_path, logical_root, DatastoreLayout, HierarchyError, HierarchyViolation,
    HierarchyWarning,
};
use rusty_cdb::naming::NamingViolation;

#[test]
fn req_core_file_hierarchy_root_logical_paths_begin_with_slash() {
    assert_eq!(logical_root(), "/");
    assert_eq!(logical_path("Tiles").unwrap(), "/Tiles");
    assert_eq!(logical_path("/Tiles").unwrap(), "/Tiles");
    assert_eq!(logical_path("/").unwrap(), "/");
}

#[test]
fn layout_paths_stay_under_the_root() {
    let layout = DatastoreLayout::create("/tmp/store").unwrap();
    assert_eq!(layout.root(), "/tmp/store/cdb");
    assert_eq!(layout.global_metadata_dir(), "/tmp/store/cdb/global_metadata");
    assert_eq!(
        layout.resolve("Metadata/Version.xml").unwrap(),
        "/tmp/store/cdb/Metadata/Version.xml"
    );
    assert_eq!(
        layout.resolve("/Tiles/N50").unwrap(),
        "/tmp/store/cdb/Tiles/N50"
    );
    assert!(matches!(
        layout.resolve("../outside"),
        Err(HierarchyError::Naming(NamingViolation::PathTraversal { .. }))
    ));
    assert_eq!(join("a/", "b"), "a/b");
    assert_eq!(join("", "b"), "b");
}

#[test]
fn create_named_validates_root_name() {
    assert!(matches!(
        DatastoreLayout::create_named("/tmp", "my store"),
        Err(HierarchyError::Naming(NamingViolation::ContainsSpace { .. }))
    ));
}

#[test]
fn open_requires_an_existing_directory() {
    assert!(matches!(
        DatastoreLayout::open("/nowhere", false, false),
        Err(HierarchyError::RootMissing(_))
    ));
    assert!(matches!(
        DatastoreLayout::open("/etc/hosts", true, false),
        Err(HierarchyError::RootNotADirectory(_))
    ));
    assert!(DatastoreLayout::open("/tmp", true, true).is_ok());
}

#[test]
fn hierarchy_findings_from_disk_facts() {
    let layout = DatastoreLayout::open("/data/CDB", true, true).unwrap();
    let report = layout.validate(true, Some("CDB"), Vec::new());
    assert!(report.violations.is_empty());
    assert!(report.warnings.is_empty());

    let named = DatastoreLayout::open("/data/MyStore", true, true).unwrap();
    let report = named.validate(false, Some("MyStore"), vec!["/data/MyStore/Empty".to_owned()]);
    assert_eq!(
        report.violations,
        vec![HierarchyViolation::MissingGlobalMetadata {
            root: "/data/MyStore".to_owned()
        }]
    );
    assert_eq!(
        report.warnings,
        vec![
            HierarchyWarning::RootNameNotCdb {
                name: "MyStore".to_owned()
            },
            HierarchyWarning::EmptyFolder("/data/MyStore/Empty".to_owned()),
        ]
    );
}
