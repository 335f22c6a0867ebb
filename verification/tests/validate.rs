use rusty_cdb::conformance::class::RequirementsClass;
use rusty_cdb::conformance::finding::{CdbViolation, CdbWarning};
use rusty_cdb::conformance::validate::{
    conformance_report, descends, in_name_order, is_journal, CrsFacts, DatastoreFacts, EntryFacts,
    GlobalFacts, ProfileFacts, RecordFacts, RecordRead, WalkedEntry,
};
use rusty_cdb::crs::{CrsError, CrsViolation};
use rusty_cdb::datastore::CdbDatastore;
use rusty_cdb::error::CdbError;
use rusty_cdb::hierarchy::{HierarchyReport, HierarchyWarning};
use rusty_cdb::metadata::{
    LanguageTag, MetadataEncoding, MetadataError, MetadataStandard, MetadataViolation, UnitOfMeasure,
};
use rusty_cdb::naming::{CaseRule, StyleGuide};

const WGS84: &str = "GEOGCRS[\"WGS 84\",ID[\"EPSG\",4326]]";

fn profile(classes: &[RequirementsClass], language: &str) -> ProfileFacts {
    let mut style_guide = StyleGuide::new(CaseRule::PascalCase, language);
    style_guide.reserve_name("metadata");
    ProfileFacts {
        name: "simulation".to_owned(),
        classes: classes.to_vec(),
        style_guide,
        known_extensions: vec!["wkt".to_owned()],
        metadata_encoding: MetadataEncoding::Json,
        metadata_standard: MetadataStandard::Dcat,
        uom: UnitOfMeasure::Meters,
        storage_crs: Ok(WGS84.to_owned()),
        tiling_scheme: None,
        attribute_model: None,
    }
}

fn dir(name: &str) -> EntryFacts {
    EntryFacts { name: name.to_owned(), is_file: false, is_dir: true, resolves_to_dir: true }
}

fn file(name: &str) -> EntryFacts {
    EntryFacts { name: name.to_owned(), is_file: true, is_dir: false, resolves_to_dir: false }
}

fn walked(dir_logical: &str, entry: EntryFacts) -> WalkedEntry {
    WalkedEntry { dir_logical: dir_logical.to_owned(), entry }
}

fn global(language: &str) -> GlobalFacts {
    GlobalFacts {
        encoding: MetadataEncoding::Json,
        standard: MetadataStandard::Dcat,
        uom: UnitOfMeasure::Meters,
        language: LanguageTag::new(language).unwrap(),
        tiling_scheme: None,
    }
}

/// What a freshly created JSON datastore holds.
fn fresh(language: &str) -> DatastoreFacts {
    DatastoreFacts {
        hierarchy: HierarchyReport { violations: Vec::new(), warnings: Vec::new() },
        entries: vec![
            walked("", dir("global_metadata")),
            walked("/global_metadata", file("crs.wkt")),
            walked("/global_metadata", file("metadata.json")),
        ],
        global: Ok(global(language)),
        records: Vec::new(),
        crs: Ok(CrsFacts { found: WGS84.to_owned(), same: true, warnings: Vec::new() }),
        attribute_file: None,
    }
}

#[test]
fn conformance_report_fresh_datastore_conformant_no_warnings() {
    let report =
        conformance_report(profile(&RequirementsClass::MANDATORY, "en"), "/tmp/cdb", fresh("en")).unwrap();
    assert!(report.is_conformant());
    assert_eq!(report.root(), "/tmp/cdb");
    assert_eq!(report.profile(), "simulation");
    for class in RequirementsClass::MANDATORY {
        assert!(report.class_passed(class), "{class:?}");
        assert!(report.warnings(class).is_empty(), "{class:?}");
    }
}

#[test]
fn conformance_report_metadata_declaration_mismatch_detected() {
    let mut facts = fresh("en");
    facts.global = Ok(GlobalFacts {
        standard: MetadataStandard::Iso19115v2019,
        uom: UnitOfMeasure::Feet,
        ..global("en")
    });
    let report = conformance_report(profile(&RequirementsClass::MANDATORY, "en"), "/tmp/cdb", facts).unwrap();
    assert!(!report.class_passed(RequirementsClass::Metadata));
    let elements: Vec<&str> = report
        .violations(RequirementsClass::Metadata)
        .iter()
        .filter_map(|v| match v {
            CdbViolation::DeclarationMismatch { element, .. } => Some(*element),
            _ => None,
        })
        .collect();
    assert_eq!(elements, vec!["metadata standard", "uom"]);
}

#[test]
fn conformance_report_crs_storage_declaration_mismatch_detected() {
    let mut facts = fresh("en");
    facts.crs = Ok(CrsFacts {
        found: "GEOGCRS[\"NAD83\",ID[\"EPSG\",4269]]".to_owned(),
        same: false,
        warnings: Vec::new(),
    });
    let report = conformance_report(profile(&RequirementsClass::MANDATORY, "en"), "/tmp/cdb", facts).unwrap();
    assert!(!report.class_passed(RequirementsClass::Crs));
    assert!(report.violations(RequirementsClass::Crs).iter().any(|v| matches!(
        v,
        CdbViolation::DeclarationMismatch { element: "storage CRS", found, .. }
            if found.contains("NAD83")
    )));
}

#[test]
fn conformance_report_non_english_language_warns() {
    let report =
        conformance_report(profile(&RequirementsClass::MANDATORY, "fr"), "/tmp/cdb", fresh("fr")).unwrap();
    assert!(report.is_conformant());
    assert!(report.class_passed(RequirementsClass::FileNaming));
    assert!(report
        .warnings(RequirementsClass::FileNaming)
        .contains(&CdbWarning::LanguageNotEnglish { language: "fr".to_owned() }));
}

#[test]
fn conformance_report_surfaces_hierarchy_warnings() {
    let mut facts = fresh("en");
    facts.hierarchy.warnings.push(HierarchyWarning::RootNameNotCdb { name: "MyStore".to_owned() });
    let report = conformance_report(profile(&RequirementsClass::MANDATORY, "en"), "/tmp/MyStore", facts).unwrap();
    assert!(report.is_conformant());
    assert!(report.class_passed(RequirementsClass::FileStructure));
    assert!(report.warnings(RequirementsClass::FileStructure).contains(&CdbWarning::Hierarchy(
        HierarchyWarning::RootNameNotCdb { name: "MyStore".to_owned() }
    )));
}

#[test]
fn conformance_report_missing_mandatory_declaration_recorded() {
    let classes = [
        RequirementsClass::Crs,
        RequirementsClass::FileNaming,
        RequirementsClass::FileStructure,
        RequirementsClass::Metadata,
    ];
    let report = conformance_report(profile(&classes, "en"), "/tmp/cdb", fresh("en")).unwrap();
    assert!(!report.is_conformant());
    assert!(matches!(
        report.violations(RequirementsClass::Links),
        [CdbViolation::MissingConformanceDeclaration { class: RequirementsClass::Links, .. }]
    ));
}

#[test]
fn conformance_report_io_failure_stops_the_run() {
    let mut facts = fresh("en");
    facts.global = Err(MetadataError::Io(std::io::Error::other("unreadable")));
    let outcome = conformance_report(profile(&RequirementsClass::MANDATORY, "en"), "/tmp/cdb", facts);
    assert!(matches!(outcome, Err(CdbError::Metadata(MetadataError::Io(_)))));

    let mut facts = fresh("en");
    facts.crs = Err(CrsError::Io(std::io::Error::other("unreadable")));
    let outcome = conformance_report(profile(&RequirementsClass::MANDATORY, "en"), "/tmp/cdb", facts);
    assert!(matches!(outcome, Err(CdbError::Crs(CrsError::Io(_)))));
}

#[test]
fn conformance_report_crs_violation_is_a_finding() {
    let mut facts = fresh("en");
    facts.crs = Err(CrsError::Violation(CrsViolation::MissingEpoch));
    let report = conformance_report(profile(&RequirementsClass::MANDATORY, "en"), "/tmp/cdb", facts).unwrap();
    assert!(report
        .violations(RequirementsClass::Crs)
        .iter()
        .any(|v| matches!(v, CdbViolation::Crs(CrsViolation::MissingEpoch))));
}

#[test]
fn conformance_report_unreadable_record_filed_under_metadata() {
    let mut facts = fresh("en");
    facts.entries.push(walked("", dir("Tiles")));
    facts.entries.push(walked("/Tiles", file("Roads.json")));
    facts.records.push(RecordFacts {
        path: "/Tiles/Roads.json".to_owned(),
        read: RecordRead::Failed(MetadataError::Serialization("EOF while parsing".to_owned())),
    });
    let report = conformance_report(profile(&RequirementsClass::MANDATORY, "en"), "/tmp/cdb", facts).unwrap();
    let text: Vec<String> = report.violations(RequirementsClass::Metadata).iter().map(|v| v.to_string()).collect();
    assert_eq!(text.len(), 1);
    assert!(text[0].contains("/Tiles/Roads.json"), "{}", text[0]);
}

#[test]
fn conformance_report_declared_optional_classes_listed_with_content() {
    let mut classes = RequirementsClass::MANDATORY.to_vec();
    classes.extend([RequirementsClass::Coverages, RequirementsClass::Geometry, RequirementsClass::Tiling]);
    let mut facts = fresh("en");
    facts.entries.push(walked("", dir("Elevation")));
    facts.entries.push(walked("/Elevation", file("Dem.json")));
    facts.records.push(RecordFacts {
        path: "/Elevation/Dem.json".to_owned(),
        read: RecordRead::Parsed { id: "Dem".to_owned(), winding_order: false, domain_set: true, uom: false },
    });
    let report = conformance_report(profile(&classes, "en"), "/tmp/cdb", facts).unwrap();
    assert!(report.is_conformant());
    assert!(report.class_has_content(RequirementsClass::Coverages));
    assert!(!report.class_has_content(RequirementsClass::Geometry));
    assert!(!report.class_has_content(RequirementsClass::Tiling));
    let listed: Vec<RequirementsClass> = report.classes().into_iter().map(|(c, _)| c).collect();
    assert!(listed.contains(&RequirementsClass::Geometry));
    assert!(listed.contains(&RequirementsClass::Tiling));
    assert!(!listed.contains(&RequirementsClass::Topology));
}

#[test]
fn conformance_report_undeclared_coverage_is_swept() {
    let mut facts = fresh("en");
    facts.entries.push(walked("", dir("Elevation")));
    facts.entries.push(walked("/Elevation", file("Dem.json")));
    facts.records.push(RecordFacts {
        path: "/Elevation/Dem.json".to_owned(),
        read: RecordRead::Parsed { id: "Dem".to_owned(), winding_order: false, domain_set: true, uom: true },
    });
    let report = conformance_report(profile(&RequirementsClass::MANDATORY, "en"), "/tmp/cdb", facts).unwrap();
    assert!(!report.is_conformant());
    assert!(report.violations(RequirementsClass::Coverages).iter().any(|v| matches!(
        v,
        CdbViolation::DeclarationMismatch { class: RequirementsClass::Coverages, .. }
    )));
    assert!(report.violations(RequirementsClass::Geometry).is_empty());
}

#[test]
fn conf_core_walk_visits_entries_in_name_order() {
    let listed: Vec<EntryFacts> =
        ["Delta", "Hotel", "Alpha", "Golf", "Charlie", "Bravo"].iter().map(|id| file(&format!("{id}.json"))).collect();
    let ordered = in_name_order(listed);
    let names: Vec<&str> = ordered.iter().map(|e| e.name.as_str()).collect();
    assert_eq!(
        names,
        vec!["Alpha.json", "Bravo.json", "Charlie.json", "Delta.json", "Golf.json", "Hotel.json"]
    );

    let mut facts = fresh("en");
    facts.entries.push(walked("", dir("Tiles")));
    facts.entries.push(walked("/Tiles", dir("metadata")));
    for entry in ordered {
        let path = format!("/Tiles/metadata/{}", entry.name);
        let id = entry.name.trim_end_matches(".json").to_owned();
        facts.entries.push(walked("/Tiles/metadata", entry));
        facts.records.push(RecordFacts {
            path,
            read: RecordRead::Parsed { id, winding_order: true, domain_set: false, uom: false },
        });
    }
    let report = conformance_report(profile(&RequirementsClass::MANDATORY, "en"), "/tmp/cdb", facts).unwrap();
    let evidence: Vec<String> = report
        .violations(RequirementsClass::Topology)
        .iter()
        .filter_map(|violation| match violation {
            CdbViolation::DeclarationMismatch { found, .. } => Some(found.clone()),
            _ => None,
        })
        .collect();
    assert_eq!(evidence, vec!["resource metadata record \"Alpha\"".to_owned()]);
}

#[test]
fn walk_name_order_puts_a_prefix_first_and_compares_by_code_point() {
    let ordered = in_name_order(vec![file("ab"), file("a"), file("B"), file("é"), file("b")]);
    let names: Vec<&str> = ordered.iter().map(|e| e.name.as_str()).collect();
    assert_eq!(names, vec!["B", "a", "ab", "b", "é"]);
}

#[test]
fn walk_skips_links_and_the_versions_journal() {
    let journal = EntryFacts { name: "Versions".to_owned(), is_file: false, is_dir: false, resolves_to_dir: true };
    assert!(is_journal("", &journal));
    assert!(!is_journal("/Tiles", &journal));
    assert!(!descends("", &journal));
    assert!(!descends("", &dir("versions")));
    assert!(descends("/Tiles", &dir("versions")));
    let link = EntryFacts { name: "Tiles".to_owned(), is_file: false, is_dir: false, resolves_to_dir: true };
    assert!(!descends("", &link));
    assert!(descends("", &dir("Tiles")));
}

#[test]
fn datastore_validate_reports_for_its_root() {
    let store = CdbDatastore::open("/srv/cdb", true, true).unwrap();
    let report = store.validate(profile(&RequirementsClass::MANDATORY, "en"), fresh("en")).unwrap();
    assert_eq!(report.root(), "/srv/cdb");
    assert!(report.is_conformant());
    let bad = MetadataViolation::InvalidLanguageTag { value: String::new(), reason: "empty" };
    let mut facts = fresh("en");
    facts.global = Err(MetadataError::Violation(bad));
    let report = store.validate(profile(&RequirementsClass::MANDATORY, "en"), facts).unwrap();
    assert!(!report.class_passed(RequirementsClass::Metadata));
}

#[test]
fn conformance_report_record_io_failure_stops_unless_the_core_skips_the_record() {
    let mut facts = fresh("en");
    facts.records.push(RecordFacts {
        path: "/Tiles/Roads.gpkg".to_owned(),
        read: RecordRead::Failed(MetadataError::Io(std::io::Error::other("unreadable"))),
    });
    let report = conformance_report(profile(&RequirementsClass::MANDATORY, "en"), "/tmp/cdb", facts);
    assert!(report.is_ok());

    let mut facts = fresh("en");
    facts.records.push(RecordFacts {
        path: "/Tiles/Roads.json".to_owned(),
        read: RecordRead::Failed(MetadataError::Io(std::io::Error::other("unreadable"))),
    });
    let outcome = conformance_report(profile(&RequirementsClass::MANDATORY, "en"), "/tmp/cdb", facts);
    assert!(matches!(outcome, Err(CdbError::Metadata(MetadataError::Io(_)))));
}

#[test]
fn conformance_report_lists_mandatory_classes_even_when_undeclared() {
    let report = conformance_report(profile(&[], "en"), "/tmp/cdb", fresh("en")).unwrap();
    let listed: Vec<RequirementsClass> = report.classes().into_iter().map(|(c, _)| c).collect();
    assert_eq!(listed, RequirementsClass::MANDATORY.to_vec());
    for class in RequirementsClass::MANDATORY {
        assert!(!report.class_passed(class), "{class:?}");
    }
}
