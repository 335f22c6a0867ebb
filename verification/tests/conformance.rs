use rusty_cdb::attribution::{AttributeDef, AttributeModel, AttributionViolation};
use rusty_cdb::conformance::stages::attribution_stage;
use rusty_cdb::conformance::class::RequirementsClass;
use rusty_cdb::conformance::finding::{CdbViolation, CdbWarning};
use rusty_cdb::conformance::report::ConformanceReport;
use rusty_cdb::conformance::sweep::{is_global_metadata_dir, sweep_content, ContentSignals};
use rusty_cdb::coverage::CoverageViolation;
use rusty_cdb::crs::{CrsViolation, CrsWarning};
use rusty_cdb::geometry::GeometryViolation;
use rusty_cdb::hierarchy::{HierarchyViolation, HierarchyWarning};
use rusty_cdb::links::LinkViolation;
use rusty_cdb::metadata::{
    LanguageTag, MetadataEncoding, MetadataError, MetadataStandard, MetadataViolation, UnitOfMeasure,
};
use rusty_cdb::conformance::declarations::{
    check_crs_declaration, check_declarations, check_global_declarations,
};
use rusty_cdb::conformance::sweep::record_metadata_error;
use rusty_cdb::naming::{NamingViolation, NamingWarning};

#[test]
fn conf_core_minimal_mandatory_classes_enumerated() {
    assert_eq!(
        RequirementsClass::MANDATORY,
        [
            RequirementsClass::Crs,
            RequirementsClass::FileNaming,
            RequirementsClass::FileStructure,
            RequirementsClass::Links,
            RequirementsClass::Metadata,
        ]
    );
    assert_eq!(RequirementsClass::Crs.as_str(), "crs");
    assert_eq!(RequirementsClass::FileNaming.as_str(), "file-naming");
    assert_eq!(RequirementsClass::FileStructure.as_str(), "file-structure");
    assert_eq!(RequirementsClass::Links.as_str(), "links");
    assert_eq!(RequirementsClass::Metadata.as_str(), "metadata");
}

#[test]
fn conf_core_conformance_uri_pattern() {
    for class in RequirementsClass::MANDATORY {
        assert_eq!(
            class.conformance_uri("simulation"),
            format!(
                "http://www.opengis.net/spec/CDB/2.0/conf/simulation/{}",
                class.as_str()
            )
        );
    }
    assert_eq!(
        RequirementsClass::Metadata.conformance_uri("simulation"),
        "http://www.opengis.net/spec/CDB/2.0/conf/simulation/metadata"
    );
}

#[test]
fn requirements_class_uris_match_spec_modules() {
    assert_eq!(
        RequirementsClass::Crs.requirements_uri(),
        "/req/core/data-representation"
    );
    assert_eq!(
        RequirementsClass::FileNaming.requirements_uri(),
        "/req/core/naming-system"
    );
    assert_eq!(
        RequirementsClass::FileStructure.requirements_uri(),
        "/req/core/file-system"
    );
    assert_eq!(RequirementsClass::Links.requirements_uri(), "/req/core/links");
    assert_eq!(
        RequirementsClass::Metadata.requirements_uri(),
        "/req/core/metadata-"
    );
}

#[test]
fn req_core_conformance_violation_codes_are_stable_uris() {
    let samples: Vec<CdbViolation> = vec![
        NamingViolation::ContainsSpace {
            name: "a b".to_owned(),
        }
        .into(),
        HierarchyViolation::MissingGlobalMetadata {
            root: "/tmp/cdb".to_owned(),
        }
        .into(),
        LinkViolation::MissingRel.into(),
        MetadataViolation::MissingElement { element: "ID" }.into(),
        CdbViolation::Metadata(MetadataViolation::Link(LinkViolation::MissingRel)),
        CrsViolation::MissingEpoch.into(),
        AttributionViolation::DuplicateId {
            id: "AL013".to_owned(),
        }
        .into(),
        CoverageViolation::UnknownGridCorner {
            value: "center".to_owned(),
        }
        .into(),
        GeometryViolation::MissingMUom.into(),
        CdbViolation::MissingConformanceDeclaration {
            profile: "simulation".to_owned(),
            class: RequirementsClass::Links,
        },
        CdbViolation::DeclarationMismatch {
            profile: "simulation".to_owned(),
            class: RequirementsClass::Crs,
            element: "storage CRS",
            declared: "EPSG:4326".to_owned(),
            found: "EPSG:3857".to_owned(),
            clause: "/req/core/crs/crsStorage",
        },
    ];
    for violation in &samples {
        let code = violation.code();
        assert!(code.starts_with('/'), "{code} is not absolute");
        assert!(
            !code.chars().any(char::is_whitespace),
            "{code} contains whitespace"
        );
        assert!(
            code.starts_with("/req/core/")
                || code.starts_with("/rec/core/")
                || code.starts_with("/per/core/")
                || code.starts_with("/conf/"),
            "{code} is not an OGC clause path"
        );
    }
    assert_eq!(
        CdbViolation::from(AttributionViolation::DuplicateId {
            id: "AL013".to_owned()
        })
        .code(),
        "/req/core/attribute-model-content-B"
    );
    assert_eq!(
        CdbViolation::from(AttributionViolation::InvalidFileName {
            name: "Vector_Attributes.json".to_owned()
        })
        .code(),
        "/req/core/attribute-model-C"
    );
    assert_eq!(
        CdbViolation::from(NamingViolation::ContainsSpace {
            name: "a b".to_owned()
        })
        .code(),
        "/req/core/name-spaces"
    );
    assert_eq!(
        CdbViolation::Metadata(MetadataViolation::Link(LinkViolation::MissingRel)).code(),
        "/req/core/link-rel"
    );
    assert_eq!(
        CdbViolation::DeclarationMismatch {
            profile: "simulation".to_owned(),
            class: RequirementsClass::Crs,
            element: "storage CRS",
            declared: "EPSG:4326".to_owned(),
            found: "EPSG:3857".to_owned(),
            clause: "/req/core/crs/crsStorage",
        }
        .code(),
        "/req/core/crs/crsStorage"
    );
    assert_eq!(
        CdbViolation::MissingConformanceDeclaration {
            profile: "simulation".to_owned(),
            class: RequirementsClass::Links,
        }
        .code(),
        "/conf/minimal-core"
    );
}

#[test]
fn req_core_conformance_warning_codes_are_stable_uris() {
    let samples = vec![
        CdbWarning::Naming(NamingWarning::NonAscii {
            name: "café".to_owned(),
        }),
        CdbWarning::Hierarchy(HierarchyWarning::RootNameNotCdb {
            name: "MyStore".to_owned(),
        }),
        CdbWarning::Crs(CrsWarning::NotWgs84 {
            found: "NTF (Paris)".to_owned(),
        }),
        CdbWarning::LanguageNotEnglish {
            language: "fr".to_owned(),
        },
    ];
    for warning in &samples {
        let code = warning.code();
        assert!(code.starts_with('/'), "{code} is not absolute");
        assert!(
            !code.chars().any(char::is_whitespace),
            "{code} contains whitespace"
        );
    }
    assert_eq!(
        CdbWarning::Naming(NamingWarning::NonAscii {
            name: "café".to_owned()
        })
        .code(),
        "/req/core/name-unicode-A"
    );
    assert_eq!(
        CdbWarning::Hierarchy(HierarchyWarning::RootNameNotCdb {
            name: "MyStore".to_owned()
        })
        .code(),
        "/rec/core/file-hierarchy-root-name"
    );
    assert_eq!(
        CdbWarning::LanguageNotEnglish {
            language: "fr".to_owned()
        }
        .code(),
        "/req/core/name-language-B"
    );
}

#[test]
fn cdb_violation_wraps_each_module_violation_and_maps_class() {
    let naming: CdbViolation = NamingViolation::EmptyName.into();
    assert_eq!(naming.class(), RequirementsClass::FileNaming);
    let hierarchy: CdbViolation = HierarchyViolation::MissingGlobalMetadata {
        root: "/tmp/cdb".to_owned(),
    }
    .into();
    assert_eq!(hierarchy.class(), RequirementsClass::FileStructure);
    let link: CdbViolation = LinkViolation::MissingRel.into();
    assert_eq!(link.class(), RequirementsClass::Links);
    let metadata: CdbViolation = MetadataViolation::MissingElement { element: "ID" }.into();
    assert_eq!(metadata.class(), RequirementsClass::Metadata);
    let crs: CdbViolation = CrsViolation::MissingEpoch.into();
    assert_eq!(crs.class(), RequirementsClass::Crs);
    let nested = CdbViolation::Metadata(MetadataViolation::Link(LinkViolation::MissingRel));
    assert_eq!(nested.class(), RequirementsClass::Links);
    let missing = CdbViolation::MissingConformanceDeclaration {
        profile: "simulation".to_owned(),
        class: RequirementsClass::Links,
    };
    assert_eq!(missing.class(), RequirementsClass::Links);
    let mismatch = CdbViolation::DeclarationMismatch {
        profile: "simulation".to_owned(),
        class: RequirementsClass::Crs,
        element: "storage CRS",
        declared: "EPSG:4326".to_owned(),
        found: "EPSG:3857".to_owned(),
        clause: "/req/core/crs/crsStorage",
    };
    assert_eq!(mismatch.class(), RequirementsClass::Crs);
}

#[test]
fn req_core_conformance_optional_class_violations_wrap() {
    let attribution: CdbViolation = AttributionViolation::EmptyModel.into();
    assert_eq!(attribution.class(), RequirementsClass::Attribution);
    let coverage: CdbViolation = CoverageViolation::UnknownGridCellEncoding {
        value: "value-is-random".to_owned(),
    }
    .into();
    assert_eq!(coverage.class(), RequirementsClass::Coverages);
    let geometry: CdbViolation = GeometryViolation::MissingMUom.into();
    assert_eq!(geometry.class(), RequirementsClass::Geometry);
}

#[test]
fn req_core_conformance_finding_codes_discriminate_from_sweep() {
    let swept = [
        RequirementsClass::Attribution,
        RequirementsClass::Coverages,
        RequirementsClass::Tiling,
        RequirementsClass::Topology,
        RequirementsClass::Versioning,
    ];
    let violations: Vec<CdbViolation> = vec![
        AttributionViolation::EmptyModel.into(),
        CoverageViolation::UnknownGridCorner {
            value: "x".to_owned(),
        }
        .into(),
    ];
    for violation in &violations {
        for class in swept {
            assert_ne!(violation.code(), class.requirements_uri(), "{:?}", class);
        }
    }
    let mismatch = CdbViolation::DeclarationMismatch {
        profile: "simulation".to_owned(),
        class: RequirementsClass::Versioning,
        element: "versions journal",
        declared: "no versioning conformance class".to_owned(),
        found: "versions/".to_owned(),
        clause: RequirementsClass::Versioning.requirements_uri(),
    };
    assert_eq!(
        mismatch.code(),
        RequirementsClass::Versioning.requirements_uri()
    );
}

#[test]
fn conformance_report_lists_classes_and_pass_fail() {
    let report = ConformanceReport::new("simulation", "/tmp/cdb");
    let listed: Vec<RequirementsClass> = report.classes().into_iter().map(|(class, _)| class).collect();
    for class in RequirementsClass::MANDATORY {
        assert!(listed.contains(&class), "{:?} not listed", class);
    }
    for class in RequirementsClass::OPTIONAL {
        assert!(!listed.contains(&class), "{:?} listed unbidden", class);
    }
    assert_eq!(report.profile(), "simulation");
    assert_eq!(report.root(), "/tmp/cdb");
    assert!(report.is_conformant());
    for class in RequirementsClass::MANDATORY {
        assert!(report.class_passed(class), "{:?}", class);
    }

    let mut report = ConformanceReport::new("simulation", "/tmp/cdb");
    report.record_violation(NamingViolation::EmptyName.into());
    assert!(!report.is_conformant());
    assert!(!report.class_passed(RequirementsClass::FileNaming));
    for class in [
        RequirementsClass::Crs,
        RequirementsClass::FileStructure,
        RequirementsClass::Links,
        RequirementsClass::Metadata,
    ] {
        assert!(report.class_passed(class), "{:?}", class);
    }
    assert_eq!(report.violations(RequirementsClass::FileNaming).len(), 1);

    let mut report = ConformanceReport::new("simulation", "/tmp/cdb");
    report.record_warning(CdbWarning::LanguageNotEnglish {
        language: "fr".to_owned(),
    });
    assert!(report.is_conformant());
    assert!(report.class_passed(RequirementsClass::FileNaming));
    assert_eq!(report.warnings(RequirementsClass::FileNaming).len(), 1);

    let mut report = ConformanceReport::new("simulation", "/tmp/cdb");
    report.record_violation(CdbViolation::Metadata(MetadataViolation::Link(
        LinkViolation::MissingRel,
    )));
    assert!(!report.class_passed(RequirementsClass::Links));
    assert!(report.class_passed(RequirementsClass::Metadata));
    let links = report.violations(RequirementsClass::Links);
    assert_eq!(links.len(), 1);
    assert!(matches!(links[0], CdbViolation::Link(LinkViolation::MissingRel)));
}

#[test]
fn req_core_file_root_global_metadata_dir_guard_folds_case() {
    for dir in ["/global_metadata", "/Global_Metadata", "/GLOBAL_METADATA"] {
        assert!(is_global_metadata_dir(dir), "{dir}");
    }
    for dir in [
        "",
        "/",
        "/Tiles",
        "/Tiles/global_metadata",
        "/global_metadata_backup",
    ] {
        assert!(!is_global_metadata_dir(dir), "{dir:?}");
    }
}

#[test]
fn cdb_warning_classes() {
    let naming: CdbWarning = NamingWarning::NonAscii {
        name: "café".to_owned(),
    }
    .into();
    assert_eq!(naming.class(), RequirementsClass::FileNaming);
    let hierarchy: CdbWarning = HierarchyWarning::RootNameNotCdb {
        name: "MyStore".to_owned(),
    }
    .into();
    assert_eq!(hierarchy.class(), RequirementsClass::FileStructure);
    let crs: CdbWarning = CrsWarning::NotWgs84 {
        found: "NTF (Paris)".to_owned(),
    }
    .into();
    assert_eq!(crs.class(), RequirementsClass::Crs);
}

#[test]
fn conformance_report_display_human_readable() {
    let mut report = ConformanceReport::new("simulation", "/tmp/cdb");
    report.record_violation(CrsViolation::MissingEpoch.into());
    let text = report.to_string();
    assert!(text.contains("simulation"), "{text}");
    assert!(text.contains("PASS"), "{text}");
    assert!(text.contains("FAIL"), "{text}");
}

#[test]
fn conformance_report_distinguishes_no_content_from_clean() {
    let mut report = ConformanceReport::new("simulation", "/tmp/cdb");
    for class in RequirementsClass::MANDATORY {
        assert!(report.class_has_content(class), "{:?}", class);
    }
    assert!(!report.class_has_content(RequirementsClass::Tiling));
    report.declare_class(RequirementsClass::Tiling);
    report.declare_class(RequirementsClass::Topology);
    assert!(report.class_passed(RequirementsClass::Tiling));
    assert!(!report.class_has_content(RequirementsClass::Tiling));
    let listed: Vec<RequirementsClass> = report.classes().into_iter().map(|(class, _)| class).collect();
    assert!(listed.contains(&RequirementsClass::Tiling));
    report.mark_content(RequirementsClass::Tiling);
    assert!(report.class_has_content(RequirementsClass::Tiling));
    assert!(report.class_passed(RequirementsClass::Tiling));
    assert!(report.is_conformant());
    let text = report.to_string();
    assert!(text.contains("[PASS] tiling\n"), "{text}");
    assert!(text.contains("[PASS] topology (no content)"), "{text}");
}

#[test]
fn cdb_warning_wraps_and_displays() {
    let naming_warning = NamingWarning::NonAscii {
        name: "café".to_owned(),
    };
    let wrapped: CdbWarning = naming_warning.clone().into();
    assert_eq!(wrapped.to_string(), naming_warning.to_string());
    assert_eq!(wrapped.class(), RequirementsClass::FileNaming);
    let hierarchy_warning = HierarchyWarning::RootNameNotCdb {
        name: "MyStore".to_owned(),
    };
    let wrapped: CdbWarning = hierarchy_warning.clone().into();
    assert_eq!(wrapped.to_string(), hierarchy_warning.to_string());
    assert_eq!(wrapped.class(), RequirementsClass::FileStructure);
    let crs_warning = CrsWarning::NotWgs84 {
        found: "NTF (Paris)".to_owned(),
    };
    let wrapped: CdbWarning = crs_warning.clone().into();
    assert_eq!(wrapped.to_string(), crs_warning.to_string());
    assert_eq!(wrapped.class(), RequirementsClass::Crs);
    let language = CdbWarning::LanguageNotEnglish {
        language: "fr".to_owned(),
    };
    assert!(language.to_string().contains("name-language"), "{}", language.to_string());
    assert!(language.to_string().contains("fr"), "{}", language.to_string());
    assert_eq!(language.class(), RequirementsClass::FileNaming);
}

#[test]
fn report_text_has_header_and_one_block_per_listed_class() {
    let mut report = ConformanceReport::new("simulation", "/tmp/cdb");
    report.record_violation(CdbViolation::Metadata(MetadataViolation::Link(
        LinkViolation::MissingRel,
    )));
    report.record_warning(CdbWarning::LanguageNotEnglish {
        language: "fr".to_owned(),
    });
    assert_eq!(
        report.to_string(),
        "Conformance report — profile \"simulation\", root /tmp/cdb\n\
         \x20 [PASS] crs\n\
         \x20 [PASS] file-naming\n\
         \x20     warning: datastore language \"fr\"; English is recommended (/req/core/name-language B)\n\
         \x20 [PASS] file-structure\n\
         \x20 [FAIL] links\n\
         \x20     violation: link rel is mandatory and must be non-empty (violates /req/core/link-rel)\n\
         \x20 [PASS] metadata\n"
    );
}

#[test]
fn violation_messages_name_their_clause() {
    let v: CdbViolation = NamingViolation::ControlCharacter {
        name: "a\u{1}b".to_owned(),
        codepoint: 1,
    }
    .into();
    assert_eq!(
        v.to_string(),
        "control character U+0001 in name \"a\\u{1}b\" (unportable in file names)"
    );
    let v: CdbViolation = NamingViolation::ForbiddenCharacter {
        name: "a'b".to_owned(),
        character: '\'',
    }
    .into();
    assert_eq!(
        v.to_string(),
        "forbidden character '\\'' in name \"a'b\" (violates /req/core/name-unicode B)"
    );
    let v: CdbViolation = GeometryViolation::ZLengthMismatch {
        expected: 3,
        found: 10,
        part: "exterior".to_owned(),
    }
    .into();
    assert_eq!(
        v.to_string(),
        "z values for exterior: expected 3, found 10 (violates /req/core/geometry-types)"
    );
    let v: CdbViolation = CrsViolation::NonGeodeticStorageCrs {
        kind: rusty_cdb::crs::wkt2::CrsKind::Other("DATUM".to_owned()),
    }
    .into();
    assert!(v.to_string().starts_with("storage CRS kind Other(\"DATUM\") is not allowed"));
    let mismatch = CdbViolation::DeclarationMismatch {
        profile: "simulation".to_owned(),
        class: RequirementsClass::Crs,
        element: "storage CRS",
        declared: "EPSG:4326".to_owned(),
        found: "EPSG:3857".to_owned(),
        clause: "/req/core/crs/crsStorage",
    };
    assert_eq!(
        mismatch.to_string(),
        "datastore storage CRS is \"EPSG:3857\" but profile \"simulation\" declares \"EPSG:4326\" (violates /req/core/crs/crsStorage)"
    );
    let empty = HierarchyWarning::EmptyFolder("/tmp/cdb/Empty".to_owned()).to_string();
    assert!(empty.contains("/req/core/name-empty-folders A"), "{empty}");
}

#[test]
fn req_core_metadata_read_failures_name_their_document() {
    let mut report = ConformanceReport::new("Sim", "/tmp/cdb");
    let outcome = record_metadata_error(
        &mut report,
        Some("/Tiles/metadata/Roads.json"),
        MetadataError::Serialization("EOF while parsing".to_owned()),
    );
    assert!(outcome.is_ok());
    let outcome = record_metadata_error(
        &mut report,
        None,
        MetadataError::UnsupportedEncoding(MetadataEncoding::Gpkg),
    );
    assert!(outcome.is_ok());
    let found = report.violations(RequirementsClass::Metadata);
    assert_eq!(found.len(), 2);
    assert!(matches!(
        &found[0],
        CdbViolation::Metadata(MetadataViolation::Malformed { reason })
            if reason == "/Tiles/metadata/Roads.json: EOF while parsing"
    ));
    assert!(matches!(
        &found[1],
        CdbViolation::Metadata(MetadataViolation::Malformed { reason })
            if reason == "global metadata: declares the gpkg encoding the core cannot read"
    ));
    let io = std::io::Error::new(std::io::ErrorKind::Other, "disk gone");
    assert!(record_metadata_error(&mut report, None, MetadataError::Io(io)).is_err());
    assert_eq!(report.violations(RequirementsClass::Metadata).len(), 2);
}

#[test]
fn conf_core_missing_mandatory_declarations_are_recorded() {
    let mut report = ConformanceReport::new("Partial", "/tmp/cdb");
    let declared = [
        RequirementsClass::Crs,
        RequirementsClass::FileNaming,
        RequirementsClass::FileStructure,
        RequirementsClass::Tiling,
    ];
    check_declarations("Partial", &declared, &mut report);
    assert!(!report.is_conformant());
    for class in [RequirementsClass::Links, RequirementsClass::Metadata] {
        let found = report.violations(class);
        assert_eq!(found.len(), 1);
        assert!(matches!(
            &found[0],
            CdbViolation::MissingConformanceDeclaration { profile, class: c }
                if profile == "Partial" && *c == class
        ));
    }
    assert!(report.violations(RequirementsClass::Crs).is_empty());
}

#[test]
fn req_core_metadata_declarations_cross_checked() {
    let mut report = ConformanceReport::new("Sim", "/tmp/cdb");
    check_global_declarations(
        "Sim",
        MetadataEncoding::Json,
        MetadataEncoding::Xml,
        MetadataStandard::Iso19115v2019,
        MetadataStandard::Iso19115v2019,
        UnitOfMeasure::Meters,
        UnitOfMeasure::Meters,
        LanguageTag::new("en"),
        &LanguageTag::new("fr-CA").unwrap(),
        &mut report,
    );
    let found = report.violations(RequirementsClass::Metadata);
    assert_eq!(found.len(), 2);
    assert!(matches!(
        &found[0],
        CdbViolation::DeclarationMismatch { element, declared, found, clause, .. }
            if *element == "metadata encoding" && declared == "json" && found == "xml"
                && *clause == "/req/core/metadata-encoding"
    ));
    assert!(matches!(
        &found[1],
        CdbViolation::DeclarationMismatch { element, declared, found, .. }
            if *element == "language" && declared == "en" && found == "fr-CA"
    ));
    let warnings = report.warnings(RequirementsClass::FileNaming);
    assert!(warnings
        .iter()
        .any(|w| matches!(w, CdbWarning::LanguageNotEnglish { language } if language == "fr-CA")));

    let mut clean = ConformanceReport::new("Sim", "/tmp/cdb");
    check_global_declarations(
        "Sim",
        MetadataEncoding::Json,
        MetadataEncoding::Json,
        MetadataStandard::Iso19115v2019,
        MetadataStandard::Iso19115v2019,
        UnitOfMeasure::Meters,
        UnitOfMeasure::Meters,
        LanguageTag::new("bad tag"),
        &LanguageTag::new("EN-us").unwrap(),
        &mut clean,
    );
    let found = clean.violations(RequirementsClass::Metadata);
    assert_eq!(found.len(), 1);
    assert!(matches!(&found[0], CdbViolation::Metadata(MetadataViolation::InvalidLanguageTag { .. })));
    assert!(clean.warnings(RequirementsClass::FileNaming).is_empty());
}

#[test]
fn req_core_attribution_stage_judges_the_model_document() {
    let model = AttributeModel {
        schema_uri: None,
        attributes: vec![AttributeDef {
            id: " 1 ".to_owned(),
            name: "Road Name".to_owned(),
            description: "An attribute of a street".to_owned(),
        }],
    };
    let mut report = ConformanceReport::new("Sim", "/tmp/cdb");
    let kept = attribution_stage("vector_attributes.json", Ok(model.clone()), &mut report);
    let kept = kept.expect("a valid document passes");
    assert_eq!(kept.attributes[0].id, "1");
    assert!(report.class_has_content(RequirementsClass::Attribution));
    assert!(report.class_passed(RequirementsClass::Attribution));

    let mut report = ConformanceReport::new("Sim", "/tmp/cdb");
    assert!(attribution_stage("Vector_Attributes.json", Ok(model), &mut report).is_none());
    let found = report.violations(RequirementsClass::Attribution);
    assert_eq!(found.len(), 1);
    assert!(matches!(
        &found[0],
        CdbViolation::Attribution(AttributionViolation::InvalidFileName { name })
            if name == "Vector_Attributes.json"
    ));

    let mut report = ConformanceReport::new("Sim", "/tmp/cdb");
    assert!(attribution_stage("vector_attributes.xml", Err("bad xml".to_owned()), &mut report)
        .is_none());
    assert!(matches!(
        &report.violations(RequirementsClass::Attribution)[0],
        CdbViolation::Attribution(AttributionViolation::Malformed { reason }) if reason == "bad xml"
    ));
}

#[test]
fn req_core_crs_storage_declaration_cross_checked() {
    let mut report = ConformanceReport::new("Sim", "/tmp/cdb");
    check_crs_declaration(
        "Sim",
        Ok("GEOGCRS[\"WGS 84\"]".to_owned()),
        "GEOGCRS[\"NTF (Paris)\"]",
        false,
        vec![CrsWarning::NotWgs84 { found: "NTF (Paris)".to_owned() }],
        &mut report,
    );
    let found = report.violations(RequirementsClass::Crs);
    assert_eq!(found.len(), 1);
    assert!(matches!(
        &found[0],
        CdbViolation::DeclarationMismatch { class: RequirementsClass::Crs, element, declared, found, clause, .. }
            if *element == "storage CRS" && declared == "GEOGCRS[\"WGS 84\"]"
                && found == "GEOGCRS[\"NTF (Paris)\"]" && *clause == "/req/core/crs/crsStorage"
    ));
    assert_eq!(report.warnings(RequirementsClass::Crs).len(), 1);

    let mut same = ConformanceReport::new("Sim", "/tmp/cdb");
    check_crs_declaration("Sim", Ok("X[]".to_owned()), "X[]", true, Vec::new(), &mut same);
    assert!(same.is_conformant());

    let mut malformed = ConformanceReport::new("Sim", "/tmp/cdb");
    check_crs_declaration("Sim", Err(CrsViolation::MissingEpoch), "X[]", false, Vec::new(), &mut malformed);
    assert!(matches!(
        &malformed.violations(RequirementsClass::Crs)[0],
        CdbViolation::Crs(CrsViolation::MissingEpoch)
    ));
}

#[test]
fn conf_core_sweep_convicts_an_undeclared_class_once_per_class() {
    let signals = ContentSignals {
        attribute_model_files: vec![
            "vector_attributes.json".to_owned(),
            "vector_attributes.xsd".to_owned(),
        ],
        tiling_scheme: None,
        versions_journal: false,
        winding_order_record: None,
        domain_set_record: None,
    };
    let mut report = ConformanceReport::new("simulation", "/tmp/cdb");
    sweep_content("simulation", &RequirementsClass::MANDATORY, &signals, None, None, None, &mut report);
    let found = report.violations(RequirementsClass::Attribution);
    assert_eq!(found.len(), 2);
    assert_eq!(
        found
            .iter()
            .filter(|v| matches!(
                v,
                CdbViolation::DeclarationMismatch { class: RequirementsClass::Attribution, element, found, .. }
                    if *element == "attribute model file" && found == "vector_attributes.json"
            ))
            .count(),
        1
    );
    assert_eq!(
        found
            .iter()
            .filter(|v| matches!(
                v,
                CdbViolation::Attribution(AttributionViolation::InvalidFileName { name })
                    if name == "vector_attributes.xsd"
            ))
            .count(),
        1
    );
    assert!(report.class_has_content(RequirementsClass::Attribution));
    for class in RequirementsClass::MANDATORY {
        assert!(report.class_passed(class));
    }
}

#[test]
fn req_core_metadata_malformed_record_is_named() {
    let mut report = ConformanceReport::new("Sim", "/tmp/cdb");
    let outcome = record_metadata_error(
        &mut report,
        Some("/Tiles/metadata/Roads.json"),
        MetadataError::Serialization("EOF while parsing an object".to_owned()),
    );
    assert!(outcome.is_ok());
    let text: Vec<String> =
        report.violations(RequirementsClass::Metadata).iter().map(|v| v.to_string()).collect();
    let text = text.join("\n");
    assert!(text.contains("/Tiles/metadata/Roads.json"), "{text}");
    assert!(!text.contains("global metadata could not be parsed"), "{text}");
}

#[test]
fn conf_core_report_lists_mandatory_and_touched_classes_once_in_order() {
    let mut report = ConformanceReport::new("Sim", "/tmp/cdb");
    report.declare_class(RequirementsClass::Tiling);
    report.mark_content(RequirementsClass::Coverages);
    report.record_violation(CdbViolation::Geometry(GeometryViolation::MissingMUom));
    report.declare_class(RequirementsClass::Tiling);
    let listed: Vec<RequirementsClass> = report.classes().into_iter().map(|(c, _)| c).collect();
    assert_eq!(
        listed,
        vec![
            RequirementsClass::Crs,
            RequirementsClass::FileNaming,
            RequirementsClass::FileStructure,
            RequirementsClass::Links,
            RequirementsClass::Metadata,
            RequirementsClass::Coverages,
            RequirementsClass::Geometry,
            RequirementsClass::Tiling,
        ]
    );
}
