use rusty_cdb::error::CdbError;
use rusty_cdb::naming::{
    component_warnings, file_warnings, guard_eq, known_extension, split_extension, validate_component,
    validate_path, CaseRule, NamingViolation, NamingWarning, StyleGuide, FORBIDDEN_CHARACTERS,
};

#[test]
fn req_core_name_guard_eq_folds_ascii_case_only() {
    for (a, b) in [
        ("Versions", "versions"),
        ("GLOBAL_METADATA", "global_metadata"),
        ("Vector_Attributes", "vector_attributes"),
        ("CDB", "cdb"),
        ("MeTaDaTa", "metadata"),
    ] {
        assert!(guard_eq(a, b), "{a} vs {b}");
    }
    assert!(!guard_eq("versionz", "versions"));
    assert!(!guard_eq("versions2", "versions"));
    assert!(!guard_eq("caf\u{c9}", "caf\u{e9}"));
}

#[test]
fn req_core_name_case_rule_is_not_folded() {
    assert!(!CaseRule::PascalCase.matches("roadNetwork"));
    assert!(!CaseRule::SnakeCase.matches("Road_Network"));
    let guide = StyleGuide::new(CaseRule::PascalCase, "en");
    assert!(guide.is_reserved("global_metadata"));
    assert!(!guide.is_reserved("Global_Metadata"));
    assert!(matches!(
        guide.validate_component("Global_Metadata.json"),
        Err(NamingViolation::CaseRuleViolation { .. })
    ));
}

#[test]
fn req_core_name_spaces_rejects_space() {
    assert_eq!(
        validate_component("road network"),
        Err(NamingViolation::ContainsSpace {
            name: "road network".into()
        })
    );
}

#[test]
fn req_core_name_spaces_rejects_tab_and_newline() {
    for name in ["road\tnetwork", "road\nnetwork"] {
        assert!(
            matches!(
                validate_component(name),
                Err(NamingViolation::ContainsSpace { .. })
            ),
            "{name:?}"
        );
    }
}

#[test]
fn req_core_name_spaces_accepts_separator_names() {
    for name in ["road_network", "RoadNetwork", "road-network", "Materials.xml"] {
        assert_eq!(validate_component(name), Ok(()), "{name:?}");
    }
}

#[test]
fn req_core_name_unicode_rejects_each_forbidden_character() {
    for &ch in FORBIDDEN_CHARACTERS.iter() {
        let name = format!("road{ch}network");
        match validate_component(&name) {
            Err(NamingViolation::ForbiddenCharacter { character, .. }) => {
                assert_eq!(character, ch);
            }
            other => panic!("{name:?}: expected ForbiddenCharacter, got {other:?}"),
        }
    }
}

#[test]
fn req_core_name_unicode_component_rejects_forward_slash() {
    assert!(matches!(
        validate_component("a/b"),
        Err(NamingViolation::ForbiddenCharacter { character: '/', .. })
    ));
}

#[test]
fn control_characters_are_rejected_for_portability() {
    assert!(matches!(
        validate_component("road\u{0}net"),
        Err(NamingViolation::ControlCharacter { .. })
    ));
}

#[test]
fn empty_name_is_rejected() {
    assert_eq!(validate_component(""), Err(NamingViolation::EmptyName));
}

#[test]
fn rec_core_name_unicode_warns_on_non_ascii_but_validates() {
    assert_eq!(validate_component("café"), Ok(()));
    assert_eq!(
        component_warnings("café"),
        vec![NamingWarning::NonAscii {
            name: "café".into()
        }]
    );
    assert!(component_warnings("cafe").is_empty());
}

#[test]
fn req_core_name_case_pascal() {
    assert!(CaseRule::PascalCase.matches("RoadNetwork"));
    assert!(CaseRule::PascalCase.matches("CDB"));
    assert!(CaseRule::PascalCase.matches("Tile01"));
    assert!(!CaseRule::PascalCase.matches("roadNetwork"));
    assert!(!CaseRule::PascalCase.matches("road_network"));
    assert!(!CaseRule::PascalCase.matches("Road-Network"));
}

#[test]
fn req_core_name_case_camel() {
    assert!(CaseRule::CamelCase.matches("roadNetwork"));
    assert!(CaseRule::CamelCase.matches("elevation"));
    assert!(!CaseRule::CamelCase.matches("RoadNetwork"));
    assert!(!CaseRule::CamelCase.matches("road_network"));
}

#[test]
fn req_core_name_case_snake_incl_all_caps_variant() {
    assert!(CaseRule::SnakeCase.matches("road_network"));
    assert!(CaseRule::SnakeCase.matches("ROAD_NETWORK"));
    assert!(CaseRule::SnakeCase.matches("lod_0"));
    assert!(!CaseRule::SnakeCase.matches("Road_Network"));
    assert!(!CaseRule::SnakeCase.matches("road__network"));
    assert!(!CaseRule::SnakeCase.matches("_road"));
    assert!(!CaseRule::SnakeCase.matches("road-network"));
}

#[test]
fn req_core_name_case_kebab() {
    assert!(CaseRule::KebabCase.matches("road-network"));
    assert!(CaseRule::KebabCase.matches("lod-0"));
    assert!(!CaseRule::KebabCase.matches("Road-Network"));
    assert!(!CaseRule::KebabCase.matches("road_network"));
    assert!(!CaseRule::KebabCase.matches("road--network"));
    assert!(!CaseRule::KebabCase.matches("-road"));
}

#[test]
fn req_core_name_case_digit_only_names_match_any_rule() {
    for rule in CaseRule::ALL {
        assert!(rule.matches("001"), "{}", rule.to_string());
    }
}

#[test]
fn req_core_name_case_classify() {
    assert_eq!(
        CaseRule::classify("roads"),
        vec![CaseRule::CamelCase, CaseRule::SnakeCase, CaseRule::KebabCase]
    );
    assert_eq!(CaseRule::classify("Roads"), vec![CaseRule::PascalCase]);
    assert_eq!(CaseRule::classify("Road Network"), Vec::<CaseRule>::new());
}

#[test]
fn req_core_name_case_applies_to_stem_not_extension() {
    assert!(CaseRule::PascalCase.matches_file_name("RoadNetwork.shp"));
    assert!(!CaseRule::PascalCase.matches_file_name("road_network.shp"));
}

#[test]
fn req_core_name_case_display_uses_spec_spellings() {
    assert_eq!(CaseRule::PascalCase.to_string(), "PascalCase");
    assert_eq!(CaseRule::CamelCase.to_string(), "camelCase");
    assert_eq!(CaseRule::SnakeCase.to_string(), "Snake_case");
    assert_eq!(CaseRule::KebabCase.to_string(), "kebab-case");
}

#[test]
fn req_core_name_ap_guide_style_guide_enforces_case_and_structure() {
    let guide = StyleGuide::new(CaseRule::PascalCase, "en");
    assert_eq!(guide.case_rule(), CaseRule::PascalCase);
    assert_eq!(guide.language(), "en");
    assert!(guide.validate_component("RoadNetwork.shp").is_ok());
    assert!(matches!(
        guide.validate_component("road network"),
        Err(NamingViolation::ContainsSpace { .. })
    ));
    assert!(matches!(
        guide.validate_component("road_network"),
        Err(NamingViolation::CaseRuleViolation { .. })
    ));
    assert_eq!(StyleGuide::default().case_rule(), CaseRule::PascalCase);
}

#[test]
fn req_core_name_ap_guide_spec_mandated_names_are_exempt() {
    let guide = StyleGuide::new(CaseRule::PascalCase, "en");
    assert!(guide.validate_component("global_metadata").is_ok());
    assert!(guide.validate_component("vector_attributes.json").is_ok());
}

#[test]
fn req_core_name_case_mixed_datastore_detected() {
    let guide = StyleGuide::new(CaseRule::PascalCase, "en");
    let names = ["RoadNetwork", "Elevation", "road_network"];
    let violations: Vec<_> = names
        .iter()
        .filter_map(|n| guide.validate_component(n).err())
        .collect();
    assert_eq!(violations.len(), 1);
}

#[test]
fn req_core_name_extensions_spec_table_is_recognized() {
    for ext in [
        "bmp", "dbf", "dbt", "gpkg", "gltf", "glb", "jp2", "json", "flt", "shp", "shx", "rgb",
        "rgba", "tif", "xml", "xsd", "zip",
    ] {
        assert!(known_extension(ext).is_some(), "{ext}");
    }
    assert_eq!(known_extension("shp"), Some("Shapefile"));
    assert_eq!(known_extension("TIF"), Some("TIFF"));
    assert_eq!(known_extension("png"), None);
}

#[test]
fn req_core_name_extensions_unknown_extension_warns() {
    assert_eq!(
        file_warnings("overview.png"),
        vec![NamingWarning::NonSpecExtension {
            name: "overview.png".into(),
            extension: "png".into(),
        }]
    );
    assert!(file_warnings("Materials.xml").is_empty());
    assert!(file_warnings("extensionless").is_empty());
}

#[test]
fn validate_path_accepts_absolute_and_relative() {
    assert_eq!(validate_path("cdb/Tiles/RoadNetwork.shp"), Ok(()));
    assert_eq!(validate_path("/cdb/Tiles"), Ok(()));
    assert_eq!(validate_path("/"), Ok(()));
}

#[test]
fn validate_path_rejects_empty_components() {
    assert!(matches!(
        validate_path("cdb//Tiles"),
        Err(NamingViolation::EmptyPathComponent { .. })
    ));
    assert!(matches!(
        validate_path("cdb/Tiles/"),
        Err(NamingViolation::EmptyPathComponent { .. })
    ));
}

#[test]
fn req_core_file_cdb_root_location_path_traversal_rejected() {
    assert!(matches!(
        validate_path("cdb/../etc"),
        Err(NamingViolation::PathTraversal { .. })
    ));
    assert!(matches!(
        validate_path("./cdb"),
        Err(NamingViolation::PathTraversal { .. })
    ));
}

#[test]
fn validate_path_surfaces_component_violations() {
    assert!(matches!(
        validate_path("a b/c"),
        Err(NamingViolation::ContainsSpace { .. })
    ));
}

#[test]
fn naming_violation_converts_to_cdb_error() {
    let e: CdbError = NamingViolation::EmptyName.into();
    assert!(matches!(e, CdbError::Naming(_)));
}

#[test]
fn req_core_name_ap_guide_crate_persistence_names_reserved() {
    let guide = StyleGuide::new(CaseRule::PascalCase, "en");
    assert!(guide.validate_component("crs.wkt").is_ok());
    assert!(guide.validate_component("global_metadata.json").is_ok());
    assert!(StyleGuide::default().validate_component("crs.wkt").is_ok());
}

#[test]
fn split_extension_keeps_a_leading_dot_in_the_stem() {
    assert_eq!(
        split_extension("RoadNetwork.shp"),
        ("RoadNetwork".to_owned(), Some("shp".to_owned()))
    );
    assert_eq!(split_extension(".hidden"), (".hidden".to_owned(), None));
    assert_eq!(
        split_extension("a.tar.gz"),
        ("a.tar".to_owned(), Some("gz".to_owned()))
    );
    assert_eq!(split_extension("plain"), ("plain".to_owned(), None));
}

#[test]
fn style_guide_reserving_a_name_exempts_it_from_the_case_rule() {
    let mut guide = StyleGuide::new(CaseRule::PascalCase, "en");
    assert!(guide.validate_component("road_network.shp").is_err());
    guide.reserve_name("road_network");
    assert!(guide.validate_component("road_network.shp").is_ok());
    assert!(guide.is_reserved("road_network"));
}

#[test]
fn classify_agrees_with_matches_for_every_rule() {
    for name in ["roads", "Roads", "ROAD_NETWORK", "road-network", "roadNetwork", "001", "a__b", ""] {
        let listed = CaseRule::classify(name);
        for rule in CaseRule::ALL {
            assert_eq!(listed.contains(&rule), rule.matches(name), "{name}");
        }
    }
}

#[test]
fn valid_paths_hold_no_traversal_segment() {
    for path in ["/Tiles/N50/E010", "Tiles/N50", "/"] {
        assert!(validate_path(path).is_ok(), "{path}");
    }
    for path in ["Tiles/../etc", "/./Tiles", "Tiles/..", "Tiles//N50"] {
        assert!(validate_path(path).is_err(), "{path}");
    }
}
