use rusty_cdb::media_types::MediaType;
use rusty_cdb::naming::known_extension;

#[test]
fn media_type_spec_table_roundtrips() {
    for media_type in MediaType::SPEC_TABLE {
        let text = media_type.as_str().to_owned();
        assert_eq!(MediaType::parse(&text), media_type, "{text}");
    }
}

#[test]
fn media_type_uses_spec_strings() {
    assert_eq!(MediaType::OpenFlight.as_str(), "model/flt");
    assert_eq!(MediaType::GeoJson.as_str(), "application/geo+json");
    assert_eq!(MediaType::GeoPackage.as_str(), "application/geopackage+sqlite3");
    assert_eq!(MediaType::Shapefile.as_str(), "application/vnd.shp");
}

#[test]
fn media_type_geotiff_is_parameterized_tiff() {
    assert_eq!(MediaType::GeoTiff.as_str(), "image/tiff; application=geotiff");
    assert_eq!(MediaType::Tiff.as_str(), "image/tiff");
    assert_ne!(MediaType::GeoTiff, MediaType::Tiff);
    assert_eq!(MediaType::parse("image/tiff"), MediaType::Tiff);
    assert_eq!(
        MediaType::parse("image/tiff; application=geotiff"),
        MediaType::GeoTiff
    );
}

#[test]
fn media_type_extension_values_roundtrip() {
    let other = MediaType::parse("application/x-custom");
    assert_eq!(other, MediaType::Other("application/x-custom".into()));
    assert_eq!(other.as_str(), "application/x-custom");
}

#[test]
fn media_type_for_extension_consistent_with_name7_table() {
    let cases = [
        ("flt", MediaType::OpenFlight),
        ("gpkg", MediaType::GeoPackage),
        ("jp2", MediaType::Jpeg2000),
        ("json", MediaType::Json),
        ("shp", MediaType::Shapefile),
        ("tif", MediaType::Tiff),
        ("xml", MediaType::Xml),
        ("xsd", MediaType::Xml),
        ("glb", MediaType::GltfBinary),
        ("gltf", MediaType::GltfJson),
    ];
    for (extension, expected) in cases {
        assert_eq!(MediaType::for_extension(extension), Some(expected), "{extension}");
        assert!(known_extension(extension).is_some(), "{extension}");
    }
    assert_eq!(MediaType::for_extension("png"), Some(MediaType::Png));
    assert_eq!(known_extension("png"), None);
    assert_eq!(MediaType::for_extension("unknown"), None);
}

#[test]
fn media_type_display_is_the_wire_string() {
    assert_eq!(MediaType::GeoJson.to_string(), "application/geo+json");
    assert_eq!(
        MediaType::Other("text/x-thing".into()).to_string(),
        "text/x-thing"
    );
}

#[test]
fn media_type_any_string_writes_back() {
    for text in ["image/tiff", "image/tiff; application=geotiff", "text/plain", "", "IMAGE/PNG"] {
        assert_eq!(MediaType::parse(text).as_str(), text);
    }
    assert_eq!(MediaType::parse("IMAGE/PNG"), MediaType::Other("IMAGE/PNG".to_owned()));
}
