use rusty_cdb::error::CdbError;
use rusty_cdb::links::{classify_href, HrefKind, Link, LinkViolation};

#[test]
fn req_core_link_href_accepts_absolute_and_relative() {
    assert_eq!(
        classify_href("http://data.example.com/buildings/123"),
        Ok(HrefKind::Absolute)
    );
    assert_eq!(classify_href("https://example.com/x"), Ok(HrefKind::Absolute));
    assert_eq!(classify_href("mailto:info@example.com"), Ok(HrefKind::Absolute));
    assert_eq!(
        classify_href("../global_metadata/crs.xml"),
        Ok(HrefKind::Relative)
    );
    assert_eq!(classify_href("Tiles/RoadNetwork.gpkg"), Ok(HrefKind::Relative));
}

#[test]
fn req_core_link_href_rejects_malformed() {
    for href in ["", "ht tp://example.com", "a<b", "http:", "line\nbreak"] {
        assert!(
            matches!(classify_href(href), Err(LinkViolation::InvalidHref { .. })),
            "{href:?}"
        );
    }
}

#[test]
fn link_violation_converts_to_cdb_error() {
    let e: CdbError = LinkViolation::MissingRel.into();
    assert!(matches!(e, CdbError::Link(_)));
}

#[test]
fn link_rel_is_mandatory_and_optionals_chain() {
    assert_eq!(
        Link::new("http://example.com/x", ""),
        Err(LinkViolation::MissingRel)
    );
    let link = Link::new("http://data.example.com/buildings/123", "alternate")
        .unwrap()
        .with_media_type("application/geo+json")
        .with_title("Trierer Strasse 70, 53115 Bonn");
    assert_eq!(link.media_type.as_deref(), Some("application/geo+json"));
    assert_eq!(link.title.as_deref(), Some("Trierer Strasse 70, 53115 Bonn"));
    assert!(link.validate().is_ok());
    assert_eq!(link.kind(), Ok(HrefKind::Absolute));
}
