//! Media Types requirements module (spec §7.8) — optional.
//!
//! The media types for CDB metadata and datasets from the §7.8.1 table. The
//! table "can be extended as required", so unknown strings are preserved via
//! [`MediaType::Other`] rather than rejected.

use vstd::prelude::*;
use crate::naming::extension_format;
use crate::text::{lower, owned, str_eq, to_ascii_lowercase};

verus! {

/// A media type from the spec table (§7.8.1), or an extension value.
#[derive(Debug, Clone, PartialEq, Eq, Hash)]
pub enum MediaType {
    /// `model/flt` — OpenFlight model dataset.
    OpenFlight,
    /// `application/geo+json` — vector dataset as GeoJSON.
    GeoJson,
    /// `application/geopackage+sqlite3` — GeoPackage dataset.
    GeoPackage,
    /// `image/tiff; application=geotiff` — GeoTIFF with georeferencing.
    GeoTiff,
    /// `application/gltf-buffer` — glTF buffer dataset.
    GltfBuffer,
    /// `model/gltf-binary` — glTF binary model dataset.
    GltfBinary,
    /// `model/gltf+json` — glTF JSON model dataset.
    GltfJson,
    /// `application/gml+xml` — GML dataset.
    Gml,
    /// `image/jp2` — JPEG 2000 dataset.
    Jpeg2000,
    /// `application/json` — JSON, usually metadata.
    Json,
    /// `image/png` — PNG image (coverage).
    Png,
    /// `application/vnd.shp` — Shapefile vector dataset.
    Shapefile,
    /// `image/tiff` — TIFF image.
    Tiff,
    /// `application/xml` — XML, usually metadata.
    Xml,
    /// An extension media type not in the spec table.
    Other(String),
}

/// The mathematical content of a [`MediaType`].
pub enum MediaTypeModel {
    OpenFlight,
    GeoJson,
    GeoPackage,
    GeoTiff,
    GltfBuffer,
    GltfBinary,
    GltfJson,
    Gml,
    Jpeg2000,
    Json,
    Png,
    Shapefile,
    Tiff,
    Xml,
    Other(Seq<char>),
}

impl View for MediaType {
    type V = MediaTypeModel;

    open spec fn view(&self) -> MediaTypeModel {
        match self {
            MediaType::OpenFlight => MediaTypeModel::OpenFlight,
            MediaType::GeoJson => MediaTypeModel::GeoJson,
            MediaType::GeoPackage => MediaTypeModel::GeoPackage,
            MediaType::GeoTiff => MediaTypeModel::GeoTiff,
            MediaType::GltfBuffer => MediaTypeModel::GltfBuffer,
            MediaType::GltfBinary => MediaTypeModel::GltfBinary,
            MediaType::GltfJson => MediaTypeModel::GltfJson,
            MediaType::Gml => MediaTypeModel::Gml,
            MediaType::Jpeg2000 => MediaTypeModel::Jpeg2000,
            MediaType::Json => MediaTypeModel::Json,
            MediaType::Png => MediaTypeModel::Png,
            MediaType::Shapefile => MediaTypeModel::Shapefile,
            MediaType::Tiff => MediaTypeModel::Tiff,
            MediaType::Xml => MediaTypeModel::Xml,
            MediaType::Other(value) => MediaTypeModel::Other(value@),
        }
    }
}

/// The wire string of a media type.
pub open spec fn media_text(m: MediaTypeModel) -> Seq<char> {
    match m {
        MediaTypeModel::OpenFlight => "model/flt"@,
        MediaTypeModel::GeoJson => "application/geo+json"@,
        MediaTypeModel::GeoPackage => "application/geopackage+sqlite3"@,
        MediaTypeModel::GeoTiff => "image/tiff; application=geotiff"@,
        MediaTypeModel::GltfBuffer => "application/gltf-buffer"@,
        MediaTypeModel::GltfBinary => "model/gltf-binary"@,
        MediaTypeModel::GltfJson => "model/gltf+json"@,
        MediaTypeModel::Gml => "application/gml+xml"@,
        MediaTypeModel::Jpeg2000 => "image/jp2"@,
        MediaTypeModel::Json => "application/json"@,
        MediaTypeModel::Png => "image/png"@,
        MediaTypeModel::Shapefile => "application/vnd.shp"@,
        MediaTypeModel::Tiff => "image/tiff"@,
        MediaTypeModel::Xml => "application/xml"@,
        MediaTypeModel::Other(value) => value,
    }
}

/// The fourteen entries of the spec table, in table order.
pub open spec fn spec_table() -> Seq<MediaTypeModel> {
    seq![
        MediaTypeModel::OpenFlight,
        MediaTypeModel::GeoJson,
        MediaTypeModel::GeoPackage,
        MediaTypeModel::GeoTiff,
        MediaTypeModel::GltfBuffer,
        MediaTypeModel::GltfBinary,
        MediaTypeModel::GltfJson,
        MediaTypeModel::Gml,
        MediaTypeModel::Jpeg2000,
        MediaTypeModel::Json,
        MediaTypeModel::Png,
        MediaTypeModel::Shapefile,
        MediaTypeModel::Tiff,
        MediaTypeModel::Xml,
    ]
}

/// The first table entry from position `i` on whose wire string is `s`;
/// `Other(s)` when none is.
pub open spec fn parse_from(s: Seq<char>, i: int) -> MediaTypeModel
    decreases 14 - i,
{
    if i < 0 || i >= 14 {
        MediaTypeModel::Other(s)
    } else if media_text(spec_table()[i]) == s {
        spec_table()[i]
    } else {
        parse_from(s, i + 1)
    }
}

/// Parsing a media type string: the first table entry spelled `s`, or
/// `Other(s)`.
pub open spec fn parse_media(s: Seq<char>) -> MediaTypeModel {
    parse_from(s, 0)
}

/// The media type conventionally used for a (lowercased) extension.
pub open spec fn extension_media(e: Seq<char>) -> Option<MediaTypeModel> {
    if e == "flt"@ {
        Some(MediaTypeModel::OpenFlight)
    } else if e == "gpkg"@ {
        Some(MediaTypeModel::GeoPackage)
    } else if e == "jp2"@ {
        Some(MediaTypeModel::Jpeg2000)
    } else if e == "json"@ {
        Some(MediaTypeModel::Json)
    } else if e == "png"@ {
        Some(MediaTypeModel::Png)
    } else if e == "shp"@ || e == "shx"@ {
        Some(MediaTypeModel::Shapefile)
    } else if e == "tif"@ {
        Some(MediaTypeModel::Tiff)
    } else if e == "xml"@ || e == "xsd"@ {
        Some(MediaTypeModel::Xml)
    } else if e == "glb"@ {
        Some(MediaTypeModel::GltfBinary)
    } else if e == "gltf"@ {
        Some(MediaTypeModel::GltfJson)
    } else {
        None
    }
}

impl MediaType {
    /// The fourteen entries of the spec table (§7.8.1).
    pub const SPEC_TABLE: [MediaType; 14] = [
        MediaType::OpenFlight,
        MediaType::GeoJson,
        MediaType::GeoPackage,
        MediaType::GeoTiff,
        MediaType::GltfBuffer,
        MediaType::GltfBinary,
        MediaType::GltfJson,
        MediaType::Gml,
        MediaType::Jpeg2000,
        MediaType::Json,
        MediaType::Png,
        MediaType::Shapefile,
        MediaType::Tiff,
        MediaType::Xml,
    ];

    /// The wire string of this media type.
    pub fn as_str(&self) -> (r: &str)
        ensures
            r@ == media_text(self@),
    {
        match self {
            MediaType::OpenFlight => "model/flt",
            MediaType::GeoJson => "application/geo+json",
            MediaType::GeoPackage => "application/geopackage+sqlite3",
            MediaType::GeoTiff => "image/tiff; application=geotiff",
            MediaType::GltfBuffer => "application/gltf-buffer",
            MediaType::GltfBinary => "model/gltf-binary",
            MediaType::GltfJson => "model/gltf+json",
            MediaType::Gml => "application/gml+xml",
            MediaType::Jpeg2000 => "image/jp2",
            MediaType::Json => "application/json",
            MediaType::Png => "image/png",
            MediaType::Shapefile => "application/vnd.shp",
            MediaType::Tiff => "image/tiff",
            MediaType::Xml => "application/xml",
            MediaType::Other(value) => value.as_str(),
        }
    }

    /// The table entry at position `i`.
    fn table_entry(i: usize) -> (m: MediaType)
        requires
            i < 14,
        ensures
            m@ == spec_table()[i as int],
    {
        match i {
            0 => MediaType::OpenFlight,
            1 => MediaType::GeoJson,
            2 => MediaType::GeoPackage,
            3 => MediaType::GeoTiff,
            4 => MediaType::GltfBuffer,
            5 => MediaType::GltfBinary,
            6 => MediaType::GltfJson,
            7 => MediaType::Gml,
            8 => MediaType::Jpeg2000,
            9 => MediaType::Json,
            10 => MediaType::Png,
            11 => MediaType::Shapefile,
            12 => MediaType::Tiff,
            _ => MediaType::Xml,
        }
    }

    /// Parses a media type string; never fails — non-table values become
    /// [`MediaType::Other`] (the table is extensible).
    pub fn parse(value: &str) -> (m: MediaType)
        ensures
            m@ == parse_media(value@),
    {
        let mut i: usize = 0;
        while i < 14
            invariant
                0 <= i <= 14,
                parse_media(value@) == parse_from(value@, i as int),
            decreases 14 - i,
        {
            let known = MediaType::table_entry(i);
            if str_eq(known.as_str(), value) {
                return known;
            }
            i += 1;
        }
        MediaType::Other(owned(value))
    }

    /// The media type conventionally used for a file extension from the
    /// Requirement Name7 table (plus `png`), compared case-insensitively.
    pub fn for_extension(extension: &str) -> (r: Option<MediaType>)
        ensures
            r is Some == extension_media(lower(extension@)) is Some,
            r is Some ==> r->0@ == extension_media(lower(extension@))->0,
    {
        let e = to_ascii_lowercase(extension);
        let e = e.as_str();
        if str_eq(e, "flt") {
            Some(MediaType::OpenFlight)
        } else if str_eq(e, "gpkg") {
            Some(MediaType::GeoPackage)
        } else if str_eq(e, "jp2") {
            Some(MediaType::Jpeg2000)
        } else if str_eq(e, "json") {
            Some(MediaType::Json)
        } else if str_eq(e, "png") {
            Some(MediaType::Png)
        } else if str_eq(e, "shp") || str_eq(e, "shx") {
            Some(MediaType::Shapefile)
        } else if str_eq(e, "tif") {
            Some(MediaType::Tiff)
        } else if str_eq(e, "xml") || str_eq(e, "xsd") {
            Some(MediaType::Xml)
        } else if str_eq(e, "glb") {
            Some(MediaType::GltfBinary)
        } else if str_eq(e, "gltf") {
            Some(MediaType::GltfJson)
        } else {
            None
        }
    }

    /// The wire string, owned.
    pub fn to_string(&self) -> (r: String)
        ensures
            r@ == media_text(self@),
    {
        owned(self.as_str())
    }
}

proof fn lemma_parse_from_text(s: Seq<char>, i: int)
    ensures
        media_text(parse_from(s, i)) == s,
    decreases 14 - i,
{
    if 0 <= i < 14 && media_text(spec_table()[i]) != s {
        lemma_parse_from_text(s, i + 1);
    }
}

/// Reading any media type string and writing the result gives the same
/// string: table strings map to their entries, and every other string is
/// kept as it is.
pub proof fn read_media_type_writes_back(s: Seq<char>)
    ensures
        media_text(parse_media(s)) == s,
{
    lemma_parse_from_text(s, 0);
}

/// Every entry of the media type table reads back from its string.
/// The media type strings of the table are pairwise distinct.
proof fn lemma_texts_distinct()
    ensures
        forall|a: MediaTypeModel, b: MediaTypeModel|
            !(a is Other) && !(b is Other) && #[trigger] media_text(a) == #[trigger] media_text(b)
                ==> a == b,
{
    reveal_strlit("model/flt");
    reveal_strlit("application/geo+json");
    reveal_strlit("application/geopackage+sqlite3");
    reveal_strlit("image/tiff; application=geotiff");
    reveal_strlit("application/gltf-buffer");
    reveal_strlit("model/gltf-binary");
    reveal_strlit("model/gltf+json");
    reveal_strlit("application/gml+xml");
    reveal_strlit("image/jp2");
    reveal_strlit("application/json");
    reveal_strlit("image/png");
    reveal_strlit("application/vnd.shp");
    reveal_strlit("image/tiff");
    reveal_strlit("application/xml");
    assert forall|a: MediaTypeModel, b: MediaTypeModel|
        !(a is Other) && !(b is Other) && #[trigger] media_text(a) == #[trigger] media_text(b)
            implies a == b by {
        if a != b {
            let x = media_text(a);
            let y = media_text(b);
            assert(x.len() != y.len() || x[0] != y[0] || x[6] != y[6] || x[12] != y[12]);
        }
    }
}

/// Every entry of the media type table reads back from its string.
pub proof fn table_entries_read_back(m: MediaTypeModel)
    requires
        !(m is Other),
    ensures
        parse_media(media_text(m)) == m,
{
    lemma_texts_distinct();
    reveal_with_fuel(parse_from, 15);
}

/// Every extension with a conventional media type is in the file-naming
/// extension table, except `png`, which is not.
pub proof fn media_extensions_are_named_extensions(e: Seq<char>)
    requires
        extension_media(e) is Some,
    ensures
        extension_format(e) is Some <==> e != "png"@,
{
    reveal_strlit("flt");
    reveal_strlit("gpkg");
    reveal_strlit("jp2");
    reveal_strlit("json");
    reveal_strlit("png");
    reveal_strlit("shp");
    reveal_strlit("shx");
    reveal_strlit("tif");
    reveal_strlit("xml");
    reveal_strlit("xsd");
    reveal_strlit("glb");
    reveal_strlit("gltf");
    reveal_strlit("bmp");
    reveal_strlit("dbf");
    reveal_strlit("dbt");
    reveal_strlit("rgb");
    reveal_strlit("rgba");
    reveal_strlit("zip");
    if e == "flt"@ {
        assert(e.len() == 3 && e[0] == 'f' && e[1] == 'l' && e[2] == 't');
    } else if e == "gpkg"@ {
        assert(e.len() == 4 && e[0] == 'g' && e[1] == 'p' && e[2] == 'k');
    } else if e == "jp2"@ {
        assert(e.len() == 3 && e[0] == 'j' && e[1] == 'p' && e[2] == '2');
    } else if e == "json"@ {
        assert(e.len() == 4 && e[0] == 'j' && e[1] == 's' && e[2] == 'o');
    } else if e == "png"@ {
        assert(e.len() == 3 && e[0] == 'p' && e[1] == 'n' && e[2] == 'g');
    } else if e == "shp"@ {
        assert(e.len() == 3 && e[0] == 's' && e[1] == 'h' && e[2] == 'p');
    } else if e == "shx"@ {
        assert(e.len() == 3 && e[0] == 's' && e[1] == 'h' && e[2] == 'x');
    } else if e == "tif"@ {
        assert(e.len() == 3 && e[0] == 't' && e[1] == 'i' && e[2] == 'f');
    } else if e == "xml"@ {
        assert(e.len() == 3 && e[0] == 'x' && e[1] == 'm' && e[2] == 'l');
    } else if e == "xsd"@ {
        assert(e.len() == 3 && e[0] == 'x' && e[1] == 's' && e[2] == 'd');
    } else if e == "glb"@ {
        assert(e.len() == 3 && e[0] == 'g' && e[1] == 'l' && e[2] == 'b');
    } else if e == "gltf"@ {
        assert(e.len() == 4 && e[0] == 'g' && e[1] == 'l' && e[2] == 't');
    }
}

} // verus!
