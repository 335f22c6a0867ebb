//! Global and resource metadata requirements module (`/req/core/metadata-`):
//! the closed vocabularies of Requirements Metadata2 (standard), Metadata4
//! (language), Metadata5 (encoding) and Metadata8 (unit of measure), and the
//! Metadata5 encoding sweep.

pub mod temporal;

use vstd::prelude::*;
use crate::links::{LinkViolation, LinkViolationModel};
use crate::naming::split_ext;
use crate::text::{
    chars_of, is_ascii_alnum, is_ascii_alpha, is_ascii_alphabetic, is_ascii_alphanumeric, lower,
    owned, str_eq, to_ascii_lowercase,
};

verus! {

/// File stem of the global metadata file inside `global_metadata/`.
pub const GLOBAL_METADATA_STEM: &'static str = "global_metadata";

/// An operating-system I/O failure.
#[verifier::external_type_specification]
#[verifier::external_body]
pub struct ExIoError(std::io::Error);

/// A violation of a SHALL requirement in the metadata module.
#[allow(inconsistent_fields)]
#[derive(Debug, Clone, PartialEq, Eq)]
pub enum MetadataViolation {
    MissingElement { element: &'static str },
    UnknownMetadataStandard { value: String },
    UnknownEncoding { value: String },
    UnknownUnitOfMeasure { value: String },
    InvalidLanguageTag { value: String, reason: &'static str },
    InvalidDateTime { value: String, reason: String },
    NotUtc { value: String },
    InvalidTemporalInterval { value: String, reason: &'static str },
    EncodingMismatch { file: String, declared: MetadataEncoding, found: MetadataEncoding },
    MissingGlobalMetadata { searched: String },
    Malformed { reason: String },
    Link(LinkViolation),
}

/// The mathematical content of a [`MetadataViolation`].
pub enum MetadataViolationModel {
    MissingElement { element: Seq<char> },
    UnknownMetadataStandard { value: Seq<char> },
    UnknownEncoding { value: Seq<char> },
    UnknownUnitOfMeasure { value: Seq<char> },
    InvalidLanguageTag { value: Seq<char>, reason: Seq<char> },
    InvalidDateTime { value: Seq<char>, reason: Seq<char> },
    NotUtc { value: Seq<char> },
    InvalidTemporalInterval { value: Seq<char>, reason: Seq<char> },
    EncodingMismatch { file: Seq<char>, declared: MetadataEncoding, found: MetadataEncoding },
    MissingGlobalMetadata { searched: Seq<char> },
    Malformed { reason: Seq<char> },
    Link(LinkViolationModel),
}

impl View for MetadataViolation {
    type V = MetadataViolationModel;

    open spec fn view(&self) -> MetadataViolationModel {
        match self {
            MetadataViolation::MissingElement { element } =>
                MetadataViolationModel::MissingElement { element: element@ },
            MetadataViolation::UnknownMetadataStandard { value } =>
                MetadataViolationModel::UnknownMetadataStandard { value: value@ },
            MetadataViolation::UnknownEncoding { value } =>
                MetadataViolationModel::UnknownEncoding { value: value@ },
            MetadataViolation::UnknownUnitOfMeasure { value } =>
                MetadataViolationModel::UnknownUnitOfMeasure { value: value@ },
            MetadataViolation::InvalidLanguageTag { value, reason } =>
                MetadataViolationModel::InvalidLanguageTag { value: value@, reason: reason@ },
            MetadataViolation::InvalidDateTime { value, reason } =>
                MetadataViolationModel::InvalidDateTime { value: value@, reason: reason@ },
            MetadataViolation::NotUtc { value } => MetadataViolationModel::NotUtc {
                value: value@,
            },
            MetadataViolation::InvalidTemporalInterval { value, reason } =>
                MetadataViolationModel::InvalidTemporalInterval { value: value@, reason: reason@ },
            MetadataViolation::EncodingMismatch { file, declared, found } =>
                MetadataViolationModel::EncodingMismatch {
                    file: file@,
                    declared: *declared,
                    found: *found,
                },
            MetadataViolation::MissingGlobalMetadata { searched } =>
                MetadataViolationModel::MissingGlobalMetadata { searched: searched@ },
            MetadataViolation::Malformed { reason } => MetadataViolationModel::Malformed {
                reason: reason@,
            },
            MetadataViolation::Link(link) => MetadataViolationModel::Link(link@),
        }
    }
}

/// Operational errors for metadata I/O.
#[derive(Debug)]
pub enum MetadataError {
    Violation(MetadataViolation),
    /// The core cannot write metadata files in this container encoding.
    UnsupportedEncoding(MetadataEncoding),
    /// A (de)serialization failure, with its message.
    Serialization(String),
    Io(std::io::Error),
}

impl From<MetadataViolation> for MetadataError {
    fn from(violation: MetadataViolation) -> (r: MetadataError)
        ensures
            r == MetadataError::Violation(violation),
    {
        MetadataError::Violation(violation)
    }
}

impl vstd::std_specs::convert::FromSpecImpl<MetadataViolation> for MetadataError {
    open spec fn obeys_from_spec() -> bool {
        true
    }

    open spec fn from_spec(violation: MetadataViolation) -> MetadataError {
        MetadataError::Violation(violation)
    }
}

impl From<LinkViolation> for MetadataViolation {
    fn from(violation: LinkViolation) -> (r: MetadataViolation)
        ensures
            r == MetadataViolation::Link(violation),
    {
        MetadataViolation::Link(violation)
    }
}

impl vstd::std_specs::convert::FromSpecImpl<LinkViolation> for MetadataViolation {
    open spec fn obeys_from_spec() -> bool {
        true
    }

    open spec fn from_spec(violation: LinkViolation) -> MetadataViolation {
        MetadataViolation::Link(violation)
    }
}

/// The metadata standards a datastore may declare (Requirement Metadata2).
/// The list is closed: unknown values are rejected.
#[derive(Debug, Clone, Copy, PartialEq, Eq, Hash, Structural)]
pub enum MetadataStandard {
    Iso19115v2019,
    Iso19115v2003,
    Ddms50,
    Ddms41,
    Dcat,
    DcatAp,
    GeoDcatAp,
    Ngcmp,
    Fg3d,
    NoMetadata,
}

/// The wire spelling of each metadata standard.
pub open spec fn standard_text(s: MetadataStandard) -> Seq<char> {
    match s {
        MetadataStandard::Iso19115v2019 => "ISO-19115:2019"@,
        MetadataStandard::Iso19115v2003 => "ISO-19115:2003"@,
        MetadataStandard::Ddms50 => "DDMS-5.0"@,
        MetadataStandard::Ddms41 => "DDMS-4.1"@,
        MetadataStandard::Dcat => "DCAT"@,
        MetadataStandard::DcatAp => "DCAT-AP"@,
        MetadataStandard::GeoDcatAp => "GeoDCAT-AP"@,
        MetadataStandard::Ngcmp => "NGCMP"@,
        MetadataStandard::Fg3d => "FG3D"@,
        MetadataStandard::NoMetadata => "NoMetadata"@,
    }
}

impl MetadataStandard {
    /// Every standard, in listing order.
    pub const ALL: [MetadataStandard; 10] = [
        MetadataStandard::Iso19115v2019,
        MetadataStandard::Iso19115v2003,
        MetadataStandard::Ddms50,
        MetadataStandard::Ddms41,
        MetadataStandard::Dcat,
        MetadataStandard::DcatAp,
        MetadataStandard::GeoDcatAp,
        MetadataStandard::Ngcmp,
        MetadataStandard::Fg3d,
        MetadataStandard::NoMetadata,
    ];

    /// The wire spelling.
    pub fn as_str(self) -> (r: &'static str)
        ensures
            r@ == standard_text(self),
    {
        match self {
            MetadataStandard::Iso19115v2019 => "ISO-19115:2019",
            MetadataStandard::Iso19115v2003 => "ISO-19115:2003",
            MetadataStandard::Ddms50 => "DDMS-5.0",
            MetadataStandard::Ddms41 => "DDMS-4.1",
            MetadataStandard::Dcat => "DCAT",
            MetadataStandard::DcatAp => "DCAT-AP",
            MetadataStandard::GeoDcatAp => "GeoDCAT-AP",
            MetadataStandard::Ngcmp => "NGCMP",
            MetadataStandard::Fg3d => "FG3D",
            MetadataStandard::NoMetadata => "NoMetadata",
        }
    }

    /// Parses a wire spelling; anything outside the closed list is a
    /// Metadata2 violation.
    pub fn parse(value: &str) -> (r: Result<Self, MetadataViolation>)
        ensures
            r is Ok ==> standard_text(r->Ok_0) == value@,
            r is Err <==> (forall|s: MetadataStandard| standard_text(s) != value@),
            r is Err ==> r->Err_0@ == (MetadataViolationModel::UnknownMetadataStandard {
                value: value@,
            }),
    {
        let found = if str_eq(value, "ISO-19115:2019") {
            Some(MetadataStandard::Iso19115v2019)
        } else if str_eq(value, "ISO-19115:2003") {
            Some(MetadataStandard::Iso19115v2003)
        } else if str_eq(value, "DDMS-5.0") {
            Some(MetadataStandard::Ddms50)
        } else if str_eq(value, "DDMS-4.1") {
            Some(MetadataStandard::Ddms41)
        } else if str_eq(value, "DCAT") {
            Some(MetadataStandard::Dcat)
        } else if str_eq(value, "DCAT-AP") {
            Some(MetadataStandard::DcatAp)
        } else if str_eq(value, "GeoDCAT-AP") {
            Some(MetadataStandard::GeoDcatAp)
        } else if str_eq(value, "NGCMP") {
            Some(MetadataStandard::Ngcmp)
        } else if str_eq(value, "FG3D") {
            Some(MetadataStandard::Fg3d)
        } else if str_eq(value, "NoMetadata") {
            Some(MetadataStandard::NoMetadata)
        } else {
            None
        };
        match found {
            Some(s) => {
                assert(standard_text(s) == value@);
                Ok(s)
            },
            None => Err(MetadataViolation::UnknownMetadataStandard { value: owned(value) }),
        }
    }
}

/// Each standard reads back from its own spelling: the spellings are
/// pairwise distinct, so `parse(s.as_str())` is `Ok(s)`.
pub proof fn standard_spelling_roundtrip(a: MetadataStandard, b: MetadataStandard)
    ensures
        standard_text(a) == standard_text(b) ==> a == b,
{
    reveal_strlit("ISO-19115:2019");
    reveal_strlit("ISO-19115:2003");
    reveal_strlit("DDMS-5.0");
    reveal_strlit("DDMS-4.1");
    reveal_strlit("DCAT");
    reveal_strlit("DCAT-AP");
    reveal_strlit("GeoDCAT-AP");
    reveal_strlit("NGCMP");
    reveal_strlit("FG3D");
    reveal_strlit("NoMetadata");
    if standard_text(a) == standard_text(b) && a != b {
        let x = standard_text(a);
        let y = standard_text(b);
        assert(x.len() != y.len() || x[0] != y[0] || x[1] != y[1] || x[3] != y[3] || x[5] != y[5]
            || x[12] != y[12] || x[13] != y[13]);
    }
}

/// The single metadata encoding used datastore-wide (Requirement Metadata5).
#[derive(Debug, Clone, Copy, PartialEq, Eq, Hash, Structural)]
pub enum MetadataEncoding {
    Xml,
    Json,
    Gpkg,
}

/// The wire spelling (and file extension) of each encoding.
pub open spec fn encoding_text(e: MetadataEncoding) -> Seq<char> {
    match e {
        MetadataEncoding::Xml => "xml"@,
        MetadataEncoding::Json => "json"@,
        MetadataEncoding::Gpkg => "gpkg"@,
    }
}

/// The encoding spelled `v`, if any.
pub open spec fn parse_encoding(v: Seq<char>) -> Option<MetadataEncoding> {
    if v == "xml"@ {
        Some(MetadataEncoding::Xml)
    } else if v == "json"@ {
        Some(MetadataEncoding::Json)
    } else if v == "gpkg"@ {
        Some(MetadataEncoding::Gpkg)
    } else {
        None
    }
}

impl MetadataEncoding {
    /// The wire spelling.
    pub fn as_str(self) -> (r: &'static str)
        ensures
            r@ == encoding_text(self),
    {
        match self {
            MetadataEncoding::Xml => "xml",
            MetadataEncoding::Json => "json",
            MetadataEncoding::Gpkg => "gpkg",
        }
    }

    /// The file extension, which is the wire spelling.
    pub fn extension(self) -> (r: &'static str)
        ensures
            r@ == encoding_text(self),
    {
        self.as_str()
    }

    /// Parses a wire spelling; anything else violates Metadata5.
    pub fn parse(value: &str) -> (r: Result<Self, MetadataViolation>)
        ensures
            r is Ok <==> parse_encoding(value@) is Some,
            r is Ok ==> r->Ok_0 == parse_encoding(value@)->0,
            r is Err ==> r->Err_0@ == (MetadataViolationModel::UnknownEncoding { value: value@ }),
    {
        if str_eq(value, "xml") {
            Ok(MetadataEncoding::Xml)
        } else if str_eq(value, "json") {
            Ok(MetadataEncoding::Json)
        } else if str_eq(value, "gpkg") {
            Ok(MetadataEncoding::Gpkg)
        } else {
            Err(MetadataViolation::UnknownEncoding { value: owned(value) })
        }
    }
}

/// Each encoding reads back from its own spelling.
pub proof fn encoding_spelling_roundtrip(e: MetadataEncoding)
    ensures
        parse_encoding(encoding_text(e)) == Some(e),
{
    reveal_strlit("xml");
    reveal_strlit("json");
    reveal_strlit("gpkg");
    assert("xml"@ != "json"@ && "xml"@ != "gpkg"@ && "json"@ != "gpkg"@) by {
        assert("xml"@.len() != "json"@.len());
        assert("xml"@[0] != "gpkg"@[0]);
        assert("json"@[0] != "gpkg"@[0]);
    }
}

/// The single unit of measure datastore-wide (Requirement Metadata8).
#[derive(Debug, Clone, Copy, PartialEq, Eq, Hash, Structural)]
pub enum UnitOfMeasure {
    Meters,
    Feet,
    Kilometers,
    Miles,
}

/// The wire spelling of each unit.
pub open spec fn uom_text(u: UnitOfMeasure) -> Seq<char> {
    match u {
        UnitOfMeasure::Meters => "M"@,
        UnitOfMeasure::Feet => "FT"@,
        UnitOfMeasure::Kilometers => "K"@,
        UnitOfMeasure::Miles => "MI"@,
    }
}

/// The unit spelled `v`, if any.
pub open spec fn parse_uom(v: Seq<char>) -> Option<UnitOfMeasure> {
    if v == "M"@ {
        Some(UnitOfMeasure::Meters)
    } else if v == "FT"@ {
        Some(UnitOfMeasure::Feet)
    } else if v == "K"@ {
        Some(UnitOfMeasure::Kilometers)
    } else if v == "MI"@ {
        Some(UnitOfMeasure::Miles)
    } else {
        None
    }
}

impl UnitOfMeasure {
    /// The wire spelling.
    pub fn as_str(self) -> (r: &'static str)
        ensures
            r@ == uom_text(self),
    {
        match self {
            UnitOfMeasure::Meters => "M",
            UnitOfMeasure::Feet => "FT",
            UnitOfMeasure::Kilometers => "K",
            UnitOfMeasure::Miles => "MI",
        }
    }

    /// Parses a wire spelling; anything else violates Metadata8.
    pub fn parse(value: &str) -> (r: Result<Self, MetadataViolation>)
        ensures
            r is Ok <==> parse_uom(value@) is Some,
            r is Ok ==> r->Ok_0 == parse_uom(value@)->0,
            r is Err ==> r->Err_0@ == (MetadataViolationModel::UnknownUnitOfMeasure {
                value: value@,
            }),
    {
        if str_eq(value, "M") {
            Ok(UnitOfMeasure::Meters)
        } else if str_eq(value, "FT") {
            Ok(UnitOfMeasure::Feet)
        } else if str_eq(value, "K") {
            Ok(UnitOfMeasure::Kilometers)
        } else if str_eq(value, "MI") {
            Ok(UnitOfMeasure::Miles)
        } else {
            Err(MetadataViolation::UnknownUnitOfMeasure { value: owned(value) })
        }
    }
}

/// Each unit reads back from its own spelling.
pub proof fn uom_spelling_roundtrip(u: UnitOfMeasure)
    ensures
        parse_uom(uom_text(u)) == Some(u),
{
    reveal_strlit("M");
    reveal_strlit("FT");
    reveal_strlit("K");
    reveal_strlit("MI");
    assert("M"@ != "FT"@ && "M"@ != "K"@ && "M"@ != "MI"@ && "FT"@ != "K"@ && "FT"@ != "MI"@
        && "K"@ != "MI"@) by {
        assert("M"@.len() != "FT"@.len());
        assert("M"@[0] != "K"@[0]);
        assert("M"@.len() != "MI"@.len());
        assert("FT"@[0] != "K"@[0]);
        assert("FT"@[0] != "MI"@[0]);
        assert("K"@.len() != "MI"@.len());
    }
}

// ---------------------------------------------------------------------------
// Language tags (Requirement Metadata4)

/// End of the `sep`-separated piece starting at `start`.
pub open spec fn piece_end(s: Seq<char>, start: int, sep: char) -> int
    decreases s.len() - start,
{
    if start >= s.len() {
        s.len() as int
    } else if s[start] == sep {
        start
    } else {
        piece_end(s, start + 1, sep)
    }
}

/// Range lemma for [`piece_end`].
pub proof fn lemma_piece_end(s: Seq<char>, start: int, sep: char)
    requires
        0 <= start <= s.len(),
    ensures
        start <= piece_end(s, start, sep) <= s.len(),
        piece_end(s, start, sep) < s.len() ==> s[piece_end(s, start, sep)] == sep,
        forall|k: int| start <= k < piece_end(s, start, sep) ==> s[k] != sep,
    decreases s.len() - start,
{
    if start < s.len() && s[start] != sep {
        lemma_piece_end(s, start + 1, sep);
    }
}

/// Executable [`piece_end`].
pub fn find_piece_end(v: &Vec<char>, start: usize, sep: char) -> (r: usize)
    requires
        start <= v@.len(),
    ensures
        r == piece_end(v@, start as int, sep),
        start <= r <= v@.len(),
{
    proof {
        lemma_piece_end(v@, start as int, sep);
    }
    let mut i = start;
    while i < v.len() && v[i] != sep
        invariant
            start <= i <= v@.len(),
            piece_end(v@, i as int, sep) == piece_end(v@, start as int, sep),
        decreases v@.len() - i,
    {
        i += 1;
    }
    i
}

/// Every character of `s` is an ASCII letter.
pub open spec fn all_alpha(s: Seq<char>) -> bool {
    forall|i: int| 0 <= i < s.len() ==> is_ascii_alpha(#[trigger] s[i])
}

/// Every character of `s` is an ASCII letter or digit.
pub open spec fn all_alnum_ascii(s: Seq<char>) -> bool {
    forall|i: int| 0 <= i < s.len() ==> is_ascii_alnum(#[trigger] s[i])
}

/// The reason a subtag from `start` on is malformed, if one is.
pub open spec fn subtags_fault(t: Seq<char>, start: int) -> Option<Seq<char>>
    decreases t.len() - start,
{
    if start < 0 || start > t.len() {
        None
    } else {
        let end = piece_end(t, start, '-');
        proof {
            lemma_piece_end(t, start, '-');
        }
        let c = t.subrange(start, end);
        if c.len() == 0 {
            Some("empty subtag"@)
        } else if c.len() > 8 || !all_alnum_ascii(c) {
            Some("subtags must be 1-8 ASCII alphanumerics"@)
        } else if end >= t.len() {
            None
        } else {
            subtags_fault(t, end + 1)
        }
    }
}

/// The reason a language tag is not well-formed BCP 47 syntax, if it is
/// not: a primary subtag of 1–8 ASCII letters, then `-`-separated subtags
/// of 1–8 ASCII letters or digits.
pub open spec fn tag_fault(t: Seq<char>) -> Option<Seq<char>> {
    if t.len() == 0 {
        Some("empty"@)
    } else {
        let e = piece_end(t, 0, '-');
        let p = t.take(e);
        if p.len() == 0 || p.len() > 8 || !all_alpha(p) {
            Some("primary subtag must be 1-8 ASCII letters"@)
        } else if e >= t.len() {
            None
        } else {
            subtags_fault(t, e + 1)
        }
    }
}

/// Whether `v[a..b]` is all ASCII letters (`alpha`) or letters and digits.
fn range_all(v: &Vec<char>, a: usize, b: usize, alpha: bool) -> (r: bool)
    requires
        a <= b <= v@.len(),
    ensures
        alpha ==> r == all_alpha(v@.subrange(a as int, b as int)),
        !alpha ==> r == all_alnum_ascii(v@.subrange(a as int, b as int)),
{
    let ghost s = v@.subrange(a as int, b as int);
    let mut i = a;
    while i < b
        invariant
            a <= i <= b <= v@.len(),
            s == v@.subrange(a as int, b as int),
            alpha ==> forall|k: int| 0 <= k < i - a ==> is_ascii_alpha(#[trigger] s[k]),
            !alpha ==> forall|k: int| 0 <= k < i - a ==> is_ascii_alnum(#[trigger] s[k]),
        decreases b - i,
    {
        let ok = if alpha {
            is_ascii_alphabetic(v[i])
        } else {
            is_ascii_alphanumeric(v[i])
        };
        if !ok {
            assert(s[i - a] == v@[i as int]);
            return false;
        }
        i += 1;
    }
    true
}

/// A well-formed IETF BCP 47 language tag (Requirement Metadata4).
/// Validation is syntactic (RFC 5646 subtag shape), not a registry lookup.
#[derive(Debug, Clone, PartialEq, Eq, Hash)]
pub struct LanguageTag(String);

impl LanguageTag {
    /// The tag text.
    pub closed spec fn text(&self) -> Seq<char> {
        self.0@
    }

    /// Validates and adopts a language tag.
    pub fn new(tag: &str) -> (r: Result<Self, MetadataViolation>)
        ensures
            r is Ok <==> tag_fault(tag@) is None,
            r is Ok ==> r->Ok_0.text() == tag@,
            r is Err ==> r->Err_0@ == (MetadataViolationModel::InvalidLanguageTag {
                value: tag@,
                reason: tag_fault(tag@)->0,
            }),
    {
        match LanguageTag::check(tag) {
            None => Ok(LanguageTag(owned(tag))),
            Some(reason) => Err(MetadataViolation::InvalidLanguageTag { value: owned(tag), reason }),
        }
    }

    fn check(tag: &str) -> (r: Option<&'static str>)
        ensures
            r is Some == tag_fault(tag@) is Some,
            r is Some ==> r->0@ == tag_fault(tag@)->0,
    {
        let v = chars_of(tag);
        if v.len() == 0 {
            return Some("empty");
        }
        let e = find_piece_end(&v, 0, '-');
        assert(v@.take(e as int) == v@.subrange(0, e as int));
        if e == 0 || e > 8 || !range_all(&v, 0, e, true) {
            return Some("primary subtag must be 1-8 ASCII letters");
        }
        if e == v.len() {
            return None;
        }
        let mut start = e + 1;
        loop
            invariant
                v@ == tag@,
                start <= v@.len(),
                tag_fault(tag@) == subtags_fault(tag@, start as int),
            decreases v@.len() - start,
        {
            let end = find_piece_end(&v, start, '-');
            if end == start {
                return Some("empty subtag");
            }
            if end - start > 8 || !range_all(&v, start, end, false) {
                return Some("subtags must be 1-8 ASCII alphanumerics");
            }
            if end == v.len() {
                return None;
            }
            start = end + 1;
        }
    }

    /// The tag text.
    pub fn as_str(&self) -> (r: &str)
        ensures
            r@ == self.text(),
    {
        self.0.as_str()
    }
}

/// Character coding of a resource's text (`CharacterSetCode`).
#[derive(Debug, Clone, Copy, PartialEq, Eq, Hash, Default, Structural)]
pub enum CharacterSet {
    #[default]
    Utf8,
    Utf16,
}

impl CharacterSet {
    /// Whether the value is the default, `utf8` (it is then not written).
    pub fn is_default(value: &CharacterSet) -> (r: bool)
        ensures
            r == (*value == CharacterSet::Utf8),
    {
        match value {
            CharacterSet::Utf8 => true,
            CharacterSet::Utf16 => false,
        }
    }
}

/// Resource type of a dataset record; the table requires the literal
/// `dataset`.
#[derive(Debug, Clone, Copy, PartialEq, Eq, Hash, Default, Structural)]
pub enum ResourceType {
    #[default]
    Dataset,
}

// ---------------------------------------------------------------------------
// Requirement Metadata5: one encoding datastore-wide

/// The metadata encoding a (lowercased) extension denotes, if any:
/// `xml`/`xsd` → XML, `json` → JSON, `gpkg` → GeoPackage.
pub open spec fn extension_encoding_spec(e: Seq<char>) -> Option<MetadataEncoding> {
    if e == "xml"@ || e == "xsd"@ {
        Some(MetadataEncoding::Xml)
    } else if e == "json"@ {
        Some(MetadataEncoding::Json)
    } else if e == "gpkg"@ {
        Some(MetadataEncoding::Gpkg)
    } else {
        None
    }
}

/// The metadata encoding a file extension denotes, case-insensitively.
pub fn extension_encoding(extension: &str) -> (r: Option<MetadataEncoding>)
    ensures
        r == extension_encoding_spec(lower(extension@)),
{
    let e = to_ascii_lowercase(extension);
    let e = e.as_str();
    if str_eq(e, "xml") || str_eq(e, "xsd") {
        Some(MetadataEncoding::Xml)
    } else if str_eq(e, "json") {
        Some(MetadataEncoding::Json)
    } else if str_eq(e, "gpkg") {
        Some(MetadataEncoding::Gpkg)
    } else {
        None
    }
}

/// The encoding a file name's extension denotes, if any.
pub open spec fn file_encoding(name: Seq<char>) -> Option<MetadataEncoding> {
    match split_ext(name).1 {
        Some(e) => extension_encoding_spec(lower(e)),
        None => None,
    }
}

/// The Metadata5 findings for the names `names[i..]`.
pub open spec fn encoding_findings(declared: MetadataEncoding, names: Seq<Seq<char>>) -> Seq<
    MetadataViolationModel,
>
    decreases names.len(),
{
    if names.len() == 0 {
        Seq::empty()
    } else {
        let rest = encoding_findings(declared, names.drop_first());
        match file_encoding(names[0]) {
            Some(found) => if found != declared {
                seq![MetadataViolationModel::EncodingMismatch { file: names[0], declared, found }]
                    + rest
            } else {
                rest
            },
            None => rest,
        }
    }
}

/// The models of a list of metadata violations.
pub open spec fn metadata_violations_model(v: Seq<MetadataViolation>) -> Seq<MetadataViolationModel> {
    v.map_values(|m: MetadataViolation| m@)
}

/// Checks Requirement Metadata5 over a set of metadata file names: every
/// metadata file must match the declared datastore-wide encoding. Names
/// without a metadata extension are not this requirement's concern.
pub fn encoding_violations(declared: MetadataEncoding, file_names: &[&str]) -> (out: Vec<
    MetadataViolation,
>)
    ensures
        metadata_violations_model(out@) == encoding_findings(
            declared,
            file_names@.map_values(|n: &str| n@),
        ),
{
    let ghost names = file_names@.map_values(|n: &str| n@);
    let mut out: Vec<MetadataViolation> = Vec::new();
    let mut i: usize = 0;
    assert(names.skip(0) =~= names);
    while i < file_names.len()
        invariant
            0 <= i <= file_names@.len(),
            names == file_names@.map_values(|n: &str| n@),
            metadata_violations_model(out@) + encoding_findings(declared, names.skip(i as int))
                == encoding_findings(declared, names),
        decreases file_names@.len() - i,
    {
        let name = file_names[i];
        let (_, extension) = crate::naming::split_extension(name);
        assert(names.skip(i as int).drop_first() =~= names.skip(i + 1));
        assert(names.skip(i as int)[0] == name@);
        let ghost before = out@;
        if let Some(extension) = extension {
            if let Some(found) = extension_encoding(extension.as_str()) {
                if found != declared {
                    out.push(
                        MetadataViolation::EncodingMismatch { file: owned(name), declared, found },
                    );
                    assert(metadata_violations_model(out@) =~= metadata_violations_model(before)
                        + seq![out@.last()@]);
                }
            }
        }
        i += 1;
    }
    assert(names.skip(i as int) =~= Seq::<Seq<char>>::empty());
    assert(metadata_violations_model(out@) + Seq::<MetadataViolationModel>::empty() =~= metadata_violations_model(out@));
    out
}

// ---------------------------------------------------------------------------
// Mandatory elements of metadata records

/// The model of a metadata check's result.
pub open spec fn metadata_result(r: Result<(), MetadataViolation>) -> Result<
    (),
    MetadataViolationModel,
> {
    match r {
        Ok(()) => Ok(()),
        Err(e) => Err(e@),
    }
}

/// The first of the named texts that is empty, as a missing element.
pub open spec fn first_empty(texts: Seq<(Seq<char>, Seq<char>)>) -> Option<MetadataViolationModel>
    decreases texts.len(),
{
    if texts.len() == 0 {
        None
    } else if texts[0].0.len() == 0 {
        Some(MetadataViolationModel::MissingElement { element: texts[0].1 })
    } else {
        first_empty(texts.drop_first())
    }
}

/// The verdict on the mandatory elements of a global metadata record:
/// `ID`, `title`, `description` and `contactPoint` must not be empty.
pub open spec fn global_elements_spec(
    id: Seq<char>,
    title: Seq<char>,
    description: Seq<char>,
    contact_point: Seq<char>,
) -> Result<(), MetadataViolationModel> {
    match first_empty(
        seq![(id, "ID"@), (title, "title"@), (description, "description"@), (contact_point, "contactPoint"@)],
    ) {
        Some(v) => Err(v),
        None => Ok(()),
    }
}

fn require_text(value: &str, element: &'static str) -> (r: Result<(), MetadataViolation>)
    ensures
        metadata_result(r) == if value@.len() == 0 {
            Err(MetadataViolationModel::MissingElement { element: element@ })
        } else {
            Ok(())
        },
{
    if value.is_empty() {
        Err(MetadataViolation::MissingElement { element })
    } else {
        Ok(())
    }
}

/// Checks the mandatory elements of a global metadata record.
pub fn check_global_elements(
    id: &str,
    title: &str,
    description: &str,
    contact_point: &str,
) -> (r: Result<(), MetadataViolation>)
    ensures
        metadata_result(r) == global_elements_spec(id@, title@, description@, contact_point@),
{
    reveal_with_fuel(first_empty, 5);
    require_text(id, "ID")?;
    require_text(title, "title")?;
    require_text(description, "description")?;
    require_text(contact_point, "contactPoint")?;
    Ok(())
}

/// The first failing link of `links` from `i` on.
pub open spec fn first_link_fault(links: Seq<crate::links::Link>, i: int) -> Option<LinkViolationModel>
    decreases links.len() - i,
{
    if i < 0 || i >= links.len() {
        None
    } else {
        match crate::links::link_spec(links[i].href@, links[i].rel@) {
            Err(e) => Some(e),
            Ok(()) => first_link_fault(links, i + 1),
        }
    }
}

/// The verdict on the mandatory elements of a resource metadata record:
/// `ID`, `title` and `description` must not be empty, then every
/// association must be a valid link.
pub open spec fn resource_elements_spec(
    id: Seq<char>,
    title: Seq<char>,
    description: Seq<char>,
    associations: Seq<crate::links::Link>,
) -> Result<(), MetadataViolationModel> {
    match first_empty(seq![(id, "ID"@), (title, "title"@), (description, "description"@)]) {
        Some(v) => Err(v),
        None => match first_link_fault(associations, 0) {
            Some(e) => Err(MetadataViolationModel::Link(e)),
            None => Ok(()),
        },
    }
}

/// Checks the mandatory elements and the associations of a resource
/// metadata record.
pub fn check_resource_elements(
    id: &str,
    title: &str,
    description: &str,
    associations: &[crate::links::Link],
) -> (r: Result<(), MetadataViolation>)
    ensures
        metadata_result(r) == resource_elements_spec(id@, title@, description@, associations@),
{
    reveal_with_fuel(first_empty, 4);
    require_text(id, "ID")?;
    require_text(title, "title")?;
    require_text(description, "description")?;
    let mut i: usize = 0;
    while i < associations.len()
        invariant
            0 <= i <= associations@.len(),
            first_link_fault(associations@, 0) == first_link_fault(associations@, i as int),
            first_empty(seq![(id@, "ID"@), (title@, "title"@), (description@, "description"@)])
                is None,
        decreases associations@.len() - i,
    {
        match associations[i].validate() {
            Err(e) => {
                return Err(MetadataViolation::Link(e));
            },
            Ok(()) => {},
        }
        i += 1;
    }
    Ok(())
}

/// What a global metadata builder was given: the text of each mandatory
/// text element, when set, and whether each other mandatory element was
/// set.
pub struct BuilderElements {
    pub id: Option<String>,
    pub title: Option<String>,
    pub description: Option<String>,
    pub contact_point: Option<String>,
    pub created: bool,
    pub language: bool,
    pub metadata_standard: bool,
    pub encoding: bool,
    pub uom: bool,
}

/// The text of an optional element; unset reads as empty.
pub open spec fn set_text(o: Option<String>) -> Seq<char> {
    match o {
        Some(t) => t@,
        None => Seq::empty(),
    }
}

/// The first missing element of a builder, in the order of the global
/// metadata table: an unset or empty text element, then an unset element.
pub open spec fn builder_spec(b: BuilderElements) -> Result<(), MetadataViolationModel> {
    match first_empty(
        seq![
            (set_text(b.id), "ID"@),
            (set_text(b.title), "title"@),
            (set_text(b.description), "description"@),
            (set_text(b.contact_point), "contactPoint"@),
        ],
    ) {
        Some(v) => Err(v),
        None => if !b.created {
            Err(MetadataViolationModel::MissingElement { element: "created"@ })
        } else if !b.language {
            Err(MetadataViolationModel::MissingElement { element: "language"@ })
        } else if !b.metadata_standard {
            Err(MetadataViolationModel::MissingElement { element: "metadataStandard"@ })
        } else if !b.encoding {
            Err(MetadataViolationModel::MissingElement { element: "metadataEncoding"@ })
        } else if !b.uom {
            Err(MetadataViolationModel::MissingElement { element: "uom"@ })
        } else {
            Ok(())
        },
    }
}

fn require_set_text(value: &Option<String>, element: &'static str) -> (r: Result<(), MetadataViolation>)
    ensures
        metadata_result(r) == if set_text(*value).len() == 0 {
            Err(MetadataViolationModel::MissingElement { element: element@ })
        } else {
            Ok(())
        },
{
    match value {
        Some(text) => require_text(text.as_str(), element),
        None => Err(MetadataViolation::MissingElement { element }),
    }
}

fn require_set(set: bool, element: &'static str) -> (r: Result<(), MetadataViolation>)
    ensures
        metadata_result(r) == if set {
            Ok(())
        } else {
            Err(MetadataViolationModel::MissingElement { element: element@ })
        },
{
    if set {
        Ok(())
    } else {
        Err(MetadataViolation::MissingElement { element })
    }
}

/// Checks that a global metadata builder was given every mandatory
/// element, reporting the first one missing.
pub fn check_builder(b: &BuilderElements) -> (r: Result<(), MetadataViolation>)
    ensures
        metadata_result(r) == builder_spec(*b),
{
    reveal_with_fuel(first_empty, 5);
    require_set_text(&b.id, "ID")?;
    require_set_text(&b.title, "title")?;
    require_set_text(&b.description, "description")?;
    require_set_text(&b.contact_point, "contactPoint")?;
    require_set(b.created, "created")?;
    require_set(b.language, "language")?;
    require_set(b.metadata_standard, "metadataStandard")?;
    require_set(b.encoding, "metadataEncoding")?;
    require_set(b.uom, "uom")?;
    Ok(())
}

/// The fields of a resource metadata record that its checks read.
pub struct ResourceRecord {
    pub id: String,
    pub title: String,
    pub description: String,
    pub associations: Vec<crate::links::Link>,
}

impl ResourceRecord {
    /// The verdict on this record's mandatory elements and associations.
    pub open spec fn verdict(&self) -> Result<(), MetadataViolationModel> {
        resource_elements_spec(self.id@, self.title@, self.description@, self.associations@)
    }

    /// Checks the mandatory elements and the associations of the record.
    pub fn validate(&self) -> (r: Result<(), MetadataViolation>)
        ensures
            metadata_result(r) == self.verdict(),
    {
        check_resource_elements(
            self.id.as_str(),
            self.title.as_str(),
            self.description.as_str(),
            self.associations.as_slice(),
        )
    }
}

} // verus!
