//! The human-readable renderings of findings: every violation and warning
//! names the clause it is about, and a conformance report lists each class
//! with its verdict and findings. Quoted values use `Debug` quoting.

use vstd::prelude::*;
use crate::attribution::{AttributionViolation, AttributionViolationModel};
use crate::conformance::class::{class_index, class_name, RequirementsClass};
use crate::conformance::finding::{CdbViolation, CdbViolationModel, CdbWarning, CdbWarningModel};
use crate::conformance::report::{
    findings_model, model_entry, ClassFindings, ConformanceReport, FindingsModel, ReportModel,
};
use crate::coverage::{CoverageViolation, CoverageViolationModel};
use crate::crs::wkt2::{CrsKind, CrsKindModel};
use crate::crs::{CrsViolation, CrsViolationModel, CrsWarning, CrsWarningModel};
use crate::geometry::{GeometryViolation, GeometryViolationModel};
use crate::hierarchy::{
    HierarchyViolation, HierarchyViolationModel, HierarchyWarning, HierarchyWarningModel,
};
use crate::links::{LinkViolation, LinkViolationModel};
use crate::metadata::{encoding_text, MetadataViolation, MetadataViolationModel};
use crate::naming::{
    rule_spelling, NamingViolation, NamingViolationModel, NamingWarning, NamingWarningModel,
};
use crate::text::{debug_quoted, debug_text, owned, push_char, push_str};

verus! {

// ---------------------------------------------------------------------------
// Numbers and quoting

/// The decimal digit character of `d`.
pub open spec fn digit_char(d: nat) -> char {
    if d == 0 {
        '0'
    } else if d == 1 {
        '1'
    } else if d == 2 {
        '2'
    } else if d == 3 {
        '3'
    } else if d == 4 {
        '4'
    } else if d == 5 {
        '5'
    } else if d == 6 {
        '6'
    } else if d == 7 {
        '7'
    } else if d == 8 {
        '8'
    } else {
        '9'
    }
}

/// The hexadecimal digit character of `d`, uppercase.
pub open spec fn hex_char(d: nat) -> char {
    if d < 10 {
        digit_char(d)
    } else if d == 10 {
        'A'
    } else if d == 11 {
        'B'
    } else if d == 12 {
        'C'
    } else if d == 13 {
        'D'
    } else if d == 14 {
        'E'
    } else {
        'F'
    }
}

/// The decimal text of `n`.
pub open spec fn decimal_text(n: nat) -> Seq<char>
    decreases n,
{
    if n < 10 {
        seq![digit_char(n)]
    } else {
        decimal_text(n / 10) + seq![digit_char(n % 10)]
    }
}

/// The uppercase hexadecimal text of `n`.
pub open spec fn hex_text(n: nat) -> Seq<char>
    decreases n,
{
    if n < 16 {
        seq![hex_char(n)]
    } else {
        hex_text(n / 16) + seq![hex_char(n % 16)]
    }
}

/// `{:04X}` of `n`: four uppercase hexadecimal digits, or more when `n`
/// needs them.
pub open spec fn hex4_text(n: nat) -> Seq<char> {
    if n < 0x10000 {
        seq![hex_char(n / 4096 % 16), hex_char(n / 256 % 16), hex_char(n / 16 % 16), hex_char(n % 16)]
    } else {
        hex_text(n)
    }
}

/// The `Debug` rendering of a character.
pub uninterp spec fn char_debug_text(c: char) -> Seq<char>;

/// Renders a character as `format!("{:?}")` does; the result is the named
/// rendering of the argument.
#[verifier::external_body]
fn debug_char(c: char) -> (r: String)
    ensures
        r@ == char_debug_text(c),
{
    format!("{:?}", c)
}

fn digit(d: u64) -> (r: char)
    requires
        d < 16,
    ensures
        r == hex_char(d as nat),
{
    match d {
        0 => '0',
        1 => '1',
        2 => '2',
        3 => '3',
        4 => '4',
        5 => '5',
        6 => '6',
        7 => '7',
        8 => '8',
        9 => '9',
        10 => 'A',
        11 => 'B',
        12 => 'C',
        13 => 'D',
        14 => 'E',
        _ => 'F',
    }
}

/// The decimal text of `n`.
pub fn decimal(n: u64) -> (r: String)
    ensures
        r@ == decimal_text(n as nat),
    decreases n,
{
    if n < 10 {
        let mut s = String::new();
        push_char(&mut s, digit(n));
        assert(s@ =~= decimal_text(n as nat));
        s
    } else {
        let mut s = decimal(n / 10);
        push_char(&mut s, digit(n % 10));
        assert(s@ =~= decimal_text(n as nat));
        s
    }
}

fn hex(n: u64) -> (r: String)
    ensures
        r@ == hex_text(n as nat),
    decreases n,
{
    if n < 16 {
        let mut s = String::new();
        push_char(&mut s, digit(n));
        assert(s@ =~= hex_text(n as nat));
        s
    } else {
        let mut s = hex(n / 16);
        push_char(&mut s, digit(n % 16));
        assert(s@ =~= hex_text(n as nat));
        s
    }
}

/// `{:04X}` of `n`.
fn hex4(n: u32) -> (r: String)
    ensures
        r@ == hex4_text(n as nat),
{
    if n < 0x10000 {
        let mut s = String::new();
        push_char(&mut s, digit((n / 4096 % 16) as u64));
        push_char(&mut s, digit((n / 256 % 16) as u64));
        push_char(&mut s, digit((n / 16 % 16) as u64));
        push_char(&mut s, digit((n % 16) as u64));
        assert(s@ =~= hex4_text(n as nat));
        s
    } else {
        hex(n as u64)
    }
}

/// `a` then `b`.
fn cat2(a: &str, b: &str) -> (r: String)
    ensures
        r@ == a@ + b@,
{
    let mut s = owned(a);
    push_str(&mut s, b);
    s
}

/// `a`, `b`, `c` in order.
fn cat3(a: &str, b: &str, c: &str) -> (r: String)
    ensures
        r@ == a@ + b@ + c@,
{
    let mut s = cat2(a, b);
    push_str(&mut s, c);
    s
}

/// Four parts in order.
fn cat4(a: &str, b: &str, c: &str, d: &str) -> (r: String)
    ensures
        r@ == a@ + b@ + c@ + d@,
{
    let mut s = cat3(a, b, c);
    push_str(&mut s, d);
    s
}

/// Five parts in order.
fn cat5(a: &str, b: &str, c: &str, d: &str, e: &str) -> (r: String)
    ensures
        r@ == a@ + b@ + c@ + d@ + e@,
{
    let mut s = cat3(a, b, c);
    push_str(&mut s, d);
    push_str(&mut s, e);
    s
}

/// Seven parts in order.
fn cat7(a: &str, b: &str, c: &str, d: &str, e: &str, f: &str, g: &str) -> (r: String)
    ensures
        r@ == a@ + b@ + c@ + d@ + e@ + f@ + g@,
{
    let mut s = cat5(a, b, c, d, e);
    push_str(&mut s, f);
    push_str(&mut s, g);
    s
}

/// Nine parts in order.
fn cat9(a: &str, b: &str, c: &str, d: &str, e: &str, f: &str, g: &str, h: &str, i: &str) -> (r:
    String)
    ensures
        r@ == a@ + b@ + c@ + d@ + e@ + f@ + g@ + h@ + i@,
{
    let mut s = cat7(a, b, c, d, e, f, g);
    push_str(&mut s, h);
    push_str(&mut s, i);
    s
}

// ---------------------------------------------------------------------------
// Naming

/// The message of a naming violation.
pub open spec fn naming_message(v: NamingViolationModel) -> Seq<char> {
    match v {
        NamingViolationModel::EmptyName =>
            "empty string is not a valid resource, folder, or path component name"@,
        NamingViolationModel::ContainsSpace { name } => "whitespace in name "@ + debug_text(name)
            + " (violates /req/core/name-spaces)"@,
        NamingViolationModel::ForbiddenCharacter { name, character } => "forbidden character "@
            + char_debug_text(character) + " in name "@ + debug_text(name)
            + " (violates /req/core/name-unicode B)"@,
        NamingViolationModel::ControlCharacter { name, codepoint } => "control character U+"@
            + hex4_text(codepoint as nat) + " in name "@ + debug_text(name)
            + " (unportable in file names)"@,
        NamingViolationModel::CaseRuleViolation { name, expected } => "name "@ + debug_text(name)
            + " does not follow the "@ + rule_spelling(expected)
            + " case rule (violates /req/core/name-case)"@,
        NamingViolationModel::EmptyPathComponent { path } => "empty component in path "@
            + debug_text(path),
        NamingViolationModel::PathTraversal { path, component } => "path "@ + debug_text(path)
            + " contains traversal component "@ + debug_text(component)
            + "; all content must resolve under the datastore root (violates /req/core/file-cdb-root-location)"@,
    }
}

impl NamingViolation {
    /// The human-readable message.
    pub fn to_string(&self) -> (r: String)
        ensures
            r@ == naming_message(self@),
    {
        match self {
            NamingViolation::EmptyName => owned(
                "empty string is not a valid resource, folder, or path component name",
            ),
            NamingViolation::ContainsSpace { name } => cat3(
                "whitespace in name ",
                debug_quoted(name.as_str()).as_str(),
                " (violates /req/core/name-spaces)",
            ),
            NamingViolation::ForbiddenCharacter { name, character } => cat5(
                "forbidden character ",
                debug_char(*character).as_str(),
                " in name ",
                debug_quoted(name.as_str()).as_str(),
                " (violates /req/core/name-unicode B)",
            ),
            NamingViolation::ControlCharacter { name, codepoint } => cat5(
                "control character U+",
                hex4(*codepoint).as_str(),
                " in name ",
                debug_quoted(name.as_str()).as_str(),
                " (unportable in file names)",
            ),
            NamingViolation::CaseRuleViolation { name, expected } => cat5(
                "name ",
                debug_quoted(name.as_str()).as_str(),
                " does not follow the ",
                expected.to_string().as_str(),
                " case rule (violates /req/core/name-case)",
            ),
            NamingViolation::EmptyPathComponent { path } => cat2(
                "empty component in path ",
                debug_quoted(path.as_str()).as_str(),
            ),
            NamingViolation::PathTraversal { path, component } => cat5(
                "path ",
                debug_quoted(path.as_str()).as_str(),
                " contains traversal component ",
                debug_quoted(component.as_str()).as_str(),
                "; all content must resolve under the datastore root (violates /req/core/file-cdb-root-location)",
            ),
        }
    }
}

/// The message of a naming warning.
pub open spec fn naming_warning_message(w: NamingWarningModel) -> Seq<char> {
    match w {
        NamingWarningModel::NonAscii { name } => "non-ASCII characters in name "@ + debug_text(name)
            + " (recommendation /req/core/name-unicode A)"@,
        NamingWarningModel::NonSpecExtension { name, extension } => "extension "@ + debug_text(
            extension,
        ) + " of "@ + debug_text(name)
            + " is not in the spec extension table; it must be an industry-standard extension (/req/core/name-extensions B)"@,
    }
}

impl NamingWarning {
    /// The human-readable message.
    pub fn to_string(&self) -> (r: String)
        ensures
            r@ == naming_warning_message(self@),
    {
        match self {
            NamingWarning::NonAscii { name } => cat3(
                "non-ASCII characters in name ",
                debug_quoted(name.as_str()).as_str(),
                " (recommendation /req/core/name-unicode A)",
            ),
            NamingWarning::NonSpecExtension { name, extension } => cat5(
                "extension ",
                debug_quoted(extension.as_str()).as_str(),
                " of ",
                debug_quoted(name.as_str()).as_str(),
                " is not in the spec extension table; it must be an industry-standard extension (/req/core/name-extensions B)",
            ),
        }
    }
}

// ---------------------------------------------------------------------------
// Hierarchy

/// The message of a hierarchy violation.
pub open spec fn hierarchy_message(v: HierarchyViolationModel) -> Seq<char> {
    match v {
        HierarchyViolationModel::MissingGlobalMetadata { root } =>
            "no global_metadata folder at datastore root "@ + debug_text(root)
                + " (violates /req/core/file-root-global-metadata)"@,
    }
}

impl HierarchyViolation {
    /// The human-readable message.
    pub fn to_string(&self) -> (r: String)
        ensures
            r@ == hierarchy_message(self@),
    {
        match self {
            HierarchyViolation::MissingGlobalMetadata { root } => cat3(
                "no global_metadata folder at datastore root ",
                debug_quoted(root.as_str()).as_str(),
                " (violates /req/core/file-root-global-metadata)",
            ),
        }
    }
}

/// The message of a hierarchy warning.
pub open spec fn hierarchy_warning_message(w: HierarchyWarningModel) -> Seq<char> {
    match w {
        HierarchyWarningModel::EmptyFolder(p) => "empty folder "@ + debug_text(p)
            + " (recommendation /req/core/name-empty-folders A)"@,
        HierarchyWarningModel::RootNameNotCdb { name } => "datastore root is named "@ + debug_text(
            name,
        ) + "; \"cdb\" is recommended (/rec/core/file-hierarchy-root-name)"@,
    }
}

impl HierarchyWarning {
    /// The human-readable message.
    pub fn to_string(&self) -> (r: String)
        ensures
            r@ == hierarchy_warning_message(self@),
    {
        match self {
            HierarchyWarning::EmptyFolder(p) => cat3(
                "empty folder ",
                debug_quoted(p.as_str()).as_str(),
                " (recommendation /req/core/name-empty-folders A)",
            ),
            HierarchyWarning::RootNameNotCdb { name } => cat3(
                "datastore root is named ",
                debug_quoted(name.as_str()).as_str(),
                "; \"cdb\" is recommended (/rec/core/file-hierarchy-root-name)",
            ),
        }
    }
}

// ---------------------------------------------------------------------------
// Links

/// The message of a link violation.
pub open spec fn link_message(v: LinkViolationModel) -> Seq<char> {
    match v {
        LinkViolationModel::InvalidHref { href, reason } => "link href "@ + debug_text(href)
            + " is not a valid URL ("@ + reason + ") (violates /req/core/link-href)"@,
        LinkViolationModel::MissingRel =>
            "link rel is mandatory and must be non-empty (violates /req/core/link-rel)"@,
    }
}

impl LinkViolation {
    /// The human-readable message.
    pub fn to_string(&self) -> (r: String)
        ensures
            r@ == link_message(self@),
    {
        match self {
            LinkViolation::InvalidHref { href, reason } => cat5(
                "link href ",
                debug_quoted(href.as_str()).as_str(),
                " is not a valid URL (",
                reason,
                ") (violates /req/core/link-href)",
            ),
            LinkViolation::MissingRel => owned(
                "link rel is mandatory and must be non-empty (violates /req/core/link-rel)",
            ),
        }
    }
}

// ---------------------------------------------------------------------------
// Metadata

/// The message of a metadata violation.
pub open spec fn metadata_message(v: MetadataViolationModel) -> Seq<char> {
    match v {
        MetadataViolationModel::MissingElement { element } => "mandatory metadata element "@
            + debug_text(element) + " is missing or empty (spec §7.9.4 tables)"@,
        MetadataViolationModel::UnknownMetadataStandard { value } => debug_text(value)
            + " is not an allowed metadata standard (violates /req/core/metadata-standard)"@,
        MetadataViolationModel::UnknownEncoding { value } => debug_text(value)
            + " is not an allowed metadata encoding; use xml, json, or gpkg (violates /req/core/metadata-encoding)"@,
        MetadataViolationModel::UnknownUnitOfMeasure { value } => debug_text(value)
            + " is not an allowed unit of measure; use M, FT, K, or MI (violates /req/core/metadata-uom-measure)"@,
        MetadataViolationModel::InvalidLanguageTag { value, reason } => debug_text(value)
            + " is not a well-formed BCP 47 language tag: "@ + reason
            + " (violates /req/core/metadata-language)"@,
        MetadataViolationModel::InvalidDateTime { value, reason } => debug_text(value)
            + " is not an RFC 3339 datetime: "@ + reason + " (violates /req/core/metadata-datetime)"@,
        MetadataViolationModel::NotUtc { value } => "datetime "@ + debug_text(value)
            + " is not in UTC (violates /req/core/metadata-datetime A)"@,
        MetadataViolationModel::InvalidTemporalInterval { value, reason } => debug_text(value)
            + " is not a valid temporal geometry: "@ + reason
            + " (violates /req/core/metadata-temporal-interval)"@,
        MetadataViolationModel::EncodingMismatch { file, declared, found } => "metadata file "@
            + debug_text(file) + " is encoded as "@ + encoding_text(found)
            + " but the datastore declares "@ + encoding_text(declared)
            + " (violates /req/core/metadata-encoding)"@,
        MetadataViolationModel::MissingGlobalMetadata { searched } =>
            "no global metadata file found under "@ + debug_text(searched)
                + " (violates /req/core/metadata-repository and /req/core/metadata-global)"@,
        MetadataViolationModel::Malformed { reason } => "metadata could not be parsed: "@
            + reason + " (violates /req/core/metadata-encoding)"@,
        MetadataViolationModel::Link(l) => link_message(l),
    }
}

impl MetadataViolation {
    /// The human-readable message.
    pub fn to_string(&self) -> (r: String)
        ensures
            r@ == metadata_message(self@),
    {
        match self {
            MetadataViolation::MissingElement { element } => cat3(
                "mandatory metadata element ",
                debug_quoted(element).as_str(),
                " is missing or empty (spec §7.9.4 tables)",
            ),
            MetadataViolation::UnknownMetadataStandard { value } => cat2(
                debug_quoted(value.as_str()).as_str(),
                " is not an allowed metadata standard (violates /req/core/metadata-standard)",
            ),
            MetadataViolation::UnknownEncoding { value } => cat2(
                debug_quoted(value.as_str()).as_str(),
                " is not an allowed metadata encoding; use xml, json, or gpkg (violates /req/core/metadata-encoding)",
            ),
            MetadataViolation::UnknownUnitOfMeasure { value } => cat2(
                debug_quoted(value.as_str()).as_str(),
                " is not an allowed unit of measure; use M, FT, K, or MI (violates /req/core/metadata-uom-measure)",
            ),
            MetadataViolation::InvalidLanguageTag { value, reason } => cat4(
                debug_quoted(value.as_str()).as_str(),
                " is not a well-formed BCP 47 language tag: ",
                reason,
                " (violates /req/core/metadata-language)",
            ),
            MetadataViolation::InvalidDateTime { value, reason } => cat4(
                debug_quoted(value.as_str()).as_str(),
                " is not an RFC 3339 datetime: ",
                reason.as_str(),
                " (violates /req/core/metadata-datetime)",
            ),
            MetadataViolation::NotUtc { value } => cat3(
                "datetime ",
                debug_quoted(value.as_str()).as_str(),
                " is not in UTC (violates /req/core/metadata-datetime A)",
            ),
            MetadataViolation::InvalidTemporalInterval { value, reason } => cat4(
                debug_quoted(value.as_str()).as_str(),
                " is not a valid temporal geometry: ",
                reason,
                " (violates /req/core/metadata-temporal-interval)",
            ),
            MetadataViolation::EncodingMismatch { file, declared, found } => cat7(
                "metadata file ",
                debug_quoted(file.as_str()).as_str(),
                " is encoded as ",
                found.as_str(),
                " but the datastore declares ",
                declared.as_str(),
                " (violates /req/core/metadata-encoding)",
            ),
            MetadataViolation::MissingGlobalMetadata { searched } => cat3(
                "no global metadata file found under ",
                debug_quoted(searched.as_str()).as_str(),
                " (violates /req/core/metadata-repository and /req/core/metadata-global)",
            ),
            MetadataViolation::Malformed { reason } => cat3(
                "metadata could not be parsed: ",
                reason.as_str(),
                " (violates /req/core/metadata-encoding)",
            ),
            MetadataViolation::Link(l) => l.to_string(),
        }
    }
}


// ---------------------------------------------------------------------------
// CRS

/// The `Debug` rendering of a CRS kind.
pub open spec fn kind_debug(k: CrsKindModel) -> Seq<char> {
    match k {
        CrsKindModel::Geodetic => "Geodetic"@,
        CrsKindModel::Geographic => "Geographic"@,
        CrsKindModel::Projected => "Projected"@,
        CrsKindModel::Vertical => "Vertical"@,
        CrsKindModel::Engineering => "Engineering"@,
        CrsKindModel::Compound => "Compound"@,
        CrsKindModel::Temporal => "Temporal"@,
        CrsKindModel::Parametric => "Parametric"@,
        CrsKindModel::Other(t) => "Other("@ + debug_text(t) + ")"@,
    }
}

fn kind_debug_string(k: &CrsKind) -> (r: String)
    ensures
        r@ == kind_debug(k@),
{
    match k {
        CrsKind::Geodetic => owned("Geodetic"),
        CrsKind::Geographic => owned("Geographic"),
        CrsKind::Projected => owned("Projected"),
        CrsKind::Vertical => owned("Vertical"),
        CrsKind::Engineering => owned("Engineering"),
        CrsKind::Compound => owned("Compound"),
        CrsKind::Temporal => owned("Temporal"),
        CrsKind::Parametric => owned("Parametric"),
        CrsKind::Other(t) => cat3("Other(", debug_quoted(t.as_str()).as_str(), ")"),
    }
}

/// The message of a CRS violation.
pub open spec fn crs_message(v: CrsViolationModel) -> Seq<char> {
    match v {
        CrsViolationModel::InvalidWkt { position, reason } => "invalid WKT-2 at byte "@
            + decimal_text(position as nat) + ": "@ + reason
            + " (violates /req/core/crs/crsMetadata)"@,
        CrsViolationModel::NotACrs { keyword } => keyword
            + " is not a coordinate reference system (violates /req/core/crs/crsMetadata)"@,
        CrsViolationModel::NonGeodeticStorageCrs { kind } => "storage CRS kind "@ + kind_debug(kind)
            + " is not allowed; only non-projected geodetic or geographic CRSs may be used (violates /req/core/crs/storageCrs-valid-value)"@,
        CrsViolationModel::CompoundHorizontalNotGeodetic { kind } =>
            "the first (horizontal) member of a compound storage CRS is "@ + kind_debug(kind)
                + ", expected geodetic or geographic (violates /req/core/crs/storageCrs-valid-value)"@,
        CrsViolationModel::InconsistentCoordinateUnits { component, first, second } =>
            "coordinate units differ within CRS component "@ + debug_text(component) + ": "@
                + first + " vs "@ + second + " (violates /req/core/crs/uom)"@,
        CrsViolationModel::MissingEpoch =>
            "the CRS declares a dynamic reference frame but no epoch is given (violates /req/core/crs/crsEpoch)"@,
        CrsViolationModel::InvalidEpoch { value, reason } => debug_text(value)
            + " is not a valid epoch: "@ + reason + " (violates /req/core/crs/crsEpoch B)"@,
        CrsViolationModel::CrsAlreadyDefined { existing } =>
            "a CRS is already defined for this datastore ("@ + debug_text(existing)
                + "); only one CRS may be specified per datastore (violates /req/core/crs/crsStorage)"@,
        CrsViolationModel::NotAVerticalCrs { keyword } => keyword
            + " is not a vertical CRS (violates /req/core/crs/vcrs-topic2)"@,
        CrsViolationModel::MissingCrsMetadata { searched } => "no CRS metadata found at "@
            + debug_text(searched) + " (violates /req/core/crs/crsMetadata)"@,
    }
}

impl CrsViolation {
    /// The human-readable message.
    pub fn to_string(&self) -> (r: String)
        ensures
            r@ == crs_message(self@),
    {
        match self {
            CrsViolation::InvalidWkt { position, reason } => cat5(
                "invalid WKT-2 at byte ",
                decimal(*position as u64).as_str(),
                ": ",
                reason.as_str(),
                " (violates /req/core/crs/crsMetadata)",
            ),
            CrsViolation::NotACrs { keyword } => cat2(
                keyword.as_str(),
                " is not a coordinate reference system (violates /req/core/crs/crsMetadata)",
            ),
            CrsViolation::NonGeodeticStorageCrs { kind } => cat3(
                "storage CRS kind ",
                kind_debug_string(kind).as_str(),
                " is not allowed; only non-projected geodetic or geographic CRSs may be used (violates /req/core/crs/storageCrs-valid-value)",
            ),
            CrsViolation::CompoundHorizontalNotGeodetic { kind } => cat3(
                "the first (horizontal) member of a compound storage CRS is ",
                kind_debug_string(kind).as_str(),
                ", expected geodetic or geographic (violates /req/core/crs/storageCrs-valid-value)",
            ),
            CrsViolation::InconsistentCoordinateUnits { component, first, second } => cat7(
                "coordinate units differ within CRS component ",
                debug_quoted(component.as_str()).as_str(),
                ": ",
                first.as_str(),
                " vs ",
                second.as_str(),
                " (violates /req/core/crs/uom)",
            ),
            CrsViolation::MissingEpoch => owned(
                "the CRS declares a dynamic reference frame but no epoch is given (violates /req/core/crs/crsEpoch)",
            ),
            CrsViolation::InvalidEpoch { value, reason } => cat4(
                debug_quoted(value.as_str()).as_str(),
                " is not a valid epoch: ",
                reason,
                " (violates /req/core/crs/crsEpoch B)",
            ),
            CrsViolation::CrsAlreadyDefined { existing } => cat3(
                "a CRS is already defined for this datastore (",
                debug_quoted(existing.as_str()).as_str(),
                "); only one CRS may be specified per datastore (violates /req/core/crs/crsStorage)",
            ),
            CrsViolation::NotAVerticalCrs { keyword } => cat2(
                keyword.as_str(),
                " is not a vertical CRS (violates /req/core/crs/vcrs-topic2)",
            ),
            CrsViolation::MissingCrsMetadata { searched } => cat3(
                "no CRS metadata found at ",
                debug_quoted(searched.as_str()).as_str(),
                " (violates /req/core/crs/crsMetadata)",
            ),
        }
    }
}

/// The message of a CRS warning.
pub open spec fn crs_warning_message(w: CrsWarningModel) -> Seq<char> {
    match w {
        CrsWarningModel::NotWgs84 { found } => "storage CRS is "@ + found
            + "; WGS-84 (EPSG:4326/4979) is recommended (/rec/core/crs/crs-definition)"@,
    }
}

impl CrsWarning {
    /// The human-readable message.
    pub fn to_string(&self) -> (r: String)
        ensures
            r@ == crs_warning_message(self@),
    {
        match self {
            CrsWarning::NotWgs84 { found } => cat3(
                "storage CRS is ",
                found.as_str(),
                "; WGS-84 (EPSG:4326/4979) is recommended (/rec/core/crs/crs-definition)",
            ),
        }
    }
}

// ---------------------------------------------------------------------------
// Attribution, coverages, geometry

/// The message of an attribution violation.
pub open spec fn attribution_message(v: AttributionViolationModel) -> Seq<char> {
    match v {
        AttributionViolationModel::EmptyModel =>
            "the attribute model contains no attributes; an attribute model must specify at least one (violates req/core/attribute-model A and req/core/attribute-model-content A, §7.1.2)"@,
        AttributionViolationModel::DuplicateId { id } => "attribute id "@ + debug_text(id)
            + " appears more than once; each attribute must have a unique identifier (violates req/core/attribute-model-content B, §7.1.2.3)"@,
        AttributionViolationModel::EmptyId { position } => "attribute at position "@
            + decimal_text(position as nat)
            + " has an empty, blank, or control-character id; each attribute must have a unique identifier (violates req/core/attribute-model-content B, §7.1.2.3)"@,
        AttributionViolationModel::EmptyName { id } => "attribute "@ + debug_text(id)
            + " has an empty, blank, or control-character name; each attribute must have a name (violates req/core/attribute-model-content C, §7.1.2.3)"@,
        AttributionViolationModel::EmptyDescription { id } => "attribute "@ + debug_text(id)
            + " has an empty, blank, or control-character description; each attribute must have a description (violates req/core/attribute-model-content D, §7.1.2.3)"@,
        AttributionViolationModel::InvalidSchemaUri { uri } => "schema URI "@ + debug_text(uri)
            + " is not a valid URI (per/core/attribute-schema-uri, §7.1.2.2)"@,
        AttributionViolationModel::InvalidFileName { name } => "file name "@ + debug_text(name)
            + " is not vector_attributes.<ext> with <ext> xml or json (violates req/core/attribute-model C, §7.1.2.1)"@,
        AttributionViolationModel::Malformed { reason } =>
            "attribute model document is malformed: "@ + reason
                + " (violates req/core/attribute-model A, §7.1.2.1)"@,
    }
}

impl AttributionViolation {
    /// The human-readable message.
    pub fn to_string(&self) -> (r: String)
        ensures
            r@ == attribution_message(self@),
    {
        match self {
            AttributionViolation::EmptyModel => owned(
                "the attribute model contains no attributes; an attribute model must specify at least one (violates req/core/attribute-model A and req/core/attribute-model-content A, §7.1.2)",
            ),
            AttributionViolation::DuplicateId { id } => cat3(
                "attribute id ",
                debug_quoted(id.as_str()).as_str(),
                " appears more than once; each attribute must have a unique identifier (violates req/core/attribute-model-content B, §7.1.2.3)",
            ),
            AttributionViolation::EmptyId { position } => cat3(
                "attribute at position ",
                decimal(*position as u64).as_str(),
                " has an empty, blank, or control-character id; each attribute must have a unique identifier (violates req/core/attribute-model-content B, §7.1.2.3)",
            ),
            AttributionViolation::EmptyName { id } => cat3(
                "attribute ",
                debug_quoted(id.as_str()).as_str(),
                " has an empty, blank, or control-character name; each attribute must have a name (violates req/core/attribute-model-content C, §7.1.2.3)",
            ),
            AttributionViolation::EmptyDescription { id } => cat3(
                "attribute ",
                debug_quoted(id.as_str()).as_str(),
                " has an empty, blank, or control-character description; each attribute must have a description (violates req/core/attribute-model-content D, §7.1.2.3)",
            ),
            AttributionViolation::InvalidSchemaUri { uri } => cat3(
                "schema URI ",
                debug_quoted(uri.as_str()).as_str(),
                " is not a valid URI (per/core/attribute-schema-uri, §7.1.2.2)",
            ),
            AttributionViolation::InvalidFileName { name } => cat3(
                "file name ",
                debug_quoted(name.as_str()).as_str(),
                " is not vector_attributes.<ext> with <ext> xml or json (violates req/core/attribute-model C, §7.1.2.1)",
            ),
            AttributionViolation::Malformed { reason } => cat3(
                "attribute model document is malformed: ",
                reason.as_str(),
                " (violates req/core/attribute-model A, §7.1.2.1)",
            ),
        }
    }
}

/// The message of a coverage violation.
pub open spec fn coverage_message(v: CoverageViolationModel) -> Seq<char> {
    match v {
        CoverageViolationModel::UnknownGridCellEncoding { value } => "grid cell encoding "@
            + debug_text(value)
            + " is not value-is-center|value-is-area|value-is-corner (violates /req/core/coverage-domainSet F)"@,
        CoverageViolationModel::UnknownGridCorner { value } => "grid corner "@ + debug_text(value)
            + " is not lower-left-corner|upper-left-corner|lower-right-corner|upper-right-corner (violates /req/core/coverage-domainSet F)"@,
    }
}

impl CoverageViolation {
    /// The human-readable message.
    pub fn to_string(&self) -> (r: String)
        ensures
            r@ == coverage_message(self@),
    {
        match self {
            CoverageViolation::UnknownGridCellEncoding { value } => cat3(
                "grid cell encoding ",
                debug_quoted(value.as_str()).as_str(),
                " is not value-is-center|value-is-area|value-is-corner (violates /req/core/coverage-domainSet F)",
            ),
            CoverageViolation::UnknownGridCorner { value } => cat3(
                "grid corner ",
                debug_quoted(value.as_str()).as_str(),
                " is not lower-left-corner|upper-left-corner|lower-right-corner|upper-right-corner (violates /req/core/coverage-domainSet F)",
            ),
        }
    }
}

/// The message of a geometry violation.
pub open spec fn geometry_message(v: GeometryViolationModel) -> Seq<char> {
    match v {
        GeometryViolationModel::UnknownGeometryCode { code } => "geometry type code "@
            + decimal_text(code as nat)
            + " is not in the §7.6 table (violates /req/core/geometry-types)"@,
        GeometryViolationModel::ZLengthMismatch { expected, found, part } => "z values for "@ + part
            + ": expected "@ + decimal_text(expected as nat) + ", found "@ + decimal_text(
            found as nat,
        ) + " (violates /req/core/geometry-types)"@,
        GeometryViolationModel::MLengthMismatch { expected, found, part } => "m values for "@ + part
            + ": expected "@ + decimal_text(expected as nat) + ", found "@ + decimal_text(
            found as nat,
        ) + " (violates /req/core/geometry-types)"@,
        GeometryViolationModel::MissingZUom =>
            "geometry has z coordinates but the datastore declares no z unit of measure (violates /req/core/geometry-zvalue)"@,
        GeometryViolationModel::MissingMUom =>
            "geometry has m values but the dataset metadata declares no m unit of measure (violates /req/core/geometry-mvalue)"@,
        GeometryViolationModel::ForeignCrs { declared, datastore } => "geometry declares CRS "@
            + declared + " but the datastore CRS is "@ + datastore
            + " (violates /req/core/geometry-coordinates)"@,
    }
}

impl GeometryViolation {
    /// The human-readable message.
    pub fn to_string(&self) -> (r: String)
        ensures
            r@ == geometry_message(self@),
    {
        match self {
            GeometryViolation::UnknownGeometryCode { code } => cat3(
                "geometry type code ",
                decimal(*code as u64).as_str(),
                " is not in the §7.6 table (violates /req/core/geometry-types)",
            ),
            GeometryViolation::ZLengthMismatch { expected, found, part } => cat7(
                "z values for ",
                part.as_str(),
                ": expected ",
                decimal(*expected as u64).as_str(),
                ", found ",
                decimal(*found as u64).as_str(),
                " (violates /req/core/geometry-types)",
            ),
            GeometryViolation::MLengthMismatch { expected, found, part } => cat7(
                "m values for ",
                part.as_str(),
                ": expected ",
                decimal(*expected as u64).as_str(),
                ", found ",
                decimal(*found as u64).as_str(),
                " (violates /req/core/geometry-types)",
            ),
            GeometryViolation::MissingZUom => owned(
                "geometry has z coordinates but the datastore declares no z unit of measure (violates /req/core/geometry-zvalue)",
            ),
            GeometryViolation::MissingMUom => owned(
                "geometry has m values but the dataset metadata declares no m unit of measure (violates /req/core/geometry-mvalue)",
            ),
            GeometryViolation::ForeignCrs { declared, datastore } => cat5(
                "geometry declares CRS ",
                declared.as_str(),
                " but the datastore CRS is ",
                datastore.as_str(),
                " (violates /req/core/geometry-coordinates)",
            ),
        }
    }
}


// ---------------------------------------------------------------------------
// Findings and the report

/// The message of a datastore-wide violation.
pub open spec fn violation_message(v: CdbViolationModel) -> Seq<char> {
    match v {
        CdbViolationModel::Naming(n) => naming_message(n),
        CdbViolationModel::Hierarchy(h) => hierarchy_message(h),
        CdbViolationModel::Link(l) => link_message(l),
        CdbViolationModel::Metadata(m) => metadata_message(m),
        CdbViolationModel::Crs(c) => crs_message(c),
        CdbViolationModel::Attribution(a) => attribution_message(a),
        CdbViolationModel::Coverage(c) => coverage_message(c),
        CdbViolationModel::Geometry(g) => geometry_message(g),
        CdbViolationModel::MissingConformanceDeclaration { profile, class } => "profile "@
            + debug_text(profile) + " does not declare mandatory conformance class "@ + class_name(
            class,
        ) + " (violates /conf/minimal-core)"@,
        CdbViolationModel::DeclarationMismatch { profile, element, declared, found, clause, .. } =>
            "datastore "@ + element + " is "@ + debug_text(found) + " but profile "@ + debug_text(
            profile,
        ) + " declares "@ + debug_text(declared) + " (violates "@ + clause + ")"@,
    }
}

impl CdbViolation {
    /// The human-readable message; a module violation renders as itself.
    pub fn to_string(&self) -> (r: String)
        ensures
            r@ == violation_message(self@),
    {
        match self {
            CdbViolation::Naming(v) => v.to_string(),
            CdbViolation::Hierarchy(v) => v.to_string(),
            CdbViolation::Link(v) => v.to_string(),
            CdbViolation::Metadata(v) => v.to_string(),
            CdbViolation::Crs(v) => v.to_string(),
            CdbViolation::Attribution(v) => v.to_string(),
            CdbViolation::Coverage(v) => v.to_string(),
            CdbViolation::Geometry(v) => v.to_string(),
            CdbViolation::MissingConformanceDeclaration { profile, class } => cat5(
                "profile ",
                debug_quoted(profile.as_str()).as_str(),
                " does not declare mandatory conformance class ",
                class.as_str(),
                " (violates /conf/minimal-core)",
            ),
            CdbViolation::DeclarationMismatch { profile, element, declared, found, clause, .. } =>
                cat9(
                "datastore ",
                element,
                " is ",
                debug_quoted(found.as_str()).as_str(),
                " but profile ",
                debug_quoted(profile.as_str()).as_str(),
                " declares ",
                debug_quoted(declared.as_str()).as_str(),
                cat3(" (violates ", clause, ")").as_str(),
            ),
        }
    }
}

/// The message of a datastore-wide warning.
pub open spec fn warning_message(w: CdbWarningModel) -> Seq<char> {
    match w {
        CdbWarningModel::Naming(n) => naming_warning_message(n),
        CdbWarningModel::Hierarchy(h) => hierarchy_warning_message(h),
        CdbWarningModel::Crs(c) => crs_warning_message(c),
        CdbWarningModel::LanguageNotEnglish { language } => "datastore language "@ + debug_text(
            language,
        ) + "; English is recommended (/req/core/name-language B)"@,
    }
}

impl CdbWarning {
    /// The human-readable message; a module warning renders as itself.
    pub fn to_string(&self) -> (r: String)
        ensures
            r@ == warning_message(self@),
    {
        match self {
            CdbWarning::Naming(w) => w.to_string(),
            CdbWarning::Hierarchy(w) => w.to_string(),
            CdbWarning::Crs(w) => w.to_string(),
            CdbWarning::LanguageNotEnglish { language } => cat3(
                "datastore language ",
                debug_quoted(language.as_str()).as_str(),
                "; English is recommended (/req/core/name-language B)",
            ),
        }
    }
}

/// The violation lines of a class.
pub open spec fn violation_lines(vs: Seq<CdbViolationModel>) -> Seq<char>
    decreases vs.len(),
{
    if vs.len() == 0 {
        Seq::empty()
    } else {
        violation_lines(vs.drop_last()) + "      violation: "@ + violation_message(vs.last()) + "\n"@
    }
}

/// The warning lines of a class.
pub open spec fn warning_lines(ws: Seq<CdbWarningModel>) -> Seq<char>
    decreases ws.len(),
{
    if ws.len() == 0 {
        Seq::empty()
    } else {
        warning_lines(ws.drop_last()) + "      warning: "@ + warning_message(ws.last()) + "\n"@
    }
}

/// The block of one listed class: its verdict line, then its findings. A
/// class with no content says so.
pub open spec fn class_block(c: RequirementsClass, f: FindingsModel) -> Seq<char> {
    "  ["@ + (if f.violations.len() == 0 {
        "PASS"@
    } else {
        "FAIL"@
    }) + "] "@ + class_name(c) + (if f.has_content {
        Seq::empty()
    } else {
        " (no content)"@
    }) + "\n"@ + violation_lines(f.violations) + warning_lines(f.warnings)
}

/// The blocks of the listed classes from position `i` on.
pub open spec fn class_blocks(slots: Seq<Option<FindingsModel>>, i: int) -> Seq<char>
    decreases 11 - i,
{
    if i < 0 || i >= 11 || i >= slots.len() {
        Seq::empty()
    } else {
        (match slots[i] {
            Some(f) => class_block(crate::conformance::class::class_at(i), f),
            None => Seq::empty(),
        }) + class_blocks(slots, i + 1)
    }
}

/// The human-readable report: a header naming the profile and root, then
/// one block per listed class in listing order.
pub open spec fn report_text(m: ReportModel) -> Seq<char> {
    "Conformance report — profile "@ + debug_text(m.profile) + ", root "@ + m.root + "\n"@
        + class_blocks(m.slots, 0)
}

/// Appends the block of one listed class.
fn write_class(out: &mut String, c: RequirementsClass, f: &ClassFindings)
    ensures
        final(out)@ == old(out)@ + class_block(c, findings_model(*f)),
{
    let ghost start = out@;
    push_str(out, "  [");
    if f.violations.len() == 0 {
        push_str(out, "PASS");
    } else {
        push_str(out, "FAIL");
    }
    push_str(out, "] ");
    push_str(out, c.as_str());
    if !f.has_content {
        push_str(out, " (no content)");
    }
    push_str(out, "\n");
    let ghost head = out@;
    proof {
        assert(head =~= start + "  ["@ + (if f.violations@.len() == 0 {
            "PASS"@
        } else {
            "FAIL"@
        }) + "] "@ + class_name(c) + (if f.has_content {
            Seq::empty()
        } else {
            " (no content)"@
        }) + "\n"@);
    }
    let ghost vs = f.violations@.map_values(|v: CdbViolation| v@);
    let mut i: usize = 0;
    while i < f.violations.len()
        invariant
            0 <= i <= f.violations@.len(),
            vs == f.violations@.map_values(|v: CdbViolation| v@),
            out@ == head + violation_lines(vs.take(i as int)),
        decreases f.violations@.len() - i,
    {
        proof {
            assert(vs.take(i + 1).drop_last() =~= vs.take(i as int));
            assert(vs.take(i + 1).last() == f.violations@[i as int]@);
        }
        push_str(out, "      violation: ");
        let line = f.violations[i].to_string();
        push_str(out, line.as_str());
        push_str(out, "\n");
        proof {
            assert(out@ =~= head + violation_lines(vs.take(i + 1)));
        }
        i += 1;
    }
    proof {
        assert(vs.take(i as int) =~= vs);
    }
    let ghost mid = out@;
    let ghost ws = f.warnings@.map_values(|w: CdbWarning| w@);
    let mut j: usize = 0;
    while j < f.warnings.len()
        invariant
            0 <= j <= f.warnings@.len(),
            ws == f.warnings@.map_values(|w: CdbWarning| w@),
            out@ == mid + warning_lines(ws.take(j as int)),
        decreases f.warnings@.len() - j,
    {
        proof {
            assert(ws.take(j + 1).drop_last() =~= ws.take(j as int));
            assert(ws.take(j + 1).last() == f.warnings@[j as int]@);
        }
        push_str(out, "      warning: ");
        let line = f.warnings[j].to_string();
        push_str(out, line.as_str());
        push_str(out, "\n");
        proof {
            assert(out@ =~= mid + warning_lines(ws.take(j + 1)));
        }
        j += 1;
    }
    proof {
        assert(ws.take(j as int) =~= ws);
        assert(out@ =~= start + class_block(c, findings_model(*f)));
    }
}

impl ConformanceReport {
    /// The human-readable report: the profile and root, then for each
    /// listed class in listing order a PASS/FAIL line (noting a class with
    /// no content) followed by its violations and warnings.
    pub fn to_string(&self) -> (r: String)
        requires
            self.wf(),
        ensures
            r@ == report_text(self@),
    {
        proof {
            self.view_entries();
        }
        let mut out = owned("Conformance report — profile ");
        let profile = debug_quoted(self.profile());
        push_str(&mut out, profile.as_str());
        push_str(&mut out, ", root ");
        push_str(&mut out, self.root());
        push_str(&mut out, "\n");
        let ghost head = out@;
        let classes = self.classes_by_slot();
        let ghost m = self@;
        let mut i: usize = 0;
        assert(head + class_blocks(m.slots, 0) =~= head + class_blocks(m.slots, 0));
        while i < 11
            invariant
                0 <= i <= 11,
                classes@.len() == 11,
                m == self@,
                m.slots.len() == 11,
                forall|k: int|
                    0 <= k < 11 ==> match (#[trigger] classes@[k], m.slots[k]) {
                        (Some(f), Some(g)) => findings_model(*f) == g,
                        (None, None) => true,
                        _ => false,
                    },
                out@ + class_blocks(m.slots, i as int) == head + class_blocks(m.slots, 0),
            decreases 11 - i,
        {
            let ghost before = out@;
            match classes[i] {
                Some(f) => {
                    let c = RequirementsClass::at(i);
                    write_class(&mut out, c, f);
                },
                None => {},
            }
            proof {
                assert(out@ + class_blocks(m.slots, i + 1) =~= before + class_blocks(
                    m.slots,
                    i as int,
                ));
            }
            i += 1;
        }
        proof {
            assert(class_blocks(m.slots, 11) =~= Seq::<char>::empty());
            assert(out@ =~= head + class_blocks(m.slots, 0));
            assert(out@ =~= report_text(self@));
        }
        out
    }
}


} // verus!
