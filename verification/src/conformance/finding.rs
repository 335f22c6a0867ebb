//! The two finding kinds a conformance run produces: [`CdbViolation`] (a
//! SHALL failure) and [`CdbWarning`] (a SHOULD finding). Each names the
//! class it is filed under and carries a stable code: the OGC clause it is
//! about, as one absolute, whitespace-free token.

use vstd::prelude::*;
use crate::attribution::{AttributionViolation, AttributionViolationModel};
use crate::conformance::class::{class_uri, RequirementsClass};
use crate::coverage::{CoverageViolation, CoverageViolationModel};
use crate::crs::{CrsViolation, CrsViolationModel, CrsWarning, CrsWarningModel};
use crate::geometry::{GeometryViolation, GeometryViolationModel};
use crate::hierarchy::{
    HierarchyViolation, HierarchyViolationModel, HierarchyWarning, HierarchyWarningModel,
};
use crate::links::{LinkViolation, LinkViolationModel};
use crate::metadata::{MetadataViolation, MetadataViolationModel};
use crate::naming::{NamingViolation, NamingViolationModel, NamingWarning, NamingWarningModel};

verus! {

/// A datastore-wide SHALL violation: every module's violation plus the two
/// profile-layer findings.
#[derive(Debug, Clone, PartialEq, Eq)]
pub enum CdbViolation {
    Naming(NamingViolation),
    Hierarchy(HierarchyViolation),
    Link(LinkViolation),
    /// A nested link violation is a Links finding.
    Metadata(MetadataViolation),
    Crs(CrsViolation),
    Attribution(AttributionViolation),
    Coverage(CoverageViolation),
    Geometry(GeometryViolation),
    /// The profile does not declare a mandatory conformance class.
    MissingConformanceDeclaration { profile: String, class: RequirementsClass },
    /// A datastore element contradicts the profile's declaration; filed
    /// under the class whose clause is broken.
    DeclarationMismatch {
        profile: String,
        class: RequirementsClass,
        element: &'static str,
        declared: String,
        found: String,
        clause: &'static str,
    },
}

/// The mathematical content of a [`CdbViolation`].
pub enum CdbViolationModel {
    Naming(NamingViolationModel),
    Hierarchy(HierarchyViolationModel),
    Link(LinkViolationModel),
    Metadata(MetadataViolationModel),
    Crs(CrsViolationModel),
    Attribution(AttributionViolationModel),
    Coverage(CoverageViolationModel),
    Geometry(GeometryViolationModel),
    MissingConformanceDeclaration { profile: Seq<char>, class: RequirementsClass },
    DeclarationMismatch {
        profile: Seq<char>,
        class: RequirementsClass,
        element: Seq<char>,
        declared: Seq<char>,
        found: Seq<char>,
        clause: Seq<char>,
    },
}

impl View for CdbViolation {
    type V = CdbViolationModel;

    open spec fn view(&self) -> CdbViolationModel {
        match self {
            CdbViolation::Naming(v) => CdbViolationModel::Naming(v@),
            CdbViolation::Hierarchy(v) => CdbViolationModel::Hierarchy(v@),
            CdbViolation::Link(v) => CdbViolationModel::Link(v@),
            CdbViolation::Metadata(v) => CdbViolationModel::Metadata(v@),
            CdbViolation::Crs(v) => CdbViolationModel::Crs(v@),
            CdbViolation::Attribution(v) => CdbViolationModel::Attribution(v@),
            CdbViolation::Coverage(v) => CdbViolationModel::Coverage(v@),
            CdbViolation::Geometry(v) => CdbViolationModel::Geometry(v@),
            CdbViolation::MissingConformanceDeclaration { profile, class } =>
                CdbViolationModel::MissingConformanceDeclaration { profile: profile@, class: *class },
            CdbViolation::DeclarationMismatch { profile, class, element, declared, found, clause } =>
                CdbViolationModel::DeclarationMismatch {
                profile: profile@,
                class: *class,
                element: element@,
                declared: declared@,
                found: found@,
                clause: clause@,
            },
        }
    }
}

/// The class a violation is filed under. A metadata violation that wraps a
/// link violation is a Links finding.
pub open spec fn class_of(v: CdbViolationModel) -> RequirementsClass {
    match v {
        CdbViolationModel::Naming(_) => RequirementsClass::FileNaming,
        CdbViolationModel::Hierarchy(_) => RequirementsClass::FileStructure,
        CdbViolationModel::Link(_) => RequirementsClass::Links,
        CdbViolationModel::Metadata(m) => match m {
            MetadataViolationModel::Link(_) => RequirementsClass::Links,
            _ => RequirementsClass::Metadata,
        },
        CdbViolationModel::Crs(_) => RequirementsClass::Crs,
        CdbViolationModel::Attribution(_) => RequirementsClass::Attribution,
        CdbViolationModel::Coverage(_) => RequirementsClass::Coverages,
        CdbViolationModel::Geometry(_) => RequirementsClass::Geometry,
        CdbViolationModel::MissingConformanceDeclaration { class, .. } => class,
        CdbViolationModel::DeclarationMismatch { class, .. } => class,
    }
}

/// The class each violation is filed under.
pub open spec fn violation_class(v: CdbViolation) -> RequirementsClass {
    class_of(v@)
}

/// The clause Annex A's bundle of mandatory classes is cited by.
pub open spec fn minimal_core_clause() -> Seq<char> {
    "/conf/minimal-core"@
}

/// The code of a naming violation.
pub open spec fn naming_code_spec(v: NamingViolation) -> Seq<char> {
    match v {
        NamingViolation::EmptyName | NamingViolation::EmptyPathComponent { .. } =>
            "/req/core/naming-system"@,
        NamingViolation::ContainsSpace { .. } => "/req/core/name-spaces"@,
        NamingViolation::ForbiddenCharacter { .. } | NamingViolation::ControlCharacter { .. } =>
            "/req/core/name-unicode-B"@,
        NamingViolation::CaseRuleViolation { .. } => "/req/core/name-case"@,
        NamingViolation::PathTraversal { .. } => "/req/core/file-cdb-root-location"@,
    }
}

/// The code of a link violation.
pub open spec fn link_code_spec(v: LinkViolation) -> Seq<char> {
    match v {
        LinkViolation::InvalidHref { .. } => "/req/core/link-href"@,
        LinkViolation::MissingRel => "/req/core/link-rel"@,
    }
}

/// The code of a metadata violation; a nested link violation reports the
/// Links code.
pub open spec fn metadata_code_spec(v: MetadataViolation) -> Seq<char> {
    match v {
        MetadataViolation::MissingElement { .. } => "/req/core/metadata-"@,
        MetadataViolation::UnknownMetadataStandard { .. } => "/req/core/metadata-standard"@,
        MetadataViolation::UnknownEncoding { .. } | MetadataViolation::EncodingMismatch { .. }
        | MetadataViolation::Malformed { .. } => "/req/core/metadata-encoding"@,
        MetadataViolation::UnknownUnitOfMeasure { .. } => "/req/core/metadata-uom-measure"@,
        MetadataViolation::InvalidLanguageTag { .. } => "/req/core/metadata-language"@,
        MetadataViolation::InvalidDateTime { .. } => "/req/core/metadata-datetime"@,
        MetadataViolation::NotUtc { .. } => "/req/core/metadata-datetime-A"@,
        MetadataViolation::InvalidTemporalInterval { .. } =>
            "/req/core/metadata-temporal-interval"@,
        MetadataViolation::MissingGlobalMetadata { .. } => "/req/core/metadata-global"@,
        MetadataViolation::Link(l) => link_code_spec(l),
    }
}

/// The code of a CRS violation.
pub open spec fn crs_code_spec(v: CrsViolation) -> Seq<char> {
    match v {
        CrsViolation::InvalidWkt { .. } | CrsViolation::NotACrs { .. }
        | CrsViolation::MissingCrsMetadata { .. } => "/req/core/crs/crsMetadata"@,
        CrsViolation::NonGeodeticStorageCrs { .. }
        | CrsViolation::CompoundHorizontalNotGeodetic { .. } =>
            "/req/core/crs/storageCrs-valid-value"@,
        CrsViolation::InconsistentCoordinateUnits { .. } => "/req/core/crs/uom"@,
        CrsViolation::MissingEpoch => "/req/core/crs/crsEpoch"@,
        CrsViolation::InvalidEpoch { .. } => "/req/core/crs/crsEpoch-B"@,
        CrsViolation::CrsAlreadyDefined { .. } => "/req/core/crs/crsStorage"@,
        CrsViolation::NotAVerticalCrs { .. } => "/req/core/crs/vcrs-topic2"@,
    }
}

/// The code of an attribution violation; the URI permission keeps the
/// `/per/core/` family.
pub open spec fn attribution_code_spec(v: AttributionViolation) -> Seq<char> {
    match v {
        AttributionViolation::EmptyModel | AttributionViolation::Malformed { .. } =>
            "/req/core/attribute-model-A"@,
        AttributionViolation::DuplicateId { .. } | AttributionViolation::EmptyId { .. } =>
            "/req/core/attribute-model-content-B"@,
        AttributionViolation::EmptyName { .. } => "/req/core/attribute-model-content-C"@,
        AttributionViolation::EmptyDescription { .. } => "/req/core/attribute-model-content-D"@,
        AttributionViolation::InvalidSchemaUri { .. } => "/per/core/attribute-schema-uri"@,
        AttributionViolation::InvalidFileName { .. } => "/req/core/attribute-model-C"@,
    }
}

/// The code of a coverage violation.
pub open spec fn coverage_code_spec(v: CoverageViolation) -> Seq<char> {
    match v {
        CoverageViolation::UnknownGridCellEncoding { .. }
        | CoverageViolation::UnknownGridCorner { .. } => "/req/core/coverage-domainSet-F"@,
    }
}

/// The code of a geometry violation.
pub open spec fn geometry_code_spec(v: GeometryViolation) -> Seq<char> {
    match v {
        GeometryViolation::UnknownGeometryCode { .. } | GeometryViolation::ZLengthMismatch { .. }
        | GeometryViolation::MLengthMismatch { .. } => "/req/core/geometry-types"@,
        GeometryViolation::MissingZUom => "/req/core/geometry-zvalue"@,
        GeometryViolation::MissingMUom => "/req/core/geometry-mvalue"@,
        GeometryViolation::ForeignCrs { .. } => "/req/core/geometry-coordinates"@,
    }
}

/// The stable code of each violation: the clause it breaks.
pub open spec fn violation_code(v: CdbViolation) -> Seq<char> {
    match v {
        CdbViolation::Naming(n) => naming_code_spec(n),
        CdbViolation::Hierarchy(_) => "/req/core/file-root-global-metadata"@,
        CdbViolation::Link(l) => link_code_spec(l),
        CdbViolation::Metadata(m) => metadata_code_spec(m),
        CdbViolation::Crs(c) => crs_code_spec(c),
        CdbViolation::Attribution(a) => attribution_code_spec(a),
        CdbViolation::Coverage(c) => coverage_code_spec(c),
        CdbViolation::Geometry(g) => geometry_code_spec(g),
        CdbViolation::MissingConformanceDeclaration { .. } => minimal_core_clause(),
        CdbViolation::DeclarationMismatch { clause, .. } => clause@,
    }
}

fn naming_code(v: &NamingViolation) -> (r: &'static str)
    ensures
        r@ == naming_code_spec(*v),
{
    match v {
        NamingViolation::EmptyName | NamingViolation::EmptyPathComponent { .. } =>
            "/req/core/naming-system",
        NamingViolation::ContainsSpace { .. } => "/req/core/name-spaces",
        NamingViolation::ForbiddenCharacter { .. } | NamingViolation::ControlCharacter { .. } =>
            "/req/core/name-unicode-B",
        NamingViolation::CaseRuleViolation { .. } => "/req/core/name-case",
        NamingViolation::PathTraversal { .. } => "/req/core/file-cdb-root-location",
    }
}

fn hierarchy_code(v: &HierarchyViolation) -> (r: &'static str)
    ensures
        r@ == "/req/core/file-root-global-metadata"@,
{
    match v {
        HierarchyViolation::MissingGlobalMetadata { .. } => "/req/core/file-root-global-metadata",
    }
}

fn link_code(v: &LinkViolation) -> (r: &'static str)
    ensures
        r@ == link_code_spec(*v),
{
    match v {
        LinkViolation::InvalidHref { .. } => "/req/core/link-href",
        LinkViolation::MissingRel => "/req/core/link-rel",
    }
}

fn metadata_code(v: &MetadataViolation) -> (r: &'static str)
    ensures
        r@ == metadata_code_spec(*v),
{
    match v {
        MetadataViolation::MissingElement { .. } => "/req/core/metadata-",
        MetadataViolation::UnknownMetadataStandard { .. } => "/req/core/metadata-standard",
        MetadataViolation::UnknownEncoding { .. } | MetadataViolation::EncodingMismatch { .. }
        | MetadataViolation::Malformed { .. } => "/req/core/metadata-encoding",
        MetadataViolation::UnknownUnitOfMeasure { .. } => "/req/core/metadata-uom-measure",
        MetadataViolation::InvalidLanguageTag { .. } => "/req/core/metadata-language",
        MetadataViolation::InvalidDateTime { .. } => "/req/core/metadata-datetime",
        MetadataViolation::NotUtc { .. } => "/req/core/metadata-datetime-A",
        MetadataViolation::InvalidTemporalInterval { .. } => "/req/core/metadata-temporal-interval",
        MetadataViolation::MissingGlobalMetadata { .. } => "/req/core/metadata-global",
        MetadataViolation::Link(link) => link_code(link),
    }
}

fn crs_code(v: &CrsViolation) -> (r: &'static str)
    ensures
        r@ == crs_code_spec(*v),
{
    match v {
        CrsViolation::InvalidWkt { .. } | CrsViolation::NotACrs { .. }
        | CrsViolation::MissingCrsMetadata { .. } => "/req/core/crs/crsMetadata",
        CrsViolation::NonGeodeticStorageCrs { .. }
        | CrsViolation::CompoundHorizontalNotGeodetic { .. } =>
            "/req/core/crs/storageCrs-valid-value",
        CrsViolation::InconsistentCoordinateUnits { .. } => "/req/core/crs/uom",
        CrsViolation::MissingEpoch => "/req/core/crs/crsEpoch",
        CrsViolation::InvalidEpoch { .. } => "/req/core/crs/crsEpoch-B",
        CrsViolation::CrsAlreadyDefined { .. } => "/req/core/crs/crsStorage",
        CrsViolation::NotAVerticalCrs { .. } => "/req/core/crs/vcrs-topic2",
    }
}

fn attribution_code(v: &AttributionViolation) -> (r: &'static str)
    ensures
        r@ == attribution_code_spec(*v),
{
    match v {
        AttributionViolation::EmptyModel | AttributionViolation::Malformed { .. } =>
            "/req/core/attribute-model-A",
        AttributionViolation::DuplicateId { .. } | AttributionViolation::EmptyId { .. } =>
            "/req/core/attribute-model-content-B",
        AttributionViolation::EmptyName { .. } => "/req/core/attribute-model-content-C",
        AttributionViolation::EmptyDescription { .. } => "/req/core/attribute-model-content-D",
        AttributionViolation::InvalidSchemaUri { .. } => "/per/core/attribute-schema-uri",
        AttributionViolation::InvalidFileName { .. } => "/req/core/attribute-model-C",
    }
}

fn coverage_code(v: &CoverageViolation) -> (r: &'static str)
    ensures
        r@ == coverage_code_spec(*v),
{
    match v {
        CoverageViolation::UnknownGridCellEncoding { .. }
        | CoverageViolation::UnknownGridCorner { .. } => "/req/core/coverage-domainSet-F",
    }
}

fn geometry_code(v: &GeometryViolation) -> (r: &'static str)
    ensures
        r@ == geometry_code_spec(*v),
{
    match v {
        GeometryViolation::UnknownGeometryCode { .. } | GeometryViolation::ZLengthMismatch { .. }
        | GeometryViolation::MLengthMismatch { .. } => "/req/core/geometry-types",
        GeometryViolation::MissingZUom => "/req/core/geometry-zvalue",
        GeometryViolation::MissingMUom => "/req/core/geometry-mvalue",
        GeometryViolation::ForeignCrs { .. } => "/req/core/geometry-coordinates",
    }
}

impl CdbViolation {
    /// The requirements class this violation is filed under.
    pub fn class(&self) -> (r: RequirementsClass)
        ensures
            r == violation_class(*self),
    {
        match self {
            CdbViolation::Naming(_) => RequirementsClass::FileNaming,
            CdbViolation::Hierarchy(_) => RequirementsClass::FileStructure,
            CdbViolation::Link(_) => RequirementsClass::Links,
            CdbViolation::Metadata(MetadataViolation::Link(_)) => RequirementsClass::Links,
            CdbViolation::Metadata(_) => RequirementsClass::Metadata,
            CdbViolation::Crs(_) => RequirementsClass::Crs,
            CdbViolation::Attribution(_) => RequirementsClass::Attribution,
            CdbViolation::Coverage(_) => RequirementsClass::Coverages,
            CdbViolation::Geometry(_) => RequirementsClass::Geometry,
            CdbViolation::MissingConformanceDeclaration { class, .. } => *class,
            CdbViolation::DeclarationMismatch { class, .. } => *class,
        }
    }

    /// The stable machine-readable code: the clause the violation breaks.
    pub fn code(&self) -> (r: &'static str)
        ensures
            r@ == violation_code(*self),
    {
        match self {
            CdbViolation::Naming(v) => naming_code(v),
            CdbViolation::Hierarchy(v) => hierarchy_code(v),
            CdbViolation::Link(v) => link_code(v),
            CdbViolation::Metadata(v) => metadata_code(v),
            CdbViolation::Crs(v) => crs_code(v),
            CdbViolation::Attribution(v) => attribution_code(v),
            CdbViolation::Coverage(v) => coverage_code(v),
            CdbViolation::Geometry(v) => geometry_code(v),
            CdbViolation::MissingConformanceDeclaration { .. } => "/conf/minimal-core",
            CdbViolation::DeclarationMismatch { clause, .. } => clause,
        }
    }
}

impl From<NamingViolation> for CdbViolation {
    fn from(v: NamingViolation) -> (r: CdbViolation)
        ensures
            r == CdbViolation::Naming(v),
    {
        CdbViolation::Naming(v)
    }
}

impl vstd::std_specs::convert::FromSpecImpl<NamingViolation> for CdbViolation {
    open spec fn obeys_from_spec() -> bool {
        true
    }

    open spec fn from_spec(v: NamingViolation) -> CdbViolation {
        CdbViolation::Naming(v)
    }
}

impl From<HierarchyViolation> for CdbViolation {
    fn from(v: HierarchyViolation) -> (r: CdbViolation)
        ensures
            r == CdbViolation::Hierarchy(v),
    {
        CdbViolation::Hierarchy(v)
    }
}

impl vstd::std_specs::convert::FromSpecImpl<HierarchyViolation> for CdbViolation {
    open spec fn obeys_from_spec() -> bool {
        true
    }

    open spec fn from_spec(v: HierarchyViolation) -> CdbViolation {
        CdbViolation::Hierarchy(v)
    }
}

impl From<LinkViolation> for CdbViolation {
    fn from(v: LinkViolation) -> (r: CdbViolation)
        ensures
            r == CdbViolation::Link(v),
    {
        CdbViolation::Link(v)
    }
}

impl vstd::std_specs::convert::FromSpecImpl<LinkViolation> for CdbViolation {
    open spec fn obeys_from_spec() -> bool {
        true
    }

    open spec fn from_spec(v: LinkViolation) -> CdbViolation {
        CdbViolation::Link(v)
    }
}

impl From<MetadataViolation> for CdbViolation {
    fn from(v: MetadataViolation) -> (r: CdbViolation)
        ensures
            r == CdbViolation::Metadata(v),
    {
        CdbViolation::Metadata(v)
    }
}

impl vstd::std_specs::convert::FromSpecImpl<MetadataViolation> for CdbViolation {
    open spec fn obeys_from_spec() -> bool {
        true
    }

    open spec fn from_spec(v: MetadataViolation) -> CdbViolation {
        CdbViolation::Metadata(v)
    }
}

impl From<CrsViolation> for CdbViolation {
    fn from(v: CrsViolation) -> (r: CdbViolation)
        ensures
            r == CdbViolation::Crs(v),
    {
        CdbViolation::Crs(v)
    }
}

impl vstd::std_specs::convert::FromSpecImpl<CrsViolation> for CdbViolation {
    open spec fn obeys_from_spec() -> bool {
        true
    }

    open spec fn from_spec(v: CrsViolation) -> CdbViolation {
        CdbViolation::Crs(v)
    }
}

impl From<AttributionViolation> for CdbViolation {
    fn from(v: AttributionViolation) -> (r: CdbViolation)
        ensures
            r == CdbViolation::Attribution(v),
    {
        CdbViolation::Attribution(v)
    }
}

impl vstd::std_specs::convert::FromSpecImpl<AttributionViolation> for CdbViolation {
    open spec fn obeys_from_spec() -> bool {
        true
    }

    open spec fn from_spec(v: AttributionViolation) -> CdbViolation {
        CdbViolation::Attribution(v)
    }
}

impl From<CoverageViolation> for CdbViolation {
    fn from(v: CoverageViolation) -> (r: CdbViolation)
        ensures
            r == CdbViolation::Coverage(v),
    {
        CdbViolation::Coverage(v)
    }
}

impl vstd::std_specs::convert::FromSpecImpl<CoverageViolation> for CdbViolation {
    open spec fn obeys_from_spec() -> bool {
        true
    }

    open spec fn from_spec(v: CoverageViolation) -> CdbViolation {
        CdbViolation::Coverage(v)
    }
}

impl From<GeometryViolation> for CdbViolation {
    fn from(v: GeometryViolation) -> (r: CdbViolation)
        ensures
            r == CdbViolation::Geometry(v),
    {
        CdbViolation::Geometry(v)
    }
}

impl vstd::std_specs::convert::FromSpecImpl<GeometryViolation> for CdbViolation {
    open spec fn obeys_from_spec() -> bool {
        true
    }

    open spec fn from_spec(v: GeometryViolation) -> CdbViolation {
        CdbViolation::Geometry(v)
    }
}

/// A datastore-wide SHOULD finding; never a failure.
#[derive(Debug, Clone, PartialEq, Eq)]
pub enum CdbWarning {
    Naming(NamingWarning),
    Hierarchy(HierarchyWarning),
    Crs(CrsWarning),
    /// The datastore language is not English (Recommendation Name3-B).
    LanguageNotEnglish { language: String },
}

/// The mathematical content of a [`CdbWarning`].
pub enum CdbWarningModel {
    Naming(NamingWarningModel),
    Hierarchy(HierarchyWarningModel),
    Crs(CrsWarningModel),
    LanguageNotEnglish { language: Seq<char> },
}

impl View for CdbWarning {
    type V = CdbWarningModel;

    open spec fn view(&self) -> CdbWarningModel {
        match self {
            CdbWarning::Naming(w) => CdbWarningModel::Naming(w@),
            CdbWarning::Hierarchy(w) => CdbWarningModel::Hierarchy(w@),
            CdbWarning::Crs(w) => CdbWarningModel::Crs(w@),
            CdbWarning::LanguageNotEnglish { language } => CdbWarningModel::LanguageNotEnglish {
                language: language@,
            },
        }
    }
}

/// The class a warning is filed under.
pub open spec fn warning_class_of(w: CdbWarningModel) -> RequirementsClass {
    match w {
        CdbWarningModel::Naming(_) | CdbWarningModel::LanguageNotEnglish { .. } =>
            RequirementsClass::FileNaming,
        CdbWarningModel::Hierarchy(_) => RequirementsClass::FileStructure,
        CdbWarningModel::Crs(_) => RequirementsClass::Crs,
    }
}

/// The class each warning is filed under.
pub open spec fn warning_class(w: CdbWarning) -> RequirementsClass {
    warning_class_of(w@)
}

/// The stable code of each warning: the clause the recommendation
/// belongs to.
pub open spec fn warning_code(w: CdbWarning) -> Seq<char> {
    match w {
        CdbWarning::Naming(n) => match n {
            NamingWarning::NonAscii { .. } => "/req/core/name-unicode-A"@,
            NamingWarning::NonSpecExtension { .. } => "/req/core/name-extensions-B"@,
        },
        CdbWarning::Hierarchy(h) => match h {
            HierarchyWarning::EmptyFolder(_) => "/req/core/name-empty-folders-A"@,
            HierarchyWarning::RootNameNotCdb { .. } => "/rec/core/file-hierarchy-root-name"@,
        },
        CdbWarning::Crs(_) => "/rec/core/crs/crs-definition"@,
        CdbWarning::LanguageNotEnglish { .. } => "/req/core/name-language-B"@,
    }
}

impl CdbWarning {
    /// The requirements class this warning is filed under.
    pub fn class(&self) -> (r: RequirementsClass)
        ensures
            r == warning_class(*self),
    {
        match self {
            CdbWarning::Naming(_) | CdbWarning::LanguageNotEnglish { .. } =>
                RequirementsClass::FileNaming,
            CdbWarning::Hierarchy(_) => RequirementsClass::FileStructure,
            CdbWarning::Crs(_) => RequirementsClass::Crs,
        }
    }

    /// The stable machine-readable code of this warning.
    pub fn code(&self) -> (r: &'static str)
        ensures
            r@ == warning_code(*self),
    {
        match self {
            CdbWarning::Naming(NamingWarning::NonAscii { .. }) => "/req/core/name-unicode-A",
            CdbWarning::Naming(NamingWarning::NonSpecExtension { .. }) =>
                "/req/core/name-extensions-B",
            CdbWarning::Hierarchy(HierarchyWarning::EmptyFolder(_)) =>
                "/req/core/name-empty-folders-A",
            CdbWarning::Hierarchy(HierarchyWarning::RootNameNotCdb { .. }) =>
                "/rec/core/file-hierarchy-root-name",
            CdbWarning::Crs(CrsWarning::NotWgs84 { .. }) => "/rec/core/crs/crs-definition",
            CdbWarning::LanguageNotEnglish { .. } => "/req/core/name-language-B",
        }
    }
}

impl From<NamingWarning> for CdbWarning {
    fn from(w: NamingWarning) -> (r: CdbWarning)
        ensures
            r == CdbWarning::Naming(w),
    {
        CdbWarning::Naming(w)
    }
}

impl vstd::std_specs::convert::FromSpecImpl<NamingWarning> for CdbWarning {
    open spec fn obeys_from_spec() -> bool {
        true
    }

    open spec fn from_spec(w: NamingWarning) -> CdbWarning {
        CdbWarning::Naming(w)
    }
}

impl From<HierarchyWarning> for CdbWarning {
    fn from(w: HierarchyWarning) -> (r: CdbWarning)
        ensures
            r == CdbWarning::Hierarchy(w),
    {
        CdbWarning::Hierarchy(w)
    }
}

impl vstd::std_specs::convert::FromSpecImpl<HierarchyWarning> for CdbWarning {
    open spec fn obeys_from_spec() -> bool {
        true
    }

    open spec fn from_spec(w: HierarchyWarning) -> CdbWarning {
        CdbWarning::Hierarchy(w)
    }
}

impl From<CrsWarning> for CdbWarning {
    fn from(w: CrsWarning) -> (r: CdbWarning)
        ensures
            r == CdbWarning::Crs(w),
    {
        CdbWarning::Crs(w)
    }
}

impl vstd::std_specs::convert::FromSpecImpl<CrsWarning> for CdbWarning {
    open spec fn obeys_from_spec() -> bool {
        true
    }

    open spec fn from_spec(w: CrsWarning) -> CdbWarning {
        CdbWarning::Crs(w)
    }
}

/// Every violation code is an absolute OGC clause path: it begins with
/// `/req/core/`, `/rec/core/`, `/per/core/` or `/conf/`, except that a
/// declaration mismatch reports the clause it carries.
pub open spec fn is_clause_path(s: Seq<char>) -> bool {
    ||| (s.len() >= 10 && s.take(10) == "/req/core/"@)
    ||| (s.len() >= 10 && s.take(10) == "/per/core/"@)
    ||| (s.len() >= 6 && s.take(6) == "/conf/"@)
}

/// Codes are clause paths: every module violation's code is an absolute
/// clause path, and a missing declaration cites Annex A's bundle.
pub proof fn violation_codes_are_clause_paths(v: CdbViolation)
    requires
        !(v is DeclarationMismatch),
    ensures
        is_clause_path(violation_code(v)),
{
    reveal_strlit("/req/core/");
    reveal_strlit("/per/core/");
    reveal_strlit("/conf/");
    reveal_strlit("/conf/minimal-core");
    reveal_strlit("/req/core/naming-system");
    reveal_strlit("/req/core/name-spaces");
    reveal_strlit("/req/core/name-unicode-B");
    reveal_strlit("/req/core/name-case");
    reveal_strlit("/req/core/file-cdb-root-location");
    reveal_strlit("/req/core/file-root-global-metadata");
    reveal_strlit("/req/core/link-href");
    reveal_strlit("/req/core/link-rel");
    reveal_strlit("/req/core/metadata-");
    reveal_strlit("/req/core/metadata-standard");
    reveal_strlit("/req/core/metadata-encoding");
    reveal_strlit("/req/core/metadata-uom-measure");
    reveal_strlit("/req/core/metadata-language");
    reveal_strlit("/req/core/metadata-datetime");
    reveal_strlit("/req/core/metadata-datetime-A");
    reveal_strlit("/req/core/metadata-temporal-interval");
    reveal_strlit("/req/core/metadata-global");
    reveal_strlit("/req/core/crs/crsMetadata");
    reveal_strlit("/req/core/crs/storageCrs-valid-value");
    reveal_strlit("/req/core/crs/uom");
    reveal_strlit("/req/core/crs/crsEpoch");
    reveal_strlit("/req/core/crs/crsEpoch-B");
    reveal_strlit("/req/core/crs/crsStorage");
    reveal_strlit("/req/core/crs/vcrs-topic2");
    reveal_strlit("/req/core/attribute-model-A");
    reveal_strlit("/req/core/attribute-model-content-B");
    reveal_strlit("/req/core/attribute-model-content-C");
    reveal_strlit("/req/core/attribute-model-content-D");
    reveal_strlit("/per/core/attribute-schema-uri");
    reveal_strlit("/req/core/attribute-model-C");
    reveal_strlit("/req/core/coverage-domainSet-F");
    reveal_strlit("/req/core/geometry-types");
    reveal_strlit("/req/core/geometry-zvalue");
    reveal_strlit("/req/core/geometry-mvalue");
    reveal_strlit("/req/core/geometry-coordinates");
    let c = violation_code(v);
    assert(c.len() >= 6);
    assert(c.take(10) =~= "/req/core/"@ || c.take(10) =~= "/per/core/"@ || c.take(6)
        =~= "/conf/"@);
}

/// A code from the module violations never equals the bare module URI of
/// a class the content sweep can convict (Attribution, Coverages, Tiling,
/// Topology, Versioning), so the sweep's own findings stay distinguishable.
pub proof fn module_codes_differ_from_swept_class_uris(v: CdbViolation, c: RequirementsClass)
    requires
        !(v is DeclarationMismatch),
        c == RequirementsClass::Attribution || c == RequirementsClass::Coverages || c
            == RequirementsClass::Tiling || c == RequirementsClass::Topology || c
            == RequirementsClass::Versioning,
    ensures
        violation_code(v) != class_uri(c),
{
    reveal_strlit("/req/core/attributes");
    reveal_strlit("/req/core/coverages-");
    reveal_strlit("/req/core/tiling");
    reveal_strlit("/req/core/topology");
    reveal_strlit("/req/core/versioning");
    reveal_strlit("/conf/minimal-core");
    reveal_strlit("/req/core/naming-system");
    reveal_strlit("/req/core/name-spaces");
    reveal_strlit("/req/core/name-unicode-B");
    reveal_strlit("/req/core/name-case");
    reveal_strlit("/req/core/file-cdb-root-location");
    reveal_strlit("/req/core/file-root-global-metadata");
    reveal_strlit("/req/core/link-href");
    reveal_strlit("/req/core/link-rel");
    reveal_strlit("/req/core/metadata-");
    reveal_strlit("/req/core/metadata-standard");
    reveal_strlit("/req/core/metadata-encoding");
    reveal_strlit("/req/core/metadata-uom-measure");
    reveal_strlit("/req/core/metadata-language");
    reveal_strlit("/req/core/metadata-datetime");
    reveal_strlit("/req/core/metadata-datetime-A");
    reveal_strlit("/req/core/metadata-temporal-interval");
    reveal_strlit("/req/core/metadata-global");
    reveal_strlit("/req/core/crs/crsMetadata");
    reveal_strlit("/req/core/crs/storageCrs-valid-value");
    reveal_strlit("/req/core/crs/uom");
    reveal_strlit("/req/core/crs/crsEpoch");
    reveal_strlit("/req/core/crs/crsEpoch-B");
    reveal_strlit("/req/core/crs/crsStorage");
    reveal_strlit("/req/core/crs/vcrs-topic2");
    reveal_strlit("/req/core/attribute-model-A");
    reveal_strlit("/req/core/attribute-model-content-B");
    reveal_strlit("/req/core/attribute-model-content-C");
    reveal_strlit("/req/core/attribute-model-content-D");
    reveal_strlit("/per/core/attribute-schema-uri");
    reveal_strlit("/req/core/attribute-model-C");
    reveal_strlit("/req/core/coverage-domainSet-F");
    reveal_strlit("/req/core/geometry-types");
    reveal_strlit("/req/core/geometry-zvalue");
    reveal_strlit("/req/core/geometry-mvalue");
    reveal_strlit("/req/core/geometry-coordinates");
    let a = violation_code(v);
    let b = class_uri(c);
    if a == b {
        assert(a.len() == b.len());
        assert(a[10] == b[10]);
        assert(a[11] == b[11]);
        assert(a[12] == b[12]);
        assert(a[a.len() - 1] == b[b.len() - 1]);
    }
}

} // verus!
