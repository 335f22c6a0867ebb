//! The crate-wide error taxonomy: one variant family per requirements
//! module.

use vstd::prelude::*;
use crate::naming::NamingViolation;
use crate::hierarchy::HierarchyError;
use crate::links::LinkViolation;
use crate::metadata::MetadataError;
use crate::crs::CrsError;
use crate::geometry::GeometryViolation;
use crate::coverage::CoverageViolation;
use crate::attribution::AttributionError;

verus! {

/// Top-level error of the library.
#[derive(Debug)]
pub enum CdbError {
    /// Resource path and file naming (`/req/core/naming-system`).
    Naming(NamingViolation),
    /// File hierarchy structure (`/req/core/file-system`).
    Hierarchy(HierarchyError),
    /// Links (`/req/core/links`).
    Link(LinkViolation),
    /// Global and resource metadata (`/req/core/metadata-`).
    Metadata(MetadataError),
    /// Coordinate reference systems (`/req/core/data-representation`).
    Crs(CrsError),
    /// Geometry (`/req/core/geometry`).
    Geometry(GeometryViolation),
    /// Coverages (`/req/core/coverages-`).
    Coverage(CoverageViolation),
    Attribution(AttributionError),
}

impl From<NamingViolation> for CdbError {
    fn from(e: NamingViolation) -> (r: CdbError)
        ensures
            r == CdbError::Naming(e),
    {
        CdbError::Naming(e)
    }
}

impl vstd::std_specs::convert::FromSpecImpl<NamingViolation> for CdbError {
    open spec fn obeys_from_spec() -> bool {
        true
    }

    open spec fn from_spec(e: NamingViolation) -> CdbError {
        CdbError::Naming(e)
    }
}

impl From<HierarchyError> for CdbError {
    fn from(e: HierarchyError) -> (r: CdbError)
        ensures
            r == CdbError::Hierarchy(e),
    {
        CdbError::Hierarchy(e)
    }
}

impl vstd::std_specs::convert::FromSpecImpl<HierarchyError> for CdbError {
    open spec fn obeys_from_spec() -> bool {
        true
    }

    open spec fn from_spec(e: HierarchyError) -> CdbError {
        CdbError::Hierarchy(e)
    }
}

impl From<LinkViolation> for CdbError {
    fn from(e: LinkViolation) -> (r: CdbError)
        ensures
            r == CdbError::Link(e),
    {
        CdbError::Link(e)
    }
}

impl vstd::std_specs::convert::FromSpecImpl<LinkViolation> for CdbError {
    open spec fn obeys_from_spec() -> bool {
        true
    }

    open spec fn from_spec(e: LinkViolation) -> CdbError {
        CdbError::Link(e)
    }
}

impl From<MetadataError> for CdbError {
    fn from(e: MetadataError) -> (r: CdbError)
        ensures
            r == CdbError::Metadata(e),
    {
        CdbError::Metadata(e)
    }
}

impl vstd::std_specs::convert::FromSpecImpl<MetadataError> for CdbError {
    open spec fn obeys_from_spec() -> bool {
        true
    }

    open spec fn from_spec(e: MetadataError) -> CdbError {
        CdbError::Metadata(e)
    }
}

impl From<CrsError> for CdbError {
    fn from(e: CrsError) -> (r: CdbError)
        ensures
            r == CdbError::Crs(e),
    {
        CdbError::Crs(e)
    }
}

impl vstd::std_specs::convert::FromSpecImpl<CrsError> for CdbError {
    open spec fn obeys_from_spec() -> bool {
        true
    }

    open spec fn from_spec(e: CrsError) -> CdbError {
        CdbError::Crs(e)
    }
}

impl From<GeometryViolation> for CdbError {
    fn from(e: GeometryViolation) -> (r: CdbError)
        ensures
            r == CdbError::Geometry(e),
    {
        CdbError::Geometry(e)
    }
}

impl vstd::std_specs::convert::FromSpecImpl<GeometryViolation> for CdbError {
    open spec fn obeys_from_spec() -> bool {
        true
    }

    open spec fn from_spec(e: GeometryViolation) -> CdbError {
        CdbError::Geometry(e)
    }
}

impl From<CoverageViolation> for CdbError {
    fn from(e: CoverageViolation) -> (r: CdbError)
        ensures
            r == CdbError::Coverage(e),
    {
        CdbError::Coverage(e)
    }
}

impl vstd::std_specs::convert::FromSpecImpl<CoverageViolation> for CdbError {
    open spec fn obeys_from_spec() -> bool {
        true
    }

    open spec fn from_spec(e: CoverageViolation) -> CdbError {
        CdbError::Coverage(e)
    }
}

impl From<AttributionError> for CdbError {
    fn from(e: AttributionError) -> (r: CdbError)
        ensures
            r == CdbError::Attribution(e),
    {
        CdbError::Attribution(e)
    }
}

impl vstd::std_specs::convert::FromSpecImpl<AttributionError> for CdbError {
    open spec fn obeys_from_spec() -> bool {
        true
    }

    open spec fn from_spec(e: AttributionError) -> CdbError {
        CdbError::Attribution(e)
    }
}

} // verus!
