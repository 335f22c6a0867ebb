//! The requirements-class vocabulary: the five mandatory classes every
//! profile declares, and the optional classes.

use vstd::prelude::*;
use crate::text::{owned, push_str};

verus! {

/// A CDB Core requirements class. Declaration order is the order a
/// conformance report lists them.
#[derive(Debug, Clone, Copy, PartialEq, Eq, PartialOrd, Ord, Hash, Structural)]
pub enum RequirementsClass {
    Crs,
    FileNaming,
    FileStructure,
    Links,
    Metadata,
    Attribution,
    Coverages,
    Geometry,
    Tiling,
    Topology,
    Versioning,
}

/// Position of a class in declaration order.
pub open spec fn class_index(c: RequirementsClass) -> int {
    match c {
        RequirementsClass::Crs => 0,
        RequirementsClass::FileNaming => 1,
        RequirementsClass::FileStructure => 2,
        RequirementsClass::Links => 3,
        RequirementsClass::Metadata => 4,
        RequirementsClass::Attribution => 5,
        RequirementsClass::Coverages => 6,
        RequirementsClass::Geometry => 7,
        RequirementsClass::Tiling => 8,
        RequirementsClass::Topology => 9,
        RequirementsClass::Versioning => 10,
    }
}

/// Number of requirements classes.
pub const CLASS_COUNT: usize = 11;

/// The class at a position in declaration order.
pub open spec fn class_at(i: int) -> RequirementsClass {
    if i == 0 {
        RequirementsClass::Crs
    } else if i == 1 {
        RequirementsClass::FileNaming
    } else if i == 2 {
        RequirementsClass::FileStructure
    } else if i == 3 {
        RequirementsClass::Links
    } else if i == 4 {
        RequirementsClass::Metadata
    } else if i == 5 {
        RequirementsClass::Attribution
    } else if i == 6 {
        RequirementsClass::Coverages
    } else if i == 7 {
        RequirementsClass::Geometry
    } else if i == 8 {
        RequirementsClass::Tiling
    } else if i == 9 {
        RequirementsClass::Topology
    } else {
        RequirementsClass::Versioning
    }
}

/// Whether a class is one of the five `/conf/minimal-core` makes mandatory.
pub open spec fn is_mandatory(c: RequirementsClass) -> bool {
    class_index(c) < 5
}

/// The short name of each class.
pub open spec fn class_name(c: RequirementsClass) -> Seq<char> {
    match c {
        RequirementsClass::Crs => "crs"@,
        RequirementsClass::FileNaming => "file-naming"@,
        RequirementsClass::FileStructure => "file-structure"@,
        RequirementsClass::Links => "links"@,
        RequirementsClass::Metadata => "metadata"@,
        RequirementsClass::Attribution => "attribution"@,
        RequirementsClass::Coverages => "coverages"@,
        RequirementsClass::Geometry => "geometry"@,
        RequirementsClass::Tiling => "tiling"@,
        RequirementsClass::Topology => "topology"@,
        RequirementsClass::Versioning => "versioning"@,
    }
}

/// The requirements-module URI each class encodes.
pub open spec fn class_uri(c: RequirementsClass) -> Seq<char> {
    match c {
        RequirementsClass::Crs => "/req/core/data-representation"@,
        RequirementsClass::FileNaming => "/req/core/naming-system"@,
        RequirementsClass::FileStructure => "/req/core/file-system"@,
        RequirementsClass::Links => "/req/core/links"@,
        RequirementsClass::Metadata => "/req/core/metadata-"@,
        RequirementsClass::Attribution => "/req/core/attributes"@,
        RequirementsClass::Coverages => "/req/core/coverages-"@,
        RequirementsClass::Geometry => "/req/core/geometry"@,
        RequirementsClass::Tiling => "/req/core/tiling"@,
        RequirementsClass::Topology => "/req/core/topology"@,
        RequirementsClass::Versioning => "/req/core/versioning"@,
    }
}

/// The conformance-class URI a profile declares for a class.
pub open spec fn conformance_uri_spec(c: RequirementsClass, profile: Seq<char>) -> Seq<char> {
    "http://www.opengis.net/spec/CDB/2.0/conf/"@ + profile + "/"@ + class_name(c)
}

impl RequirementsClass {
    /// The five mandatory classes, in listing order.
    pub const MANDATORY: [RequirementsClass; 5] = [
        RequirementsClass::Crs,
        RequirementsClass::FileNaming,
        RequirementsClass::FileStructure,
        RequirementsClass::Links,
        RequirementsClass::Metadata,
    ];

    /// The optional classes, in listing order.
    pub const OPTIONAL: [RequirementsClass; 6] = [
        RequirementsClass::Attribution,
        RequirementsClass::Coverages,
        RequirementsClass::Geometry,
        RequirementsClass::Tiling,
        RequirementsClass::Topology,
        RequirementsClass::Versioning,
    ];

    /// Every class, in listing order.
    pub const ALL: [RequirementsClass; 11] = [
        RequirementsClass::Crs,
        RequirementsClass::FileNaming,
        RequirementsClass::FileStructure,
        RequirementsClass::Links,
        RequirementsClass::Metadata,
        RequirementsClass::Attribution,
        RequirementsClass::Coverages,
        RequirementsClass::Geometry,
        RequirementsClass::Tiling,
        RequirementsClass::Topology,
        RequirementsClass::Versioning,
    ];

    /// The class's short name, used in its conformance-class URI.
    pub fn as_str(self) -> (r: &'static str)
        ensures
            r@ == class_name(self),
    {
        match self {
            RequirementsClass::Crs => "crs",
            RequirementsClass::FileNaming => "file-naming",
            RequirementsClass::FileStructure => "file-structure",
            RequirementsClass::Links => "links",
            RequirementsClass::Metadata => "metadata",
            RequirementsClass::Attribution => "attribution",
            RequirementsClass::Coverages => "coverages",
            RequirementsClass::Geometry => "geometry",
            RequirementsClass::Tiling => "tiling",
            RequirementsClass::Topology => "topology",
            RequirementsClass::Versioning => "versioning",
        }
    }

    /// The display text, which is the short name.
    pub fn to_string(&self) -> (r: String)
        ensures
            r@ == class_name(*self),
    {
        owned(self.as_str())
    }

    /// The requirements-module URI this class encodes.
    pub fn requirements_uri(self) -> (r: &'static str)
        ensures
            r@ == class_uri(self),
    {
        match self {
            RequirementsClass::Crs => "/req/core/data-representation",
            RequirementsClass::FileNaming => "/req/core/naming-system",
            RequirementsClass::FileStructure => "/req/core/file-system",
            RequirementsClass::Links => "/req/core/links",
            RequirementsClass::Metadata => "/req/core/metadata-",
            RequirementsClass::Attribution => "/req/core/attributes",
            RequirementsClass::Coverages => "/req/core/coverages-",
            RequirementsClass::Geometry => "/req/core/geometry",
            RequirementsClass::Tiling => "/req/core/tiling",
            RequirementsClass::Topology => "/req/core/topology",
            RequirementsClass::Versioning => "/req/core/versioning",
        }
    }

    /// The conformance-class URI a profile declares for this class:
    /// `http://www.opengis.net/spec/CDB/2.0/conf/<profile>/<class>`.
    pub fn conformance_uri(self, profile_name: &str) -> (r: String)
        ensures
            r@ == conformance_uri_spec(self, profile_name@),
    {
        let mut out = owned("http://www.opengis.net/spec/CDB/2.0/conf/");
        push_str(&mut out, profile_name);
        push_str(&mut out, "/");
        push_str(&mut out, self.as_str());
        out
    }

    /// Position in listing order.
    pub fn index(self) -> (r: usize)
        ensures
            r == class_index(self),
    {
        match self {
            RequirementsClass::Crs => 0,
            RequirementsClass::FileNaming => 1,
            RequirementsClass::FileStructure => 2,
            RequirementsClass::Links => 3,
            RequirementsClass::Metadata => 4,
            RequirementsClass::Attribution => 5,
            RequirementsClass::Coverages => 6,
            RequirementsClass::Geometry => 7,
            RequirementsClass::Tiling => 8,
            RequirementsClass::Topology => 9,
            RequirementsClass::Versioning => 10,
        }
    }

    /// The class at a position in listing order.
    pub fn at(i: usize) -> (r: RequirementsClass)
        requires
            i < 11,
        ensures
            r == class_at(i as int),
            class_index(r) == i,
    {
        match i {
            0 => RequirementsClass::Crs,
            1 => RequirementsClass::FileNaming,
            2 => RequirementsClass::FileStructure,
            3 => RequirementsClass::Links,
            4 => RequirementsClass::Metadata,
            5 => RequirementsClass::Attribution,
            6 => RequirementsClass::Coverages,
            7 => RequirementsClass::Geometry,
            8 => RequirementsClass::Tiling,
            9 => RequirementsClass::Topology,
            _ => RequirementsClass::Versioning,
        }
    }
}

/// Listing positions identify classes: `class_at` inverts `class_index`,
/// and every index lies in `0..11`.
pub proof fn class_index_bijection(c: RequirementsClass)
    ensures
        0 <= class_index(c) < 11,
        class_at(class_index(c)) == c,
{
}

} // verus!
