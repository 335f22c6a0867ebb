//! The coverages requirements class (`/req/core/coverages-`): the closed
//! grid vocabularies of Requirement Coverages6-F and their violations.

use vstd::prelude::*;
use crate::text::{owned, str_eq};

verus! {

/// A violation of a SHALL requirement of the coverages module.
#[derive(Debug, Clone, PartialEq, Eq)]
pub enum CoverageViolation {
    /// A grid cell encoding outside the three wire spellings.
    UnknownGridCellEncoding { value: String },
    /// A grid corner outside the four wire spellings.
    UnknownGridCorner { value: String },
}

/// The mathematical content of a [`CoverageViolation`].
pub enum CoverageViolationModel {
    UnknownGridCellEncoding { value: Seq<char> },
    UnknownGridCorner { value: Seq<char> },
}

impl View for CoverageViolation {
    type V = CoverageViolationModel;

    open spec fn view(&self) -> CoverageViolationModel {
        match self {
            CoverageViolation::UnknownGridCellEncoding { value } =>
                CoverageViolationModel::UnknownGridCellEncoding { value: value@ },
            CoverageViolation::UnknownGridCorner { value } =>
                CoverageViolationModel::UnknownGridCorner { value: value@ },
        }
    }
}

/// How a value is assigned to a grid cell.
#[derive(Debug, Clone, Copy, PartialEq, Eq, Hash, Structural)]
pub enum GridCellEncoding {
    /// The value is the cell center (the default).
    ValueIsCenter,
    /// The entire cell has the same value.
    ValueIsArea,
    /// A mesh of values; a [`GridCorner`] says which corner.
    ValueIsCorner,
}

/// The wire spelling of each grid cell encoding.
pub open spec fn encoding_spelling(e: GridCellEncoding) -> Seq<char> {
    match e {
        GridCellEncoding::ValueIsCenter => "value-is-center"@,
        GridCellEncoding::ValueIsArea => "value-is-area"@,
        GridCellEncoding::ValueIsCorner => "value-is-corner"@,
    }
}

impl Default for GridCellEncoding {
    fn default() -> (r: GridCellEncoding)
        ensures
            r == GridCellEncoding::ValueIsCenter,
    {
        GridCellEncoding::ValueIsCenter
    }
}

impl GridCellEncoding {
    /// Every grid cell encoding, in listing order.
    pub const ALL: [GridCellEncoding; 3] = [
        GridCellEncoding::ValueIsCenter,
        GridCellEncoding::ValueIsArea,
        GridCellEncoding::ValueIsCorner,
    ];

    /// The wire spelling.
    pub fn as_str(self) -> (r: &'static str)
        ensures
            r@ == encoding_spelling(self),
    {
        match self {
            GridCellEncoding::ValueIsCenter => "value-is-center",
            GridCellEncoding::ValueIsArea => "value-is-area",
            GridCellEncoding::ValueIsCorner => "value-is-corner",
        }
    }

    /// The display text, which is the wire spelling.
    pub fn to_string(&self) -> (r: String)
        ensures
            r@ == encoding_spelling(*self),
    {
        owned(self.as_str())
    }

    /// Parses a wire spelling; any other value violates Coverages6-F.
    pub fn parse(value: &str) -> (r: Result<GridCellEncoding, CoverageViolation>)
        ensures
            r is Ok ==> encoding_spelling(r->Ok_0) == value@,
            r is Err <==> (forall|e: GridCellEncoding| encoding_spelling(e) != value@),
            r is Err ==> r->Err_0@ == (CoverageViolationModel::UnknownGridCellEncoding {
                value: value@,
            }),
    {
        let found = if str_eq(value, "value-is-center") {
            Some(GridCellEncoding::ValueIsCenter)
        } else if str_eq(value, "value-is-area") {
            Some(GridCellEncoding::ValueIsArea)
        } else if str_eq(value, "value-is-corner") {
            Some(GridCellEncoding::ValueIsCorner)
        } else {
            None
        };
        match found {
            Some(e) => {
                assert(encoding_spelling(e) == value@);
                Ok(e)
            },
            None => Err(CoverageViolation::UnknownGridCellEncoding { value: owned(value) }),
        }
    }
}

/// Which corner of a cell a value-is-corner mesh value sits on.
#[derive(Debug, Clone, Copy, PartialEq, Eq, Hash, Structural)]
pub enum GridCorner {
    LowerLeft,
    UpperLeft,
    LowerRight,
    UpperRight,
}

/// The wire spelling of each grid corner.
pub open spec fn corner_spelling(c: GridCorner) -> Seq<char> {
    match c {
        GridCorner::LowerLeft => "lower-left-corner"@,
        GridCorner::UpperLeft => "upper-left-corner"@,
        GridCorner::LowerRight => "lower-right-corner"@,
        GridCorner::UpperRight => "upper-right-corner"@,
    }
}

impl GridCorner {
    /// Every grid corner, in listing order.
    pub const ALL: [GridCorner; 4] = [
        GridCorner::LowerLeft,
        GridCorner::UpperLeft,
        GridCorner::LowerRight,
        GridCorner::UpperRight,
    ];

    /// The wire spelling.
    pub fn as_str(self) -> (r: &'static str)
        ensures
            r@ == corner_spelling(self),
    {
        match self {
            GridCorner::LowerLeft => "lower-left-corner",
            GridCorner::UpperLeft => "upper-left-corner",
            GridCorner::LowerRight => "lower-right-corner",
            GridCorner::UpperRight => "upper-right-corner",
        }
    }

    /// The display text, which is the wire spelling.
    pub fn to_string(&self) -> (r: String)
        ensures
            r@ == corner_spelling(*self),
    {
        owned(self.as_str())
    }

    /// Parses a wire spelling; any other value violates Coverages6-F.
    pub fn parse(value: &str) -> (r: Result<GridCorner, CoverageViolation>)
        ensures
            r is Ok ==> corner_spelling(r->Ok_0) == value@,
            r is Err <==> (forall|c: GridCorner| corner_spelling(c) != value@),
            r is Err ==> r->Err_0@ == (CoverageViolationModel::UnknownGridCorner {
                value: value@,
            }),
    {
        let found = if str_eq(value, "lower-left-corner") {
            Some(GridCorner::LowerLeft)
        } else if str_eq(value, "upper-left-corner") {
            Some(GridCorner::UpperLeft)
        } else if str_eq(value, "lower-right-corner") {
            Some(GridCorner::LowerRight)
        } else if str_eq(value, "upper-right-corner") {
            Some(GridCorner::UpperRight)
        } else {
            None
        };
        match found {
            Some(c) => {
                assert(corner_spelling(c) == value@);
                Ok(c)
            },
            None => Err(CoverageViolation::UnknownGridCorner { value: owned(value) }),
        }
    }
}

/// Each grid cell encoding reads back from its own spelling: the spellings
/// are pairwise distinct, so parsing what `as_str` wrote gives the same
/// encoding.
pub proof fn encoding_spelling_roundtrip(a: GridCellEncoding, b: GridCellEncoding)
    ensures
        encoding_spelling(a) == encoding_spelling(b) ==> a == b,
{
    reveal_strlit("value-is-center");
    reveal_strlit("value-is-area");
    reveal_strlit("value-is-corner");
    if encoding_spelling(a) == encoding_spelling(b) && a != b {
        assert(encoding_spelling(a)[10] != encoding_spelling(b)[10]
            || encoding_spelling(a).len() != encoding_spelling(b).len());
    }
}

/// Each grid corner reads back from its own spelling.
pub proof fn corner_spelling_roundtrip(a: GridCorner, b: GridCorner)
    ensures
        corner_spelling(a) == corner_spelling(b) ==> a == b,
{
    reveal_strlit("lower-left-corner");
    reveal_strlit("upper-left-corner");
    reveal_strlit("lower-right-corner");
    reveal_strlit("upper-right-corner");
    if corner_spelling(a) == corner_spelling(b) && a != b {
        assert(corner_spelling(a)[0] != corner_spelling(b)[0]
            || corner_spelling(a)[6] != corner_spelling(b)[6]);
    }
}

} // verus!
