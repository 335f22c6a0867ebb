//! The geometry requirements class (`/req/core/geometry`): the type code
//! table of Requirement Geom2, the per-coordinate length rule of the Z and
//! M tables, and the unit and CRS association checks of Geom3–Geom6.

use vstd::prelude::*;
use crate::crs::{authority_ids_match, same_authority_id};
use crate::metadata::UnitOfMeasure;
use crate::text::{owned, push_str};

verus! {

/// A violation of a SHALL requirement of the geometry module.
#[derive(Debug, Clone, PartialEq, Eq)]
pub enum GeometryViolation {
    /// Only codes from the type table exist.
    UnknownGeometryCode { code: u16 },
    /// Every coordinate carries a z value.
    ZLengthMismatch { expected: usize, found: usize, part: String },
    /// Every coordinate carries an m value.
    MLengthMismatch { expected: usize, found: usize, part: String },
    /// z coordinates without a declared z unit of measure.
    MissingZUom,
    /// m values without a declared m unit of measure.
    MissingMUom,
    /// A geometry CRS claim that does not provably name the datastore CRS.
    ForeignCrs { declared: String, datastore: String },
}

/// The mathematical content of a [`GeometryViolation`].
pub enum GeometryViolationModel {
    UnknownGeometryCode { code: u16 },
    ZLengthMismatch { expected: usize, found: usize, part: Seq<char> },
    MLengthMismatch { expected: usize, found: usize, part: Seq<char> },
    MissingZUom,
    MissingMUom,
    ForeignCrs { declared: Seq<char>, datastore: Seq<char> },
}

impl View for GeometryViolation {
    type V = GeometryViolationModel;

    open spec fn view(&self) -> GeometryViolationModel {
        match self {
            GeometryViolation::UnknownGeometryCode { code } =>
                GeometryViolationModel::UnknownGeometryCode { code: *code },
            GeometryViolation::ZLengthMismatch { expected, found, part } =>
                GeometryViolationModel::ZLengthMismatch {
                    expected: *expected,
                    found: *found,
                    part: part@,
                },
            GeometryViolation::MLengthMismatch { expected, found, part } =>
                GeometryViolationModel::MLengthMismatch {
                    expected: *expected,
                    found: *found,
                    part: part@,
                },
            GeometryViolation::MissingZUom => GeometryViolationModel::MissingZUom,
            GeometryViolation::MissingMUom => GeometryViolationModel::MissingMUom,
            GeometryViolation::ForeignCrs { declared, datastore } =>
                GeometryViolationModel::ForeignCrs { declared: declared@, datastore: datastore@ },
        }
    }
}

/// The geometry type codes of the Geom2 table. Codes 11–14 are extensions
/// an application profile must declare.
#[derive(Debug, Clone, Copy, PartialEq, Eq, Hash, Structural)]
pub enum GeometryCode {
    Geometry,
    Point,
    Linestring,
    Polygon,
    MultiPoint,
    MultiLinestring,
    MultiPolygon,
    GeometryCollection,
    PointZ,
    LinestringZ,
    PolygonZ,
    MultiPointZ,
    PointM,
    LinestringM,
    PolygonM,
    MultiPointM,
    MultiCurve,
    MultiSurface,
    Curve,
    Surface,
}

/// The numeric code of each geometry type.
pub open spec fn code_number(g: GeometryCode) -> u16 {
    match g {
        GeometryCode::Geometry => 0,
        GeometryCode::Point => 1,
        GeometryCode::Linestring => 2,
        GeometryCode::Polygon => 3,
        GeometryCode::MultiPoint => 4,
        GeometryCode::MultiLinestring => 5,
        GeometryCode::MultiPolygon => 6,
        GeometryCode::GeometryCollection => 7,
        GeometryCode::PointZ => 1001,
        GeometryCode::LinestringZ => 1002,
        GeometryCode::PolygonZ => 1003,
        GeometryCode::MultiPointZ => 1004,
        GeometryCode::PointM => 2001,
        GeometryCode::LinestringM => 2002,
        GeometryCode::PolygonM => 2003,
        GeometryCode::MultiPointM => 2004,
        GeometryCode::MultiCurve => 11,
        GeometryCode::MultiSurface => 12,
        GeometryCode::Curve => 13,
        GeometryCode::Surface => 14,
    }
}

/// The table's type name of each geometry type.
pub open spec fn code_name(g: GeometryCode) -> Seq<char> {
    match g {
        GeometryCode::Geometry => "Geometry"@,
        GeometryCode::Point => "Point"@,
        GeometryCode::Linestring => "Linestring"@,
        GeometryCode::Polygon => "Polygon"@,
        GeometryCode::MultiPoint => "MultiPoint"@,
        GeometryCode::MultiLinestring => "MultiLinestring"@,
        GeometryCode::MultiPolygon => "MultiPolygon"@,
        GeometryCode::GeometryCollection => "GeometryCollection"@,
        GeometryCode::PointZ => "Point Z"@,
        GeometryCode::LinestringZ => "Linestring Z"@,
        GeometryCode::PolygonZ => "Polygon Z"@,
        GeometryCode::MultiPointZ => "MultiPoint Z"@,
        GeometryCode::PointM => "Point M"@,
        GeometryCode::LinestringM => "Linestring M"@,
        GeometryCode::PolygonM => "Polygon M"@,
        GeometryCode::MultiPointM => "MultiPoint M"@,
        GeometryCode::MultiCurve => "MULTICURVE"@,
        GeometryCode::MultiSurface => "MULTISURFACE"@,
        GeometryCode::Curve => "CURVE"@,
        GeometryCode::Surface => "SURFACE"@,
    }
}

/// Whether a geometry type is one of the extension codes 11–14.
pub open spec fn is_extension_code(g: GeometryCode) -> bool {
    g == GeometryCode::MultiCurve || g == GeometryCode::MultiSurface || g == GeometryCode::Curve
        || g == GeometryCode::Surface
}

impl GeometryCode {
    /// Every code of the table, in table order.
    pub const ALL: [GeometryCode; 20] = [
        GeometryCode::Geometry,
        GeometryCode::Point,
        GeometryCode::Linestring,
        GeometryCode::Polygon,
        GeometryCode::MultiPoint,
        GeometryCode::MultiLinestring,
        GeometryCode::MultiPolygon,
        GeometryCode::GeometryCollection,
        GeometryCode::PointZ,
        GeometryCode::LinestringZ,
        GeometryCode::PolygonZ,
        GeometryCode::MultiPointZ,
        GeometryCode::PointM,
        GeometryCode::LinestringM,
        GeometryCode::PolygonM,
        GeometryCode::MultiPointM,
        GeometryCode::MultiCurve,
        GeometryCode::MultiSurface,
        GeometryCode::Curve,
        GeometryCode::Surface,
    ];

    /// The numeric code.
    pub fn code(self) -> (r: u16)
        ensures
            r == code_number(self),
    {
        match self {
            GeometryCode::Geometry => 0,
            GeometryCode::Point => 1,
            GeometryCode::Linestring => 2,
            GeometryCode::Polygon => 3,
            GeometryCode::MultiPoint => 4,
            GeometryCode::MultiLinestring => 5,
            GeometryCode::MultiPolygon => 6,
            GeometryCode::GeometryCollection => 7,
            GeometryCode::PointZ => 1001,
            GeometryCode::LinestringZ => 1002,
            GeometryCode::PolygonZ => 1003,
            GeometryCode::MultiPointZ => 1004,
            GeometryCode::PointM => 2001,
            GeometryCode::LinestringM => 2002,
            GeometryCode::PolygonM => 2003,
            GeometryCode::MultiPointM => 2004,
            GeometryCode::MultiCurve => 11,
            GeometryCode::MultiSurface => 12,
            GeometryCode::Curve => 13,
            GeometryCode::Surface => 14,
        }
    }

    /// Parses a numeric code; a code outside the table violates Geom2.
    pub fn from_code(code: u16) -> (r: Result<GeometryCode, GeometryViolation>)
        ensures
            r is Ok ==> code_number(r->Ok_0) == code,
            r is Err <==> (forall|g: GeometryCode| code_number(g) != code),
            r is Err ==> r->Err_0 == (GeometryViolation::UnknownGeometryCode { code }),
    {
        let found = match code {
            0 => Some(GeometryCode::Geometry),
            1 => Some(GeometryCode::Point),
            2 => Some(GeometryCode::Linestring),
            3 => Some(GeometryCode::Polygon),
            4 => Some(GeometryCode::MultiPoint),
            5 => Some(GeometryCode::MultiLinestring),
            6 => Some(GeometryCode::MultiPolygon),
            7 => Some(GeometryCode::GeometryCollection),
            1001 => Some(GeometryCode::PointZ),
            1002 => Some(GeometryCode::LinestringZ),
            1003 => Some(GeometryCode::PolygonZ),
            1004 => Some(GeometryCode::MultiPointZ),
            2001 => Some(GeometryCode::PointM),
            2002 => Some(GeometryCode::LinestringM),
            2003 => Some(GeometryCode::PolygonM),
            2004 => Some(GeometryCode::MultiPointM),
            11 => Some(GeometryCode::MultiCurve),
            12 => Some(GeometryCode::MultiSurface),
            13 => Some(GeometryCode::Curve),
            14 => Some(GeometryCode::Surface),
            _ => None,
        };
        match found {
            Some(g) => {
                assert(code_number(g) == code);
                Ok(g)
            },
            None => Err(GeometryViolation::UnknownGeometryCode { code }),
        }
    }

    /// The table's type name.
    pub fn name(self) -> (r: &'static str)
        ensures
            r@ == code_name(self),
    {
        match self {
            GeometryCode::Geometry => "Geometry",
            GeometryCode::Point => "Point",
            GeometryCode::Linestring => "Linestring",
            GeometryCode::Polygon => "Polygon",
            GeometryCode::MultiPoint => "MultiPoint",
            GeometryCode::MultiLinestring => "MultiLinestring",
            GeometryCode::MultiPolygon => "MultiPolygon",
            GeometryCode::GeometryCollection => "GeometryCollection",
            GeometryCode::PointZ => "Point Z",
            GeometryCode::LinestringZ => "Linestring Z",
            GeometryCode::PolygonZ => "Polygon Z",
            GeometryCode::MultiPointZ => "MultiPoint Z",
            GeometryCode::PointM => "Point M",
            GeometryCode::LinestringM => "Linestring M",
            GeometryCode::PolygonM => "Polygon M",
            GeometryCode::MultiPointM => "MultiPoint M",
            GeometryCode::MultiCurve => "MULTICURVE",
            GeometryCode::MultiSurface => "MULTISURFACE",
            GeometryCode::Curve => "CURVE",
            GeometryCode::Surface => "SURFACE",
        }
    }

    /// The display text, which is the type name.
    pub fn to_string(&self) -> (r: String)
        ensures
            r@ == code_name(*self),
    {
        owned(self.name())
    }

    /// Core codes: 0–7, 1001–1004, 2001–2004.
    pub fn is_core(self) -> (r: bool)
        ensures
            r == !is_extension_code(self),
    {
        !self.is_extension()
    }

    /// Extension codes 11–14, usable only where a profile declares them.
    pub fn is_extension(self) -> (r: bool)
        ensures
            r == is_extension_code(self),
    {
        match self {
            GeometryCode::MultiCurve | GeometryCode::MultiSurface | GeometryCode::Curve
            | GeometryCode::Surface => true,
            _ => false,
        }
    }
}

/// Each geometry type reads back from its own code: the table's numbers are
/// pairwise distinct, so `from_code(g.code())` is `Ok(g)`.
pub proof fn code_number_roundtrip(a: GeometryCode, b: GeometryCode)
    ensures
        code_number(a) == code_number(b) ==> a == b,
{
}

/// Extension codes are exactly the numbers 11 to 14.
pub proof fn extension_codes_are_eleven_to_fourteen(g: GeometryCode)
    ensures
        is_extension_code(g) <==> 11 <= code_number(g) <= 14,
{
}

/// Which extra-coordinate family a length check belongs to.
#[derive(Debug, Clone, Copy, PartialEq, Eq, Structural)]
pub enum Extra {
    Z,
    M,
}

/// The outcome of a length check: one extra value per xy coordinate.
pub open spec fn check_len_spec(expected: usize, found: usize, part: Seq<char>, extra: Extra) -> Result<
    (),
    GeometryViolationModel,
> {
    if expected == found {
        Ok(())
    } else {
        match extra {
            Extra::Z => Err(GeometryViolationModel::ZLengthMismatch { expected, found, part }),
            Extra::M => Err(GeometryViolationModel::MLengthMismatch { expected, found, part }),
        }
    }
}

/// The model of a geometry check's outcome.
pub open spec fn geometry_result(r: Result<(), GeometryViolation>) -> Result<(), GeometryViolationModel> {
    match r {
        Ok(()) => Ok(()),
        Err(v) => Err(v@),
    }
}

/// Checks that a geometry part carries exactly one extra value per xy
/// coordinate; `part` names the offending ring or coordinate list.
pub fn check_len(expected: usize, found: usize, part: &str, extra: Extra) -> (r: Result<
    (),
    GeometryViolation,
>)
    ensures
        geometry_result(r) == check_len_spec(expected, found, part@, extra),
{
    if expected == found {
        return Ok(());
    }
    let part = owned(part);
    Err(
        match extra {
            Extra::Z => GeometryViolation::ZLengthMismatch { expected, found, part },
            Extra::M => GeometryViolation::MLengthMismatch { expected, found, part },
        },
    )
}

/// The first interior ring from `i` on whose extra-value count differs.
pub open spec fn first_ring_mismatch(rings: Seq<usize>, extras: Seq<usize>, i: int) -> Option<int>
    decreases rings.len() - i,
{
    if i < 0 || i >= rings.len() || i >= extras.len() {
        None
    } else if rings[i] != extras[i] {
        Some(i)
    } else {
        first_ring_mismatch(rings, extras, i + 1)
    }
}

/// The per-ring length rule of a polygon: the interior ring count first,
/// then the exterior ring, then each interior ring in order.
pub open spec fn polygon_check(
    exterior: usize,
    rings: Seq<usize>,
    extra_exterior: usize,
    extra_rings: Seq<usize>,
    extra: Extra,
) -> Result<(), GeometryViolationModel> {
    if rings.len() != extra_rings.len() {
        check_len_spec(rings.len() as usize, extra_rings.len() as usize, "interior rings"@, extra)
    } else if exterior != extra_exterior {
        check_len_spec(exterior, extra_exterior, "exterior"@, extra)
    } else {
        match first_ring_mismatch(rings, extra_rings, 0) {
            Some(i) => check_len_spec(
                rings[i],
                extra_rings[i],
                "interior "@ + crate::messages::decimal_text(i as nat),
                extra,
            ),
            None => Ok(()),
        }
    }
}

proof fn lemma_first_ring_mismatch(rings: Seq<usize>, extras: Seq<usize>, k: int)
    requires
        0 <= k <= rings.len(),
        rings.len() == extras.len(),
    ensures
        first_ring_mismatch(rings, extras, k) matches Some(m) ==> k <= m < rings.len() && rings[m]
            != extras[m],
        first_ring_mismatch(rings, extras, k) is None <==> forall|j: int|
            k <= j < rings.len() ==> #[trigger] rings[j] == extras[j],
        forall|i: int|
            k <= i < rings.len() && rings[i] != extras[i] && (forall|j: int|
                k <= j < i ==> #[trigger] rings[j] == extras[j]) ==> first_ring_mismatch(
                rings,
                extras,
                k,
            ) == Some(i),
    decreases rings.len() - k,
{
    if k < rings.len() {
        lemma_first_ring_mismatch(rings, extras, k + 1);
        assert forall|i: int|
            k <= i < rings.len() && rings[i] != extras[i] && (forall|j: int|
                k <= j < i ==> #[trigger] rings[j] == extras[j]) implies first_ring_mismatch(
                rings,
                extras,
                k,
            ) == Some(i) by {
            if i > k {
                assert(rings[k] == extras[k]);
            }
        }
    }
}

/// A polygon passes exactly when every ring, the exterior and each
/// interior ring, carries one extra value per coordinate; when the ring
/// counts and the exterior agree, the first interior ring that does not is
/// reported, by its index, with its coordinate count as expected and its
/// extra-value count as found.
pub proof fn polygon_passes_iff_every_ring_matches(
    exterior: usize,
    rings: Seq<usize>,
    extra_exterior: usize,
    extra_rings: Seq<usize>,
    extra: Extra,
    i: int,
)
    requires
        rings.len() <= usize::MAX,
        extra_rings.len() <= usize::MAX,
    ensures
        polygon_check(exterior, rings, extra_exterior, extra_rings, extra) is Ok <==> {
            &&& exterior == extra_exterior
            &&& rings.len() == extra_rings.len()
            &&& forall|j: int| 0 <= j < rings.len() ==> #[trigger] rings[j] == extra_rings[j]
        },
        rings.len() != extra_rings.len() ==> polygon_check(
            exterior,
            rings,
            extra_exterior,
            extra_rings,
            extra,
        ) == check_len_spec(rings.len() as usize, extra_rings.len() as usize, "interior rings"@, extra)
            && check_len_spec(rings.len() as usize, extra_rings.len() as usize, "interior rings"@, extra) is Err,
        rings.len() == extra_rings.len() && exterior != extra_exterior ==> polygon_check(
            exterior,
            rings,
            extra_exterior,
            extra_rings,
            extra,
        ) == Err::<(), GeometryViolationModel>(
            match extra {
                Extra::Z => GeometryViolationModel::ZLengthMismatch {
                    expected: exterior,
                    found: extra_exterior,
                    part: "exterior"@,
                },
                Extra::M => GeometryViolationModel::MLengthMismatch {
                    expected: exterior,
                    found: extra_exterior,
                    part: "exterior"@,
                },
            },
        ),
        ({
            &&& exterior == extra_exterior
            &&& rings.len() == extra_rings.len()
            &&& 0 <= i < rings.len()
            &&& rings[i] != extra_rings[i]
            &&& forall|j: int| 0 <= j < i ==> #[trigger] rings[j] == extra_rings[j]
        }) ==> polygon_check(exterior, rings, extra_exterior, extra_rings, extra) == Err::<
            (),
            GeometryViolationModel,
        >(
            match extra {
                Extra::Z => GeometryViolationModel::ZLengthMismatch {
                    expected: rings[i],
                    found: extra_rings[i],
                    part: "interior "@ + crate::messages::decimal_text(i as nat),
                },
                Extra::M => GeometryViolationModel::MLengthMismatch {
                    expected: rings[i],
                    found: extra_rings[i],
                    part: "interior "@ + crate::messages::decimal_text(i as nat),
                },
            },
        ),
{
    if rings.len() == extra_rings.len() {
        lemma_first_ring_mismatch(rings, extra_rings, 0);
        if exterior == extra_exterior {
            match first_ring_mismatch(rings, extra_rings, 0) {
                Some(m) => {},
                None => {},
            }
        }
    }
}

/// Checks that a polygon carries one extra value per coordinate of each
/// ring, given the ring lengths and the extra-value list lengths.
pub fn check_polygon(
    exterior: usize,
    rings: &[usize],
    extra_exterior: usize,
    extra_rings: &[usize],
    extra: Extra,
) -> (r: Result<(), GeometryViolation>)
    ensures
        geometry_result(r) == polygon_check(exterior, rings@, extra_exterior, extra_rings@, extra),
{
    if rings.len() != extra_rings.len() {
        return check_len(rings.len(), extra_rings.len(), "interior rings", extra);
    }
    if exterior != extra_exterior {
        return check_len(exterior, extra_exterior, "exterior", extra);
    }
    let mut i: usize = 0;
    while i < rings.len()
        invariant
            0 <= i <= rings@.len(),
            rings@.len() == extra_rings@.len(),
            exterior == extra_exterior,
            first_ring_mismatch(rings@, extra_rings@, 0) == first_ring_mismatch(
                rings@,
                extra_rings@,
                i as int,
            ),
        decreases rings@.len() - i,
    {
        if rings[i] != extra_rings[i] {
            let mut part = owned("interior ");
            let n = crate::messages::decimal(i as u64);
            push_str(&mut part, n.as_str());
            assert(first_ring_mismatch(rings@, extra_rings@, i as int) == Some(i as int));
            return check_len(rings[i], extra_rings[i], part.as_str(), extra);
        }
        i += 1;
    }
    Ok(())
}

/// The datastore facts a geometry is validated against: the datastore CRS
/// identity, the global z unit (Geom3) and the dataset m unit (Geom4).
#[derive(Debug, Clone)]
pub struct GeometryContext {
    datastore_crs: Option<(String, String)>,
    z_uom: Option<UnitOfMeasure>,
    m_uom: Option<UnitOfMeasure>,
}

/// `authority:code` as written in a violation.
pub open spec fn id_text(id: (Seq<char>, Seq<char>)) -> Seq<char> {
    id.0 + ":"@ + id.1
}

/// The model of an optional `(authority, code)` pair.
pub open spec fn id_model(id: Option<(String, String)>) -> Option<(Seq<char>, Seq<char>)> {
    match id {
        Some(p) => Some((p.0@, p.1@)),
        None => None,
    }
}

/// The outcome of validating a geometry with the given z and m content and
/// CRS claim: the CRS check first, then z, then m.
pub open spec fn geometry_check(
    datastore: Option<(Seq<char>, Seq<char>)>,
    z_uom: Option<UnitOfMeasure>,
    m_uom: Option<UnitOfMeasure>,
    has_z: bool,
    has_m: bool,
    claim: Option<(Seq<char>, Seq<char>)>,
) -> Result<(), GeometryViolationModel> {
    if claim is Some && !(datastore is Some && same_authority_id(datastore->0, claim->0)) {
        Err(
            GeometryViolationModel::ForeignCrs {
                declared: id_text(claim->0),
                datastore: match datastore {
                    Some(d) => id_text(d),
                    None => "unidentified"@,
                },
            },
        )
    } else if has_z && z_uom is None {
        Err(GeometryViolationModel::MissingZUom)
    } else if has_m && m_uom is None {
        Err(GeometryViolationModel::MissingMUom)
    } else {
        Ok(())
    }
}

/// `authority:code`.
fn join_id(id: &(String, String)) -> (r: String)
    ensures
        r@ == id_text((id.0@, id.1@)),
{
    let mut out = id.0.clone();
    push_str(&mut out, ":");
    push_str(&mut out, id.1.as_str());
    proof {
        reveal_strlit(":");
    }
    out
}

impl GeometryContext {
    /// The datastore CRS identity.
    pub closed spec fn crs(&self) -> Option<(Seq<char>, Seq<char>)> {
        id_model(self.datastore_crs)
    }

    /// The declared z unit of measure.
    pub closed spec fn z(&self) -> Option<UnitOfMeasure> {
        self.z_uom
    }

    /// The declared m unit of measure.
    pub closed spec fn m(&self) -> Option<UnitOfMeasure> {
        self.m_uom
    }

    /// A context from explicit parts; each is optional.
    pub fn new(
        datastore_crs: Option<(String, String)>,
        z_uom: Option<UnitOfMeasure>,
        m_uom: Option<UnitOfMeasure>,
    ) -> (c: GeometryContext)
        ensures
            c.crs() == id_model(datastore_crs),
            c.z() == z_uom,
            c.m() == m_uom,
    {
        GeometryContext { datastore_crs, z_uom, m_uom }
    }

    /// Validates a geometry's units and CRS association against this
    /// context, returning the first violation (CRS, then z, then m). A
    /// `claim` must provably name the datastore CRS; `None` means the
    /// geometry is associated with the datastore CRS.
    pub fn check_geometry(&self, has_z: bool, has_m: bool, claim: Option<&(String, String)>) -> (r:
        Result<(), GeometryViolation>)
        ensures
            geometry_result(r) == geometry_check(
                self.crs(),
                self.z(),
                self.m(),
                has_z,
                has_m,
                match claim {
                    Some(p) => Some((p.0@, p.1@)),
                    None => None,
                },
            ),
    {
        if let Some(claim) = claim {
            let matched = match &self.datastore_crs {
                Some(ds) => authority_ids_match(ds, claim),
                None => false,
            };
            if !matched {
                let datastore = match &self.datastore_crs {
                    Some(d) => join_id(d),
                    None => owned("unidentified"),
                };
                return Err(GeometryViolation::ForeignCrs { declared: join_id(claim), datastore });
            }
        }
        if has_z && self.z_uom.is_none() {
            return Err(GeometryViolation::MissingZUom);
        }
        if has_m && self.m_uom.is_none() {
            return Err(GeometryViolation::MissingMUom);
        }
        Ok(())
    }
}

} // verus!
