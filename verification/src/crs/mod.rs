//! The coordinate reference system requirements module
//! (`/req/core/data-representation`): its violations and warnings, the
//! identity test on `(authority, code)` pairs, and the WKT-2 reader in
//! [`wkt2`].

pub mod canonical;
pub mod wkt2;

use vstd::prelude::*;
use crate::text::{eq_fold, eq_ignore_ascii_case, owned, push_str, str_eq};
use wkt2::{
    child_models, classify, crs_kinds_are_named_by_their_keywords, is_crs_node, kind_of,
    node_model, CrsKind, CrsKindModel, WktNode, WktNodeModel,
};

verus! {

/// File holding the storage CRS in `global_metadata/` (Requirement CRS5).
pub const CRS_FILE_NAME: &'static str = "crs.wkt";

/// A violation of a SHALL requirement in the CRS module.
#[allow(inconsistent_fields)]
#[derive(Debug, Clone, PartialEq, Eq)]
pub enum CrsViolation {
    /// Malformed WKT-2; `position` is a byte offset into the input.
    InvalidWkt { position: usize, reason: String },
    NotACrs { keyword: String },
    NonGeodeticStorageCrs { kind: CrsKind },
    CompoundHorizontalNotGeodetic { kind: CrsKind },
    InconsistentCoordinateUnits { component: String, first: String, second: String },
    MissingEpoch,
    InvalidEpoch { value: String, reason: &'static str },
    CrsAlreadyDefined { existing: String },
    NotAVerticalCrs { keyword: String },
    /// No CRS metadata at the searched path.
    MissingCrsMetadata { searched: String },
}

/// The mathematical content of a [`CrsViolation`].
pub enum CrsViolationModel {
    InvalidWkt { position: usize, reason: Seq<char> },
    NotACrs { keyword: Seq<char> },
    NonGeodeticStorageCrs { kind: CrsKindModel },
    CompoundHorizontalNotGeodetic { kind: CrsKindModel },
    InconsistentCoordinateUnits { component: Seq<char>, first: Seq<char>, second: Seq<char> },
    MissingEpoch,
    InvalidEpoch { value: Seq<char>, reason: Seq<char> },
    CrsAlreadyDefined { existing: Seq<char> },
    NotAVerticalCrs { keyword: Seq<char> },
    MissingCrsMetadata { searched: Seq<char> },
}

impl View for CrsViolation {
    type V = CrsViolationModel;

    open spec fn view(&self) -> CrsViolationModel {
        match self {
            CrsViolation::InvalidWkt { position, reason } => CrsViolationModel::InvalidWkt {
                position: *position,
                reason: reason@,
            },
            CrsViolation::NotACrs { keyword } => CrsViolationModel::NotACrs { keyword: keyword@ },
            CrsViolation::NonGeodeticStorageCrs { kind } =>
                CrsViolationModel::NonGeodeticStorageCrs { kind: kind@ },
            CrsViolation::CompoundHorizontalNotGeodetic { kind } =>
                CrsViolationModel::CompoundHorizontalNotGeodetic { kind: kind@ },
            CrsViolation::InconsistentCoordinateUnits { component, first, second } =>
                CrsViolationModel::InconsistentCoordinateUnits {
                    component: component@,
                    first: first@,
                    second: second@,
                },
            CrsViolation::MissingEpoch => CrsViolationModel::MissingEpoch,
            CrsViolation::InvalidEpoch { value, reason } => CrsViolationModel::InvalidEpoch {
                value: value@,
                reason: reason@,
            },
            CrsViolation::CrsAlreadyDefined { existing } =>
                CrsViolationModel::CrsAlreadyDefined { existing: existing@ },
            CrsViolation::NotAVerticalCrs { keyword } => CrsViolationModel::NotAVerticalCrs {
                keyword: keyword@,
            },
            CrsViolation::MissingCrsMetadata { searched } =>
                CrsViolationModel::MissingCrsMetadata { searched: searched@ },
        }
    }
}

/// A finding against a SHOULD recommendation of the CRS module.
#[derive(Debug, Clone, PartialEq, Eq)]
pub enum CrsWarning {
    /// WGS-84 (EPSG:4326/4979) is recommended for backwards compatibility.
    NotWgs84 { found: String },
}

/// The mathematical content of a [`CrsWarning`].
pub enum CrsWarningModel {
    NotWgs84 { found: Seq<char> },
}

impl View for CrsWarning {
    type V = CrsWarningModel;

    open spec fn view(&self) -> CrsWarningModel {
        match self {
            CrsWarning::NotWgs84 { found } => CrsWarningModel::NotWgs84 { found: found@ },
        }
    }
}

/// Operational errors for CRS metadata I/O.
#[derive(Debug)]
pub enum CrsError {
    Violation(CrsViolation),
    Io(std::io::Error),
}

impl From<CrsViolation> for CrsError {
    fn from(violation: CrsViolation) -> (r: CrsError)
        ensures
            r == CrsError::Violation(violation),
    {
        CrsError::Violation(violation)
    }
}

impl vstd::std_specs::convert::FromSpecImpl<CrsViolation> for CrsError {
    open spec fn obeys_from_spec() -> bool {
        true
    }

    open spec fn from_spec(violation: CrsViolation) -> CrsError {
        CrsError::Violation(violation)
    }
}

/// Whether two `(authority, code)` identifiers name the same CRS: both
/// parts compared ASCII case-insensitively.
pub open spec fn same_authority_id(a: (Seq<char>, Seq<char>), b: (Seq<char>, Seq<char>)) -> bool {
    eq_fold(a.0, b.0) && eq_fold(a.1, b.1)
}

/// Whether two `(authority, code)` identifiers name the same CRS.
pub fn authority_ids_match(a: &(String, String), b: &(String, String)) -> (r: bool)
    ensures
        r == same_authority_id((a.0@, a.1@), (b.0@, b.1@)),
{
    eq_ignore_ascii_case(a.0.as_str(), b.0.as_str()) && eq_ignore_ascii_case(
        a.1.as_str(),
        b.1.as_str(),
    )
}

// ---------------------------------------------------------------------------
// The storage CRS rules that need no arithmetic

/// The CRS a definition declares: the first child of a
/// `COORDINATEMETADATA` wrapper, or the definition itself.
pub open spec fn declared_crs(n: WktNodeModel) -> Result<WktNodeModel, CrsViolationModel> {
    if n.keyword == "COORDINATEMETADATA"@ {
        let children = child_models(n.arguments);
        if children.len() == 0 {
            Err(CrsViolationModel::NotACrs { keyword: "COORDINATEMETADATA"@ })
        } else {
            Ok(children[0])
        }
    } else {
        Ok(n)
    }
}

/// The CRS a parsed definition declares, unwrapping `COORDINATEMETADATA`.
pub fn unwrap_coordinate_metadata(parsed: &WktNode) -> (r: Result<&WktNode, CrsViolation>)
    ensures
        match (r, declared_crs(node_model(*parsed))) {
            (Ok(n), Ok(m)) => node_model(*n) == m,
            (Err(v), Err(m)) => v@ == m,
            _ => false,
        },
{
    if str_eq(parsed.keyword.as_str(), "COORDINATEMETADATA") {
        let children = parsed.child_nodes();
        if children.len() == 0 {
            assert(child_models(node_model(*parsed).arguments) =~= children@.map_values(
                |c: &WktNode| node_model(*c),
            ));
            return Err(CrsViolation::NotACrs { keyword: owned("COORDINATEMETADATA") });
        }
        let first = children[0];
        proof {
            assert(children@.map_values(|c: &WktNode| node_model(*c))[0] == node_model(*first));
        }
        Ok(first)
    } else {
        Ok(parsed)
    }
}

/// The member CRSs among a compound CRS's children, in order.
pub open spec fn crs_members(children: Seq<WktNodeModel>) -> Seq<WktNodeModel>
    decreases children.len(),
{
    if children.len() == 0 {
        Seq::empty()
    } else if kind_of(children.last().keyword) is Other {
        crs_members(children.drop_last())
    } else {
        crs_members(children.drop_last()).push(children.last())
    }
}

/// A member kind a storage CRS may not hold.
pub open spec fn forbidden_member(k: CrsKindModel) -> bool {
    k is Projected || k is Engineering || k is Compound
}

/// The kind of the first forbidden member from `i` on.
pub open spec fn first_forbidden(members: Seq<WktNodeModel>, i: int) -> Option<CrsKindModel>
    decreases members.len() - i,
{
    if i < 0 || i >= members.len() {
        None
    } else if forbidden_member(kind_of(members[i].keyword)) {
        Some(kind_of(members[i].keyword))
    } else {
        first_forbidden(members, i + 1)
    }
}

/// Requirement CRS4 on a storage CRS: geodetic or geographic, or compound
/// with a geodetic or geographic first member and no projected,
/// engineering or compound member. The result is the components whose
/// units and epochs are checked next.
pub open spec fn storage_components_spec(root: WktNodeModel) -> Result<Seq<WktNodeModel>, CrsViolationModel> {
    let kind = kind_of(root.keyword);
    match kind {
        CrsKindModel::Geodetic | CrsKindModel::Geographic => Ok(seq![root]),
        CrsKindModel::Compound => {
            let members = crs_members(child_models(root.arguments));
            if members.len() == 0 {
                Err(CrsViolationModel::NotACrs { keyword: "COMPOUNDCRS"@ })
            } else {
                let first = kind_of(members[0].keyword);
                if !(first is Geodetic || first is Geographic) {
                    Err(CrsViolationModel::CompoundHorizontalNotGeodetic { kind: first })
                } else {
                    match first_forbidden(members, 0) {
                        Some(k) => Err(CrsViolationModel::NonGeodeticStorageCrs { kind: k }),
                        None => Ok(members),
                    }
                }
            }
        },
        CrsKindModel::Other(k) => Err(CrsViolationModel::NotACrs { keyword: k }),
        _ => Err(CrsViolationModel::NonGeodeticStorageCrs { kind }),
    }
}

/// Whether a keyword names a geodetic or a geographic CRS.
pub open spec fn geodetic_keyword(k: Seq<char>) -> bool {
    k == "GEODCRS"@ || k == "GEODETICCRS"@ || k == "GEOGCRS"@ || k == "GEOGRAPHICCRS"@
}

/// Requirement CRS4: a projected, engineering or vertical CRS is never a
/// storage CRS, and is refused as a non-geodetic storage CRS of its kind.
/// A storage CRS is accepted only when it is geodetic or geographic (its
/// only component is itself) or a compound CRS whose first member is
/// geodetic or geographic.
pub proof fn storage_crs_is_geodetic(root: WktNodeModel)
    ensures
        (root.keyword == "PROJCRS"@ || root.keyword == "PROJECTEDCRS"@) ==> storage_components_spec(
            root,
        ) == Err::<Seq<WktNodeModel>, CrsViolationModel>(
            CrsViolationModel::NonGeodeticStorageCrs { kind: CrsKindModel::Projected },
        ),
        (root.keyword == "ENGCRS"@ || root.keyword == "ENGINEERINGCRS"@) ==> storage_components_spec(
            root,
        ) == Err::<Seq<WktNodeModel>, CrsViolationModel>(
            CrsViolationModel::NonGeodeticStorageCrs { kind: CrsKindModel::Engineering },
        ),
        (root.keyword == "VERTCRS"@ || root.keyword == "VERTICALCRS"@) ==> storage_components_spec(
            root,
        ) == Err::<Seq<WktNodeModel>, CrsViolationModel>(
            CrsViolationModel::NonGeodeticStorageCrs { kind: CrsKindModel::Vertical },
        ),
        storage_components_spec(root) matches Ok(ms) ==> {
            &&& ms.len() > 0
            &&& geodetic_keyword(ms[0].keyword)
            &&& (geodetic_keyword(root.keyword) && ms == seq![root]) || root.keyword
                == "COMPOUNDCRS"@
            &&& forall|j: int|
                0 <= j < ms.len() ==> !forbidden_keyword(#[trigger] ms[j].keyword)
        },
{
    crs_kinds_are_named_by_their_keywords(root.keyword);
    match storage_components_spec(root) {
        Ok(ms) => {
            crs_kinds_are_named_by_their_keywords(ms[0].keyword);
            if root.keyword == "COMPOUNDCRS"@ {
                lemma_first_forbidden_none(ms, 0);
            }
            assert forall|j: int| 0 <= j < ms.len() implies !forbidden_keyword(
                #[trigger] ms[j].keyword,
            ) by {
                crs_kinds_are_named_by_their_keywords(ms[j].keyword);
            }
        },
        Err(_) => {},
    }
}

/// Whether a keyword names a projected, an engineering or a compound CRS,
/// none of which may be a member of a storage CRS.
pub open spec fn forbidden_keyword(k: Seq<char>) -> bool {
    k == "PROJCRS"@ || k == "PROJECTEDCRS"@ || k == "ENGCRS"@ || k == "ENGINEERINGCRS"@ || k
        == "COMPOUNDCRS"@
}

proof fn lemma_first_forbidden_none(members: Seq<WktNodeModel>, i: int)
    requires
        0 <= i,
    ensures
        first_forbidden(members, i) is None ==> forall|j: int|
            i <= j < members.len() ==> !forbidden_member(kind_of(#[trigger] members[j].keyword)),
    decreases members.len() - i,
{
    if i < members.len() {
        lemma_first_forbidden_none(members, i + 1);
    }
}

/// Applies Requirement CRS4 to a storage CRS, returning its components.
pub fn storage_components(root: &WktNode) -> (r: Result<Vec<&WktNode>, CrsViolation>)
    ensures
        match (r, storage_components_spec(node_model(*root))) {
            (Ok(cs), Ok(ms)) => cs@.map_values(|c: &WktNode| node_model(*c)) == ms,
            (Err(v), Err(m)) => v@ == m,
            _ => false,
        },
{
    let kind = classify(root);
    match kind {
        CrsKind::Geodetic | CrsKind::Geographic => {
            let mut v: Vec<&WktNode> = Vec::new();
            v.push(root);
            assert(v@.map_values(|c: &WktNode| node_model(*c)) =~= seq![node_model(*root)]);
            Ok(v)
        },
        CrsKind::Compound => {
            let children = root.child_nodes();
            let ghost cm = children@.map_values(|c: &WktNode| node_model(*c));
            let mut members: Vec<&WktNode> = Vec::new();
            let mut i: usize = 0;
            while i < children.len()
                invariant
                    0 <= i <= children@.len(),
                    cm == children@.map_values(|c: &WktNode| node_model(*c)),
                    members@.map_values(|c: &WktNode| node_model(*c)) == crs_members(
                        cm.take(i as int),
                    ),
                decreases children@.len() - i,
            {
                proof {
                    assert(cm.take(i + 1).drop_last() =~= cm.take(i as int));
                    assert(cm.take(i + 1).last() == node_model(*children@[i as int]));
                }
                let ghost before = members@;
                if is_crs_node(children[i]) {
                    members.push(children[i]);
                    proof {
                        assert(members@.map_values(|c: &WktNode| node_model(*c)) =~= before.map_values(
                            |c: &WktNode| node_model(*c),
                        ).push(node_model(*children@[i as int])));
                    }
                }
                i += 1;
            }
            proof {
                assert(cm.take(i as int) =~= cm);
            }
            let ghost mm = members@.map_values(|c: &WktNode| node_model(*c));
            if members.len() == 0 {
                return Err(CrsViolation::NotACrs { keyword: owned("COMPOUNDCRS") });
            }
            let first = classify(members[0]);
            assert(mm[0] == node_model(*members@[0]));
            match first {
                CrsKind::Geodetic | CrsKind::Geographic => {},
                _ => {
                    return Err(CrsViolation::CompoundHorizontalNotGeodetic { kind: first });
                },
            }
            let mut k: usize = 0;
            while k < members.len()
                invariant
                    0 <= k <= members@.len(),
                    mm == members@.map_values(|c: &WktNode| node_model(*c)),
                    first_forbidden(mm, 0) == first_forbidden(mm, k as int),
                    mm == crs_members(child_models(node_model(*root).arguments)),
                    kind_of(node_model(*root).keyword) is Compound,
                    mm.len() > 0,
                    kind_of(mm[0].keyword) is Geodetic || kind_of(mm[0].keyword) is Geographic,
                decreases members@.len() - k,
            {
                let member_kind = classify(members[k]);
                assert(mm[k as int] == node_model(*members@[k as int]));
                match member_kind {
                    CrsKind::Projected | CrsKind::Engineering | CrsKind::Compound => {
                        return Err(CrsViolation::NonGeodeticStorageCrs { kind: member_kind });
                    },
                    _ => {},
                }
                k += 1;
            }
            Ok(members)
        },
        CrsKind::Other(keyword) => Err(CrsViolation::NotACrs { keyword }),
        other => Err(CrsViolation::NonGeodeticStorageCrs { kind: other }),
    }
}

/// Requirement CRS7: a dynamic reference frame needs an epoch, either the
/// datastore's or a frame epoch in the definition.
pub fn check_epoch(dynamic: bool, has_epoch: bool, has_frame_epoch: bool) -> (r: Result<
    (),
    CrsViolation,
>)
    ensures
        r is Err <==> dynamic && !has_epoch && !has_frame_epoch,
        r is Err ==> r->Err_0 == CrsViolation::MissingEpoch,
{
    if dynamic && !has_epoch && !has_frame_epoch {
        Err(CrsViolation::MissingEpoch)
    } else {
        Ok(())
    }
}

/// The SHOULD finding on a storage CRS identified by `authority` (or, when
/// it has none, named `name`): WGS-84 (EPSG:4326 or EPSG:4979) is
/// recommended.
pub open spec fn crs_warnings_spec(authority: Option<(Seq<char>, Seq<char>)>, name: Seq<char>) -> Seq<
    CrsWarningModel,
> {
    match authority {
        Some((a, c)) => if eq_fold(a, "EPSG"@) && (c == "4326"@ || c == "4979"@) {
            Seq::empty()
        } else {
            seq![CrsWarningModel::NotWgs84 { found: a + ":"@ + c }]
        },
        None => seq![CrsWarningModel::NotWgs84 { found: name }],
    }
}

/// The SHOULD findings on a storage CRS from its identifier or name.
pub fn crs_warnings(authority: Option<&(String, String)>, name: Option<&str>) -> (r: Vec<CrsWarning>)
    ensures
        r@.map_values(|w: CrsWarning| w@) == crs_warnings_spec(
            match authority {
                Some(p) => Some((p.0@, p.1@)),
                None => None,
            },
            match name {
                Some(n) => n@,
                None => Seq::empty(),
            },
        ),
{
    let mut out: Vec<CrsWarning> = Vec::new();
    match authority {
        Some(pair) => {
            if eq_ignore_ascii_case(pair.0.as_str(), "EPSG") && (str_eq(pair.1.as_str(), "4326")
                || str_eq(pair.1.as_str(), "4979")) {
                assert(out@.map_values(|w: CrsWarning| w@) =~= Seq::<CrsWarningModel>::empty());
                return out;
            }
            let mut found = pair.0.clone();
            push_str(&mut found, ":");
            push_str(&mut found, pair.1.as_str());
            out.push(CrsWarning::NotWgs84 { found });
        },
        None => {
            let found = match name {
                Some(n) => owned(n),
                None => String::new(),
            };
            out.push(CrsWarning::NotWgs84 { found });
        },
    }
    assert(out@.map_values(|w: CrsWarning| w@) =~= seq![out@[0]@]);
    out
}

} // verus!
