//! The file hierarchy structure requirements class (`/req/core/file-system`):
//! the datastore root, logical paths under it, the `global_metadata`
//! folder, and the findings of a hierarchy check. Paths are held as text;
//! reading the disk is the caller's part, which hands the facts it found to
//! the functions here.

use vstd::prelude::*;
use crate::naming::{
    naming_result, path_spec, relative, validate_component, validate_path, NamingViolation,
    NamingViolationModel, component_spec,
};
use crate::text::{chars_of, eq_fold, owned, push_str, string_from};
use crate::naming::guard_eq;

verus! {

/// Folder at the datastore root holding all global metadata (File6).
pub const GLOBAL_METADATA_DIR: &'static str = "global_metadata";

/// Recommended name of the root folder (RFile1).
pub const RECOMMENDED_ROOT_NAME: &'static str = "cdb";

/// Operational errors raised while creating, opening, or resolving paths in
/// a datastore hierarchy.
#[derive(Debug)]
pub enum HierarchyError {
    /// The datastore root does not exist.
    RootMissing(String),
    /// The datastore root is not a directory.
    RootNotADirectory(String),
    Naming(NamingViolation),
    Io(std::io::Error),
}

impl From<NamingViolation> for HierarchyError {
    fn from(violation: NamingViolation) -> (r: HierarchyError)
        ensures
            r == HierarchyError::Naming(violation),
    {
        HierarchyError::Naming(violation)
    }
}

impl vstd::std_specs::convert::FromSpecImpl<NamingViolation> for HierarchyError {
    open spec fn obeys_from_spec() -> bool {
        true
    }

    open spec fn from_spec(violation: NamingViolation) -> HierarchyError {
        HierarchyError::Naming(violation)
    }
}

/// A violation of a SHALL requirement found by a hierarchy check.
#[derive(Debug, Clone, PartialEq, Eq)]
pub enum HierarchyViolation {
    /// Requirement File6: `global_metadata` must exist at the root.
    MissingGlobalMetadata { root: String },
}

/// The mathematical content of a [`HierarchyViolation`].
pub enum HierarchyViolationModel {
    MissingGlobalMetadata { root: Seq<char> },
}

impl View for HierarchyViolation {
    type V = HierarchyViolationModel;

    open spec fn view(&self) -> HierarchyViolationModel {
        match self {
            HierarchyViolation::MissingGlobalMetadata { root } =>
                HierarchyViolationModel::MissingGlobalMetadata { root: root@ },
        }
    }
}

/// A finding against a SHOULD recommendation.
#[derive(Debug, Clone, PartialEq, Eq)]
pub enum HierarchyWarning {
    /// Recommendation Name4: empty folders should be avoided.
    EmptyFolder(String),
    /// Recommendation RFile1: the root should be named `cdb`.
    RootNameNotCdb { name: String },
}

/// The mathematical content of a [`HierarchyWarning`].
pub enum HierarchyWarningModel {
    EmptyFolder(Seq<char>),
    RootNameNotCdb { name: Seq<char> },
}

impl View for HierarchyWarning {
    type V = HierarchyWarningModel;

    open spec fn view(&self) -> HierarchyWarningModel {
        match self {
            HierarchyWarning::EmptyFolder(p) => HierarchyWarningModel::EmptyFolder(p@),
            HierarchyWarning::RootNameNotCdb { name } => HierarchyWarningModel::RootNameNotCdb {
                name: name@,
            },
        }
    }
}

/// Findings from checking a datastore hierarchy.
#[derive(Debug)]
pub struct HierarchyReport {
    pub violations: Vec<HierarchyViolation>,
    pub warnings: Vec<HierarchyWarning>,
}

impl Default for HierarchyReport {
    fn default() -> (r: HierarchyReport)
        ensures
            r.violations@.len() == 0,
            r.warnings@.len() == 0,
    {
        HierarchyReport { violations: Vec::new(), warnings: Vec::new() }
    }
}

/// The logical root of any CDB hierarchy (File5).
pub fn logical_root() -> (r: &'static str)
    ensures
        r@ == seq!['/'],
{
    proof {
        reveal_strlit("/");
    }
    "/"
}

/// `path` without one leading `/`, as a position into its characters.
fn relative_start(v: &Vec<char>) -> (r: usize)
    ensures
        r <= v@.len(),
        v@.subrange(r as int, v@.len() as int) == relative(v@),
{
    if v.len() > 0 && v[0] == '/' {
        proof {
            assert(v@.subrange(1, v@.len() as int) =~= v@.drop_first());
        }
        1
    } else {
        proof {
            assert(v@.subrange(0, v@.len() as int) =~= v@);
        }
        0
    }
}

/// The model of a logical-path result.
pub open spec fn path_result(r: Result<String, NamingViolation>) -> Result<Seq<char>, NamingViolationModel> {
    match r {
        Ok(p) => Ok(p@),
        Err(e) => Err(e@),
    }
}

/// The logical form of a valid datastore-relative path: it always begins
/// with exactly one `/`.
pub open spec fn logical_path_spec(path: Seq<char>) -> Result<Seq<char>, NamingViolationModel> {
    match path_spec(path) {
        Err(e) => Err(e),
        Ok(()) => Ok(seq!['/'] + relative(path)),
    }
}

/// Normalizes a datastore-relative path to its logical form, which always
/// begins with `/` (File5). The path must pass path validation.
pub fn logical_path(path: &str) -> (r: Result<String, NamingViolation>)
    ensures
        path_result(r) == logical_path_spec(path@),
{
    match validate_path(path) {
        Err(e) => Err(e),
        Ok(()) => {
            let v = chars_of(path);
            let start = relative_start(&v);
            let rest = string_from(&v, start, v.len());
            proof {
                reveal_strlit("/");
            }
            let mut out = owned("/");
            push_str(&mut out, rest.as_str());
            assert(out@ =~= seq!['/'] + relative(path@));
            Ok(out)
        },
    }
}

/// `base` joined with a relative `rel`, one separator between them.
pub open spec fn join_path(base: Seq<char>, rel: Seq<char>) -> Seq<char> {
    if base.len() == 0 || base.last() == '/' {
        base + rel
    } else {
        base + seq!['/'] + rel
    }
}

/// Joins a relative path onto a base path, with one separator.
pub fn join(base: &str, rel: &str) -> (r: String)
    ensures
        r@ == join_path(base@, rel@),
{
    let v = chars_of(base);
    let mut out = owned(base);
    if v.len() > 0 && v[v.len() - 1] != '/' {
        push_str(&mut out, "/");
        proof {
            reveal_strlit("/");
        }
    }
    push_str(&mut out, rel);
    out
}

/// A physical CDB datastore rooted at a directory; all content is
/// reachable from the root (File2, File3).
#[derive(Debug, Clone)]
pub struct DatastoreLayout {
    root: String,
}

/// The outcome of opening a root with the given on-disk facts.
pub open spec fn open_spec(root: Seq<char>, exists: bool, is_dir: bool) -> Result<Seq<char>, HierarchyErrorModel> {
    if !exists {
        Err(HierarchyErrorModel::RootMissing(root))
    } else if !is_dir {
        Err(HierarchyErrorModel::RootNotADirectory(root))
    } else {
        Ok(root)
    }
}

/// The content of a [`HierarchyError`] that is not an I/O failure.
pub enum HierarchyErrorModel {
    RootMissing(Seq<char>),
    RootNotADirectory(Seq<char>),
    Naming(NamingViolationModel),
    Io,
}

/// The model of a [`HierarchyError`].
pub open spec fn hierarchy_error(e: HierarchyError) -> HierarchyErrorModel {
    match e {
        HierarchyError::RootMissing(p) => HierarchyErrorModel::RootMissing(p@),
        HierarchyError::RootNotADirectory(p) => HierarchyErrorModel::RootNotADirectory(p@),
        HierarchyError::Naming(n) => HierarchyErrorModel::Naming(n@),
        HierarchyError::Io(_) => HierarchyErrorModel::Io,
    }
}

/// The model of a resolved-path result.
pub open spec fn resolve_result(r: Result<String, HierarchyError>) -> Result<Seq<char>, HierarchyErrorModel> {
    match r {
        Ok(p) => Ok(p@),
        Err(e) => Err(hierarchy_error(e)),
    }
}

/// The File6 finding: a missing `global_metadata` folder.
pub open spec fn hierarchy_violations_spec(root: Seq<char>, global_metadata_is_dir: bool) -> Seq<
    HierarchyViolationModel,
> {
    if global_metadata_is_dir {
        Seq::empty()
    } else {
        seq![HierarchyViolationModel::MissingGlobalMetadata { root }]
    }
}

/// The RFile1 finding for a root with the given final name: none when the
/// name is `cdb` up to ASCII case.
pub open spec fn root_name_warning(root_name: Option<Seq<char>>) -> Seq<HierarchyWarningModel> {
    match root_name {
        Some(n) => if eq_fold(n, "cdb"@) {
            Seq::empty()
        } else {
            seq![HierarchyWarningModel::RootNameNotCdb { name: n }]
        },
        None => seq![HierarchyWarningModel::RootNameNotCdb { name: Seq::empty() }],
    }
}

impl DatastoreLayout {
    /// The root path.
    pub closed spec fn root_path(&self) -> Seq<char> {
        self.root@
    }

    /// Plans a new datastore under `parent` with the recommended root name
    /// `cdb` (RFile1); the caller creates the root and its
    /// `global_metadata` folder.
    pub fn create(parent: &str) -> (r: Result<DatastoreLayout, HierarchyError>)
        ensures
            r is Ok ==> r->Ok_0.root_path() == join_path(parent@, "cdb"@),
            r is Ok <==> component_spec("cdb"@) is Ok,
    {
        Self::create_named(parent, RECOMMENDED_ROOT_NAME)
    }

    /// Plans a new datastore under `parent` with a custom root name, which
    /// must be a valid name component; the caller creates the root and its
    /// `global_metadata` folder.
    pub fn create_named(parent: &str, root_name: &str) -> (r: Result<DatastoreLayout, HierarchyError>)
        ensures
            r is Ok <==> component_spec(root_name@) is Ok,
            r is Ok ==> r->Ok_0.root_path() == join_path(parent@, root_name@),
            r is Err ==> hierarchy_error(r->Err_0) == HierarchyErrorModel::Naming(
                component_spec(root_name@)->Err_0,
            ),
    {
        match validate_component(root_name) {
            Err(e) => Err(HierarchyError::Naming(e)),
            Ok(()) => Ok(DatastoreLayout { root: join(parent, root_name) }),
        }
    }

    /// Opens an existing datastore root, given whether the path exists and
    /// is a directory. Structural conformance is checked separately.
    pub fn open(root: &str, exists: bool, is_dir: bool) -> (r: Result<DatastoreLayout, HierarchyError>)
        ensures
            match (r, open_spec(root@, exists, is_dir)) {
                (Ok(l), Ok(p)) => l.root_path() == p,
                (Err(e), Err(m)) => hierarchy_error(e) == m,
                _ => false,
            },
    {
        if !exists {
            return Err(HierarchyError::RootMissing(owned(root)));
        }
        if !is_dir {
            return Err(HierarchyError::RootNotADirectory(owned(root)));
        }
        Ok(DatastoreLayout { root: owned(root) })
    }

    /// The root path.
    pub fn root(&self) -> (r: &str)
        ensures
            r@ == self.root_path(),
    {
        self.root.as_str()
    }

    /// The `global_metadata` folder under the root.
    pub fn global_metadata_dir(&self) -> (r: String)
        ensures
            r@ == join_path(self.root_path(), "global_metadata"@),
    {
        join(self.root.as_str(), GLOBAL_METADATA_DIR)
    }

    /// Resolves a logical path to a physical path under the root. Traversal
    /// is rejected so content cannot escape the root (File2-B).
    pub fn resolve(&self, logical: &str) -> (r: Result<String, HierarchyError>)
        ensures
            resolve_result(r) == match path_spec(logical@) {
                Err(e) => Err(HierarchyErrorModel::Naming(e)),
                Ok(()) => Ok(join_path(self.root_path(), relative(logical@))),
            },
    {
        match validate_path(logical) {
            Err(e) => Err(HierarchyError::Naming(e)),
            Ok(()) => {
                let v = chars_of(logical);
                let start = relative_start(&v);
                let rest = string_from(&v, start, v.len());
                Ok(join(self.root.as_str(), rest.as_str()))
            },
        }
    }

    /// The findings of a hierarchy check from what the caller found on
    /// disk: whether `global_metadata` is a directory, the root's final
    /// name (`None` when the root path has none), and the empty folders
    /// under the root in walk order (Name4). RFile1's root-name match is a
    /// guard, so it folds ASCII case.
    pub fn validate(
        &self,
        global_metadata_is_dir: bool,
        root_name: Option<&str>,
        empty_folders: Vec<String>,
    ) -> (r: HierarchyReport)
        ensures
            r.violations@.map_values(|v: HierarchyViolation| v@) == hierarchy_violations_spec(
                self.root_path(),
                global_metadata_is_dir,
            ),
            r.warnings@.map_values(|w: HierarchyWarning| w@) == root_name_warning(
                match root_name {
                    Some(n) => Some(n@),
                    None => None,
                },
            ) + empty_folders@.map_values(|p: String| HierarchyWarningModel::EmptyFolder(p@)),
    {
        let mut report = HierarchyReport::default();
        if !global_metadata_is_dir {
            report.violations.push(HierarchyViolation::MissingGlobalMetadata { root: self.root.clone() });
        }
        proof {
            assert(report.violations@.map_values(|v: HierarchyViolation| v@) =~= hierarchy_violations_spec(
                self.root_path(),
                global_metadata_is_dir,
            ));
        }
        let recommended = match root_name {
            Some(name) => guard_eq(name, RECOMMENDED_ROOT_NAME),
            None => false,
        };
        if !recommended {
            let name = match root_name {
                Some(n) => owned(n),
                None => String::new(),
            };
            report.warnings.push(HierarchyWarning::RootNameNotCdb { name });
        }
        let ghost head = root_name_warning(
            match root_name {
                Some(n) => Some(n@),
                None => None,
            },
        );
        proof {
            reveal_strlit("cdb");
            assert(report.warnings@.map_values(|w: HierarchyWarning| w@) =~= head);
        }
        let mut i: usize = 0;
        while i < empty_folders.len()
            invariant
                0 <= i <= empty_folders@.len(),
                report.violations@.map_values(|v: HierarchyViolation| v@)
                    == hierarchy_violations_spec(self.root_path(), global_metadata_is_dir),
                report.warnings@.map_values(|w: HierarchyWarning| w@) == head + empty_folders@.take(
                    i as int,
                ).map_values(|p: String| HierarchyWarningModel::EmptyFolder(p@)),
            decreases empty_folders@.len() - i,
        {
            let ghost before = report.warnings@;
            report.warnings.push(HierarchyWarning::EmptyFolder(empty_folders[i].clone()));
            proof {
                assert(empty_folders@.take(i + 1) =~= empty_folders@.take(i as int).push(
                    empty_folders@[i as int],
                ));
                assert(report.warnings@.map_values(|w: HierarchyWarning| w@) =~= before.map_values(
                    |w: HierarchyWarning| w@,
                ).push(HierarchyWarningModel::EmptyFolder(empty_folders@[i as int]@)));
                assert(empty_folders@.take(i + 1).map_values(
                    |p: String| HierarchyWarningModel::EmptyFolder(p@),
                ) =~= empty_folders@.take(i as int).map_values(
                    |p: String| HierarchyWarningModel::EmptyFolder(p@),
                ).push(HierarchyWarningModel::EmptyFolder(empty_folders@[i as int]@)));
            }
            i += 1;
        }
        proof {
            assert(empty_folders@.take(i as int) =~= empty_folders@);
        }
        report
    }
}

} // verus!
