//! The datastore handle: a datastore rooted at a directory, addressed by
//! logical paths. Reading and writing records is the caller's part.

use vstd::prelude::*;
use crate::error::CdbError;
use crate::hierarchy::{
    hierarchy_error, join_path, open_spec, DatastoreLayout, HierarchyError, HierarchyErrorModel,
};
use crate::naming::{path_spec, relative, split_ext, split_extension};
use crate::attribution::{
    file_name_spec, file_name_for, model_verdict, AttributeModel, AttributionError,
    AttributionViolationModel,
};
use crate::metadata::{
    check_builder, encoding_text, extension_encoding, extension_encoding_spec, first_empty,
    tag_fault, BuilderElements, LanguageTag, MetadataEncoding, MetadataError, MetadataViolation,
    MetadataViolationModel, ResourceRecord,
};
use crate::metadata::temporal::UtcInstant;
use crate::crs::{CrsError, CrsViolation, CrsViolationModel};
use crate::naming::component_spec;
use crate::text::{chars_of, debug_quoted, debug_text, lower, owned, push_str, string_from};

verus! {

/// A CDB datastore on disk, identified by its root.
#[derive(Debug, Clone)]
pub struct CdbDatastore {
    layout: DatastoreLayout,
}

/// The model of a handle-or-error outcome.
pub open spec fn cdb_hierarchy_error(e: CdbError) -> Option<HierarchyErrorModel> {
    match e {
        CdbError::Hierarchy(h) => Some(hierarchy_error(h)),
        _ => None,
    }
}

impl CdbDatastore {
    /// The root path.
    pub closed spec fn root_path(&self) -> Seq<char> {
        self.layout.root_path()
    }

    /// Opens an existing datastore at `root`, given whether the path exists
    /// and is a directory (File3). Conformance is not judged here.
    pub fn open(root: &str, exists: bool, is_dir: bool) -> (r: Result<CdbDatastore, CdbError>)
        ensures
            match (r, open_spec(root@, exists, is_dir)) {
                (Ok(d), Ok(p)) => d.root_path() == p,
                (Err(e), Err(m)) => cdb_hierarchy_error(e) == Some(m),
                _ => false,
            },
    {
        match DatastoreLayout::open(root, exists, is_dir) {
            Ok(layout) => Ok(CdbDatastore { layout }),
            Err(e) => Err(CdbError::Hierarchy(e)),
        }
    }

    /// The datastore's file hierarchy.
    pub fn layout(&self) -> (r: &DatastoreLayout)
        ensures
            r.root_path() == self.root_path(),
    {
        &self.layout
    }

    /// The datastore's physical root directory.
    pub fn root(&self) -> (r: &str)
        ensures
            r@ == self.root_path(),
    {
        self.layout.root()
    }

    /// Resolves a logical path to a physical path under the root,
    /// rejecting traversal that would escape it (File2-B).
    pub fn resolve(&self, logical: &str) -> (r: Result<String, CdbError>)
        ensures
            match r {
                Ok(p) => path_spec(logical@) is Ok && p@ == join_path(
                    self.root_path(),
                    relative(logical@),
                ),
                Err(e) => path_spec(logical@) is Err && cdb_hierarchy_error(e) == Some(
                    HierarchyErrorModel::Naming(path_spec(logical@)->Err_0),
                ),
            },
    {
        match self.layout.resolve(logical) {
            Ok(p) => Ok(p),
            Err(e) => Err(CdbError::Hierarchy(e)),
        }
    }
}

/// The identity a new datastore's global record is composed from: the
/// four mandatory identity elements and, when given, the creation instant
/// (the moment of creation otherwise).
#[derive(Debug, Clone)]
pub struct DatastoreSeed {
    pub id: String,
    pub title: String,
    pub description: String,
    pub contact_point: String,
    pub created: Option<UtcInstant>,
}

impl DatastoreSeed {
    /// A seed with the four identity elements and no creation instant.
    /// Emptiness is judged when the datastore is created.
    pub fn new(id: &str, title: &str, description: &str, contact_point: &str) -> (r: DatastoreSeed)
        ensures
            r.id@ == id@,
            r.title@ == title@,
            r.description@ == description@,
            r.contact_point@ == contact_point@,
            r.created is None,
    {
        DatastoreSeed {
            id: owned(id),
            title: owned(title),
            description: owned(description),
            contact_point: owned(contact_point),
            created: None,
        }
    }

    /// The seed with its creation instant set.
    pub fn created(self, value: UtcInstant) -> (r: DatastoreSeed)
        ensures
            r.id == self.id,
            r.title == self.title,
            r.description == self.description,
            r.contact_point == self.contact_point,
            r.created == Some(value),
    {
        DatastoreSeed { created: Some(value), ..self }
    }
}

/// Why a datastore may not be created.
pub enum CreationRefusal {
    Metadata(MetadataViolationModel),
    Crs(CrsViolationModel),
    Path(HierarchyErrorModel),
}

/// The refusal an error from `create` stands for, if it is one.
pub open spec fn creation_refusal(e: CdbError) -> Option<CreationRefusal> {
    match e {
        CdbError::Metadata(MetadataError::Violation(v)) => Some(CreationRefusal::Metadata(v@)),
        CdbError::Crs(CrsError::Violation(v)) => Some(CreationRefusal::Crs(v@)),
        CdbError::Hierarchy(h) => Some(CreationRefusal::Path(hierarchy_error(h))),
        _ => None,
    }
}

/// Whether a datastore named `root_name` may be created under `parent`
/// from `seed`, for a profile whose language tag is `language` and whose
/// storage CRS is `crs` (or why it is mis-declared): the language tag must
/// be well formed, the four identity elements non-empty, the CRS declared
/// well, and the root name a valid name; the result is the root's path.
/// Policy is judged in that order, before anything is written.
pub open spec fn creation_spec(
    parent: Seq<char>,
    root_name: Seq<char>,
    seed: DatastoreSeed,
    language: Seq<char>,
    crs: Result<Seq<char>, CrsViolationModel>,
) -> Result<Seq<char>, CreationRefusal> {
    match tag_fault(language) {
        Some(reason) => Err(
            CreationRefusal::Metadata(MetadataViolationModel::InvalidLanguageTag { value: language, reason }),
        ),
        None => match first_empty(
            seq![
                (seed.id@, "ID"@),
                (seed.title@, "title"@),
                (seed.description@, "description"@),
                (seed.contact_point@, "contactPoint"@),
            ],
        ) {
            Some(v) => Err(CreationRefusal::Metadata(v)),
            None => match crs {
                Err(v) => Err(CreationRefusal::Crs(v)),
                Ok(_) => match component_spec(root_name) {
                    Err(v) => Err(CreationRefusal::Path(HierarchyErrorModel::Naming(v))),
                    Ok(()) => Ok(join_path(parent, root_name)),
                },
            },
        },
    }
}

impl CdbDatastore {
    /// Decides whether a datastore can be created, judging all policy
    /// before the first disk write: the handle of the datastore to
    /// materialize (its folders, global record and storage-CRS record are
    /// the caller's to write), or why it may not be created.
    pub fn create(
        parent: &str,
        root_name: &str,
        seed: &DatastoreSeed,
        language: &str,
        storage_crs: Result<String, CrsViolation>,
    ) -> (r: Result<CdbDatastore, CdbError>)
        ensures
            match r {
                Ok(d) => creation_spec(
                    parent@,
                    root_name@,
                    *seed,
                    language@,
                    match storage_crs {
                        Ok(t) => Ok(t@),
                        Err(v) => Err(v@),
                    },
                ) == Ok::<Seq<char>, CreationRefusal>(d.root_path()),
                Err(e) => creation_refusal(e) is Some && creation_spec(
                    parent@,
                    root_name@,
                    *seed,
                    language@,
                    match storage_crs {
                        Ok(t) => Ok(t@),
                        Err(v) => Err(v@),
                    },
                ) == Err::<Seq<char>, CreationRefusal>(creation_refusal(e)->0),
            },
    {
        match LanguageTag::new(language) {
            Err(v) => {
                return Err(CdbError::Metadata(MetadataError::Violation(v)));
            },
            Ok(_) => {},
        }
        let elements = BuilderElements {
            id: Some(owned(seed.id.as_str())),
            title: Some(owned(seed.title.as_str())),
            description: Some(owned(seed.description.as_str())),
            contact_point: Some(owned(seed.contact_point.as_str())),
            created: true,
            language: true,
            metadata_standard: true,
            encoding: true,
            uom: true,
        };
        match check_builder(&elements) {
            Err(v) => {
                return Err(CdbError::Metadata(MetadataError::Violation(v)));
            },
            Ok(()) => {},
        }
        match storage_crs {
            Err(v) => {
                return Err(CdbError::Crs(CrsError::Violation(v)));
            },
            Ok(_) => {},
        }
        match DatastoreLayout::create_named(parent, root_name) {
            Ok(layout) => Ok(CdbDatastore { layout }),
            Err(e) => Err(CdbError::Hierarchy(e)),
        }
    }
}

/// The position just after the last `/` of `s`, or 0.
pub open spec fn after_last_slash(s: Seq<char>) -> int
    decreases s.len(),
{
    if s.len() == 0 {
        0
    } else if s.last() == '/' {
        s.len() as int
    } else {
        after_last_slash(s.drop_last())
    }
}

/// The extension of the file a logical path names: the extension of its
/// last `/`-separated segment.
pub open spec fn path_extension_spec(logical_path: Seq<char>) -> Option<Seq<char>> {
    split_ext(logical_path.skip(after_last_slash(logical_path))).1
}

/// The extension of the file a logical path names, if any.
pub fn path_extension(logical_path: &str) -> (r: Option<String>)
    ensures
        match r {
            Some(e) => path_extension_spec(logical_path@) == Some(e@),
            None => path_extension_spec(logical_path@) is None,
        },
{
    let v = chars_of(logical_path);
    let mut k: usize = v.len();
    assert(v@.take(v@.len() as int) =~= v@);
    while k > 0 && v[k - 1] != '/'
        invariant
            0 <= k <= v@.len(),
            after_last_slash(v@) == after_last_slash(v@.take(k as int)),
        decreases k,
    {
        proof {
            assert(v@.take(k as int).drop_last() =~= v@.take(k - 1));
        }
        k -= 1;
    }
    proof {
        if k > 0 {
            assert(v@.take(k as int).last() == '/');
        } else {
            assert(v@.take(0) =~= Seq::<char>::empty());
        }
    }
    assert(v@.take(v@.len() as int) =~= v@);
    let name = string_from(&v, k, v.len());
    assert(name@ =~= logical_path@.skip(k as int));
    let (_, extension) = split_extension(name.as_str());
    extension
}

// ---------------------------------------------------------------------------
// Where records may be written

/// Why the datastore refuses to write a record.
pub enum WriteRefusal {
    /// The attribute model itself is invalid.
    Attribution(AttributionViolationModel),
    /// The record is invalid, or its file disagrees with the declared
    /// encoding.
    Metadata(MetadataViolationModel),
    /// The core cannot write this encoding.
    Unsupported(MetadataEncoding),
    /// The logical path is not a valid path.
    Path(HierarchyErrorModel),
}

/// The refusal an error stands for, if it is one.
pub open spec fn refusal(e: CdbError) -> Option<WriteRefusal> {
    match e {
        CdbError::Attribution(AttributionError::Violation(v)) => Some(WriteRefusal::Attribution(v@)),
        CdbError::Metadata(MetadataError::Violation(v)) => Some(WriteRefusal::Metadata(v@)),
        CdbError::Metadata(MetadataError::UnsupportedEncoding(x)) => Some(WriteRefusal::Unsupported(x)),
        CdbError::Hierarchy(h) => Some(WriteRefusal::Path(hierarchy_error(h))),
        _ => None,
    }
}

/// The other of the two encodings the core writes.
pub open spec fn other_encoding(e: MetadataEncoding) -> MetadataEncoding {
    match e {
        MetadataEncoding::Xml => MetadataEncoding::Json,
        _ => MetadataEncoding::Xml,
    }
}

/// Where an attribute model may be written in a datastore declaring
/// `declared`: the model must be valid, the encoding one the core writes,
/// and no model file in the other encoding may already be present.
pub open spec fn attribute_target_spec(
    uri: Option<Seq<char>>,
    attrs: Seq<crate::attribution::AttributeDefModel>,
    declared: MetadataEncoding,
    other_encoding_present: bool,
) -> Result<Seq<char>, WriteRefusal> {
    match model_verdict(uri, attrs) {
        Err(v) => Err(WriteRefusal::Attribution(v)),
        Ok(()) => match file_name_spec(declared) {
            None => Err(WriteRefusal::Unsupported(declared)),
            Some(name) => if other_encoding_present {
                Err(
                    WriteRefusal::Metadata(
                        MetadataViolationModel::EncodingMismatch {
                            file: file_name_spec(other_encoding(declared))->0,
                            declared,
                            found: other_encoding(declared),
                        },
                    ),
                )
            } else {
                Ok(name)
            },
        },
    }
}

/// Decides where an attribute model is written: its file name at the top
/// of `global_metadata/`, or why it may not be written.
/// `other_encoding_present` tells whether a model file in the other
/// encoding than `declared` is already there.
pub fn attribute_model_write_target(
    model: &AttributeModel,
    declared: MetadataEncoding,
    other_encoding_present: bool,
) -> (r: Result<String, CdbError>)
    ensures
        match r {
            Ok(name) => attribute_target_spec(
                model.uri_model(),
                model.attrs_model(),
                declared,
                other_encoding_present,
            ) == Ok::<Seq<char>, WriteRefusal>(name@),
            Err(e) => refusal(e) is Some && attribute_target_spec(
                model.uri_model(),
                model.attrs_model(),
                declared,
                other_encoding_present,
            ) == Err::<Seq<char>, WriteRefusal>(refusal(e)->0),
        },
{
    match model.validate() {
        Err(v) => {
            return Err(CdbError::Attribution(AttributionError::Violation(v)));
        },
        Ok(()) => {},
    }
    let name = match file_name_for(declared) {
        None => {
            return Err(CdbError::Metadata(MetadataError::UnsupportedEncoding(declared)));
        },
        Some(name) => name,
    };
    if other_encoding_present {
        let other = match declared {
            MetadataEncoding::Xml => MetadataEncoding::Json,
            _ => MetadataEncoding::Xml,
        };
        let file = match file_name_for(other) {
            Some(f) => f,
            None => {
                return Err(CdbError::Metadata(MetadataError::UnsupportedEncoding(declared)));
            },
        };
        return Err(
            CdbError::Metadata(
                MetadataError::Violation(
                    MetadataViolation::EncodingMismatch { file, declared, found: other },
                ),
            ),
        );
    }
    Ok(name)
}

/// The encoding the file a logical path names denotes by its extension.
pub open spec fn path_encoding(logical_path: Seq<char>) -> Option<MetadataEncoding> {
    match path_extension_spec(logical_path) {
        Some(e) => extension_encoding_spec(lower(e)),
        None => None,
    }
}

/// The reason given for a resource record path without a metadata
/// extension.
pub open spec fn extension_missing_reason(logical_path: Seq<char>, declared: MetadataEncoding) -> Seq<
    char,
> {
    "resource metadata path "@ + debug_text(logical_path) + " must end in ."@ + encoding_text(
        declared,
    ) + " to match the datastore's declared encoding"@
}

/// Whether a global record in encoding `incoming` may be written, given
/// whether a global record file in JSON and in XML is already present: a
/// record already there in another encoding refuses the switch (the JSON
/// file is looked at first), naming the file found.
pub open spec fn global_write_spec(incoming: MetadataEncoding, json_present: bool, xml_present: bool) -> Result<
    (),
    MetadataViolationModel,
> {
    if incoming != MetadataEncoding::Json && json_present {
        Err(
            MetadataViolationModel::EncodingMismatch {
                file: "global_metadata.json"@,
                declared: incoming,
                found: MetadataEncoding::Json,
            },
        )
    } else if incoming != MetadataEncoding::Xml && xml_present {
        Err(
            MetadataViolationModel::EncodingMismatch {
                file: "global_metadata.xml"@,
                declared: incoming,
                found: MetadataEncoding::Xml,
            },
        )
    } else {
        Ok(())
    }
}

/// Decides whether a global record in encoding `incoming` may be written
/// over what is already in `global_metadata/`: one metadata encoding per
/// datastore.
pub fn global_write_check(incoming: MetadataEncoding, json_present: bool, xml_present: bool) -> (r: Result<
    (),
    MetadataViolation,
>)
    ensures
        match r {
            Ok(()) => global_write_spec(incoming, json_present, xml_present) is Ok,
            Err(v) => global_write_spec(incoming, json_present, xml_present) == Err::<
                (),
                MetadataViolationModel,
            >(v@),
        },
{
    if incoming != MetadataEncoding::Json && json_present {
        return Err(
            MetadataViolation::EncodingMismatch {
                file: owned("global_metadata.json"),
                declared: incoming,
                found: MetadataEncoding::Json,
            },
        );
    }
    if incoming != MetadataEncoding::Xml && xml_present {
        return Err(
            MetadataViolation::EncodingMismatch {
                file: owned("global_metadata.xml"),
                declared: incoming,
                found: MetadataEncoding::Xml,
            },
        );
    }
    Ok(())
}

/// The encoding a resource record at `logical_path` is read in: JSON or
/// XML by its extension; the core reads no other.
pub open spec fn record_encoding_spec(logical_path: Seq<char>) -> Result<MetadataEncoding, MetadataViolationModel> {
    match path_encoding(logical_path) {
        Some(MetadataEncoding::Json) => Ok(MetadataEncoding::Json),
        Some(MetadataEncoding::Xml) => Ok(MetadataEncoding::Xml),
        _ => Err(
            MetadataViolationModel::Malformed {
                reason: "resource metadata path "@ + debug_text(logical_path)
                    + " has no json or xml extension"@,
            },
        ),
    }
}

/// Decides how the resource record at `logical_path` is read: as JSON or
/// as XML, or why the core cannot read it.
pub fn record_encoding(logical_path: &str) -> (r: Result<MetadataEncoding, MetadataViolation>)
    ensures
        match r {
            Ok(e) => record_encoding_spec(logical_path@) == Ok::<MetadataEncoding, MetadataViolationModel>(e),
            Err(v) => record_encoding_spec(logical_path@) == Err::<MetadataEncoding, MetadataViolationModel>(v@),
        },
{
    let found = match path_extension(logical_path) {
        Some(e) => extension_encoding(e.as_str()),
        None => None,
    };
    match found {
        Some(MetadataEncoding::Json) => Ok(MetadataEncoding::Json),
        Some(MetadataEncoding::Xml) => Ok(MetadataEncoding::Xml),
        _ => {
            let mut reason = owned("resource metadata path ");
            let quoted = debug_quoted(logical_path);
            push_str(&mut reason, quoted.as_str());
            push_str(&mut reason, " has no json or xml extension");
            Err(MetadataViolation::Malformed { reason })
        },
    }
}

impl CdbDatastore {
    /// Where a resource record may be written at `logical_path` in a
    /// datastore declaring `declared`: the record must be valid, the path's
    /// extension must denote the declared encoding, the core must write
    /// that encoding, and the path must be valid; the result is the file.
    pub open spec fn resource_target_spec(
        &self,
        logical_path: Seq<char>,
        declared: MetadataEncoding,
        verdict: Result<(), MetadataViolationModel>,
    ) -> Result<Seq<char>, WriteRefusal> {
        match verdict {
            Err(v) => Err(WriteRefusal::Metadata(v)),
            Ok(()) => match path_encoding(logical_path) {
                Some(found) => if found != declared {
                    Err(
                        WriteRefusal::Metadata(
                            MetadataViolationModel::EncodingMismatch {
                                file: logical_path,
                                declared,
                                found,
                            },
                        ),
                    )
                } else if declared == MetadataEncoding::Gpkg {
                    Err(WriteRefusal::Unsupported(MetadataEncoding::Gpkg))
                } else {
                    match path_spec(logical_path) {
                        Err(v) => Err(WriteRefusal::Path(HierarchyErrorModel::Naming(v))),
                        Ok(()) => Ok(join_path(self.root_path(), relative(logical_path))),
                    }
                },
                None => Err(
                    WriteRefusal::Metadata(
                        MetadataViolationModel::Malformed {
                            reason: extension_missing_reason(logical_path, declared),
                        },
                    ),
                ),
            },
        }
    }

    /// Decides where a resource record is written: the physical file for
    /// `logical_path`, or why it may not be written.
    pub fn resource_write_target(
        &self,
        logical_path: &str,
        declared: MetadataEncoding,
        record: &ResourceRecord,
    ) -> (r: Result<String, CdbError>)
        ensures
            match r {
                Ok(p) => self.resource_target_spec(logical_path@, declared, record.verdict())
                    == Ok::<Seq<char>, WriteRefusal>(p@),
                Err(e) => refusal(e) is Some && self.resource_target_spec(
                    logical_path@,
                    declared,
                    record.verdict(),
                ) == Err::<Seq<char>, WriteRefusal>(refusal(e)->0),
            },
    {
        match record.validate() {
            Err(v) => {
                return Err(CdbError::Metadata(MetadataError::Violation(v)));
            },
            Ok(()) => {},
        }
        let found = match path_extension(logical_path) {
            Some(e) => extension_encoding(e.as_str()),
            None => None,
        };
        match found {
            Some(f) => {
                if f != declared {
                    return Err(
                        CdbError::Metadata(
                            MetadataError::Violation(
                                MetadataViolation::EncodingMismatch {
                                    file: owned(logical_path),
                                    declared,
                                    found: f,
                                },
                            ),
                        ),
                    );
                }
            },
            None => {
                let mut reason = owned("resource metadata path ");
                let quoted = debug_quoted(logical_path);
                push_str(&mut reason, quoted.as_str());
                push_str(&mut reason, " must end in .");
                push_str(&mut reason, declared.extension());
                push_str(&mut reason, " to match the datastore's declared encoding");
                return Err(
                    CdbError::Metadata(
                        MetadataError::Violation(MetadataViolation::Malformed { reason }),
                    ),
                );
            },
        }
        if declared == MetadataEncoding::Gpkg {
            return Err(CdbError::Metadata(MetadataError::UnsupportedEncoding(MetadataEncoding::Gpkg)));
        }
        self.resolve(logical_path)
    }
}

} // verus!
