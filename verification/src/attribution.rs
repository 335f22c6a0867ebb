//! The attribution requirements class (`/req/core/attributes`): the
//! attribute model stored as `global_metadata/vector_attributes.<ext>`, its
//! content rules (Attr2), the external-schema URI permission (PAttr1) and
//! the file-name rule (Attr1-C).
//!
//! Identifiers are compared after trimming surrounding whitespace and
//! byte-exactly otherwise; blank or control-character values are not
//! values.

use vstd::prelude::*;
use crate::links::{find_first, scheme_ok, valid_scheme};
use crate::metadata::{encoding_text, MetadataEncoding};
use crate::naming::{split_ext, split_extension};
use crate::text::{
    blank, chars_of, is_cc, is_control, owned, push_str, str_eq, string_from, trim, trim_bounds,
};

verus! {

/// File stem of the attribute-model file (Attr1-C).
pub const VECTOR_ATTRIBUTES_STEM: &'static str = "vector_attributes";

/// A violation of a SHALL requirement of the attribution module.
#[derive(Debug, Clone, PartialEq, Eq)]
pub enum AttributionViolation {
    /// A model with no attributes specifies no attribute model.
    EmptyModel,
    /// Two attributes share an identifier (after trimming).
    DuplicateId { id: String },
    /// The attribute at `position` has an empty, blank or control-character id.
    EmptyId { position: usize },
    /// An attribute without a name.
    EmptyName { id: String },
    /// An attribute without a description.
    EmptyDescription { id: String },
    /// A present external-schema URI that is not a URI.
    InvalidSchemaUri { uri: String },
    /// A file name other than `vector_attributes.json` or `.xml`.
    InvalidFileName { name: String },
    /// The document was read but is not a parseable attribute model.
    Malformed { reason: String },
}

/// The mathematical content of an [`AttributionViolation`].
pub enum AttributionViolationModel {
    EmptyModel,
    DuplicateId { id: Seq<char> },
    EmptyId { position: usize },
    EmptyName { id: Seq<char> },
    EmptyDescription { id: Seq<char> },
    InvalidSchemaUri { uri: Seq<char> },
    InvalidFileName { name: Seq<char> },
    Malformed { reason: Seq<char> },
}

impl View for AttributionViolation {
    type V = AttributionViolationModel;

    open spec fn view(&self) -> AttributionViolationModel {
        match self {
            AttributionViolation::EmptyModel => AttributionViolationModel::EmptyModel,
            AttributionViolation::DuplicateId { id } => AttributionViolationModel::DuplicateId {
                id: id@,
            },
            AttributionViolation::EmptyId { position } => AttributionViolationModel::EmptyId {
                position: *position,
            },
            AttributionViolation::EmptyName { id } => AttributionViolationModel::EmptyName {
                id: id@,
            },
            AttributionViolation::EmptyDescription { id } =>
                AttributionViolationModel::EmptyDescription { id: id@ },
            AttributionViolation::InvalidSchemaUri { uri } =>
                AttributionViolationModel::InvalidSchemaUri { uri: uri@ },
            AttributionViolation::InvalidFileName { name } =>
                AttributionViolationModel::InvalidFileName { name: name@ },
            AttributionViolation::Malformed { reason } => AttributionViolationModel::Malformed {
                reason: reason@,
            },
        }
    }
}

/// Operational failure of the attribution module.
#[derive(Debug)]
pub enum AttributionError {
    Violation(AttributionViolation),
    Io(std::io::Error),
    /// A (de)serialization failure, with its message.
    Serialization(String),
}

impl From<AttributionViolation> for AttributionError {
    fn from(violation: AttributionViolation) -> (r: AttributionError)
        ensures
            r == AttributionError::Violation(violation),
    {
        AttributionError::Violation(violation)
    }
}

impl vstd::std_specs::convert::FromSpecImpl<AttributionViolation> for AttributionError {
    open spec fn obeys_from_spec() -> bool {
        true
    }

    open spec fn from_spec(violation: AttributionViolation) -> AttributionError {
        AttributionError::Violation(violation)
    }
}

/// One attribute definition: identifier, name and description (Attr2).
#[derive(Debug, Clone, PartialEq, Eq)]
pub struct AttributeDef {
    pub id: String,
    pub name: String,
    pub description: String,
}

/// The attribute model: an optional external-schema URI (PAttr1) and the
/// attribute definitions in declaration order (Attr2).
#[derive(Debug, Clone, PartialEq, Eq)]
pub struct AttributeModel {
    pub schema_uri: Option<String>,
    pub attributes: Vec<AttributeDef>,
}

/// The text of one attribute definition.
pub struct AttributeDefModel {
    pub id: Seq<char>,
    pub name: Seq<char>,
    pub description: Seq<char>,
}

impl View for AttributeDef {
    type V = AttributeDefModel;

    open spec fn view(&self) -> AttributeDefModel {
        AttributeDefModel { id: self.id@, name: self.name@, description: self.description@ }
    }
}

/// Whether `s` holds a control character.
pub open spec fn has_control(s: Seq<char>) -> bool {
    exists|i: int| 0 <= i < s.len() && is_cc(#[trigger] s[i])
}

/// A value that is not a value: blank after trimming, or holding a
/// control character.
pub open spec fn vacant(s: Seq<char>) -> bool {
    blank(s) || has_control(s)
}

/// Whether `v` holds a control character.
fn any_control(v: &Vec<char>) -> (r: bool)
    ensures
        r == has_control(v@),
{
    let mut i: usize = 0;
    while i < v.len()
        invariant
            0 <= i <= v@.len(),
            forall|k: int| 0 <= k < i ==> !is_cc(#[trigger] v@[k]),
        decreases v@.len() - i,
    {
        if is_control(v[i]) {
            return true;
        }
        i += 1;
    }
    false
}

/// Whether a value is blank or holds a control character.
fn is_blank(value: &str) -> (r: bool)
    ensures
        r == vacant(value@),
{
    let v = chars_of(value);
    let (a, b) = trim_bounds(&v);
    a == b || any_control(&v)
}

/// The URI shape PAttr1 asks for: an RFC 3986 scheme, a `:`, and a
/// remainder with visible content.
pub open spec fn uri_shape(s: Seq<char>) -> bool {
    let i = find_first(s, ':');
    i >= 0 && valid_scheme(s.take(i)) && !blank(s.skip(i + 1))
}

/// Whether a URI has an RFC 3986 scheme and a non-blank remainder.
fn has_uri_shape(uri: &str) -> (r: bool)
    ensures
        r == uri_shape(uri@),
{
    let v = chars_of(uri);
    let mut i: usize = 0;
    while i < v.len() && v[i] != ':'
        invariant
            0 <= i <= v@.len(),
            forall|j: int| 0 <= j < i ==> #[trigger] v@[j] != ':',
        decreases v@.len() - i,
    {
        i += 1;
    }
    if i == v.len() {
        assert(find_first(uri@, ':') == -1);
        return false;
    }
    assert(find_first(uri@, ':') == i as int) by {
        let k = find_first(uri@, ':');
        assert(uri@[i as int] == ':');
        if k != i {
            assert(k < i ==> v@[k] != ':');
            assert(k > i ==> uri@[i as int] != ':');
        }
    }
    if !scheme_ok(&v, i) {
        return false;
    }
    let rest = string_from(&v, i + 1, v.len());
    assert(rest@ =~= uri@.skip(i + 1));
    !is_blank_text(rest.as_str())
}

/// Whether a text is blank after trimming.
fn is_blank_text(value: &str) -> (r: bool)
    ensures
        r == blank(value@),
{
    let v = chars_of(value);
    let (a, b) = trim_bounds(&v);
    a == b
}

/// `value` with surrounding whitespace removed.
fn trimmed(value: &String) -> (r: String)
    ensures
        r@ == trim(value@),
{
    let v = chars_of(value.as_str());
    let (a, b) = trim_bounds(&v);
    string_from(&v, a, b)
}

/// The first Attr2 fault of the attribute at `p`, given that no earlier
/// attribute had one.
pub open spec fn attribute_fault(attrs: Seq<AttributeDefModel>, p: int) -> Option<
    AttributionViolationModel,
> {
    let a = attrs[p];
    if vacant(a.id) {
        Some(AttributionViolationModel::EmptyId { position: p as usize })
    } else if vacant(a.name) {
        Some(AttributionViolationModel::EmptyName { id: a.id })
    } else if vacant(a.description) {
        Some(AttributionViolationModel::EmptyDescription { id: a.id })
    } else if exists|q: int| 0 <= q < p && #[trigger] trim(attrs[q].id) == trim(a.id) {
        Some(AttributionViolationModel::DuplicateId { id: a.id })
    } else {
        None
    }
}

/// The first Attr2 fault among the attributes from `p` on.
pub open spec fn attributes_fault(attrs: Seq<AttributeDefModel>, p: int) -> Option<
    AttributionViolationModel,
>
    decreases attrs.len() - p,
{
    if p < 0 || p >= attrs.len() {
        None
    } else {
        match attribute_fault(attrs, p) {
            Some(v) => Some(v),
            None => attributes_fault(attrs, p + 1),
        }
    }
}

/// The verdict of Attr2 and PAttr1 on a model: the URI first, then an
/// empty model, then each attribute in order.
pub open spec fn model_verdict(schema_uri: Option<Seq<char>>, attrs: Seq<AttributeDefModel>) -> Result<
    (),
    AttributionViolationModel,
> {
    if schema_uri is Some && (has_control(schema_uri->0) || !uri_shape(schema_uri->0)) {
        Err(AttributionViolationModel::InvalidSchemaUri { uri: schema_uri->0 })
    } else if attrs.len() == 0 {
        Err(AttributionViolationModel::EmptyModel)
    } else {
        match attributes_fault(attrs, 0) {
            Some(v) => Err(v),
            None => Ok(()),
        }
    }
}

/// The model of a verdict.
pub open spec fn verdict(r: Result<(), AttributionViolation>) -> Result<(), AttributionViolationModel> {
    match r {
        Ok(()) => Ok(()),
        Err(v) => Err(v@),
    }
}

/// Whether `id` (trimmed) is among `seen`.
fn seen_before(seen: &Vec<String>, id: &String) -> (r: bool)
    ensures
        r == exists|k: int| 0 <= k < seen@.len() && #[trigger] seen@[k]@ == id@,
{
    let mut k: usize = 0;
    while k < seen.len()
        invariant
            0 <= k <= seen@.len(),
            forall|j: int| 0 <= j < k ==> #[trigger] seen@[j]@ != id@,
        decreases seen@.len() - k,
    {
        if str_eq(seen[k].as_str(), id.as_str()) {
            return true;
        }
        k += 1;
    }
    false
}

impl AttributeModel {
    /// The optional URI's text.
    pub open spec fn uri_model(&self) -> Option<Seq<char>> {
        match self.schema_uri {
            Some(u) => Some(u@),
            None => None,
        }
    }

    /// The attributes' text.
    pub open spec fn attrs_model(&self) -> Seq<AttributeDefModel> {
        self.attributes@.map_values(|a: AttributeDef| a@)
    }

    /// Trims surrounding whitespace from the URI and from every
    /// attribute's id, name and description.
    pub fn canonicalize(&mut self)
        ensures
            final(self).uri_model() == match old(self).uri_model() {
                Some(u) => Some(trim(u)),
                None => None,
            },
            final(self).attributes@.len() == old(self).attributes@.len(),
            forall|i: int|
                0 <= i < old(self).attributes@.len() ==> {
                    &&& (#[trigger] final(self).attributes@[i]).id@ == trim(old(self).attributes@[i].id@)
                    &&& final(self).attributes@[i].name@ == trim(old(self).attributes@[i].name@)
                    &&& final(self).attributes@[i].description@ == trim(
                        old(self).attributes@[i].description@,
                    )
                },
    {
        let uri = match &self.schema_uri {
            Some(u) => Some(trimmed(u)),
            None => None,
        };
        self.schema_uri = uri;
        let mut out: Vec<AttributeDef> = Vec::new();
        let mut i: usize = 0;
        while i < self.attributes.len()
            invariant
                0 <= i <= self.attributes@.len(),
                self.attributes@ == old(self).attributes@,
                out@.len() == i,
                forall|j: int|
                    0 <= j < i ==> {
                        &&& (#[trigger] out@[j]).id@ == trim(old(self).attributes@[j].id@)
                        &&& out@[j].name@ == trim(old(self).attributes@[j].name@)
                        &&& out@[j].description@ == trim(old(self).attributes@[j].description@)
                    },
            decreases self.attributes@.len() - i,
        {
            let a = &self.attributes[i];
            out.push(
                AttributeDef {
                    id: trimmed(&a.id),
                    name: trimmed(&a.name),
                    description: trimmed(&a.description),
                },
            );
            i += 1;
        }
        self.attributes = out;
    }

    /// Validates Attr2's content rules and PAttr1's URI shape. Identifier
    /// uniqueness is compared on trimmed identifiers.
    pub fn validate(&self) -> (r: Result<(), AttributionViolation>)
        ensures
            verdict(r) == model_verdict(self.uri_model(), self.attrs_model()),
    {
        if let Some(uri) = &self.schema_uri {
            let v = chars_of(uri.as_str());
            if any_control(&v) || !has_uri_shape(uri.as_str()) {
                return Err(AttributionViolation::InvalidSchemaUri { uri: uri.clone() });
            }
        }
        if self.attributes.len() == 0 {
            return Err(AttributionViolation::EmptyModel);
        }
        let ghost attrs = self.attrs_model();
        let mut seen: Vec<String> = Vec::new();
        let mut position: usize = 0;
        while position < self.attributes.len()
            invariant
                0 <= position <= self.attributes@.len(),
                attrs == self.attrs_model(),
                attrs.len() == self.attributes@.len(),
                seen@.len() == position,
                forall|q: int| 0 <= q < position ==> #[trigger] seen@[q]@ == trim(attrs[q].id),
                attributes_fault(attrs, 0) == attributes_fault(attrs, position as int),
                model_verdict(self.uri_model(), attrs) == match attributes_fault(attrs, 0) {
                    Some(v) => Err(v),
                    None => Ok(()),
                },
            decreases self.attributes@.len() - position,
        {
            let attribute = &self.attributes[position];
            assert(attrs[position as int] == attribute@);
            if is_blank(attribute.id.as_str()) {
                return Err(AttributionViolation::EmptyId { position });
            }
            if is_blank(attribute.name.as_str()) {
                return Err(AttributionViolation::EmptyName { id: attribute.id.clone() });
            }
            if is_blank(attribute.description.as_str()) {
                return Err(AttributionViolation::EmptyDescription { id: attribute.id.clone() });
            }
            let id = trimmed(&attribute.id);
            if seen_before(&seen, &id) {
                proof {
                    let k = choose|k: int| 0 <= k < seen@.len() && #[trigger] seen@[k]@ == id@;
                    assert(trim(attrs[k].id) == trim(attrs[position as int].id));
                }
                return Err(AttributionViolation::DuplicateId { id: attribute.id.clone() });
            }
            proof {
                assert forall|q: int| 0 <= q < position implies #[trigger] trim(attrs[q].id) != trim(
                    attrs[position as int].id,
                ) by {
                    assert(seen@[q]@ == trim(attrs[q].id));
                }
            }
            seen.push(id);
            position += 1;
        }
        Ok(())
    }
}

/// The Attr1-C file name for an encoding: `vector_attributes.json` or
/// `.xml`; none for GeoPackage.
pub open spec fn file_name_spec(encoding: MetadataEncoding) -> Option<Seq<char>> {
    match encoding {
        MetadataEncoding::Gpkg => None,
        _ => Some("vector_attributes"@ + "."@ + encoding_text(encoding)),
    }
}

/// The Attr1-C file name for a metadata encoding.
pub fn file_name_for(encoding: MetadataEncoding) -> (r: Option<String>)
    ensures
        match r {
            Some(s) => file_name_spec(encoding) == Some(s@),
            None => file_name_spec(encoding) is None,
        },
{
    match encoding {
        MetadataEncoding::Json | MetadataEncoding::Xml => {
            let mut out = owned(VECTOR_ATTRIBUTES_STEM);
            push_str(&mut out, ".");
            push_str(&mut out, encoding.extension());
            Some(out)
        },
        MetadataEncoding::Gpkg => None,
    }
}

/// The encoding an Attr1-C file name denotes: the canonical name exactly,
/// case-sensitively.
pub open spec fn file_name_encoding(name: Seq<char>) -> Option<MetadataEncoding> {
    let (stem, extension) = split_ext(name);
    if stem == "vector_attributes"@ && extension == Some("json"@) {
        Some(MetadataEncoding::Json)
    } else if stem == "vector_attributes"@ && extension == Some("xml"@) {
        Some(MetadataEncoding::Xml)
    } else {
        None
    }
}

/// The two Attr1-C functions agree: the name written for an encoding
/// parses back to that encoding.
pub proof fn file_name_roundtrip(e: MetadataEncoding)
    requires
        e != MetadataEncoding::Gpkg,
    ensures
        file_name_spec(e) is Some,
        file_name_encoding(file_name_spec(e)->0) == Some(e),
{
    reveal_strlit("vector_attributes");
    reveal_strlit(".");
    reveal_strlit("json");
    reveal_strlit("xml");
    let ext = encoding_text(e);
    assert(forall|i: int| 0 <= i < ext.len() ==> ext[i] != '.');
    assert("."@ =~= seq!['.']);
    crate::naming::split_ext_of_joined("vector_attributes"@, ext);
    assert("json"@ != "xml"@) by {
        assert("json"@.len() != "xml"@.len());
    }
}

/// Parses an Attr1-C file name, returning the encoding its extension
/// denotes. Only `vector_attributes.json` and `vector_attributes.xml` pass.
pub fn parse_file_name(name: &str) -> (r: Result<MetadataEncoding, AttributionViolation>)
    ensures
        match r {
            Ok(e) => file_name_encoding(name@) == Some(e),
            Err(v) => file_name_encoding(name@) is None && v@
                == (AttributionViolationModel::InvalidFileName { name: name@ }),
        },
{
    let (stem, extension) = split_extension(name);
    if str_eq(stem.as_str(), VECTOR_ATTRIBUTES_STEM) {
        match extension {
            Some(e) => {
                if str_eq(e.as_str(), "json") {
                    return Ok(MetadataEncoding::Json);
                }
                if str_eq(e.as_str(), "xml") {
                    return Ok(MetadataEncoding::Xml);
                }
            },
            None => {},
        }
    }
    Err(AttributionViolation::InvalidFileName { name: owned(name) })
}

/// The verdict on an attribute-model document named `file_name` whose
/// bytes decoded (in the encoding the name denotes) to `decoded`.
pub open spec fn document_verdict(
    file_name: Seq<char>,
    decoded: Result<(Option<Seq<char>>, Seq<AttributeDefModel>), Seq<char>>,
) -> Result<(), AttributionViolationModel> {
    if file_name_encoding(file_name) is None {
        Err(AttributionViolationModel::InvalidFileName { name: file_name })
    } else {
        match decoded {
            Err(reason) => Err(AttributionViolationModel::Malformed { reason }),
            Ok((uri, attrs)) => model_verdict(
                match uri {
                    Some(u) => Some(trim(u)),
                    None => None,
                },
                attrs.map_values(
                    |a: AttributeDefModel|
                        AttributeDefModel {
                            id: trim(a.id),
                            name: trim(a.name),
                            description: trim(a.description),
                        },
                ),
            ),
        }
    }
}

/// Validates an attribute-model document stored as
/// `global_metadata/<file_name>`: the name must pass Attr1-C, and
/// `decoded` is the document's content decoded in the encoding that name
/// denotes (or the decoder's message). The model is canonicalized, then
/// validated; every failure is a SHALL finding.
pub fn validate_attribute_model_document(
    file_name: &str,
    decoded: Result<AttributeModel, String>,
) -> (r: Result<AttributeModel, AttributionViolation>)
    ensures
        match r {
            Ok(_) => document_verdict(
                file_name@,
                match decoded {
                    Ok(m) => Ok((m.uri_model(), m.attrs_model())),
                    Err(e) => Err(e@),
                },
            ) is Ok,
            Err(v) => document_verdict(
                file_name@,
                match decoded {
                    Ok(m) => Ok((m.uri_model(), m.attrs_model())),
                    Err(e) => Err(e@),
                },
            ) == Err::<(), AttributionViolationModel>(v@),
        },
        r is Ok ==> decoded is Ok && r->Ok_0.uri_model() == match decoded->Ok_0.uri_model() {
            Some(u) => Some(trim(u)),
            None => None,
        },
        r is Ok ==> r->Ok_0.attrs_model() == decoded->Ok_0.attrs_model().map_values(
            |a: AttributeDefModel|
                AttributeDefModel {
                    id: trim(a.id),
                    name: trim(a.name),
                    description: trim(a.description),
                },
        ),
{
    match parse_file_name(file_name) {
        Err(v) => Err(v),
        Ok(_) => match decoded {
            Err(reason) => Err(AttributionViolation::Malformed { reason }),
            Ok(model) => {
                let ghost before = model;
                let mut model = model;
                model.canonicalize();
                proof {
                    assert(model.attrs_model() =~= before.attrs_model().map_values(
                        |a: AttributeDefModel|
                            AttributeDefModel {
                                id: trim(a.id),
                                name: trim(a.name),
                                description: trim(a.description),
                            },
                    ));
                }
                match model.validate() {
                    Ok(()) => Ok(model),
                    Err(v) => Err(v),
                }
            },
        },
    }
}

} // verus!
