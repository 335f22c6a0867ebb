//! The decisions of a validation run that do not read the disk: the
//! content sweep, which files content whose class the profile did not
//! declare and compares the profile's declarations with what the datastore
//! holds; the guard that recognizes the `global_metadata/` folder; the
//! filter for extensions a profile vouches for; and the filing of metadata
//! read failures.

use vstd::prelude::*;
use crate::attribution::{
    file_name_encoding, parse_file_name, AttributeDefModel, AttributeModel,
    AttributionViolationModel,
};
use crate::conformance::class::{class_index, class_name, class_uri, RequirementsClass};
use crate::conformance::finding::{CdbViolation, CdbViolationModel};
use crate::conformance::report::{marked, model_entry, recorded, ConformanceReport, ReportModel};
use crate::error::CdbError;
use crate::metadata::{encoding_text, MetadataError, MetadataViolation, MetadataViolationModel};
use crate::naming::{guard_eq, NamingWarning, NamingWarningModel};
use crate::text::{
    chars_of, debug_quoted, debug_text, eq_fold, eq_ignore_ascii_case, owned, push_str, str_eq,
    string_from,
};

verus! {

/// The versioning journal directory below the datastore root.
pub const VERSIONS_DIR: &'static str = "versions";

// ---------------------------------------------------------------------------
// The `global_metadata/` guard

/// The number of leading `/` characters of `s`.
pub open spec fn lead_slashes(s: Seq<char>) -> int
    decreases s.len(),
{
    if s.len() > 0 && s[0] == '/' {
        1 + lead_slashes(s.drop_first())
    } else {
        0
    }
}

/// Whether a logical directory path names the root's `global_metadata/`
/// folder, up to ASCII case (a guard). Only the root's own child qualifies.
pub open spec fn global_metadata_dir_spec(d: Seq<char>) -> bool {
    let r = d.skip(lead_slashes(d));
    r.len() > 0 && eq_fold(r, "global_metadata"@)
}

proof fn lemma_lead_slashes(s: Seq<char>, k: int)
    requires
        0 <= k <= s.len(),
        forall|j: int| 0 <= j < k ==> s[j] == '/',
        k == s.len() || s[k] != '/',
    ensures
        lead_slashes(s) == k,
    decreases k,
{
    if k > 0 {
        lemma_lead_slashes(s.drop_first(), k - 1);
    }
}

/// Whether `dir_logical` names the datastore root's `global_metadata/`
/// folder, folding ASCII case.
pub fn is_global_metadata_dir(dir_logical: &str) -> (r: bool)
    ensures
        r == global_metadata_dir_spec(dir_logical@),
{
    let v = chars_of(dir_logical);
    let mut k: usize = 0;
    while k < v.len() && v[k] == '/'
        invariant
            0 <= k <= v@.len(),
            forall|j: int| 0 <= j < k ==> v@[j] == '/',
        decreases v@.len() - k,
    {
        k += 1;
    }
    proof {
        lemma_lead_slashes(v@, k as int);
    }
    let rest = string_from(&v, k, v.len());
    assert(rest@ =~= dir_logical@.skip(k as int));
    k < v.len() && guard_eq(rest.as_str(), "global_metadata")
}

// ---------------------------------------------------------------------------
// Extensions a profile vouches for (Requirement Name7-B)

/// Whether a profile vouches for extension `e`, up to ASCII case.
pub open spec fn vouched(known: Seq<Seq<char>>, e: Seq<char>) -> bool {
    exists|k: int| 0 <= k < known.len() && eq_fold(#[trigger] known[k], e)
}

/// Whether a warning survives the filter.
pub open spec fn keeps(w: NamingWarningModel, known: Seq<Seq<char>>) -> bool {
    match w {
        NamingWarningModel::NonSpecExtension { extension, .. } => !vouched(known, extension),
        _ => true,
    }
}

/// The warnings of `ws` that survive the filter, in order.
pub open spec fn kept(ws: Seq<NamingWarningModel>, known: Seq<Seq<char>>) -> Seq<NamingWarningModel>
    decreases ws.len(),
{
    if ws.len() == 0 {
        Seq::empty()
    } else if keeps(ws.last(), known) {
        kept(ws.drop_last(), known).push(ws.last())
    } else {
        kept(ws.drop_last(), known)
    }
}

/// Whether a profile vouches for `extension`.
fn is_vouched(known: &[String], extension: &String) -> (r: bool)
    ensures
        r == vouched(known@.map_values(|s: String| s@), extension@),
{
    let ghost ks = known@.map_values(|s: String| s@);
    let mut k: usize = 0;
    while k < known.len()
        invariant
            0 <= k <= known@.len(),
            ks == known@.map_values(|s: String| s@),
            forall|j: int| 0 <= j < k ==> !eq_fold(#[trigger] ks[j], extension@),
        decreases known@.len() - k,
    {
        if eq_ignore_ascii_case(known[k].as_str(), extension.as_str()) {
            assert(eq_fold(ks[k as int], extension@));
            return true;
        }
        k += 1;
    }
    false
}

/// A copy of a naming warning.
fn copy_warning(w: &NamingWarning) -> (r: NamingWarning)
    ensures
        r@ == w@,
{
    match w {
        NamingWarning::NonAscii { name } => NamingWarning::NonAscii { name: name.clone() },
        NamingWarning::NonSpecExtension { name, extension } => NamingWarning::NonSpecExtension {
            name: name.clone(),
            extension: extension.clone(),
        },
    }
}

/// Drops the non-spec-extension warnings whose extension the profile
/// vouches for as industry standard (Name7-B), comparing up to ASCII case.
pub fn filter_known(warnings: Vec<NamingWarning>, known: &[String]) -> (out: Vec<NamingWarning>)
    ensures
        out@.map_values(|w: NamingWarning| w@) == kept(
            warnings@.map_values(|w: NamingWarning| w@),
            known@.map_values(|s: String| s@),
        ),
{
    let ghost ks = known@.map_values(|s: String| s@);
    let ghost ws = warnings@.map_values(|w: NamingWarning| w@);
    let mut out: Vec<NamingWarning> = Vec::new();
    let mut i: usize = 0;
    while i < warnings.len()
        invariant
            0 <= i <= warnings@.len(),
            ks == known@.map_values(|s: String| s@),
            ws == warnings@.map_values(|w: NamingWarning| w@),
            out@.map_values(|w: NamingWarning| w@) == kept(ws.take(i as int), ks),
        decreases warnings@.len() - i,
    {
        let w = &warnings[i];
        let keep = match w {
            NamingWarning::NonSpecExtension { extension, .. } => !is_vouched(known, extension),
            _ => true,
        };
        let ghost before = out@;
        proof {
            assert(ws.take(i + 1).drop_last() =~= ws.take(i as int));
            assert(ws.take(i + 1).last() == w@);
        }
        if keep {
            out.push(copy_warning(w));
            proof {
                assert(out@.map_values(|w: NamingWarning| w@) =~= before.map_values(
                    |w: NamingWarning| w@,
                ).push(w@));
            }
        }
        i += 1;
    }
    proof {
        assert(ws.take(i as int) =~= ws);
    }
    out
}

// ---------------------------------------------------------------------------
// Metadata read failures

/// A reason prefixed with the document it is about: a record's logical
/// path, or the global record when there is none.
pub open spec fn about(subject: Option<Seq<char>>, reason: Seq<char>) -> Seq<char> {
    match subject {
        Some(path) => path + ": "@ + reason,
        None => "global metadata: "@ + reason,
    }
}

/// The reason filed when metadata declares an encoding the core cannot read.
pub open spec fn unreadable_encoding_reason(e: crate::metadata::MetadataEncoding) -> Seq<char> {
    "declares the "@ + encoding_text(e) + " encoding the core cannot read"@
}

/// `reason` prefixed with the document it is about.
fn about_text(subject: Option<&str>, reason: &str) -> (r: String)
    ensures
        r@ == about(opt_str(subject), reason@),
{
    let mut out = match subject {
        Some(path) => {
            let mut out = owned(path);
            push_str(&mut out, ": ");
            out
        },
        None => owned("global metadata: "),
    };
    push_str(&mut out, reason);
    out
}

/// Files a metadata read failure about `subject` (a record's logical path,
/// or `None` for the global record) as a conformance finding, or returns it
/// as an operational error: a violation is recorded as is, a
/// (de)serialization failure or an unreadable encoding becomes a
/// `Malformed` finding whose reason names the document, and an I/O failure
/// is returned.
pub fn record_metadata_error(
    report: &mut ConformanceReport,
    subject: Option<&str>,
    error: MetadataError,
) -> (r: Result<(), CdbError>)
    requires
        old(report).wf(),
    ensures
        final(report).wf(),
        match error {
            MetadataError::Violation(v) => r is Ok && final(report)@ == recorded(
                old(report)@,
                CdbViolationModel::Metadata(v@),
            ),
            MetadataError::Serialization(reason) => r is Ok && final(report)@ == recorded(
                old(report)@,
                CdbViolationModel::Metadata(
                    MetadataViolationModel::Malformed { reason: about(opt_str(subject), reason@) },
                ),
            ),
            MetadataError::UnsupportedEncoding(e) => r is Ok && final(report)@ == recorded(
                old(report)@,
                CdbViolationModel::Metadata(
                    MetadataViolationModel::Malformed {
                        reason: about(opt_str(subject), unreadable_encoding_reason(e)),
                    },
                ),
            ),
            MetadataError::Io(_) => r is Err && r->Err_0 is Metadata && final(report)@ == old(
                report,
            )@,
        },
{
    match error {
        MetadataError::Violation(violation) => {
            report.record_violation(CdbViolation::Metadata(violation));
            Ok(())
        },
        MetadataError::Serialization(reason) => {
            let reason = about_text(subject, reason.as_str());
            report.record_violation(CdbViolation::Metadata(MetadataViolation::Malformed { reason }));
            Ok(())
        },
        MetadataError::UnsupportedEncoding(encoding) => {
            let mut detail = owned("declares the ");
            push_str(&mut detail, encoding.as_str());
            push_str(&mut detail, " encoding the core cannot read");
            let reason = about_text(subject, detail.as_str());
            report.record_violation(CdbViolation::Metadata(MetadataViolation::Malformed { reason }));
            Ok(())
        },
        MetadataError::Io(e) => Err(CdbError::Metadata(MetadataError::Io(e))),
    }
}

// ---------------------------------------------------------------------------
// The content sweep

/// The finding for content of a class the profile did not declare, filed
/// under that class, citing its module URI.
pub open spec fn undeclared_finding(
    profile: Seq<char>,
    class: RequirementsClass,
    element: Seq<char>,
    found: Seq<char>,
) -> CdbViolationModel {
    CdbViolationModel::DeclarationMismatch {
        profile,
        class,
        element,
        declared: "no "@ + class_name(class) + " conformance class"@,
        found,
        clause: class_uri(class),
    }
}

/// `m` after filing undeclared content of `class`: the class is marked
/// content-bearing and the finding recorded.
pub open spec fn undeclared_content(
    m: ReportModel,
    profile: Seq<char>,
    class: RequirementsClass,
    element: Seq<char>,
    found: Seq<char>,
) -> ReportModel {
    recorded(marked(m, class), undeclared_finding(profile, class, element, found))
}

/// Files content of a class the profile did not declare.
pub fn record_undeclared(
    profile_name: &str,
    class: RequirementsClass,
    element: &'static str,
    found: String,
    report: &mut ConformanceReport,
)
    requires
        old(report).wf(),
    ensures
        final(report).wf(),
        final(report)@ == undeclared_content(old(report)@, profile_name@, class, element@, found@),
{
    report.mark_content(class);
    let mut declared = owned("no ");
    push_str(&mut declared, class.as_str());
    push_str(&mut declared, " conformance class");
    report.record_violation(
        CdbViolation::DeclarationMismatch {
            profile: owned(profile_name),
            class,
            element,
            declared,
            found,
            clause: class.requirements_uri(),
        },
    );
}

/// `id=name` of one attribute.
pub open spec fn pair_text(a: AttributeDefModel) -> Seq<char> {
    a.id + "="@ + a.name
}

/// The attributes as `id=name`, separated by `, `.
pub open spec fn pairs_text(attrs: Seq<AttributeDefModel>) -> Seq<char>
    decreases attrs.len(),
{
    if attrs.len() == 0 {
        Seq::empty()
    } else if attrs.len() == 1 {
        pair_text(attrs[0])
    } else {
        pairs_text(attrs.drop_last()) + ", "@ + pair_text(attrs.last())
    }
}

/// A compact rendering of an attribute model: the schema URI when present,
/// then each attribute as `id=name`.
pub open spec fn summary_text(uri: Option<Seq<char>>, attrs: Seq<AttributeDefModel>) -> Seq<char> {
    match uri {
        Some(u) => "schemaUri="@ + u + ", ["@ + pairs_text(attrs) + "]"@,
        None => "["@ + pairs_text(attrs) + "]"@,
    }
}

/// A compact rendering of an attribute model for a finding message.
pub fn model_summary(model: &AttributeModel) -> (r: String)
    ensures
        r@ == summary_text(model.uri_model(), model.attrs_model()),
{
    let ghost attrs = model.attrs_model();
    let mut pairs = String::new();
    let mut i: usize = 0;
    while i < model.attributes.len()
        invariant
            0 <= i <= model.attributes@.len(),
            attrs == model.attrs_model(),
            attrs.len() == model.attributes@.len(),
            pairs@ == pairs_text(attrs.take(i as int)),
        decreases model.attributes@.len() - i,
    {
        proof {
            assert(attrs.take(i + 1).drop_last() =~= attrs.take(i as int));
            assert(attrs.take(i + 1).last() == model.attributes@[i as int]@);
            reveal_strlit(", ");
            reveal_strlit("=");
        }
        if i > 0 {
            push_str(&mut pairs, ", ");
        }
        let a = &model.attributes[i];
        push_str(&mut pairs, a.id.as_str());
        push_str(&mut pairs, "=");
        push_str(&mut pairs, a.name.as_str());
        proof {
            if i == 0 {
                assert(pairs@ =~= pair_text(attrs.take(1)[0]));
            } else {
                assert(pairs@ =~= pairs_text(attrs.take(i as int)) + ", "@ + pair_text(
                    attrs.take(i + 1).last(),
                ));
            }
        }
        i += 1;
    }
    proof {
        assert(attrs.take(i as int) =~= attrs);
    }
    let mut out = String::new();
    match &model.schema_uri {
        Some(u) => {
            push_str(&mut out, "schemaUri=");
            push_str(&mut out, u.as_str());
            push_str(&mut out, ", [");
        },
        None => {
            push_str(&mut out, "[");
        },
    }
    push_str(&mut out, pairs.as_str());
    push_str(&mut out, "]");
    proof {
        match model.uri_model() {
            Some(u) => {
                assert(out@ =~= summary_text(model.uri_model(), attrs));
            },
            None => {
                assert(out@ =~= summary_text(model.uri_model(), attrs));
            },
        }
    }
    out
}

/// Whether two attribute models hold the same text.
pub open spec fn same_model_spec(a: AttributeModel, b: AttributeModel) -> bool {
    a.uri_model() == b.uri_model() && a.attrs_model() == b.attrs_model()
}

/// Whether two attribute models are equal.
fn same_model(a: &AttributeModel, b: &AttributeModel) -> (r: bool)
    ensures
        r == same_model_spec(*a, *b),
{
    let uri_same = match (&a.schema_uri, &b.schema_uri) {
        (Some(x), Some(y)) => str_eq(x.as_str(), y.as_str()),
        (None, None) => true,
        _ => false,
    };
    if !uri_same {
        return false;
    }
    if a.attributes.len() != b.attributes.len() {
        assert(a.attrs_model().len() != b.attrs_model().len());
        return false;
    }
    let ghost ma = a.attrs_model();
    let ghost mb = b.attrs_model();
    let mut i: usize = 0;
    while i < a.attributes.len()
        invariant
            0 <= i <= a.attributes@.len(),
            a.attributes@.len() == b.attributes@.len(),
            ma == a.attrs_model(),
            mb == b.attrs_model(),
            a.uri_model() == b.uri_model(),
            forall|k: int| 0 <= k < i ==> #[trigger] ma[k] == mb[k],
        decreases a.attributes@.len() - i,
    {
        let x = &a.attributes[i];
        let y = &b.attributes[i];
        if !(str_eq(x.id.as_str(), y.id.as_str()) && str_eq(x.name.as_str(), y.name.as_str())
            && str_eq(x.description.as_str(), y.description.as_str())) {
            assert(ma[i as int] != mb[i as int]);
            return false;
        }
        assert(ma[i as int] == mb[i as int]);
        i += 1;
    }
    assert(ma =~= mb);
    true
}

/// Whether class `c` is among the declared classes.
pub(crate) fn is_declared(declared: &[RequirementsClass], c: RequirementsClass) -> (r: bool)
    ensures
        r == declared@.contains(c),
{
    let mut k: usize = 0;
    while k < declared.len()
        invariant
            0 <= k <= declared@.len(),
            forall|j: int| 0 <= j < k ==> declared@[j] != c,
        decreases declared@.len() - k,
    {
        if declared[k] == c {
            assert(declared@[k as int] == c);
            return true;
        }
        k += 1;
    }
    false
}

/// The sweep's step for one file at the top of `global_metadata/` whose
/// stem is the attribute-model stem (up to case): its name is judged by
/// Attr1-C whatever the profile declares.
pub open spec fn attribute_file_step(m: ReportModel, name: Seq<char>) -> ReportModel {
    if file_name_encoding(name) is None {
        recorded(
            marked(m, RequirementsClass::Attribution),
            CdbViolationModel::Attribution(AttributionViolationModel::InvalidFileName { name }),
        )
    } else {
        m
    }
}

/// The sweep's name judgements for the attribute-model files, in order.
pub open spec fn attribute_files_steps(m: ReportModel, names: Seq<Seq<char>>) -> ReportModel
    decreases names.len(),
{
    if names.len() == 0 {
        m
    } else {
        attribute_files_steps(attribute_file_step(m, names[0]), names.drop_first())
    }
}

/// The Attribution part of the sweep: each file's name is judged, then the
/// declaration question is asked once for the class, citing the first file.
pub open spec fn attribution_sweep(
    m: ReportModel,
    profile: Seq<char>,
    attribution_declared: bool,
    names: Seq<Seq<char>>,
) -> ReportModel {
    let judged = attribute_files_steps(m, names);
    if names.len() > 0 && !attribution_declared {
        undeclared_content(
            judged,
            profile,
            RequirementsClass::Attribution,
            "attribute model file"@,
            names[0],
        )
    } else {
        judged
    }
}

/// One name finding per attribute-model file whose name fails Attr1-C, in
/// order.
pub open spec fn bad_name_findings(names: Seq<Seq<char>>) -> Seq<CdbViolationModel>
    decreases names.len(),
{
    if names.len() == 0 {
        Seq::empty()
    } else {
        (if file_name_encoding(names[0]) is None {
            seq![
                CdbViolationModel::Attribution(
                    AttributionViolationModel::InvalidFileName { name: names[0] },
                ),
            ]
        } else {
            Seq::empty()
        }) + bad_name_findings(names.drop_first())
    }
}

proof fn lemma_files_steps_findings(m: ReportModel, names: Seq<Seq<char>>)
    requires
        m.slots.len() == 11,
    ensures
        attribute_files_steps(m, names).slots.len() == 11,
        model_entry(attribute_files_steps(m, names), RequirementsClass::Attribution).violations
            == model_entry(m, RequirementsClass::Attribution).violations + bad_name_findings(names),
        forall|c: RequirementsClass|
            c != RequirementsClass::Attribution ==> #[trigger] model_entry(
                attribute_files_steps(m, names),
                c,
            ) == model_entry(m, c),
    decreases names.len(),
{
    let a = RequirementsClass::Attribution;
    if names.len() == 0 {
        assert(model_entry(m, a).violations + bad_name_findings(names) =~= model_entry(
            m,
            a,
        ).violations);
    } else {
        let m1 = attribute_file_step(m, names[0]);
        lemma_files_steps_findings(m1, names.drop_first());
        assert forall|c: RequirementsClass| c != a implies #[trigger] model_entry(m1, c)
            == model_entry(m, c) by {
            assert(class_index(c) != class_index(a));
        }
        assert(model_entry(m, a).violations + bad_name_findings(names) =~= model_entry(
            m1,
            a,
        ).violations + bad_name_findings(names.drop_first()));
    }
}

/// The sweep's Attribution part, stated directly: the class's findings
/// grow by one name finding per mis-named file, in order, and then by a
/// single undeclared-content finding, citing the first file, when there is
/// any file and Attribution is not declared; no other class changes.
pub proof fn attribution_sweep_findings(
    m: ReportModel,
    profile: Seq<char>,
    attribution_declared: bool,
    names: Seq<Seq<char>>,
)
    requires
        m.slots.len() == 11,
    ensures
        model_entry(
            attribution_sweep(m, profile, attribution_declared, names),
            RequirementsClass::Attribution,
        ).violations == model_entry(m, RequirementsClass::Attribution).violations
            + bad_name_findings(names) + if names.len() > 0 && !attribution_declared {
            seq![
                undeclared_finding(
                    profile,
                    RequirementsClass::Attribution,
                    "attribute model file"@,
                    names[0],
                ),
            ]
        } else {
            Seq::empty()
        },
        forall|c: RequirementsClass|
            c != RequirementsClass::Attribution ==> #[trigger] model_entry(
                attribution_sweep(m, profile, attribution_declared, names),
                c,
            ) == model_entry(m, c),
{
    let a = RequirementsClass::Attribution;
    lemma_files_steps_findings(m, names);
    let judged = attribute_files_steps(m, names);
    if names.len() > 0 && !attribution_declared {
        let r = undeclared_content(judged, profile, a, "attribute model file"@, names[0]);
        assert forall|c: RequirementsClass| c != a implies #[trigger] model_entry(r, c)
            == model_entry(judged, c) by {
            assert(class_index(c) != class_index(a));
        }
    } else {
        assert(model_entry(m, a).violations + bad_name_findings(names) + Seq::empty() =~= model_entry(
            m,
            a,
        ).violations + bad_name_findings(names));
    }
}

/// What the datastore holds that betrays a class: attribute-model files at
/// the top of `global_metadata/`, the global record's `tilingScheme`, a
/// `versions/` journal, and the first resource records carrying
/// `windingOrder` and `domainSet`.
pub struct ContentSignals {
    pub attribute_model_files: Vec<String>,
    pub tiling_scheme: Option<String>,
    pub versions_journal: bool,
    pub winding_order_record: Option<String>,
    pub domain_set_record: Option<String>,
}

/// The content signals as values.
pub struct SignalsModel {
    pub attribute_model_files: Seq<Seq<char>>,
    pub tiling_scheme: Option<Seq<char>>,
    pub versions_journal: bool,
    pub winding_order_record: Option<Seq<char>>,
    pub domain_set_record: Option<Seq<char>>,
}

/// The value of a set of content signals.
pub open spec fn signals_model(s: ContentSignals) -> SignalsModel {
    SignalsModel {
        attribute_model_files: s.attribute_model_files@.map_values(|n: String| n@),
        tiling_scheme: opt_text(s.tiling_scheme),
        versions_journal: s.versions_journal,
        winding_order_record: opt_text(s.winding_order_record),
        domain_set_record: opt_text(s.domain_set_record),
    }
}

/// The text of an attribute model: its schema URI and its definitions.
pub type ModelText = (Option<Seq<char>>, Seq<AttributeDefModel>);

/// The text of an attribute model.
pub open spec fn model_text(m: AttributeModel) -> ModelText {
    (m.uri_model(), m.attrs_model())
}

/// The model of an optional text.
pub open spec fn opt_text(o: Option<String>) -> Option<Seq<char>> {
    match o {
        Some(s) => Some(s@),
        None => None,
    }
}

/// The model of an optional text slice.
pub open spec fn opt_str(o: Option<&str>) -> Option<Seq<char>> {
    match o {
        Some(s) => Some(s@),
        None => None,
    }
}

/// The tiling step: undeclared `tilingScheme` content, and a scheme that
/// differs from the one the profile pins.
pub open spec fn tiling_step(
    m: ReportModel,
    profile: Seq<char>,
    tiling_declared: bool,
    scheme: Option<Seq<char>>,
    pinned: Option<Seq<char>>,
) -> ReportModel {
    match scheme {
        None => m,
        Some(s) => {
            let a = if tiling_declared {
                m
            } else {
                undeclared_content(m, profile, RequirementsClass::Tiling, "tilingScheme element"@, s)
            };
            match pinned {
                Some(p) => if p != s {
                    recorded(
                        a,
                        CdbViolationModel::DeclarationMismatch {
                            profile,
                            class: RequirementsClass::Tiling,
                            element: "tiling scheme"@,
                            declared: p,
                            found: s,
                            clause: "/req/core/tiling-tilingscheme-consistent"@,
                        },
                    )
                } else {
                    a
                },
                None => a,
            }
        },
    }
}

/// A record-carried signal of an undeclared class: the record is quoted.
pub open spec fn record_step(
    m: ReportModel,
    profile: Seq<char>,
    class: RequirementsClass,
    declared: bool,
    element: Seq<char>,
    record: Option<Seq<char>>,
) -> ReportModel {
    match record {
        Some(id) => if declared {
            m
        } else {
            undeclared_content(m, profile, class, element, "resource metadata record "@ + debug_text(id))
        },
        None => m,
    }
}

/// The whole content sweep, step by step.
pub open spec fn sweep_spec(
    m: ReportModel,
    profile: Seq<char>,
    declared: Seq<RequirementsClass>,
    signals: SignalsModel,
    pinned_scheme: Option<Seq<char>>,
    models: Option<(ModelText, ModelText)>,
) -> ReportModel {
    let m1 = attribution_sweep(
        m,
        profile,
        declared.contains(RequirementsClass::Attribution),
        signals.attribute_model_files,
    );
    let m2 = tiling_step(
        m1,
        profile,
        declared.contains(RequirementsClass::Tiling),
        signals.tiling_scheme,
        pinned_scheme,
    );
    let m3 = if signals.versions_journal && !declared.contains(RequirementsClass::Versioning) {
        undeclared_content(m2, profile, RequirementsClass::Versioning, "versions journal"@, "versions/"@)
    } else {
        m2
    };
    let m4 = record_step(
        m3,
        profile,
        RequirementsClass::Topology,
        declared.contains(RequirementsClass::Topology),
        "windingOrder element"@,
        signals.winding_order_record,
    );
    let m5 = record_step(
        m4,
        profile,
        RequirementsClass::Coverages,
        declared.contains(RequirementsClass::Coverages),
        "domainSet element"@,
        signals.domain_set_record,
    );
    match models {
        Some((d, o)) => if d != o {
            recorded(
                m5,
                CdbViolationModel::DeclarationMismatch {
                    profile,
                    class: RequirementsClass::Attribution,
                    element: "attribute model"@,
                    declared: summary_text(d.0, d.1),
                    found: summary_text(o.0, o.1),
                    clause: "/req/core/attribute-model"@,
                },
            )
        } else {
            m5
        },
        None => m5,
    }
}

/// Files a record-carried signal of an undeclared class.
fn sweep_record(
    profile_name: &str,
    class: RequirementsClass,
    declared: bool,
    element: &'static str,
    record: &Option<String>,
    report: &mut ConformanceReport,
)
    requires
        old(report).wf(),
    ensures
        final(report).wf(),
        final(report)@ == record_step(
            old(report)@,
            profile_name@,
            class,
            declared,
            element@,
            opt_text(*record),
        ),
{
    if let Some(id) = record {
        if !declared {
            let mut found = owned("resource metadata record ");
            let quoted = debug_quoted(id.as_str());
            push_str(&mut found, quoted.as_str());
            record_undeclared(profile_name, class, element, found, report);
        }
    }
}

/// The content sweep: files content whose class the profile did not
/// declare, judges every attribute-model file name by Attr1-C, and
/// compares the profile's pinned tiling scheme and attribute model with
/// what the datastore holds. `pinned_scheme` and `declared_model` are the
/// profile's own declarations; `on_disk_model` is the valid model the
/// Attribution stage read, if any.
pub fn sweep_content(
    profile_name: &str,
    declared: &[RequirementsClass],
    signals: &ContentSignals,
    pinned_scheme: Option<&str>,
    declared_model: Option<&AttributeModel>,
    on_disk_model: Option<&AttributeModel>,
    report: &mut ConformanceReport,
)
    requires
        old(report).wf(),
    ensures
        final(report).wf(),
        final(report)@ == sweep_spec(
            old(report)@,
            profile_name@,
            declared@,
            signals_model(*signals),
            opt_str(pinned_scheme),
            match (declared_model, on_disk_model) {
                (Some(d), Some(o)) => Some((model_text(*d), model_text(*o))),
                _ => None,
            },
        ),
{
    let ghost start = report@;
    let attribution_declared = is_declared(declared, RequirementsClass::Attribution);
    let ghost names = signals.attribute_model_files@.map_values(|s: String| s@);
    let mut i: usize = 0;
    assert(names.skip(0) =~= names);
    while i < signals.attribute_model_files.len()
        invariant
            0 <= i <= signals.attribute_model_files@.len(),
            names == signals.attribute_model_files@.map_values(|s: String| s@),
            report.wf(),
            attribute_files_steps(start, names) == attribute_files_steps(
                report@,
                names.skip(i as int),
            ),
        decreases signals.attribute_model_files@.len() - i,
    {
        let name = &signals.attribute_model_files[i];
        proof {
            assert(names.skip(i as int).drop_first() =~= names.skip(i + 1));
            assert(names.skip(i as int)[0] == name@);
        }
        match parse_file_name(name.as_str()) {
            Err(violation) => {
                report.mark_content(RequirementsClass::Attribution);
                report.record_violation(CdbViolation::Attribution(violation));
            },
            Ok(_) => {},
        }
        i += 1;
    }
    proof {
        assert(names.skip(i as int) =~= Seq::<Seq<char>>::empty());
    }
    if signals.attribute_model_files.len() > 0 && !attribution_declared {
        record_undeclared(
            profile_name,
            RequirementsClass::Attribution,
            "attribute model file",
            signals.attribute_model_files[0].clone(),
            report,
        );
    }
    if let Some(scheme) = &signals.tiling_scheme {
        if !is_declared(declared, RequirementsClass::Tiling) {
            record_undeclared(
                profile_name,
                RequirementsClass::Tiling,
                "tilingScheme element",
                scheme.clone(),
                report,
            );
        }
        if let Some(pinned) = pinned_scheme {
            if !str_eq(pinned, scheme.as_str()) {
                report.record_violation(
                    CdbViolation::DeclarationMismatch {
                        profile: owned(profile_name),
                        class: RequirementsClass::Tiling,
                        element: "tiling scheme",
                        declared: owned(pinned),
                        found: scheme.clone(),
                        clause: "/req/core/tiling-tilingscheme-consistent",
                    },
                );
            }
        }
    }
    if signals.versions_journal && !is_declared(declared, RequirementsClass::Versioning) {
        let mut found = owned(VERSIONS_DIR);
        push_str(&mut found, "/");
        proof {
            reveal_strlit("versions");
            reveal_strlit("/");
            reveal_strlit("versions/");
            assert(found@ =~= "versions/"@);
        }
        record_undeclared(
            profile_name,
            RequirementsClass::Versioning,
            "versions journal",
            found,
            report,
        );
    }
    let topology_declared = is_declared(declared, RequirementsClass::Topology);
    sweep_record(
        profile_name,
        RequirementsClass::Topology,
        topology_declared,
        "windingOrder element",
        &signals.winding_order_record,
        report,
    );
    let coverages_declared = is_declared(declared, RequirementsClass::Coverages);
    sweep_record(
        profile_name,
        RequirementsClass::Coverages,
        coverages_declared,
        "domainSet element",
        &signals.domain_set_record,
        report,
    );
    if let (Some(d), Some(o)) = (declared_model, on_disk_model) {
        if !same_model(d, o) {
            report.record_violation(
                CdbViolation::DeclarationMismatch {
                    profile: owned(profile_name),
                    class: RequirementsClass::Attribution,
                    element: "attribute model",
                    declared: model_summary(d),
                    found: model_summary(o),
                    clause: "/req/core/attribute-model",
                },
            );
        }
    }
}

} // verus!
