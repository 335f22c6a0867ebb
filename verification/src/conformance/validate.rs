//! The datastore validator: from what was found on disk, the conformance
//! report of a datastore against a profile. Stages run in order: the
//! mandatory declarations, the folder hierarchy, the file-naming walk, the
//! global metadata record, the Metadata5 encoding sweep, the storage CRS,
//! the resource metadata records, the declared optional classes, and the
//! content sweep. Conformance findings are recorded; only an I/O failure
//! met on the way stops the run.

use vstd::prelude::*;
use crate::attribution::{
    document_verdict, file_name_encoding, AttributeDefModel, AttributeModel, AttributionViolationModel,
    VECTOR_ATTRIBUTES_STEM,
};
use crate::conformance::class::{class_index, class_index_bijection, is_mandatory, RequirementsClass};
use crate::conformance::declarations::{
    check_crs_declaration, check_declarations, check_global_declarations, compare_step,
    crs_findings, crs_warnings_recorded, declaration_findings, declaration_step, global_findings,
};
use crate::conformance::report::{fresh_report, marked, model_entry, with_entry, FindingsModel};
use crate::conformance::stages::{attribution_stage, attribution_stage_spec, decoded_view};
use crate::conformance::sweep::{
    about, attribute_file_step, attribute_files_steps, attribution_sweep, is_declared, model_text,
    opt_str, opt_text, record_metadata_error, record_step, signals_model, sweep_content, sweep_spec,
    tiling_step,
    undeclared_content, undeclared_finding, unreadable_encoding_reason, ContentSignals, ModelText,
    SignalsModel,
};
use crate::crs::{CrsError, CrsViolation, CrsWarning, CrsWarningModel};
use crate::datastore::{path_encoding, CdbDatastore};
use crate::error::CdbError;
use crate::hierarchy::{HierarchyReport, HierarchyViolation, HierarchyWarning};
use crate::metadata::{
    encoding_findings, encoding_text, encoding_violations, extension_encoding, standard_text,
    tag_fault, uom_text, LanguageTag,
    MetadataEncoding, MetadataError, MetadataStandard, MetadataViolation, MetadataViolationModel,
    UnitOfMeasure,
};
use crate::conformance::finding::{CdbViolation, CdbViolationModel, CdbWarning, CdbWarningModel};
use crate::conformance::report::{recorded, warned, ConformanceReport, ReportModel};
use crate::conformance::sweep::{filter_known, global_metadata_dir_spec, is_global_metadata_dir, kept};
use crate::naming::{
    component_warnings, component_warnings_spec, file_warnings, file_warnings_spec, guard_eq,
    component_spec, naming_result, rule_matches, split_ext, split_extension, warnings_model,
    NamingViolationModel, NamingWarning, StyleGuide,
};
use crate::text::{debug_text, eq_fold, owned, push_str, trim};

verus! {

// ---------------------------------------------------------------------------
// Recording lists of findings

/// `m` after recording each violation in turn.
pub open spec fn recorded_all(m: ReportModel, vs: Seq<CdbViolationModel>) -> ReportModel
    decreases vs.len(),
{
    if vs.len() == 0 {
        m
    } else {
        recorded_all(recorded(m, vs[0]), vs.drop_first())
    }
}

/// `m` after recording each warning in turn.
pub open spec fn warned_all(m: ReportModel, ws: Seq<CdbWarningModel>) -> ReportModel
    decreases ws.len(),
{
    if ws.len() == 0 {
        m
    } else {
        warned_all(warned(m, ws[0]), ws.drop_first())
    }
}

/// Records each violation of `vs`, in order.
pub fn record_all(report: &mut ConformanceReport, vs: Vec<CdbViolation>)
    requires
        old(report).wf(),
    ensures
        final(report).wf(),
        final(report)@ == recorded_all(old(report)@, vs@.map_values(|v: CdbViolation| v@)),
{
    let ghost all = vs@.map_values(|v: CdbViolation| v@);
    let ghost start = report@;
    let mut vs = vs;
    let n = vs.len();
    let mut i: usize = 0;
    assert(all.skip(0) =~= all);
    while i < n
        invariant
            report.wf(),
            0 <= i <= n,
            n == all.len(),
            vs@.map_values(|v: CdbViolation| v@) =~= all.skip(i as int),
            recorded_all(start, all) == recorded_all(report@, all.skip(i as int)),
        decreases n - i,
    {
        let v = vs.remove(0);
        proof {
            assert(all.skip(i as int)[0] == v@);
            assert(all.skip(i as int).drop_first() =~= all.skip(i + 1));
            assert(vs@.map_values(|v: CdbViolation| v@) =~= all.skip(i + 1));
        }
        report.record_violation(v);
        i += 1;
    }
}

/// Records each warning of `ws`, in order.
pub fn warn_all(report: &mut ConformanceReport, ws: Vec<CdbWarning>)
    requires
        old(report).wf(),
    ensures
        final(report).wf(),
        final(report)@ == warned_all(old(report)@, ws@.map_values(|w: CdbWarning| w@)),
{
    let ghost all = ws@.map_values(|w: CdbWarning| w@);
    let ghost start = report@;
    let mut ws = ws;
    let n = ws.len();
    let mut i: usize = 0;
    assert(all.skip(0) =~= all);
    while i < n
        invariant
            report.wf(),
            0 <= i <= n,
            n == all.len(),
            ws@.map_values(|w: CdbWarning| w@) =~= all.skip(i as int),
            warned_all(start, all) == warned_all(report@, all.skip(i as int)),
        decreases n - i,
    {
        let w = ws.remove(0);
        proof {
            assert(all.skip(i as int)[0] == w@);
            assert(all.skip(i as int).drop_first() =~= all.skip(i + 1));
            assert(ws@.map_values(|w: CdbWarning| w@) =~= all.skip(i + 1));
        }
        report.record_warning(w);
        i += 1;
    }
}

/// Naming warnings as report warnings.
pub open spec fn naming_warnings(ws: Seq<crate::naming::NamingWarningModel>) -> Seq<CdbWarningModel> {
    ws.map_values(|w: crate::naming::NamingWarningModel| CdbWarningModel::Naming(w))
}

fn warn_naming(report: &mut ConformanceReport, ws: Vec<NamingWarning>)
    requires
        old(report).wf(),
    ensures
        final(report).wf(),
        final(report)@ == warned_all(old(report)@, naming_warnings(warnings_model(ws@))),
{
    let mut out: Vec<CdbWarning> = Vec::new();
    let mut ws = ws;
    let ghost all = warnings_model(ws@);
    let n = ws.len();
    let mut i: usize = 0;
    while i < n
        invariant
            0 <= i <= n,
            n == all.len(),
            ws@.len() == n - i,
            warnings_model(ws@) =~= all.skip(i as int),
            out@.map_values(|w: CdbWarning| w@) =~= naming_warnings(all.take(i as int)),
        decreases n - i,
    {
        let ghost before = ws@;
        let ghost out_before = out@;
        let w = ws.remove(0);
        proof {
            assert(before.remove(0) =~= before.drop_first());
            assert(warnings_model(before)[0] == before[0]@);
            assert(all.skip(i as int)[0] == w@);
            assert(all[i as int] == w@);
            assert(warnings_model(before.drop_first()) =~= warnings_model(before).drop_first());
            assert(all.skip(i as int).drop_first() =~= all.skip(i + 1));
            assert(warnings_model(ws@) =~= all.skip(i + 1));
        }
        out.push(CdbWarning::Naming(w));
        proof {
            assert(out@ == out_before.push(CdbWarning::Naming(w)));
            assert(out@.map_values(|w: CdbWarning| w@) =~= out_before.map_values(|w: CdbWarning| w@).push(
                CdbWarningModel::Naming(w@),
            ));
            assert(all.take(i + 1) =~= all.take(i as int).push(all[i as int]));
            assert(naming_warnings(all.take(i + 1)) =~= naming_warnings(all.take(i as int)).push(
                CdbWarningModel::Naming(all[i as int]),
            ));
        }
        i += 1;
    }
    proof {
        assert(all.take(n as int) =~= all);
    }
    warn_all(report, out);
}

// ---------------------------------------------------------------------------
// The file-naming walk

/// A directory entry as the walk sees it: its name, whether it is a file
/// or a directory (links are neither), and whether it resolves to a
/// directory when links are followed.
pub struct EntryFacts {
    pub name: String,
    pub is_file: bool,
    pub is_dir: bool,
    pub resolves_to_dir: bool,
}

/// An entry with the logical path of its directory (empty for the root).
pub struct WalkedEntry {
    pub dir_logical: String,
    pub entry: EntryFacts,
}

/// Whether an entry directly below the root is the `versions/` journal:
/// its name matches up to ASCII case and it resolves to a directory.
pub open spec fn journal_spec(dir_logical: Seq<char>, e: EntryFacts) -> bool {
    dir_logical.len() == 0 && eq_fold(e.name@, "versions"@) && (e.is_dir || e.resolves_to_dir)
}

/// Whether an entry is the `versions/` journal.
pub fn is_journal(dir_logical: &str, e: &EntryFacts) -> (r: bool)
    ensures
        r == journal_spec(dir_logical@, *e),
{
    proof {
        reveal_strlit("");
    }
    let root = crate::text::str_eq(dir_logical, "");
    proof {
        if dir_logical@.len() == 0 {
            assert(dir_logical@ =~= ""@);
        }
    }
    root && guard_eq(e.name.as_str(), crate::conformance::sweep::VERSIONS_DIR) && (e.is_dir
        || e.resolves_to_dir)
}

/// Whether the walk descends into an entry: a real directory (never a
/// link) that is not the journal, which versioning owns.
pub fn descends(dir_logical: &str, e: &EntryFacts) -> (r: bool)
    ensures
        r == (e.is_dir && !journal_spec(dir_logical@, *e)),
{
    e.is_dir && !is_journal(dir_logical, e)
}

// ---------------------------------------------------------------------------
// Visiting order

/// Whether name `a` comes no later than `b` from position `i` on:
/// character by character, a name before every name it is a prefix of.
pub open spec fn name_le_from(a: Seq<char>, b: Seq<char>, i: int) -> bool
    decreases a.len() - i,
{
    if i < 0 || i >= a.len() {
        true
    } else if i >= b.len() {
        false
    } else if (a[i] as u32) < (b[i] as u32) {
        true
    } else if (a[i] as u32) > (b[i] as u32) {
        false
    } else {
        name_le_from(a, b, i + 1)
    }
}

/// The order in which the walk visits the entries of a directory: by
/// name, character by character.
pub open spec fn name_le(a: Seq<char>, b: Seq<char>) -> bool {
    name_le_from(a, b, 0)
}

/// The order of entries by their names.
pub open spec fn entry_le(x: EntryFacts, y: EntryFacts) -> bool {
    name_le(x.name@, y.name@)
}

proof fn lemma_name_le_total(a: Seq<char>, b: Seq<char>, i: int)
    requires
        0 <= i,
    ensures
        name_le_from(a, b, i) || name_le_from(b, a, i),
    decreases a.len() - i,
{
    if i < a.len() && i < b.len() && (a[i] as u32) == (b[i] as u32) {
        lemma_name_le_total(a, b, i + 1);
    }
}

proof fn lemma_name_le_trans(a: Seq<char>, b: Seq<char>, c: Seq<char>, i: int)
    requires
        0 <= i,
        name_le_from(a, b, i),
        name_le_from(b, c, i),
    ensures
        name_le_from(a, c, i),
    decreases a.len() - i,
{
    if i < a.len() && i < b.len() && i < c.len() && (a[i] as u32) == (b[i] as u32) && (b[i] as u32) == (c[i] as u32) {
        lemma_name_le_trans(a, b, c, i + 1);
    }
}

/// Whether name `a` comes no later than `b`.
fn name_le_exec(a: &str, b: &str) -> (r: bool)
    ensures
        r == name_le(a@, b@),
{
    let x = crate::text::chars_of(a);
    let y = crate::text::chars_of(b);
    let mut i: usize = 0;
    while i < x.len()
        invariant
            x@ == a@,
            y@ == b@,
            0 <= i <= x@.len(),
            name_le(a@, b@) == name_le_from(a@, b@, i as int),
        decreases x.len() - i,
    {
        if i >= y.len() {
            return false;
        }
        let c = x[i] as u32;
        let d = y[i] as u32;
        if c < d {
            return true;
        }
        if c > d {
            return false;
        }
        i += 1;
    }
    true
}

/// The entries of one directory in visiting order: the same entries,
/// sorted by name (entries with equal names keep their order).
pub fn in_name_order(entries: Vec<EntryFacts>) -> (r: Vec<EntryFacts>)
    ensures
        r@.to_multiset() == entries@.to_multiset(),
        r@.len() == entries@.len(),
        forall|p: int, q: int| 0 <= p < q < r@.len() ==> #[trigger] entry_le(r@[p], r@[q]),
{
    broadcast use vstd::seq_lib::group_to_multiset_ensures;

    let ghost all = entries@;
    let mut rest = entries;
    let mut out: Vec<EntryFacts> = Vec::new();
    proof {
        assert(out@.to_multiset() =~= vstd::multiset::Multiset::empty());
    }
    while rest.len() > 0
        invariant
            out@.to_multiset().add(rest@.to_multiset()) == all.to_multiset(),
            out@.len() + rest@.len() == all.len(),
            forall|p: int, q: int| 0 <= p < q < out@.len() ==> #[trigger] entry_le(out@[p], out@[q]),
        decreases rest.len(),
    {
        let ghost before = rest@;
        let x = rest.pop().unwrap();
        proof {
            assert(before =~= rest@.push(x));
            vstd::seq_lib::to_multiset_build(rest@, x);
        }
        let mut j: usize = 0;
        while j < out.len()
            invariant
                0 <= j <= out@.len(),
                forall|k: int| 0 <= k < j ==> #[trigger] entry_le(out@[k], x),
            ensures
                0 <= j <= out@.len(),
                forall|k: int| 0 <= k < j ==> #[trigger] entry_le(out@[k], x),
                j < out@.len() ==> !entry_le(out@[j as int], x),
            decreases out.len() - j,
        {
            if !name_le_exec(out[j].name.as_str(), x.name.as_str()) {
                break;
            }
            j += 1;
        }
        let ghost old_out = out@;
        proof {
            vstd::seq_lib::to_multiset_insert(old_out, j as int, x);
        }
        out.insert(j, x);
        proof {
            let s = out@;
            assert(s == old_out.insert(j as int, x));
            if (j as int) < old_out.len() {
                assert(!entry_le(old_out[j as int], x));
                lemma_name_le_total(x.name@, old_out[j as int].name@, 0);
            }
            assert forall|p: int, q: int| 0 <= p < q < s.len() implies #[trigger] entry_le(s[p], s[q]) by {
                if q < j {
                    assert(entry_le(old_out[p], old_out[q]));
                } else if q == j {
                    assert(entry_le(old_out[p], x));
                } else if p == j {
                    if q - 1 > j {
                        assert(entry_le(old_out[j as int], old_out[q - 1]));
                        lemma_name_le_trans(x.name@, old_out[j as int].name@, old_out[q - 1].name@, 0);
                    }
                } else if p < j {
                    assert(entry_le(old_out[p], old_out[q - 1]));
                } else {
                    assert(entry_le(old_out[p - 1], old_out[q - 1]));
                }
            }
            assert(out@.to_multiset().add(rest@.to_multiset()) =~= all.to_multiset());
        }
    }
    out
}

/// What the walk has gathered: the report, the file names at the top of
/// `global_metadata/`, the logical path of every file, the attribute-model
/// files, and whether the journal was met.
pub struct WalkModel {
    pub report: ReportModel,
    pub global_files: Seq<Seq<char>>,
    pub file_paths: Seq<Seq<char>>,
    pub attribute_files: Seq<Seq<char>>,
    pub journal: bool,
}

/// The walk's step for one entry: the name is judged against the style
/// guide; a file draws its extension warnings (less the vouched ones) and
/// joins the inventory, and at the top of `global_metadata/` the file list
/// and, when its stem is the attribute-model stem up to case, the
/// attribute-model signal; a directory draws its warnings and may be the
/// journal.
pub open spec fn entry_step(w: WalkModel, guide: StyleGuide, known: Seq<Seq<char>>, we: WalkedEntry) -> WalkModel {
    let name = we.entry.name@;
    let dir = we.dir_logical@;
    let r1 = match guide.component_rule(name) {
        Err(v) => recorded(w.report, CdbViolationModel::Naming(v)),
        Ok(()) => w.report,
    };
    if we.entry.is_file {
        let in_gm = global_metadata_dir_spec(dir);
        WalkModel {
            report: warned_all(r1, naming_warnings(kept(file_warnings_spec(name), known))),
            global_files: if in_gm {
                w.global_files.push(name)
            } else {
                w.global_files
            },
            attribute_files: if in_gm && eq_fold(split_ext(name).0, "vector_attributes"@) {
                w.attribute_files.push(name)
            } else {
                w.attribute_files
            },
            file_paths: w.file_paths.push(dir + "/"@ + name),
            journal: w.journal,
        }
    } else {
        WalkModel {
            report: warned_all(r1, naming_warnings(component_warnings_spec(name))),
            journal: w.journal || journal_spec(dir, we.entry),
            ..w
        }
    }
}

/// The walk over entries in the order they are visited.
pub open spec fn walk_spec(w: WalkModel, guide: StyleGuide, known: Seq<Seq<char>>, es: Seq<WalkedEntry>) -> WalkModel
    decreases es.len(),
{
    if es.len() == 0 {
        w
    } else {
        walk_spec(entry_step(w, guide, known, es[0]), guide, known, es.drop_first())
    }
}

/// What the walk gathers, as executable values.
pub struct WalkState {
    pub global_metadata_files: Vec<String>,
    pub file_logical_paths: Vec<String>,
    pub attribute_model_files: Vec<String>,
    pub versions_journal: bool,
}

/// The value of a walk's state with its report.
pub open spec fn walk_model(s: WalkState, r: ReportModel) -> WalkModel {
    WalkModel {
        report: r,
        global_files: s.global_metadata_files@.map_values(|n: String| n@),
        file_paths: s.file_logical_paths@.map_values(|n: String| n@),
        attribute_files: s.attribute_model_files@.map_values(|n: String| n@),
        journal: s.versions_journal,
    }
}

fn walk_entry(
    guide: &StyleGuide,
    known: &[String],
    we: &WalkedEntry,
    state: &mut WalkState,
    report: &mut ConformanceReport,
)
    requires
        old(report).wf(),
    ensures
        final(report).wf(),
        walk_model(*final(state), final(report)@) == entry_step(
            walk_model(*old(state), old(report)@),
            *guide,
            known@.map_values(|s: String| s@),
            *we,
        ),
{
    let name = we.entry.name.as_str();
    match guide.validate_component(name) {
        Err(v) => {
            report.record_violation(CdbViolation::Naming(v));
        },
        Ok(()) => {},
    }
    if we.entry.is_file {
        warn_naming(report, filter_known(file_warnings(name), known));
        if is_global_metadata_dir(we.dir_logical.as_str()) {
            state.global_metadata_files.push(owned(name));
            if guard_eq(split_extension(name).0.as_str(), VECTOR_ATTRIBUTES_STEM) {
                state.attribute_model_files.push(owned(name));
            }
        }
        let mut path = owned(we.dir_logical.as_str());
        push_str(&mut path, "/");
        push_str(&mut path, name);
        state.file_logical_paths.push(path);
        proof {
            reveal_strlit("/");
            reveal_strlit("vector_attributes");
        }
    } else {
        warn_naming(report, component_warnings(name));
        if is_journal(we.dir_logical.as_str(), &we.entry) {
            state.versions_journal = true;
        }
    }
    proof {
        reveal_strlit("vector_attributes");
        assert(walk_model(*state, report@).global_files =~= entry_step(
            walk_model(*old(state), old(report)@),
            *guide,
            known@.map_values(|s: String| s@),
            *we,
        ).global_files);
        assert(walk_model(*state, report@).attribute_files =~= entry_step(
            walk_model(*old(state), old(report)@),
            *guide,
            known@.map_values(|s: String| s@),
            *we,
        ).attribute_files);
        assert(walk_model(*state, report@).file_paths =~= entry_step(
            walk_model(*old(state), old(report)@),
            *guide,
            known@.map_values(|s: String| s@),
            *we,
        ).file_paths);
    }
}

/// Runs the file-naming walk over entries in visiting order.
pub fn walk_entries(
    guide: &StyleGuide,
    known: &[String],
    entries: &[WalkedEntry],
    state: &mut WalkState,
    report: &mut ConformanceReport,
)
    requires
        old(report).wf(),
    ensures
        final(report).wf(),
        walk_model(*final(state), final(report)@) == walk_spec(
            walk_model(*old(state), old(report)@),
            *guide,
            known@.map_values(|s: String| s@),
            entries@,
        ),
{
    let ghost k = known@.map_values(|s: String| s@);
    let ghost start = walk_model(*state, report@);
    let mut i: usize = 0;
    assert(entries@.skip(0) =~= entries@);
    while i < entries.len()
        invariant
            report.wf(),
            0 <= i <= entries@.len(),
            k == known@.map_values(|s: String| s@),
            walk_spec(start, *guide, k, entries@) == walk_spec(
                walk_model(*state, report@),
                *guide,
                k,
                entries@.skip(i as int),
            ),
        decreases entries@.len() - i,
    {
        proof {
            assert(entries@.skip(i as int)[0] == entries@[i as int]);
            assert(entries@.skip(i as int).drop_first() =~= entries@.skip(i + 1));
        }
        walk_entry(guide, known, &entries[i], state, report);
        i += 1;
    }
    proof {
        assert(entries@.skip(i as int) =~= Seq::<WalkedEntry>::empty());
    }
}


// ---------------------------------------------------------------------------
// The facts a validation run is judged on

/// What a profile declares: its name, its conformance classes, its style
/// guide and vouched extensions, its metadata encoding, standard and unit,
/// its storage CRS in WKT (or why it is malformed), its pinned tiling
/// scheme and its attribute model.
pub struct ProfileFacts {
    pub name: String,
    pub classes: Vec<RequirementsClass>,
    pub style_guide: StyleGuide,
    pub known_extensions: Vec<String>,
    pub metadata_encoding: MetadataEncoding,
    pub metadata_standard: MetadataStandard,
    pub uom: UnitOfMeasure,
    pub storage_crs: Result<String, CrsViolation>,
    pub tiling_scheme: Option<String>,
    pub attribute_model: Option<AttributeModel>,
}

/// What the global metadata record declares.
pub struct GlobalFacts {
    pub encoding: MetadataEncoding,
    pub standard: MetadataStandard,
    pub uom: UnitOfMeasure,
    pub language: LanguageTag,
    pub tiling_scheme: Option<String>,
}

/// The stored CRS in WKT, whether it is the profile's CRS, and its SHOULD
/// findings.
pub struct CrsFacts {
    pub found: String,
    pub same: bool,
    pub warnings: Vec<CrsWarning>,
}

/// What reading a resource metadata record gave: nothing (the path did not
/// resolve), the record's identifier and which of the conditional elements
/// `windingOrder`, `domainSet` and `uom` it carries, or why it could not be
/// read.
pub enum RecordRead {
    Skipped,
    Parsed { id: String, winding_order: bool, domain_set: bool, uom: bool },
    Failed(MetadataError),
}

/// A file the profile recognizes as resource metadata, by logical path, in
/// walk order.
pub struct RecordFacts {
    pub path: String,
    pub read: RecordRead,
}

/// What was found on disk: the hierarchy check, the walked
/// entries in visiting order, the global record, the resource records, the
/// stored CRS, and the attribute-model file named for the record's
/// encoding with its decoded content, when present.
pub struct DatastoreFacts {
    pub hierarchy: HierarchyReport,
    pub entries: Vec<WalkedEntry>,
    pub global: Result<GlobalFacts, MetadataError>,
    pub records: Vec<RecordFacts>,
    pub crs: Result<CrsFacts, CrsError>,
    pub attribute_file: Option<(String, Result<AttributeModel, String>)>,
}

// ---------------------------------------------------------------------------
// The stages

/// The report after a metadata read failure about `subject`, or `None`
/// for an I/O failure.
pub open spec fn metadata_error_spec(m: ReportModel, subject: Option<Seq<char>>, e: MetadataError) -> Option<ReportModel> {
    match e {
        MetadataError::Violation(v) => Some(recorded(m, CdbViolationModel::Metadata(v@))),
        MetadataError::Serialization(reason) => Some(
            recorded(
                m,
                CdbViolationModel::Metadata(
                    MetadataViolationModel::Malformed { reason: about(subject, reason@) },
                ),
            ),
        ),
        MetadataError::UnsupportedEncoding(x) => Some(
            recorded(
                m,
                CdbViolationModel::Metadata(
                    MetadataViolationModel::Malformed {
                        reason: about(subject, unreadable_encoding_reason(x)),
                    },
                ),
            ),
        ),
        MetadataError::Io(_) => None,
    }
}

/// The profile's language as a declaration: the style guide's tag, or the
/// finding that it is malformed.
pub open spec fn declared_language(tag: Seq<char>) -> Result<Seq<char>, CdbViolationModel> {
    match tag_fault(tag) {
        None => Ok(tag),
        Some(reason) => Err(
            CdbViolationModel::Metadata(MetadataViolationModel::InvalidLanguageTag { value: tag, reason }),
        ),
    }
}

/// The global-record stage.
pub open spec fn global_stage(m: ReportModel, p: ProfileFacts, g: Result<GlobalFacts, MetadataError>) -> Option<ReportModel> {
    match g {
        Ok(g) => Some(
            global_findings(
                m,
                p.name@,
                p.metadata_encoding,
                g.encoding,
                p.metadata_standard,
                g.standard,
                p.uom,
                g.uom,
                declared_language(p.style_guide.lang()),
                g.language.text(),
            ),
        ),
        Err(e) => metadata_error_spec(m, None, e),
    }
}

/// The storage-CRS stage.
pub open spec fn crs_stage(m: ReportModel, p: ProfileFacts, c: Result<CrsFacts, CrsError>) -> Option<ReportModel> {
    match c {
        Ok(c) => Some(
            crs_findings(
                m,
                p.name@,
                match p.storage_crs {
                    Ok(t) => Ok(t@),
                    Err(v) => Err(CdbViolationModel::Crs(v@)),
                },
                c.found@,
                c.same,
                c.warnings@.map_values(|w: CrsWarning| w@),
            ),
        ),
        Err(CrsError::Violation(v)) => Some(recorded(m, CdbViolationModel::Crs(v@))),
        Err(CrsError::Io(_)) => None,
    }
}

/// The report, the first records carrying `windingOrder` and `domainSet`,
/// and whether a record carrying `uom` was read, as the record stage goes.
pub type RecordState = (ReportModel, Option<Seq<char>>, Option<Seq<char>>, bool);

/// The record stage's step for one record: a GeoPackage record is not
/// read by the core; a parsed record may be the first to carry a signal;
/// a failure is filed about the record.
pub open spec fn record_one(acc: Option<RecordState>, r: RecordFacts) -> Option<RecordState> {
    match acc {
        None => None,
        Some((m, w, d, u)) => if path_encoding(r.path@) == Some(MetadataEncoding::Gpkg) {
            Some((m, w, d, u))
        } else {
            match r.read {
                RecordRead::Skipped => Some((m, w, d, u)),
                RecordRead::Parsed { id, winding_order, domain_set, uom } => Some(
                    (
                        m,
                        if winding_order && w is None {
                            Some(id@)
                        } else {
                            w
                        },
                        if domain_set && d is None {
                            Some(id@)
                        } else {
                            d
                        },
                        u || uom,
                    ),
                ),
                RecordRead::Failed(e) => match metadata_error_spec(m, Some(r.path@), e) {
                    None => None,
                    Some(m2) => Some((m2, w, d, u)),
                },
            }
        },
    }
}

/// The record stage over records in order.
pub open spec fn record_stage(acc: Option<RecordState>, rs: Seq<RecordFacts>) -> Option<RecordState>
    decreases rs.len(),
{
    if rs.len() == 0 {
        acc
    } else {
        record_stage(record_one(acc, rs[0]), rs.drop_first())
    }
}

/// `m` with class `c` listed when the profile declares it.
pub open spec fn declare_step(m: ReportModel, declared: Seq<RequirementsClass>, c: RequirementsClass) -> ReportModel {
    if declared.contains(c) {
        with_entry(m, c, model_entry(m, c))
    } else {
        m
    }
}

/// `m` with class `c` marked as holding content when the profile declares
/// it and the datastore holds such content.
pub open spec fn content_step(m: ReportModel, declared: Seq<RequirementsClass>, c: RequirementsClass, held: bool) -> ReportModel {
    if declared.contains(c) && held {
        marked(m, c)
    } else {
        m
    }
}

/// The canonical text of a decoded attribute model.
pub open spec fn canonical_text(d: Result<AttributeModel, String>) -> ModelText {
    (
        match d->Ok_0.uri_model() {
            Some(u) => Some(trim(u)),
            None => None,
        },
        d->Ok_0.attrs_model().map_values(
            |a: AttributeDefModel|
                AttributeDefModel { id: trim(a.id), name: trim(a.name), description: trim(a.description) },
        ),
    )
}

/// The declared optional classes, in listing order, each listed; for
/// Attribution, the attribute-model file named for the global record's
/// encoding is judged when present; Coverages holds content when a read
/// record carries `domainSet`, Geometry when one carries `uom`. Returns the
/// report and the valid model's text, if any.
pub open spec fn optional_stage(m: ReportModel, declared: Seq<RequirementsClass>, global_read: bool, file: Option<(String, Result<AttributeModel, String>)>, coverage_held: bool, geometry_held: bool) -> (ReportModel, Option<ModelText>) {
    let m1 = declare_step(m, declared, RequirementsClass::Attribution);
    let (m2, on_disk) = if declared.contains(RequirementsClass::Attribution) && global_read && file is Some {
        let (n, d) = file->0;
        (
            attribution_stage_spec(m1, n@, d),
            if document_verdict(n@, decoded_view(d)) is Ok {
                Some(canonical_text(d))
            } else {
                None
            },
        )
    } else {
        (m1, None)
    };
    let m3 = content_step(
        declare_step(m2, declared, RequirementsClass::Coverages),
        declared,
        RequirementsClass::Coverages,
        coverage_held,
    );
    let m4 = content_step(
        declare_step(m3, declared, RequirementsClass::Geometry),
        declared,
        RequirementsClass::Geometry,
        geometry_held,
    );
    let m5 = declare_step(m4, declared, RequirementsClass::Tiling);
    let m6 = declare_step(m5, declared, RequirementsClass::Topology);
    (declare_step(m6, declared, RequirementsClass::Versioning), on_disk)
}

/// The hierarchy findings as report findings.
pub open spec fn hierarchy_violations(h: HierarchyReport) -> Seq<CdbViolationModel> {
    h.violations@.map_values(|v: HierarchyViolation| CdbViolationModel::Hierarchy(v@))
}

/// The hierarchy warnings as report warnings.
pub open spec fn hierarchy_warnings(h: HierarchyReport) -> Seq<CdbWarningModel> {
    h.warnings@.map_values(|w: HierarchyWarning| CdbWarningModel::Hierarchy(w@))
}

/// A walk that has gathered nothing yet.
pub open spec fn walk_start(m: ReportModel) -> WalkModel {
    WalkModel {
        report: m,
        global_files: Seq::empty(),
        file_paths: Seq::empty(),
        attribute_files: Seq::empty(),
        journal: false,
    }
}

/// The tiling scheme the global record names, if it was read.
pub open spec fn global_tiling(g: Result<GlobalFacts, MetadataError>) -> Option<Seq<char>> {
    match g {
        Ok(g) => opt_text(g.tiling_scheme),
        Err(_) => None,
    }
}

/// The stages up to the storage CRS: the report they leave and what the
/// walk gathered, or `None` when an I/O failure stopped them.
pub open spec fn front_spec(p: ProfileFacts, root: Seq<char>, f: DatastoreFacts) -> Option<(ReportModel, WalkModel)> {
    let name = p.name@;
    let m1 = declaration_findings(fresh_report(name, root), name, p.classes@);
    let m2 = warned_all(
        recorded_all(m1, hierarchy_violations(f.hierarchy)),
        hierarchy_warnings(f.hierarchy),
    );
    let w = walk_spec(
        walk_start(m2),
        p.style_guide,
        p.known_extensions@.map_values(|s: String| s@),
        f.entries@,
    );
    match global_stage(w.report, p, f.global) {
        None => None,
        Some(m4) => {
            let names = w.global_files + f.records@.map_values(|r: RecordFacts| r.path@);
            let m5 = recorded_all(
                m4,
                encoding_findings(p.metadata_encoding, names).map_values(
                    |v: MetadataViolationModel| CdbViolationModel::Metadata(v),
                ),
            );
            match crs_stage(m5, p, f.crs) {
                None => None,
                Some(m6) => Some((m6, w)),
            }
        },
    }
}

/// The report of a validation run, or `None` when an I/O failure stopped
/// it: the stages in order, each on the report the previous one left.
pub open spec fn validate_spec(p: ProfileFacts, root: Seq<char>, f: DatastoreFacts) -> Option<ReportModel> {
    match front_spec(p, root, f) {
        None => None,
        Some((m6, w)) => match record_stage(Some((m6, None, None, false)), f.records@) {
            None => None,
            Some((m7, winding, domain, uom)) => {
                let (m8, on_disk) = optional_stage(
                    m7,
                    p.classes@,
                    f.global is Ok,
                    f.attribute_file,
                    domain is Some,
                    uom,
                );
                let signals = SignalsModel {
                    attribute_model_files: w.attribute_files,
                    tiling_scheme: global_tiling(f.global),
                    versions_journal: w.journal,
                    winding_order_record: winding,
                    domain_set_record: domain,
                };
                Some(
                    sweep_spec(
                        m8,
                        p.name@,
                        p.classes@,
                        signals,
                        opt_text(p.tiling_scheme),
                        match (p.attribute_model, on_disk) {
                            (Some(d), Some(o)) => Some((model_text(d), o)),
                            _ => None,
                        },
                    ),
                )
            },
        },
    }
}

// ---------------------------------------------------------------------------
// Running the stages

fn record_hierarchy(report: &mut ConformanceReport, h: HierarchyReport)
    requires
        old(report).wf(),
    ensures
        final(report).wf(),
        final(report)@ == warned_all(
            recorded_all(old(report)@, hierarchy_violations(h)),
            hierarchy_warnings(h),
        ),
{
    let ghost hv = hierarchy_violations(h);
    let ghost hw = hierarchy_warnings(h);
    let HierarchyReport { violations, warnings } = h;
    let mut vs = violations;
    let mut out: Vec<CdbViolation> = Vec::new();
    let n = vs.len();
    let mut i: usize = 0;
    while i < n
        invariant
            0 <= i <= n,
            n == hv.len(),
            vs@.len() == n - i,
            vs@.map_values(|v: HierarchyViolation| CdbViolationModel::Hierarchy(v@)) =~= hv.skip(i as int),
            out@.map_values(|v: CdbViolation| v@) =~= hv.take(i as int),
        decreases n - i,
    {
        let ghost before = vs@;
        let ghost out_before = out@;
        let v = vs.remove(0);
        proof {
            assert(before.remove(0) =~= before.drop_first());
            assert(hv.skip(i as int)[0] == CdbViolationModel::Hierarchy(v@));
            assert(hv[i as int] == CdbViolationModel::Hierarchy(v@));
            assert(before.drop_first().map_values(|v: HierarchyViolation| CdbViolationModel::Hierarchy(v@))
                =~= before.map_values(|v: HierarchyViolation| CdbViolationModel::Hierarchy(v@)).drop_first());
            assert(hv.skip(i as int).drop_first() =~= hv.skip(i + 1));
        }
        out.push(CdbViolation::Hierarchy(v));
        proof {
            assert(out@.map_values(|v: CdbViolation| v@) =~= out_before.map_values(|v: CdbViolation| v@).push(hv[i as int]));
            assert(hv.take(i + 1) =~= hv.take(i as int).push(hv[i as int]));
        }
        i += 1;
    }
    proof {
        assert(hv.take(n as int) =~= hv);
    }
    record_all(report, out);
    let mut ws = warnings;
    let mut wout: Vec<CdbWarning> = Vec::new();
    let n = ws.len();
    let mut i: usize = 0;
    while i < n
        invariant
            0 <= i <= n,
            n == hw.len(),
            ws@.len() == n - i,
            ws@.map_values(|w: HierarchyWarning| CdbWarningModel::Hierarchy(w@)) =~= hw.skip(i as int),
            wout@.map_values(|w: CdbWarning| w@) =~= hw.take(i as int),
        decreases n - i,
    {
        let ghost before = ws@;
        let ghost out_before = wout@;
        let w = ws.remove(0);
        proof {
            assert(before.remove(0) =~= before.drop_first());
            assert(hw.skip(i as int)[0] == CdbWarningModel::Hierarchy(w@));
            assert(hw[i as int] == CdbWarningModel::Hierarchy(w@));
            assert(before.drop_first().map_values(|w: HierarchyWarning| CdbWarningModel::Hierarchy(w@))
                =~= before.map_values(|w: HierarchyWarning| CdbWarningModel::Hierarchy(w@)).drop_first());
            assert(hw.skip(i as int).drop_first() =~= hw.skip(i + 1));
        }
        wout.push(CdbWarning::Hierarchy(w));
        proof {
            assert(wout@.map_values(|w: CdbWarning| w@) =~= out_before.map_values(|w: CdbWarning| w@).push(hw[i as int]));
            assert(hw.take(i + 1) =~= hw.take(i as int).push(hw[i as int]));
        }
        i += 1;
    }
    proof {
        assert(hw.take(n as int) =~= hw);
    }
    warn_all(report, wout);
}

fn record_metadata_all(report: &mut ConformanceReport, vs: Vec<MetadataViolation>)
    requires
        old(report).wf(),
    ensures
        final(report).wf(),
        final(report)@ == recorded_all(
            old(report)@,
            vs@.map_values(|v: MetadataViolation| v@).map_values(
                |v: MetadataViolationModel| CdbViolationModel::Metadata(v),
            ),
        ),
{
    let ghost all = vs@.map_values(|v: MetadataViolation| v@).map_values(
        |v: MetadataViolationModel| CdbViolationModel::Metadata(v),
    );
    let mut vs = vs;
    let mut out: Vec<CdbViolation> = Vec::new();
    let n = vs.len();
    let mut i: usize = 0;
    while i < n
        invariant
            0 <= i <= n,
            n == all.len(),
            vs@.len() == n - i,
            vs@.map_values(|v: MetadataViolation| CdbViolationModel::Metadata(v@)) =~= all.skip(i as int),
            out@.map_values(|v: CdbViolation| v@) =~= all.take(i as int),
        decreases n - i,
    {
        let ghost before = vs@;
        let ghost out_before = out@;
        let v = vs.remove(0);
        proof {
            assert(before.remove(0) =~= before.drop_first());
            assert(all.skip(i as int)[0] == CdbViolationModel::Metadata(v@));
            assert(all[i as int] == CdbViolationModel::Metadata(v@));
            assert(before.drop_first().map_values(|v: MetadataViolation| CdbViolationModel::Metadata(v@))
                =~= before.map_values(|v: MetadataViolation| CdbViolationModel::Metadata(v@)).drop_first());
            assert(all.skip(i as int).drop_first() =~= all.skip(i + 1));
        }
        out.push(CdbViolation::Metadata(v));
        proof {
            assert(out@.map_values(|v: CdbViolation| v@) =~= out_before.map_values(|v: CdbViolation| v@).push(all[i as int]));
            assert(all.take(i + 1) =~= all.take(i as int).push(all[i as int]));
        }
        i += 1;
    }
    proof {
        assert(all.take(n as int) =~= all);
    }
    record_all(report, out);
}

/// Whether a logical path names a GeoPackage file, which the core does
/// not read.
pub fn is_geopackage_path(path: &str) -> (r: bool)
    ensures
        r == (path_encoding(path@) == Some(MetadataEncoding::Gpkg)),
{
    match crate::datastore::path_extension(path) {
        Some(e) => match extension_encoding(e.as_str()) {
            Some(MetadataEncoding::Gpkg) => true,
            _ => false,
        },
        None => false,
    }
}

proof fn lemma_record_stage_stopped(rs: Seq<RecordFacts>)
    ensures
        record_stage(None, rs) is None,
    decreases rs.len(),
{
    if rs.len() > 0 {
        lemma_record_stage_stopped(rs.drop_first());
    }
}

// ---------------------------------------------------------------------------
// What the stages after the records keep listed

/// `b` starts with every violation of `a`, in order.
pub open spec fn violations_kept(a: Seq<CdbViolationModel>, b: Seq<CdbViolationModel>) -> bool {
    &&& a.len() <= b.len()
    &&& forall|i: int| 0 <= i < a.len() ==> #[trigger] b[i] == a[i]
}

/// `b` has as many slots as `a`, lists every class `a` lists, and keeps
/// every violation `a` records.
pub open spec fn keeps_listing(a: ReportModel, b: ReportModel) -> bool {
    &&& b.slots.len() == a.slots.len()
    &&& forall|c: RequirementsClass|
        #![trigger class_index(c)]
        (a.slots[class_index(c)] is Some ==> b.slots[class_index(c)] is Some) && violations_kept(
            model_entry(a, c).violations,
            model_entry(b, c).violations,
        )
}

proof fn lemma_with_entry_keeps(m: ReportModel)
    requires
        m.slots.len() == 11,
    ensures
        forall|c: RequirementsClass, f: FindingsModel|
            #![trigger with_entry(m, c, f)]
            (violations_kept(model_entry(m, c).violations, f.violations) ==> keeps_listing(
                m,
                with_entry(m, c, f),
            )) && with_entry(m, c, f).slots[class_index(c)] is Some && model_entry(
                with_entry(m, c, f),
                c,
            ) == f,
{
    assert forall|c: RequirementsClass, f: FindingsModel|
        #![trigger with_entry(m, c, f)]
        (violations_kept(model_entry(m, c).violations, f.violations) ==> keeps_listing(
            m,
            with_entry(m, c, f),
        )) && with_entry(m, c, f).slots[class_index(c)] is Some && model_entry(
            with_entry(m, c, f),
            c,
        ) == f by {
        class_index_bijection(c);
        assert forall|d: RequirementsClass|
            #![trigger class_index(d)]
            violations_kept(model_entry(m, c).violations, f.violations) implies (m.slots[class_index(
                d,
            )] is Some ==> with_entry(m, c, f).slots[class_index(d)] is Some) && violations_kept(
                model_entry(m, d).violations,
                model_entry(with_entry(m, c, f), d).violations,
            ) by {
            class_index_bijection(d);
            if d != c {
                assert(class_index(d) != class_index(c));
                assert(model_entry(with_entry(m, c, f), d) == model_entry(m, d));
            }
        }
    }
}

proof fn lemma_keeps_trans(a: ReportModel, b: ReportModel, c: ReportModel)
    requires
        keeps_listing(a, b),
        keeps_listing(b, c),
    ensures
        keeps_listing(a, c),
{
    assert forall|d: RequirementsClass|
        #![trigger class_index(d)]
        (a.slots[class_index(d)] is Some ==> c.slots[class_index(d)] is Some) && violations_kept(
            model_entry(a, d).violations,
            model_entry(c, d).violations,
        ) by {
        let va = model_entry(a, d).violations;
        let vb = model_entry(b, d).violations;
        let vc = model_entry(c, d).violations;
        assert(violations_kept(va, vb));
        assert(violations_kept(vb, vc));
        assert forall|i: int| 0 <= i < va.len() implies #[trigger] vc[i] == va[i] by {
            assert(vb[i] == va[i]);
            assert(vc[i] == vb[i]);
        }
    }
}

proof fn lemma_keeps_refl(a: ReportModel)
    ensures
        keeps_listing(a, a),
{
}

proof fn lemma_recorded_keeps(m: ReportModel, v: CdbViolationModel)
    requires
        m.slots.len() == 11,
    ensures
        keeps_listing(m, recorded(m, v)),
{
    lemma_with_entry_keeps(m);
}

proof fn lemma_marked_keeps(m: ReportModel, c: RequirementsClass)
    requires
        m.slots.len() == 11,
    ensures
        keeps_listing(m, marked(m, c)),
{
    lemma_with_entry_keeps(m);
}

proof fn lemma_undeclared_keeps(m: ReportModel, profile: Seq<char>, c: RequirementsClass, e: Seq<char>, found: Seq<char>)
    requires
        m.slots.len() == 11,
    ensures
        keeps_listing(m, undeclared_content(m, profile, c, e, found)),
{
    let a = marked(m, c);
    lemma_marked_keeps(m, c);
    lemma_recorded_keeps(a, undeclared_finding(profile, c, e, found));
    lemma_keeps_trans(m, a, undeclared_content(m, profile, c, e, found));
}

proof fn lemma_files_steps_keeps(m: ReportModel, names: Seq<Seq<char>>)
    requires
        m.slots.len() == 11,
    ensures
        keeps_listing(m, attribute_files_steps(m, names)),
    decreases names.len(),
{
    if names.len() > 0 {
        let a = attribute_file_step(m, names[0]);
        if file_name_encoding(names[0]) is None {
            let b = marked(m, RequirementsClass::Attribution);
            lemma_marked_keeps(m, RequirementsClass::Attribution);
            lemma_recorded_keeps(
                b,
                CdbViolationModel::Attribution(AttributionViolationModel::InvalidFileName { name: names[0] }),
            );
            lemma_keeps_trans(m, b, a);
        }
        lemma_files_steps_keeps(a, names.drop_first());
        lemma_keeps_trans(m, a, attribute_files_steps(m, names));
    }
}

/// The content sweep unlists no class.
proof fn lemma_sweep_keeps(
    m: ReportModel,
    profile: Seq<char>,
    declared: Seq<RequirementsClass>,
    signals: SignalsModel,
    pinned: Option<Seq<char>>,
    models: Option<(ModelText, ModelText)>,
)
    requires
        m.slots.len() == 11,
    ensures
        keeps_listing(m, sweep_spec(m, profile, declared, signals, pinned, models)),
{
    let names = signals.attribute_model_files;
    let j = attribute_files_steps(m, names);
    lemma_files_steps_keeps(m, names);
    let m1 = attribution_sweep(m, profile, declared.contains(RequirementsClass::Attribution), names);
    if names.len() > 0 && !declared.contains(RequirementsClass::Attribution) {
        lemma_undeclared_keeps(j, profile, RequirementsClass::Attribution, "attribute model file"@, names[0]);
        lemma_keeps_trans(m, j, m1);
    }
    let tiling = declared.contains(RequirementsClass::Tiling);
    let m2 = tiling_step(m1, profile, tiling, signals.tiling_scheme, pinned);
    match signals.tiling_scheme {
        None => {},
        Some(s) => {
            let a = if tiling {
                m1
            } else {
                undeclared_content(m1, profile, RequirementsClass::Tiling, "tilingScheme element"@, s)
            };
            if !tiling {
                lemma_undeclared_keeps(m1, profile, RequirementsClass::Tiling, "tilingScheme element"@, s);
            }
            lemma_with_entry_keeps(a);
            lemma_keeps_trans(m1, a, m2);
        },
    }
    lemma_keeps_trans(m, m1, m2);
    let m3 = if signals.versions_journal && !declared.contains(RequirementsClass::Versioning) {
        undeclared_content(m2, profile, RequirementsClass::Versioning, "versions journal"@, "versions/"@)
    } else {
        m2
    };
    if signals.versions_journal && !declared.contains(RequirementsClass::Versioning) {
        lemma_undeclared_keeps(m2, profile, RequirementsClass::Versioning, "versions journal"@, "versions/"@);
    }
    lemma_keeps_trans(m, m2, m3);
    let m4 = record_step(
        m3,
        profile,
        RequirementsClass::Topology,
        declared.contains(RequirementsClass::Topology),
        "windingOrder element"@,
        signals.winding_order_record,
    );
    if let Some(id) = signals.winding_order_record {
        lemma_undeclared_keeps(
            m3,
            profile,
            RequirementsClass::Topology,
            "windingOrder element"@,
            "resource metadata record "@ + debug_text(id),
        );
    }
    lemma_keeps_trans(m, m3, m4);
    let m5 = record_step(
        m4,
        profile,
        RequirementsClass::Coverages,
        declared.contains(RequirementsClass::Coverages),
        "domainSet element"@,
        signals.domain_set_record,
    );
    if let Some(id) = signals.domain_set_record {
        lemma_undeclared_keeps(
            m4,
            profile,
            RequirementsClass::Coverages,
            "domainSet element"@,
            "resource metadata record "@ + debug_text(id),
        );
    }
    lemma_keeps_trans(m, m4, m5);
    lemma_with_entry_keeps(m5);
    lemma_keeps_trans(m, m5, sweep_spec(m, profile, declared, signals, pinned, models));
}

/// After the optional stage every declared optional class is listed.
proof fn lemma_optional_lists_declared(
    m: ReportModel,
    declared: Seq<RequirementsClass>,
    global_read: bool,
    file: Option<(String, Result<AttributeModel, String>)>,
    coverage_held: bool,
    geometry_held: bool,
)
    requires
        m.slots.len() == 11,
    ensures
        ({
            let out = optional_stage(m, declared, global_read, file, coverage_held, geometry_held).0;
            &&& out.slots.len() == 11
            &&& keeps_listing(m, out)
            &&& forall|c: RequirementsClass|
                #![trigger class_index(c)]
                !is_mandatory(c) && declared.contains(c) ==> out.slots[class_index(c)] is Some
        }),
{
    lemma_with_entry_keeps(m);
    let m1 = declare_step(m, declared, RequirementsClass::Attribution);
    lemma_with_entry_keeps(m1);
    let m2 = if declared.contains(RequirementsClass::Attribution) && global_read && file is Some {
        attribution_stage_spec(m1, (file->0).0@, (file->0).1)
    } else {
        m1
    };
    if declared.contains(RequirementsClass::Attribution) && global_read && file is Some {
        let b = marked(m1, RequirementsClass::Attribution);
        lemma_with_entry_keeps(b);
        lemma_keeps_trans(m1, b, m2);
    }
    let a3 = declare_step(m2, declared, RequirementsClass::Coverages);
    lemma_with_entry_keeps(m2);
    lemma_keeps_trans(m1, m2, a3);
    let m3 = content_step(a3, declared, RequirementsClass::Coverages, coverage_held);
    lemma_with_entry_keeps(a3);
    lemma_keeps_trans(m1, a3, m3);
    let a4 = declare_step(m3, declared, RequirementsClass::Geometry);
    lemma_with_entry_keeps(m3);
    lemma_keeps_trans(m1, m3, a4);
    let m4 = content_step(a4, declared, RequirementsClass::Geometry, geometry_held);
    lemma_with_entry_keeps(a4);
    lemma_keeps_trans(m1, a4, m4);
    let m5 = declare_step(m4, declared, RequirementsClass::Tiling);
    lemma_with_entry_keeps(m4);
    lemma_keeps_trans(m1, m4, m5);
    let m6 = declare_step(m5, declared, RequirementsClass::Topology);
    lemma_with_entry_keeps(m5);
    lemma_keeps_trans(m1, m5, m6);
    let m7 = declare_step(m6, declared, RequirementsClass::Versioning);
    lemma_with_entry_keeps(m6);
    lemma_keeps_trans(m1, m6, m7);
    assert(a3.slots.len() == 11);
    assert(m5.slots.len() == 11);
    lemma_keeps_trans(m, m1, m7);
    assert forall|c: RequirementsClass|
        #![trigger class_index(c)]
        !is_mandatory(c) && declared.contains(c) implies m7.slots[class_index(c)] is Some by {
        if c == RequirementsClass::Coverages {
            assert(a3.slots[class_index(c)] is Some);
            lemma_keeps_trans(a3, m3, m7);
        } else if c == RequirementsClass::Geometry {
            assert(a4.slots[class_index(c)] is Some);
            lemma_keeps_trans(a4, m4, m7);
        } else if c == RequirementsClass::Tiling {
            lemma_keeps_trans(m5, m6, m7);
        } else if c == RequirementsClass::Topology {
        }
    }
}

/// Every mandatory class is listed, among eleven slots.
pub open spec fn lists_mandatory(m: ReportModel) -> bool {
    &&& m.slots.len() == 11
    &&& forall|c: RequirementsClass|
        #![trigger class_index(c)]
        is_mandatory(c) ==> m.slots[class_index(c)] is Some
}

proof fn lemma_with_entry_lists(m: ReportModel)
    requires
        lists_mandatory(m),
    ensures
        forall|c: RequirementsClass, f: FindingsModel|
            #![trigger with_entry(m, c, f)]
            lists_mandatory(with_entry(m, c, f)),
{
    assert forall|c: RequirementsClass, f: FindingsModel|
        #![trigger with_entry(m, c, f)]
        lists_mandatory(with_entry(m, c, f)) by {
        class_index_bijection(c);
        assert forall|d: RequirementsClass|
            #![trigger class_index(d)]
            is_mandatory(d) implies with_entry(m, c, f).slots[class_index(d)] is Some by {
            class_index_bijection(d);
        }
    }
}

proof fn lemma_keeps_lists(a: ReportModel, b: ReportModel)
    requires
        lists_mandatory(a),
        keeps_listing(a, b),
    ensures
        lists_mandatory(b),
{
}

proof fn lemma_recorded_all_lists(m: ReportModel, vs: Seq<CdbViolationModel>)
    requires
        lists_mandatory(m),
    ensures
        lists_mandatory(recorded_all(m, vs)),
    decreases vs.len(),
{
    if vs.len() > 0 {
        lemma_with_entry_lists(m);
        lemma_recorded_all_lists(recorded(m, vs[0]), vs.drop_first());
    }
}

proof fn lemma_warned_all_lists(m: ReportModel, ws: Seq<CdbWarningModel>)
    requires
        lists_mandatory(m),
    ensures
        lists_mandatory(warned_all(m, ws)),
    decreases ws.len(),
{
    if ws.len() > 0 {
        lemma_with_entry_lists(m);
        lemma_warned_all_lists(warned(m, ws[0]), ws.drop_first());
    }
}

proof fn lemma_crs_warnings_lists(m: ReportModel, ws: Seq<CrsWarningModel>)
    requires
        lists_mandatory(m),
    ensures
        lists_mandatory(crs_warnings_recorded(m, ws)),
    decreases ws.len(),
{
    if ws.len() > 0 {
        lemma_with_entry_lists(m);
        lemma_crs_warnings_lists(warned(m, CdbWarningModel::Crs(ws[0])), ws.drop_first());
    }
}

proof fn lemma_walk_lists(w: WalkModel, guide: StyleGuide, known: Seq<Seq<char>>, es: Seq<WalkedEntry>)
    requires
        lists_mandatory(w.report),
    ensures
        lists_mandatory(walk_spec(w, guide, known, es).report),
    decreases es.len(),
{
    if es.len() > 0 {
        let we = es[0];
        let name = we.entry.name@;
        lemma_with_entry_lists(w.report);
        let r1 = match guide.component_rule(name) {
            Err(v) => recorded(w.report, CdbViolationModel::Naming(v)),
            Ok(()) => w.report,
        };
        if we.entry.is_file {
            lemma_warned_all_lists(r1, naming_warnings(kept(file_warnings_spec(name), known)));
        } else {
            lemma_warned_all_lists(r1, naming_warnings(component_warnings_spec(name)));
        }
        lemma_walk_lists(entry_step(w, guide, known, we), guide, known, es.drop_first());
    }
}

proof fn lemma_error_lists(m: ReportModel, subject: Option<Seq<char>>, e: MetadataError)
    requires
        lists_mandatory(m),
    ensures
        metadata_error_spec(m, subject, e) matches Some(m2) ==> lists_mandatory(m2),
{
    lemma_with_entry_lists(m);
}

proof fn lemma_record_stage_lists(s: RecordState, rs: Seq<RecordFacts>)
    requires
        lists_mandatory(s.0),
    ensures
        record_stage(Some(s), rs) matches Some(t) ==> lists_mandatory(t.0),
    decreases rs.len(),
{
    if rs.len() > 0 {
        let next = record_one(Some(s), rs[0]);
        match rs[0].read {
            RecordRead::Failed(e) => lemma_error_lists(s.0, Some(rs[0].path@), e),
            _ => {},
        }
        match next {
            None => lemma_record_stage_stopped(rs.drop_first()),
            Some(t) => lemma_record_stage_lists(t, rs.drop_first()),
        }
    }
}

/// A validation report lists every mandatory class and every optional
/// class the profile declares, whether or not its stage found anything.
pub proof fn reports_list_mandatory_and_declared_classes(p: ProfileFacts, root: Seq<char>, f: DatastoreFacts)
    ensures
        validate_spec(p, root, f) matches Some(m) ==> forall|c: RequirementsClass|
            #![trigger class_index(c)]
            (is_mandatory(c) || p.classes@.contains(c)) ==> m.slots[class_index(c)] is Some,
{
    let name = p.name@;
    let m0 = fresh_report(name, root);
    assert(lists_mandatory(m0)) by {
        assert forall|c: RequirementsClass|
            #![trigger class_index(c)]
            is_mandatory(c) implies m0.slots[class_index(c)] is Some by {
            class_index_bijection(c);
        }
    }
    let d = p.classes@;
    let k1 = declaration_step(m0, name, d, RequirementsClass::Crs);
    lemma_with_entry_lists(m0);
    let k2 = declaration_step(k1, name, d, RequirementsClass::FileNaming);
    lemma_with_entry_lists(k1);
    let k3 = declaration_step(k2, name, d, RequirementsClass::FileStructure);
    lemma_with_entry_lists(k2);
    let k4 = declaration_step(k3, name, d, RequirementsClass::Links);
    lemma_with_entry_lists(k3);
    let m1 = declaration_findings(m0, name, d);
    lemma_with_entry_lists(k4);
    let a = recorded_all(m1, hierarchy_violations(f.hierarchy));
    lemma_recorded_all_lists(m1, hierarchy_violations(f.hierarchy));
    let m2 = warned_all(a, hierarchy_warnings(f.hierarchy));
    lemma_warned_all_lists(a, hierarchy_warnings(f.hierarchy));
    let w = walk_spec(walk_start(m2), p.style_guide, p.known_extensions@.map_values(|s: String| s@), f.entries@);
    lemma_walk_lists(walk_start(m2), p.style_guide, p.known_extensions@.map_values(|s: String| s@), f.entries@);
    let r = w.report;
    match f.global {
        Ok(g) => {
            let g1 = compare_step(r, name, "metadata encoding"@, encoding_text(p.metadata_encoding), encoding_text(g.encoding), "/req/core/metadata-encoding"@);
            lemma_with_entry_lists(r);
            let g2 = compare_step(g1, name, "metadata standard"@, standard_text(p.metadata_standard), standard_text(g.standard), "/req/core/metadata-standard"@);
            lemma_with_entry_lists(g1);
            let g3 = compare_step(g2, name, "uom"@, uom_text(p.uom), uom_text(g.uom), "/req/core/metadata-uom-measure"@);
            lemma_with_entry_lists(g2);
            let g4 = match declared_language(p.style_guide.lang()) {
                Ok(tag) => compare_step(g3, name, "language"@, tag, g.language.text(), "/req/core/metadata-language"@),
                Err(v) => recorded(g3, v),
            };
            lemma_with_entry_lists(g3);
            lemma_with_entry_lists(g4);
        },
        Err(e) => lemma_error_lists(r, None, e),
    }
    match global_stage(r, p, f.global) {
        None => {},
        Some(m4) => {
            let names = w.global_files + f.records@.map_values(|x: RecordFacts| x.path@);
            let vs = encoding_findings(p.metadata_encoding, names).map_values(
                |v: MetadataViolationModel| CdbViolationModel::Metadata(v),
            );
            lemma_recorded_all_lists(m4, vs);
            let m5 = recorded_all(m4, vs);
            match f.crs {
                Ok(c) => {
                    lemma_with_entry_lists(m5);
                    let declared = match p.storage_crs {
                        Ok(t) => Ok(t@),
                        Err(v) => Err(CdbViolationModel::Crs(v@)),
                    };
                    let c1 = match declared {
                        Err(v) => recorded(m5, v),
                        Ok(text) => if c.same {
                            m5
                        } else {
                            recorded(
                                m5,
                                CdbViolationModel::DeclarationMismatch {
                                    profile: name,
                                    class: RequirementsClass::Crs,
                                    element: "storage CRS"@,
                                    declared: text,
                                    found: c.found@,
                                    clause: "/req/core/crs/crsStorage"@,
                                },
                            )
                        },
                    };
                    lemma_crs_warnings_lists(c1, c.warnings@.map_values(|x: CrsWarning| x@));
                },
                Err(_) => {
                    lemma_with_entry_lists(m5);
                },
            }
            match front_spec(p, root, f) {
                None => {},
                Some((m6, w6)) => {
                    assert(w6 == w);
                    lemma_record_stage_lists((m6, None, None, false), f.records@);
                    match record_stage(Some((m6, None, None, false)), f.records@) {
                        None => {},
                        Some((m7, winding, domain, uom)) => {
                            lemma_optional_lists_declared(m7, d, f.global is Ok, f.attribute_file, domain is Some, uom);
                            let (m8, on_disk) = optional_stage(m7, d, f.global is Ok, f.attribute_file, domain is Some, uom);
                            lemma_keeps_lists(m7, m8);
                            let signals = SignalsModel {
                                attribute_model_files: w.attribute_files,
                                tiling_scheme: global_tiling(f.global),
                                versions_journal: w.journal,
                                winding_order_record: winding,
                                domain_set_record: domain,
                            };
                            let models = match (p.attribute_model, on_disk) {
                                (Some(x), Some(o)) => Some((model_text(x), o)),
                                _ => None,
                            };
                            lemma_sweep_keeps(m8, name, d, signals, opt_text(p.tiling_scheme), models);
                            let out = sweep_spec(m8, name, d, signals, opt_text(p.tiling_scheme), models);
                            lemma_keeps_lists(m8, out);
                            assert forall|c: RequirementsClass|
                                #![trigger class_index(c)]
                                (is_mandatory(c) || d.contains(c)) implies out.slots[class_index(c)] is Some by {
                                if !is_mandatory(c) {
                                    assert(m8.slots[class_index(c)] is Some);
                                }
                            }
                        },
                    }
                },
            }
        },
    }
}

proof fn lemma_recorded_all_keeps(m: ReportModel, vs: Seq<CdbViolationModel>)
    requires
        m.slots.len() == 11,
    ensures
        keeps_listing(m, recorded_all(m, vs)),
    decreases vs.len(),
{
    if vs.len() > 0 {
        let a = recorded(m, vs[0]);
        lemma_recorded_keeps(m, vs[0]);
        lemma_recorded_all_keeps(a, vs.drop_first());
        lemma_keeps_trans(m, a, recorded_all(m, vs));
    }
}

proof fn lemma_warned_all_keeps(m: ReportModel, ws: Seq<CdbWarningModel>)
    requires
        m.slots.len() == 11,
    ensures
        keeps_listing(m, warned_all(m, ws)),
    decreases ws.len(),
{
    if ws.len() > 0 {
        let a = warned(m, ws[0]);
        lemma_with_entry_keeps(m);
        lemma_warned_all_keeps(a, ws.drop_first());
        lemma_keeps_trans(m, a, warned_all(m, ws));
    }
}

proof fn lemma_crs_warnings_keeps(m: ReportModel, ws: Seq<CrsWarningModel>)
    requires
        m.slots.len() == 11,
    ensures
        keeps_listing(m, crs_warnings_recorded(m, ws)),
    decreases ws.len(),
{
    if ws.len() > 0 {
        let a = warned(m, CdbWarningModel::Crs(ws[0]));
        lemma_with_entry_keeps(m);
        lemma_crs_warnings_keeps(a, ws.drop_first());
        lemma_keeps_trans(m, a, crs_warnings_recorded(m, ws));
    }
}

proof fn lemma_entry_keeps(w: WalkModel, guide: StyleGuide, known: Seq<Seq<char>>, we: WalkedEntry)
    requires
        w.report.slots.len() == 11,
    ensures
        keeps_listing(w.report, entry_step(w, guide, known, we).report),
        guide.component_rule(we.entry.name@) matches Err(v) ==> model_entry(
            entry_step(w, guide, known, we).report,
            RequirementsClass::FileNaming,
        ).violations.contains(CdbViolationModel::Naming(v)),
{
    let name = we.entry.name@;
    lemma_with_entry_keeps(w.report);
    let r1 = match guide.component_rule(name) {
        Err(v) => recorded(w.report, CdbViolationModel::Naming(v)),
        Ok(()) => w.report,
    };
    let ws = if we.entry.is_file {
        naming_warnings(kept(file_warnings_spec(name), known))
    } else {
        naming_warnings(component_warnings_spec(name))
    };
    lemma_warned_all_keeps(r1, ws);
    lemma_keeps_trans(w.report, r1, warned_all(r1, ws));
    assert(entry_step(w, guide, known, we).report == warned_all(r1, ws));
    if let Err(v) = guide.component_rule(name) {
        let n = CdbViolationModel::Naming(v);
        let before = model_entry(w.report, RequirementsClass::FileNaming).violations;
        let after = model_entry(r1, RequirementsClass::FileNaming).violations;
        assert(after == before.push(n));
        assert(after[before.len() as int] == n);
        let fin = model_entry(warned_all(r1, ws), RequirementsClass::FileNaming).violations;
        class_index_bijection(RequirementsClass::FileNaming);
        assert(violations_kept(after, fin));
        assert(fin[before.len() as int] == n);
    }
}

proof fn lemma_walk_keeps(w: WalkModel, guide: StyleGuide, known: Seq<Seq<char>>, es: Seq<WalkedEntry>)
    requires
        w.report.slots.len() == 11,
    ensures
        keeps_listing(w.report, walk_spec(w, guide, known, es).report),
    decreases es.len(),
{
    if es.len() > 0 {
        let n = entry_step(w, guide, known, es[0]);
        lemma_entry_keeps(w, guide, known, es[0]);
        lemma_walk_keeps(n, guide, known, es.drop_first());
        lemma_keeps_trans(w.report, n.report, walk_spec(w, guide, known, es).report);
    }
}

/// The walk records the style guide's finding on the name of each entry.
proof fn lemma_walk_judges_names(
    w: WalkModel,
    guide: StyleGuide,
    known: Seq<Seq<char>>,
    es: Seq<WalkedEntry>,
    i: int,
)
    requires
        w.report.slots.len() == 11,
        0 <= i < es.len(),
    ensures
        guide.component_rule(es[i].entry.name@) matches Err(v) ==> model_entry(
            walk_spec(w, guide, known, es).report,
            RequirementsClass::FileNaming,
        ).violations.contains(CdbViolationModel::Naming(v)),
    decreases es.len(),
{
    let n = entry_step(w, guide, known, es[0]);
    lemma_entry_keeps(w, guide, known, es[0]);
    if i == 0 {
        lemma_walk_keeps(n, guide, known, es.drop_first());
        if let Err(v) = guide.component_rule(es[0].entry.name@) {
            let a = model_entry(n.report, RequirementsClass::FileNaming).violations;
            let b = model_entry(walk_spec(w, guide, known, es).report, RequirementsClass::FileNaming).violations;
            class_index_bijection(RequirementsClass::FileNaming);
            assert(violations_kept(a, b));
            let k = choose|k: int| 0 <= k < a.len() && a[k] == CdbViolationModel::Naming(v);
            assert(b[k] == a[k]);
        }
    } else {
        assert(es.drop_first()[i - 1] == es[i]);
        lemma_walk_judges_names(n, guide, known, es.drop_first(), i - 1);
    }
}

proof fn lemma_error_keeps(m: ReportModel, subject: Option<Seq<char>>, e: MetadataError)
    requires
        m.slots.len() == 11,
    ensures
        metadata_error_spec(m, subject, e) matches Some(m2) ==> keeps_listing(m, m2),
{
    lemma_with_entry_keeps(m);
}

proof fn lemma_record_stage_keeps(s: RecordState, rs: Seq<RecordFacts>)
    requires
        s.0.slots.len() == 11,
    ensures
        record_stage(Some(s), rs) matches Some(t) ==> keeps_listing(s.0, t.0),
    decreases rs.len(),
{
    if rs.len() > 0 {
        let next = record_one(Some(s), rs[0]);
        match rs[0].read {
            RecordRead::Failed(e) => lemma_error_keeps(s.0, Some(rs[0].path@), e),
            _ => {},
        }
        match next {
            None => lemma_record_stage_stopped(rs.drop_first()),
            Some(t) => {
                lemma_record_stage_keeps(t, rs.drop_first());
                match record_stage(Some(s), rs) {
                    Some(u) => lemma_keeps_trans(s.0, t.0, u.0),
                    None => {},
                }
            },
        }
    }
}

/// What a validation run does after the walk keeps every violation the
/// walk recorded.
#[verifier::rlimit(50)]
proof fn lemma_after_walk_keeps(p: ProfileFacts, root: Seq<char>, f: DatastoreFacts)
    ensures
        ({
            let name = p.name@;
            let m1 = declaration_findings(fresh_report(name, root), name, p.classes@);
            let m2 = warned_all(
                recorded_all(m1, hierarchy_violations(f.hierarchy)),
                hierarchy_warnings(f.hierarchy),
            );
            let w = walk_spec(
                walk_start(m2),
                p.style_guide,
                p.known_extensions@.map_values(|s: String| s@),
                f.entries@,
            );
            &&& w.report.slots.len() == 11
            &&& walk_start(m2).report.slots.len() == 11
            &&& validate_spec(p, root, f) matches Some(m) ==> keeps_listing(w.report, m)
        }),
{
    let name = p.name@;
    let m0 = fresh_report(name, root);
    let d = p.classes@;
    lemma_with_entry_keeps(m0);
    let k1 = declaration_step(m0, name, d, RequirementsClass::Crs);
    lemma_with_entry_keeps(k1);
    let k2 = declaration_step(k1, name, d, RequirementsClass::FileNaming);
    lemma_with_entry_keeps(k2);
    let k3 = declaration_step(k2, name, d, RequirementsClass::FileStructure);
    lemma_with_entry_keeps(k3);
    let k4 = declaration_step(k3, name, d, RequirementsClass::Links);
    lemma_with_entry_keeps(k4);
    let m1 = declaration_findings(m0, name, d);
    assert(m1.slots.len() == 11);
    let a = recorded_all(m1, hierarchy_violations(f.hierarchy));
    lemma_recorded_all_keeps(m1, hierarchy_violations(f.hierarchy));
    let m2 = warned_all(a, hierarchy_warnings(f.hierarchy));
    lemma_warned_all_keeps(a, hierarchy_warnings(f.hierarchy));
    let known = p.known_extensions@.map_values(|s: String| s@);
    let w = walk_spec(walk_start(m2), p.style_guide, known, f.entries@);
    lemma_walk_keeps(walk_start(m2), p.style_guide, known, f.entries@);
    let r = w.report;
    lemma_with_entry_keeps(r);
    match f.global {
        Ok(g) => {
            let g1 = compare_step(r, name, "metadata encoding"@, encoding_text(p.metadata_encoding), encoding_text(g.encoding), "/req/core/metadata-encoding"@);
            lemma_with_entry_keeps(g1);
            let g2 = compare_step(g1, name, "metadata standard"@, standard_text(p.metadata_standard), standard_text(g.standard), "/req/core/metadata-standard"@);
            lemma_with_entry_keeps(g2);
            let g3 = compare_step(g2, name, "uom"@, uom_text(p.uom), uom_text(g.uom), "/req/core/metadata-uom-measure"@);
            lemma_with_entry_keeps(g3);
            let g4 = match declared_language(p.style_guide.lang()) {
                Ok(tag) => compare_step(g3, name, "language"@, tag, g.language.text(), "/req/core/metadata-language"@),
                Err(v) => recorded(g3, v),
            };
            lemma_with_entry_keeps(g4);
            lemma_keeps_trans(r, g1, g2);
            lemma_keeps_trans(r, g2, g3);
            lemma_keeps_trans(r, g3, g4);
            match global_stage(r, p, f.global) {
                Some(m4) => lemma_keeps_trans(r, g4, m4),
                None => {},
            }
        },
        Err(e) => lemma_error_keeps(r, None, e),
    }
    match global_stage(r, p, f.global) {
        None => {},
        Some(m4) => {
            let names = w.global_files + f.records@.map_values(|x: RecordFacts| x.path@);
            let vs = encoding_findings(p.metadata_encoding, names).map_values(
                |v: MetadataViolationModel| CdbViolationModel::Metadata(v),
            );
            lemma_recorded_all_keeps(m4, vs);
            let m5 = recorded_all(m4, vs);
            lemma_keeps_trans(r, m4, m5);
            lemma_with_entry_keeps(m5);
            match f.crs {
                Ok(c) => {
                    let declared = match p.storage_crs {
                        Ok(t) => Ok(t@),
                        Err(v) => Err(CdbViolationModel::Crs(v@)),
                    };
                    let c1 = match declared {
                        Err(v) => recorded(m5, v),
                        Ok(text) => if c.same {
                            m5
                        } else {
                            recorded(
                                m5,
                                CdbViolationModel::DeclarationMismatch {
                                    profile: name,
                                    class: RequirementsClass::Crs,
                                    element: "storage CRS"@,
                                    declared: text,
                                    found: c.found@,
                                    clause: "/req/core/crs/crsStorage"@,
                                },
                            )
                        },
                    };
                    lemma_crs_warnings_keeps(c1, c.warnings@.map_values(|x: CrsWarning| x@));
                    lemma_keeps_trans(r, m5, c1);
                    lemma_keeps_trans(r, c1, crs_warnings_recorded(c1, c.warnings@.map_values(|x: CrsWarning| x@)));
                },
                Err(_) => {},
            }
            match front_spec(p, root, f) {
                None => {},
                Some((m6, w6)) => {
                    assert(w6 == w);
                    lemma_keeps_trans(r, m5, m6);
                    lemma_record_stage_keeps((m6, None, None, false), f.records@);
                    match record_stage(Some((m6, None, None, false)), f.records@) {
                        None => {},
                        Some((m7, winding, domain, uom)) => {
                            lemma_keeps_trans(r, m6, m7);
                            lemma_optional_lists_declared(m7, d, f.global is Ok, f.attribute_file, domain is Some, uom);
                            let (m8, on_disk) = optional_stage(m7, d, f.global is Ok, f.attribute_file, domain is Some, uom);
                            lemma_keeps_trans(r, m7, m8);
                            let signals = SignalsModel {
                                attribute_model_files: w.attribute_files,
                                tiling_scheme: global_tiling(f.global),
                                versions_journal: w.journal,
                                winding_order_record: winding,
                                domain_set_record: domain,
                            };
                            let models = match (p.attribute_model, on_disk) {
                                (Some(x), Some(o)) => Some((model_text(x), o)),
                                _ => None,
                            };
                            lemma_sweep_keeps(m8, name, d, signals, opt_text(p.tiling_scheme), models);
                            lemma_keeps_trans(r, m8, sweep_spec(m8, name, d, signals, opt_text(p.tiling_scheme), models));
                        },
                    }
                },
            }
        },
    }
}

/// The file-naming walk judges every entry's name by the profile's style
/// guide: a name that breaks a structural naming rule is reported with
/// that finding, and a structurally sound name whose stem is not reserved
/// and does not follow the guide's case rule is reported as breaking the
/// case rule, under File Naming.
pub proof fn walked_names_are_judged_by_the_style_guide(
    p: ProfileFacts,
    root: Seq<char>,
    f: DatastoreFacts,
    i: int,
)
    requires
        0 <= i < f.entries@.len(),
    ensures
        validate_spec(p, root, f) matches Some(m) ==> {
            let name = f.entries@[i].entry.name@;
            let guide = p.style_guide;
            let stem = split_ext(name).0;
            let found = model_entry(m, RequirementsClass::FileNaming).violations;
            &&& component_spec(name) matches Err(v) ==> found.contains(CdbViolationModel::Naming(v))
            &&& (component_spec(name) is Ok && !guide.reserved().contains(stem) && !rule_matches(
                guide.rule(),
                stem,
            )) ==> found.contains(
                CdbViolationModel::Naming(
                    NamingViolationModel::CaseRuleViolation { name, expected: guide.rule() },
                ),
            )
        },
{
    lemma_after_walk_keeps(p, root, f);
    let name = p.name@;
    let m1 = declaration_findings(fresh_report(name, root), name, p.classes@);
    let m2 = warned_all(
        recorded_all(m1, hierarchy_violations(f.hierarchy)),
        hierarchy_warnings(f.hierarchy),
    );
    let known = p.known_extensions@.map_values(|s: String| s@);
    let w = walk_spec(walk_start(m2), p.style_guide, known, f.entries@);
    lemma_walk_judges_names(walk_start(m2), p.style_guide, known, f.entries@, i);
    if let Some(m) = validate_spec(p, root, f) {
        if let Err(v) = p.style_guide.component_rule(f.entries@[i].entry.name@) {
            let a = model_entry(w.report, RequirementsClass::FileNaming).violations;
            let b = model_entry(m, RequirementsClass::FileNaming).violations;
            class_index_bijection(RequirementsClass::FileNaming);
            assert(violations_kept(a, b));
            let k = choose|k: int| 0 <= k < a.len() && a[k] == CdbViolationModel::Naming(v);
            assert(b[k] == a[k]);
        }
    }
}

/// Whether reading a resource record failed on I/O, for a record the core
/// reads (not a GeoPackage container).
pub open spec fn record_io_failure(r: RecordFacts) -> bool {
    path_encoding(r.path@) != Some(MetadataEncoding::Gpkg) && r.read matches RecordRead::Failed(
        MetadataError::Io(_),
    )
}

/// Whether gathering the facts met an I/O failure that stops a run: the
/// global record or the storage CRS could not be read, or a resource
/// record the core reads could not be.
pub open spec fn io_failure(f: DatastoreFacts) -> bool {
    ||| f.global matches Err(MetadataError::Io(_))
    ||| f.crs matches Err(CrsError::Io(_))
    ||| exists|i: int| 0 <= i < f.records@.len() && #[trigger] record_io_failure(f.records@[i])
}

proof fn lemma_record_stage_none(s: RecordState, rs: Seq<RecordFacts>)
    ensures
        record_stage(Some(s), rs) is None <==> exists|i: int|
            0 <= i < rs.len() && #[trigger] record_io_failure(rs[i]),
    decreases rs.len(),
{
    if rs.len() > 0 {
        let next = record_one(Some(s), rs[0]);
        if next is None {
            lemma_record_stage_stopped(rs.drop_first());
            assert(record_io_failure(rs[0]));
        } else {
            lemma_record_stage_none(next->0, rs.drop_first());
            assert(!record_io_failure(rs[0]));
            if exists|i: int| 0 <= i < rs.len() && #[trigger] record_io_failure(rs[i]) {
                let i = choose|i: int| 0 <= i < rs.len() && #[trigger] record_io_failure(rs[i]);
                assert(rs.drop_first()[i - 1] == rs[i]);
            }
            if exists|i: int| 0 <= i < rs.drop_first().len() && #[trigger] record_io_failure(rs.drop_first()[i]) {
                let i = choose|i: int| 0 <= i < rs.drop_first().len() && #[trigger] record_io_failure(rs.drop_first()[i]);
                assert(rs[i + 1] == rs.drop_first()[i]);
            }
        }
    }
}

/// Conformance findings are recorded, never returned as an error: a run
/// yields a report, conformant or not, exactly when gathering the facts
/// met no I/O failure.
pub proof fn runs_stop_only_on_io_failures(p: ProfileFacts, root: Seq<char>, f: DatastoreFacts)
    ensures
        validate_spec(p, root, f) is None <==> io_failure(f),
{
    match front_spec(p, root, f) {
        None => {},
        Some((m6, w)) => {
            lemma_record_stage_none((m6, None, None, false), f.records@);
        },
    }
}

#[verifier::loop_isolation(false)]
fn run_records(records: Vec<RecordFacts>, report: &mut ConformanceReport) -> (r: Result<
    (Option<String>, Option<String>, bool),
    CdbError,
>)
    requires
        old(report).wf(),
    ensures
        final(report).wf(),
        match r {
            Ok((w, d, u)) => record_stage(Some((old(report)@, None, None, false)), records@) == Some(
                (final(report)@, opt_text(w), opt_text(d), u),
            ),
            Err(_) => record_stage(Some((old(report)@, None, None, false)), records@) is None,
        },
{
    let ghost all = records@;
    let ghost start = report@;
    let mut records = records;
    let mut winding: Option<String> = None;
    let mut domain: Option<String> = None;
    let mut uom_seen = false;
    let n = records.len();
    let mut i: usize = 0;
    assert(all.skip(0) =~= all);
    while i < n
        invariant
            report.wf(),
            0 <= i <= n,
            n == all.len(),
            records@ =~= all.skip(i as int),
            record_stage(Some((start, None, None, false)), all) == record_stage(
                Some((report@, opt_text(winding), opt_text(domain), uom_seen)),
                all.skip(i as int),
            ),
        decreases n - i,
    {
        let ghost before = records@;
        let ghost cur: RecordState = (report@, opt_text(winding), opt_text(domain), uom_seen);
        let rf = records.remove(0);
        proof {
            assert(before.remove(0) =~= before.drop_first());
            assert(all.skip(i as int)[0] == rf);
            assert(all.skip(i as int).drop_first() =~= all.skip(i + 1));
        }
        let ghost next = record_one(Some(cur), rf);
        let RecordFacts { path, read } = rf;
        if !is_geopackage_path(path.as_str()) {
            match read {
                RecordRead::Skipped => {},
                RecordRead::Parsed { id, winding_order, domain_set, uom } => {
                    uom_seen = uom_seen || uom;
                    if winding_order && winding.is_none() {
                        winding = Some(id.clone());
                    }
                    if domain_set && domain.is_none() {
                        domain = Some(id);
                    }
                },
                RecordRead::Failed(e) => {
                    let ghost ge = e;
                    match record_metadata_error(report, Some(path.as_str()), e) {
                        Err(x) => {
                            proof {
                                assert(ge is Io);
                                assert(next is None);
                                lemma_record_stage_stopped(all.skip(i + 1));
                                assert(record_stage(Some(cur), all.skip(i as int)) == record_stage(
                                    next,
                                    all.skip(i + 1),
                                ));
                                assert(record_stage(Some((start, None, None, false)), all) is None);
                            }
                            return Err(x);
                        },
                        Ok(()) => {},
                    }
                },
            }
        }
        proof {
            assert(next == Some((report@, opt_text(winding), opt_text(domain), uom_seen)));
        }
        i += 1;
    }
    proof {
        assert(all.skip(i as int) =~= Seq::<RecordFacts>::empty());
    }
    Ok((winding, domain, uom_seen))
}

fn declare_if(classes: &[RequirementsClass], c: RequirementsClass, report: &mut ConformanceReport)
    requires
        old(report).wf(),
    ensures
        final(report).wf(),
        final(report)@ == declare_step(old(report)@, classes@, c),
{
    if is_declared(classes, c) {
        report.declare_class(c);
    }
}

fn mark_if(classes: &[RequirementsClass], c: RequirementsClass, held: bool, report: &mut ConformanceReport)
    requires
        old(report).wf(),
    ensures
        final(report).wf(),
        final(report)@ == content_step(old(report)@, classes@, c, held),
{
    if held && is_declared(classes, c) {
        report.mark_content(c);
    }
}

fn run_optional(
    classes: &[RequirementsClass],
    global_read: bool,
    file: Option<(String, Result<AttributeModel, String>)>,
    coverage_held: bool,
    geometry_held: bool,
    report: &mut ConformanceReport,
) -> (on_disk: Option<AttributeModel>)
    requires
        old(report).wf(),
    ensures
        final(report).wf(),
        (final(report)@, match on_disk {
            Some(m) => Some(model_text(m)),
            None => None,
        }) == optional_stage(old(report)@, classes@, global_read, file, coverage_held, geometry_held),
{
    let ghost gfile = file;
    declare_if(classes, RequirementsClass::Attribution, report);
    let mut on_disk: Option<AttributeModel> = None;
    if is_declared(classes, RequirementsClass::Attribution) && global_read {
        match file {
            Some((name, decoded)) => {
                on_disk = attribution_stage(name.as_str(), decoded, report);
                proof {
                    if on_disk is Some {
                        assert(model_text(on_disk->0) == canonical_text((gfile->0).1));
                    }
                }
            },
            None => {},
        }
    }
    declare_if(classes, RequirementsClass::Coverages, report);
    mark_if(classes, RequirementsClass::Coverages, coverage_held, report);
    declare_if(classes, RequirementsClass::Geometry, report);
    mark_if(classes, RequirementsClass::Geometry, geometry_held, report);
    declare_if(classes, RequirementsClass::Tiling, report);
    declare_if(classes, RequirementsClass::Topology, report);
    declare_if(classes, RequirementsClass::Versioning, report);
    on_disk
}

/// The Metadata5 sweep over the files at the top of `global_metadata/`
/// and the resource records.
fn encoding_violations_of(
    declared: MetadataEncoding,
    global_files: &Vec<String>,
    records: &Vec<RecordFacts>,
) -> (out: Vec<MetadataViolation>)
    ensures
        out@.map_values(|v: MetadataViolation| v@) == encoding_findings(
            declared,
            global_files@.map_values(|n: String| n@) + records@.map_values(|r: RecordFacts| r.path@),
        ),
{
    let ghost gfiles = global_files@.map_values(|n: String| n@);
    let ghost rpaths = records@.map_values(|r: RecordFacts| r.path@);
    let mut names: Vec<&str> = Vec::new();
    let mut k: usize = 0;
    while k < global_files.len()
        invariant
            0 <= k <= global_files@.len(),
            gfiles == global_files@.map_values(|n: String| n@),
            names@.map_values(|n: &str| n@) =~= gfiles.take(k as int),
        decreases global_files@.len() - k,
    {
        let ghost before = names@;
        let x = global_files[k].as_str();
        names.push(x);
        proof {
            assert(names@ == before.push(x));
            assert(gfiles.take(k + 1) =~= gfiles.take(k as int).push(gfiles[k as int]));
            assert(names@.map_values(|n: &str| n@) =~= before.map_values(|n: &str| n@).push(
                gfiles[k as int],
            ));
        }
        k += 1;
    }
    proof {
        assert(gfiles.take(gfiles.len() as int) =~= gfiles);
    }
    let mut k: usize = 0;
    while k < records.len()
        invariant
            0 <= k <= records@.len(),
            rpaths == records@.map_values(|r: RecordFacts| r.path@),
            names@.map_values(|n: &str| n@) =~= gfiles + rpaths.take(k as int),
        decreases records@.len() - k,
    {
        let ghost before = names@;
        let x = records[k].path.as_str();
        names.push(x);
        proof {
            assert(names@ == before.push(x));
            assert(rpaths.take(k + 1) =~= rpaths.take(k as int).push(rpaths[k as int]));
            assert(names@.map_values(|n: &str| n@) =~= before.map_values(|n: &str| n@).push(
                rpaths[k as int],
            ));
        }
        k += 1;
    }
    proof {
        assert(rpaths.take(rpaths.len() as int) =~= rpaths);
    }
    let out = encoding_violations(declared, names.as_slice());
    out
}

/// The stages up to the storage CRS.
#[verifier::rlimit(60)]
fn run_front(
    Ghost(gp): Ghost<ProfileFacts>,
    Ghost(gf): Ghost<DatastoreFacts>,
    name: &str,
    classes: &[RequirementsClass],
    guide: &StyleGuide,
    known: &[String],
    declared_encoding: MetadataEncoding,
    declared_standard: MetadataStandard,
    declared_uom: UnitOfMeasure,
    storage_crs: Result<String, CrsViolation>,
    root: &str,
    hierarchy: HierarchyReport,
    entries: &[WalkedEntry],
    global: Result<GlobalFacts, MetadataError>,
    records: &Vec<RecordFacts>,
    crs: Result<CrsFacts, CrsError>,
) -> (r: Result<(ConformanceReport, WalkState, Option<String>), CdbError>)
    requires
        name@ == gp.name@,
        classes@ == gp.classes@,
        *guide == gp.style_guide,
        known@ == gp.known_extensions@,
        declared_encoding == gp.metadata_encoding,
        declared_standard == gp.metadata_standard,
        declared_uom == gp.uom,
        storage_crs == gp.storage_crs,
        hierarchy == gf.hierarchy,
        entries@ == gf.entries@,
        global == gf.global,
        records@ == gf.records@,
        crs == gf.crs,
    ensures
        match r {
            Ok((rep, st, gt)) => rep.wf() && opt_text(gt) == global_tiling(gf.global) && match front_spec(gp, root@, gf) {
                Some((m6, w)) => m6 == rep@ && w.attribute_files == st.attribute_model_files@.map_values(
                    |n: String| n@,
                ) && w.journal == st.versions_journal,
                None => false,
            },
            Err(_) => front_spec(gp, root@, gf) is None,
        },
{
    let mut report = ConformanceReport::new(name, root);
    check_declarations(name, classes, &mut report);
    record_hierarchy(&mut report, hierarchy);
    let mut state = WalkState {
        global_metadata_files: Vec::new(),
        file_logical_paths: Vec::new(),
        attribute_model_files: Vec::new(),
        versions_journal: false,
    };
    let ghost m2 = report@;
    proof {
        assert(walk_model(state, m2) == walk_start(m2)) by {
            assert(state.global_metadata_files@.map_values(|n: String| n@) =~= Seq::<Seq<char>>::empty());
            assert(state.file_logical_paths@.map_values(|n: String| n@) =~= Seq::<Seq<char>>::empty());
            assert(state.attribute_model_files@.map_values(|n: String| n@) =~= Seq::<Seq<char>>::empty());
        }
    }
    walk_entries(guide, known, entries, &mut state, &mut report);
    let mut global_tiling_id: Option<String> = None;
    match global {
        Ok(g) => {
            let GlobalFacts { encoding, standard, uom: found_uom, language, tiling_scheme: gt } = g;
            global_tiling_id = gt;
            let declared_lang = LanguageTag::new(guide.language());
            check_global_declarations(
                name,
                declared_encoding,
                encoding,
                declared_standard,
                standard,
                declared_uom,
                found_uom,
                declared_lang,
                &language,
                &mut report,
            );
        },
        Err(e) => {
            match record_metadata_error(&mut report, None, e) {
                Err(x) => {
                    return Err(x);
                },
                Ok(()) => {},
            }
        },
    }
    let vs = encoding_violations_of(declared_encoding, &state.global_metadata_files, records);
    record_metadata_all(&mut report, vs);
    match crs {
        Ok(c) => {
            let CrsFacts { found, same, warnings } = c;
            check_crs_declaration(name, storage_crs, found.as_str(), same, warnings, &mut report);
        },
        Err(CrsError::Violation(v)) => {
            report.record_violation(CdbViolation::Crs(v));
        },
        Err(CrsError::Io(e)) => {
            return Err(CdbError::Crs(CrsError::Io(e)));
        },
    }
    Ok((report, state, global_tiling_id))
}

/// Validates a datastore against a profile from what was found on disk.
/// Conformance findings are recorded in the report; `Err` is an I/O
/// failure met while the facts were read (a metadata file or the CRS file
/// that could not be read), which stops the run.
#[verifier::rlimit(60)]
pub fn conformance_report(p: ProfileFacts, root: &str, f: DatastoreFacts) -> (r: Result<
    ConformanceReport,
    CdbError,
>)
    ensures
        match r {
            Ok(rep) => {
                &&& rep.wf()
                &&& validate_spec(p, root@, f) == Some(rep@)
                &&& forall|c: RequirementsClass|
                    #![trigger rep.listed(c)]
                    !is_mandatory(c) && p.classes@.contains(c) ==> rep.listed(c)
            },
            Err(_) => validate_spec(p, root@, f) is None,
        },
{
    let ghost gp = p;
    let ghost gf = f;
    let ProfileFacts {
        name,
        classes,
        style_guide,
        known_extensions,
        metadata_encoding,
        metadata_standard,
        uom,
        storage_crs,
        tiling_scheme,
        attribute_model,
    } = p;
    let DatastoreFacts { hierarchy, entries, global, records, crs, attribute_file } = f;
    let global_read = global.is_ok();
    let (mut report, state, global_tiling_id) = match run_front(
        Ghost(gp),
        Ghost(gf),
        name.as_str(),
        classes.as_slice(),
        &style_guide,
        known_extensions.as_slice(),
        metadata_encoding,
        metadata_standard,
        uom,
        storage_crs,
        root,
        hierarchy,
        entries.as_slice(),
        global,
        &records,
        crs,
    ) {
        Err(x) => {
            return Err(x);
        },
        Ok(t) => t,
    };
    let (winding, domain, uom_seen) = match run_records(records, &mut report) {
        Err(x) => {
            return Err(x);
        },
        Ok(t) => t,
    };
    proof {
        report.view_entries();
        lemma_optional_lists_declared(
            report@,
            classes@,
            global_read,
            gf.attribute_file,
            domain is Some,
            uom_seen,
        );
    }
    let ghost m7 = report@;
    let on_disk = run_optional(
        classes.as_slice(),
        global_read,
        attribute_file,
        domain.is_some(),
        uom_seen,
        &mut report,
    );
    let ghost m8 = report@;
    let signals = ContentSignals {
        attribute_model_files: state.attribute_model_files,
        tiling_scheme: global_tiling_id,
        versions_journal: state.versions_journal,
        winding_order_record: winding,
        domain_set_record: domain,
    };
    let pinned = match &tiling_scheme {
        Some(t) => Some(t.as_str()),
        None => None,
    };
    sweep_content(
        name.as_str(),
        classes.as_slice(),
        &signals,
        pinned,
        attribute_model.as_ref(),
        on_disk.as_ref(),
        &mut report,
    );
    proof {
        lemma_sweep_keeps(
            m8,
            name@,
            classes@,
            signals_model(signals),
            opt_text(tiling_scheme),
            match (attribute_model, on_disk) {
                (Some(d), Some(o)) => Some((model_text(d), model_text(o))),
                _ => None,
            },
        );
        report.view_entries();
        assert forall|c: RequirementsClass|
            #![trigger report.listed(c)]
            !is_mandatory(c) && gp.classes@.contains(c) implies report.listed(c) by {
            assert(m8.slots[class_index(c)] is Some);
        }
    }
    Ok(report)
}

impl CdbDatastore {
    /// Validates this datastore against a profile from what was found
    /// under its root: the report of `conformance_report` for the
    /// datastore's root.
    pub fn validate(&self, profile: ProfileFacts, found: DatastoreFacts) -> (r: Result<
        ConformanceReport,
        CdbError,
    >)
        ensures
            match r {
                Ok(rep) => rep.wf() && validate_spec(profile, self.root_path(), found) == Some(
                    rep@,
                ),
                Err(_) => validate_spec(profile, self.root_path(), found) is None,
            },
            r matches Ok(rep) ==> forall|c: RequirementsClass|
                #![trigger rep.listed(c)]
                !is_mandatory(c) && profile.classes@.contains(c) ==> rep.listed(c),
    {
        conformance_report(profile, self.root(), found)
    }
}

} // verus!
