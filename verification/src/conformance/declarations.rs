//! The checks of a profile's declarations against a datastore: every
//! mandatory class must be declared, and the global metadata record must
//! use the encoding, standard, unit of measure and language the profile
//! declares. The record SHOULD be in English.

use vstd::prelude::*;
use crate::conformance::class::RequirementsClass;
use crate::conformance::finding::{CdbViolation, CdbViolationModel, CdbWarning, CdbWarningModel};
use crate::conformance::report::{recorded, warned, ConformanceReport, ReportModel};
use crate::conformance::sweep::is_declared;
use crate::crs::{CrsViolation, CrsWarning, CrsWarningModel};
use crate::metadata::{
    encoding_text, find_piece_end, piece_end, standard_text, uom_text, LanguageTag,
    MetadataEncoding, MetadataStandard, MetadataViolation, UnitOfMeasure,
};
use crate::text::{chars_eq_fold, chars_of, eq_fold, owned, str_eq, string_from};

verus! {

/// `m` after requiring that class `c` be declared.
pub open spec fn declaration_step(
    m: ReportModel,
    profile: Seq<char>,
    declared: Seq<RequirementsClass>,
    c: RequirementsClass,
) -> ReportModel {
    if declared.contains(c) {
        m
    } else {
        recorded(m, CdbViolationModel::MissingConformanceDeclaration { profile, class: c })
    }
}

/// `m` after requiring each mandatory class, in listing order.
pub open spec fn declaration_findings(
    m: ReportModel,
    profile: Seq<char>,
    declared: Seq<RequirementsClass>,
) -> ReportModel {
    let m1 = declaration_step(m, profile, declared, RequirementsClass::Crs);
    let m2 = declaration_step(m1, profile, declared, RequirementsClass::FileNaming);
    let m3 = declaration_step(m2, profile, declared, RequirementsClass::FileStructure);
    let m4 = declaration_step(m3, profile, declared, RequirementsClass::Links);
    declaration_step(m4, profile, declared, RequirementsClass::Metadata)
}

fn require_declared(
    profile_name: &str,
    declared: &[RequirementsClass],
    class: RequirementsClass,
    report: &mut ConformanceReport,
)
    requires
        old(report).wf(),
    ensures
        final(report).wf(),
        final(report)@ == declaration_step(old(report)@, profile_name@, declared@, class),
{
    if !is_declared(declared, class) {
        report.record_violation(
            CdbViolation::MissingConformanceDeclaration { profile: owned(profile_name), class },
        );
    }
}

/// Records a missing declaration for each mandatory class the profile
/// does not declare.
pub fn check_declarations(
    profile_name: &str,
    declared: &[RequirementsClass],
    report: &mut ConformanceReport,
)
    requires
        old(report).wf(),
    ensures
        final(report).wf(),
        final(report)@ == declaration_findings(old(report)@, profile_name@, declared@),
{
    require_declared(profile_name, declared, RequirementsClass::Crs, report);
    require_declared(profile_name, declared, RequirementsClass::FileNaming, report);
    require_declared(profile_name, declared, RequirementsClass::FileStructure, report);
    require_declared(profile_name, declared, RequirementsClass::Links, report);
    require_declared(profile_name, declared, RequirementsClass::Metadata, report);
}

/// A Metadata-class mismatch between a declared and a found element.
pub open spec fn metadata_mismatch(
    profile: Seq<char>,
    element: Seq<char>,
    declared: Seq<char>,
    found: Seq<char>,
    clause: Seq<char>,
) -> CdbViolationModel {
    CdbViolationModel::DeclarationMismatch {
        profile,
        class: RequirementsClass::Metadata,
        element,
        declared,
        found,
        clause,
    }
}

/// `m` after recording a mismatch when `declared` and `found` differ.
pub open spec fn compare_step(
    m: ReportModel,
    profile: Seq<char>,
    element: Seq<char>,
    declared: Seq<char>,
    found: Seq<char>,
    clause: Seq<char>,
) -> ReportModel {
    if declared == found {
        m
    } else {
        recorded(m, metadata_mismatch(profile, element, declared, found, clause))
    }
}

/// The primary subtag of a language tag: the text before the first `-`.
pub open spec fn primary_subtag(tag: Seq<char>) -> Seq<char> {
    tag.take(piece_end(tag, 0, '-'))
}

/// The findings on a global metadata record against the profile's
/// declarations: encoding, standard, unit of measure and language
/// mismatches in that order (a malformed declared language is itself the
/// finding), then a warning when the record's primary language subtag is
/// not `en`.
pub open spec fn global_findings(
    m: ReportModel,
    profile: Seq<char>,
    declared_encoding: MetadataEncoding,
    found_encoding: MetadataEncoding,
    declared_standard: MetadataStandard,
    found_standard: MetadataStandard,
    declared_uom: UnitOfMeasure,
    found_uom: UnitOfMeasure,
    declared_language: Result<Seq<char>, CdbViolationModel>,
    found_language: Seq<char>,
) -> ReportModel {
    let m1 = compare_step(
        m,
        profile,
        "metadata encoding"@,
        encoding_text(declared_encoding),
        encoding_text(found_encoding),
        "/req/core/metadata-encoding"@,
    );
    let m2 = compare_step(
        m1,
        profile,
        "metadata standard"@,
        standard_text(declared_standard),
        standard_text(found_standard),
        "/req/core/metadata-standard"@,
    );
    let m3 = compare_step(
        m2,
        profile,
        "uom"@,
        uom_text(declared_uom),
        uom_text(found_uom),
        "/req/core/metadata-uom-measure"@,
    );
    let m4 = match declared_language {
        Ok(tag) => compare_step(
            m3,
            profile,
            "language"@,
            tag,
            found_language,
            "/req/core/metadata-language"@,
        ),
        Err(v) => recorded(m3, v),
    };
    if eq_fold(primary_subtag(found_language), "en"@) {
        m4
    } else {
        warned(m4, CdbWarningModel::LanguageNotEnglish { language: found_language })
    }
}

fn compare_element(
    profile_name: &str,
    element: &'static str,
    declared: &str,
    found: &str,
    clause: &'static str,
    report: &mut ConformanceReport,
)
    requires
        old(report).wf(),
    ensures
        final(report).wf(),
        final(report)@ == compare_step(
            old(report)@,
            profile_name@,
            element@,
            declared@,
            found@,
            clause@,
        ),
{
    if !str_eq(declared, found) {
        report.record_violation(
            CdbViolation::DeclarationMismatch {
                profile: owned(profile_name),
                class: RequirementsClass::Metadata,
                element,
                declared: owned(declared),
                found: owned(found),
                clause,
            },
        );
    }
}

/// Cross-checks a global metadata record against the profile's declared
/// encoding, standard, unit of measure and language, and warns when the
/// record's language is not English.
pub fn check_global_declarations(
    profile_name: &str,
    declared_encoding: MetadataEncoding,
    found_encoding: MetadataEncoding,
    declared_standard: MetadataStandard,
    found_standard: MetadataStandard,
    declared_uom: UnitOfMeasure,
    found_uom: UnitOfMeasure,
    declared_language: Result<LanguageTag, MetadataViolation>,
    found_language: &LanguageTag,
    report: &mut ConformanceReport,
)
    requires
        old(report).wf(),
    ensures
        final(report).wf(),
        final(report)@ == global_findings(
            old(report)@,
            profile_name@,
            declared_encoding,
            found_encoding,
            declared_standard,
            found_standard,
            declared_uom,
            found_uom,
            match declared_language {
                Ok(tag) => Ok(tag.text()),
                Err(v) => Err(CdbViolationModel::Metadata(v@)),
            },
            found_language.text(),
        ),
{
    compare_element(
        profile_name,
        "metadata encoding",
        declared_encoding.as_str(),
        found_encoding.as_str(),
        "/req/core/metadata-encoding",
        report,
    );
    compare_element(
        profile_name,
        "metadata standard",
        declared_standard.as_str(),
        found_standard.as_str(),
        "/req/core/metadata-standard",
        report,
    );
    compare_element(
        profile_name,
        "uom",
        declared_uom.as_str(),
        found_uom.as_str(),
        "/req/core/metadata-uom-measure",
        report,
    );
    match declared_language {
        Ok(tag) => {
            compare_element(
                profile_name,
                "language",
                tag.as_str(),
                found_language.as_str(),
                "/req/core/metadata-language",
                report,
            );
        },
        Err(violation) => {
            report.record_violation(CdbViolation::Metadata(violation));
        },
    }
    let text = chars_of(found_language.as_str());
    let end = find_piece_end(&text, 0, '-');
    let primary = string_from(&text, 0, end);
    let en = chars_of("en");
    proof {
        assert(text@.subrange(0, end as int) =~= primary_subtag(found_language.text()));
    }
    if !chars_eq_fold(&chars_of(primary.as_str()), &en) {
        report.record_warning(
            CdbWarning::LanguageNotEnglish { language: owned(found_language.as_str()) },
        );
    }
}

/// `m` after recording each CRS warning in turn.
pub open spec fn crs_warnings_recorded(m: ReportModel, ws: Seq<CrsWarningModel>) -> ReportModel
    decreases ws.len(),
{
    if ws.len() == 0 {
        m
    } else {
        crs_warnings_recorded(warned(m, CdbWarningModel::Crs(ws[0])), ws.drop_first())
    }
}

/// The findings on the datastore's storage CRS against the profile's
/// declaration: a malformed declaration is itself the finding; otherwise a
/// CRS other than the declared one is a mismatch, quoting both in WKT;
/// then the SHOULD findings on the stored CRS.
pub open spec fn crs_findings(
    m: ReportModel,
    profile: Seq<char>,
    declared: Result<Seq<char>, CdbViolationModel>,
    found: Seq<char>,
    same: bool,
    warnings: Seq<CrsWarningModel>,
) -> ReportModel {
    let m1 = match declared {
        Err(v) => recorded(m, v),
        Ok(text) => if same {
            m
        } else {
            recorded(
                m,
                CdbViolationModel::DeclarationMismatch {
                    profile,
                    class: RequirementsClass::Crs,
                    element: "storage CRS"@,
                    declared: text,
                    found,
                    clause: "/req/core/crs/crsStorage"@,
                },
            )
        },
    };
    crs_warnings_recorded(m1, warnings)
}

/// Cross-checks the datastore's storage CRS against the profile's: the
/// declared CRS in WKT (or why the declaration is malformed), the stored
/// CRS in WKT, whether the two are the same CRS, and the SHOULD findings
/// on the stored CRS.
pub fn check_crs_declaration(
    profile_name: &str,
    declared: Result<String, CrsViolation>,
    found: &str,
    same: bool,
    warnings: Vec<CrsWarning>,
    report: &mut ConformanceReport,
)
    requires
        old(report).wf(),
    ensures
        final(report).wf(),
        final(report)@ == crs_findings(
            old(report)@,
            profile_name@,
            match declared {
                Ok(t) => Ok(t@),
                Err(v) => Err(CdbViolationModel::Crs(v@)),
            },
            found@,
            same,
            warnings@.map_values(|w: CrsWarning| w@),
        ),
{
    match declared {
        Err(violation) => {
            report.record_violation(CdbViolation::Crs(violation));
        },
        Ok(text) => {
            if !same {
                report.record_violation(
                    CdbViolation::DeclarationMismatch {
                        profile: owned(profile_name),
                        class: RequirementsClass::Crs,
                        element: "storage CRS",
                        declared: text,
                        found: owned(found),
                        clause: "/req/core/crs/crsStorage",
                    },
                );
            }
        },
    }
    let ghost ws = warnings@.map_values(|w: CrsWarning| w@);
    let ghost mid = report@;
    let mut i: usize = 0;
    let mut warnings = warnings;
    let ghost all = warnings@;
    let n = warnings.len();
    assert(ws.skip(0) =~= ws);
    while i < n
        invariant
            report.wf(),
            n == all.len(),
            0 <= i <= all.len(),
            warnings@.len() == all.len() - i,
            forall|k: int| 0 <= k < warnings@.len() ==> warnings@[k] == all[i + k],
            ws == all.map_values(|w: CrsWarning| w@),
            crs_warnings_recorded(mid, ws) == crs_warnings_recorded(report@, ws.skip(i as int)),
        decreases all.len() - i,
    {
        let w = warnings.remove(0);
        assert(ws.skip(i as int).drop_first() =~= ws.skip(i + 1));
        report.record_warning(CdbWarning::Crs(w));
        i += 1;
    }
}

} // verus!
