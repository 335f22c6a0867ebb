//! The stage of a validation run for a declared optional class whose
//! content the library can judge on its own: the attribute model stored at
//! the top of `global_metadata/`.

use vstd::prelude::*;
use crate::attribution::{
    document_verdict, validate_attribute_model_document, AttributeModel,
};
use crate::conformance::class::RequirementsClass;
use crate::conformance::finding::{CdbViolation, CdbViolationModel};
use crate::conformance::report::{marked, recorded, ConformanceReport, ReportModel};

verus! {

/// The decoded content of a document, as the verdict reads it.
pub open spec fn decoded_view(decoded: Result<AttributeModel, String>) -> Result<
    (Option<Seq<char>>, Seq<crate::attribution::AttributeDefModel>),
    Seq<char>,
> {
    match decoded {
        Ok(m) => Ok((m.uri_model(), m.attrs_model())),
        Err(e) => Err(e@),
    }
}

/// The report after the attribution stage judged the document named
/// `file_name`: the class has content, and a failed verdict is its finding.
pub open spec fn attribution_stage_spec(
    m: ReportModel,
    file_name: Seq<char>,
    decoded: Result<AttributeModel, String>,
) -> ReportModel {
    match document_verdict(file_name, decoded_view(decoded)) {
        Ok(()) => marked(m, RequirementsClass::Attribution),
        Err(v) => recorded(
            marked(m, RequirementsClass::Attribution),
            CdbViolationModel::Attribution(v),
        ),
    }
}

/// Judges the attribute-model document found at the top of
/// `global_metadata/` under `file_name`, whose bytes decoded to `decoded`:
/// the datastore has Attribution content, and a document that fails is
/// recorded as its finding. Returns the canonical model when it passes.
pub fn attribution_stage(
    file_name: &str,
    decoded: Result<AttributeModel, String>,
    report: &mut ConformanceReport,
) -> (r: Option<AttributeModel>)
    requires
        old(report).wf(),
    ensures
        final(report).wf(),
        final(report)@ == attribution_stage_spec(old(report)@, file_name@, decoded),
        r is Some <==> document_verdict(file_name@, decoded_view(decoded)) is Ok,
        r is Some ==> r->0.uri_model() == match decoded->Ok_0.uri_model() {
            Some(u) => Some(crate::text::trim(u)),
            None => None,
        },
        r is Some ==> r->0.attrs_model() == decoded->Ok_0.attrs_model().map_values(
            |a: crate::attribution::AttributeDefModel|
                crate::attribution::AttributeDefModel {
                    id: crate::text::trim(a.id),
                    name: crate::text::trim(a.name),
                    description: crate::text::trim(a.description),
                },
        ),
{
    report.mark_content(RequirementsClass::Attribution);
    match validate_attribute_model_document(file_name, decoded) {
        Ok(model) => Some(model),
        Err(violation) => {
            report.record_violation(CdbViolation::Attribution(violation));
            None
        },
    }
}

} // verus!
