//! Conformance vocabulary (Annex A `/conf/minimal-core`): the requirements
//! classes, the two finding kinds, and the report that buckets them by
//! class.

pub mod class;
pub mod declarations;
pub mod finding;
pub mod report;
pub mod stages;
pub mod sweep;
pub mod validate;

pub use class::RequirementsClass;
pub use finding::{CdbViolation, CdbWarning};
pub use report::{ClassFindings, ConformanceReport};
