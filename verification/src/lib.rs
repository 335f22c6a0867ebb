//! Reading, writing and validating CDB 2.0 datastores: the rule logic.

pub mod attribution;
pub mod conformance;
pub mod coverage;
pub mod crs;
pub mod datastore;
pub mod error;
pub mod geometry;
pub mod hierarchy;
pub mod links;
pub mod media_types;
pub mod messages;
pub mod metadata;
pub mod naming;
pub mod text;
