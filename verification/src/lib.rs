//! Planning of validation-test runs for OS build variants.
//!
//! Given a target variant, architecture and test kind, the crate resolves a
//! single effective configuration from a layered, precedence-ordered
//! configuration store, and builds an ordered, dependency-linked set of
//! declarative resource descriptors (CRDs) for an external execution
//! controller to materialize.

pub mod aws;
pub mod config;
pub mod crd;
pub mod crds;
pub mod error;
pub mod images;
pub mod labels;
pub mod render;
pub mod store;
pub mod text;
pub mod variant;

pub use error::Error;
