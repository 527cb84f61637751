//! Transcoding between Discovery documents and OpenAPI 2.0 documents, and
//! validation of OpenAPI documents against a set of naming and metadata rules.
//!
//! The two document models are [`discovery`] and [`openapi`]; both keep their
//! named entries in an [`ordered_map::OrderedMap`], so that every walk over a
//! document meets its parts in the same order. [`google_to_openapi`] converts
//! a Discovery document to an OpenAPI document, [`openapi_to_google`] converts
//! back, [`convert`] chooses between them, and [`round_trip`] and [`laws`]
//! state what the two have to do with each other. [`validation`] holds an
//! OpenAPI document to the rules and reports everything it finds;
//! [`references`] is a stricter check that stops at the first complaint.

pub mod convert;
pub mod discovery;
pub mod error;
pub mod field_assert;
pub mod google_to_openapi;
pub mod laws;
pub mod naming;
pub mod openapi;
pub mod openapi_to_google;
pub mod ordered_map;
pub mod references;
pub mod render;
pub mod round_trip;
pub mod text;
pub mod validation;
pub mod validation_results;

pub use crate::google_to_openapi::google_spec_to_openapi;
pub use crate::openapi_to_google::openapi_spec_to_google;
pub use crate::validation::{OpenAPIValidation, ValidationOptions};
pub use crate::validation_results::ValidationResults;
