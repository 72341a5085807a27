//! Weight derivation for annotated functions.
//!
//! A function declaration and a weight annotation, both given as source text,
//! are fused into the declaration of a companion function `weighted_<name>`.
//! The companion has the same parameters, runs the annotated function's body for
//! its effects and returns a weight chosen by the annotation.
//!
//! The pipeline has three stages: [`classify`] reads the annotation,
//! [`extract_identifiers`] collects the simple parameter names, and
//! [`synthesize`] builds the companion, which [`GeneratedFunction::render`]
//! writes out as Rust source.

pub mod model;
pub mod syntax;
pub mod classify;
pub mod extract;
pub mod synthesize;
pub mod render;
pub mod expand;
pub mod sample;

pub use crate::classify::{classify, classify_parsed};
pub use crate::extract::extract_identifiers;
pub use crate::synthesize::synthesize;
pub use crate::expand::{
    derive_weight_expr, derive_weight_fn, derive_weight_result, diagnostic, transform, weight,
    weight_function,
};
pub use crate::model::{
    AnnotationSpec, GeneratedFunction, Outcome, Parameter, SourceFunction, TransformError,
    WeightRule, WeightTerm,
};
pub use crate::sample::{
    do_something, do_something_else, ok_something, weight_for_do_something_else,
    weighted_do_something, weighted_do_something_else, weighted_ok_something, Weight,
};
