//! A model of the code that `#[derive(StandardDistribution)]` generates: the attribute checks,
//! the rules that pick how a random enum variant is chosen, and the field initialisers.
//!
//! The procedural-macro front end (token parsing and printing) is a crate of its own: it turns
//! the parsed input into the plain values of this crate and renders the plans that it returns.
pub mod error;
pub mod code;
pub mod generics;
pub mod derive_field;
pub mod derive_variant;
pub mod derive_standard_distribution;
pub mod derive_sample_uniform;
pub mod standard;
pub mod standard_distribution;
pub mod laws;
pub mod properties;
