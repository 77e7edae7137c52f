//! Generation of dependency-injection registrations.
//!
//! Given a model of an implementation block and the construction function
//! inside it, the crate classifies each constructor parameter against a small
//! vocabulary of dependency shapes and emits the registration code that a
//! dependency-injection runtime consumes.

pub mod assemble;
pub mod callsite;
pub mod classify;
pub mod error;
pub mod laws;
pub mod locate;
pub mod model;
pub mod render;
