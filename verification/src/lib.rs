//! Compliance checks of cryptographic primitives against published
//! security guidelines.
//!
//! [`primitives`] is the catalogue of primitives, [`standards`] holds
//! one module of rules for each guideline, and [`assess`] applies a
//! guideline to what a certificate declares.

pub mod assess;
pub mod context;
pub mod key;
pub mod primitives;
pub mod standards;
