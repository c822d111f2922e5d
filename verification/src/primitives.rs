//! The catalogue of cryptographic primitives, one module per family.

pub mod asymmetric;
pub mod ecc;
pub mod hash;
pub mod ifc;
pub mod symmetric;
