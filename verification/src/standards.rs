//! The guidelines against which primitives are validated.

pub mod bsi;
pub mod cnsa;
pub mod nist;
