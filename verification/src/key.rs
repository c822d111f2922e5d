//! Keys and the documents that carry them.

pub mod certificate;
