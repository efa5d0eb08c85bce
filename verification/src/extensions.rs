//! Extensions: typed fields that a document carries under a reserved property name.

pub mod laws;
pub mod security;
