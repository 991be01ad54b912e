//! Typed model of thesis-metadata documents, and the extraction of their domain fields.
pub mod dc;
pub mod dcterms;
pub mod extractors;
pub mod gestion;
pub mod mads;
pub mod mets;
pub mod mets_rights;
pub mod tef;
pub mod tolerant;
