//! Converts vendor-specific XML job feeds into one canonical record shape:
//! schema validation against a per-vendor structural grammar, then a pure,
//! verified extraction that maps vendor field names into the canonical
//! model, with per-vendor required-field policies and composition rules.

pub mod common;
pub mod import;
pub mod parse_xmlgrandio;
pub mod parse_xmlhotelleriejobs;
pub mod parse_xmlpscout;
pub mod parse_xmltidan;
pub mod parse_xmlzohoquintessence;
pub mod parse_xmlzohorecruit;
pub mod trusted;
pub mod validate;
pub mod xmldoc;
