//! Translates a MusicXML schema document, already loaded as a plain
//! element tree, into a model of its enumerated value types: every
//! top-level node is classified into a closed set of kinds and registered
//! under a collision-checked identifier, every enumeration simple type is
//! extracted with its base type, ordered members and optional
//! documentation, and any malformed construct aborts the parse with a
//! precise error. Casing helpers for the generated identifiers live in
//! `string_stuff`.

pub mod decimal;
pub mod laws;
pub mod model;
pub mod string_stuff;
pub mod strutil;
pub mod xml;
pub mod xsd_parser;
