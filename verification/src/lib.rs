//! A synthesizer of human-readable rendering plans for foreign composite
//! types.
//!
//! Given an immutable snapshot of a type graph, an item describing a record
//! or union, and the record's ordered fields, the library decides for every
//! field whether a runtime rendering fragment can be produced, and assembles
//! the surviving fragments into a single rendering procedure: a format
//! template together with the ordered value-extraction expressions that fill
//! its placeholders. The number of placeholders in the template always
//! equals the number of extraction expressions.

pub mod decimal;
pub mod fragment;
pub mod graph;
pub mod laws;
pub mod render;
pub mod resolve;
pub mod template;
