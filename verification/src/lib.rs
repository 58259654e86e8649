//! Howser checks that a structured text document conforms to a prescription:
//! a template written in the same notation whose annotation nodes carry
//! directives that say how strictly each part of a document must match.
//!
//! The library works on trees that a parser has already produced. It checks
//! that a template uses its directives consistently, aligns a template with a
//! candidate document, and reports every divergence with its place.

pub mod node;
pub mod text;
pub mod directive;
pub mod errors;
pub mod authoring;
pub mod document;
pub mod matching;
pub mod order;
pub mod validator;
pub mod conformance;
pub mod rendering;
pub mod laws;
pub mod commands;
pub mod pharmacy;
pub mod batch;
pub mod cli;
pub mod reporters;
