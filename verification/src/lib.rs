//! Editor-integration backend for a metabolic-model description format.
//!
//! The library owns the raw text of each configuration document together
//! with a parsed entity tree whose identifiers keep their source offsets.
//! It resolves the symbol under a cursor, renders entity definitions,
//! and runs referential-integrity checks across the documents.

pub mod diagnostics;
pub mod experiments;
pub mod float_bits;
pub mod maud_data;
pub mod metabolic;
pub mod priors;
pub mod queries;
pub mod state;
pub mod symbol_parser;
pub mod symbol_trait;
pub mod text;
