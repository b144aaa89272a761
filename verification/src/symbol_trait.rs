//! The symbol-extraction capability as a trait over document kinds.

use vstd::prelude::*;

use crate::maud_data::KineticModel;
use crate::symbol_parser::{extract_quoted, spec_extract_quoted};

verus! {

/// Implementors parse a line and return the symbol under the cursor,
/// reading only the quoted lexical mode.
pub trait SymbolExtract {
    /// The quoted symbol at the column, when both enclosing quotes
    /// exist.
    fn extract_symbol<'a>(line: &'a str, column: usize) -> (r: Option<&'a str>)
        requires
            column <= line@.len(),
        ensures
            match r {
                Some(t) => spec_extract_quoted(line@, column as int) == Some(t@),
                None => spec_extract_quoted(line@, column as int) is None,
            },
    ;
}

impl SymbolExtract for KineticModel {
    fn extract_symbol<'a>(line: &'a str, column: usize) -> (r: Option<&'a str>) {
        extract_quoted(line, column)
    }
}

} // verus!
