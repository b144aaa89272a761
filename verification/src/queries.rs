//! The decisions behind the two editor queries: what a position query
//! answers, given the current document state and the text of the
//! queried line.

use vstd::prelude::*;

use crate::metabolic::Metabolic;
use crate::state::{
    enz_ids, lemma_first_match_props, met_ids, reac_ids, spec_find_rendered, spec_first_match,
    spec_symbol_span_start, KineticModelState,
};
use crate::symbol_parser::{extract_symbol, spec_extract_symbol};
use crate::text::{lemma_line_count_bounds, spec_dec_digits, spec_line_count, u64_to_dec};

verus! {

/// Outcome of a go-to-definition query.
pub enum GotoOutcome {
    /// The 0-based editor line where the symbol's definition starts.
    Definition { line: usize },
    /// No answer; the structured error message to report.
    NotFound { message: String },
}

/// Outcome of a hover query.
pub enum HoverOutcome {
    /// The rendered definition block of the resolved entity.
    Text { rendered: String },
    /// No symbol at the position, or the symbol matches no declared
    /// entity; the structured error message to report.
    NotFound { message: String },
}

/// The message reported when no symbol stands at the position.
pub open spec fn no_symbol_message(line_str: Seq<char>, column: nat) -> Seq<char> {
    "Valid symbol at "@ + line_str + ","@ + spec_dec_digits(column) + " Not Found"@
}

/// The message reported when a symbol is not declared in the model.
pub open spec fn unknown_symbol_message(sym: Seq<char>) -> Seq<char> {
    "Symbol "@ + sym + " Not Found in Kinetic Model"@
}

fn no_symbol_message_exec(line_str: &str, column: usize) -> (r: String)
    ensures
        r@ == no_symbol_message(line_str@, column as nat),
{
    let mut message = String::from_str("Valid symbol at ");
    message.append(line_str);
    message.append(",");
    let col = u64_to_dec(column as u64);
    message.append(col.as_str());
    message.append(" Not Found");
    proof {
        assert(message@ =~= no_symbol_message(line_str@, column as nat));
    }
    message
}

fn unknown_symbol_message_exec(symbol: &str) -> (r: String)
    ensures
        r@ == unknown_symbol_message(symbol@),
{
    let mut message = String::from_str("Symbol ");
    message.append(symbol);
    message.append(" Not Found in Kinetic Model");
    proof {
        assert(message@ =~= unknown_symbol_message(symbol@));
    }
    message
}

/// Answer a go-to-definition query: extract the symbol at the cursor,
/// resolve it, and hand back the 0-based editor line of its
/// definition, or the structured reason there is none.
pub fn goto_definition(state: &KineticModelState, line_str: &str, column: usize) -> (r: GotoOutcome)
    requires
        state.wf(),
        column <= line_str@.len(),
    ensures
        ({
            match spec_extract_symbol(line_str@, column as int) {
                None => (r matches GotoOutcome::NotFound { message } && message@
                    == no_symbol_message(line_str@, column as nat)),
                Some(sym) => match spec_symbol_span_start(&state.kinetic_model, sym) {
                    None => (r matches GotoOutcome::NotFound { message } && message@
                        == unknown_symbol_message(sym)),
                    Some(s) => (r matches GotoOutcome::Definition { line } && line
                        == spec_line_count(state.file_str@.take(s as int)) - 1),
                },
            }
        }),
{
    let symbol = match extract_symbol(line_str, column) {
        Some(s) => s,
        None => {
            return GotoOutcome::NotFound { message: no_symbol_message_exec(line_str, column) };
        },
    };
    match state.find_symbol_line(symbol) {
        Some(line) => {
            proof {
                let m = &state.kinetic_model;
                let len = state.file_str@.len() as int;
                lemma_first_match_props(met_ids(m), symbol@, 0);
                lemma_first_match_props(reac_ids(m), symbol@, 0);
                lemma_first_match_props(enz_ids(m), symbol@, 0);
                let mi = spec_first_match(met_ids(m), symbol@, 0);
                let ri = spec_first_match(reac_ids(m), symbol@, 0);
                let ei = spec_first_match(enz_ids(m), symbol@, 0);
                if mi is Some {
                    assert(m.metabolites@[mi->0].id.wf(len));
                } else if ri is Some {
                    assert(m.reactions@[ri->0].id.wf(len));
                } else {
                    assert(m.enzymes@[ei->0].id.wf(len));
                }
                let s = spec_symbol_span_start(m, symbol@)->0;
                lemma_line_count_bounds(state.file_str@.take(s as int));
            }
            GotoOutcome::Definition { line: line - 1 }
        },
        None => GotoOutcome::NotFound { message: unknown_symbol_message_exec(symbol) },
    }
}

/// Answer a hover query: extract the symbol at the cursor and render
/// the entity it resolves to, or the structured reason there is no
/// answer — no symbol stands at the position, or the symbol matches no
/// declared entity.
pub fn hover(state: &KineticModelState, line_str: &str, column: usize) -> (r: HoverOutcome)
    requires
        column <= line_str@.len(),
    ensures
        ({
            match spec_extract_symbol(line_str@, column as int) {
                None => (r matches HoverOutcome::NotFound { message } && message@
                    == no_symbol_message(line_str@, column as nat)),
                Some(sym) => match spec_symbol_span_start(&state.kinetic_model, sym) {
                    None => (r matches HoverOutcome::NotFound { message } && message@
                        == unknown_symbol_message(sym)),
                    Some(_) => (r matches HoverOutcome::Text { rendered } && rendered@
                        == spec_find_rendered(&state.kinetic_model, sym)),
                },
            }
        }),
{
    match extract_symbol(line_str, column) {
        Some(symbol) => match state.find_symbol(symbol) {
            Some(e) => HoverOutcome::Text { rendered: e.render() },
            None => HoverOutcome::NotFound { message: unknown_symbol_message_exec(symbol) },
        },
        None => HoverOutcome::NotFound { message: no_symbol_message_exec(line_str, column) },
    }
}

} // verus!
