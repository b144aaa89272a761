use maud_lsp::maud_data::{Enzyme, EnzymeReaction, KineticModel, Metabolite, SpannedString};
use maud_lsp::queries::{goto_definition, hover, GotoOutcome, HoverOutcome};
use maud_lsp::state::{next_state, KineticModelState, ReloadOutcome};

const FIXTURE: &str = "[[metabolite]]\n\
id = \"g6p\"\n\
name = \"glucose 6 phosphate\"\n\
inchi_key = \"AAA\"\n\
\n\
\n\
\n\
[[metabolite]]\n\
id = \"g3p\"\n\
name = \"glyceraldehyde 3 phosphate\"\n\
inchi_key = \"BBB\"\n\
\n\
[[enzyme]]\n\
id = \"E1\"\n\
name = \"isomerase\"\n\
subunits = 4\n\
\n\
[[enzyme_reaction]]\n\
enzyme_id = \"E1\"\n\
reaction_id = \"pgi\"\n";

fn spanned_id(text: &str, value: &str) -> SpannedString {
    let needle = format!("\"{}\"", value);
    let start = text.find(&needle).unwrap() + 1;
    SpannedString { value: value.to_string(), start, end: start + value.len() }
}

fn metabolite(text: &str, id: &str, name: &str, key: &str) -> Metabolite {
    Metabolite { id: spanned_id(text, id), name: name.to_string(), inchi_key: key.to_string() }
}

fn fixture_state() -> KineticModelState {
    let model = KineticModel {
        metabolites: vec![
            metabolite(FIXTURE, "g6p", "glucose 6 phosphate", "AAA"),
            metabolite(FIXTURE, "g3p", "glyceraldehyde 3 phosphate", "BBB"),
        ],
        reactions: vec![],
        enzymes: vec![Enzyme {
            id: spanned_id(FIXTURE, "E1"),
            name: "isomerase".to_string(),
            subunits: 4,
        }],
        enzyme_reaction: vec![EnzymeReaction {
            enzyme_id: "E1".to_string(),
            reaction_id: "pgi".to_string(),
        }],
        metabolite_in_compartment: vec![],
    };
    KineticModelState::new(FIXTURE.to_string(), model).unwrap()
}

#[test]
fn goto_definition_answers_zero_based_line() {
    // g3p is declared on line index 8; the query answers 8
    let state = fixture_state();
    match goto_definition(&state, "id = \"g3p\"", 7) {
        GotoOutcome::Definition { line } => assert_eq!(line, 8),
        GotoOutcome::NotFound { message } => panic!("unexpected miss: {}", message),
    }
}

#[test]
fn hover_renders_the_definition() {
    // hover on g6p returns rendered text containing "g6p"
    let state = fixture_state();
    match hover(&state, "id = \"g6p\"", 7) {
        HoverOutcome::Text { rendered } => {
            assert!(rendered.contains("g6p"));
            assert_eq!(
                rendered,
                "metabolite = g6p\nname = glucose 6 phosphate\ninchi_key = AAA"
            );
        },
        HoverOutcome::NotFound { message } => panic!("unexpected miss: {}", message),
    }
}

#[test]
fn hover_on_enzyme_joins_its_reactions() {
    let state = fixture_state();
    match hover(&state, "id = \"E1\"", 7) {
        HoverOutcome::Text { rendered } => {
            assert_eq!(
                rendered,
                "enzyme = E1\nname = isomerase\nsubunits = 4\nreactions = [\"pgi\"]"
            );
        },
        HoverOutcome::NotFound { message } => panic!("unexpected miss: {}", message),
    }
}

#[test]
fn query_without_symbol_reports_position() {
    let state = fixture_state();
    match goto_definition(&state, "  ,  ", 1) {
        GotoOutcome::Definition { line } => panic!("unexpected hit: {}", line),
        GotoOutcome::NotFound { message } => {
            assert_eq!(message, "Valid symbol at   ,  ,1 Not Found");
        },
    }
}

#[test]
fn query_with_unknown_symbol_names_it() {
    let state = fixture_state();
    match goto_definition(&state, "id = \"nadh\"", 7) {
        GotoOutcome::Definition { line } => panic!("unexpected hit: {}", line),
        GotoOutcome::NotFound { message } => {
            assert_eq!(message, "Symbol nadh Not Found in Kinetic Model");
        },
    }
}

#[test]
fn hover_on_undeclared_symbol_reports_a_miss() {
    // a symbol with no matching entity is a query miss, answered with
    // a structured error rather than an empty hover
    let state = fixture_state();
    match hover(&state, "id = \"nadh\"", 7) {
        HoverOutcome::Text { rendered } => panic!("unexpected text: {}", rendered),
        HoverOutcome::NotFound { message } => {
            assert_eq!(message, "Symbol nadh Not Found in Kinetic Model");
        },
    }
}

#[test]
fn failed_reload_keeps_the_previous_state() {
    // saving a document that fails to parse leaves subsequent queries
    // resolving against the previously loaded valid state
    let state = fixture_state();
    let state = next_state(state, ReloadOutcome::Failed);
    assert_eq!(state.find_symbol_line("g6p"), Some(2));
    match hover(&state, "id = \"g3p\"", 7) {
        HoverOutcome::Text { rendered } => assert!(rendered.contains("g3p")),
        HoverOutcome::NotFound { message } => panic!("unexpected miss: {}", message),
    }
}

#[test]
fn successful_reload_replaces_the_state() {
    let state = fixture_state();
    let text = "[[metabolite]]\nid = \"atp\"\nname = \"atp\"\ninchi_key = \"CCC\"\n";
    let fresh = KineticModelState::new(
        text.to_string(),
        KineticModel {
            metabolites: vec![metabolite(text, "atp", "atp", "CCC")],
            reactions: vec![],
            enzymes: vec![],
            enzyme_reaction: vec![],
            metabolite_in_compartment: vec![],
        },
    )
    .unwrap();
    let state = next_state(state, ReloadOutcome::Parsed(fresh));
    assert_eq!(state.find_symbol_line("g6p"), None);
    assert_eq!(state.find_symbol_line("atp"), Some(2));
}

#[test]
fn oversized_spans_are_rejected_at_construction() {
    let text = "[[metabolite]]\nid = \"g6p\"\n";
    let model = KineticModel {
        metabolites: vec![Metabolite {
            id: SpannedString { value: "g6p".to_string(), start: 1000, end: 1003 },
            name: "g".to_string(),
            inchi_key: "K".to_string(),
        }],
        reactions: vec![],
        enzymes: vec![],
        enzyme_reaction: vec![],
        metabolite_in_compartment: vec![],
    };
    assert!(KineticModelState::new(text.to_string(), model).is_none());
}
