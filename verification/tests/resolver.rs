use maud_lsp::maud_data::{
    Coefficient, Enzyme, EnzymeReaction, KineticModel, Metabolite, Reaction, ReactionMechanism,
    SpannedString,
};
use maud_lsp::maud_data::parse_reaction_mechanism;
use maud_lsp::metabolic::Entity;
use maud_lsp::state::KineticModelState;

const FIXTURE: &str = "[[metabolite]]\n\
id = \"g6p\"\n\
name = \"glucose 6 phosphate\"\n\
inchi_key = \"AAA\"\n\
\n\
\n\
\n\
[[metabolite]]\n\
id = \"g3p\"\n\
name = \"glyceraldehyde 3 phosphate\"\n\
inchi_key = \"BBB\"\n\
\n\
[[reaction]]\n\
id = \"pgi\"\n\
name = \"phosphoglucose isomerase\"\n\
stoichiometry = { \"g6p\" = -1, \"g3p\" = 2 }\n\
mechanism = \"reversible_michaelis_menten\"\n\
\n\
[[enzyme]]\n\
id = \"E1\"\n\
name = \"isomerase\"\n\
subunits = 4\n\
\n\
[[enzyme_reaction]]\n\
enzyme_id = \"E1\"\n\
reaction_id = \"pgi\"\n";

fn spanned_id(text: &str, value: &str) -> SpannedString {
    let needle = format!("\"{}\"", value);
    let start = text.find(&needle).unwrap() + 1;
    SpannedString { value: value.to_string(), start, end: start + value.len() }
}

fn coef(v: f32) -> Coefficient {
    Coefficient { bits: v.to_bits(), text: format!("{}", v) }
}

fn fixture_model(text: &str) -> KineticModel {
    KineticModel {
        metabolites: vec![
            Metabolite {
                id: spanned_id(text, "g6p"),
                name: "glucose 6 phosphate".to_string(),
                inchi_key: "AAA".to_string(),
            },
            Metabolite {
                id: spanned_id(text, "g3p"),
                name: "glyceraldehyde 3 phosphate".to_string(),
                inchi_key: "BBB".to_string(),
            },
        ],
        reactions: vec![Reaction {
            id: spanned_id(text, "pgi"),
            name: "phosphoglucose isomerase".to_string(),
            stoichiometry: vec![("g6p".to_string(), coef(-1.0)), ("g3p".to_string(), coef(2.0))],
            mechanism: ReactionMechanism::ReversibleMichaelisMenten,
        }],
        enzymes: vec![Enzyme {
            id: spanned_id(text, "E1"),
            name: "isomerase".to_string(),
            subunits: 4,
        }],
        enzyme_reaction: vec![EnzymeReaction {
            enzyme_id: "E1".to_string(),
            reaction_id: "pgi".to_string(),
        }],
        metabolite_in_compartment: vec![],
    }
}

fn fixture_state() -> KineticModelState {
    KineticModelState::new(FIXTURE.to_string(), fixture_model(FIXTURE)).unwrap()
}

#[test]
fn finds_line_of_met_symbol() {
    let kinetic_model_state = fixture_state();
    assert_eq!(kinetic_model_state.find_symbol_line("g3p"), Some(9));
    assert_eq!(kinetic_model_state.find_symbol_line("g6p"), Some(2))
}

#[test]
fn unknown_symbol_has_no_line() {
    let state = fixture_state();
    assert_eq!(state.find_symbol_line("nadh"), None);
}

#[test]
fn renders_metabolite_block() {
    let state = fixture_state();
    let rendered = state.find_rendered_symbol("g6p");
    assert_eq!(
        rendered,
        "metabolite = g6p\nname = glucose 6 phosphate\ninchi_key = AAA"
    );
}

#[test]
fn renders_reaction_block_with_arrow() {
    let state = fixture_state();
    let rendered = state.find_rendered_symbol("pgi");
    assert_eq!(
        rendered,
        "reaction = pgi\nname = phosphoglucose isomerase\nmechanism = reversible\n\
         stoichiometry = 'g6p <=> 2 g3p'"
    );
}

#[test]
fn renders_enzyme_block_with_reactions() {
    let state = fixture_state();
    let rendered = state.find_rendered_symbol("E1");
    assert_eq!(
        rendered,
        "enzyme = E1\nname = isomerase\nsubunits = 4\nreactions = [\"pgi\"]"
    );
}

#[test]
fn unknown_symbol_renders_empty() {
    let state = fixture_state();
    assert_eq!(state.find_rendered_symbol("nadh"), "");
}

#[test]
fn resolver_precedence_prefers_metabolites() {
    // contrived fixture: a metabolite and an enzyme share the
    // identifier string; the metabolite is returned
    let text = "[[metabolite]]\nid = \"pfk\"\nname = \"m\"\ninchi_key = \"K\"\n\
                [[enzyme]]\nid = \"pfk\"\nname = \"e\"\nsubunits = 2\n";
    let start = text.find("\"pfk\"").unwrap() + 1;
    let enz_start = text.rfind("\"pfk\"").unwrap() + 1;
    let model = KineticModel {
        metabolites: vec![Metabolite {
            id: SpannedString { value: "pfk".to_string(), start, end: start + 3 },
            name: "m".to_string(),
            inchi_key: "K".to_string(),
        }],
        reactions: vec![],
        enzymes: vec![Enzyme {
            id: SpannedString { value: "pfk".to_string(), start: enz_start, end: enz_start + 3 },
            name: "e".to_string(),
            subunits: 2,
        }],
        enzyme_reaction: vec![],
        metabolite_in_compartment: vec![],
    };
    let state = KineticModelState::new(text.to_string(), model).unwrap();
    match state.find_symbol("pfk") {
        Some(Entity::Met(m)) => assert_eq!(m.name, "m"),
        _ => panic!("expected the metabolite"),
    }
    // the rendered block is the metabolite's, and the line is the
    // metabolite's line (index 1, so 1-based count 2)
    assert!(state.find_rendered_symbol("pfk").starts_with("metabolite = pfk"));
    assert_eq!(state.find_symbol_line("pfk"), Some(2));
}

#[test]
fn empty_stoichiometry_renders_a_bare_arrow() {
    let text = "[[reaction]]\nid = \"dr\"\nname = \"dr\"\nmechanism = \"drain\"\n";
    let model = KineticModel {
        metabolites: vec![],
        reactions: vec![Reaction {
            id: spanned_id(text, "dr"),
            name: "dr".to_string(),
            stoichiometry: vec![],
            mechanism: ReactionMechanism::Drain,
        }],
        enzymes: vec![],
        enzyme_reaction: vec![],
        metabolite_in_compartment: vec![],
    };
    let state = KineticModelState::new(text.to_string(), model).unwrap();
    assert_eq!(
        state.find_rendered_symbol("dr"),
        "reaction = dr\nname = dr\nmechanism = drain\nstoichiometry = ' <=> '"
    );
}

#[test]
fn mechanism_strings_parse_case_insensitively() {
    assert!(matches!(
        parse_reaction_mechanism("IRREVERSIBLE_MICHAELIS_MENTEN"),
        Some(ReactionMechanism::IrreversibleMichaelisMenten)
    ));
    assert!(matches!(
        parse_reaction_mechanism("Reversible_Michaelis_Menten"),
        Some(ReactionMechanism::ReversibleMichaelisMenten)
    ));
    assert!(matches!(parse_reaction_mechanism("drain"), Some(ReactionMechanism::Drain)));
    assert!(parse_reaction_mechanism("diffusion").is_none());
}
