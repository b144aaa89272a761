use maud_lsp::diagnostics::{gather_diagnostics, gather_diagnostics_priors, Severity};
use maud_lsp::maud_data::{
    Coefficient, Enzyme, EnzymeReaction, KineticModel, Metabolite, Reaction, ReactionMechanism,
    SpannedString,
};
use maud_lsp::priors::{ConcEnzyme, ConcUnbalanced, Dgf, Drain, KcatPrior, KmPrior, Priors, Spanned};
use maud_lsp::state::{KineticModelState, PriorsState};

const MODEL_TEXT: &str = "[[metabolite]]\n\
id = \"g6p\"\n\
\n\
[[reaction]]\n\
id = \"pgi\"\n\
\n\
[[reaction]]\n\
id = \"g3pdrain\"\n\
\n\
[[enzyme]]\n\
id = \"E1\"\n\
\n\
[[enzyme]]\n\
id = \"E2\"\n";

const PRIORS_TEXT: &str = "[[kcat]]\n\
enzyme = \"E1\"\n\
\n\
[[km]]\n\
enzyme = \"E1\"\n\
\n\
[[conc_unbalanced]]\n\
metabolite = \"g6p\"\n";

fn spanned_id(text: &str, value: &str) -> SpannedString {
    let needle = format!("\"{}\"", value);
    let start = text.find(&needle).unwrap() + 1;
    SpannedString { value: value.to_string(), start, end: start + value.len() }
}

fn coef(v: f32) -> Coefficient {
    Coefficient { bits: v.to_bits(), text: format!("{}", v) }
}

fn metabolite(text: &str, id: &str) -> Metabolite {
    Metabolite { id: spanned_id(text, id), name: id.to_string(), inchi_key: "K".to_string() }
}

fn reaction(text: &str, id: &str, st: Vec<(&str, f32)>, mech: ReactionMechanism) -> Reaction {
    Reaction {
        id: spanned_id(text, id),
        name: id.to_string(),
        stoichiometry: st.into_iter().map(|(k, v)| (k.to_string(), coef(v))).collect(),
        mechanism: mech,
    }
}

fn enzyme(text: &str, id: &str) -> Enzyme {
    Enzyme { id: spanned_id(text, id), name: id.to_string(), subunits: 1 }
}

fn link(e: &str, r: &str) -> EnzymeReaction {
    EnzymeReaction { enzyme_id: e.to_string(), reaction_id: r.to_string() }
}

fn model_state(model: KineticModel) -> KineticModelState {
    KineticModelState::new(MODEL_TEXT.to_string(), model).unwrap()
}

fn empty_priors() -> Priors {
    Priors {
        kcat: vec![],
        km: vec![],
        conc_enzyme: vec![],
        conc_unbalanced: vec![],
        drain: vec![],
        dgf: None,
    }
}

fn priors_state(priors: Priors) -> PriorsState {
    PriorsState::new(PRIORS_TEXT.to_string(), priors).unwrap()
}

fn kcat_for(reaction: &str) -> Spanned<KcatPrior> {
    Spanned {
        value: KcatPrior {
            enzyme: "E1".to_string(),
            reaction: reaction.to_string(),
            exploc: Some(1.0f64.to_bits()),
            scale: Some(0.1f64.to_bits()),
            pct1: None,
            pct99: None,
        },
        start: 1,
        end: 8,
    }
}

#[test]
fn unlinked_reaction_is_flagged() {
    let model = KineticModel {
        metabolites: vec![metabolite(MODEL_TEXT, "g6p")],
        reactions: vec![reaction(
            MODEL_TEXT,
            "pgi",
            vec![],
            ReactionMechanism::ReversibleMichaelisMenten,
        )],
        enzymes: vec![],
        enzyme_reaction: vec![],
        metabolite_in_compartment: vec![],
    };
    let state = model_state(model);
    let priors = priors_state(empty_priors());
    let diags = gather_diagnostics(&state, &priors, &vec![]);
    assert_eq!(diags.len(), 2);
    assert_eq!(diags[0].message, "Missing enzyme for reaction.");
    assert_eq!(diags[0].severity, Severity::Error);
    assert_eq!(diags[0].code, 0);
    // the reaction id stands on line index 4, three chars wide, and
    // the range accounts for the `id = ` prefix
    assert_eq!(diags[0].range.start.line, 4);
    assert_eq!(diags[0].range.start.character, 5);
    assert_eq!(diags[0].range.end.character, 8);
    assert_eq!(diags[1].message, "Missing kcat for reaction!");
}

#[test]
fn drain_reactions_are_not_flagged_for_enzymes_or_kcats() {
    let model = KineticModel {
        metabolites: vec![],
        reactions: vec![reaction(MODEL_TEXT, "g3pdrain", vec![], ReactionMechanism::Drain)],
        enzymes: vec![],
        enzyme_reaction: vec![],
        metabolite_in_compartment: vec![],
    };
    let state = model_state(model);
    let priors = priors_state(empty_priors());
    let diags = gather_diagnostics(&state, &priors, &vec![]);
    assert_eq!(diags.len(), 0);
}

#[test]
fn drain_without_prior_warns_per_experiment() {
    let model = KineticModel {
        metabolites: vec![],
        reactions: vec![reaction(MODEL_TEXT, "g3pdrain", vec![], ReactionMechanism::Drain)],
        enzymes: vec![],
        enzyme_reaction: vec![],
        metabolite_in_compartment: vec![],
    };
    let state = model_state(model);
    let priors = priors_state(empty_priors());
    let experiments = vec!["batch1".to_string(), "batch2".to_string()];
    let diags = gather_diagnostics(&state, &priors, &experiments);
    assert_eq!(diags.len(), 2);
    assert_eq!(diags[0].message, "Missing prior for experiment 'batch1'");
    assert!(diags[0].message.contains("batch1"));
    assert_eq!(diags[0].severity, Severity::Warning);
    assert_eq!(diags[1].message, "Missing prior for experiment 'batch2'");
}

#[test]
fn matching_drain_prior_silences_the_warning() {
    let model = KineticModel {
        metabolites: vec![],
        reactions: vec![reaction(MODEL_TEXT, "g3pdrain", vec![], ReactionMechanism::Drain)],
        enzymes: vec![],
        enzyme_reaction: vec![],
        metabolite_in_compartment: vec![],
    };
    let state = model_state(model);
    let mut priors = empty_priors();
    priors.drain.push(Spanned {
        value: Drain {
            reaction: "g3pdrain".to_string(),
            experiment: "batch1".to_string(),
            location: Some(1.0f64.to_bits()),
            scale: Some(0.1f64.to_bits()),
            pct1: None,
            pct99: None,
        },
        start: 1,
        end: 8,
    });
    let priors = priors_state(priors);
    let diags = gather_diagnostics(&state, &priors, &vec!["batch1".to_string()]);
    assert_eq!(diags.len(), 0);
}

#[test]
fn enzyme_without_concentration_warns_per_experiment() {
    let model = KineticModel {
        metabolites: vec![],
        reactions: vec![],
        enzymes: vec![enzyme(MODEL_TEXT, "E1")],
        enzyme_reaction: vec![link("E1", "pgi")],
        metabolite_in_compartment: vec![],
    };
    let state = model_state(model);
    let priors = priors_state(empty_priors());
    let diags = gather_diagnostics(&state, &priors, &vec!["batch1".to_string()]);
    assert_eq!(diags.len(), 1);
    assert_eq!(diags[0].message, "Missing concentration prior for experiment batch1.");
    assert_eq!(diags[0].severity, Severity::Warning);
    let mut covered = empty_priors();
    covered.conc_enzyme.push(Spanned {
        value: ConcEnzyme {
            enzyme: "E1".to_string(),
            experiment: "batch1".to_string(),
            exploc: Some(1.0f64.to_bits()),
            scale: Some(0.1f64.to_bits()),
            pct1: None,
            pct99: None,
        },
        start: 1,
        end: 8,
    });
    let covered = priors_state(covered);
    assert_eq!(gather_diagnostics(&state, &covered, &vec!["batch1".to_string()]).len(), 0);
}

#[test]
fn unlinked_enzyme_is_flagged() {
    let model = KineticModel {
        metabolites: vec![],
        reactions: vec![],
        enzymes: vec![enzyme(MODEL_TEXT, "E2")],
        enzyme_reaction: vec![],
        metabolite_in_compartment: vec![],
    };
    let state = model_state(model);
    let priors = priors_state(empty_priors());
    let diags = gather_diagnostics(&state, &priors, &vec![]);
    assert_eq!(diags.len(), 1);
    assert_eq!(diags[0].message, "Missing kcat for reaction.");
    assert_eq!(diags[0].severity, Severity::Error);
}

#[test]
fn uncovered_stoichiometry_keys_are_listed() {
    let model = KineticModel {
        metabolites: vec![],
        reactions: vec![reaction(
            MODEL_TEXT,
            "pgi",
            vec![("g6p_c", -1.0), ("f6p_c", 1.0)],
            ReactionMechanism::ReversibleMichaelisMenten,
        )],
        enzymes: vec![enzyme(MODEL_TEXT, "E1")],
        enzyme_reaction: vec![link("E1", "pgi")],
        metabolite_in_compartment: vec![],
    };
    let state = model_state(model);
    let mut priors = empty_priors();
    priors.kcat.push(kcat_for("pgi"));
    priors.km.push(Spanned {
        value: KmPrior {
            metabolite: "g6p".to_string(),
            compartment: "c".to_string(),
            enzyme: "E1".to_string(),
            exploc: Some(1.0f64.to_bits()),
            scale: Some(0.1f64.to_bits()),
            pct1: None,
            pct99: None,
        },
        start: 1,
        end: 8,
    });
    let priors = priors_state(priors);
    let diags = gather_diagnostics(&state, &priors, &vec![
        "batch1".to_string(),
    ]);
    // the enzyme has no concentration prior for batch1, and one
    // stoichiometry key has no Km prior
    assert_eq!(diags.len(), 2);
    assert_eq!(diags[0].message, "Missing concentration prior for experiment batch1.");
    assert_eq!(diags[1].message, "Missing kms for reaction pgi: [\"f6p_c\"].");
    assert_eq!(diags[1].severity, Severity::Error);
}

#[test]
fn incomplete_and_inconsistent_records_are_positioned() {
    // a kcat prior with only a location: exactly one incomplete
    // diagnostic and no inconsistent one
    let mut priors = empty_priors();
    let start = PRIORS_TEXT.find("\"E1\"").unwrap() + 1;
    priors.kcat.push(Spanned {
        value: KcatPrior {
            enzyme: "E1".to_string(),
            reaction: "pgi".to_string(),
            exploc: Some(1.0f64.to_bits()),
            scale: None,
            pct1: None,
            pct99: None,
        },
        start,
        end: start + 11,
    });
    let priors = priors_state(priors);
    let diags = gather_diagnostics_priors(&priors, &vec![], &vec![], true);
    assert_eq!(diags.len(), 1);
    assert_eq!(
        diags[0].message,
        "Incomplete prior spec. Either exploc AND scale or pct1 AND pct99 must be specified."
    );
    assert_eq!(diags[0].severity, Severity::Error);
    assert_eq!(diags[0].code, 1);
    // the record starts on line index 1 and is eleven chars wide
    assert_eq!(diags[0].range.start.line, 1);
    assert_eq!(diags[0].range.start.character, 5);
    assert_eq!(diags[0].range.end.character, 16);
}

#[test]
fn fully_specified_record_is_inconsistent_only() {
    let mut priors = empty_priors();
    priors.kcat.push(Spanned {
        value: KcatPrior {
            enzyme: "E1".to_string(),
            reaction: "pgi".to_string(),
            exploc: Some(1.0f64.to_bits()),
            scale: Some(0.1f64.to_bits()),
            pct1: Some(0.5f64.to_bits()),
            pct99: Some(2.0f64.to_bits()),
        },
        start: 1,
        end: 8,
    });
    let priors = priors_state(priors);
    let diags = gather_diagnostics_priors(&priors, &vec![], &vec![], true);
    assert_eq!(diags.len(), 1);
    assert_eq!(
        diags[0].message,
        "There are extra parameters specified. Exploc and scale take precedence over percentiles!"
    );
}

#[test]
fn incomplete_unbalanced_concentration_is_flagged() {
    let mut priors = empty_priors();
    priors.conc_unbalanced.push(Spanned {
        value: ConcUnbalanced {
            metabolite: "g6p".to_string(),
            compartment: "c".to_string(),
            experiment: "batch1".to_string(),
            exploc: Some(1.0f64.to_bits()),
            scale: None,
            pct1: None,
            pct99: None,
        },
        start: 1,
        end: 8,
    });
    let priors = priors_state(priors);
    // no resolvable mean: exploc is set but scale is not
    let diags = gather_diagnostics_priors(&priors, &vec![], &vec![None], true);
    assert_eq!(diags.len(), 1);
    assert_eq!(
        diags[0].message,
        "Incomplete prior spec. Both exploc and scale must be specified."
    );
    assert_eq!(diags[0].severity, Severity::Error);
    assert_eq!(diags[0].code, 1);
}

#[test]
fn empty_covariance_matrix_is_a_diagnostic_not_a_refusal() {
    let mut priors = empty_priors();
    priors.dgf = Some(Spanned {
        value: Dgf {
            ids: vec!["a".to_string()],
            mean_vector: vec![0.0f64.to_bits()],
            covariance_matrix: vec![],
        },
        start: 1,
        end: 8,
    });
    let priors = priors_state(priors);
    let diags = gather_diagnostics_priors(&priors, &vec![], &vec![], true);
    assert_eq!(diags.len(), 1);
    assert_eq!(diags[0].message, "Ids and covariance matrix have different lengths.");
    assert_eq!(diags[0].severity, Severity::Error);
}

#[test]
fn km_above_unbalanced_concentration_warns() {
    let mut priors = empty_priors();
    priors.km.push(Spanned {
        value: KmPrior {
            metabolite: "g6p".to_string(),
            compartment: "c".to_string(),
            enzyme: "E1".to_string(),
            exploc: Some(2.0f64.to_bits()),
            scale: Some(0.1f64.to_bits()),
            pct1: None,
            pct99: None,
        },
        start: 1,
        end: 8,
    });
    priors.conc_unbalanced.push(Spanned {
        value: ConcUnbalanced {
            metabolite: "g6p".to_string(),
            compartment: "c".to_string(),
            experiment: "batch1".to_string(),
            exploc: None,
            scale: None,
            pct1: Some(1.0f64.to_bits()),
            pct99: Some(3.0f64.to_bits()),
        },
        start: 1,
        end: 8,
    });
    let priors = priors_state(priors);
    // the concentration prior's mean is the percentile midpoint, 2.0 is
    // the km mean: not above the midpoint 2.0, so no warning
    let km_means = vec![Some(2.0f64.to_bits())];
    let conc_means = vec![Some(2.0f64.to_bits())];
    let diags = gather_diagnostics_priors(&priors, &km_means, &conc_means, true);
    assert_eq!(diags.len(), 0);
    // a km mean above the minimum concentration mean warns
    let km_means = vec![Some(2.5f64.to_bits())];
    let diags = gather_diagnostics_priors(&priors, &km_means, &conc_means, true);
    assert_eq!(diags.len(), 1);
    assert_eq!(diags[0].message, "Km > mean of unbalanced concentration");
    assert_eq!(diags[0].severity, Severity::Warning);
    assert_eq!(diags[0].code, 1);
}

#[test]
fn misshapen_free_energy_prior_is_flagged() {
    let mut priors = empty_priors();
    priors.dgf = Some(Spanned {
        value: Dgf {
            ids: vec!["a".to_string()],
            mean_vector: vec![0.0f64.to_bits()],
            covariance_matrix: vec![vec![1.0f64.to_bits(), 0.5f64.to_bits()]],
        },
        start: 1,
        end: 8,
    });
    let priors = priors_state(priors);
    let diags = gather_diagnostics_priors(&priors, &vec![], &vec![], true);
    assert_eq!(diags.len(), 1);
    assert_eq!(diags[0].message, "Covariance matrix is not square.");
    assert_eq!(diags[0].severity, Severity::Error);
}

#[test]
fn rerunning_the_engine_gives_identical_lists() {
    let model = KineticModel {
        metabolites: vec![metabolite(MODEL_TEXT, "g6p")],
        reactions: vec![
            reaction(MODEL_TEXT, "pgi", vec![("g6p_c", -1.0)], ReactionMechanism::ReversibleMichaelisMenten),
            reaction(MODEL_TEXT, "g3pdrain", vec![], ReactionMechanism::Drain),
        ],
        enzymes: vec![enzyme(MODEL_TEXT, "E1"), enzyme(MODEL_TEXT, "E2")],
        enzyme_reaction: vec![link("E1", "pgi")],
        metabolite_in_compartment: vec![],
    };
    let state = model_state(model);
    let mut p = empty_priors();
    p.kcat.push(kcat_for("pgi"));
    let priors = priors_state(p);
    let experiments = vec!["batch1".to_string(), "batch2".to_string()];
    let first = gather_diagnostics(&state, &priors, &experiments);
    let second = gather_diagnostics(&state, &priors, &experiments);
    assert_eq!(first, second);
    assert!(first.len() > 0);
    let first_p = gather_diagnostics_priors(&priors, &vec![], &vec![], true);
    let second_p = gather_diagnostics_priors(&priors, &vec![], &vec![], true);
    assert_eq!(first_p, second_p);
}
