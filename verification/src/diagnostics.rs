//! Cross-validation diagnostics over the three documents.
//!
//! Each rule filters the entities of a document and, for every flagged
//! entity, emits a positioned, severity-tagged message at the entity's
//! identifier span. The rules run in a fixed order and walk the
//! documents in source order, so the diagnostic list is a pure
//! function of the inputs.

use vstd::prelude::*;

use crate::float_bits::{f64_lt, f64_lt_of};
use crate::maud_data::{Coefficient, Enzyme, EnzymeReaction, KineticModel, Reaction};
use crate::metabolic::{debug_list, spec_debug_list};
use crate::priors::{
    spec_mean_form, ConcEnzyme, ConcUnbalanced, Dgf, Drain, KcatPrior, KmPrior, MeanForm, Prior,
    Priors, Spanned,
};
use crate::state::{spec_first_match, KineticModelState, PriorsState, MAX_TEXT_LEN};
use crate::text::{lemma_line_count_bounds, line_count_of_prefix, spec_line_count};

verus! {

/// Severity of a diagnostic.
#[derive(Clone, Copy, PartialEq, Eq, Structural, Debug)]
pub enum Severity {
    Error,
    Warning,
}

/// A 0-based editor position.
#[derive(Clone, Copy, PartialEq, Eq, Structural, Debug)]
pub struct DiagPosition {
    pub line: u32,
    pub character: u32,
}

/// A half-open editor range.
#[derive(Clone, Copy, PartialEq, Eq, Structural, Debug)]
pub struct DiagRange {
    pub start: DiagPosition,
    pub end: DiagPosition,
}

/// A positioned, severity-tagged message.
#[derive(Clone, PartialEq, Eq, Debug)]
pub struct Diagnostic {
    pub range: DiagRange,
    pub severity: Severity,
    pub code: u32,
    pub message: String,
}

/// The mathematical content of a diagnostic.
pub struct DiagView {
    pub range: DiagRange,
    pub severity: Severity,
    pub code: u32,
    pub message: Seq<char>,
}

impl View for Diagnostic {
    type V = DiagView;

    open spec fn view(&self) -> DiagView {
        DiagView {
            range: self.range,
            severity: self.severity,
            code: self.code,
            message: self.message@,
        }
    }
}

/// The views of a diagnostic list.
pub open spec fn diag_views(v: Seq<Diagnostic>) -> Seq<DiagView> {
    v.map_values(|d: Diagnostic| d@)
}

/// Column offset that every diagnostic starts at, accounting for the
/// `id = ` key prefix before an identifier value.
pub const OFF: usize = 5;

/// The diagnostic placed at a source span: on the 0-based line where
/// the span starts, from the fixed column offset, as wide as the span.
pub open spec fn spec_diag(
    file: Seq<char>,
    span_start: usize,
    span_end: usize,
    severity: Severity,
    code: u32,
    message: Seq<char>,
) -> DiagView {
    let line = (spec_line_count(file.take(span_start as int)) - 1) as u32;
    DiagView {
        range: DiagRange {
            start: DiagPosition { line, character: OFF as u32 },
            end: DiagPosition { line, character: (span_end - span_start + OFF) as u32 },
        },
        severity,
        code,
        message,
    }
}

/// Build the diagnostic placed at a source span.
fn mk_diag(
    file: &str,
    span_start: usize,
    span_end: usize,
    severity: Severity,
    code: u32,
    message: String,
) -> (d: Diagnostic)
    requires
        1 <= span_start <= span_end <= file@.len() <= MAX_TEXT_LEN,
    ensures
        d@ == spec_diag(file@, span_start, span_end, severity, code, message@),
{
    proof {
        lemma_line_count_bounds(file@.take(span_start as int));
    }
    let count = line_count_of_prefix(file, span_start);
    let line = (count - 1) as u32;
    let width = span_end - span_start;
    Diagnostic {
        range: DiagRange {
            start: DiagPosition { line, character: OFF as u32 },
            end: DiagPosition { line, character: (width + OFF) as u32 },
        },
        severity,
        code,
        message,
    }
}

/// Some link row joins the reaction to an enzyme.
pub open spec fn has_enzyme_link(links: Seq<EnzymeReaction>, reaction_id: Seq<char>) -> bool {
    exists|i: int| 0 <= i < links.len() && (#[trigger] links[i]).reaction_id@ == reaction_id
}

/// Some link row joins the enzyme to a reaction.
pub open spec fn has_reaction_link(links: Seq<EnzymeReaction>, enzyme_id: Seq<char>) -> bool {
    exists|i: int| 0 <= i < links.len() && (#[trigger] links[i]).enzyme_id@ == enzyme_id
}

/// Check whether some link row joins the reaction to an enzyme.
fn reaction_has_enzyme(links: &Vec<EnzymeReaction>, reaction_id: &str) -> (r: bool)
    ensures
        r == has_enzyme_link(links@, reaction_id@),
{
    let mut i: usize = 0;
    while i < links.len()
        invariant
            i <= links@.len(),
            forall|j: int| 0 <= j < i ==> (#[trigger] links@[j]).reaction_id@ != reaction_id@,
        decreases links@.len() - i,
    {
        if crate::text::str_eq(links[i].reaction_id.as_str(), reaction_id) {
            return true;
        }
        i = i + 1;
    }
    false
}

/// Check whether some link row joins the enzyme to a reaction.
fn enzyme_has_reaction(links: &Vec<EnzymeReaction>, enzyme_id: &str) -> (r: bool)
    ensures
        r == has_reaction_link(links@, enzyme_id@),
{
    let mut i: usize = 0;
    while i < links.len()
        invariant
            i <= links@.len(),
            forall|j: int| 0 <= j < i ==> (#[trigger] links@[j]).enzyme_id@ != enzyme_id@,
        decreases links@.len() - i,
    {
        if crate::text::str_eq(links[i].enzyme_id.as_str(), enzyme_id) {
            return true;
        }
        i = i + 1;
    }
    false
}

/// A non-drain reaction with no link row: flagged with an error at its
/// identifier span.
pub open spec fn missing_enzyme_diag(file: Seq<char>, links: Seq<EnzymeReaction>) -> spec_fn(
    Reaction,
) -> Option<DiagView> {
    |r: Reaction|
        if !(r.mechanism is Drain) && !has_enzyme_link(links, r.id.value@) {
            Some(
                spec_diag(
                    file,
                    r.id.start,
                    r.id.end,
                    Severity::Error,
                    0,
                    "Missing enzyme for reaction."@,
                ),
            )
        } else {
            None
        }
}

/// The diagnostics of the enzyme-less-reaction rule, in reaction
/// order.
pub open spec fn rule_missing_enzyme(file: Seq<char>, m: &KineticModel) -> Seq<DiagView> {
    m.reactions@.filter_map(missing_enzyme_diag(file, m.enzyme_reaction@))
}

/// Flag every non-drain reaction that no link row joins to an enzyme.
fn missing_enzyme_diags(file: &str, m: &KineticModel) -> (r: Vec<Diagnostic>)
    requires
        m.wf(file@.len() as int),
        file@.len() <= MAX_TEXT_LEN,
    ensures
        diag_views(r@) == rule_missing_enzyme(file@, m),
{
    let ghost f = missing_enzyme_diag(file@, m.enzyme_reaction@);
    let mut out: Vec<Diagnostic> = Vec::new();
    let mut i: usize = 0;
    while i < m.reactions.len()
        invariant
            i <= m.reactions@.len(),
            m.wf(file@.len() as int),
            file@.len() <= MAX_TEXT_LEN,
            f == missing_enzyme_diag(file@, m.enzyme_reaction@),
            diag_views(out@) == m.reactions@.take(i as int).filter_map(f),
        decreases m.reactions@.len() - i,
    {
        let reac = &m.reactions[i];
        let is_drain = match reac.mechanism {
            crate::maud_data::ReactionMechanism::Drain => true,
            _ => false,
        };
        if !is_drain && !reaction_has_enzyme(&m.enzyme_reaction, reac.id.value.as_str()) {
            let d = mk_diag(
                file,
                reac.id.start,
                reac.id.end,
                Severity::Error,
                0,
                String::from_str("Missing enzyme for reaction."),
            );
            out.push(d);
        }
        i = i + 1;
        proof {
            m.reactions@.lemma_filter_map_take_succ(f, i - 1);
            assert(diag_views(out@) =~= m.reactions@.take(i as int).filter_map(f));
        }
    }
    proof {
        assert(m.reactions@.take(m.reactions@.len() as int) =~= m.reactions@);
    }
    out
}

/// An enzyme with no link row: flagged with an error at its identifier
/// span.
pub open spec fn enzyme_without_reaction_diag(file: Seq<char>, links: Seq<EnzymeReaction>) -> spec_fn(
    Enzyme,
) -> Option<DiagView> {
    |e: Enzyme|
        if !has_reaction_link(links, e.id.value@) {
            Some(
                spec_diag(
                    file,
                    e.id.start,
                    e.id.end,
                    Severity::Error,
                    0,
                    "Missing kcat for reaction."@,
                ),
            )
        } else {
            None
        }
}

/// The diagnostics of the reaction-less-enzyme rule, in enzyme order.
pub open spec fn rule_enzyme_without_reaction(file: Seq<char>, m: &KineticModel) -> Seq<DiagView> {
    m.enzymes@.filter_map(enzyme_without_reaction_diag(file, m.enzyme_reaction@))
}

/// Flag every enzyme that no link row joins to a reaction.
fn enzyme_without_reaction_diags(file: &str, m: &KineticModel) -> (r: Vec<Diagnostic>)
    requires
        m.wf(file@.len() as int),
        file@.len() <= MAX_TEXT_LEN,
    ensures
        diag_views(r@) == rule_enzyme_without_reaction(file@, m),
{
    let ghost f = enzyme_without_reaction_diag(file@, m.enzyme_reaction@);
    let mut out: Vec<Diagnostic> = Vec::new();
    let mut i: usize = 0;
    while i < m.enzymes.len()
        invariant
            i <= m.enzymes@.len(),
            m.wf(file@.len() as int),
            file@.len() <= MAX_TEXT_LEN,
            f == enzyme_without_reaction_diag(file@, m.enzyme_reaction@),
            diag_views(out@) == m.enzymes@.take(i as int).filter_map(f),
        decreases m.enzymes@.len() - i,
    {
        let enz = &m.enzymes[i];
        if !enzyme_has_reaction(&m.enzyme_reaction, enz.id.value.as_str()) {
            let d = mk_diag(
                file,
                enz.id.start,
                enz.id.end,
                Severity::Error,
                0,
                String::from_str("Missing kcat for reaction."),
            );
            out.push(d);
        }
        i = i + 1;
        proof {
            m.enzymes@.lemma_filter_map_take_succ(f, i - 1);
            assert(diag_views(out@) =~= m.enzymes@.take(i as int).filter_map(f));
        }
    }
    proof {
        assert(m.enzymes@.take(m.enzymes@.len() as int) =~= m.enzymes@);
    }
    out
}

/// Some kcat prior names the reaction.
pub open spec fn has_kcat_prior(kcats: Seq<Spanned<KcatPrior>>, reaction_id: Seq<char>) -> bool {
    exists|i: int| 0 <= i < kcats.len() && (#[trigger] kcats[i]).value.reaction@ == reaction_id
}

/// Check whether some kcat prior names the reaction.
fn kcat_prior_exists(kcats: &Vec<Spanned<KcatPrior>>, reaction_id: &str) -> (r: bool)
    ensures
        r == has_kcat_prior(kcats@, reaction_id@),
{
    let mut i: usize = 0;
    while i < kcats.len()
        invariant
            i <= kcats@.len(),
            forall|j: int| 0 <= j < i ==> (#[trigger] kcats@[j]).value.reaction@ != reaction_id@,
        decreases kcats@.len() - i,
    {
        if crate::text::str_eq(kcats[i].value.reaction.as_str(), reaction_id) {
            return true;
        }
        i = i + 1;
    }
    false
}

/// A non-drain reaction with no kcat prior: flagged with an error at
/// its identifier span.
pub open spec fn missing_kcat_diag(file: Seq<char>, kcats: Seq<Spanned<KcatPrior>>) -> spec_fn(
    Reaction,
) -> Option<DiagView> {
    |r: Reaction|
        if !(r.mechanism is Drain) && !has_kcat_prior(kcats, r.id.value@) {
            Some(
                spec_diag(
                    file,
                    r.id.start,
                    r.id.end,
                    Severity::Error,
                    0,
                    "Missing kcat for reaction!"@,
                ),
            )
        } else {
            None
        }
}

/// The diagnostics of the missing-kcat rule, in reaction order.
pub open spec fn rule_missing_kcat(
    file: Seq<char>,
    m: &KineticModel,
    kcats: Seq<Spanned<KcatPrior>>,
) -> Seq<DiagView> {
    m.reactions@.filter_map(missing_kcat_diag(file, kcats))
}

/// Flag every non-drain reaction that no kcat prior names.
fn missing_kcat_diags(file: &str, m: &KineticModel, kcats: &Vec<Spanned<KcatPrior>>) -> (r: Vec<
    Diagnostic,
>)
    requires
        m.wf(file@.len() as int),
        file@.len() <= MAX_TEXT_LEN,
    ensures
        diag_views(r@) == rule_missing_kcat(file@, m, kcats@),
{
    let ghost f = missing_kcat_diag(file@, kcats@);
    let mut out: Vec<Diagnostic> = Vec::new();
    let mut i: usize = 0;
    while i < m.reactions.len()
        invariant
            i <= m.reactions@.len(),
            m.wf(file@.len() as int),
            file@.len() <= MAX_TEXT_LEN,
            f == missing_kcat_diag(file@, kcats@),
            diag_views(out@) == m.reactions@.take(i as int).filter_map(f),
        decreases m.reactions@.len() - i,
    {
        let reac = &m.reactions[i];
        let is_drain = match reac.mechanism {
            crate::maud_data::ReactionMechanism::Drain => true,
            _ => false,
        };
        if !is_drain && !kcat_prior_exists(kcats, reac.id.value.as_str()) {
            let d = mk_diag(
                file,
                reac.id.start,
                reac.id.end,
                Severity::Error,
                0,
                String::from_str("Missing kcat for reaction!"),
            );
            out.push(d);
        }
        i = i + 1;
        proof {
            m.reactions@.lemma_filter_map_take_succ(f, i - 1);
            assert(diag_views(out@) =~= m.reactions@.take(i as int).filter_map(f));
        }
    }
    proof {
        assert(m.reactions@.take(m.reactions@.len() as int) =~= m.reactions@);
    }
    out
}

/// Some drain prior names both the reaction and the experiment.
pub open spec fn has_drain_prior(
    drains: Seq<Spanned<Drain>>,
    reaction_id: Seq<char>,
    experiment: Seq<char>,
) -> bool {
    exists|i: int|
        0 <= i < drains.len() && (#[trigger] drains[i]).value.reaction@ == reaction_id
            && drains[i].value.experiment@ == experiment
}

/// Check whether some drain prior names both the reaction and the
/// experiment.
fn drain_prior_exists(drains: &Vec<Spanned<Drain>>, reaction_id: &str, experiment: &str) -> (r:
    bool)
    ensures
        r == has_drain_prior(drains@, reaction_id@, experiment@),
{
    let mut i: usize = 0;
    while i < drains.len()
        invariant
            i <= drains@.len(),
            forall|j: int|
                0 <= j < i ==> !((#[trigger] drains@[j]).value.reaction@ == reaction_id@
                    && drains@[j].value.experiment@ == experiment@),
        decreases drains@.len() - i,
    {
        if crate::text::str_eq(drains[i].value.reaction.as_str(), reaction_id) && crate::text::str_eq(
            drains[i].value.experiment.as_str(),
            experiment,
        ) {
            return true;
        }
        i = i + 1;
    }
    false
}

/// An experiment with no drain prior for the reaction: flagged with a
/// warning at the reaction's identifier span.
pub open spec fn drain_exp_diag(
    file: Seq<char>,
    drains: Seq<Spanned<Drain>>,
    r: Reaction,
) -> spec_fn(Seq<char>) -> Option<DiagView> {
    |exp: Seq<char>|
        if !has_drain_prior(drains, r.id.value@, exp) {
            Some(
                spec_diag(
                    file,
                    r.id.start,
                    r.id.end,
                    Severity::Warning,
                    0,
                    "Missing prior for experiment '"@ + exp + "'"@,
                ),
            )
        } else {
            None
        }
}

/// The diagnostics a single reaction contributes to the drain-prior
/// rule: one per uncovered experiment when it is a drain, none
/// otherwise.
pub open spec fn drain_reaction_diags(
    file: Seq<char>,
    drains: Seq<Spanned<Drain>>,
    experiments: Seq<Seq<char>>,
) -> spec_fn(Reaction) -> Seq<DiagView> {
    |r: Reaction|
        if r.mechanism is Drain {
            experiments.filter_map(drain_exp_diag(file, drains, r))
        } else {
            Seq::empty()
        }
}

/// The diagnostics of the drain-prior rule: reactions in document
/// order, experiments in document order within each reaction.
pub open spec fn rule_missing_drain_prior(
    file: Seq<char>,
    m: &KineticModel,
    drains: Seq<Spanned<Drain>>,
    experiments: Seq<Seq<char>>,
) -> Seq<DiagView> {
    m.reactions@.flat_map(drain_reaction_diags(file, drains, experiments))
}

/// Flag every (drain reaction, experiment) pair that no drain prior
/// covers.
fn missing_drain_prior_diags(
    file: &str,
    m: &KineticModel,
    drains: &Vec<Spanned<Drain>>,
    experiments: &Vec<String>,
) -> (r: Vec<Diagnostic>)
    requires
        m.wf(file@.len() as int),
        file@.len() <= MAX_TEXT_LEN,
    ensures
        diag_views(r@) == rule_missing_drain_prior(
            file@,
            m,
            drains@,
            experiments@.map_values(|s: String| s@),
        ),
{
    let ghost evs = experiments@.map_values(|s: String| s@);
    let ghost g = drain_reaction_diags(file@, drains@, evs);
    let mut out: Vec<Diagnostic> = Vec::new();
    let mut i: usize = 0;
    while i < m.reactions.len()
        invariant
            i <= m.reactions@.len(),
            m.wf(file@.len() as int),
            file@.len() <= MAX_TEXT_LEN,
            evs == experiments@.map_values(|s: String| s@),
            g == drain_reaction_diags(file@, drains@, evs),
            diag_views(out@) == m.reactions@.take(i as int).flat_map(g),
        decreases m.reactions@.len() - i,
    {
        let reac = &m.reactions[i];
        let is_drain = match reac.mechanism {
            crate::maud_data::ReactionMechanism::Drain => true,
            _ => false,
        };
        if is_drain {
            let ghost fi = drain_exp_diag(file@, drains@, m.reactions@[i as int]);
            let ghost out_before = diag_views(out@);
            let mut inner: Vec<Diagnostic> = Vec::new();
            let mut j: usize = 0;
            while j < experiments.len()
                invariant
                    j <= experiments@.len(),
                    i < m.reactions@.len(),
                    m.wf(file@.len() as int),
                    file@.len() <= MAX_TEXT_LEN,
                    evs == experiments@.map_values(|s: String| s@),
                    fi == drain_exp_diag(file@, drains@, m.reactions@[i as int]),
                    diag_views(inner@) == evs.take(j as int).filter_map(fi),
                decreases experiments@.len() - j,
            {
                let reac = &m.reactions[i];
                proof {
                    assert(evs[j as int] == experiments@[j as int]@);
                }
                if !drain_prior_exists(drains, reac.id.value.as_str(), experiments[j].as_str()) {
                    let mut msg = String::from_str("Missing prior for experiment '");
                    msg.append(experiments[j].as_str());
                    msg.append("'");
                    let d = mk_diag(
                        file,
                        reac.id.start,
                        reac.id.end,
                        Severity::Warning,
                        0,
                        msg,
                    );
                    inner.push(d);
                }
                j = j + 1;
                proof {
                    evs.lemma_filter_map_take_succ(fi, j - 1);
                    assert(diag_views(inner@) =~= evs.take(j as int).filter_map(fi));
                }
            }
            out.append(&mut inner);
            proof {
                assert(evs.take(evs.len() as int) =~= evs);
                assert(g(m.reactions@[i as int]) == evs.filter_map(fi));
                assert(diag_views(out@) =~= out_before + g(m.reactions@[i as int]));
            }
        }
        i = i + 1;
        proof {
            m.reactions@.lemma_flat_map_take_append(g, i - 1);
            assert(diag_views(out@) =~= m.reactions@.take(i as int).flat_map(g));
        }
    }
    proof {
        assert(m.reactions@.take(m.reactions@.len() as int) =~= m.reactions@);
    }
    out
}

/// Some enzyme-concentration prior names both the enzyme and the
/// experiment.
pub open spec fn has_conc_enzyme_prior(
    concs: Seq<Spanned<ConcEnzyme>>,
    enzyme_id: Seq<char>,
    experiment: Seq<char>,
) -> bool {
    exists|i: int|
        0 <= i < concs.len() && (#[trigger] concs[i]).value.enzyme@ == enzyme_id
            && concs[i].value.experiment@ == experiment
}

/// Check whether some enzyme-concentration prior names both the enzyme
/// and the experiment.
fn conc_enzyme_prior_exists(concs: &Vec<Spanned<ConcEnzyme>>, enzyme_id: &str, experiment: &str) -> (r:
    bool)
    ensures
        r == has_conc_enzyme_prior(concs@, enzyme_id@, experiment@),
{
    let mut i: usize = 0;
    while i < concs.len()
        invariant
            i <= concs@.len(),
            forall|j: int|
                0 <= j < i ==> !((#[trigger] concs@[j]).value.enzyme@ == enzyme_id@
                    && concs@[j].value.experiment@ == experiment@),
        decreases concs@.len() - i,
    {
        if crate::text::str_eq(concs[i].value.enzyme.as_str(), enzyme_id) && crate::text::str_eq(
            concs[i].value.experiment.as_str(),
            experiment,
        ) {
            return true;
        }
        i = i + 1;
    }
    false
}

/// An experiment with no concentration prior for the enzyme: flagged
/// with a warning at the enzyme's identifier span.
pub open spec fn conc_exp_diag(
    file: Seq<char>,
    concs: Seq<Spanned<ConcEnzyme>>,
    e: Enzyme,
) -> spec_fn(Seq<char>) -> Option<DiagView> {
    |exp: Seq<char>|
        if !has_conc_enzyme_prior(concs, e.id.value@, exp) {
            Some(
                spec_diag(
                    file,
                    e.id.start,
                    e.id.end,
                    Severity::Warning,
                    0,
                    "Missing concentration prior for experiment "@ + exp + "."@,
                ),
            )
        } else {
            None
        }
}

/// The diagnostics a single enzyme contributes to the
/// enzyme-concentration rule: one per uncovered experiment.
pub open spec fn conc_enzyme_diags_of(
    file: Seq<char>,
    concs: Seq<Spanned<ConcEnzyme>>,
    experiments: Seq<Seq<char>>,
) -> spec_fn(Enzyme) -> Seq<DiagView> {
    |e: Enzyme| experiments.filter_map(conc_exp_diag(file, concs, e))
}

/// The diagnostics of the enzyme-concentration rule: enzymes in
/// document order, experiments in document order within each enzyme.
pub open spec fn rule_missing_conc_enzyme(
    file: Seq<char>,
    m: &KineticModel,
    concs: Seq<Spanned<ConcEnzyme>>,
    experiments: Seq<Seq<char>>,
) -> Seq<DiagView> {
    m.enzymes@.flat_map(conc_enzyme_diags_of(file, concs, experiments))
}

/// Flag every (enzyme, experiment) pair that no enzyme-concentration
/// prior covers.
fn missing_conc_enzyme_diags(
    file: &str,
    m: &KineticModel,
    concs: &Vec<Spanned<ConcEnzyme>>,
    experiments: &Vec<String>,
) -> (r: Vec<Diagnostic>)
    requires
        m.wf(file@.len() as int),
        file@.len() <= MAX_TEXT_LEN,
    ensures
        diag_views(r@) == rule_missing_conc_enzyme(
            file@,
            m,
            concs@,
            experiments@.map_values(|s: String| s@),
        ),
{
    let ghost evs = experiments@.map_values(|s: String| s@);
    let ghost g = conc_enzyme_diags_of(file@, concs@, evs);
    let mut out: Vec<Diagnostic> = Vec::new();
    let mut i: usize = 0;
    while i < m.enzymes.len()
        invariant
            i <= m.enzymes@.len(),
            m.wf(file@.len() as int),
            file@.len() <= MAX_TEXT_LEN,
            evs == experiments@.map_values(|s: String| s@),
            g == conc_enzyme_diags_of(file@, concs@, evs),
            diag_views(out@) == m.enzymes@.take(i as int).flat_map(g),
        decreases m.enzymes@.len() - i,
    {
        let ghost fi = conc_exp_diag(file@, concs@, m.enzymes@[i as int]);
        let ghost out_before = diag_views(out@);
        let mut inner: Vec<Diagnostic> = Vec::new();
        let mut j: usize = 0;
        while j < experiments.len()
            invariant
                j <= experiments@.len(),
                i < m.enzymes@.len(),
                m.wf(file@.len() as int),
                file@.len() <= MAX_TEXT_LEN,
                evs == experiments@.map_values(|s: String| s@),
                fi == conc_exp_diag(file@, concs@, m.enzymes@[i as int]),
                diag_views(inner@) == evs.take(j as int).filter_map(fi),
            decreases experiments@.len() - j,
        {
            let enz = &m.enzymes[i];
            proof {
                assert(evs[j as int] == experiments@[j as int]@);
            }
            if !conc_enzyme_prior_exists(concs, enz.id.value.as_str(), experiments[j].as_str()) {
                let mut msg = String::from_str("Missing concentration prior for experiment ");
                msg.append(experiments[j].as_str());
                msg.append(".");
                let d = mk_diag(file, enz.id.start, enz.id.end, Severity::Warning, 0, msg);
                inner.push(d);
            }
            j = j + 1;
            proof {
                evs.lemma_filter_map_take_succ(fi, j - 1);
                assert(diag_views(inner@) =~= evs.take(j as int).filter_map(fi));
            }
        }
        out.append(&mut inner);
        i = i + 1;
        proof {
            assert(evs.take(evs.len() as int) =~= evs);
            assert(g(m.enzymes@[i - 1]) == evs.filter_map(fi));
            assert(diag_views(out@) =~= out_before + g(m.enzymes@[i - 1]));
            m.enzymes@.lemma_flat_map_take_append(g, i - 1);
            assert(diag_views(out@) =~= m.enzymes@.take(i as int).flat_map(g));
        }
    }
    proof {
        assert(m.enzymes@.take(m.enzymes@.len() as int) =~= m.enzymes@);
    }
    out
}

/// The reaction ids of the link table, in table order.
pub open spec fn link_reaction_ids(links: Seq<EnzymeReaction>) -> Seq<Seq<char>> {
    links.map_values(|er: EnzymeReaction| er.reaction_id@)
}

/// Find the first link row that joins the reaction to an enzyme.
fn find_enzyme_link<'a>(links: &'a Vec<EnzymeReaction>, reaction_id: &str) -> (r: Option<
    &'a EnzymeReaction,
>)
    ensures
        match spec_first_match(link_reaction_ids(links@), reaction_id@, 0) {
            Some(l) => (r matches Some(er) && *er == links@[l]),
            None => r is None,
        },
{
    let mut i: usize = 0;
    while i < links.len()
        invariant
            i <= links@.len(),
            spec_first_match(link_reaction_ids(links@), reaction_id@, 0) == spec_first_match(
                link_reaction_ids(links@),
                reaction_id@,
                i as int,
            ),
        decreases links@.len() - i,
    {
        if crate::text::str_eq(links[i].reaction_id.as_str(), reaction_id) {
            proof {
                assert(link_reaction_ids(links@)[i as int] == reaction_id@);
                assert(spec_first_match(link_reaction_ids(links@), reaction_id@, i as int) == Some(
                    i as int,
                ));
            }
            return Some(&links[i]);
        }
        i = i + 1;
    }
    proof {
        assert(link_reaction_ids(links@).len() == links@.len());
        assert(spec_first_match(link_reaction_ids(links@), reaction_id@, 0) is None);
    }
    None
}

/// Some Km prior of the enzyme covers the stoichiometry key: the
/// prior's `metabolite_compartment` pair, joined with an underscore,
/// equals the key.
pub open spec fn km_covers(kms: Seq<Spanned<KmPrior>>, enzyme_id: Seq<char>, key: Seq<char>) -> bool {
    exists|i: int|
        0 <= i < kms.len() && (#[trigger] kms[i]).value.enzyme@ == enzyme_id
            && kms[i].value.metabolite@ + "_"@ + kms[i].value.compartment@ == key
}

/// Check whether some Km prior of the enzyme covers the key.
fn km_covers_exec(kms: &Vec<Spanned<KmPrior>>, enzyme_id: &str, key: &str) -> (r: bool)
    ensures
        r == km_covers(kms@, enzyme_id@, key@),
{
    let mut i: usize = 0;
    while i < kms.len()
        invariant
            i <= kms@.len(),
            forall|j: int|
                0 <= j < i ==> !((#[trigger] kms@[j]).value.enzyme@ == enzyme_id@
                    && kms@[j].value.metabolite@ + "_"@ + kms@[j].value.compartment@ == key@),
        decreases kms@.len() - i,
    {
        if crate::text::str_eq(kms[i].value.enzyme.as_str(), enzyme_id) {
            let mut k = kms[i].value.metabolite.clone();
            k.append("_");
            k.append(kms[i].value.compartment.as_str());
            if crate::text::str_eq(k.as_str(), key) {
                return true;
            }
        }
        i = i + 1;
    }
    false
}

/// A stoichiometry key that no Km prior of the enzyme covers.
pub open spec fn missing_km_key(kms: Seq<Spanned<KmPrior>>, enzyme_id: Seq<char>) -> spec_fn(
    (String, Coefficient),
) -> Option<Seq<char>> {
    |p: (String, Coefficient)|
        if !km_covers(kms, enzyme_id, p.0@) {
            Some(p.0@)
        } else {
            None
        }
}

/// A non-drain reaction joined to an enzyme whose Km priors leave some
/// stoichiometry key uncovered: flagged with an error listing the
/// missing keys.
pub open spec fn missing_km_diag(
    file: Seq<char>,
    links: Seq<EnzymeReaction>,
    kms: Seq<Spanned<KmPrior>>,
) -> spec_fn(Reaction) -> Option<DiagView> {
    |r: Reaction|
        if !(r.mechanism is Drain) {
            match spec_first_match(link_reaction_ids(links), r.id.value@, 0) {
                Some(l) => {
                    let missing = r.stoichiometry@.filter_map(
                        missing_km_key(kms, links[l].enzyme_id@),
                    );
                    if missing.len() > 0 {
                        Some(
                            spec_diag(
                                file,
                                r.id.start,
                                r.id.end,
                                Severity::Error,
                                0,
                                "Missing kms for reaction "@ + r.id.value@ + ": "@
                                    + spec_debug_list(missing) + "."@,
                            ),
                        )
                    } else {
                        None
                    }
                },
                None => None,
            }
        } else {
            None
        }
}

/// The diagnostics of the missing-Km rule, in reaction order.
pub open spec fn rule_missing_kms(
    file: Seq<char>,
    m: &KineticModel,
    kms: Seq<Spanned<KmPrior>>,
) -> Seq<DiagView> {
    m.reactions@.filter_map(missing_km_diag(file, m.enzyme_reaction@, kms))
}

/// Flag every non-drain, enzyme-joined reaction whose stoichiometry
/// keys are not all covered by the enzyme's Km priors.
fn missing_km_diags(file: &str, m: &KineticModel, kms: &Vec<Spanned<KmPrior>>) -> (r: Vec<
    Diagnostic,
>)
    requires
        m.wf(file@.len() as int),
        file@.len() <= MAX_TEXT_LEN,
    ensures
        diag_views(r@) == rule_missing_kms(file@, m, kms@),
{
    let ghost f = missing_km_diag(file@, m.enzyme_reaction@, kms@);
    let mut out: Vec<Diagnostic> = Vec::new();
    let mut i: usize = 0;
    while i < m.reactions.len()
        invariant
            i <= m.reactions@.len(),
            m.wf(file@.len() as int),
            file@.len() <= MAX_TEXT_LEN,
            f == missing_km_diag(file@, m.enzyme_reaction@, kms@),
            diag_views(out@) == m.reactions@.take(i as int).filter_map(f),
        decreases m.reactions@.len() - i,
    {
        let reac = &m.reactions[i];
        let is_drain = match reac.mechanism {
            crate::maud_data::ReactionMechanism::Drain => true,
            _ => false,
        };
        if !is_drain {
            match find_enzyme_link(&m.enzyme_reaction, reac.id.value.as_str()) {
                Some(er) => {
                    let ghost fk = missing_km_key(
                        kms@,
                        m.enzyme_reaction@[spec_first_match(
                            link_reaction_ids(m.enzyme_reaction@),
                            reac.id.value@,
                            0,
                        )->0].enzyme_id@,
                    );
                    let mut missing: Vec<String> = Vec::new();
                    let mut j: usize = 0;
                    while j < reac.stoichiometry.len()
                        invariant
                            j <= reac.stoichiometry@.len(),
                            fk == missing_km_key(kms@, er.enzyme_id@),
                            missing@.len() <= j,
                            missing@.map_values(|s: String| s@) == reac.stoichiometry@.take(
                                j as int,
                            ).filter_map(fk),
                        decreases reac.stoichiometry@.len() - j,
                    {
                        if !km_covers_exec(kms, er.enzyme_id.as_str(), reac.stoichiometry[j].0.as_str()) {
                            missing.push(reac.stoichiometry[j].0.clone());
                        }
                        j = j + 1;
                        proof {
                            reac.stoichiometry@.lemma_filter_map_take_succ(fk, j - 1);
                            assert(missing@.map_values(|s: String| s@) =~= reac.stoichiometry@.take(
                                j as int,
                            ).filter_map(fk));
                        }
                    }
                    proof {
                        assert(reac.stoichiometry@.take(reac.stoichiometry@.len() as int)
                            =~= reac.stoichiometry@);
                    }
                    if missing.len() > 0 {
                        let mut msg = String::from_str("Missing kms for reaction ");
                        msg.append(reac.id.value.as_str());
                        msg.append(": ");
                        let list = debug_list(&missing);
                        msg.append(list.as_str());
                        msg.append(".");
                        let d = mk_diag(
                            file,
                            reac.id.start,
                            reac.id.end,
                            Severity::Error,
                            0,
                            msg,
                        );
                        proof {
                            assert(f(m.reactions@[i as int]) == Some(d@));
                        }
                        out.push(d);
                    } else {
                        proof {
                            assert(missing@.map_values(|s: String| s@).len() == 0);
                            assert(f(m.reactions@[i as int]) is None);
                        }
                    }
                },
                None => {
                    proof {
                        assert(f(m.reactions@[i as int]) is None);
                    }
                },
            }
        }
        i = i + 1;
        proof {
            m.reactions@.lemma_filter_map_take_succ(f, i - 1);
            assert(diag_views(out@) =~= m.reactions@.take(i as int).filter_map(f));
        }
    }
    proof {
        assert(m.reactions@.take(m.reactions@.len() as int) =~= m.reactions@);
    }
    out
}

/// The full diagnostic list over the kinetic model: the five
/// referential rules, in their fixed order.
pub open spec fn spec_gather_diagnostics(
    st: &KineticModelState,
    priors: &Priors,
    experiments: Seq<Seq<char>>,
) -> Seq<DiagView> {
    let file = st.file_str@;
    let m = &st.kinetic_model;
    rule_missing_enzyme(file, m) + rule_missing_drain_prior(file, m, priors.drain@, experiments)
        + rule_missing_conc_enzyme(file, m, priors.conc_enzyme@, experiments)
        + rule_enzyme_without_reaction(file, m) + rule_missing_kcat(file, m, priors.kcat@)
        + rule_missing_kms(file, m, priors.km@)
}

/// Run the referential-integrity rules across the three documents and
/// collect the positioned diagnostics, in rule order.
pub fn gather_diagnostics(
    kinetic_state: &KineticModelState,
    priors: &PriorsState,
    experiments: &Vec<String>,
) -> (r: Vec<Diagnostic>)
    requires
        kinetic_state.wf(),
    ensures
        diag_views(r@) == spec_gather_diagnostics(
            kinetic_state,
            &priors.priors,
            experiments@.map_values(|s: String| s@),
        ),
{
    let file = kinetic_state.file_str.as_str();
    let m = &kinetic_state.kinetic_model;
    let mut out = missing_enzyme_diags(file, m);
    let mut part = missing_drain_prior_diags(file, m, &priors.priors.drain, experiments);
    out.append(&mut part);
    let mut part = missing_conc_enzyme_diags(file, m, &priors.priors.conc_enzyme, experiments);
    out.append(&mut part);
    let mut part = enzyme_without_reaction_diags(file, m);
    out.append(&mut part);
    let mut part = missing_kcat_diags(file, m, &priors.priors.kcat);
    out.append(&mut part);
    let mut part = missing_km_diags(file, m, &priors.priors.km);
    out.append(&mut part);
    proof {
        assert(diag_views(out@) =~= spec_gather_diagnostics(
            kinetic_state,
            &priors.priors,
            experiments@.map_values(|s: String| s@),
        ));
    }
    out
}

/// The diagnostics one prior record contributes: an error when it is
/// incomplete, then an error when it is inconsistent.
pub open spec fn prior_record_diags<T: Prior>(file: Seq<char>) -> spec_fn(Spanned<T>) -> Seq<
    DiagView,
> {
    |p: Spanned<T>|
        (if !p.value.complete_spec() {
            seq![
                spec_diag(file, p.start, p.end, Severity::Error, 1, p.value.incomplete_message()),
            ]
        } else {
            Seq::empty()
        }) + (if !p.value.consistent_spec() {
            seq![
                spec_diag(file, p.start, p.end, Severity::Error, 1, p.value.inconsistent_message()),
            ]
        } else {
            Seq::empty()
        })
}

/// The record-shape diagnostics of one prior collection, in record
/// order.
fn prior_diags<T: Prior>(file: &str, v: &Vec<Spanned<T>>) -> (r: Vec<Diagnostic>)
    requires
        forall|i: int| 0 <= i < v@.len() ==> (#[trigger] v@[i]).wf(file@.len() as int),
        file@.len() <= MAX_TEXT_LEN,
    ensures
        diag_views(r@) == v@.flat_map(prior_record_diags::<T>(file@)),
{
    let ghost g = prior_record_diags::<T>(file@);
    let mut out: Vec<Diagnostic> = Vec::new();
    let mut i: usize = 0;
    while i < v.len()
        invariant
            i <= v@.len(),
            forall|k: int| 0 <= k < v@.len() ==> (#[trigger] v@[k]).wf(file@.len() as int),
            file@.len() <= MAX_TEXT_LEN,
            g == prior_record_diags::<T>(file@),
            diag_views(out@) == v@.take(i as int).flat_map(g),
        decreases v@.len() - i,
    {
        let p = &v[i];
        let mut inner: Vec<Diagnostic> = Vec::new();
        match p.value.incomplete() {
            Some(msg) => {
                let d = mk_diag(
                    file,
                    p.start,
                    p.end,
                    Severity::Error,
                    1,
                    String::from_str(msg),
                );
                inner.push(d);
            },
            None => {},
        }
        match p.value.inconsistent() {
            Some(msg) => {
                let d = mk_diag(
                    file,
                    p.start,
                    p.end,
                    Severity::Error,
                    1,
                    String::from_str(msg),
                );
                inner.push(d);
            },
            None => {},
        }
        proof {
            assert(diag_views(inner@) =~= g(v@[i as int]));
        }
        out.append(&mut inner);
        i = i + 1;
        proof {
            v@.lemma_flat_map_take_append(g, i - 1);
            assert(diag_views(out@) =~= v@.take(i as int).flat_map(g));
        }
    }
    proof {
        assert(v@.take(v@.len() as int) =~= v@);
    }
    out
}

/// The resolved means the caller hands in agree with the records'
/// field presence: exactly the records whose mean form is defined get
/// a value, and a location-given mean is that location.
pub open spec fn km_means_ok(kms: Seq<Spanned<KmPrior>>, means: Seq<Option<u64>>) -> bool {
    &&& means.len() == kms.len()
    &&& forall|i: int|
        0 <= i < kms.len() ==> mean_input_ok(
            #[trigger] means[i],
            spec_mean_form(
                kms[i].value.exploc,
                kms[i].value.scale,
                kms[i].value.pct1,
                kms[i].value.pct99,
            ),
        )
}

/// As `km_means_ok`, for the unbalanced-concentration records.
pub open spec fn conc_means_ok(concs: Seq<Spanned<ConcUnbalanced>>, means: Seq<Option<u64>>) -> bool {
    &&& means.len() == concs.len()
    &&& forall|i: int|
        0 <= i < concs.len() ==> mean_input_ok(
            #[trigger] means[i],
            spec_mean_form(
                concs[i].value.exploc,
                concs[i].value.scale,
                concs[i].value.pct1,
                concs[i].value.pct99,
            ),
        )
}

/// A handed-in mean agrees with the record's mean form.
pub open spec fn mean_input_ok(given: Option<u64>, form: MeanForm) -> bool {
    match form {
        MeanForm::FromLocation(bits) => given == Some(bits),
        MeanForm::FromPercentiles(_lo, _hi) => given is Some,
        MeanForm::Undefined => given is None,
    }
}

/// The minimum resolvable mean among the first `n` concentration
/// records sharing the (metabolite, compartment) key, folding with the
/// IEEE `<` in record order.
pub open spec fn spec_min_conc(
    concs: Seq<Spanned<ConcUnbalanced>>,
    means: Seq<Option<u64>>,
    met: Seq<char>,
    comp: Seq<char>,
    n: int,
) -> Option<u64>
    decreases n,
{
    if n <= 0 {
        None
    } else {
        let prev = spec_min_conc(concs, means, met, comp, n - 1);
        if concs[n - 1].value.metabolite@ == met && concs[n - 1].value.compartment@ == comp
            && means[n - 1] is Some {
            let m = means[n - 1]->0;
            match prev {
                None => Some(m),
                Some(c) => Some(
                    if f64_lt_of(m, c) {
                        m
                    } else {
                        c
                    },
                ),
            }
        } else {
            prev
        }
    }
}

/// Fold the minimum resolvable mean among the concentration records
/// sharing the key.
fn min_conc_mean(
    concs: &Vec<Spanned<ConcUnbalanced>>,
    conc_means: &Vec<Option<u64>>,
    met: &str,
    comp: &str,
) -> (r: Option<u64>)
    requires
        conc_means@.len() == concs@.len(),
    ensures
        r == spec_min_conc(concs@, conc_means@, met@, comp@, concs@.len() as int),
{
    let mut acc: Option<u64> = None;
    let mut j: usize = 0;
    while j < concs.len()
        invariant
            j <= concs@.len(),
            conc_means@.len() == concs@.len(),
            acc == spec_min_conc(concs@, conc_means@, met@, comp@, j as int),
        decreases concs@.len() - j,
    {
        if crate::text::str_eq(concs[j].value.metabolite.as_str(), met) && crate::text::str_eq(
            concs[j].value.compartment.as_str(),
            comp,
        ) {
            match conc_means[j] {
                Some(m) => {
                    acc = match acc {
                        None => Some(m),
                        Some(c) => if f64_lt(m, c) {
                            Some(m)
                        } else {
                            Some(c)
                        },
                    };
                },
                None => {},
            }
        }
        j = j + 1;
    }
    acc
}

/// The diagnostic the Km prior at index `i` contributes to the
/// ordering rule: a warning when its resolvable mean exceeds the
/// minimum resolvable mean of the unbalanced-concentration priors
/// sharing its (metabolite, compartment) key.
pub open spec fn km_order_diag_at(
    file: Seq<char>,
    kms: Seq<Spanned<KmPrior>>,
    km_means: Seq<Option<u64>>,
    concs: Seq<Spanned<ConcUnbalanced>>,
    conc_means: Seq<Option<u64>>,
    i: int,
) -> Seq<DiagView> {
    let km = kms[i];
    match km_means[i] {
        Some(mval) => match spec_min_conc(
            concs,
            conc_means,
            km.value.metabolite@,
            km.value.compartment@,
            concs.len() as int,
        ) {
            Some(cmin) => if f64_lt_of(cmin, mval) {
                seq![
                    spec_diag(
                        file,
                        km.start,
                        km.end,
                        Severity::Warning,
                        1,
                        "Km > mean of unbalanced concentration"@,
                    ),
                ]
            } else {
                Seq::empty()
            },
            None => Seq::empty(),
        },
        None => Seq::empty(),
    }
}

/// The diagnostics of the Km-ordering rule, in Km-record order.
pub open spec fn rule_km_ordering(
    file: Seq<char>,
    kms: Seq<Spanned<KmPrior>>,
    km_means: Seq<Option<u64>>,
    concs: Seq<Spanned<ConcUnbalanced>>,
    conc_means: Seq<Option<u64>>,
) -> Seq<DiagView> {
    Seq::new(kms.len(), |i: int| km_order_diag_at(file, kms, km_means, concs, conc_means, i)).flatten()
}

/// Flag every Km prior whose resolvable mean exceeds the minimum
/// resolvable mean of the matching unbalanced-concentration priors.
fn km_ordering_diags(
    file: &str,
    kms: &Vec<Spanned<KmPrior>>,
    km_means: &Vec<Option<u64>>,
    concs: &Vec<Spanned<ConcUnbalanced>>,
    conc_means: &Vec<Option<u64>>,
) -> (r: Vec<Diagnostic>)
    requires
        forall|i: int| 0 <= i < kms@.len() ==> (#[trigger] kms@[i]).wf(file@.len() as int),
        file@.len() <= MAX_TEXT_LEN,
        km_means@.len() == kms@.len(),
        conc_means@.len() == concs@.len(),
    ensures
        diag_views(r@) == rule_km_ordering(file@, kms@, km_means@, concs@, conc_means@),
{
    let ghost gf = |i: int| km_order_diag_at(file@, kms@, km_means@, concs@, conc_means@, i);
    let mut out: Vec<Diagnostic> = Vec::new();
    let mut i: usize = 0;
    while i < kms.len()
        invariant
            i <= kms@.len(),
            forall|k: int| 0 <= k < kms@.len() ==> (#[trigger] kms@[k]).wf(file@.len() as int),
            file@.len() <= MAX_TEXT_LEN,
            km_means@.len() == kms@.len(),
            conc_means@.len() == concs@.len(),
            gf == (|k: int| km_order_diag_at(file@, kms@, km_means@, concs@, conc_means@, k)),
            diag_views(out@) == Seq::new(i as nat, gf).flatten(),
        decreases kms@.len() - i,
    {
        let km = &kms[i];
        match km_means[i] {
            Some(mval) => {
                match min_conc_mean(
                    concs,
                    conc_means,
                    km.value.metabolite.as_str(),
                    km.value.compartment.as_str(),
                ) {
                    Some(cmin) => {
                        if f64_lt(cmin, mval) {
                            let d = mk_diag(
                                file,
                                km.start,
                                km.end,
                                Severity::Warning,
                                1,
                                String::from_str("Km > mean of unbalanced concentration"),
                            );
                            proof {
                                assert(gf(i as int) =~= seq![d@]);
                            }
                            out.push(d);
                        } else {
                            proof {
                                assert(gf(i as int) =~= Seq::<DiagView>::empty());
                            }
                        }
                    },
                    None => {
                        proof {
                            assert(gf(i as int) =~= Seq::<DiagView>::empty());
                        }
                    },
                }
            },
            None => {
                proof {
                    assert(gf(i as int) =~= Seq::<DiagView>::empty());
                }
            },
        }
        i = i + 1;
        proof {
            let n = i as int;
            assert(Seq::new((n - 1) as nat, gf).push(gf(n - 1)) =~= Seq::new(n as nat, gf));
            Seq::new((n - 1) as nat, gf).lemma_flatten_push(gf(n - 1));
            assert(diag_views(out@) =~= Seq::new(n as nat, gf).flatten());
        }
    }
    out
}

/// The diagnostic of the free-energy-prior shape rule: the first
/// failing shape check of the (at most one) record, as an error at the
/// record's span.
pub open spec fn rule_dgf(
    file: Seq<char>,
    dgf: Option<Spanned<Dgf>>,
    covariance_positive_definite: bool,
) -> Seq<DiagView> {
    match dgf {
        Some(d) => match d.value.spec_incomplete(covariance_positive_definite) {
            Some(msg) => seq![
                spec_diag(file, d.start, d.end, Severity::Error, 1, msg@),
            ],
            None => Seq::empty(),
        },
        None => Seq::empty(),
    }
}

/// The full diagnostic list over the priors document: record-shape
/// checks for the Km, kcat, enzyme-concentration, drain and
/// unbalanced-concentration collections, then the Km-ordering rule,
/// then the free-energy shape rule.
pub open spec fn spec_gather_diagnostics_priors(
    st: &PriorsState,
    km_means: Seq<Option<u64>>,
    conc_means: Seq<Option<u64>>,
    dgf_positive_definite: bool,
) -> Seq<DiagView> {
    let file = st.file_str@;
    let p = &st.priors;
    p.km@.flat_map(prior_record_diags::<KmPrior>(file)) + p.kcat@.flat_map(
        prior_record_diags::<KcatPrior>(file),
    ) + p.conc_enzyme@.flat_map(prior_record_diags::<ConcEnzyme>(file)) + p.drain@.flat_map(
        prior_record_diags::<Drain>(file),
    ) + p.conc_unbalanced@.flat_map(prior_record_diags::<ConcUnbalanced>(file))
        + rule_km_ordering(file, p.km@, km_means, p.conc_unbalanced@, conc_means) + rule_dgf(
        file,
        p.dgf,
        dgf_positive_definite,
    )
}

/// Run the priors-document rules and collect the positioned
/// diagnostics, in rule order. The caller resolves each record's mean
/// (percentile midpoints take floating-point arithmetic) and the
/// Cholesky verdict on the free-energy covariance matrix; which
/// records have a resolvable mean is fixed by `km_means_ok` and
/// `conc_means_ok`.
#[verifier::rlimit(50)]
pub fn gather_diagnostics_priors(
    priors_state: &PriorsState,
    km_means: &Vec<Option<u64>>,
    conc_means: &Vec<Option<u64>>,
    dgf_positive_definite: bool,
) -> (r: Vec<Diagnostic>)
    requires
        priors_state.wf(),
        km_means_ok(priors_state.priors.km@, km_means@),
        conc_means_ok(priors_state.priors.conc_unbalanced@, conc_means@),
    ensures
        diag_views(r@) == spec_gather_diagnostics_priors(
            priors_state,
            km_means@,
            conc_means@,
            dgf_positive_definite,
        ),
{
    let file = priors_state.file_str.as_str();
    let p = &priors_state.priors;
    let mut out = prior_diags(file, &p.km);
    let mut part = prior_diags(file, &p.kcat);
    out.append(&mut part);
    let mut part = prior_diags(file, &p.conc_enzyme);
    out.append(&mut part);
    let mut part = prior_diags(file, &p.drain);
    out.append(&mut part);
    let mut part = prior_diags(file, &p.conc_unbalanced);
    out.append(&mut part);
    let mut part = km_ordering_diags(file, &p.km, km_means, &p.conc_unbalanced, conc_means);
    out.append(&mut part);
    match &p.dgf {
        Some(d) => {
            match d.value.incomplete(dgf_positive_definite) {
                Some(msg) => {
                    let diag = mk_diag(
                        file,
                        d.start,
                        d.end,
                        Severity::Error,
                        1,
                        String::from_str(msg),
                    );
                    out.push(diag);
                },
                None => {},
            }
        },
        None => {},
    }
    proof {
        assert(diag_views(out@) =~= spec_gather_diagnostics_priors(
            priors_state,
            km_means@,
            conc_means@,
            dgf_positive_definite,
        ));
    }
    out
}

/// Diagnostics determinism: the diagnostic lists are pure functions of
/// the document contents, the resolved means and the Cholesky verdict,
/// so re-running the engine on unchanged inputs produces the identical
/// lists.
pub proof fn lemma_diagnostics_deterministic(
    kinetic_a: &KineticModelState,
    kinetic_b: &KineticModelState,
    priors_a: &PriorsState,
    priors_b: &PriorsState,
    experiments_a: Seq<Seq<char>>,
    experiments_b: Seq<Seq<char>>,
    km_means_a: Seq<Option<u64>>,
    km_means_b: Seq<Option<u64>>,
    conc_means_a: Seq<Option<u64>>,
    conc_means_b: Seq<Option<u64>>,
    dgf_pd_a: bool,
    dgf_pd_b: bool,
)
    requires
        kinetic_a == kinetic_b,
        priors_a == priors_b,
        experiments_a == experiments_b,
        km_means_a == km_means_b,
        conc_means_a == conc_means_b,
        dgf_pd_a == dgf_pd_b,
    ensures
        spec_gather_diagnostics(kinetic_a, &priors_a.priors, experiments_a)
            == spec_gather_diagnostics(kinetic_b, &priors_b.priors, experiments_b),
        spec_gather_diagnostics_priors(priors_a, km_means_a, conc_means_a, dgf_pd_a)
            == spec_gather_diagnostics_priors(priors_b, km_means_b, conc_means_b, dgf_pd_b),
{
}

} // verus!
