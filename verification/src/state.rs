//! Span-tracked document state, symbol resolution, and the reload
//! state machine.
//!
//! Each state owns a document's raw text together with its parsed
//! form; parsed identifiers carry char-offset spans into that text, so
//! a resolved symbol maps back to its defining source line.

use vstd::prelude::*;

use crate::experiments::{experiment_id, ExperimentData};
use crate::maud_data::{Enzyme, KineticModel, Metabolite, Reaction};
use crate::metabolic::{
    spec_reactions_of, spec_render_enzyme, spec_render_metabolite, spec_render_reaction, Entity,
    Metabolic, MetabolicEnzyme,
};
use crate::priors::{Priors, Spanned};
use crate::text::{line_count_of_prefix, spec_line_count, str_eq};

verus! {

/// Largest document size the engine accepts, in chars: keeps every
/// derived line number and column width inside `u32`.
pub const MAX_TEXT_LEN: usize = 0xFFFF_0000;

/// The least index at or after `i` whose entry equals `sym`.
pub open spec fn spec_first_match(ids: Seq<Seq<char>>, sym: Seq<char>, i: int) -> Option<int>
    decreases ids.len() - i when 0 <= i <= ids.len()
{
    if i >= ids.len() {
        None
    } else if ids[i] == sym {
        Some(i)
    } else {
        spec_first_match(ids, sym, i + 1)
    }
}

/// A found index lies in range and matches; a miss means no entry at
/// or after `i` matches.
pub proof fn lemma_first_match_props(ids: Seq<Seq<char>>, sym: Seq<char>, i: int)
    requires
        0 <= i <= ids.len(),
    ensures
        match spec_first_match(ids, sym, i) {
            Some(j) => i <= j < ids.len() && ids[j] == sym && forall|k: int|
                i <= k < j ==> ids[k] != sym,
            None => forall|k: int| i <= k < ids.len() ==> ids[k] != sym,
        },
    decreases ids.len() - i,
{
    if i < ids.len() && ids[i] != sym {
        lemma_first_match_props(ids, sym, i + 1);
    }
}

/// The metabolite identifiers, in document order.
pub open spec fn met_ids(m: &KineticModel) -> Seq<Seq<char>> {
    m.metabolites@.map_values(|x: Metabolite| x.id.value@)
}

/// The reaction identifiers, in document order.
pub open spec fn reac_ids(m: &KineticModel) -> Seq<Seq<char>> {
    m.reactions@.map_values(|x: Reaction| x.id.value@)
}

/// The enzyme identifiers, in document order.
pub open spec fn enz_ids(m: &KineticModel) -> Seq<Seq<char>> {
    m.enzymes@.map_values(|x: Enzyme| x.id.value@)
}

/// Both the data model and the raw text of the kinetic-model document.
pub struct KineticModelState {
    pub file_str: String,
    pub kinetic_model: KineticModel,
}

/// The char offset where the definition of `sym` starts: the span
/// start of the first matching metabolite, else reaction, else enzyme.
pub open spec fn spec_symbol_span_start(m: &KineticModel, sym: Seq<char>) -> Option<usize> {
    match spec_first_match(met_ids(m), sym, 0) {
        Some(i) => Some(m.metabolites@[i].id.start),
        None => match spec_first_match(reac_ids(m), sym, 0) {
            Some(i) => Some(m.reactions@[i].id.start),
            None => match spec_first_match(enz_ids(m), sym, 0) {
                Some(i) => Some(m.enzymes@[i].id.start),
                None => None,
            },
        },
    }
}

/// The rendering of the entity that `sym` resolves to, or the empty
/// string when it resolves to nothing.
pub open spec fn spec_find_rendered(m: &KineticModel, sym: Seq<char>) -> Seq<char> {
    match spec_first_match(met_ids(m), sym, 0) {
        Some(i) => spec_render_metabolite(&m.metabolites@[i]),
        None => match spec_first_match(reac_ids(m), sym, 0) {
            Some(i) => spec_render_reaction(&m.reactions@[i]),
            None => match spec_first_match(enz_ids(m), sym, 0) {
                Some(i) => spec_render_enzyme(
                    &m.enzymes@[i],
                    spec_reactions_of(m.enzyme_reaction@, m.enzymes@[i].id.value@),
                ),
                None => Seq::empty(),
            },
        },
    }
}

impl KineticModelState {
    /// The text is within the size the engine accepts and every
    /// identifier span lies inside it.
    pub open spec fn wf(&self) -> bool {
        &&& self.file_str@.len() <= MAX_TEXT_LEN
        &&& self.kinetic_model.wf(self.file_str@.len() as int)
    }

    /// Wrap a document's raw text and parsed model, when every
    /// identifier span lies inside the text.
    pub fn new(file_str: String, kinetic_model: KineticModel) -> (r: Option<KineticModelState>)
        ensures
            match r {
                Some(st) => st.file_str == file_str && st.kinetic_model == kinetic_model
                    && st.wf(),
                None => !(KineticModelState { file_str, kinetic_model }).wf(),
            },
    {
        let n = file_str.as_str().unicode_len();
        if n > MAX_TEXT_LEN {
            return None;
        }
        let mut i: usize = 0;
        while i < kinetic_model.metabolites.len()
            invariant
                n == file_str@.len(),
                n <= MAX_TEXT_LEN,
                i <= kinetic_model.metabolites@.len(),
                forall|j: int|
                    0 <= j < i ==> (#[trigger] kinetic_model.metabolites@[j]).id.wf(n as int),
            decreases kinetic_model.metabolites@.len() - i,
        {
            let id = &kinetic_model.metabolites[i].id;
            if !(1 <= id.start && id.start <= id.end && id.end <= n) {
                proof {
                    assert(!kinetic_model.metabolites@[i as int].id.wf(n as int));
                }
                return None;
            }
            i = i + 1;
        }
        let mut i: usize = 0;
        while i < kinetic_model.reactions.len()
            invariant
                n == file_str@.len(),
                n <= MAX_TEXT_LEN,
                i <= kinetic_model.reactions@.len(),
                forall|j: int|
                    0 <= j < i ==> (#[trigger] kinetic_model.reactions@[j]).id.wf(n as int),
            decreases kinetic_model.reactions@.len() - i,
        {
            let id = &kinetic_model.reactions[i].id;
            if !(1 <= id.start && id.start <= id.end && id.end <= n) {
                proof {
                    assert(!kinetic_model.reactions@[i as int].id.wf(n as int));
                }
                return None;
            }
            i = i + 1;
        }
        let mut i: usize = 0;
        while i < kinetic_model.enzymes.len()
            invariant
                n == file_str@.len(),
                n <= MAX_TEXT_LEN,
                i <= kinetic_model.enzymes@.len(),
                forall|j: int| 0 <= j < i ==> (#[trigger] kinetic_model.enzymes@[j]).id.wf(n as int),
            decreases kinetic_model.enzymes@.len() - i,
        {
            let id = &kinetic_model.enzymes[i].id;
            if !(1 <= id.start && id.start <= id.end && id.end <= n) {
                proof {
                    assert(!kinetic_model.enzymes@[i as int].id.wf(n as int));
                }
                return None;
            }
            i = i + 1;
        }
        Some(KineticModelState { file_str, kinetic_model })
    }

    /// Resolve a symbol to its declared entity: the first matching
    /// metabolite, else the first matching reaction, else the first
    /// matching enzyme joined with its catalyzed reactions.
    pub fn find_symbol<'a>(&'a self, symbol: &str) -> (r: Option<Entity<'a>>)
        ensures
            ({
                let m = &self.kinetic_model;
                let mi = spec_first_match(met_ids(m), symbol@, 0);
                let ri = spec_first_match(reac_ids(m), symbol@, 0);
                let ei = spec_first_match(enz_ids(m), symbol@, 0);
                match r {
                    Some(e) => match e {
                        Entity::Met(met) => (mi matches Some(i) && *met == m.metabolites@[i]),
                        Entity::Reac(reac) => mi is None && (ri matches Some(i) && *reac
                            == m.reactions@[i]),
                        Entity::Enz(me) => mi is None && ri is None && (ei matches Some(i)
                            && *me.enzyme == m.enzymes@[i] && me.reactions@.map_values(
                            |s: String| s@,
                        ) == spec_reactions_of(m.enzyme_reaction@, m.enzymes@[i].id.value@)),
                    },
                    None => mi is None && ri is None && ei is None,
                }
            }),
    {
        let m = &self.kinetic_model;
        let mut i: usize = 0;
        while i < m.metabolites.len()
            invariant
                m == &self.kinetic_model,
                i <= m.metabolites@.len(),
                spec_first_match(met_ids(m), symbol@, 0) == spec_first_match(
                    met_ids(m),
                    symbol@,
                    i as int,
                ),
            decreases m.metabolites@.len() - i,
        {
            if str_eq(m.metabolites[i].id.value.as_str(), symbol) {
                proof {
                    assert(met_ids(m)[i as int] == symbol@);
                    assert(spec_first_match(met_ids(m), symbol@, i as int) == Some(i as int));
                }
                return Some(Entity::Met(&m.metabolites[i]));
            }
            i = i + 1;
        }
        proof {
            assert(met_ids(m).len() == m.metabolites@.len());
            assert(spec_first_match(met_ids(m), symbol@, 0) is None);
        }
        let mut i: usize = 0;
        while i < m.reactions.len()
            invariant
                m == &self.kinetic_model,
                i <= m.reactions@.len(),
                spec_first_match(met_ids(m), symbol@, 0) is None,
                spec_first_match(reac_ids(m), symbol@, 0) == spec_first_match(
                    reac_ids(m),
                    symbol@,
                    i as int,
                ),
            decreases m.reactions@.len() - i,
        {
            if str_eq(m.reactions[i].id.value.as_str(), symbol) {
                proof {
                    assert(reac_ids(m)[i as int] == symbol@);
                    assert(spec_first_match(reac_ids(m), symbol@, i as int) == Some(i as int));
                }
                return Some(Entity::Reac(&m.reactions[i]));
            }
            i = i + 1;
        }
        proof {
            assert(reac_ids(m).len() == m.reactions@.len());
            assert(spec_first_match(reac_ids(m), symbol@, 0) is None);
        }
        let mut i: usize = 0;
        while i < m.enzymes.len()
            invariant
                m == &self.kinetic_model,
                i <= m.enzymes@.len(),
                spec_first_match(met_ids(m), symbol@, 0) is None,
                spec_first_match(reac_ids(m), symbol@, 0) is None,
                spec_first_match(enz_ids(m), symbol@, 0) == spec_first_match(
                    enz_ids(m),
                    symbol@,
                    i as int,
                ),
            decreases m.enzymes@.len() - i,
        {
            if str_eq(m.enzymes[i].id.value.as_str(), symbol) {
                proof {
                    assert(enz_ids(m)[i as int] == symbol@);
                    assert(spec_first_match(enz_ids(m), symbol@, i as int) == Some(i as int));
                }
                let me = MetabolicEnzyme::from_enzyme(&m.enzymes[i], &m.enzyme_reaction);
                return Some(Entity::Enz(me));
            }
            i = i + 1;
        }
        proof {
            assert(enz_ids(m).len() == m.enzymes@.len());
            assert(spec_first_match(enz_ids(m), symbol@, 0) is None);
        }
        None
    }

    /// Render the entity that a symbol resolves to; the empty string
    /// when it resolves to nothing.
    pub fn find_rendered_symbol(&self, symbol: &str) -> (r: String)
        ensures
            r@ == spec_find_rendered(&self.kinetic_model, symbol@),
    {
        match self.find_symbol(symbol) {
            Some(e) => e.render(),
            None => String::new(),
        }
    }

    /// The 1-based line number where a symbol's definition stands:
    /// the line count of the text prefix ending at the definition's
    /// span start. Callers that need a 0-based editor line subtract
    /// one.
    pub fn find_symbol_line(&self, symbol: &str) -> (r: Option<usize>)
        requires
            self.wf(),
        ensures
            match r {
                Some(line) => spec_symbol_span_start(&self.kinetic_model, symbol@) matches Some(s)
                    && line == spec_line_count(self.file_str@.take(s as int)),
                None => spec_symbol_span_start(&self.kinetic_model, symbol@) is None,
            },
    {
        match self.find_symbol(symbol) {
            Some(e) => {
                let (start, _end) = e.span();
                proof {
                    let m = &self.kinetic_model;
                    let len = self.file_str@.len() as int;
                    lemma_first_match_props(met_ids(m), symbol@, 0);
                    lemma_first_match_props(reac_ids(m), symbol@, 0);
                    lemma_first_match_props(enz_ids(m), symbol@, 0);
                    match e {
                        Entity::Met(met) => {
                            assert(met.id.wf(len));
                        },
                        Entity::Reac(reac) => {
                            assert(reac.id.wf(len));
                        },
                        Entity::Enz(me) => {
                            assert(me.enzyme.id.wf(len));
                        },
                    }
                }
                Some(line_count_of_prefix(self.file_str.as_str(), start))
            },
            None => None,
        }
    }
}

/// Resolver precedence: whenever some metabolite bears the queried
/// identifier, resolution answers with a metabolite — the first one —
/// even if a reaction or an enzyme bears the same identifier.
pub proof fn lemma_resolver_precedence(m: &KineticModel, sym: Seq<char>)
    requires
        exists|i: int|
            0 <= i < m.metabolites@.len() && (#[trigger] m.metabolites@[i]).id.value@ == sym,
    ensures
        spec_first_match(met_ids(m), sym, 0) is Some,
        spec_find_rendered(m, sym) == spec_render_metabolite(
            &m.metabolites@[spec_first_match(met_ids(m), sym, 0)->0],
        ),
        spec_symbol_span_start(m, sym) == Some(
            m.metabolites@[spec_first_match(met_ids(m), sym, 0)->0].id.start,
        ),
{
    lemma_first_match_props(met_ids(m), sym, 0);
    if spec_first_match(met_ids(m), sym, 0) is None {
        let i = choose|i: int|
            0 <= i < m.metabolites@.len() && (#[trigger] m.metabolites@[i]).id.value@ == sym;
        assert(met_ids(m)[i] == sym);
    }
}

/// Both the parsed priors and the raw text of the priors document.
pub struct PriorsState {
    pub file_str: String,
    pub priors: Priors,
}

/// Check that every span of the records lies inside a text of `n`
/// chars.
fn spans_ok<T>(v: &Vec<Spanned<T>>, n: usize) -> (r: bool)
    ensures
        r == (forall|i: int| 0 <= i < v@.len() ==> (#[trigger] v@[i]).wf(n as int)),
{
    let mut i: usize = 0;
    while i < v.len()
        invariant
            i <= v@.len(),
            forall|j: int| 0 <= j < i ==> (#[trigger] v@[j]).wf(n as int),
        decreases v@.len() - i,
    {
        let s = &v[i];
        if !(1 <= s.start && s.start <= s.end && s.end <= n) {
            return false;
        }
        i = i + 1;
    }
    true
}

impl PriorsState {
    /// The text is within the size the engine accepts and every record
    /// span lies inside it.
    pub open spec fn wf(&self) -> bool {
        &&& self.file_str@.len() <= MAX_TEXT_LEN
        &&& self.priors.wf(self.file_str@.len() as int)
    }

    /// Wrap the priors document's raw text and parsed records, when
    /// every record span lies inside the text.
    pub fn new(file_str: String, priors: Priors) -> (r: Option<PriorsState>)
        ensures
            match r {
                Some(st) => st.file_str == file_str && st.priors == priors && st.wf(),
                None => !(PriorsState { file_str, priors }).wf(),
            },
    {
        let n = file_str.as_str().unicode_len();
        if n > MAX_TEXT_LEN {
            return None;
        }
        if !spans_ok(&priors.kcat, n) {
            return None;
        }
        if !spans_ok(&priors.km, n) {
            return None;
        }
        if !spans_ok(&priors.conc_enzyme, n) {
            return None;
        }
        if !spans_ok(&priors.conc_unbalanced, n) {
            return None;
        }
        if !spans_ok(&priors.drain, n) {
            return None;
        }
        match &priors.dgf {
            Some(d) => {
                if !(1 <= d.start && d.start <= d.end && d.end <= n) {
                    return None;
                }
            },
            None => {},
        }
        Some(PriorsState { file_str, priors })
    }
}

/// Both the parsed experiments and the raw text of the experiments
/// document.
pub struct ExperimentsState {
    pub file_str: String,
    pub experiments: ExperimentData,
}

impl ExperimentsState {
    /// Wrap the experiments document's raw text and parsed form.
    pub fn new(file_str: String, experiments: ExperimentData) -> (r: ExperimentsState)
        ensures
            r.file_str == file_str,
            r.experiments == experiments,
    {
        ExperimentsState { file_str, experiments }
    }

    /// The experiment identifiers, in document order.
    pub fn experiments(&self) -> (r: Vec<String>)
        ensures
            r@.map_values(|s: String| s@) == self.experiments.experiments@.map_values(
                experiment_id(),
            ),
    {
        self.experiments.experiments()
    }
}

/// What a reload attempt hands back: a fresh state parsed from the
/// saved document, or the news that parsing failed.
pub enum ReloadOutcome<T> {
    Parsed(T),
    Failed,
}

/// The document state machine's transition on a save signal: a
/// successful reload replaces the held state wholesale; a failed
/// reload keeps the previous valid state.
pub fn next_state<T>(current: T, outcome: ReloadOutcome<T>) -> (r: T)
    ensures
        match outcome {
            ReloadOutcome::Parsed(n) => r == n,
            ReloadOutcome::Failed => r == current,
        },
{
    match outcome {
        ReloadOutcome::Parsed(n) => n,
        ReloadOutcome::Failed => current,
    }
}

} // verus!
