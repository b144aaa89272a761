//! Resolvable entities of the kinetic model and their rendering.
//!
//! Every entity kind renders as a fixed-field text block and exposes
//! the char-offset span of its defining identifier.

use vstd::prelude::*;

use crate::float_bits::{f32_is_negative, f32_is_negative_of, f32_is_unit, f32_is_unit_of};
use crate::maud_data::{Coefficient, Enzyme, EnzymeReaction, Metabolite, Reaction, ReactionMechanism};
use crate::text::{
    join, magnitude_text, spec_dec_digits, spec_join, spec_magnitude_text, u64_to_dec,
};

verus! {

/// An enzyme joined with the identifiers of the reactions it
/// catalyzes.
pub struct MetabolicEnzyme<'a> {
    pub enzyme: &'a Enzyme,
    pub reactions: Vec<String>,
}

/// The join condition of the link table: the reaction id of a link row
/// whose enzyme id matches.
pub open spec fn link_reaction_of(enzyme_id: Seq<char>) -> spec_fn(EnzymeReaction) -> Option<
    Seq<char>,
> {
    |er: EnzymeReaction|
        if er.enzyme_id@ == enzyme_id {
            Some(er.reaction_id@)
        } else {
            None
        }
}

/// The reaction ids that the link table joins to `enzyme_id`, in table
/// order.
pub open spec fn spec_reactions_of(links: Seq<EnzymeReaction>, enzyme_id: Seq<char>) -> Seq<
    Seq<char>,
> {
    links.filter_map(link_reaction_of(enzyme_id))
}

impl<'a> MetabolicEnzyme<'a> {
    /// Join an enzyme with its catalyzed reactions.
    pub fn from_enzyme(enzyme: &'a Enzyme, enzyme_reactions: &Vec<EnzymeReaction>) -> (r:
        MetabolicEnzyme<'a>)
        ensures
            r.enzyme == enzyme,
            r.reactions@.map_values(|s: String| s@) == spec_reactions_of(
                enzyme_reactions@,
                enzyme.id.value@,
            ),
    {
        let ghost f = link_reaction_of(enzyme.id.value@);
        let mut reactions: Vec<String> = Vec::new();
        let mut i: usize = 0;
        while i < enzyme_reactions.len()
            invariant
                i <= enzyme_reactions@.len(),
                f == link_reaction_of(enzyme.id.value@),
                reactions@.map_values(|s: String| s@) == enzyme_reactions@.take(
                    i as int,
                ).filter_map(f),
            decreases enzyme_reactions@.len() - i,
        {
            let er = &enzyme_reactions[i];
            let ghost prev = reactions@.map_values(|s: String| s@);
            if crate::text::str_eq(er.enzyme_id.as_str(), enzyme.id.value.as_str()) {
                reactions.push(er.reaction_id.clone());
            }
            i = i + 1;
            proof {
                enzyme_reactions@.lemma_filter_map_take_succ(f, i - 1);
                assert(reactions@.map_values(|s: String| s@) =~= enzyme_reactions@.take(
                    i as int,
                ).filter_map(f));
            }
        }
        proof {
            assert(enzyme_reactions@.take(enzyme_reactions@.len() as int) =~= enzyme_reactions@);
        }
        MetabolicEnzyme { enzyme, reactions }
    }
}

/// A resolved entity: what a symbol under the cursor can denote.
pub enum Entity<'a> {
    Met(&'a Metabolite),
    Reac(&'a Reaction),
    Enz(MetabolicEnzyme<'a>),
}

/// How a reactant renders: magnitude and id for a non-unit
/// coefficient, the bare id otherwise. Selects entries with a negative
/// coefficient.
pub open spec fn reactant_entry() -> spec_fn((String, Coefficient)) -> Option<Seq<char>> {
    |p: (String, Coefficient)|
        if f32_is_negative_of(p.1.bits) {
            Some(
                if f32_is_unit_of(p.1.bits) {
                    p.0@
                } else {
                    spec_magnitude_text(p.1.text@) + " "@ + p.0@
                },
            )
        } else {
            None
        }
}

/// How a product renders: value and id for a non-unit coefficient, the
/// bare id otherwise. Selects entries with a non-negative coefficient.
pub open spec fn product_entry() -> spec_fn((String, Coefficient)) -> Option<Seq<char>> {
    |p: (String, Coefficient)|
        if !f32_is_negative_of(p.1.bits) {
            Some(
                if f32_is_unit_of(p.1.bits) {
                    p.0@
                } else {
                    p.1.text@ + " "@ + p.0@
                },
            )
        } else {
            None
        }
}

/// The reaction-arrow rendering of a stoichiometry: reactants, then
/// `<=>`, then products, each side joined with `+`.
pub open spec fn spec_reaction_arrow(st: Seq<(String, Coefficient)>) -> Seq<char> {
    spec_join(st.filter_map(reactant_entry()), " + "@) + " <=> "@ + spec_join(
        st.filter_map(product_entry()),
        " + "@,
    )
}

/// Collect the rendered entries that `f` selects, in stoichiometry
/// order.
fn collect_entries(st: &Vec<(String, Coefficient)>, want_negative: bool) -> (r: Vec<String>)
    ensures
        want_negative ==> r@.map_values(|s: String| s@) == st@.filter_map(reactant_entry()),
        !want_negative ==> r@.map_values(|s: String| s@) == st@.filter_map(product_entry()),
{
    let ghost f = if want_negative {
        reactant_entry()
    } else {
        product_entry()
    };
    let mut parts: Vec<String> = Vec::new();
    let mut i: usize = 0;
    while i < st.len()
        invariant
            i <= st@.len(),
            f == if want_negative {
                reactant_entry()
            } else {
                product_entry()
            },
            parts@.map_values(|s: String| s@) == st@.take(i as int).filter_map(f),
        decreases st@.len() - i,
    {
        let negative = f32_is_negative(st[i].1.bits);
        if negative == want_negative {
            if f32_is_unit(st[i].1.bits) {
                parts.push(st[i].0.clone());
            } else {
                let mut entry = if want_negative {
                    String::from_str(magnitude_text(st[i].1.text.as_str()))
                } else {
                    st[i].1.text.clone()
                };
                entry.append(" ");
                entry.append(st[i].0.as_str());
                parts.push(entry);
            }
        }
        i = i + 1;
        proof {
            st@.lemma_filter_map_take_succ(f, i - 1);
            assert(parts@.map_values(|s: String| s@) =~= st@.take(i as int).filter_map(f));
        }
    }
    proof {
        assert(st@.take(st@.len() as int) =~= st@);
    }
    parts
}

/// Render a stoichiometry as a reaction-arrow string.
pub fn to_reaction_str(st: &Vec<(String, Coefficient)>) -> (r: String)
    ensures
        r@ == spec_reaction_arrow(st@),
{
    let reactants = collect_entries(st, true);
    let products = collect_entries(st, false);
    let mut out = join(&reactants, " + ");
    out.append(" <=> ");
    let products_str = join(&products, " + ");
    out.append(products_str.as_str());
    out
}

/// The mechanism's rendering.
pub open spec fn spec_mechanism_text(m: ReactionMechanism) -> Seq<char> {
    match m {
        ReactionMechanism::ReversibleMichaelisMenten => "reversible"@,
        ReactionMechanism::IrreversibleMichaelisMenten => "irreversible"@,
        ReactionMechanism::Drain => "drain"@,
    }
}

/// Render a mechanism.
pub fn mechanism_text(m: &ReactionMechanism) -> (r: &'static str)
    ensures
        r@ == spec_mechanism_text(*m),
{
    match m {
        ReactionMechanism::ReversibleMichaelisMenten => "reversible",
        ReactionMechanism::IrreversibleMichaelisMenten => "irreversible",
        ReactionMechanism::Drain => "drain",
    }
}

/// The fixed-field text block that a metabolite renders as.
pub open spec fn spec_render_metabolite(m: &Metabolite) -> Seq<char> {
    "metabolite = "@ + m.id.value@ + "\nname = "@ + m.name@ + "\ninchi_key = "@ + m.inchi_key@
}

/// Render a metabolite.
pub fn render_metabolite(m: &Metabolite) -> (r: String)
    ensures
        r@ == spec_render_metabolite(m),
{
    let mut out = String::from_str("metabolite = ");
    out.append(m.id.value.as_str());
    out.append("\nname = ");
    out.append(m.name.as_str());
    out.append("\ninchi_key = ");
    out.append(m.inchi_key.as_str());
    proof {
        assert(out@ =~= spec_render_metabolite(m));
    }
    out
}

/// The fixed-field text block that a reaction renders as.
pub open spec fn spec_render_reaction(r: &Reaction) -> Seq<char> {
    "reaction = "@ + r.id.value@ + "\nname = "@ + r.name@ + "\nmechanism = "@ + spec_mechanism_text(
        r.mechanism,
    ) + "\nstoichiometry = '"@ + spec_reaction_arrow(r.stoichiometry@) + "'"@
}

/// Render a reaction.
pub fn render_reaction(r: &Reaction) -> (out: String)
    ensures
        out@ == spec_render_reaction(r),
{
    let mut out = String::from_str("reaction = ");
    out.append(r.id.value.as_str());
    out.append("\nname = ");
    out.append(r.name.as_str());
    out.append("\nmechanism = ");
    out.append(mechanism_text(&r.mechanism));
    out.append("\nstoichiometry = '");
    let arrow = to_reaction_str(&r.stoichiometry);
    out.append(arrow.as_str());
    out.append("'");
    proof {
        assert(out@ =~= spec_render_reaction(r));
    }
    out
}

/// The debug-style rendering of a list of identifiers:
/// `["a", "b"]`.
pub open spec fn spec_debug_list(items: Seq<Seq<char>>) -> Seq<char> {
    "["@ + spec_join(items.map_values(|s: Seq<char>| "\""@ + s + "\""@), ", "@) + "]"@
}

/// How one identifier renders inside a debug-style list.
pub open spec fn quote_item() -> spec_fn(String) -> Seq<char> {
    |s: String| "\""@ + s@ + "\""@
}

/// Render a list of identifiers in debug style.
pub fn debug_list(items: &Vec<String>) -> (r: String)
    ensures
        r@ == spec_debug_list(items@.map_values(|s: String| s@)),
{
    let mut quoted: Vec<String> = Vec::new();
    let mut i: usize = 0;
    while i < items.len()
        invariant
            i <= items@.len(),
            quoted@.len() == i,
            quoted@.map_values(|s: String| s@) == items@.take(i as int).map_values(quote_item()),
        decreases items@.len() - i,
    {
        let mut q = String::from_str("\"");
        q.append(items[i].as_str());
        q.append("\"");
        quoted.push(q);
        i = i + 1;
        proof {
            let gi = i as int;
            assert(q@ == "\""@ + items@[gi - 1]@ + "\""@);
            assert(items@.take(gi).map_values(quote_item())[gi - 1] == quote_item()(
                items@[gi - 1],
            ));
            assert(forall|j: int|
                0 <= j < gi - 1 ==> items@.take(gi).map_values(quote_item())[j] == items@.take(
                    gi - 1,
                ).map_values(quote_item())[j]);
            assert(quoted@.map_values(|s: String| s@) =~= items@.take(gi).map_values(
                quote_item(),
            ));
        }
    }
    let mut out = String::from_str("[");
    let joined = join(&quoted, ", ");
    out.append(joined.as_str());
    out.append("]");
    proof {
        assert(items@.take(items@.len() as int) =~= items@);
        assert(items@.map_values(|s: String| s@).map_values(|s: Seq<char>| "\""@ + s + "\""@)
            =~= items@.map_values(quote_item()));
        assert(out@ =~= spec_debug_list(items@.map_values(|s: String| s@)));
    }
    out
}

/// The fixed-field text block that an enzyme with its reactions
/// renders as.
pub open spec fn spec_render_enzyme(enzyme: &Enzyme, reactions: Seq<Seq<char>>) -> Seq<char> {
    "enzyme = "@ + enzyme.id.value@ + "\nname = "@ + enzyme.name@ + "\nsubunits = "@
        + spec_dec_digits(enzyme.subunits as nat) + "\nreactions = "@ + spec_debug_list(reactions)
}

/// A resolvable, locatable entity kind: renders as a fixed-field text
/// block and knows the char-offset span of its defining identifier.
pub trait Metabolic {
    /// The char-offset span of the defining identifier.
    spec fn spec_span(&self) -> (usize, usize);

    /// The defining identifier.
    spec fn spec_identifier(&self) -> Seq<char>;

    /// The fixed-field text block the entity renders as.
    spec fn spec_render(&self) -> Seq<char>;

    /// The char-offset span of the defining identifier.
    fn span(&self) -> (r: (usize, usize))
        ensures
            r == self.spec_span(),
    ;

    /// The defining identifier.
    fn identifier(&self) -> (r: &str)
        ensures
            r@ == self.spec_identifier(),
    ;

    /// Render the entity as its fixed-field text block.
    fn render(&self) -> (r: String)
        ensures
            r@ == self.spec_render(),
    ;
}

impl Metabolic for Metabolite {
    open spec fn spec_span(&self) -> (usize, usize) {
        (self.id.start, self.id.end)
    }

    open spec fn spec_identifier(&self) -> Seq<char> {
        self.id.value@
    }

    open spec fn spec_render(&self) -> Seq<char> {
        spec_render_metabolite(self)
    }

    fn span(&self) -> (r: (usize, usize)) {
        (self.id.start, self.id.end)
    }

    fn identifier(&self) -> (r: &str) {
        self.id.value.as_str()
    }

    fn render(&self) -> (r: String) {
        render_metabolite(self)
    }
}

impl Metabolic for Reaction {
    open spec fn spec_span(&self) -> (usize, usize) {
        (self.id.start, self.id.end)
    }

    open spec fn spec_identifier(&self) -> Seq<char> {
        self.id.value@
    }

    open spec fn spec_render(&self) -> Seq<char> {
        spec_render_reaction(self)
    }

    fn span(&self) -> (r: (usize, usize)) {
        (self.id.start, self.id.end)
    }

    fn identifier(&self) -> (r: &str) {
        self.id.value.as_str()
    }

    fn render(&self) -> (r: String) {
        render_reaction(self)
    }
}

impl<'a> Metabolic for MetabolicEnzyme<'a> {
    open spec fn spec_span(&self) -> (usize, usize) {
        (self.enzyme.id.start, self.enzyme.id.end)
    }

    open spec fn spec_identifier(&self) -> Seq<char> {
        self.enzyme.id.value@
    }

    open spec fn spec_render(&self) -> Seq<char> {
        spec_render_enzyme(self.enzyme, self.reactions@.map_values(|s: String| s@))
    }

    fn span(&self) -> (r: (usize, usize)) {
        (self.enzyme.id.start, self.enzyme.id.end)
    }

    fn identifier(&self) -> (r: &str) {
        self.enzyme.id.value.as_str()
    }

    fn render(&self) -> (r: String) {
        let mut out = String::from_str("enzyme = ");
        out.append(self.enzyme.id.value.as_str());
        out.append("\nname = ");
        out.append(self.enzyme.name.as_str());
        out.append("\nsubunits = ");
        let subunits = u64_to_dec(self.enzyme.subunits as u64);
        out.append(subunits.as_str());
        out.append("\nreactions = ");
        let list = debug_list(&self.reactions);
        out.append(list.as_str());
        proof {
            assert(out@ =~= spec_render_enzyme(
                self.enzyme,
                self.reactions@.map_values(|s: String| s@),
            ));
        }
        out
    }
}

impl<'a> Metabolic for Entity<'a> {
    open spec fn spec_span(&self) -> (usize, usize) {
        match self {
            Entity::Met(m) => (m.id.start, m.id.end),
            Entity::Reac(r) => (r.id.start, r.id.end),
            Entity::Enz(e) => (e.enzyme.id.start, e.enzyme.id.end),
        }
    }

    open spec fn spec_identifier(&self) -> Seq<char> {
        match self {
            Entity::Met(m) => m.id.value@,
            Entity::Reac(r) => r.id.value@,
            Entity::Enz(e) => e.enzyme.id.value@,
        }
    }

    open spec fn spec_render(&self) -> Seq<char> {
        match self {
            Entity::Met(m) => spec_render_metabolite(m),
            Entity::Reac(r) => spec_render_reaction(r),
            Entity::Enz(e) => spec_render_enzyme(e.enzyme, e.reactions@.map_values(|s: String| s@)),
        }
    }

    fn span(&self) -> (r: (usize, usize)) {
        match self {
            Entity::Met(m) => (m.id.start, m.id.end),
            Entity::Reac(r) => (r.id.start, r.id.end),
            Entity::Enz(e) => (e.enzyme.id.start, e.enzyme.id.end),
        }
    }

    fn identifier(&self) -> (r: &str) {
        match self {
            Entity::Met(m) => m.id.value.as_str(),
            Entity::Reac(r) => r.id.value.as_str(),
            Entity::Enz(e) => e.enzyme.id.value.as_str(),
        }
    }

    fn render(&self) -> (r: String) {
        match self {
            Entity::Met(m) => render_metabolite(m),
            Entity::Reac(r) => render_reaction(r),
            Entity::Enz(e) => e.render(),
        }
    }
}

} // verus!
