//! Data model of the kinetic-model document.
//!
//! Every identifier keeps the half-open char-offset range where its
//! value stands in the document's raw text, so that queries can map an
//! entity back to its defining source position.

use vstd::prelude::*;

use crate::text::{lower_of, lowercase, str_eq};

verus! {

/// An owned string value together with the half-open char-offset range
/// of its source position.
pub struct SpannedString {
    pub value: String,
    pub start: usize,
    pub end: usize,
}

impl SpannedString {
    /// A span is valid for a document of `text_len` chars when it lies
    /// inside the text and starts after at least one leading char (an
    /// identifier value never opens the document: a key or a table
    /// header precedes it).
    pub open spec fn wf(&self, text_len: int) -> bool {
        1 <= self.start <= self.end <= text_len
    }
}

/// Metabolite in a compartment.
pub struct Metabolite {
    /// identifier, cannot contain underscores
    pub id: SpannedString,
    pub name: String,
    pub inchi_key: String,
}

#[derive(Clone, Copy, PartialEq, Eq, Structural, Debug)]
pub enum ReactionMechanism {
    IrreversibleMichaelisMenten,
    ReversibleMichaelisMenten,
    Drain,
}

/// The mechanism that a (case-folded) mechanism string denotes.
pub open spec fn spec_mechanism_of(s: Seq<char>) -> Option<ReactionMechanism> {
    if s == "irreversible_michaelis_menten"@ {
        Some(ReactionMechanism::IrreversibleMichaelisMenten)
    } else if s == "reversible_michaelis_menten"@ {
        Some(ReactionMechanism::ReversibleMichaelisMenten)
    } else if s == "drain"@ {
        Some(ReactionMechanism::Drain)
    } else {
        None
    }
}

/// Which mechanism an already case-folded string denotes.
pub fn mechanism_from_lowered(s: &str) -> (r: Option<ReactionMechanism>)
    ensures
        r == spec_mechanism_of(s@),
{
    if str_eq(s, "irreversible_michaelis_menten") {
        Some(ReactionMechanism::IrreversibleMichaelisMenten)
    } else if str_eq(s, "reversible_michaelis_menten") {
        Some(ReactionMechanism::ReversibleMichaelisMenten)
    } else if str_eq(s, "drain") {
        Some(ReactionMechanism::Drain)
    } else {
        None
    }
}

/// Parse a mechanism string as the document grammar reads it: case
/// folded, then matched against the three known mechanism names.
pub fn parse_reaction_mechanism(s: &str) -> (r: Option<ReactionMechanism>)
    ensures
        r == spec_mechanism_of(lower_of(s@)),
{
    let lowered = lowercase(s);
    mechanism_from_lowered(lowered.as_str())
}

/// A stoichiometric coefficient: the value's single-precision bit
/// pattern, for sign and magnitude tests, together with the value's
/// decimal rendering, fixed when the document was loaded.
pub struct Coefficient {
    pub bits: u32,
    pub text: String,
}

/// Reaction that points to metabolites. The stoichiometry maps a
/// `metabolite_compartment` identifier to a signed coefficient; the
/// engine and the renderer walk the entries in their stored order.
pub struct Reaction {
    /// identifier, cannot contain underscores
    pub id: SpannedString,
    pub name: String,
    pub stoichiometry: Vec<(String, Coefficient)>,
    pub mechanism: ReactionMechanism,
}

/// Enzyme that catalyzes 1 or more reactions.
pub struct Enzyme {
    /// identifier, cannot contain underscores
    pub id: SpannedString,
    pub name: String,
    pub subunits: u16,
}

/// Table from enzyme to reaction.
pub struct EnzymeReaction {
    pub enzyme_id: String,
    pub reaction_id: String,
}

/// Table from metabolite to compartment.
pub struct MetaboliteInCompartment {
    pub metabolite_id: String,
    pub compartment_id: String,
    pub balanced: bool,
}

/// The metabolic model's structural data.
pub struct KineticModel {
    pub metabolites: Vec<Metabolite>,
    pub reactions: Vec<Reaction>,
    pub enzymes: Vec<Enzyme>,
    pub enzyme_reaction: Vec<EnzymeReaction>,
    pub metabolite_in_compartment: Vec<MetaboliteInCompartment>,
}

impl KineticModel {
    /// All identifier spans lie inside a document of `text_len` chars.
    pub open spec fn wf(&self, text_len: int) -> bool {
        &&& forall|i: int|
            0 <= i < self.metabolites@.len() ==> (#[trigger] self.metabolites@[i]).id.wf(text_len)
        &&& forall|i: int|
            0 <= i < self.reactions@.len() ==> (#[trigger] self.reactions@[i]).id.wf(text_len)
        &&& forall|i: int|
            0 <= i < self.enzymes@.len() ==> (#[trigger] self.enzymes@[i]).id.wf(text_len)
    }
}

/// Names of the three documents, resolved relative to a workspace root.
pub struct MaudConfig {
    pub kinetic_model_file: String,
    pub priors_file: String,
    pub experiments_file: String,
}

} // verus!
