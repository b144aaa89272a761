//! The experiments document: a list of experiments whose identifiers
//! drive the coverage checks.

use vstd::prelude::*;

verus! {

/// A single measurement of an experiment. Real-valued fields are
/// single-precision bit patterns.
pub struct Measurement {
    pub target_type: String,
    pub metabolite: Option<String>,
    pub reaction: Option<String>,
    pub compartment: Option<String>,
    pub value: u32,
    pub error_scale: u32,
}

/// Experiment with measurements. The temperature is a single-precision
/// bit pattern.
pub struct Experiment {
    /// identifier, cannot contain underscores
    pub id: String,
    pub is_train: bool,
    pub is_test: bool,
    pub temperature: u32,
    pub measurements: Vec<Measurement>,
}

/// The parsed experiments document.
pub struct ExperimentData {
    pub experiments: Vec<Experiment>,
}

/// The identifier of an experiment.
pub open spec fn experiment_id() -> spec_fn(Experiment) -> Seq<char> {
    |e: Experiment| e.id@
}

impl ExperimentData {
    /// The experiment identifiers, in document order.
    pub fn experiments(&self) -> (r: Vec<String>)
        ensures
            r@.map_values(|s: String| s@) == self.experiments@.map_values(experiment_id()),
    {
        let mut ids: Vec<String> = Vec::new();
        let mut i: usize = 0;
        while i < self.experiments.len()
            invariant
                i <= self.experiments@.len(),
                ids@.len() == i,
                ids@.map_values(|s: String| s@) == self.experiments@.take(i as int).map_values(
                    experiment_id(),
                ),
            decreases self.experiments@.len() - i,
        {
            ids.push(self.experiments[i].id.clone());
            i = i + 1;
            proof {
                let gi = i as int;
                assert(self.experiments@.take(gi).map_values(experiment_id())[gi - 1]
                    == self.experiments@[gi - 1].id@);
                assert(forall|j: int|
                    0 <= j < gi - 1 ==> #[trigger] self.experiments@.take(gi).map_values(
                        experiment_id(),
                    )[j] == self.experiments@.take(gi - 1).map_values(experiment_id())[j]);
                assert(ids@.map_values(|s: String| s@) =~= self.experiments@.take(gi).map_values(
                    experiment_id(),
                ));
            }
        }
        proof {
            assert(self.experiments@.take(self.experiments@.len() as int) =~= self.experiments@);
        }
        ids
    }
}

} // verus!
