//! Prior records of the priors document.
//!
//! Real-valued fields are held as IEEE-754 double-precision bit
//! patterns (`u64`); the engine only tests their presence, selects
//! among them, and orders them — see `float_bits`.

use vstd::prelude::*;

verus! {

/// A parsed record together with the half-open char-offset range of
/// its source position.
pub struct Spanned<T> {
    pub value: T,
    pub start: usize,
    pub end: usize,
}

impl<T> Spanned<T> {
    /// The span lies inside a document of `text_len` chars and starts
    /// after at least one leading char (a record never opens the
    /// document: its table header precedes it).
    pub open spec fn wf(&self, text_len: int) -> bool {
        1 <= self.start <= self.end <= text_len
    }
}

/// At least one of the two pairs — (location, scale) or (1st, 99th
/// percentile) — is fully given.
pub open spec fn pair_complete(
    loc: Option<u64>,
    scale: Option<u64>,
    pct1: Option<u64>,
    pct99: Option<u64>,
) -> bool {
    (loc is Some && scale is Some) || (pct1 is Some && pct99 is Some)
}

/// How many of the four optional fields are set.
pub open spec fn fields_set(
    loc: Option<u64>,
    scale: Option<u64>,
    pct1: Option<u64>,
    pct99: Option<u64>,
) -> int {
    (if loc is Some {
        1int
    } else {
        0int
    }) + (if scale is Some {
        1int
    } else {
        0int
    }) + (if pct1 is Some {
        1int
    } else {
        0int
    }) + (if pct99 is Some {
        1int
    } else {
        0int
    })
}

/// A record whose incompleteness or inconsistency the engine reports.
pub trait Prior {
    /// At least one of the record's two optional pairs is fully given.
    spec fn complete_spec(&self) -> bool;

    /// No more than two of the record's four optional fields are set.
    spec fn consistent_spec(&self) -> bool;

    /// The message reported when the record is incomplete.
    spec fn incomplete_message(&self) -> Seq<char>;

    /// The message reported when the record is inconsistent.
    spec fn inconsistent_message(&self) -> Seq<char>;

    /// Incomplete priors generate a diagnostic error.
    fn incomplete(&self) -> (r: Option<&'static str>)
        ensures
            r is Some <==> !self.complete_spec(),
            (r matches Some(m) ==> m@ == self.incomplete_message()),
    ;

    /// Inconsistent priors generate a diagnostic error.
    fn inconsistent(&self) -> (r: Option<&'static str>)
        ensures
            r is Some <==> !self.consistent_spec(),
            (r matches Some(m) ==> m@ == self.inconsistent_message()),
    ;
}

/// The mean that a two-sided prior resolves to, as far as field
/// presence decides it: the location when (location, scale) are both
/// given, else the midpoint of the percentile pair when both
/// percentiles are given, else undefined.
#[derive(Clone, Copy, PartialEq, Eq, Structural, Debug)]
pub enum MeanForm {
    FromLocation(u64),
    FromPercentiles(u64, u64),
    Undefined,
}

/// Select the mean of a two-sided prior from its optional fields.
pub open spec fn spec_mean_form(
    loc: Option<u64>,
    scale: Option<u64>,
    pct1: Option<u64>,
    pct99: Option<u64>,
) -> MeanForm {
    if loc is Some && scale is Some {
        MeanForm::FromLocation(loc->0)
    } else if pct1 is Some && pct99 is Some {
        MeanForm::FromPercentiles(pct1->0, pct99->0)
    } else {
        MeanForm::Undefined
    }
}

/// Select the mean from four optional fields.
pub fn mean_form_of(loc: &Option<u64>, scale: &Option<u64>, pct1: &Option<u64>, pct99: &Option<
    u64,
>) -> (r: MeanForm)
    ensures
        r == spec_mean_form(*loc, *scale, *pct1, *pct99),
{
    match (loc, scale) {
        (Some(l), Some(_)) => MeanForm::FromLocation(*l),
        _ => match (pct1, pct99) {
            (Some(a), Some(b)) => MeanForm::FromPercentiles(*a, *b),
            _ => MeanForm::Undefined,
        },
    }
}

pub struct KcatPrior {
    pub enzyme: String,
    pub reaction: String,
    pub exploc: Option<u64>,
    pub scale: Option<u64>,
    pub pct1: Option<u64>,
    pub pct99: Option<u64>,
}

pub struct KmPrior {
    pub metabolite: String,
    pub compartment: String,
    pub enzyme: String,
    pub exploc: Option<u64>,
    pub scale: Option<u64>,
    pub pct1: Option<u64>,
    pub pct99: Option<u64>,
}

pub struct ConcEnzyme {
    pub enzyme: String,
    pub experiment: String,
    pub exploc: Option<u64>,
    pub scale: Option<u64>,
    pub pct1: Option<u64>,
    pub pct99: Option<u64>,
}

pub struct ConcUnbalanced {
    pub metabolite: String,
    pub compartment: String,
    pub experiment: String,
    pub exploc: Option<u64>,
    pub scale: Option<u64>,
    pub pct1: Option<u64>,
    pub pct99: Option<u64>,
}

pub struct Drain {
    pub reaction: String,
    pub experiment: String,
    pub location: Option<u64>,
    pub scale: Option<u64>,
    pub pct1: Option<u64>,
    pub pct99: Option<u64>,
}

impl KmPrior {
    /// The mean this record resolves to, by field presence.
    pub fn mean(&self) -> (r: MeanForm)
        ensures
            r == spec_mean_form(self.exploc, self.scale, self.pct1, self.pct99),
    {
        mean_form_of(&self.exploc, &self.scale, &self.pct1, &self.pct99)
    }
}

impl ConcUnbalanced {
    /// The mean this record resolves to, by field presence.
    pub fn mean(&self) -> (r: MeanForm)
        ensures
            r == spec_mean_form(self.exploc, self.scale, self.pct1, self.pct99),
    {
        mean_form_of(&self.exploc, &self.scale, &self.pct1, &self.pct99)
    }
}

impl Prior for KmPrior {
    open spec fn complete_spec(&self) -> bool {
        pair_complete(self.exploc, self.scale, self.pct1, self.pct99)
    }

    open spec fn consistent_spec(&self) -> bool {
        fields_set(self.exploc, self.scale, self.pct1, self.pct99) <= 2
    }

    open spec fn incomplete_message(&self) -> Seq<char> {
        "Incomplete prior spec. Either exploc AND scale or pct1 AND pct99 must be specified."@
    }

    open spec fn inconsistent_message(&self) -> Seq<char> {
        "There are extra parameters specified. Exploc and scale take precedence over percentiles!"@
    }

    fn incomplete(&self) -> (r: Option<&'static str>) {
        if !((self.exploc.is_some() && self.scale.is_some()) || (self.pct1.is_some()
            && self.pct99.is_some())) {
            Some(
                "Incomplete prior spec. Either exploc AND scale or pct1 AND pct99 must be specified.",
            )
        } else {
            None
        }
    }

    fn inconsistent(&self) -> (r: Option<&'static str>) {
        let mut count: u8 = 0;
        if self.exploc.is_some() {
            count = count + 1;
        }
        if self.scale.is_some() {
            count = count + 1;
        }
        if self.pct1.is_some() {
            count = count + 1;
        }
        if self.pct99.is_some() {
            count = count + 1;
        }
        if count > 2 {
            Some(
                "There are extra parameters specified. Exploc and scale take precedence over percentiles!",
            )
        } else {
            None
        }
    }
}

impl Prior for KcatPrior {
    open spec fn complete_spec(&self) -> bool {
        pair_complete(self.exploc, self.scale, self.pct1, self.pct99)
    }

    open spec fn consistent_spec(&self) -> bool {
        fields_set(self.exploc, self.scale, self.pct1, self.pct99) <= 2
    }

    open spec fn incomplete_message(&self) -> Seq<char> {
        "Incomplete prior spec. Either exploc AND scale or pct1 AND pct99 must be specified."@
    }

    open spec fn inconsistent_message(&self) -> Seq<char> {
        "There are extra parameters specified. Exploc and scale take precedence over percentiles!"@
    }

    fn incomplete(&self) -> (r: Option<&'static str>) {
        if !((self.exploc.is_some() && self.scale.is_some()) || (self.pct1.is_some()
            && self.pct99.is_some())) {
            Some(
                "Incomplete prior spec. Either exploc AND scale or pct1 AND pct99 must be specified.",
            )
        } else {
            None
        }
    }

    fn inconsistent(&self) -> (r: Option<&'static str>) {
        let mut count: u8 = 0;
        if self.exploc.is_some() {
            count = count + 1;
        }
        if self.scale.is_some() {
            count = count + 1;
        }
        if self.pct1.is_some() {
            count = count + 1;
        }
        if self.pct99.is_some() {
            count = count + 1;
        }
        if count > 2 {
            Some(
                "There are extra parameters specified. Exploc and scale take precedence over percentiles!",
            )
        } else {
            None
        }
    }
}

impl Prior for ConcEnzyme {
    open spec fn complete_spec(&self) -> bool {
        pair_complete(self.exploc, self.scale, self.pct1, self.pct99)
    }

    open spec fn consistent_spec(&self) -> bool {
        fields_set(self.exploc, self.scale, self.pct1, self.pct99) <= 2
    }

    open spec fn incomplete_message(&self) -> Seq<char> {
        "Incomplete prior spec. Both exploc and scale must be specified."@
    }

    open spec fn inconsistent_message(&self) -> Seq<char> {
        "There are extra parameters specified. exploc and scale take precedence over percentiles!"@
    }

    fn incomplete(&self) -> (r: Option<&'static str>) {
        if !((self.exploc.is_some() && self.scale.is_some()) || (self.pct1.is_some()
            && self.pct99.is_some())) {
            Some("Incomplete prior spec. Both exploc and scale must be specified.")
        } else {
            None
        }
    }

    fn inconsistent(&self) -> (r: Option<&'static str>) {
        let mut count: u8 = 0;
        if self.exploc.is_some() {
            count = count + 1;
        }
        if self.scale.is_some() {
            count = count + 1;
        }
        if self.pct1.is_some() {
            count = count + 1;
        }
        if self.pct99.is_some() {
            count = count + 1;
        }
        if count > 2 {
            Some(
                "There are extra parameters specified. exploc and scale take precedence over percentiles!",
            )
        } else {
            None
        }
    }
}

impl Prior for Drain {
    open spec fn complete_spec(&self) -> bool {
        pair_complete(self.location, self.scale, self.pct1, self.pct99)
    }

    open spec fn consistent_spec(&self) -> bool {
        fields_set(self.location, self.scale, self.pct1, self.pct99) <= 2
    }

    open spec fn incomplete_message(&self) -> Seq<char> {
        "Incomplete prior spec. Both exploc and scale must be specified."@
    }

    open spec fn inconsistent_message(&self) -> Seq<char> {
        "There are extra parameters specified. exploc and scale take precedence over percentiles!"@
    }

    fn incomplete(&self) -> (r: Option<&'static str>) {
        if !((self.location.is_some() && self.scale.is_some()) || (self.pct1.is_some()
            && self.pct99.is_some())) {
            Some("Incomplete prior spec. Both exploc and scale must be specified.")
        } else {
            None
        }
    }

    fn inconsistent(&self) -> (r: Option<&'static str>) {
        let mut count: u8 = 0;
        if self.location.is_some() {
            count = count + 1;
        }
        if self.scale.is_some() {
            count = count + 1;
        }
        if self.pct1.is_some() {
            count = count + 1;
        }
        if self.pct99.is_some() {
            count = count + 1;
        }
        if count > 2 {
            Some(
                "There are extra parameters specified. exploc and scale take precedence over percentiles!",
            )
        } else {
            None
        }
    }
}

impl Prior for ConcUnbalanced {
    open spec fn complete_spec(&self) -> bool {
        pair_complete(self.exploc, self.scale, self.pct1, self.pct99)
    }

    open spec fn consistent_spec(&self) -> bool {
        fields_set(self.exploc, self.scale, self.pct1, self.pct99) <= 2
    }

    open spec fn incomplete_message(&self) -> Seq<char> {
        "Incomplete prior spec. Both exploc and scale must be specified."@
    }

    open spec fn inconsistent_message(&self) -> Seq<char> {
        "There are extra parameters specified. exploc and scale take precedence over percentiles!"@
    }

    fn incomplete(&self) -> (r: Option<&'static str>) {
        if !((self.exploc.is_some() && self.scale.is_some()) || (self.pct1.is_some()
            && self.pct99.is_some())) {
            Some("Incomplete prior spec. Both exploc and scale must be specified.")
        } else {
            None
        }
    }

    fn inconsistent(&self) -> (r: Option<&'static str>) {
        let mut count: u8 = 0;
        if self.exploc.is_some() {
            count = count + 1;
        }
        if self.scale.is_some() {
            count = count + 1;
        }
        if self.pct1.is_some() {
            count = count + 1;
        }
        if self.pct99.is_some() {
            count = count + 1;
        }
        if count > 2 {
            Some(
                "There are extra parameters specified. exploc and scale take precedence over percentiles!",
            )
        } else {
            None
        }
    }
}

/// The (at most one) free-energy prior: a mean vector with its
/// covariance matrix, both over the listed ids. Matrix entries are
/// double-precision bit patterns.
pub struct Dgf {
    pub ids: Vec<String>,
    pub mean_vector: Vec<u64>,
    pub covariance_matrix: Vec<Vec<u64>>,
}

/// Every row of `m` is as long as `m` itself.
pub open spec fn spec_is_square(m: &Vec<Vec<u64>>) -> bool {
    forall|i: int| 0 <= i < m@.len() ==> (#[trigger] m@[i])@.len() == m@.len()
}

/// Check that the matrix is square.
pub fn is_square(matrix: &Vec<Vec<u64>>) -> (r: bool)
    ensures
        r == spec_is_square(matrix),
{
    let n = matrix.len();
    let mut i: usize = 0;
    while i < n
        invariant
            i <= n,
            n == matrix@.len(),
            forall|j: int| 0 <= j < i ==> (#[trigger] matrix@[j])@.len() == n,
        decreases n - i,
    {
        if matrix[i].len() != n {
            return false;
        }
        i = i + 1;
    }
    true
}

impl Dgf {
    /// The verdicts of the shape checks, in the order they are tried:
    /// squareness, positive definiteness (the Cholesky verdict is
    /// computed by the caller, since it takes floating-point
    /// arithmetic), then the two dimension matches. An empty matrix
    /// has no columns for the ids to match, so it reports the
    /// covariance dimension mismatch.
    pub open spec fn spec_incomplete(&self, covariance_positive_definite: bool) -> Option<
        &'static str,
    > {
        if !spec_is_square(&self.covariance_matrix) {
            Some("Covariance matrix is not square.")
        } else if !covariance_positive_definite {
            Some("Covariance matrix is not positive definite.")
        } else if self.ids@.len() != self.mean_vector@.len() {
            Some("Ids and mean vector have different lengths.")
        } else if self.covariance_matrix@.len() == 0 || self.ids@.len()
            != self.covariance_matrix@[0]@.len() {
            Some("Ids and covariance matrix have different lengths.")
        } else {
            None
        }
    }

    /// Report the first failing shape check, if any.
    /// `covariance_positive_definite` is the caller's Cholesky verdict
    /// on the covariance matrix.
    pub fn incomplete(&self, covariance_positive_definite: bool) -> (r: Option<&'static str>)
        ensures
            r == self.spec_incomplete(covariance_positive_definite),
    {
        if !is_square(&self.covariance_matrix) {
            Some("Covariance matrix is not square.")
        } else if !covariance_positive_definite {
            Some("Covariance matrix is not positive definite.")
        } else if self.ids.len() != self.mean_vector.len() {
            Some("Ids and mean vector have different lengths.")
        } else if self.covariance_matrix.len() == 0 {
            Some("Ids and covariance matrix have different lengths.")
        } else if self.ids.len() != self.covariance_matrix[0].len() {
            Some("Ids and covariance matrix have different lengths.")
        } else {
            None
        }
    }
}

/// The parsed priors document.
pub struct Priors {
    pub kcat: Vec<Spanned<KcatPrior>>,
    pub km: Vec<Spanned<KmPrior>>,
    pub conc_enzyme: Vec<Spanned<ConcEnzyme>>,
    pub conc_unbalanced: Vec<Spanned<ConcUnbalanced>>,
    pub drain: Vec<Spanned<Drain>>,
    pub dgf: Option<Spanned<Dgf>>,
}

impl Priors {
    /// All record spans lie inside a document of `text_len` chars.
    pub open spec fn wf(&self, text_len: int) -> bool {
        &&& forall|i: int| 0 <= i < self.kcat@.len() ==> (#[trigger] self.kcat@[i]).wf(text_len)
        &&& forall|i: int| 0 <= i < self.km@.len() ==> (#[trigger] self.km@[i]).wf(text_len)
        &&& forall|i: int|
            0 <= i < self.conc_enzyme@.len() ==> (#[trigger] self.conc_enzyme@[i]).wf(text_len)
        &&& forall|i: int|
            0 <= i < self.conc_unbalanced@.len() ==> (#[trigger] self.conc_unbalanced@[i]).wf(
                text_len,
            )
        &&& forall|i: int| 0 <= i < self.drain@.len() ==> (#[trigger] self.drain@[i]).wf(text_len)
        &&& match self.dgf {
            Some(d) => d.wf(text_len),
            None => true,
        }
    }
}

} // verus!
