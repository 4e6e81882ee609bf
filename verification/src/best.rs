//! Selection of the best outcome seen so far.
//!
//! Both schedulers funnel every received outcome through a [`BestTracker`].
//! The replacement rule is strict improvement under the configured
//! direction: a new outcome replaces the incumbent only if its weight is
//! strictly greater (maximize mode) or strictly smaller (minimize mode);
//! the first of equal-weight outcomes therefore persists.

use vstd::prelude::*;
use crate::solver::Outcome;

verus! {

/// A run that ends without any outcome has no meaningful result.
#[derive(Debug)]
pub enum RaceError {
    NoSolutionInTime,
}

impl RaceError {
    pub fn message(&self) -> (s: String)
        ensures
            s@ == "Not found any solutions in time ;("@,
    {
        "Not found any solutions in time ;(".to_string()
    }
}

/// Whether a new weight strictly improves on the current one under the
/// configured ranking direction.
pub open spec fn better(maximize_weight: bool, new_weight: u64, current_weight: u64) -> bool {
    if maximize_weight {
        new_weight > current_weight
    } else {
        new_weight < current_weight
    }
}

/// The best weight after one more weight has been considered.
pub open spec fn best_after(maximize_weight: bool, current: Option<u64>, weight: u64) -> u64 {
    match current {
        None => weight,
        Some(c) => if better(maximize_weight, weight, c) {
            weight
        } else {
            c
        },
    }
}

/// The single owner of the current best outcome.  At most one best exists
/// at any instant, and [`BestTracker::offer`] is the only way it changes.
pub struct BestTracker<Solution> {
    pub maximize_weight: bool,
    pub best: Option<Outcome<Solution>>,
}

/// The tracker after one outcome has been offered to it: the first outcome
/// unconditionally becomes the best; afterwards only a strict improvement
/// replaces the incumbent.
pub open spec fn offered<Solution>(
    t: BestTracker<Solution>,
    outcome: Outcome<Solution>,
) -> BestTracker<Solution> {
    match t.best {
        None => BestTracker { maximize_weight: t.maximize_weight, best: Some(outcome) },
        Some(b) => if better(t.maximize_weight, outcome.weight, b.weight) {
            BestTracker { maximize_weight: t.maximize_weight, best: Some(outcome) }
        } else {
            t
        },
    }
}

/// The tracker after a whole sequence of outcomes has been offered in order.
pub open spec fn offered_all<Solution>(
    t: BestTracker<Solution>,
    outcomes: Seq<Outcome<Solution>>,
) -> BestTracker<Solution>
    decreases outcomes.len(),
{
    if outcomes.len() == 0 {
        t
    } else {
        offered_all(offered(t, outcomes[0]), outcomes.drop_first())
    }
}

impl<Solution> BestTracker<Solution> {
    /// The weight of the current best, if one exists.
    pub open spec fn best_weight(self) -> Option<u64> {
        match self.best {
            None => None,
            Some(b) => Some(b.weight),
        }
    }

    pub fn new(maximize_weight: bool) -> (t: Self)
        ensures
            t.maximize_weight == maximize_weight,
            t.best is None,
    {
        BestTracker { maximize_weight, best: None }
    }

    /// Consider one received outcome for the current best.
    pub fn offer(&mut self, outcome: Outcome<Solution>)
        ensures
            *final(self) == offered(*old(self), outcome),
            final(self).best_weight() == Some(
                best_after(old(self).maximize_weight, old(self).best_weight(), outcome.weight),
            ),
    {
        let replace: bool = match &self.best {
            None => true,
            Some(b) => if self.maximize_weight {
                outcome.weight > b.weight
            } else {
                outcome.weight < b.weight
            },
        };
        if replace {
            self.best = Some(outcome);
        }
    }

    /// The final verdict of a run: the best outcome, or the fatal
    /// no-solution condition when no outcome was ever received.
    pub fn into_result(self) -> (r: Result<Outcome<Solution>, RaceError>)
        ensures
            self.best is None <==> r is Err,
            (self.best matches Some(b) ==> r == Ok::<Outcome<Solution>, RaceError>(b)),
            (self.best is None ==> r == Err::<Outcome<Solution>, RaceError>(
                RaceError::NoSolutionInTime,
            )),
    {
        match self.best {
            Some(b) => Ok(b),
            None => Err(RaceError::NoSolutionInTime),
        }
    }
}

/// Law: once a best outcome exists, offering any further sequence of
/// outcomes leaves a best whose weight is at least the current one in
/// maximize mode and at most the current one in minimize mode; and the
/// first outcome of any non-empty sequence establishes a best.
pub proof fn lemma_best_weight_monotone<Solution>(
    t: BestTracker<Solution>,
    outcomes: Seq<Outcome<Solution>>,
)
    ensures
        offered_all(t, outcomes).maximize_weight == t.maximize_weight,
        (t.best matches Some(b) ==> (offered_all(t, outcomes).best matches Some(f)
            && (t.maximize_weight ==> f.weight >= b.weight)
            && (!t.maximize_weight ==> f.weight <= b.weight))),
        (t.best is None && outcomes.len() > 0 ==> offered_all(t, outcomes).best is Some),
    decreases outcomes.len(),
{
    if outcomes.len() > 0 {
        lemma_best_weight_monotone(offered(t, outcomes[0]), outcomes.drop_first());
    }
}

/// Law: an outcome whose weight equals the incumbent's never replaces it;
/// the first-seen outcome of a given weight persists, solution and all.
pub proof fn lemma_tie_keeps_incumbent<Solution>(
    t: BestTracker<Solution>,
    outcome: Outcome<Solution>,
)
    requires
        t.best matches Some(b) && outcome.weight == b.weight,
    ensures
        offered(t, outcome) == t,
{
}

} // verus!
