//! The scheduling state machines of the two racing modes.

use vstd::prelude::*;
use crate::best::{BestTracker, RaceError, best_after, offered};
use crate::config::Config;
use crate::solver::{Outcome, Solver};

verus! {

/// Decision state of one battle-mode race over a homogeneous worker pool.
///
/// Workers are known here by their ids; the caller that owns the actual
/// threads and channels holds one pending receiver per queued id.  The
/// queue is polled round-robin: the front worker is examined, and is
/// either consumed (its outcome arrived) or sent to the back.  With the
/// restart policy on, every consumed worker is at once replaced by a fresh
/// id that the caller must spawn, so the pool size never changes; with it
/// off the pool only shrinks, and the race ends as soon as it is empty.
pub struct Race<Solution> {
    pub tracker: BestTracker<Solution>,
    /// Ids of the workers whose outcome is still pending, front first.
    pub queue: Vec<u64>,
    /// The id the next freshly spawned worker will get.
    pub next_id: u64,
    pub restart_workers: bool,
    pub num_workers: u8,
    pub run_time_budget_seconds: u16,
    /// How many outcomes have been received and considered.
    pub outcomes_seen: u64,
}

impl<Solution> Race<Solution> {
    /// Races only run in battle mode, so the budget exceeds the
    /// two-second finalization margin.  With the restart policy on, the
    /// pending pool always holds exactly `num_workers` workers; with it
    /// off, pending workers and considered outcomes together always
    /// account for the original pool.  Queued ids are always older than
    /// the next fresh id.
    pub open spec fn wf(self) -> bool {
        &&& self.run_time_budget_seconds > 2
        &&& if self.restart_workers {
            self.queue@.len() == self.num_workers as int
        } else {
            self.outcomes_seen + self.queue@.len() == self.num_workers as int
        }
        &&& forall|i: int| 0 <= i < self.queue@.len() ==> self.queue@[i] < self.next_id
    }

    /// Start a race: no best yet, no outcome seen, and one pending worker
    /// id for each of the `num_workers` workers the caller must spawn,
    /// numbered from zero in queue order.
    pub fn new(config: &Config) -> (r: Race<Solution>)
        requires
            config.wf(),
            config.battle_mode,
        ensures
            r.wf(),
            r.tracker.maximize_weight == config.maximize_weight,
            r.tracker.best is None,
            r.restart_workers == config.restart_workers,
            r.num_workers == config.num_workers,
            r.run_time_budget_seconds == config.run_time_budget_seconds,
            r.outcomes_seen == 0,
            r.next_id == config.num_workers as u64,
            r.queue@.len() == config.num_workers as int,
            forall|i: int| 0 <= i < r.queue@.len() ==> r.queue@[i] == i as u64,
    {
        let mut queue: Vec<u64> = Vec::new();
        let mut i: u8 = 0;
        while i < config.num_workers
            invariant
                i <= config.num_workers,
                queue@.len() == i as int,
                forall|j: int| 0 <= j < i as int ==> queue@[j] == j as u64,
            decreases config.num_workers - i,
        {
            queue.push(i as u64);
            i = i + 1;
        }
        Race {
            tracker: BestTracker::new(config.maximize_weight),
            queue,
            next_id: config.num_workers as u64,
            restart_workers: config.restart_workers,
            num_workers: config.num_workers,
            run_time_budget_seconds: config.run_time_budget_seconds,
            outcomes_seen: 0,
        }
    }

    /// Whether the polling loop keeps going: it stops once the elapsed
    /// time reaches the budget less the two-second margin, or earlier,
    /// as soon as no worker is pending any more.
    pub fn should_continue(&self, elapsed_seconds: u64) -> (r: bool)
        requires
            self.wf(),
        ensures
            r == (self.queue@.len() > 0 && elapsed_seconds < (
            self.run_time_budget_seconds - 2) as u64),
    {
        self.queue.len() > 0 && elapsed_seconds < (self.run_time_budget_seconds - 2) as u64
    }

    /// The worker to examine next, if any is pending.
    pub fn front_worker(&self) -> (r: Option<u64>)
        ensures
            self.queue@.len() == 0 ==> r is None,
            self.queue@.len() > 0 ==> r == Some::<u64>(self.queue@[0]),
    {
        if self.queue.len() > 0 {
            Some(self.queue[0])
        } else {
            None
        }
    }

    /// The front worker had no result yet: send it to the back of the
    /// queue, so that every pending worker keeps getting polling
    /// attention.  Nothing else changes.
    pub fn poll_pending(&mut self)
        requires
            old(self).queue@.len() > 0,
        ensures
            final(self).queue@ == old(self).queue@.drop_first().push(old(self).queue@[0]),
            final(self).tracker == old(self).tracker,
            final(self).next_id == old(self).next_id,
            final(self).restart_workers == old(self).restart_workers,
            final(self).num_workers == old(self).num_workers,
            final(self).run_time_budget_seconds == old(self).run_time_budget_seconds,
            final(self).outcomes_seen == old(self).outcomes_seen,
            old(self).wf() ==> final(self).wf(),
    {
        let id: u64 = self.queue.remove(0);
        self.queue.push(id);
        proof {
            assert(self.queue@ =~= old(self).queue@.drop_first().push(old(self).queue@[0]));
        }
    }

    /// The front worker delivered an outcome: consume its queue entry,
    /// consider the outcome for the current best under the strict
    /// improvement rule, and, with the restart policy on, enqueue a fresh
    /// worker id, returned so that the caller spawns it.
    pub fn poll_ready(&mut self, outcome: Outcome<Solution>) -> (spawn: Option<u64>)
        requires
            old(self).wf(),
            old(self).queue@.len() > 0,
            old(self).outcomes_seen < u64::MAX,
            old(self).next_id < u64::MAX,
        ensures
            final(self).wf(),
            final(self).tracker == offered(old(self).tracker, outcome),
            final(self).tracker.best_weight() == Some(
                best_after(
                    old(self).tracker.maximize_weight,
                    old(self).tracker.best_weight(),
                    outcome.weight,
                ),
            ),
            final(self).outcomes_seen == old(self).outcomes_seen + 1,
            final(self).restart_workers == old(self).restart_workers,
            final(self).num_workers == old(self).num_workers,
            final(self).run_time_budget_seconds == old(self).run_time_budget_seconds,
            (old(self).restart_workers ==> final(self).queue@ == old(
                self,
            ).queue@.drop_first().push(old(self).next_id) && spawn == Some::<u64>(
                old(self).next_id,
            ) && final(self).next_id == old(self).next_id + 1),
            (!old(self).restart_workers ==> final(self).queue@ == old(self).queue@.drop_first()
                && spawn is None && final(self).next_id == old(self).next_id),
    {
        self.queue.remove(0);
        self.tracker.offer(outcome);
        self.outcomes_seen = self.outcomes_seen + 1;
        let spawn: Option<u64> = if self.restart_workers {
            let id: u64 = self.next_id;
            self.queue.push(id);
            self.next_id = self.next_id + 1;
            Some(id)
        } else {
            None
        };
        proof {
            if old(self).restart_workers {
                assert(self.queue@ =~= old(self).queue@.drop_first().push(old(self).next_id));
            } else {
                assert(self.queue@ =~= old(self).queue@.drop_first());
            }
        }
        spawn
    }

    /// The final verdict once the polling loop has exited, by deadline or
    /// by an exhausted queue: the best outcome received, or the fatal
    /// no-solution condition if no worker ever completed in time.
    pub fn finish(self) -> (r: Result<Outcome<Solution>, RaceError>)
        ensures
            self.tracker.best is None <==> r is Err,
            (self.tracker.best matches Some(b) ==> r == Ok::<Outcome<Solution>, RaceError>(b)),
            (self.tracker.best is None ==> r == Err::<Outcome<Solution>, RaceError>(
                RaceError::NoSolutionInTime,
            )),
    {
        self.tracker.into_result()
    }
}

/// Law: with the restart policy off, the pending pool and the outcomes
/// considered so far always account exactly for the original pool, so at
/// most `num_workers` outcomes are ever considered; and once all of them
/// have reported, nothing is pending any more, so the polling loop stops
/// whether or not the time budget has elapsed.
pub proof fn lemma_no_restart_outcome_bound<Solution>(r: Race<Solution>)
    requires
        r.wf(),
        !r.restart_workers,
    ensures
        r.outcomes_seen + r.queue@.len() == r.num_workers as int,
        r.outcomes_seen <= r.num_workers as int,
        r.outcomes_seen == r.num_workers as int ==> r.queue@.len() == 0,
{
}

/// Law: with the restart policy on, the pending pool holds exactly
/// `num_workers` workers in every reachable state, every consumed worker
/// having been replaced at once.
pub proof fn lemma_restart_keeps_pool_size<Solution>(r: Race<Solution>)
    requires
        r.wf(),
        r.restart_workers,
    ensures
        r.queue@.len() == r.num_workers as int,
{
}

/// Decision state of a race between structurally different solver
/// programs sharing one budget.
///
/// Each program parses its own input, spawns its own internal workers,
/// and may deliver any number of outcomes over its channel.  The caller
/// sweeps all channels between short sleeps and offers every received
/// outcome here; the strict improvement rule of [`BestTracker`] then
/// picks the best outcome seen from any program, whatever its origin.
pub struct MultiRace<Solution> {
    pub tracker: BestTracker<Solution>,
    pub total_runtime_seconds: u16,
}

impl<Solution> MultiRace<Solution> {
    pub fn new(total_runtime_seconds: u16, maximize_weight: bool) -> (r: MultiRace<Solution>)
        ensures
            r.tracker.maximize_weight == maximize_weight,
            r.tracker.best is None,
            r.total_runtime_seconds == total_runtime_seconds,
    {
        MultiRace { tracker: BestTracker::new(maximize_weight), total_runtime_seconds }
    }

    /// Whether another polling sweep is due: sweeps go on for the full
    /// runtime budget, however many programs have already reported.
    pub fn should_continue(&self, elapsed_seconds: u64) -> (r: bool)
        ensures
            r == (elapsed_seconds < self.total_runtime_seconds as u64),
    {
        elapsed_seconds < self.total_runtime_seconds as u64
    }

    /// Consider one outcome received from any of the programs.
    pub fn offer(&mut self, outcome: Outcome<Solution>)
        ensures
            final(self).tracker == offered(old(self).tracker, outcome),
            final(self).tracker.best_weight() == Some(
                best_after(
                    old(self).tracker.maximize_weight,
                    old(self).tracker.best_weight(),
                    outcome.weight,
                ),
            ),
            final(self).total_runtime_seconds == old(self).total_runtime_seconds,
    {
        self.tracker.offer(outcome);
    }

    /// The final verdict at the deadline: the best outcome received from
    /// any program, or the fatal no-solution condition.
    pub fn finish(self) -> (r: Result<Outcome<Solution>, RaceError>)
        ensures
            self.tracker.best is None <==> r is Err,
            (self.tracker.best matches Some(b) ==> r == Ok::<Outcome<Solution>, RaceError>(b)),
            (self.tracker.best is None ==> r == Err::<Outcome<Solution>, RaceError>(
                RaceError::NoSolutionInTime,
            )),
    {
        self.tracker.into_result()
    }
}

/// Run one solve on the calling thread: parse the input once, compute one
/// outcome, and render its solution.  No workers are spawned and no
/// ranking decision is made; the returned text is the rendering of the
/// returned outcome's solution.
pub fn run_verbose<ParsedInput, Solution, S: Solver<ParsedInput, Solution>>() -> (Outcome<
    Solution,
>, String) {
    let input = S::parse_input();
    let outcome = S::solve(&input);
    let text = S::format_solution(&outcome.solution);
    (outcome, text)
}

} // verus!
