//! Immutable run parameters for a race.

use vstd::prelude::*;

verus! {

/// Parameters fixed before a race starts and read-only thereafter.
///
/// `battle_mode` selects the racing mode; without it the harness runs a
/// single verbose solve on the calling thread.  In battle mode the
/// scheduler stops polling two seconds before the nominal deadline to
/// leave a margin for formatting and writing the result, so the budget
/// must exceed that margin.
#[derive(Clone, Copy)]
pub struct Config {
    pub battle_mode: bool,
    pub num_workers: u8,
    pub restart_workers: bool,
    pub run_time_budget_seconds: u16,
    pub maximize_weight: bool,
}

impl Config {
    /// In battle mode the budget must leave room for the two-second
    /// finalization margin.
    pub open spec fn wf(self) -> bool {
        self.battle_mode ==> self.run_time_budget_seconds > 2
    }

    pub fn new(
        battle_mode: bool,
        num_workers: u8,
        restart_workers: bool,
        run_time_budget_seconds: u16,
        maximize_weight: bool,
    ) -> (c: Config)
        requires
            battle_mode ==> run_time_budget_seconds > 2,
        ensures
            c.battle_mode == battle_mode,
            c.num_workers == num_workers,
            c.restart_workers == restart_workers,
            c.run_time_budget_seconds == run_time_budget_seconds,
            c.maximize_weight == maximize_weight,
            c.wf(),
    {
        Config {
            battle_mode,
            num_workers,
            restart_workers,
            run_time_budget_seconds,
            maximize_weight,
        }
    }
}

} // verus!
