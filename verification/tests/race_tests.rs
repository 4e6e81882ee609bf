use solver_race::best::RaceError;
use solver_race::config::Config;
use solver_race::race::{MultiRace, Race};
use solver_race::solver::Outcome;

fn battle_config(num_workers: u8, restart_workers: bool, budget: u16, maximize: bool) -> Config {
    Config::new(true, num_workers, restart_workers, budget, maximize)
}

#[test]
fn config_new_sets_fields() {
    let c = Config::new(false, 4, true, 0, false);
    assert!(!c.battle_mode);
    assert_eq!(c.num_workers, 4);
    assert!(c.restart_workers);
    assert_eq!(c.run_time_budget_seconds, 0);
    assert!(!c.maximize_weight);
}

#[test]
fn race_starts_with_one_id_per_worker() {
    let r: Race<u32> = Race::new(&battle_config(3, false, 10, true));
    assert_eq!(r.queue, vec![0u64, 1, 2]);
    assert_eq!(r.next_id, 3);
    assert_eq!(r.outcomes_seen, 0);
    assert!(r.tracker.best.is_none());
}

#[test]
fn round_robin_rotates_pending_workers() {
    let mut r: Race<u32> = Race::new(&battle_config(3, false, 10, true));
    assert_eq!(r.front_worker(), Some(0));
    r.poll_pending();
    assert_eq!(r.front_worker(), Some(1));
    r.poll_pending();
    assert_eq!(r.front_worker(), Some(2));
    r.poll_pending();
    assert_eq!(r.front_worker(), Some(0));
    assert_eq!(r.queue, vec![0u64, 1, 2]);
}

#[test]
fn three_workers_drain_and_best_is_nine() {
    // num_workers = 3, budget 10 s, maximize, no restart; the workers
    // report weights 5, 9 and 7 while the loop keeps rotating.
    let mut r: Race<u32> = Race::new(&battle_config(3, false, 10, true));
    assert!(r.should_continue(1));
    assert_eq!(r.poll_ready(Outcome { solution: 100, weight: 5 }), None);
    r.poll_pending();
    assert!(r.should_continue(2));
    assert_eq!(r.poll_ready(Outcome { solution: 200, weight: 9 }), None);
    assert!(r.should_continue(4));
    assert_eq!(r.poll_ready(Outcome { solution: 300, weight: 7 }), None);
    // All three reported: the queue is drained well before the 8 s
    // effective cutoff, and the loop exits on emptiness alone.
    assert_eq!(r.front_worker(), None);
    assert!(!r.should_continue(4));
    let best = r.finish().unwrap();
    assert_eq!(best.weight, 9);
    assert_eq!(best.solution, 200);
}

#[test]
fn no_restart_considers_at_most_n_outcomes() {
    let mut r: Race<u32> = Race::new(&battle_config(2, false, 10, true));
    assert_eq!(r.poll_ready(Outcome { solution: 1, weight: 1 }), None);
    assert_eq!(r.poll_ready(Outcome { solution: 2, weight: 2 }), None);
    assert_eq!(r.outcomes_seen, 2);
    // Nothing is pending any more, so nothing further can be considered
    // and the race is over even though no time has passed.
    assert_eq!(r.front_worker(), None);
    assert!(!r.should_continue(0));
}

#[test]
fn restart_keeps_pool_size_and_spawns_fresh_ids() {
    let mut r: Race<u32> = Race::new(&battle_config(2, true, 10, true));
    assert_eq!(r.queue, vec![0u64, 1]);
    assert_eq!(r.poll_ready(Outcome { solution: 1, weight: 1 }), Some(2));
    assert_eq!(r.queue, vec![1u64, 2]);
    assert_eq!(r.poll_ready(Outcome { solution: 2, weight: 2 }), Some(3));
    assert_eq!(r.queue, vec![2u64, 3]);
    // The pool never shrinks: two workers are pending throughout.
    assert_eq!(r.queue.len(), 2);
    assert!(r.should_continue(7));
}

#[test]
fn deadline_cuts_polling_two_seconds_early() {
    let r: Race<u32> = Race::new(&battle_config(1, true, 10, true));
    assert!(r.should_continue(7));
    assert!(!r.should_continue(8));
    assert!(!r.should_continue(9));
}

#[test]
fn race_without_outcomes_is_fatal() {
    // No worker ever completes before the deadline: the race must report
    // the fatal no-solution condition.
    let r: Race<u32> = Race::new(&battle_config(3, false, 10, true));
    let e = r.finish().unwrap_err();
    assert!(matches!(e, RaceError::NoSolutionInTime));
}

#[test]
fn multi_race_later_better_wins() {
    // One program reports weight 10 early, another weight 20 later, under
    // maximize mode with a 5 s budget: the later, better outcome wins.
    let mut m: MultiRace<&str> = MultiRace::new(5, true);
    assert!(m.should_continue(1));
    m.offer(Outcome { solution: "p1", weight: 10 });
    assert!(m.should_continue(3));
    m.offer(Outcome { solution: "p2", weight: 20 });
    assert!(!m.should_continue(5));
    let best = m.finish().unwrap();
    assert_eq!(best.weight, 20);
    assert_eq!(best.solution, "p2");
}

#[test]
fn multi_race_without_outcomes_is_fatal() {
    let m: MultiRace<u32> = MultiRace::new(5, true);
    let e = m.finish().unwrap_err();
    assert!(matches!(e, RaceError::NoSolutionInTime));
}

#[test]
fn multi_race_polls_for_the_full_budget() {
    // Unlike the single race, the sweep goes on for the whole budget with
    // no early exit and no two-second margin.
    let m: MultiRace<u32> = MultiRace::new(5, true);
    assert!(m.should_continue(0));
    assert!(m.should_continue(4));
    assert!(!m.should_continue(5));
}
