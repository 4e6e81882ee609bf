use std::cell::Cell;

use solver_race::race::run_verbose;
use solver_race::solver::{Outcome, Solver};

// A solver whose parsed input counts how often `solve` ran on it: the
// reported weight equals the number of calls, so a single-shot run must
// report exactly 1.
struct CountingSolver;

impl Solver<Cell<u64>, u64> for CountingSolver {
    fn parse_input() -> Cell<u64> {
        Cell::new(0)
    }

    fn solve(input: &Cell<u64>) -> Outcome<u64> {
        let calls = input.get() + 1;
        input.set(calls);
        Outcome { solution: calls * 100, weight: calls }
    }

    fn format_solution(solution: &u64) -> String {
        format!("solution {}", solution)
    }
}

#[test]
fn verbose_mode_solves_exactly_once() {
    let (outcome, text) = run_verbose::<Cell<u64>, u64, CountingSolver>();
    assert_eq!(outcome.weight, 1);
    assert_eq!(outcome.solution, 100);
    assert_eq!(text, "solution 100");
}
