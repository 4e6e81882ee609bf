//! The contract between the harness and a caller-supplied problem
//! implementation, and the scored result such an implementation produces.

use vstd::prelude::*;

verus! {

/// A candidate solution paired with the numeric weight by which the
/// harness ranks it.  Immutable once produced by a worker.
#[derive(Debug)]
pub struct Outcome<Solution> {
    pub solution: Solution,
    pub weight: u64,
}

/// What the harness requires from a problem implementation: parse the
/// problem instance once, compute one scored candidate from a parsed
/// instance, and render a solution to text.  The three operations are
/// opaque to the harness; `solve` in particular may be randomized and may
/// run arbitrarily long, so nothing is promised of its result here.
pub trait Solver<ParsedInput, Solution> {
    fn parse_input() -> ParsedInput;

    fn solve(input: &ParsedInput) -> Outcome<Solution>;

    fn format_solution(solution: &Solution) -> String;
}

} // verus!
