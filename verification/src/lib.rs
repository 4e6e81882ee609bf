//! A racing harness for optimization-style solvers.
//!
//! Many independent attempts at the same problem run concurrently under a
//! wall-clock budget, and only the best-scoring outcome is kept.  The
//! threads, channels and clocks live outside this crate; what is verified
//! here is every decision the harness makes: which outcome becomes the
//! current best, how the pending-worker queue evolves, when a worker is
//! restarted, when the polling loop must stop, and when the run is fatal
//! for want of any result.

pub mod best;
pub mod config;
pub mod race;
pub mod solver;
