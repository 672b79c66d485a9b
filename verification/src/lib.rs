//! Running a program under a wall-clock deadline.
//!
//! The library holds the decision logic of a bounded wait on a child
//! process: which creation flag suppresses a console window, what one poll
//! of the child decides (collect, kill, or keep waiting), and how the
//! outcome — the captured output or one of the two failure kinds — is
//! built. The process itself is spawned, polled, killed and read by an
//! unverified shell around the library, which obeys the decisions made
//! here.

pub mod launch;
pub mod outcome;
pub mod wait;
