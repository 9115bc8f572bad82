//! A minimal cooperative multitasking core: a readiness registry and reactor
//! that turn OS readiness events into wake-callback invocations, a scheduler
//! state machine for the task lifecycle, and the poll-or-suspend driver that
//! underlies `block_on`-style single-future execution.

use vstd::prelude::*;

pub mod driver;
pub mod sched;
pub mod reactor;
pub mod registry;
pub mod sys;

verus! {

/// Error reported by the OS readiness-polling calls, reduced to what the
/// runtime's logic reacts to: an interrupted system call is absorbed and
/// retried, every other failure is propagated.
#[derive(Clone, Copy, Debug, PartialEq, Eq, Structural)]
pub enum IoError {
    /// The blocking wait was interrupted by a signal; the caller retries.
    Interrupted,
    /// Any other OS failure, with the raw OS error code when one exists.
    Os(i32),
    /// An OS failure that carries no raw error code.
    Other,
}

impl IoError {
    /// True exactly for the variant that `block_until` absorbs.
    pub fn is_interrupted(&self) -> (r: bool)
        ensures
            r == (*self is Interrupted),
    {
        match self {
            IoError::Interrupted => true,
            _ => false,
        }
    }
}

} // verus!
