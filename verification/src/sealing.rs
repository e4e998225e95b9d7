//! The node's block-sealing discipline.
//!
//! The sealing mode is selected once at node startup from external
//! configuration and is immutable for the remainder of the process. Every
//! component that depends on it receives an explicit snapshot of the value,
//! so its behaviour is a pure function of its inputs.

use vstd::prelude::*;

verus! {

/// The discipline governing when a new block is produced: on the fixed
/// authority schedule (`Default`), or on external trigger (`Manual`,
/// `Instant` — collectively the override modes).
#[derive(Clone, Copy, Debug, PartialEq, Eq, Structural)]
pub enum SealingMode {
    /// Blocks are produced by the timer-driven authority schedule.
    Default,
    /// Blocks are sealed on explicit operator demand.
    Manual,
    /// Blocks are sealed immediately as transactions arrive.
    Instant,
}

impl SealingMode {
    /// True in the modes where blocks are sealed on demand rather than by
    /// the authority schedule.
    pub open spec fn spec_is_override(self) -> bool {
        self !is Default
    }

    /// Whether this mode overrides the authority schedule.
    pub fn is_override(&self) -> (r: bool)
        ensures
            r == self.spec_is_override(),
    {
        *self != SealingMode::Default
    }
}

} // verus!
