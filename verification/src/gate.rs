//! The consensus timestamp gate.
//!
//! During block production the timestamp module raises a timestamp-set event
//! carrying the block's moment (milliseconds since the unix epoch). By
//! default that event is delivered to the authoring module's handler, which
//! validates the authoring slot against the wall clock. When the node seals
//! blocks outside the normal timed-slot schedule (an override sealing mode),
//! that validation would incorrectly reject otherwise valid blocks, so the
//! gate discards the event instead of forwarding it.

use vstd::prelude::*;

use crate::sealing::SealingMode;

verus! {

/// The observable effect of the authoring module's default timestamp-set
/// handler: it records the moment and performs its slot validation on it.
/// The moments delivered so far, in delivery order, are the handler's
/// observable state.
pub struct AuthoringHandler {
    delivered: Vec<u64>,
}

impl AuthoringHandler {
    /// The moments delivered to the handler so far, oldest first.
    pub closed spec fn view(&self) -> Seq<u64> {
        self.delivered@
    }

    /// A handler that has not yet received any timestamp-set event.
    pub fn new() -> (h: AuthoringHandler)
        ensures
            h@ == Seq::<u64>::empty(),
    {
        AuthoringHandler { delivered: Vec::new() }
    }

    /// The authoring module's default handler: accepts the moment and runs
    /// its slot validation on it.
    pub fn on_timestamp_set(&mut self, moment: u64)
        ensures
            final(self)@ == handler_effect(old(self)@, moment),
    {
        self.delivered.push(moment);
    }

    /// How many timestamp-set events the handler has received.
    pub fn delivered_count(&self) -> (n: usize)
        ensures
            n == self@.len(),
    {
        self.delivered.len()
    }

    /// The `i`-th moment delivered to the handler.
    pub fn delivered_at(&self, i: usize) -> (m: u64)
        requires
            i < self@.len(),
        ensures
            m == self@[i as int],
    {
        self.delivered[i]
    }
}

/// What one direct call of the authoring module's default handler does to
/// its observable state: the moment is appended to the delivered sequence.
pub open spec fn handler_effect(log: Seq<u64>, moment: u64) -> Seq<u64> {
    log.push(moment)
}

/// What one gated timestamp-set event does to the handler's observable
/// state: in `Default` sealing the event is forwarded unchanged, in an
/// override mode it is discarded.
pub open spec fn gate_effect(mode: SealingMode, log: Seq<u64>, moment: u64) -> Seq<u64> {
    if mode is Default {
        handler_effect(log, moment)
    } else {
        log
    }
}

/// The consensus timestamp gate, registered in place of the authoring
/// module's default timestamp-set handler. It holds no state of its own
/// beyond the sealing-mode snapshot captured at composition time; its
/// behaviour is a pure function of that snapshot and the event.
#[derive(Clone, Copy, Debug, PartialEq, Eq, Structural)]
pub struct ConsensusOnTimestampSet {
    /// The sealing mode in effect for the whole process, captured once at
    /// composition time and never mutated thereafter.
    pub mode: SealingMode,
}

impl ConsensusOnTimestampSet {
    /// A gate for the given sealing-mode snapshot.
    pub fn new(mode: SealingMode) -> (g: ConsensusOnTimestampSet)
        ensures
            g.mode == mode,
    {
        ConsensusOnTimestampSet { mode }
    }

    /// The mode any reader of the shared snapshot observes. The timestamp gate takes
    /// the snapshot by shared reference and never writes it, so a read from
    /// any other context during an invocation returns this same value.
    pub fn current_mode(&self) -> (m: SealingMode)
        ensures
            m == self.mode,
    {
        self.mode
    }

    /// Receive a timestamp-set event. In `Default` sealing the event is
    /// forwarded unmodified to the authoring module's default handler; in an
    /// override mode nothing is invoked and the handler's state is left
    /// untouched. The timestamp gate itself cannot fail: it either delegates or
    /// no-ops.
    pub fn on_timestamp_set(&self, handler: &mut AuthoringHandler, moment: u64)
        ensures
            final(handler)@ == gate_effect(self.mode, old(handler)@, moment),
    {
        if self.current_mode() != SealingMode::Default {
            return;
        }
        handler.on_timestamp_set(moment);
    }
}

/// Law: pass-through equivalence. With sealing mode `Default`, a gated
/// timestamp-set event has exactly the observable effect of invoking the
/// authoring module's default handler directly with the same moment.
pub proof fn lemma_pass_through_equivalence(log: Seq<u64>, moment: u64)
    ensures
        gate_effect(SealingMode::Default, log, moment) == handler_effect(log, moment),
{
}

/// Law: suppression. In an override sealing mode, a gated timestamp-set
/// event has no observable effect: the handler's state is unchanged for
/// every moment value.
pub proof fn lemma_override_suppresses(mode: SealingMode, log: Seq<u64>, moment: u64)
    requires
        mode.spec_is_override(),
    ensures
        gate_effect(mode, log, moment) == log,
{
}

/// Law: idempotence of pass-through. Gating the same moment twice in
/// `Default` mode has the same cumulative effect as invoking the default
/// handler twice with that moment: the timestamp gate adds no extra suppression and
/// no duplication.
pub proof fn lemma_pass_through_idempotent(log: Seq<u64>, moment: u64)
    ensures
        gate_effect(
            SealingMode::Default,
            gate_effect(SealingMode::Default, log, moment),
            moment,
        ) == handler_effect(handler_effect(log, moment), moment),
{
}

/// Law: the mode read during an invocation is stable. The timestamp gate decides from
/// an immutable snapshot, so any reader holding the same snapshot observes
/// exactly the mode the timestamp gate used: two gates over equal snapshots produce
/// equal effects on every handler state and every moment.
pub proof fn lemma_mode_snapshot_stable(
    g1: ConsensusOnTimestampSet,
    g2: ConsensusOnTimestampSet,
    log: Seq<u64>,
    moment: u64,
)
    requires
        g1.mode == g2.mode,
    ensures
        gate_effect(g1.mode, log, moment) == gate_effect(g2.mode, log, moment),
{
}

} // verus!
