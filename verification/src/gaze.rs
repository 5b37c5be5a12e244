//! The single slot through which the latest gaze target is handed over.

use vstd::prelude::*;
use crate::region::NormalizedPosition;

verus! {

/// What a reader finds when it asks for the slot: the slot itself, or a
/// synchronization primitive left inconsistent by a failed access.
#[derive(Clone, Copy, Debug)]
pub enum SlotAccess {
    Granted(SharedGaze),
    Corrupted,
}

/// A single slot that holds the latest gaze target, or none while no face is
/// visible. It keeps no history: a new value replaces the one before.
#[derive(Clone, Copy, Debug)]
pub struct SharedGaze {
    slot: Option<NormalizedPosition>,
}

impl SharedGaze {
    /// A position in the slot is always in range.
    #[verifier::type_invariant]
    spec fn holds_in_range(self) -> bool {
        self.slot.is_some() ==> self.slot.unwrap().in_range()
    }

    /// What the slot holds.
    pub closed spec fn view(&self) -> Option<NormalizedPosition> {
        self.slot
    }

    /// The slot before anything was published.
    pub closed spec fn fresh() -> SharedGaze {
        SharedGaze { slot: None }
    }

    /// The slot after `value` was published into it.
    pub closed spec fn published(self, value: Option<NormalizedPosition>) -> SharedGaze {
        SharedGaze { slot: value }
    }

    /// A slot into which nothing was published yet.
    pub fn new() -> (state: SharedGaze)
        ensures
            state == SharedGaze::fresh(),
            state@.is_none(),
    {
        SharedGaze { slot: None }
    }

    /// Replaces what the slot holds. A position must be in range; no target
    /// can always be published.
    pub fn publish(&mut self, value: Option<NormalizedPosition>)
        requires
            value.is_some() ==> value.unwrap().in_range(),
        ensures
            *final(self) == old(self).published(value),
            final(self)@ == value,
    {
        self.slot = value;
    }

    /// What the slot holds now.
    pub fn read(&self) -> (value: Option<NormalizedPosition>)
        ensures
            value == self@,
            value.is_some() ==> value.unwrap().in_range(),
    {
        proof {
            use_type_invariant(self);
        }
        self.slot
    }
}

/// What a reader sees for an access: the slot's value, or no target where
/// the access found the primitive corrupted.
pub open spec fn observed(access: SlotAccess) -> Option<NormalizedPosition> {
    match access {
        SlotAccess::Granted(state) => state@,
        SlotAccess::Corrupted => None,
    }
}

/// Reads through an access that may have failed; a failed one reads as no
/// target.
pub fn read_or_absent(access: &SlotAccess) -> (value: Option<NormalizedPosition>)
    ensures
        value == observed(*access),
        value.is_some() ==> value.unwrap().in_range(),
{
    match access {
        SlotAccess::Granted(state) => state.read(),
        SlotAccess::Corrupted => None,
    }
}

/// A slot into which nothing was published reads as no target.
pub proof fn lemma_fresh_slot_is_absent()
    ensures
        SharedGaze::fresh()@.is_none(),
        observed(SlotAccess::Granted(SharedGaze::fresh())).is_none(),
{
}

/// A read that follows a publish, with no other publish between them, gives
/// exactly the value published, whatever the slot held before.
pub proof fn lemma_read_after_publish(state: SharedGaze, value: Option<NormalizedPosition>)
    ensures
        state.published(value)@ == value,
        observed(SlotAccess::Granted(state.published(value))) == value,
{
}

/// The slot keeps no history: of two publishes a reader sees the later one.
pub proof fn lemma_latest_publish_wins(
    state: SharedGaze,
    earlier: Option<NormalizedPosition>,
    later: Option<NormalizedPosition>,
)
    ensures
        state.published(earlier).published(later)@ == later,
        state.published(earlier).published(later) == state.published(later),
{
}

} // verus!
