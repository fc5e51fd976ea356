//! The slot that a block carries as inherent data.

use vstd::prelude::*;
use sp_consensus_slots::{Slot, SlotDuration};

verus! {

/// The name under which the slot travels in the inherent data.
pub const INHERENT_IDENTIFIER: [u8; 8] = [109, 105, 99, 99, 115, 108, 111, 116];

/// The slot into which a timestamp falls, both given in milliseconds.
pub open spec fn slot_at(timestamp: u64, slot_duration: u64) -> int {
    timestamp as int / slot_duration as int
}

/// `Slot::from_timestamp` of `sp_consensus_slots`: the timestamp divided by
/// the slot duration, both in milliseconds.
#[verifier::external_body]
pub(crate) fn slot_from_timestamp(timestamp: u64, slot_duration: u64) -> (slot: u64)
    requires
        slot_duration > 0,
    ensures
        slot == slot_at(timestamp, slot_duration),
{
    u64::from(Slot::from_timestamp(timestamp.into(), SlotDuration::from_millis(slot_duration)))
}

/// Provides the slot as inherent data.
#[derive(Debug, Clone, Copy, PartialEq, Eq, Structural)]
pub struct InherentDataProvider {
    slot: u64,
}

impl InherentDataProvider {
    /// The slot that is provided.
    pub closed spec fn provided(self) -> u64 {
        self.slot
    }

    /// Create new inherent data provider from the given `slot`.
    pub fn new(slot: u64) -> (provider: Self)
        ensures
            provider.provided() == slot,
    {
        InherentDataProvider { slot }
    }

    /// Creates the inherent data provider by calculating the slot from the given
    /// `timestamp` and `slot_duration`, both in milliseconds.
    pub fn from_timestamp_and_slot_duration(timestamp: u64, slot_duration: u64) -> (provider: Self)
        requires
            slot_duration > 0,
        ensures
            provider.provided() == slot_at(timestamp, slot_duration),
    {
        InherentDataProvider { slot: slot_from_timestamp(timestamp, slot_duration) }
    }

    /// The slot that is provided.
    pub fn slot(&self) -> (slot: u64)
        ensures
            slot == self.provided(),
    {
        self.slot
    }
}

} // verus!
