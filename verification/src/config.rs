//! Protocol constants and the epoch clock.

use vstd::prelude::*;

verus! {

/// The protocol constants a validation call depends on, passed explicitly so
/// that every check is a pure function of its arguments.
///
/// The constants are fixed for the life of a chain; callers are expected to
/// validate them once at startup, which is what `is_valid` captures.
#[derive(Clone, Copy, PartialEq, Eq, Structural, Debug)]
pub struct ChainSpec {
    /// Number of slots in one epoch. A protocol constant, never zero.
    pub slots_per_epoch: u64,
}

impl ChainSpec {
    /// A well-formed parameter set: the epoch clock must not divide by zero.
    pub open spec fn is_valid(self) -> bool {
        self.slots_per_epoch > 0
    }
}

/// The epoch a slot belongs to: slots are grouped into fixed-size windows of
/// `slots_per_epoch` consecutive slots.
pub open spec fn spec_epoch_of(slot: u64, slots_per_epoch: u64) -> int
    recommends
        slots_per_epoch > 0,
{
    slot as int / slots_per_epoch as int
}

/// Epoch clock: maps a slot to the epoch it belongs to.
///
/// Total over all slots; the well-formedness of `chain_spec` rules out the
/// one misconfiguration (a zero divisor) that could make it fail.
pub fn epoch_of(slot: u64, chain_spec: &ChainSpec) -> (epoch: u64)
    requires
        chain_spec.is_valid(),
    ensures
        epoch == spec_epoch_of(slot, chain_spec.slots_per_epoch),
{
    slot / chain_spec.slots_per_epoch
}

} // verus!
