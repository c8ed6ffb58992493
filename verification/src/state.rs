//! The slice of chain state this core reads: the validator registry, the
//! active fork, and the current epoch. The state is only ever borrowed
//! immutably; validation never changes it.

use crate::domain::Fork;
use vstd::prelude::*;

verus! {

/// One validator record: the identity and slashing-eligibility state the
/// validation logic reads from it.
#[derive(Clone, Copy, PartialEq, Eq, Structural, Debug)]
pub struct Validator {
    /// The validator's public key.
    pub pubkey: u64,
    /// First epoch at which the validator can no longer be slashed: its exit
    /// from the slashability window. The window is exclusive at this bound.
    pub exit_epoch: u64,
    /// Whether a slashing has already been recorded for this validator.
    pub slashed: bool,
}

impl Validator {
    /// A validator is slashable at `epoch` iff that epoch is strictly before
    /// its exit epoch and no slashing has been recorded yet.
    pub open spec fn spec_slashable_at(self, epoch: u64) -> bool {
        !self.slashed && epoch < self.exit_epoch
    }

    /// Whether this validator may be slashed at `epoch`.
    pub fn is_slashable_at(&self, epoch: u64) -> (slashable: bool)
        ensures
            slashable == self.spec_slashable_at(epoch),
    {
        !self.slashed && epoch < self.exit_epoch
    }
}

/// The slashability window is exclusive at its upper bound: a validator is
/// never slashable at its own exit epoch, and an unslashed validator is
/// still slashable one epoch earlier.
pub proof fn lemma_slashability_boundary(validator: Validator)
    ensures
        !validator.spec_slashable_at(validator.exit_epoch),
        !validator.slashed && validator.exit_epoch > 0 ==> validator.spec_slashable_at(
            (validator.exit_epoch - 1) as u64,
        ),
{
}

/// The chain state a validation call borrows: an ordered, index-addressable
/// registry of validators, the active fork, and the current epoch.
#[derive(Clone, PartialEq, Eq, Debug)]
pub struct BeaconState {
    /// Validator records, addressed by validator index.
    pub validator_registry: Vec<Validator>,
    /// The fork in force, used to pick version tags for domain separation.
    pub fork: Fork,
    /// The epoch the chain is currently in.
    pub current_epoch: u64,
}

impl BeaconState {
    /// Registry view: bounds-checked lookup of a validator by index.
    ///
    /// The index comes from untrusted input and may be out of range; an
    /// unknown index is an absent value for the caller to reject, never a
    /// fault.
    pub fn get_validator(&self, index: u64) -> (found: Option<Validator>)
        ensures
            index < self.validator_registry@.len() ==> found == Some(
                self.validator_registry@[index as int],
            ),
            index >= self.validator_registry@.len() ==> found is None,
    {
        if index < self.validator_registry.len() as u64 {
            Some(self.validator_registry[index as usize])
        } else {
            None
        }
    }
}

} // verus!
