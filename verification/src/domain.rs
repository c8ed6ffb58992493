//! Signature domains: binding a signature to one operation purpose and one
//! fork version, so it cannot be replayed in another context.

use vstd::prelude::*;

verus! {

/// The active fork: the protocol-version tags on either side of the most
/// recent fork boundary, and the epoch at which the switch happened.
///
/// A message is tied to the version that was (or will be) active at the epoch
/// it belongs to, so signatures made under one version never carry over a
/// fork boundary.
#[derive(Clone, Copy, PartialEq, Eq, Structural, Debug)]
pub struct Fork {
    /// Version tag in force before `epoch`.
    pub previous_version: u32,
    /// Version tag in force from `epoch` on.
    pub current_version: u32,
    /// First epoch at which `current_version` applies.
    pub epoch: u64,
}

/// The closed set of purposes a signature can be produced for, one per
/// operation type. Keeping this a tagged variant (rather than a bare integer)
/// makes a mismatched-purpose bug a type error, not a runtime surprise.
#[derive(Clone, Copy, PartialEq, Eq, Structural, Debug)]
pub enum Domain {
    /// Signing a block header as its proposer.
    BeaconProposer,
    /// Signing an attestation.
    Attestation,
    /// Signing a deposit.
    Deposit,
    /// Signing a voluntary exit.
    VoluntaryExit,
    /// Signing a transfer.
    Transfer,
}

/// Width of the version field inside a domain tag: versions occupy the low
/// 32 bits, the purpose the bits above them.
pub const VERSION_SPAN: u64 = 0x1_0000_0000;

/// A small distinct number for each purpose; the purpose half of a domain tag.
pub open spec fn spec_purpose_tag(purpose: Domain) -> u64 {
    match purpose {
        Domain::BeaconProposer => 0,
        Domain::Attestation => 1,
        Domain::Deposit => 2,
        Domain::VoluntaryExit => 3,
        Domain::Transfer => 4,
    }
}

/// The version tag the fork prescribes for a message belonging to `epoch`:
/// the current tag at or after the switch epoch, the previous tag before it.
pub open spec fn spec_fork_version(fork: Fork, epoch: int) -> u32 {
    if epoch >= fork.epoch {
        fork.current_version
    } else {
        fork.previous_version
    }
}

/// A domain tag: the purpose in the high bits, the fork version chosen for
/// `epoch` in the low 32 bits. Distinct (purpose, version) pairs give
/// distinct tags, which `lemma_domain_tag_injective` states.
pub open spec fn spec_domain_of(epoch: int, purpose: Domain, fork: Fork) -> u64 {
    (spec_purpose_tag(purpose) * VERSION_SPAN + spec_fork_version(fork, epoch)) as u64
}

/// Signature domain calculator: derives the domain-separation tag for a
/// message belonging to `epoch`, signed for `purpose`, under `fork`.
pub fn domain_of(epoch: u64, purpose: Domain, fork: &Fork) -> (tag: u64)
    ensures
        tag == spec_domain_of(epoch as int, purpose, *fork),
{
    let version: u32 = if epoch >= fork.epoch {
        fork.current_version
    } else {
        fork.previous_version
    };
    let purpose_tag: u64 = match purpose {
        Domain::BeaconProposer => 0,
        Domain::Attestation => 1,
        Domain::Deposit => 2,
        Domain::VoluntaryExit => 3,
        Domain::Transfer => 4,
    };
    purpose_tag * VERSION_SPAN + (version as u64)
}

/// Domain tags separate contexts: two tags agree only when both the purpose
/// and the chosen fork version agree. A signature context is therefore bound
/// to its operation type and to its side of every fork boundary.
pub proof fn lemma_domain_tag_injective(
    epoch_1: int,
    purpose_1: Domain,
    fork_1: Fork,
    epoch_2: int,
    purpose_2: Domain,
    fork_2: Fork,
)
    requires
        purpose_1 != purpose_2 || spec_fork_version(fork_1, epoch_1) != spec_fork_version(
            fork_2,
            epoch_2,
        ),
    ensures
        spec_domain_of(epoch_1, purpose_1, fork_1) != spec_domain_of(epoch_2, purpose_2, fork_2),
{
}

} // verus!
