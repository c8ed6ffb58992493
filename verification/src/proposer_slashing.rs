//! Proposer-slashing verification: deciding whether a claimed equivocation
//! (two conflicting signed block headers from one proposer) is valid to be
//! included in a block at the current epoch of the given state.

use crate::config::ChainSpec;
use crate::config::epoch_of;
use crate::config::spec_epoch_of;
use crate::domain::Domain;
use crate::domain::Fork;
use crate::domain::domain_of;
use crate::domain::spec_domain_of;
use crate::signature::Signature;
use crate::signature::SigningRoot;
use crate::signature::signature_verifies;
use crate::signature::spec_signature_verifies;
use crate::state::BeaconState;
use vstd::prelude::*;

verus! {

/// A signed block header: the statement a proposer signs for one slot.
///
/// Two headers are identical only when every field matches, the signature
/// included; the same content under two different signatures is still two
/// distinct headers.
#[derive(Clone, Copy, PartialEq, Eq, Structural, Debug)]
pub struct BeaconBlockHeader {
    /// The slot the header claims.
    pub slot: u64,
    /// Root of the parent block.
    pub parent_root: u64,
    /// Root of the state the header commits to.
    pub state_root: u64,
    /// Root of the block body.
    pub body_root: u64,
    /// The proposer's signature over the other four fields.
    pub signature: Signature,
}

impl BeaconBlockHeader {
    /// The canonical signing message of this header: every field except the
    /// signature itself.
    pub open spec fn spec_signed_root(self) -> SigningRoot {
        SigningRoot {
            slot: self.slot,
            parent_root: self.parent_root,
            state_root: self.state_root,
            body_root: self.body_root,
        }
    }

    /// Extract the canonical signing message of this header.
    pub fn signed_root(&self) -> (root: SigningRoot)
        ensures
            root == self.spec_signed_root(),
    {
        SigningRoot {
            slot: self.slot,
            parent_root: self.parent_root,
            state_root: self.state_root,
            body_root: self.body_root,
        }
    }
}

/// A proposer-slashing proof: a claimed equivocation by the validator at
/// `proposer_index`, evidenced by two signed headers. Untrusted, ephemeral
/// input: built by an observer, carried inside a block body, consumed once.
#[derive(Clone, Copy, PartialEq, Eq, Structural, Debug)]
pub struct ProposerSlashing {
    /// Index of the accused proposer in the validator registry.
    pub proposer_index: u64,
    /// The first signed header.
    pub header_1: BeaconBlockHeader,
    /// The second signed header.
    pub header_2: BeaconBlockHeader,
}

/// The closed set of reasons a proposer-slashing proof is rejected, each
/// carrying the data needed to diagnose it.
#[derive(Clone, Copy, PartialEq, Eq, Structural, Debug)]
pub enum ProposerSlashingInvalid {
    /// The proposer index did not resolve to a registry entry; carries the
    /// offending index.
    ProposerUnknown(u64),
    /// The two headers' slots map to different epochs; carries both slots.
    ProposalEpochMismatch(u64, u64),
    /// The two headers are identical in every field, the signature included:
    /// one statement replayed twice is not evidence of equivocation.
    ProposalsIdentical,
    /// The accused validator is not slashable at the state's current epoch;
    /// carries the index.
    ProposerNotSlashable(u64),
    /// The first header's signature failed verification.
    BadProposal1Signature,
    /// The second header's signature failed verification.
    BadProposal2Signature,
}

/// Whether `header`'s signature verifies for `pubkey`: the message is the
/// header's canonical signing message, the domain tag is derived from the
/// epoch of the header's own slot, the block-proposal purpose, and `fork`.
pub open spec fn spec_header_signature_valid(
    header: BeaconBlockHeader,
    pubkey: u64,
    fork: Fork,
    chain_spec: ChainSpec,
) -> bool {
    spec_signature_verifies(
        header.signature,
        header.spec_signed_root(),
        spec_domain_of(
            spec_epoch_of(header.slot, chain_spec.slots_per_epoch),
            Domain::BeaconProposer,
            fork,
        ),
        pubkey,
    )
}

/// Header signature verifier: composes canonical-message extraction, domain
/// derivation and the signature check into one boolean answer.
///
/// Returns `false` on any verification failure; it never fails itself.
pub fn verify_header_signature(
    header: &BeaconBlockHeader,
    pubkey: u64,
    fork: &Fork,
    chain_spec: &ChainSpec,
) -> (valid: bool)
    requires
        chain_spec.is_valid(),
    ensures
        valid == spec_header_signature_valid(*header, pubkey, *fork, *chain_spec),
{
    let message = header.signed_root();
    let domain: u64 = domain_of(epoch_of(header.slot, chain_spec), Domain::BeaconProposer, fork);
    signature_verifies(&header.signature, &message, domain, pubkey)
}

/// The outcome of proposer-slashing verification, as a function of the
/// proof, the state and the constants alone. The checks run cheapest first
/// and short-circuit, so each input maps to exactly one named rejection or
/// to acceptance:
///
/// 1. the proposer index must resolve in the registry;
/// 2. both headers' slots must map to the same epoch;
/// 3. the headers must not be identical in every field;
/// 4. the proposer must be slashable at the state's current epoch;
/// 5. the first header's signature must verify;
/// 6. the second header's signature must verify.
pub open spec fn spec_verify_proposer_slashing(
    proposer_slashing: ProposerSlashing,
    state: BeaconState,
    chain_spec: ChainSpec,
) -> Result<(), ProposerSlashingInvalid> {
    let index = proposer_slashing.proposer_index;
    let header_1 = proposer_slashing.header_1;
    let header_2 = proposer_slashing.header_2;
    if index >= state.validator_registry@.len() {
        Err(ProposerSlashingInvalid::ProposerUnknown(index))
    } else {
        let proposer = state.validator_registry@[index as int];
        if spec_epoch_of(header_1.slot, chain_spec.slots_per_epoch) != spec_epoch_of(
            header_2.slot,
            chain_spec.slots_per_epoch,
        ) {
            Err(ProposerSlashingInvalid::ProposalEpochMismatch(header_1.slot, header_2.slot))
        } else if header_1 == header_2 {
            Err(ProposerSlashingInvalid::ProposalsIdentical)
        } else if !proposer.spec_slashable_at(state.current_epoch) {
            Err(ProposerSlashingInvalid::ProposerNotSlashable(index))
        } else if !spec_header_signature_valid(header_1, proposer.pubkey, state.fork, chain_spec) {
            Err(ProposerSlashingInvalid::BadProposal1Signature)
        } else if !spec_header_signature_valid(header_2, proposer.pubkey, state.fork, chain_spec) {
            Err(ProposerSlashingInvalid::BadProposal2Signature)
        } else {
            Ok(())
        }
    }
}

/// Decides whether a proposer-slashing proof is valid to be included in a
/// block in the current epoch of the given state.
///
/// Returns `Ok(())` exactly when every check of
/// `spec_verify_proposer_slashing` passes, and otherwise the first named
/// rejection in that fixed order. Pure: the state is only read, and the
/// outcome is a function of the arguments alone.
pub fn verify_proposer_slashing(
    proposer_slashing: &ProposerSlashing,
    state: &BeaconState,
    chain_spec: &ChainSpec,
) -> (result: Result<(), ProposerSlashingInvalid>)
    requires
        chain_spec.is_valid(),
    ensures
        result == spec_verify_proposer_slashing(*proposer_slashing, *state, *chain_spec),
{
    let proposer = match state.get_validator(proposer_slashing.proposer_index) {
        Some(validator) => validator,
        None => {
            return Err(ProposerSlashingInvalid::ProposerUnknown(proposer_slashing.proposer_index));
        },
    };

    let epoch_1: u64 = epoch_of(proposer_slashing.header_1.slot, chain_spec);
    let epoch_2: u64 = epoch_of(proposer_slashing.header_2.slot, chain_spec);
    if epoch_1 != epoch_2 {
        return Err(ProposerSlashingInvalid::ProposalEpochMismatch(
            proposer_slashing.header_1.slot,
            proposer_slashing.header_2.slot,
        ));
    }

    if proposer_slashing.header_1 == proposer_slashing.header_2 {
        return Err(ProposerSlashingInvalid::ProposalsIdentical);
    }

    if !proposer.is_slashable_at(state.current_epoch) {
        return Err(ProposerSlashingInvalid::ProposerNotSlashable(
            proposer_slashing.proposer_index,
        ));
    }

    if !verify_header_signature(
        &proposer_slashing.header_1,
        proposer.pubkey,
        &state.fork,
        chain_spec,
    ) {
        return Err(ProposerSlashingInvalid::BadProposal1Signature);
    }
    if !verify_header_signature(
        &proposer_slashing.header_2,
        proposer.pubkey,
        &state.fork,
        chain_spec,
    ) {
        return Err(ProposerSlashingInvalid::BadProposal2Signature);
    }

    Ok(())
}

/// Determinism: the outcome of verification is a function of the proof, the
/// state and the constants alone, so any two runs over the same inputs
/// return the identical result.
pub proof fn lemma_verification_deterministic(
    result_1: Result<(), ProposerSlashingInvalid>,
    result_2: Result<(), ProposerSlashingInvalid>,
    proposer_slashing: ProposerSlashing,
    state: BeaconState,
    chain_spec: ChainSpec,
)
    requires
        result_1 == spec_verify_proposer_slashing(proposer_slashing, state, chain_spec),
        result_2 == spec_verify_proposer_slashing(proposer_slashing, state, chain_spec),
    ensures
        result_1 == result_2,
{
}

/// Identical headers are always rejected as `ProposalsIdentical`: whenever
/// the proposer index resolves, two bit-for-bit equal headers cannot reach a
/// later check — equal headers share a slot, hence an epoch, so the only
/// checks ahead of the identity check pass. This holds even when the
/// proposer is fully slashable and both signatures would verify.
pub proof fn lemma_identical_headers_rejected(
    proposer_slashing: ProposerSlashing,
    state: BeaconState,
    chain_spec: ChainSpec,
)
    requires
        chain_spec.is_valid(),
        proposer_slashing.proposer_index < state.validator_registry@.len(),
        proposer_slashing.header_1 == proposer_slashing.header_2,
    ensures
        spec_verify_proposer_slashing(proposer_slashing, state, chain_spec) == Err::<
            (),
            ProposerSlashingInvalid,
        >(ProposerSlashingInvalid::ProposalsIdentical),
{
}

} // verus!
