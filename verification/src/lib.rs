//! State-transition validation core for a proof-of-stake chain client:
//! the logic that decides whether an operation carried inside a proposed
//! block is legal before it may touch canonical chain state.
//!
//! The exemplar validator is proposer-slashing verification: given a claimed
//! equivocation (two conflicting signed block headers attributed to one
//! proposer), accept or reject it deterministically using only the current
//! chain state and the protocol constants. Every check is a pure function of
//! its inputs, stated in a contract and proved; untrusted input is always
//! answered with a named rejection, never a panic.

use vstd::prelude::*;

mod config;
mod domain;
mod proposer_slashing;
mod signature;
mod state;

verus! {

pub use config::ChainSpec;
pub use config::epoch_of;
pub use config::spec_epoch_of;
pub use domain::Domain;
pub use domain::Fork;
pub use domain::VERSION_SPAN;
pub use domain::domain_of;
pub use domain::lemma_domain_tag_injective;
pub use domain::spec_domain_of;
pub use domain::spec_fork_version;
pub use domain::spec_purpose_tag;
pub use proposer_slashing::BeaconBlockHeader;
pub use proposer_slashing::ProposerSlashing;
pub use proposer_slashing::ProposerSlashingInvalid;
pub use proposer_slashing::lemma_identical_headers_rejected;
pub use proposer_slashing::lemma_verification_deterministic;
pub use proposer_slashing::spec_header_signature_valid;
pub use proposer_slashing::spec_verify_proposer_slashing;
pub use proposer_slashing::verify_header_signature;
pub use proposer_slashing::verify_proposer_slashing;
pub use signature::Signature;
pub use signature::SigningRoot;
pub use signature::lemma_domain_separation;
pub use signature::sign;
pub use signature::signature_verifies;
pub use signature::spec_signature_verifies;
pub use state::BeaconState;
pub use state::Validator;
pub use state::lemma_slashability_boundary;

} // verus!
