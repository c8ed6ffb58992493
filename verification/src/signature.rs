//! The signing-message and signature model this core verifies against.
//!
//! The raw signature arithmetic (pairing checks, key aggregation) is outside
//! this core; all the validation logic relies on is that verification is a
//! deterministic predicate binding a signature to exactly one
//! (message, domain tag, public key) triple. The model below carries that
//! triple as plain values: `sign` produces a signature naming its context,
//! `signature_verifies` compares the context it was produced for with the
//! context it is checked in, and nothing else about a signature is ever read.

use crate::domain::Domain;
use crate::domain::Fork;
use crate::domain::spec_domain_of;
use crate::domain::spec_fork_version;
use crate::domain::lemma_domain_tag_injective;
use vstd::prelude::*;

verus! {

/// The canonical signing message of a block header: every header field
/// except the signature itself, kept as the fields themselves — the ideal
/// injective digest. Two headers have equal signing messages exactly when
/// all their non-signature fields are equal.
#[derive(Clone, Copy, PartialEq, Eq, Structural, Debug)]
pub struct SigningRoot {
    /// The slot the header claims.
    pub slot: u64,
    /// Root of the parent block.
    pub parent_root: u64,
    /// Root of the state the header commits to.
    pub state_root: u64,
    /// Root of the block body.
    pub body_root: u64,
}

/// A signature over a canonical signing message.
///
/// A value of this type names the (message, domain tag, public key) context
/// it was produced for; verification succeeds exactly when that context
/// matches the one it is checked in. A forged or replayed signature is any
/// value whose recorded context differs from the checked one.
#[derive(Clone, Copy, PartialEq, Eq, Structural, Debug)]
pub struct Signature {
    /// The message the signature was produced over.
    pub signed_message: SigningRoot,
    /// The domain tag the signature was produced under.
    pub domain: u64,
    /// The public key of the signer.
    pub signer: u64,
}

/// When a signature passes verification: its recorded context is exactly the
/// (message, domain, key) triple it is being checked against.
pub open spec fn spec_signature_verifies(
    signature: Signature,
    message: SigningRoot,
    domain: u64,
    pubkey: u64,
) -> bool {
    &&& signature.signed_message == message
    &&& signature.domain == domain
    &&& signature.signer == pubkey
}

/// Produce a signature over `message` under `domain` for the key `pubkey`.
pub fn sign(message: &SigningRoot, domain: u64, pubkey: u64) -> (signature: Signature)
    ensures
        spec_signature_verifies(signature, *message, domain, pubkey),
{
    Signature { signed_message: *message, domain, signer: pubkey }
}

/// Signature verification: a deterministic check of `signature` against the
/// given message, domain tag and public key.
pub fn signature_verifies(
    signature: &Signature,
    message: &SigningRoot,
    domain: u64,
    pubkey: u64,
) -> (valid: bool)
    ensures
        valid == spec_signature_verifies(*signature, *message, domain, pubkey),
{
    let message_matches: bool = signature.signed_message == *message;
    message_matches && signature.domain == domain && signature.signer == pubkey
}

/// Domain separation: a signature that verifies under the domain tag derived
/// for one (purpose, fork version) context fails verification under the tag
/// of any other purpose or any other fork version — whatever message and key
/// it is checked against there.
pub proof fn lemma_domain_separation(
    signature: Signature,
    message: SigningRoot,
    pubkey: u64,
    epoch_1: int,
    purpose_1: Domain,
    fork_1: Fork,
    epoch_2: int,
    purpose_2: Domain,
    fork_2: Fork,
)
    requires
        spec_signature_verifies(signature, message, spec_domain_of(epoch_1, purpose_1, fork_1), pubkey),
        purpose_1 != purpose_2 || spec_fork_version(fork_1, epoch_1) != spec_fork_version(
            fork_2,
            epoch_2,
        ),
    ensures
        forall|other_message: SigningRoot, other_key: u64|
            !spec_signature_verifies(
                signature,
                other_message,
                spec_domain_of(epoch_2, purpose_2, fork_2),
                other_key,
            ),
{
    lemma_domain_tag_injective(epoch_1, purpose_1, fork_1, epoch_2, purpose_2, fork_2);
}

} // verus!
