//! Commitments to a move: the SHA-256 digest of the move's tag byte followed
//! by a 32-byte salt.
use vstd::prelude::*;
use crate::identity::bytes32_eq;
use crate::state::Move;

verus! {

/// The SHA-256 digest of a byte string, as a sequence of 32 bytes.
pub uninterp spec fn sha256_digest(data: Seq<u8>) -> Seq<u8>;

/// Calls `anchor_lang::solana_program::hash::hash` and takes the 32 bytes of
/// the `Hash` it returns. The digest is a function of the input bytes alone;
/// the contract names it `sha256_digest` and states nothing else about it.
#[verifier::external_body]
pub(crate) fn sha256(data: &[u8]) -> (digest: [u8; 32])
    ensures
        digest@ == sha256_digest(data@),
{
    anchor_lang::solana_program::hash::hash(data).to_bytes()
}

/// The bytes that are hashed for a move and a salt: the tag, then the salt.
pub open spec fn commit_preimage(move_choice: Move, salt: Seq<u8>) -> Seq<u8> {
    seq![move_choice.tag()] + salt
}

/// The digest that commits to a move under a salt.
pub open spec fn commitment_of(move_choice: Move, salt: Seq<u8>) -> Seq<u8> {
    sha256_digest(commit_preimage(move_choice, salt))
}

/// Whether a commitment is stored and is the digest `computed`.
pub open spec fn commitment_is(stored: Option<[u8; 32]>, computed: Seq<u8>) -> bool {
    stored matches Some(digest) && digest@ == computed
}

/// Whether a commitment `stored` is opened by `move_choice` and `salt`.
pub open spec fn opens(stored: Option<[u8; 32]>, move_choice: Move, salt: Seq<u8>) -> bool {
    commitment_is(stored, commitment_of(move_choice, salt))
}

/// The bytes that are hashed for a move and a salt: the move's tag, then the
/// salt.
pub fn commitment_preimage(move_choice: Move, salt: &[u8; 32]) -> (move_data: Vec<u8>)
    ensures
        move_data@ == commit_preimage(move_choice, salt@),
{
    let mut move_data: Vec<u8> = Vec::with_capacity(33);
    move_data.push(move_choice.to_tag());
    let mut i: usize = 0;
    while i < 32
        invariant
            i <= 32,
            move_data@ == seq![move_choice.tag()] + salt@.subrange(0, i as int),
        decreases 32 - i,
    {
        move_data.push(salt[i]);
        i += 1;
        assert(move_data@ =~= seq![move_choice.tag()] + salt@.subrange(0, i as int));
    }
    assert(salt@.subrange(0, 32) =~= salt@);
    move_data
}

/// Computes the digest a player submits to commit to `move_choice` under
/// `salt`.
pub fn compute_commitment(move_choice: Move, salt: &[u8; 32]) -> (digest: [u8; 32])
    ensures
        digest@ == commitment_of(move_choice, salt@),
{
    let move_data: Vec<u8> = commitment_preimage(move_choice, salt);
    sha256(move_data.as_slice())
}

/// Whether `move_choice` and `salt` open the commitment `stored`.
pub fn verify_reveal(move_choice: Move, salt: &[u8; 32], stored: &[u8; 32]) -> (matches: bool)
    ensures
        matches == opens(Some(*stored), move_choice, salt@),
        matches == (commitment_of(move_choice, salt@) == stored@),
{
    let computed = compute_commitment(move_choice, salt);
    bytes32_eq(&computed, stored)
}

} // verus!
