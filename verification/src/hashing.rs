//! Derivation of a kitty's identifier from a random draw.

use frame_support::sp_runtime::traits::BlakeTwo256;
use vstd::prelude::*;

use crate::types::{AccountId, BlockNumber, Dna};

verus! {

/// The identifier that a random draw, the block it was made in and the
/// minter's account give: the Blake2 256-bit hash of the three, encoded one
/// after the other.
pub uninterp spec fn dna_of(random: Seq<u8>, block_number: BlockNumber, minter: AccountId) -> Dna;

/// `BlakeTwo256::hash_of` on the triple of draw, block number and minter. The
/// hash is a function of the three values alone.
#[verifier::external_body]
pub(crate) fn gen_dna(random: &Dna, block_number: BlockNumber, minter: AccountId) -> (dna: Dna)
    ensures
        dna == dna_of(random@, block_number, minter),
{
    let output = <BlakeTwo256 as frame_support::sp_runtime::traits::Hash>::Output::from(*random);
    let payload = (output, block_number, &minter);
    <BlakeTwo256 as frame_support::sp_runtime::traits::Hash>::hash_of(&payload).to_fixed_bytes()
}

} // verus!
