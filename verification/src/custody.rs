//! Escrow custody: what the engine hands to the party that moves the value.
//!
//! The engine holds no key. A withdrawal from a market's escrow is
//! authorised by seeds that are fixed by the market's identity, which the
//! custodian checks against the escrow's address.

use vstd::prelude::*;
use vstd::bytes::{
    lemma_auto_spec_u64_to_from_le_bytes, spec_u64_from_le_bytes, spec_u64_to_le_bytes,
    u64_to_le_bytes,
};
use crate::identity::Identity;

verus! {

/// The constant first seed of every escrow: the ASCII text `market_vault`.
pub open spec fn vault_seed_tag() -> Seq<u8> {
    seq![109u8, 97u8, 114u8, 107u8, 101u8, 116u8, 95u8, 118u8, 97u8, 117u8, 108u8, 116u8]
}

/// The seeds that authorise a withdrawal from the escrow of the market with
/// the given creator and index: the tag, the creator's bytes, the index in
/// little-endian order, and the escrow's bump.
pub open spec fn vault_seeds(creator: Identity, market_index: u64, vault_bump: u8) -> Seq<Seq<u8>> {
    seq![vault_seed_tag(), creator@, spec_u64_to_le_bytes(market_index), seq![vault_bump]]
}

/// Escrows are never shared: markets with the same seeds have the same
/// creator, the same index and the same bump.
pub proof fn lemma_vault_seeds_tell_markets_apart(
    creator: Identity,
    market_index: u64,
    vault_bump: u8,
    other_creator: Identity,
    other_index: u64,
    other_bump: u8,
)
    requires
        vault_seeds(creator, market_index, vault_bump) == vault_seeds(
            other_creator,
            other_index,
            other_bump,
        ),
    ensures
        creator == other_creator,
        market_index == other_index,
        vault_bump == other_bump,
{
    let mine = vault_seeds(creator, market_index, vault_bump);
    let theirs = vault_seeds(other_creator, other_index, other_bump);
    assert(mine[1] == theirs[1]);
    assert(mine[2] == theirs[2]);
    assert(mine[3] == theirs[3]);
    Identity::lemma_view_injective(creator, other_creator);
    lemma_auto_spec_u64_to_from_le_bytes();
    assert(spec_u64_from_le_bytes(spec_u64_to_le_bytes(market_index)) == market_index);
    assert(spec_u64_from_le_bytes(spec_u64_to_le_bytes(other_index)) == other_index);
    assert(seq![vault_bump][0] == seq![other_bump][0]);
}

/// An order to move `amount` from `payer` into a market's escrow.
#[derive(Clone, Copy, Debug, PartialEq, Eq)]
pub struct Deposit {
    pub payer: Identity,
    pub amount: u64,
}

/// An order to pay `amount` out of a market's escrow to `recipient`, with
/// the seeds that authorise it.
#[derive(Clone, Debug, PartialEq, Eq)]
pub struct Withdrawal {
    pub recipient: Identity,
    pub amount: u64,
    pub signer_seeds: Vec<Vec<u8>>,
}

/// Builds the seeds that authorise a withdrawal from a market's escrow.
pub fn vault_signer_seeds(creator: &Identity, market_index: u64, vault_bump: u8) -> (seeds: Vec<
    Vec<u8>,
>)
    ensures
        seeds.deep_view() == vault_seeds(*creator, market_index, vault_bump),
{
    let tag: Vec<u8> = vec![
        109u8, 97u8, 114u8, 107u8, 101u8, 116u8, 95u8, 118u8, 97u8, 117u8, 108u8, 116u8,
    ];
    let mut owner: Vec<u8> = Vec::new();
    let mut i: usize = 0;
    while i < 32
        invariant
            i <= 32,
            owner@ == creator@.subrange(0, i as int),
        decreases 32 - i,
    {
        owner.push(creator.bytes[i]);
        i = i + 1;
    }
    let index: Vec<u8> = u64_to_le_bytes(market_index);
    let bump: Vec<u8> = vec![vault_bump];
    let mut seeds: Vec<Vec<u8>> = Vec::new();
    seeds.push(tag);
    seeds.push(owner);
    seeds.push(index);
    seeds.push(bump);
    proof {
        let want = vault_seeds(*creator, market_index, vault_bump);
        assert(seeds@[0]@ =~= vault_seed_tag());
        assert(seeds@[1]@ =~= creator@);
        assert(seeds@[3]@ =~= seq![vault_bump]);
        assert(seeds.deep_view() =~~= want);
    }
    seeds
}

} // verus!
