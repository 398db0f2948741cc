//! The addresses derived for the pool and for each position.
use crate::pubkey::{lemma_key_is_its_bytes, Pubkey};
use vstd::bytes::*;
use vstd::prelude::*;

verus! {

/// The bytes of `pool_v3`.
pub const POOL_SEED: [u8; 7] = [112, 111, 111, 108, 95, 118, 51];

/// The bytes of `staker`.
pub const STAKER_SEED: [u8; 6] = [115, 116, 97, 107, 101, 114];

/// The address of the program: `8mdqFh7gtdZb2jpUtzoQRFwmjbGE3KAfzq3TqEJxknMt` in base 58.
pub const PROGRAM_ID: [u8; 32] = [
    115, 113, 2, 150, 84, 252, 18, 209, 40, 136, 155, 12, 147, 146, 53, 7, 245, 38, 201, 161, 110,
    118, 210, 197, 138, 252, 241, 33, 59, 141, 118, 23,
];

/// The seeds of the pool's address.
pub open spec fn pool_seeds() -> Seq<Seq<u8>> {
    seq![POOL_SEED@]
}

/// The seeds of the address of the position `position_id` of `owner`.
pub open spec fn staker_seeds(owner: Pubkey, position_id: u64) -> Seq<Seq<u8>> {
    seq![STAKER_SEED@, owner.bytes@, spec_u64_to_le_bytes(position_id)]
}

/// The contents of each of the slices.
pub open spec fn contents(parts: Seq<&[u8]>) -> Seq<Seq<u8>> {
    Seq::new(parts.len(), |i: int| parts[i]@)
}

/// What `Pubkey::try_find_program_address` finds for these seeds and this program: an address that
/// no private key has, with the bump seed that it took, or nothing.
pub uninterp spec fn program_address(seeds: Seq<Seq<u8>>, program: Seq<u8>) -> Option<
    (Seq<u8>, u8),
>;

/// The address and the bump in terms of bytes.
pub open spec fn found_bytes(found: Option<(Pubkey, u8)>) -> Option<(Seq<u8>, u8)> {
    match found {
        Some((address, bump)) => Some((address.bytes@, bump)),
        None => None,
    }
}

/// Calls `anchor_lang::prelude::Pubkey::try_find_program_address`, and claims of it that what it
/// finds depends on the seeds and the program alone.
#[verifier::external_body]
fn try_find_program_address(seeds: &[&[u8]], program: &Pubkey) -> (found: Option<(Pubkey, u8)>)
    ensures
        found_bytes(found) == program_address(contents(seeds@), program.bytes@),
{
    let program = anchor_lang::prelude::Pubkey::new_from_array(program.bytes);
    match anchor_lang::prelude::Pubkey::try_find_program_address(seeds, &program) {
        Some((address, bump)) => Some((Pubkey { bytes: address.to_bytes() }, bump)),
        None => None,
    }
}

/// The address of the program.
pub fn program_id() -> (id: Pubkey)
    ensures
        id.bytes == PROGRAM_ID,
{
    Pubkey { bytes: PROGRAM_ID }
}

/// The address of the pool, with its bump seed.
pub fn pool_address() -> (found: Option<(Pubkey, u8)>)
    ensures
        found_bytes(found) == program_address(pool_seeds(), PROGRAM_ID@),
{
    let pool_seed: [u8; 7] = POOL_SEED;
    let seeds: [&[u8]; 1] = [pool_seed.as_slice()];
    let found = try_find_program_address(seeds.as_slice(), &program_id());
    assert(contents(seeds@) =~= pool_seeds());
    found
}

/// The address of the position `position_id` of `owner`, with its bump seed.
pub fn staker_address(owner: &Pubkey, position_id: u64) -> (found: Option<(Pubkey, u8)>)
    ensures
        found_bytes(found) == program_address(staker_seeds(*owner, position_id), PROGRAM_ID@),
{
    let staker_seed: [u8; 6] = STAKER_SEED;
    let number: Vec<u8> = u64_to_le_bytes(position_id);
    let seeds: [&[u8]; 3] = [staker_seed.as_slice(), owner.bytes.as_slice(), number.as_slice()];
    let found = try_find_program_address(seeds.as_slice(), &program_id());
    assert(contents(seeds@) =~= staker_seeds(*owner, position_id));
    found
}

/// The seeds with which the pool signs, where `bump` is the bump seed of its address.
pub fn pool_signer_seeds(bump: u8) -> (seeds: ([u8; 7], [u8; 1]))
    ensures
        seeds.0 == POOL_SEED,
        seeds.1@ == seq![bump],
{
    (POOL_SEED, [bump])
}

/// The seeds one after the other, as they are hashed.
pub open spec fn joined(seeds: Seq<Seq<u8>>) -> Seq<u8>
    decreases seeds.len(),
{
    if seeds.len() == 0 {
        Seq::empty()
    } else {
        joined(seeds.drop_last()) + seeds.last()
    }
}

/// No two positions share the bytes that their addresses are derived from: neither two positions of
/// one owner nor positions of two owners. Nor does a position share them with the pool.
pub proof fn law_seeds_tell_positions_apart(
    owner: Pubkey,
    position_id: u64,
    other_owner: Pubkey,
    other_position_id: u64,
)
    ensures
        joined(staker_seeds(owner, position_id)) == joined(
            staker_seeds(other_owner, other_position_id),
        ) <==> owner == other_owner && position_id == other_position_id,
        joined(staker_seeds(owner, position_id)) != joined(pool_seeds()),
{
    lemma_joined_staker_seeds(owner, position_id);
    lemma_joined_staker_seeds(other_owner, other_position_id);
    lemma_auto_spec_u64_to_from_le_bytes();
    let one = joined(staker_seeds(owner, position_id));
    let other = joined(staker_seeds(other_owner, other_position_id));
    if one == other {
        assert(one.subrange(6, 38) =~= owner.bytes@);
        assert(other.subrange(6, 38) =~= other_owner.bytes@);
        lemma_key_is_its_bytes(owner, other_owner);
        assert(one.subrange(38, 46) =~= spec_u64_to_le_bytes(position_id));
        assert(other.subrange(38, 46) =~= spec_u64_to_le_bytes(other_position_id));
    }
    assert(joined(pool_seeds()).len() == 7) by {
        reveal_with_fuel(joined, 2);
    }
}

proof fn lemma_joined_staker_seeds(owner: Pubkey, position_id: u64)
    ensures
        joined(staker_seeds(owner, position_id)) == STAKER_SEED@ + owner.bytes@
            + spec_u64_to_le_bytes(position_id),
{
    let seeds = staker_seeds(owner, position_id);
    let two = seeds.drop_last();
    let one = two.drop_last();
    assert(joined(one) =~= STAKER_SEED@) by {
        reveal_with_fuel(joined, 2);
    }
    assert(joined(two) =~= STAKER_SEED@ + owner.bytes@);
}

} // verus!
