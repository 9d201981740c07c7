//! Deterministic account addresses.
//!
//! Every record sits at an address derived from the program's identity and a
//! list of seeds, so that any client can compute where a record lives. The
//! derivation itself is the host's; this module fixes the seeds of the two
//! kinds of record and names what the host derives from them.

use crate::state::{address_by_bytes, Address};
use vstd::bytes::{spec_u64_to_le_bytes, u64_to_le_bytes};
use vstd::prelude::*;

verus! {

/// What the host's search for a program address yields on the given seeds
/// and program identity: the address and the bump that completes the seeds,
/// or nothing where no bump gives an address.
pub uninterp spec fn found_program_address(seeds: Seq<Seq<u8>>, program: Seq<u8>) -> Option<
    (Seq<u8>, u8),
>;

/// What the host derives from the given seeds, bump included, and program
/// identity: the address, or nothing where the seeds give none.
pub uninterp spec fn created_program_address(seeds: Seq<Seq<u8>>, program: Seq<u8>) -> Option<
    Seq<u8>,
>;

/// The byte strings that a list of seeds holds.
pub open spec fn seeds_view(seeds: Seq<&[u8]>) -> Seq<Seq<u8>> {
    Seq::new(seeds.len(), |i: int| seeds[i]@)
}

/// The view of a search result.
pub open spec fn found_view(found: Option<(Address, u8)>) -> Option<(Seq<u8>, u8)> {
    match found {
        Some((address, bump)) => Some((address.bytes@, bump)),
        None => None,
    }
}

/// The view of a derivation result.
pub open spec fn created_view(created: Option<Address>) -> Option<Seq<u8>> {
    match created {
        Some(address) => Some(address.bytes@),
        None => None,
    }
}

/// Calls `Pubkey::try_find_program_address`, on the `Pubkey` that
/// anchor_lang's prelude exports. Trusted, not proved: the result is a
/// function of the seeds and the program identity alone, and an address that
/// the search returns with a bump is the one that
/// `Pubkey::create_program_address` gives for the seeds followed by the
/// one-byte seed that holds that bump.
#[verifier::external_body]
fn find_program_address(seeds: &[&[u8]], program: &[u8; 32]) -> (found: Option<(Address, u8)>)
    ensures
        found_view(found) == found_program_address(seeds_view(seeds@), program@),
        found matches Some((address, bump)) ==> created_program_address(
            seeds_view(seeds@).push(seq![bump]),
            program@,
        ) == Some(address.bytes@),
{
    let program_id = anchor_lang::prelude::Pubkey::new_from_array(*program);
    match anchor_lang::prelude::Pubkey::try_find_program_address(seeds, &program_id) {
        Some((key, bump)) => Some((Address { bytes: key.to_bytes() }, bump)),
        None => None,
    }
}

/// Calls `Pubkey::create_program_address`, on the `Pubkey` that anchor_lang's
/// prelude exports. Trusted, not proved: the result is a function of the
/// seeds and the program identity alone. Each of the host's errors (seeds too
/// many or too long, or seeds that give no address) becomes `None`.
#[verifier::external_body]
fn create_program_address(seeds: &[&[u8]], program: &[u8; 32]) -> (created: Option<Address>)
    ensures
        created_view(created) == created_program_address(seeds_view(seeds@), program@),
{
    let program_id = anchor_lang::prelude::Pubkey::new_from_array(*program);
    match anchor_lang::prelude::Pubkey::create_program_address(seeds, &program_id) {
        Ok(key) => Some(Address { bytes: key.to_bytes() }),
        Err(_) => None,
    }
}

/// The tag that starts the seeds of the global state: `global_state` in ASCII.
pub open spec fn global_state_tag() -> Seq<u8> {
    seq![103u8, 108u8, 111u8, 98u8, 97u8, 108u8, 95u8, 115u8, 116u8, 97u8, 116u8, 101u8]
}

/// The tag that starts the seeds of a gift card: `giftcard` in ASCII.
pub open spec fn giftcard_tag() -> Seq<u8> {
    seq![103u8, 105u8, 102u8, 116u8, 99u8, 97u8, 114u8, 100u8]
}

/// The seeds of the global state, without bump.
pub open spec fn global_state_seeds() -> Seq<Seq<u8>> {
    seq![global_state_tag()]
}

/// The seeds of the gift card that `creator` made with `seed`, without bump:
/// the tag, the creator's identity, and the seed in little-endian bytes.
pub open spec fn giftcard_seeds(creator: Address, seed: u64) -> Seq<Seq<u8>> {
    seq![giftcard_tag(), creator.bytes@, spec_u64_to_le_bytes(seed)]
}

/// What the search for the global state's address under `program` yields.
pub open spec fn global_state_address(program: Address) -> Option<(Seq<u8>, u8)> {
    found_program_address(global_state_seeds(), program.bytes@)
}

/// What the search yields, under `program`, for the address of the gift card
/// that `creator` makes with `seed`.
pub open spec fn giftcard_address(program: Address, creator: Address, seed: u64) -> Option<
    (Seq<u8>, u8),
> {
    found_program_address(giftcard_seeds(creator, seed), program.bytes@)
}

/// Whether `key` is what the stored `creator`, `seed` and `bump` of a gift
/// card derive under `program`.
pub open spec fn rederives_giftcard(
    program: Address,
    creator: Address,
    seed: u64,
    bump: u8,
    key: Address,
) -> bool {
    created_program_address(
        giftcard_seeds(creator, seed).push(seq![bump]),
        program.bytes@,
    ) == Some(key.bytes@)
}

fn global_state_tag_bytes() -> (tag: Vec<u8>)
    ensures
        tag@ == global_state_tag(),
{
    let tag: Vec<u8> = vec![
        103u8, 108u8, 111u8, 98u8, 97u8, 108u8, 95u8, 115u8, 116u8, 97u8, 116u8, 101u8,
    ];
    assert(tag@ =~= global_state_tag());
    tag
}

fn giftcard_tag_bytes() -> (tag: Vec<u8>)
    ensures
        tag@ == giftcard_tag(),
{
    let tag: Vec<u8> = vec![103u8, 105u8, 102u8, 116u8, 99u8, 97u8, 114u8, 100u8];
    assert(tag@ =~= giftcard_tag());
    tag
}

/// Searches the global state's address under `program`. Returns the address
/// and its bump, or `None` where the host finds none.
pub fn find_global_state_address(program: &Address) -> (found: Option<(Address, u8)>)
    ensures
        found_view(found) == global_state_address(*program),
{
    let tag = global_state_tag_bytes();
    let mut seeds: Vec<&[u8]> = Vec::new();
    seeds.push(tag.as_slice());
    assert(seeds_view(seeds@) =~= global_state_seeds());
    find_program_address(seeds.as_slice(), &program.bytes)
}

/// Searches, under `program`, the address of the gift card that `creator`
/// makes with `seed`. Returns the address and its bump, or `None` where the
/// host finds none. An address that is returned is also what the seeds and
/// the bump derive again.
pub fn find_giftcard_address(program: &Address, creator: &Address, seed: u64) -> (found: Option<
    (Address, u8),
>)
    ensures
        found_view(found) == giftcard_address(*program, *creator, seed),
        found matches Some((key, bump)) ==> rederives_giftcard(
            *program,
            *creator,
            seed,
            bump,
            key,
        ),
{
    let tag = giftcard_tag_bytes();
    let seed_bytes = u64_to_le_bytes(seed);
    let mut seeds: Vec<&[u8]> = Vec::new();
    seeds.push(tag.as_slice());
    seeds.push(creator.bytes.as_slice());
    seeds.push(seed_bytes.as_slice());
    assert(seeds_view(seeds@) =~= giftcard_seeds(*creator, seed));
    find_program_address(seeds.as_slice(), &program.bytes)
}

/// Whether `key` is the address that a gift card's stored `creator`, `seed`
/// and `bump` derive under `program`.
pub fn rederive_giftcard_address(
    program: &Address,
    creator: &Address,
    seed: u64,
    bump: u8,
    key: &Address,
) -> (canonical: bool)
    ensures
        canonical == rederives_giftcard(*program, *creator, seed, bump, *key),
{
    let tag = giftcard_tag_bytes();
    let seed_bytes = u64_to_le_bytes(seed);
    let bump_seed: Vec<u8> = vec![bump];
    assert(bump_seed@ =~= seq![bump]);
    let mut seeds: Vec<&[u8]> = Vec::new();
    seeds.push(tag.as_slice());
    seeds.push(creator.bytes.as_slice());
    seeds.push(seed_bytes.as_slice());
    seeds.push(bump_seed.as_slice());
    assert(seeds_view(seeds@) =~= giftcard_seeds(*creator, seed).push(seq![bump]));
    match create_program_address(seeds.as_slice(), &program.bytes) {
        Some(derived) => {
            proof {
                address_by_bytes(derived, *key);
            }
            derived.equals(key)
        },
        None => false,
    }
}

} // verus!
