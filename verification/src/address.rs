//! Deterministic addresses for boxes and vote records.
//!
//! An address is derived from a list of byte strings (the seeds) and the
//! program's identity. The derivation itself is the ledger platform's; this
//! module fixes the seeds of each kind of record.

use crate::state::Key;
use anchor_lang::prelude::Pubkey;
use vstd::prelude::*;
use vstd::string::StringSliceAdditionalSpecFns;
use vstd::string::StrSliceExecFns;
use vstd::utf8::encode_utf8;

verus! {

/// What `Pubkey::try_find_program_address` returns for these seeds and this
/// program: the address and the bump seed that gave it, or nothing.
pub uninterp spec fn found_program_address(seeds: Seq<Seq<u8>>, program_id: Seq<u8>) -> Option<
    (Seq<u8>, u8),
>;

/// What `Pubkey::create_program_address` returns for these seeds and this
/// program: the address, or nothing where it reports an error.
pub uninterp spec fn created_program_address(seeds: Seq<Seq<u8>>, program_id: Seq<u8>) -> Option<
    Seq<u8>,
>;

/// The seeds that a list of byte vectors holds.
pub open spec fn seed_views(seeds: Seq<Vec<u8>>) -> Seq<Seq<u8>> {
    seeds.map_values(|seed: Vec<u8>| seed@)
}

/// Whether one of the seeds is longer than the 32 bytes that the platform
/// takes.
pub open spec fn has_long_seed(seeds: Seq<Seq<u8>>) -> bool {
    exists|i: int| 0 <= i < seeds.len() && (#[trigger] seeds[i]).len() > 32
}

/// Calls `Pubkey::try_find_program_address`. Trusted: the result is the one
/// that the platform's derivation gives for these seeds and this program, and
/// depends on nothing else; an address that it finds is the one that
/// `Pubkey::create_program_address` gives for the same seeds followed by the
/// bump seed, since the search returns what that function returned; and it
/// finds nothing where a seed is longer than 32 bytes.
#[verifier::external_body]
fn find_program_address(seeds: &Vec<Vec<u8>>, program_id: &Key) -> (found: Option<(Key, u8)>)
    ensures
        match found {
            Some((address, bump)) => found_program_address(seed_views(seeds@), program_id@)
                == Some((address@, bump)),
            None => found_program_address(seed_views(seeds@), program_id@) is None,
        },
        found matches Some((address, bump)) ==> created_program_address(
            seed_views(seeds@).push(seq![bump]),
            program_id@,
        ) == Some(address@),
        has_long_seed(seed_views(seeds@)) ==> found is None,
{
    let mut slices: Vec<&[u8]> = Vec::new();
    for seed in seeds.iter() {
        slices.push(seed.as_slice());
    }
    match Pubkey::try_find_program_address(&slices, &Pubkey::new_from_array(program_id.bytes)) {
        Some((address, bump)) => Some((Key { bytes: address.to_bytes() }, bump)),
        None => None,
    }
}

/// Calls `Pubkey::create_program_address`. Trusted: the result is the one that
/// the platform's derivation gives for these seeds and this program, with an
/// error of the platform mapped to `None`, and depends on nothing else; and
/// it reports an error where a seed is longer than 32 bytes.
#[verifier::external_body]
fn create_program_address(seeds: &Vec<Vec<u8>>, program_id: &Key) -> (created: Option<Key>)
    ensures
        match created {
            Some(address) => created_program_address(seed_views(seeds@), program_id@) == Some(
                address@,
            ),
            None => created_program_address(seed_views(seeds@), program_id@) is None,
        },
        has_long_seed(seed_views(seeds@)) ==> created is None,
{
    let mut slices: Vec<&[u8]> = Vec::new();
    for seed in seeds.iter() {
        slices.push(seed.as_slice());
    }
    match Pubkey::create_program_address(&slices, &Pubkey::new_from_array(program_id.bytes)) {
        Ok(address) => Some(Key { bytes: address.to_bytes() }),
        Err(_) => None,
    }
}

/// The bytes of the program's identity.
pub open spec fn program_id_bytes() -> Seq<u8> {
    seq![
        254u8, 228u8, 9u8, 163u8, 72u8, 132u8, 183u8, 44u8, 158u8, 19u8, 191u8, 215u8, 81u8, 91u8,
        103u8, 2u8, 232u8, 168u8, 36u8, 221u8, 75u8, 201u8, 164u8, 122u8, 196u8, 215u8, 120u8,
        215u8, 23u8, 198u8, 130u8, 116u8,
    ]
}

/// The program's identity, under which every address is derived.
pub fn program_id() -> (id: Key)
    ensures
        id@ == program_id_bytes(),
{
    let id = Key {
        bytes: [
            254u8, 228u8, 9u8, 163u8, 72u8, 132u8, 183u8, 44u8, 158u8, 19u8, 191u8, 215u8, 81u8,
            91u8, 103u8, 2u8, 232u8, 168u8, 36u8, 221u8, 75u8, 201u8, 164u8, 122u8, 196u8, 215u8,
            120u8, 215u8, 23u8, 198u8, 130u8, 116u8,
        ],
    };
    assert(id@ =~= program_id_bytes());
    id
}

/// The role tag of a box: the bytes of `box`.
pub open spec fn box_tag() -> Seq<u8> {
    seq![98u8, 111u8, 120u8]
}

/// The role tag of a vote record: the bytes of `vote_record`.
pub open spec fn vote_record_tag() -> Seq<u8> {
    seq![118u8, 111u8, 116u8, 101u8, 95u8, 114u8, 101u8, 99u8, 111u8, 114u8, 100u8]
}

/// The seeds of the box with this reference string.
pub open spec fn box_seeds(ref_id: Seq<char>) -> Seq<Seq<u8>> {
    seq![box_tag(), encode_utf8(ref_id)]
}

/// The seeds of the record of this voter's vote on the box at this address.
pub open spec fn vote_record_seeds(voter: Seq<u8>, box_address: Seq<u8>) -> Seq<Seq<u8>> {
    seq![vote_record_tag(), voter, box_address]
}

/// The address and bump seed of the box with this reference string, if the
/// derivation gives one.
pub open spec fn box_address(ref_id: Seq<char>) -> Option<(Seq<u8>, u8)> {
    found_program_address(box_seeds(ref_id), program_id_bytes())
}

/// The address that this reference string gives with a bump seed supplied by
/// the caller, if the derivation gives one.
pub open spec fn box_address_with_bump(ref_id: Seq<char>, bump: u8) -> Option<Seq<u8>> {
    created_program_address(box_seeds(ref_id).push(seq![bump]), program_id_bytes())
}

/// The address and bump seed of the record of this voter's vote on the box at
/// this address, if the derivation gives one.
pub open spec fn vote_record_address(voter: Seq<u8>, box_address: Seq<u8>) -> Option<
    (Seq<u8>, u8),
> {
    found_program_address(vote_record_seeds(voter, box_address), program_id_bytes())
}

/// The view of an optional address with its bump seed.
pub open spec fn found_view(found: Option<(Key, u8)>) -> Option<(Seq<u8>, u8)> {
    match found {
        Some((address, bump)) => Some((address@, bump)),
        None => None,
    }
}

/// The view of an optional address.
pub open spec fn created_view(created: Option<Key>) -> Option<Seq<u8>> {
    match created {
        Some(address) => Some(address@),
        None => None,
    }
}

fn box_seed_bytes(ref_id: &String) -> (seeds: Vec<Vec<u8>>)
    ensures
        seed_views(seeds@) == box_seeds(ref_id@),
{
    let tag: Vec<u8> = vec![98u8, 111u8, 120u8];
    let key: Vec<u8> = ref_id.as_str().as_bytes_vec();
    let seeds: Vec<Vec<u8>> = vec![tag, key];
    assert(tag@ =~= box_tag());
    assert(seed_views(seeds@) =~= box_seeds(ref_id@));
    seeds
}

/// Derives the address of the box with this reference string, and the bump
/// seed to store with it. The same reference string always gives the same
/// result, and one whose UTF-8 form is longer than 32 bytes gives none.
pub fn derive_box_address(ref_id: &String) -> (found: Option<(Key, u8)>)
    ensures
        found_view(found) == box_address(ref_id@),
        found matches Some((address, bump)) ==> box_address_with_bump(ref_id@, bump) == Some(
            address@,
        ),
        encode_utf8(ref_id@).len() > 32 ==> found is None,
{
    let seeds = box_seed_bytes(ref_id);
    assert(encode_utf8(ref_id@).len() > 32 ==> has_long_seed(seed_views(seeds@))) by {
        assert(seed_views(seeds@)[1] == encode_utf8(ref_id@));
    }
    let id = program_id();
    find_program_address(&seeds, &id)
}

/// Derives the address of the box with this reference string again, from the
/// bump seed that was stored with it.
pub fn rederive_box_address(ref_id: &String, bump: u8) -> (created: Option<Key>)
    ensures
        created_view(created) == box_address_with_bump(ref_id@, bump),
{
    let mut seeds = box_seed_bytes(ref_id);
    let salt: Vec<u8> = vec![bump];
    seeds.push(salt);
    assert(salt@ =~= seq![bump]);
    assert(seed_views(seeds@) =~= box_seeds(ref_id@).push(seq![bump]));
    let id = program_id();
    create_program_address(&seeds, &id)
}

/// Derives the address of the record of this voter's vote on the box at this
/// address, and the bump seed to store with it. The same pair always gives
/// the same result.
pub fn derive_vote_record_address(voter: &Key, box_address: &Key) -> (found: Option<(Key, u8)>)
    ensures
        found_view(found) == vote_record_address(voter@, box_address@),
{
    let tag: Vec<u8> = vec![
        118u8,
        111u8,
        116u8,
        101u8,
        95u8,
        114u8,
        101u8,
        99u8,
        111u8,
        114u8,
        100u8,
    ];
    let seeds: Vec<Vec<u8>> = vec![tag, voter.to_vec(), box_address.to_vec()];
    assert(tag@ =~= vote_record_tag());
    assert(seed_views(seeds@) =~= vote_record_seeds(voter@, box_address@));
    let id = program_id();
    find_program_address(&seeds, &id)
}

} // verus!
