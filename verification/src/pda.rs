//! Program-derived addresses: keyless authorities that a program computes
//! from seeds, and that the ledger accepts as delegates and mint authorities.

use crate::address::Address;
use anchor_lang::prelude::Pubkey;
use vstd::prelude::*;
use vstd::string::StrSliceExecFns;
use vstd::string::StringSliceAdditionalSpecFns;

verus! {

/// What the search for a program-derived address yields for `seeds` under
/// `program`: the address together with the bump seed that completes the
/// seeds, or nothing where no bump seed gives one.
pub uninterp spec fn found_program_address(seeds: Seq<Seq<u8>>, program: Seq<u8>) -> Option<
    (Seq<u8>, u8),
>;

/// The address that exactly `seeds` derive under `program`, where they
/// derive one.
pub uninterp spec fn created_program_address(seeds: Seq<Seq<u8>>, program: Seq<u8>) -> Option<
    Seq<u8>,
>;

/// The bytes of each seed of a list.
pub open spec fn seed_bytes(seeds: Seq<Vec<u8>>) -> Seq<Seq<u8>> {
    seeds.map_values(|seed: Vec<u8>| seed@)
}

/// Searches for the program-derived address of `seeds` under `program`.
///
/// Trusted: calls `Pubkey::try_find_program_address`. The result is a
/// function of the seeds and the program alone, and is named
/// `found_program_address`. As the search returns the first bump seed whose
/// completed seeds derive an address, the address returned is the one that
/// the seeds followed by that bump seed derive.
#[verifier::external_body]
pub(crate) fn find_program_address(seeds: &Vec<Vec<u8>>, program: &Address) -> (r: Option<
    (Address, u8),
>)
    ensures
        found_program_address(seed_bytes(seeds@), program@) == match r {
            Some((address, bump)) => Some((address@, bump)),
            None => None,
        },
        r matches Some((address, bump)) ==> created_program_address(
            seed_bytes(seeds@).push(seq![bump]),
            program@,
        ) == Some(address@),
{
    let slices: Vec<&[u8]> = seeds.iter().map(|s| s.as_slice()).collect();
    Pubkey::try_find_program_address(&slices, &Pubkey::new_from_array(program.bytes)).map(
        |(key, bump)| (Address { bytes: key.to_bytes() }, bump),
    )
}

/// Derives the address of `seeds`, bump seed included, under `program`.
///
/// Trusted: calls `Pubkey::create_program_address`. The result is a function
/// of the seeds and the program alone, and is named
/// `created_program_address`; every failure of the call is `None`.
#[verifier::external_body]
pub(crate) fn create_program_address(seeds: &Vec<Vec<u8>>, program: &Address) -> (r: Option<
    Address,
>)
    ensures
        created_program_address(seed_bytes(seeds@), program@) == match r {
            Some(address) => Some(address@),
            None => None,
        },
{
    let slices: Vec<&[u8]> = seeds.iter().map(|s| s.as_slice()).collect();
    Pubkey::create_program_address(&slices, &Pubkey::new_from_array(program.bytes)).ok().map(
        |key| Address { bytes: key.to_bytes() },
    )
}

/// The seeds of the custody delegate of one redemption request: a tag, the
/// requesting user, and the request id in little-endian bytes.
pub open spec fn custody_seeds(user: Address, request_id: u64) -> Seq<Seq<u8>> {
    seq![
        "redemption_pda".spec_bytes(),
        user@,
        vstd::bytes::spec_u64_to_le_bytes(request_id),
    ]
}

/// The seeds of the mint authority.
pub open spec fn mint_authority_seeds() -> Seq<Seq<u8>> {
    seq!["mint_authority".spec_bytes()]
}

/// The seeds of the token account that is associated with `owner` for the
/// token unit `mint` under `token_program`: the three addresses, in that
/// order of owner, program and unit.
pub open spec fn associated_token_seeds(owner: Address, token_program: Address, mint: Address)
    -> Seq<Seq<u8>> {
    seq![owner@, token_program@, mint@]
}

/// The bytes of an address, as a seed.
fn address_seed(address: &Address) -> (seed: Vec<u8>)
    ensures
        seed@ == address@,
{
    let mut seed: Vec<u8> = Vec::new();
    let mut i: usize = 0;
    while i < 32
        invariant
            i <= 32,
            seed@.len() == i,
            forall|j: int| 0 <= j < i ==> seed@[j] == address.bytes@[j],
        decreases 32 - i,
    {
        seed.push(address.bytes[i]);
        i += 1;
    }
    assert(seed@ =~= address@);
    seed
}

/// Builds `custody_seeds(user, request_id)`.
fn build_custody_seeds(user: &Address, request_id: u64) -> (seeds: Vec<Vec<u8>>)
    ensures
        seed_bytes(seeds@) == custody_seeds(*user, request_id),
{
    let mut seeds: Vec<Vec<u8>> = Vec::new();
    seeds.push("redemption_pda".as_bytes_vec());
    seeds.push(address_seed(user));
    seeds.push(vstd::bytes::u64_to_le_bytes(request_id));
    assert(seed_bytes(seeds@) =~= custody_seeds(*user, request_id));
    seeds
}

/// The custody delegate of the request `request_id` of `user` under
/// `program`, with its bump seed: the authority in whose favour the
/// request's hold is placed. It is a function of the three arguments alone
/// and carries no key.
pub fn find_custody_delegate(program: &Address, user: &Address, request_id: u64) -> (r: Option<
    (Address, u8),
>)
    ensures
        found_program_address(custody_seeds(*user, request_id), program@) == match r {
            Some((address, bump)) => Some((address@, bump)),
            None => None,
        },
        r matches Some((address, bump)) ==> created_program_address(
            custody_seeds(*user, request_id).push(seq![bump]),
            program@,
        ) == Some(address@),
{
    let seeds = build_custody_seeds(user, request_id);
    find_program_address(&seeds, program)
}

/// The custody delegate that `bump` derives for the request `request_id` of
/// `user` under `program`, where it derives one.
pub fn custody_delegate_with_bump(
    program: &Address,
    user: &Address,
    request_id: u64,
    bump: u8,
) -> (r: Option<Address>)
    ensures
        created_program_address(custody_seeds(*user, request_id).push(seq![bump]), program@)
            == match r {
            Some(address) => Some(address@),
            None => None,
        },
{
    let mut seeds = build_custody_seeds(user, request_id);
    let mut last: Vec<u8> = Vec::new();
    last.push(bump);
    seeds.push(last);
    assert(seed_bytes(seeds@) =~= custody_seeds(*user, request_id).push(seq![bump]));
    create_program_address(&seeds, program)
}

/// The mint authority of `program`, with its bump seed.
pub fn find_mint_authority(program: &Address) -> (r: Option<(Address, u8)>)
    ensures
        found_program_address(mint_authority_seeds(), program@) == match r {
            Some((address, bump)) => Some((address@, bump)),
            None => None,
        },
{
    let mut seeds: Vec<Vec<u8>> = Vec::new();
    seeds.push("mint_authority".as_bytes_vec());
    assert(seed_bytes(seeds@) =~= mint_authority_seeds());
    find_program_address(&seeds, program)
}

/// The token account that is associated with `owner` for the token unit
/// `mint` under `token_program`: the one address at which
/// `associated_token_program` keeps that owner's account of that unit.
pub fn find_associated_token_account(
    associated_token_program: &Address,
    owner: &Address,
    token_program: &Address,
    mint: &Address,
) -> (r: Option<Address>)
    ensures
        r is Some == found_program_address(
            associated_token_seeds(*owner, *token_program, *mint),
            associated_token_program@,
        ) is Some,
        r is Some ==> r->Some_0@ == found_program_address(
            associated_token_seeds(*owner, *token_program, *mint),
            associated_token_program@,
        )->Some_0.0,
{
    let mut seeds: Vec<Vec<u8>> = Vec::new();
    seeds.push(address_seed(owner));
    seeds.push(address_seed(token_program));
    seeds.push(address_seed(mint));
    assert(seed_bytes(seeds@) =~= associated_token_seeds(*owner, *token_program, *mint));
    match find_program_address(&seeds, associated_token_program) {
        Some((address, _)) => Some(address),
        None => None,
    }
}

} // verus!
