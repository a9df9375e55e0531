//! Authority derivation: the address of a custody record from namespace, maker and nonce,
//! the address of a conventional asset account from wallet and asset, and the check that an
//! address presented is the derived one.

use crate::address::Address;
use vstd::bytes::{spec_u64_to_le_bytes, u64_to_le_bytes};
use vstd::prelude::*;

verus! {

/// The address that `Pubkey::create_program_address` gives for a list of seeds and a program,
/// or `None` where it reports an error. A function of its arguments alone.
pub uninterp spec fn program_address(seeds: Seq<Seq<u8>>, program_id: Seq<u8>) -> Option<Seq<u8>>;

/// The seeds of a list, each as the bytes it holds.
pub open spec fn seeds_view(seeds: Seq<Vec<u8>>) -> Seq<Seq<u8>> {
    Seq::new(seeds.len(), |i: int| seeds[i]@)
}

/// A list of seeds with the one-byte disambiguator appended.
pub open spec fn with_bump(seeds: Seq<Seq<u8>>, bump: u8) -> Seq<Seq<u8>> {
    seeds.push(seq![bump])
}

/// The highest disambiguator in `1..=from` for which the derivation succeeds.
pub open spec fn highest_bump(seeds: Seq<Seq<u8>>, program_id: Seq<u8>, from: nat) -> Option<u8>
    decreases from,
{
    if from == 0 {
        None
    } else if program_address(with_bump(seeds, from as u8), program_id) is Some {
        Some(from as u8)
    } else {
        highest_bump(seeds, program_id, (from - 1) as nat)
    }
}

/// The canonical derivation: the address under the highest disambiguator in `1..=255` that
/// yields one, with that disambiguator; `None` where none does.
pub open spec fn canonical_address(seeds: Seq<Seq<u8>>, program_id: Seq<u8>) -> Option<
    (Seq<u8>, u8),
> {
    match highest_bump(seeds, program_id, 255) {
        Some(bump) => Some((program_address(with_bump(seeds, bump), program_id)->0, bump)),
        None => None,
    }
}

/// Calls `anchor_lang::prelude::Pubkey::create_program_address`. The contract claims that the
/// call returns the address named by `program_address` for these seeds and this program, and
/// `None` exactly where the call reports an error; nothing is claimed of which address it is.
#[verifier::external_body]
fn create_program_address(seeds: &Vec<Vec<u8>>, program_id: &Address) -> (r: Option<Address>)
    ensures
        match r {
            Some(a) => program_address(seeds_view(seeds@), program_id@) == Some(a@),
            None => program_address(seeds_view(seeds@), program_id@) is None,
        },
{
    let parts: Vec<&[u8]> = seeds.iter().map(|s| s.as_slice()).collect();
    let id = anchor_lang::prelude::Pubkey::new_from_array(program_id.bytes);
    match anchor_lang::prelude::Pubkey::create_program_address(&parts, &id) {
        Ok(key) => Some(Address { bytes: key.to_bytes() }),
        Err(_) => None,
    }
}

/// The address derived from `seeds` with `bump` appended, without any search.
pub fn derive_with_bump(seeds: Vec<Vec<u8>>, bump: u8, program_id: &Address) -> (r: Option<Address>)
    ensures
        match r {
            Some(a) => program_address(with_bump(seeds_view(seeds@), bump), program_id@) == Some(a@),
            None => program_address(with_bump(seeds_view(seeds@), bump), program_id@) is None,
        },
{
    let mut full = seeds;
    let mut last: Vec<u8> = Vec::new();
    last.push(bump);
    full.push(last);
    proof {
        assert(last@ =~= seq![bump]);
        assert(seeds_view(full@) =~= with_bump(seeds_view(seeds@), bump));
    }
    create_program_address(&full, program_id)
}

/// Searches the disambiguators from 255 down to 1 and returns the first address that the
/// derivation yields, with the disambiguator that gave it.
pub fn find_program_address(seeds: Vec<Vec<u8>>, program_id: &Address) -> (r: Option<
    (Address, u8),
>)
    ensures
        match r {
            Some((a, bump)) => canonical_address(seeds_view(seeds@), program_id@) == Some(
                (a@, bump),
            ),
            None => canonical_address(seeds_view(seeds@), program_id@) is None,
        },
{
    let ghost base = seeds_view(seeds@);
    let mut full = seeds;
    let mut bump: u8 = 255;
    while bump > 0
        invariant
            base == seeds_view(seeds@),
            seeds_view(full@) == base,
            highest_bump(base, program_id@, 255) == highest_bump(base, program_id@, bump as nat),
        decreases bump,
    {
        let mut last: Vec<u8> = Vec::new();
        last.push(bump);
        let ghost before = full@;
        full.push(last);
        proof {
            assert(last@ =~= seq![bump]);
            assert(seeds_view(full@) =~= with_bump(base, bump));
        }
        let found = create_program_address(&full, program_id);
        full.pop();
        proof {
            assert(full@ =~= before);
        }
        match found {
            Some(a) => {
                return Some((a, bump));
            },
            None => {},
        }
        bump = bump - 1;
    }
    None
}

/// Whether `presented` is the address that a derivation gave.
pub fn matches_derived(presented: &Address, derived: &Option<Address>) -> (r: bool)
    ensures
        r == (*derived == Some(*presented)),
        r == (address_view(*derived) == Some(presented@)),
{
    match derived {
        Some(a) => {
            proof {
                Address::lemma_view_injective(*a, *presented);
            }
            *a == *presented
        },
        None => false,
    }
}

/// An optional address as the bytes it holds.
pub open spec fn address_view(a: Option<Address>) -> Option<Seq<u8>> {
    match a {
        Some(a) => Some(a@),
        None => None,
    }
}

/// The namespace tag of custody records: the ASCII bytes of `escrow`.
pub open spec fn escrow_tag() -> Seq<u8> {
    seq![101u8, 115u8, 99u8, 114u8, 111u8, 119u8]
}

/// The seed material of a custody record: the tag, the maker, and the maker's nonce as
/// eight little-endian bytes.
pub open spec fn escrow_seeds(maker: Seq<u8>, seed: u64) -> Seq<Seq<u8>> {
    seq![escrow_tag(), maker, spec_u64_to_le_bytes(seed)]
}

/// The seed material of a custody record, as a list of byte strings.
pub fn escrow_seed_list(maker: &Address, seed: u64) -> (seeds: Vec<Vec<u8>>)
    ensures
        seeds_view(seeds@) == escrow_seeds(maker@, seed),
{
    let mut tag: Vec<u8> = Vec::new();
    tag.push(101u8);
    tag.push(115u8);
    tag.push(99u8);
    tag.push(114u8);
    tag.push(111u8);
    tag.push(119u8);
    let mut seeds: Vec<Vec<u8>> = Vec::new();
    seeds.push(tag);
    seeds.push(maker.to_vec());
    seeds.push(u64_to_le_bytes(seed));
    proof {
        assert(tag@ =~= escrow_tag());
        assert(seeds_view(seeds@) =~= escrow_seeds(maker@, seed));
    }
    seeds
}

/// Derives the address of the custody record of `maker` under nonce `seed`, with the
/// disambiguator to store in it.
pub fn escrow_address(program_id: &Address, maker: &Address, seed: u64) -> (r: Option<
    (Address, u8),
>)
    ensures
        match r {
            Some((a, bump)) => canonical_address(escrow_seeds(maker@, seed), program_id@) == Some(
                (a@, bump),
            ),
            None => canonical_address(escrow_seeds(maker@, seed), program_id@) is None,
        },
{
    find_program_address(escrow_seed_list(maker, seed), program_id)
}

/// Recomputes the address of a custody record from a stored disambiguator.
pub fn escrow_address_with_bump(program_id: &Address, maker: &Address, seed: u64, bump: u8) -> (r:
    Option<Address>)
    ensures
        address_view(r) == program_address(
            with_bump(escrow_seeds(maker@, seed), bump),
            program_id@,
        ),
{
    derive_with_bump(escrow_seed_list(maker, seed), bump, program_id)
}

/// Whether `address` is what the seed material of a custody record and the stored
/// disambiguator derive to.
pub fn verify_escrow_address(
    address: &Address,
    program_id: &Address,
    maker: &Address,
    seed: u64,
    bump: u8,
) -> (r: bool)
    ensures
        r == (program_address(with_bump(escrow_seeds(maker@, seed), bump), program_id@) == Some(
            address@,
        )),
{
    let derived = escrow_address_with_bump(program_id, maker, seed, bump);
    matches_derived(address, &derived)
}

/// The bytes of the token program's identity.
pub open spec fn token_program_bytes() -> Seq<u8> {
    seq![
        6u8, 221u8, 246u8, 225u8, 215u8, 101u8, 161u8, 147u8, 217u8, 203u8, 225u8, 70u8, 206u8,
        235u8, 121u8, 172u8, 28u8, 180u8, 133u8, 237u8, 95u8, 91u8, 55u8, 145u8, 58u8, 140u8,
        245u8, 133u8, 126u8, 255u8, 0u8, 169u8,
    ]
}

/// The bytes of the associated-token program's identity, the namespace of vault addresses.
pub open spec fn associated_token_program_bytes() -> Seq<u8> {
    seq![
        140u8, 151u8, 37u8, 143u8, 78u8, 36u8, 137u8, 241u8, 187u8, 61u8, 16u8, 41u8, 20u8,
        142u8, 13u8, 131u8, 11u8, 90u8, 19u8, 153u8, 218u8, 255u8, 16u8, 132u8, 4u8, 142u8,
        123u8, 216u8, 219u8, 233u8, 248u8, 89u8,
    ]
}

/// Reads the constant `anchor_spl::token::ID`. The contract claims that it holds the 32
/// bytes listed in `token_program_bytes`.
#[verifier::external_body]
fn token_program_id() -> (id: Address)
    ensures
        id@ == token_program_bytes(),
{
    Address { bytes: anchor_spl::token::ID.to_bytes() }
}

/// Reads the constant `anchor_spl::associated_token::ID`. The contract claims that it holds
/// the 32 bytes listed in `associated_token_program_bytes`.
#[verifier::external_body]
fn associated_token_program_id() -> (id: Address)
    ensures
        id@ == associated_token_program_bytes(),
{
    Address { bytes: anchor_spl::associated_token::ID.to_bytes() }
}

/// The seed material of the conventional account of `wallet` for asset `mint`.
pub open spec fn associated_seeds(wallet: Seq<u8>, mint: Seq<u8>) -> Seq<Seq<u8>> {
    seq![wallet, token_program_bytes(), mint]
}

/// The address of the conventional account of `wallet` for asset `mint`: the canonical
/// derivation from their seed material in the associated-token namespace.
pub open spec fn associated_address(wallet: Seq<u8>, mint: Seq<u8>) -> Option<Seq<u8>> {
    match canonical_address(associated_seeds(wallet, mint), associated_token_program_bytes()) {
        Some((a, _)) => Some(a),
        None => None,
    }
}

/// Derives the address of the conventional account of `wallet` for asset `mint`. A vault
/// is the conventional account of its custody record for the asset locked.
pub fn associated_token_address(wallet: &Address, mint: &Address) -> (r: Option<Address>)
    ensures
        address_view(r) == associated_address(wallet@, mint@),
{
    let mut seeds: Vec<Vec<u8>> = Vec::new();
    seeds.push(wallet.to_vec());
    seeds.push(token_program_id().to_vec());
    seeds.push(mint.to_vec());
    proof {
        assert(seeds_view(seeds@) =~= associated_seeds(wallet@, mint@));
    }
    match find_program_address(seeds, &associated_token_program_id()) {
        Some((a, _)) => Some(a),
        None => None,
    }
}

/// The canonical disambiguator is at least 1, yields the canonical address, and no higher
/// disambiguator yields any address.
pub proof fn lemma_canonical_is_highest(seeds: Seq<Seq<u8>>, program_id: Seq<u8>)
    ensures
        match canonical_address(seeds, program_id) {
            Some((a, bump)) => {
                &&& 1 <= bump
                &&& program_address(with_bump(seeds, bump), program_id) == Some(a)
                &&& forall|c: u8|
                    bump < c ==> program_address(with_bump(seeds, c), program_id) is None
            },
            None => forall|c: u8|
                1 <= c ==> program_address(with_bump(seeds, c), program_id) is None,
        },
{
    lemma_highest_bump(seeds, program_id, 255);
}

proof fn lemma_highest_bump(seeds: Seq<Seq<u8>>, program_id: Seq<u8>, from: nat)
    requires
        from <= 255,
    ensures
        match highest_bump(seeds, program_id, from) {
            Some(bump) => {
                &&& 1 <= bump <= from
                &&& program_address(with_bump(seeds, bump), program_id) is Some
                &&& forall|c: u8|
                    bump < c <= from ==> program_address(with_bump(seeds, c), program_id) is None
            },
            None => forall|c: u8|
                1 <= c <= from ==> program_address(with_bump(seeds, c), program_id) is None,
        },
    decreases from,
{
    if from > 0 && program_address(with_bump(seeds, from as u8), program_id) is None {
        lemma_highest_bump(seeds, program_id, (from - 1) as nat);
    }
}

} // verus!
