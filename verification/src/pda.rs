//! Deterministic custody-address derivation.
//!
//! An escrow's record address and every associated holding-account address
//! are derived by hashing ordered seed material together with an owning
//! program's identity; a derivation fails when the hash lands on the
//! curve's valid-point subset, which guarantees a successful derivation has
//! no corresponding private key. The hash itself is outside computation; the
//! engine names its result and reasons over that name.

use vstd::prelude::*;
use vstd::bytes::spec_u64_to_le_bytes;
use vstd::bytes::u64_to_le_bytes;
use vstd::slice::slice_to_vec;
use crate::ids::associated_token_program_id;
use crate::ids::associated_token_program_id_bytes;
use crate::ids::escrow_tag;
use crate::ids::escrow_tag_bytes;
use crate::ids::program_id;
use crate::ids::program_id_bytes;

verus! {

/// The derived address for the given seeds under the given program identity,
/// or nothing when the derivation fails (the hash lands on the curve, a seed
/// is longer than 32 bytes, or there are more than 16 seeds).
pub uninterp spec fn pda_create(seeds: Seq<Seq<u8>>, owner_program: Seq<u8>) -> Option<Seq<u8>>;

/// The result of searching bump values from `hi` down to 1 for the first
/// whose appended derivation succeeds.
pub open spec fn pda_find_from(seeds: Seq<Seq<u8>>, owner_program: Seq<u8>, hi: u8) -> Option<
    (Seq<u8>, u8),
>
    decreases hi,
{
    match pda_create(seeds.push(seq![hi]), owner_program) {
        Some(a) => Some((a, hi)),
        None => if hi <= 1 {
            None
        } else {
            pda_find_from(seeds, owner_program, (hi - 1) as u8)
        },
    }
}

/// The derivation search: the lexicographically greatest bump in 1..=255 whose
/// appended derivation succeeds, with the address it yields.
pub open spec fn pda_find(seeds: Seq<Seq<u8>>, owner_program: Seq<u8>) -> Option<(Seq<u8>, u8)> {
    pda_find_from(seeds, owner_program, 255)
}

/// Relies on solana_address::Address::create_program_address: hashes the
/// seeds, the program identity and a fixed marker into a 32-byte address,
/// refusing seed material over the limits or a hash that is a valid curve
/// point; the result depends on the arguments alone.
#[verifier::external_body]
fn create_address(seeds: &Vec<Vec<u8>>, owner_program: &Vec<u8>) -> (r: Option<Vec<u8>>)
    requires
        owner_program@.len() == 32,
    ensures
        (match r {
            Some(a) => pda_create(seeds.deep_view(), owner_program@) == Some(a@) && a@.len() == 32,
            None => pda_create(seeds.deep_view(), owner_program@) is None,
        }),
{
    let refs: Vec<&[u8]> = seeds.iter().map(|s| s.as_slice()).collect();
    let pid_bytes: [u8; 32] = owner_program.as_slice().try_into().unwrap();
    let pid = solana_address::Address::new_from_array(pid_bytes);
    match solana_address::Address::create_program_address(&refs, &pid) {
        Ok(a) => Some(a.to_bytes().to_vec()),
        Err(_) => None,
    }
}

/// Relies on solana_address::Address::try_find_program_address: tries bump
/// values from 255 down to 1 and returns the first successful derivation with
/// its bump, or nothing when every bump fails; the result depends on the
/// arguments alone.
#[verifier::external_body]
fn find_address(seeds: &Vec<Vec<u8>>, owner_program: &Vec<u8>) -> (r: Option<(Vec<u8>, u8)>)
    requires
        owner_program@.len() == 32,
    ensures
        (match r {
            Some(p) => pda_find(seeds.deep_view(), owner_program@) == Some((p.0@, p.1))
                && p.0@.len() == 32,
            None => pda_find(seeds.deep_view(), owner_program@) is None,
        }),
{
    let refs: Vec<&[u8]> = seeds.iter().map(|s| s.as_slice()).collect();
    let pid_bytes: [u8; 32] = owner_program.as_slice().try_into().unwrap();
    let pid = solana_address::Address::new_from_array(pid_bytes);
    solana_address::Address::try_find_program_address(&refs, &pid)
        .map(|(a, b)| (a.to_bytes().to_vec(), b))
}

/// The ordered seed material of an escrow record: the literal tag, the
/// maker's address, and the maker-chosen nonce in little-endian bytes.
pub open spec fn escrow_seeds(maker: Seq<u8>, seed: u64) -> Seq<Seq<u8>> {
    seq![escrow_tag(), maker, spec_u64_to_le_bytes(seed)]
}

/// The ordered seed material of an associated holding account: the wallet
/// that owns it, the asset program, and the asset's mint.
pub open spec fn ata_seeds(wallet: Seq<u8>, token_program: Seq<u8>, mint: Seq<u8>) -> Seq<Seq<u8>> {
    seq![wallet, token_program, mint]
}

fn escrow_seed_vecs(maker: &Vec<u8>, seed: u64) -> (r: Vec<Vec<u8>>)
    ensures
        r.deep_view() == escrow_seeds(maker@, seed),
{
    let mut seeds: Vec<Vec<u8>> = Vec::new();
    seeds.push(escrow_tag_bytes());
    seeds.push(slice_to_vec(maker.as_slice()));
    seeds.push(u64_to_le_bytes(seed));
    proof {
        assert(seeds.deep_view() =~~= escrow_seeds(maker@, seed));
    }
    seeds
}

/// The full signer seed material of an escrow record — tag, maker, nonce,
/// and the bump — as the runtime's derived-address signature proof takes it.
pub fn escrow_signer_seed_vecs(maker: &Vec<u8>, seed: u64, bump: u8) -> (r: Vec<Vec<u8>>)
    ensures
        r.deep_view() == escrow_seeds(maker@, seed).push(seq![bump]),
{
    let mut seeds = escrow_seed_vecs(maker, seed);
    let mut bump_seed: Vec<u8> = Vec::new();
    bump_seed.push(bump);
    seeds.push(bump_seed);
    proof {
        assert(seeds.deep_view() =~~= escrow_seeds(maker@, seed).push(seq![bump]));
    }
    seeds
}

/// Derive the record address and bump for an escrow of the given maker and
/// nonce. Deterministic: the result is a function of the inputs alone, so two
/// calls with identical inputs yield identical results.
pub fn derive_escrow_address(maker: &Vec<u8>, seed: u64) -> (r: Option<(Vec<u8>, u8)>)
    ensures
        (match r {
            Some(p) => pda_find(escrow_seeds(maker@, seed), program_id()) == Some((p.0@, p.1))
                && p.0@.len() == 32,
            None => pda_find(escrow_seeds(maker@, seed), program_id()) is None,
        }),
{
    let seeds = escrow_seed_vecs(maker, seed);
    find_address(&seeds, &program_id_bytes())
}

/// Recompute the escrow-record derivation for a known bump — no search — and
/// report whether it lands exactly on the claimed address. This is the
/// authority proof against account substitution.
pub fn escrow_address_matches(maker: &Vec<u8>, seed: u64, bump: u8, claimed: &Vec<u8>) -> (r: bool)
    ensures
        r == (pda_create(escrow_seeds(maker@, seed).push(seq![bump]), program_id()) == Some(
            claimed@,
        )),
{
    let seeds = escrow_signer_seed_vecs(maker, seed, bump);
    match create_address(&seeds, &program_id_bytes()) {
        Some(derived) => crate::account::bytes_eq(&derived, claimed),
        None => false,
    }
}

/// Derive the associated holding-account address for a wallet, asset program
/// and mint, under the associated-holding-account program's identity.
pub fn derive_ata_address(wallet: &Vec<u8>, token_program: &Vec<u8>, mint: &Vec<u8>) -> (r: Option<
    (Vec<u8>, u8),
>)
    ensures
        (match r {
            Some(p) => pda_find(ata_seeds(wallet@, token_program@, mint@), associated_token_program_id())
                == Some((p.0@, p.1)) && p.0@.len() == 32,
            None => pda_find(ata_seeds(wallet@, token_program@, mint@), associated_token_program_id()) is None,
        }),
{
    let mut seeds: Vec<Vec<u8>> = Vec::new();
    seeds.push(slice_to_vec(wallet.as_slice()));
    seeds.push(slice_to_vec(token_program.as_slice()));
    seeds.push(slice_to_vec(mint.as_slice()));
    proof {
        assert(seeds.deep_view() =~~= ata_seeds(wallet@, token_program@, mint@));
    }
    find_address(&seeds, &associated_token_program_id_bytes())
}

/// Law: a successful search result re-verifies — recomputing the derivation
/// with the found bump yields exactly the found address, so checking a stored
/// bump against a stored address accepts every address the search produced.
pub proof fn lemma_find_from_verifies(
    seeds: Seq<Seq<u8>>,
    owner_program: Seq<u8>,
    hi: u8,
    addr: Seq<u8>,
    bump: u8,
)
    requires
        1 <= hi,
        pda_find_from(seeds, owner_program, hi) == Some((addr, bump)),
    ensures
        pda_create(seeds.push(seq![bump]), owner_program) == Some(addr),
        1 <= bump <= hi,
    decreases hi,
{
    match pda_create(seeds.push(seq![hi]), owner_program) {
        Some(a) => {},
        None => {
            if hi > 1 {
                lemma_find_from_verifies(seeds, owner_program, (hi - 1) as u8, addr, bump);
            }
        },
    }
}

/// Law: what `pda_find` returns always passes the known-bump check.
pub proof fn lemma_derive_then_verify(
    seeds: Seq<Seq<u8>>,
    owner_program: Seq<u8>,
    addr: Seq<u8>,
    bump: u8,
)
    requires
        pda_find(seeds, owner_program) == Some((addr, bump)),
    ensures
        pda_create(seeds.push(seq![bump]), owner_program) == Some(addr),
        1 <= bump,
{
    lemma_find_from_verifies(seeds, owner_program, 255, addr, bump);
}

} // verus!
