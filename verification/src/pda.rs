//! Derived addresses. The metadata protocol locates its auxiliary accounts at
//! program-derived addresses computed from fixed seed formulas; the expected
//! destination token account is the associated account of
//! (wallet, mint, token program). The derivation itself is a hash search done
//! by the ledger SDK; its result is named by `pda_of` and everything built on
//! top of it is verified against the seed formulas stated here.

use vstd::prelude::*;

use solana_program::pubkey::Pubkey;

use crate::keys::{
    bytes_to_vec, Key, ASSOCIATED_TOKEN_PROGRAM_ID, EDITION_SEED, METADATA_PROGRAM_ID,
    METADATA_SEED, TOKEN_RECORD_SEED,
};

verus! {

/// The program-derived address of `seeds` under `program_id`, or `None` in
/// the statistically improbable case that no bump seed yields one. What the
/// bytes are is the SDK's affair; that they are a function of the seeds and
/// the program id alone is what this name asserts.
pub uninterp spec fn pda_of(seeds: Seq<Seq<u8>>, program_id: Seq<u8>) -> Option<Seq<u8>>;

/// Relies on solana_program's `Pubkey::try_find_program_address`: the result
/// depends on the seeds and the program id alone, and is `None` only when no
/// bump seed yields a derived address.
#[verifier::external_body]
fn try_find_pda(seeds: &Vec<Vec<u8>>, program_id: &Key) -> (r: Option<Key>)
    ensures
        r is Some <==> pda_of(seeds.deep_view(), program_id@) is Some,
        r matches Some(k) ==> pda_of(seeds.deep_view(), program_id@) == Some(k@),
{
    let seed_slices: Vec<&[u8]> = seeds.iter().map(|s| s.as_slice()).collect();
    Pubkey::try_find_program_address(&seed_slices, &Pubkey::new_from_array(*program_id))
        .map(|(address, _bump)| address.to_bytes())
}

/// Seeds of a mint's metadata account: `["metadata", metadata program, mint]`.
pub open spec fn metadata_seeds(mint: Seq<u8>) -> Seq<Seq<u8>> {
    seq![METADATA_SEED@, METADATA_PROGRAM_ID@, mint]
}

/// Seeds of a mint's edition account:
/// `["metadata", metadata program, mint, "edition"]`.
pub open spec fn edition_seeds(mint: Seq<u8>) -> Seq<Seq<u8>> {
    seq![METADATA_SEED@, METADATA_PROGRAM_ID@, mint, EDITION_SEED@]
}

/// Seeds of the token record of one token account of a mint:
/// `["metadata", metadata program, mint, "token_record", token account]`.
pub open spec fn token_record_seeds(mint: Seq<u8>, token_account: Seq<u8>) -> Seq<Seq<u8>> {
    seq![METADATA_SEED@, METADATA_PROGRAM_ID@, mint, TOKEN_RECORD_SEED@, token_account]
}

/// Seeds of the associated token account of a wallet for a mint under a token
/// program: `[wallet, token program, mint]`, derived under the
/// associated-token program.
pub open spec fn ata_seeds(wallet: Seq<u8>, mint: Seq<u8>, token_program: Seq<u8>) -> Seq<Seq<u8>> {
    seq![wallet, token_program, mint]
}

/// Where a mint's metadata account must live.
pub open spec fn metadata_address(mint: Seq<u8>) -> Option<Seq<u8>> {
    pda_of(metadata_seeds(mint), METADATA_PROGRAM_ID@)
}

/// Where a mint's edition account must live.
pub open spec fn edition_address(mint: Seq<u8>) -> Option<Seq<u8>> {
    pda_of(edition_seeds(mint), METADATA_PROGRAM_ID@)
}

/// Where the token record of one token account of a mint must live.
pub open spec fn token_record_address(mint: Seq<u8>, token_account: Seq<u8>) -> Option<Seq<u8>> {
    pda_of(token_record_seeds(mint, token_account), METADATA_PROGRAM_ID@)
}

/// The one destination token account the router accepts: a deterministic
/// function of (wallet, mint, token program) and of nothing else.
pub open spec fn expected_token_account(
    wallet: Seq<u8>,
    mint: Seq<u8>,
    token_program: Seq<u8>,
) -> Option<Seq<u8>> {
    pda_of(ata_seeds(wallet, mint, token_program), ASSOCIATED_TOKEN_PROGRAM_ID@)
}

/// Law: the expected destination address is a function of
/// (wallet, mint, token program) and of nothing else, so only one supplied
/// destination address can ever be accepted for a given triple.
pub proof fn expected_token_account_unique(
    wallet: Seq<u8>,
    mint: Seq<u8>,
    token_program: Seq<u8>,
    first: Seq<u8>,
    second: Seq<u8>,
)
    requires
        expected_token_account(wallet, mint, token_program) == Some(first),
        expected_token_account(wallet, mint, token_program) == Some(second),
    ensures
        first == second,
{
}

/// Derives where a mint's metadata account must live.
pub fn derive_metadata_address(mint: &Key) -> (r: Option<Key>)
    ensures
        r is Some <==> metadata_address(mint@) is Some,
        r matches Some(k) ==> metadata_address(mint@) == Some(k@),
{
    let mut seeds: Vec<Vec<u8>> = Vec::new();
    seeds.push(bytes_to_vec(&METADATA_SEED));
    seeds.push(bytes_to_vec(&METADATA_PROGRAM_ID));
    seeds.push(bytes_to_vec(mint));
    proof {
        assert(seeds.deep_view() =~~= metadata_seeds(mint@));
    }
    try_find_pda(&seeds, &METADATA_PROGRAM_ID)
}

/// Derives where a mint's edition account must live.
pub fn derive_edition_address(mint: &Key) -> (r: Option<Key>)
    ensures
        r is Some <==> edition_address(mint@) is Some,
        r matches Some(k) ==> edition_address(mint@) == Some(k@),
{
    let mut seeds: Vec<Vec<u8>> = Vec::new();
    seeds.push(bytes_to_vec(&METADATA_SEED));
    seeds.push(bytes_to_vec(&METADATA_PROGRAM_ID));
    seeds.push(bytes_to_vec(mint));
    seeds.push(bytes_to_vec(&EDITION_SEED));
    proof {
        assert(seeds.deep_view() =~~= edition_seeds(mint@));
    }
    try_find_pda(&seeds, &METADATA_PROGRAM_ID)
}

/// Derives where the token record of `token_account` must live.
pub fn derive_token_record_address(mint: &Key, token_account: &Key) -> (r: Option<Key>)
    ensures
        r is Some <==> token_record_address(mint@, token_account@) is Some,
        r matches Some(k) ==> token_record_address(mint@, token_account@) == Some(k@),
{
    let mut seeds: Vec<Vec<u8>> = Vec::new();
    seeds.push(bytes_to_vec(&METADATA_SEED));
    seeds.push(bytes_to_vec(&METADATA_PROGRAM_ID));
    seeds.push(bytes_to_vec(mint));
    seeds.push(bytes_to_vec(&TOKEN_RECORD_SEED));
    seeds.push(bytes_to_vec(token_account));
    proof {
        assert(seeds.deep_view() =~~= token_record_seeds(mint@, token_account@));
    }
    try_find_pda(&seeds, &METADATA_PROGRAM_ID)
}

/// Derives the associated token account of `wallet` for `mint` under
/// `token_program`.
pub fn derive_associated_token_account(
    wallet: &Key,
    mint: &Key,
    token_program: &Key,
) -> (r: Option<Key>)
    ensures
        r is Some <==> expected_token_account(wallet@, mint@, token_program@) is Some,
        r matches Some(k) ==> expected_token_account(wallet@, mint@, token_program@) == Some(k@),
{
    let mut seeds: Vec<Vec<u8>> = Vec::new();
    seeds.push(bytes_to_vec(wallet));
    seeds.push(bytes_to_vec(token_program));
    seeds.push(bytes_to_vec(mint));
    proof {
        assert(seeds.deep_view() =~~= ata_seeds(wallet@, mint@, token_program@));
    }
    try_find_pda(&seeds, &ASSOCIATED_TOKEN_PROGRAM_ID)
}

} // verus!
