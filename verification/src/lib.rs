//! An on-ledger registry of noble Houses and Titles.
//!
//! Wallets own Houses, Houses hold Titles, and Titles form a strict
//! liege/vassal tree rooted at a single rank-1 Title. Record storage
//! locations are derived deterministically from seeds and a program
//! identity, and are never valid signing-key points, so that only the
//! registry program can ever control them.

use vstd::prelude::*;

pub mod addr;
pub mod bytes;
pub mod error;
pub mod instruction;
pub mod processor;
pub mod state;
pub mod validate;

use crate::addr::Address;
use crate::error::TitleError;

verus! {

/// The outcome of the bump-seed search for the given seeds and program
/// identity: the derived address and the bump that produced it, or
/// nothing when the seeds are unusable or no bump yields an off-curve
/// candidate.
pub uninterp spec fn find_pda(seeds: Seq<Seq<u8>>, program_id: Seq<u8>) -> Option<(Seq<u8>, u8)>;

/// Whether 32 bytes form a valid Ed25519 curve point, and so could be a
/// wallet-controlled signing key.
pub uninterp spec fn on_curve(a: Seq<u8>) -> bool;

/// Relies on solana_program's `Pubkey::try_find_program_address`: the
/// result is a function of the seeds and the program id alone, and any
/// address it returns is 32 bytes long and is not a point on the Ed25519
/// curve.
#[verifier::external_body]
fn find_program_address(seeds: &Vec<Vec<u8>>, program_id: &Address) -> (r: Option<(Address, u8)>)
    requires
        program_id.wf(),
    ensures
        match r {
            Some(p) => p.0.wf() && !on_curve(p.0@) && find_pda(seeds.deep_view(), program_id@)
                == Some((p.0@, p.1)),
            None => find_pda(seeds.deep_view(), program_id@) is None,
        },
{
    let refs: Vec<&[u8]> = seeds.iter().map(|s| s.as_slice()).collect();
    let mut pid = [0u8; 32];
    pid.copy_from_slice(&program_id.bytes);
    let pk = solana_program::pubkey::Pubkey::new_from_array(pid);
    solana_program::pubkey::Pubkey::try_find_program_address(&refs, &pk)
        .map(|(a, bump)| (Address { bytes: a.to_bytes().to_vec() }, bump))
}

/// The seed-search outcome for a wallet's House: the single seed is the
/// wallet's address bytes.
pub open spec fn house_pda(wallet: Seq<u8>, program_id: Seq<u8>) -> Option<(Seq<u8>, u8)> {
    find_pda(seq![wallet], program_id)
}

/// The seed-search outcome for a Title: the seeds are the liege Title's
/// address bytes and the vassal index repeated to the full seed width.
pub open spec fn title_pda(liege: Seq<u8>, vassal_index: u8, program_id: Seq<u8>) -> Option<
    (Seq<u8>, u8),
> {
    find_pda(seq![liege, Seq::new(32, |i: int| vassal_index)], program_id)
}

/// Get the address for the given wallet's dynastic House.
pub fn get_house_address(wallet_address: &Address, noble_program_id: &Address) -> (r: Result<
    Address,
    TitleError,
>)
    requires
        wallet_address.wf(),
        noble_program_id.wf(),
    ensures
        match r {
            Ok(a) => {
                &&& a.wf()
                &&& !on_curve(a@)
                &&& house_pda(wallet_address@, noble_program_id@) matches Some(p) && p.0 == a@
            },
            Err(e) => {
                &&& e == TitleError::DerivationExhausted
                &&& house_pda(wallet_address@, noble_program_id@) is None
            },
        },
{
    match get_house_address_and_bump_seed_internal(wallet_address, noble_program_id) {
        Ok((a, _bump)) => Ok(a),
        Err(e) => Err(e),
    }
}

/// Derive the House address and bump seed for a wallet.
pub(crate) fn get_house_address_and_bump_seed_internal(
    wallet_address: &Address,
    noble_program_id: &Address,
) -> (r: Result<(Address, u8), TitleError>)
    requires
        wallet_address.wf(),
        noble_program_id.wf(),
    ensures
        match r {
            Ok(p) => {
                &&& p.0.wf()
                &&& !on_curve(p.0@)
                &&& house_pda(wallet_address@, noble_program_id@) == Some((p.0@, p.1))
            },
            Err(e) => {
                &&& e == TitleError::DerivationExhausted
                &&& house_pda(wallet_address@, noble_program_id@) is None
            },
        },
{
    let mut seeds: Vec<Vec<u8>> = Vec::new();
    seeds.push(addr::bytes_dup(&wallet_address.bytes));
    proof {
        assert(seeds.deep_view() =~~= seq![wallet_address@]);
    }
    match find_program_address(&seeds, noble_program_id) {
        Some(p) => Ok(p),
        None => Err(TitleError::DerivationExhausted),
    }
}

/// Get the address for the given title, using the liege title and the
/// vassal index.
pub fn get_title_address(
    liege_address: &Address,
    vassal_index: u8,
    noble_program_id: &Address,
) -> (r: Result<Address, TitleError>)
    requires
        liege_address.wf(),
        noble_program_id.wf(),
    ensures
        match r {
            Ok(a) => {
                &&& a.wf()
                &&& !on_curve(a@)
                &&& title_pda(liege_address@, vassal_index, noble_program_id@) matches Some(p)
                    && p.0 == a@
            },
            Err(e) => {
                &&& e == TitleError::DerivationExhausted
                &&& title_pda(liege_address@, vassal_index, noble_program_id@) is None
            },
        },
{
    match get_title_address_and_bump_seed_internal(liege_address, vassal_index, noble_program_id) {
        Ok((a, _bump)) => Ok(a),
        Err(e) => Err(e),
    }
}

/// Derive the Title address and bump seed from the liege and vassal index.
pub(crate) fn get_title_address_and_bump_seed_internal(
    liege_address: &Address,
    vassal_index: u8,
    noble_program_id: &Address,
) -> (r: Result<(Address, u8), TitleError>)
    requires
        liege_address.wf(),
        noble_program_id.wf(),
    ensures
        match r {
            Ok(p) => {
                &&& p.0.wf()
                &&& !on_curve(p.0@)
                &&& title_pda(liege_address@, vassal_index, noble_program_id@) == Some((p.0@, p.1))
            },
            Err(e) => {
                &&& e == TitleError::DerivationExhausted
                &&& title_pda(liege_address@, vassal_index, noble_program_id@) is None
            },
        },
{
    let mut index_seed: Vec<u8> = Vec::new();
    let mut i: usize = 0;
    while i < 32
        invariant
            i <= 32,
            index_seed@.len() == i,
            forall|j: int| 0 <= j < i ==> index_seed@[j] == vassal_index,
        decreases 32 - i,
    {
        index_seed.push(vassal_index);
        i = i + 1;
    }
    let mut seeds: Vec<Vec<u8>> = Vec::new();
    seeds.push(addr::bytes_dup(&liege_address.bytes));
    seeds.push(index_seed);
    proof {
        assert(seeds.deep_view() =~~= seq![
            liege_address@,
            Seq::new(32, |j: int| vassal_index),
        ]);
    }
    match find_program_address(&seeds, noble_program_id) {
        Some(p) => Ok(p),
        None => Err(TitleError::DerivationExhausted),
    }
}

} // verus!
