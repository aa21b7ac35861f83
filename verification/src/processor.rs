//! The instruction processor: validation and state transitions.
//!
//! The processor is synchronous logic over a snapshot of account state
//! supplied by the caller for the duration of one instruction. The host
//! ledger serializes conflicting writes, so the processor implements no
//! locking of its own; the re-derive-and-compare checks together with the
//! host's refusal to allocate an existing address are the whole
//! concurrency-safety argument for account creation.

use vstd::prelude::*;
use crate::addr::{Address, zero_address, bytes_dup};
use crate::error::TitleError;
use crate::state::{
    HouseData, HouseDataView, TitleData, TitleDataView, spec_house_bytes, spec_title_bytes,
    spec_parse_title, spec_pad128, pad128, MAX_VASSALS,
};
use crate::instruction::{TitleInstruction, TitleInstructionView, spec_parse_instruction};
use crate::{house_pda, title_pda, get_house_address_and_bump_seed_internal,
    get_title_address_and_bump_seed_internal};

verus! {

/// One account as the processor sees it: its address, the program that
/// owns it, the access the transaction granted, and its raw data. An
/// account with no data is not yet allocated.
#[derive(Debug)]
pub struct Account {
    /// The account's address.
    pub address: Address,
    /// The program that owns the account. Freshly funded wallet accounts
    /// are owned by the system allocator.
    pub owner: Address,
    /// Whether this account signed the transaction.
    pub is_signer: bool,
    /// Whether the transaction may write this account.
    pub is_writable: bool,
    /// The account's raw record bytes; empty while unallocated.
    pub data: Vec<u8>,
}

/// The mathematical image of an account.
pub struct AccountView {
    pub address: Seq<u8>,
    pub owner: Seq<u8>,
    pub is_signer: bool,
    pub is_writable: bool,
    pub data: Seq<u8>,
}

impl View for Account {
    type V = AccountView;

    open spec fn view(&self) -> AccountView {
        AccountView {
            address: self.address@,
            owner: self.owner@,
            is_signer: self.is_signer,
            is_writable: self.is_writable,
            data: self.data@,
        }
    }
}

impl Account {
    /// Well-formed: full-width address and owner.
    pub open spec fn wf(&self) -> bool {
        &&& self.address.wf()
        &&& self.owner.wf()
    }

    /// A fresh copy of this account.
    pub fn dup(&self) -> (r: Account)
        ensures
            r@ == self@,
            r.wf() == self.wf(),
    {
        Account {
            address: self.address.dup(),
            owner: self.owner.dup(),
            is_signer: self.is_signer,
            is_writable: self.is_writable,
            data: bytes_dup(&self.data),
        }
    }
}

/// `a` with its record bytes replaced.
pub open spec fn account_with_data(a: AccountView, data: Seq<u8>) -> AccountView {
    AccountView { data, ..a }
}

/// `a` freshly allocated: its record bytes written and its ownership
/// handed to the registry program.
pub open spec fn account_created(a: AccountView, data: Seq<u8>, owner: Seq<u8>) -> AccountView {
    AccountView { data, owner, ..a }
}

/// The House record that CreateHouse writes for the given display fields.
pub open spec fn new_house_view(coat_of_arms: Seq<u8>, display_name: Seq<u8>) -> HouseDataView {
    HouseDataView {
        version: HouseData::CURRENT_VERSION,
        governance_token_supply: 1,
        coat_of_arms: spec_pad128(coat_of_arms),
        display_name: spec_pad128(display_name),
        prestige: 0,
        virtue: 0,
    }
}

/// The decision that CreateHouse makes, in validation order: either the
/// record bytes to write into the House account, or the exact error.
pub open spec fn create_house_result(
    program_id: Seq<u8>,
    wallet: AccountView,
    house: AccountView,
    coat_of_arms: Seq<u8>,
    display_name: Seq<u8>,
) -> Result<Seq<u8>, TitleError> {
    if !wallet.is_signer {
        Err(TitleError::MissingSignature)
    } else if !wallet.is_writable || !house.is_writable {
        Err(TitleError::InvalidWritability)
    } else if wallet.owner != zero_address() {
        Err(TitleError::WrongAllocatorIdentity)
    } else {
        match house_pda(wallet.address, program_id) {
            None => Err(TitleError::DerivationExhausted),
            Some(p) => if p.0 != house.address {
                Err(TitleError::AddressDerivationMismatch)
            } else if house.data.len() != 0 {
                Err(TitleError::AllocationConflict)
            } else {
                Ok(spec_house_bytes(new_house_view(coat_of_arms, display_name)))
            },
        }
    }
}

/// Check that an account is owned by the expected system allocator.
fn check_system_program(program_id: &Address) -> (r: Result<(), TitleError>)
    requires
        program_id.wf(),
    ensures
        r is Ok <==> program_id@ == zero_address(),
        r is Err ==> r == Err::<(), TitleError>(TitleError::WrongAllocatorIdentity),
{
    if program_id.is_zero() {
        Ok(())
    } else {
        Err(TitleError::WrongAllocatorIdentity)
    }
}

/// Check that the supplied account is the expected authority.
fn check_authority(authority_info: &Account, expected_authority: &Address) -> (r: Result<
    (),
    TitleError,
>)
    ensures
        r is Ok <==> authority_info@.address == expected_authority@,
        r is Err ==> r == Err::<(), TitleError>(TitleError::AuthorityMismatch),
{
    if authority_info.address.equals(expected_authority) {
        Ok(())
    } else {
        Err(TitleError::AuthorityMismatch)
    }
}

/// The Title record that CreateTitle writes: freshly created and
/// inactive, held by the funder's House, priced at its stake floor, with
/// no vassals yet.
pub open spec fn new_title_view(
    rank: u8,
    kind: u8,
    required_stake_lamports: u64,
    coat_of_arms: Seq<u8>,
    display_name: Seq<u8>,
    holder: Seq<u8>,
    liege: Seq<u8>,
    liege_vassal_index: u8,
) -> TitleDataView {
    TitleDataView {
        version: TitleData::CURRENT_VERSION,
        lifecycle_state: TitleData::INACTIVE_STATE,
        rank,
        kind,
        required_stake_lamports,
        sale_price_lamports: required_stake_lamports,
        coat_of_arms: spec_pad128(coat_of_arms),
        display_name: spec_pad128(display_name),
        holder_house_address: holder,
        stake_address: zero_address(),
        liege_address: liege,
        liege_vassal_index,
        vassal_addresses: Seq::empty(),
    }
}

/// A liege record with one more vassal appended.
pub open spec fn liege_after_append(ld: TitleDataView, vassal: Seq<u8>) -> TitleDataView {
    TitleDataView { vassal_addresses: ld.vassal_addresses.push(vassal), ..ld }
}

/// The decision that CreateTitle makes, in validation order: either the
/// record bytes to write into the new Title account together with the
/// updated liege record bytes (for a non-root title), or the exact error.
pub open spec fn create_title_result(
    program_id: Seq<u8>,
    wallet: AccountView,
    house: AccountView,
    new_title: AccountView,
    liege_acct: AccountView,
    rank: u8,
    kind: u8,
    required_stake_lamports: u64,
    coat_of_arms: Seq<u8>,
    display_name: Seq<u8>,
    liege_address: Seq<u8>,
    liege_vassal_index: u8,
) -> Result<(Seq<u8>, Option<Seq<u8>>), TitleError> {
    let empty_liege = liege_address == zero_address();
    if !wallet.is_signer {
        Err(TitleError::MissingSignature)
    } else if !wallet.is_writable || !new_title.is_writable || (!liege_acct.is_writable
        && !empty_liege) {
        Err(TitleError::InvalidWritability)
    } else if wallet.owner != zero_address() {
        Err(TitleError::WrongAllocatorIdentity)
    } else if rank < 1 || rank > 8 {
        Err(TitleError::InvalidArgument)
    } else if kind < 1 || kind > 2 {
        Err(TitleError::InvalidArgument)
    } else if rank == 1 && !empty_liege {
        Err(TitleError::InvalidArgument)
    } else if rank > 1 && empty_liege {
        Err(TitleError::InvalidArgument)
    } else {
        match house_pda(wallet.address, program_id) {
            None => Err(TitleError::DerivationExhausted),
            Some(hp) => if hp.0 != house.address {
                Err(TitleError::AddressDerivationMismatch)
            } else {
                match title_pda(liege_acct.address, liege_vassal_index, program_id) {
                    None => Err(TitleError::DerivationExhausted),
                    Some(tp) => if tp.0 != new_title.address {
                        Err(TitleError::AddressDerivationMismatch)
                    } else if rank > 1 {
                        match spec_parse_title(liege_acct.data) {
                            None => Err(TitleError::DeserializationFailure),
                            Some(ld) => if ld.holder_house_address != house.address {
                                Err(TitleError::AuthorityMismatch)
                            } else if ld.vassal_addresses.len() != liege_vassal_index {
                                Err(TitleError::InvalidArgument)
                            } else if ld.rank >= rank {
                                Err(TitleError::InvalidArgument)
                            } else if ld.vassal_addresses.len() >= 64 {
                                Err(TitleError::InvalidArgument)
                            } else if new_title.data.len() != 0 {
                                Err(TitleError::AllocationConflict)
                            } else {
                                Ok(
                                    (
                                        spec_title_bytes(
                                            new_title_view(
                                                rank,
                                                kind,
                                                required_stake_lamports,
                                                coat_of_arms,
                                                display_name,
                                                house.address,
                                                liege_acct.address,
                                                liege_vassal_index,
                                            ),
                                        ),
                                        Some(
                                            spec_title_bytes(
                                                liege_after_append(ld, new_title.address),
                                            ),
                                        ),
                                    ),
                                )
                            },
                        }
                    } else if new_title.data.len() != 0 {
                        Err(TitleError::AllocationConflict)
                    } else {
                        Ok(
                            (
                                spec_title_bytes(
                                    new_title_view(
                                        rank,
                                        kind,
                                        required_stake_lamports,
                                        coat_of_arms,
                                        display_name,
                                        house.address,
                                        liege_acct.address,
                                        liege_vassal_index,
                                    ),
                                ),
                                None,
                            ),
                        )
                    },
                }
            },
        }
    }
}

/// Process a CreateTitle instruction: validate arguments, authority and
/// derivations, append the new title to its liege's vassal list, and
/// write the new Title record.
///
/// The liege's vassal list is persisted before the new account's
/// allocation is attempted, so an allocation conflict leaves the liege
/// already mutated; the contract states that outcome exactly.
pub fn process_create_title_account(
    noble_program_id: &Address,
    wallet: &Account,
    house: &Account,
    new_title: &mut Account,
    liege_title: &mut Account,
    _system_account: &Account,
    rank: u8,
    kind: u8,
    required_stake_lamports: u64,
    coat_of_arms: &Vec<u8>,
    display_name: &Vec<u8>,
    liege_address: &Address,
    liege_vassal_index: u8,
) -> (r: Result<(), TitleError>)
    requires
        noble_program_id.wf(),
        wallet.wf(),
        house.wf(),
        old(new_title).wf(),
        old(liege_title).wf(),
        liege_address.wf(),
        coat_of_arms@.len() <= 128,
        display_name@.len() <= 128,
    ensures
        final(new_title).wf(),
        final(liege_title).wf(),
        ({
            let res = create_title_result(
                noble_program_id@,
                wallet@,
                house@,
                old(new_title)@,
                old(liege_title)@,
                rank,
                kind,
                required_stake_lamports,
                coat_of_arms@,
                display_name@,
                liege_address@,
                liege_vassal_index,
            );
            match res {
                Ok(p) => {
                    &&& r is Ok
                    &&& final(new_title)@ == account_created(
                        old(new_title)@,
                        p.0,
                        noble_program_id@,
                    )
                    &&& match p.1 {
                        Some(lb) => final(liege_title)@ == account_with_data(
                            old(liege_title)@,
                            lb,
                        ),
                        None => final(liege_title)@ == old(liege_title)@,
                    }
                },
                Err(e) => {
                    &&& r == Err::<(), TitleError>(e)
                    &&& final(new_title)@ == old(new_title)@
                    &&& if e == TitleError::AllocationConflict && rank > 1 {
                        final(liege_title)@ == account_with_data(
                            old(liege_title)@,
                            spec_title_bytes(
                                liege_after_append(
                                    spec_parse_title(old(liege_title)@.data).unwrap(),
                                    old(new_title)@.address,
                                ),
                            ),
                        )
                    } else {
                        final(liege_title)@ == old(liege_title)@
                    }
                },
            }
        }),
{
    let empty_liege = liege_address.is_zero();
    if !wallet.is_signer {
        return Err(TitleError::MissingSignature);
    }
    if !wallet.is_writable || !new_title.is_writable || (!liege_title.is_writable && !empty_liege) {
        return Err(TitleError::InvalidWritability);
    }
    let checked = check_system_program(&wallet.owner);
    if let Err(e) = checked {
        return Err(e);
    }
    if rank < 1 || rank > 8 {
        return Err(TitleError::InvalidArgument);
    }
    if kind < 1 || kind > 2 {
        return Err(TitleError::InvalidArgument);
    }
    if rank == 1 && !empty_liege {
        return Err(TitleError::InvalidArgument);
    }
    if rank > 1 && empty_liege {
        return Err(TitleError::InvalidArgument);
    }
    let derived_house = match get_house_address_and_bump_seed_internal(
        &wallet.address,
        noble_program_id,
    ) {
        Ok(p) => p,
        Err(e) => { return Err(e); },
    };
    if !derived_house.0.equals(&house.address) {
        return Err(TitleError::AddressDerivationMismatch);
    }
    let derived_title = match get_title_address_and_bump_seed_internal(
        &liege_title.address,
        liege_vassal_index,
        noble_program_id,
    ) {
        Ok(p) => p,
        Err(e) => { return Err(e); },
    };
    if !derived_title.0.equals(&new_title.address) {
        return Err(TitleError::AddressDerivationMismatch);
    }
    if rank > 1 {
        let mut liege_data = match TitleData::deserialize(&liege_title.data) {
            Ok(t) => t,
            Err(e) => { return Err(e); },
        };
        let auth = check_authority(house, &liege_data.holder_house_address);
        if let Err(e) = auth {
            return Err(e);
        }
        if liege_data.vassal_addresses.len() != liege_vassal_index as usize {
            return Err(TitleError::InvalidArgument);
        }
        if liege_data.rank >= rank {
            return Err(TitleError::InvalidArgument);
        }
        if liege_data.vassal_addresses.len() >= MAX_VASSALS {
            return Err(TitleError::InvalidArgument);
        }
        let ghost parsed = liege_data@;
        liege_data.vassal_addresses.push(new_title.address.dup());
        proof {
            assert(liege_data@.vassal_addresses =~= parsed.vassal_addresses.push(
                new_title.address@,
            ));
            assert(liege_data@ == liege_after_append(parsed, new_title@.address));
        }
        liege_title.data = liege_data.serialize();
    }
    if new_title.data.len() != 0 {
        return Err(TitleError::AllocationConflict);
    }
    let record = TitleData {
        version: TitleData::CURRENT_VERSION,
        lifecycle_state: TitleData::INACTIVE_STATE,
        rank,
        kind,
        required_stake_lamports,
        sale_price_lamports: required_stake_lamports,
        coat_of_arms: pad128(coat_of_arms),
        display_name: pad128(display_name),
        holder_house_address: house.address.dup(),
        stake_address: Address::zero(),
        liege_address: liege_title.address.dup(),
        liege_vassal_index,
        vassal_addresses: Vec::new(),
    };
    proof {
        assert(record@.vassal_addresses =~= Seq::<Seq<u8>>::empty());
        assert(record@ == new_title_view(
            rank,
            kind,
            required_stake_lamports,
            coat_of_arms@,
            display_name@,
            house@.address,
            liege_title@.address,
            liege_vassal_index,
        ));
    }
    new_title.data = record.serialize();
    new_title.owner = noble_program_id.dup();
    Ok(())
}

/// Process a CreateHouse instruction: validate the wallet, re-derive the
/// House address, and write a fresh House record at it.
pub fn process_create_house_account(
    noble_program_id: &Address,
    wallet: &Account,
    house: &mut Account,
    _system_account: &Account,
    coat_of_arms: &Vec<u8>,
    display_name: &Vec<u8>,
) -> (r: Result<(), TitleError>)
    requires
        noble_program_id.wf(),
        wallet.wf(),
        old(house).wf(),
        coat_of_arms@.len() <= 128,
        display_name@.len() <= 128,
    ensures
        final(house).wf(),
        match create_house_result(
            noble_program_id@,
            wallet@,
            old(house)@,
            coat_of_arms@,
            display_name@,
        ) {
            Ok(data) => r is Ok && final(house)@ == account_created(
                old(house)@,
                data,
                noble_program_id@,
            ),
            Err(e) => r == Err::<(), TitleError>(e) && final(house)@ == old(house)@,
        },
{
    if !wallet.is_signer {
        return Err(TitleError::MissingSignature);
    }
    if !wallet.is_writable || !house.is_writable {
        return Err(TitleError::InvalidWritability);
    }
    let checked = check_system_program(&wallet.owner);
    if let Err(e) = checked {
        return Err(e);
    }
    let derived = match get_house_address_and_bump_seed_internal(&wallet.address, noble_program_id)
        {
        Ok(p) => p,
        Err(e) => { return Err(e); },
    };
    let (house_address, _bump_seed) = derived;
    if !house_address.equals(&house.address) {
        return Err(TitleError::AddressDerivationMismatch);
    }
    if house.data.len() != 0 {
        return Err(TitleError::AllocationConflict);
    }
    let record = HouseData {
        version: HouseData::CURRENT_VERSION,
        governance_token_supply: 1,
        coat_of_arms: pad128(coat_of_arms),
        display_name: pad128(display_name),
        prestige: 0,
        virtue: 0,
    };
    house.data = record.serialize();
    house.owner = noble_program_id.dup();
    Ok(())
}

/// Decode one instruction and run it over the supplied accounts.
///
/// Accounts are positional: CreateHouse expects the signing wallet, the
/// House account and the system allocator; CreateTitle expects the
/// signing wallet, the House account, the new Title account, the liege
/// Title account and the system allocator. Extra accounts are ignored.
pub fn process_instruction(
    noble_program_id: &Address,
    accounts: &mut Vec<Account>,
    input: &Vec<u8>,
) -> (r: Result<(), TitleError>)
    requires
        noble_program_id.wf(),
        forall|i: int| 0 <= i < old(accounts)@.len() ==> (#[trigger] old(accounts)@[i]).wf(),
    ensures
        final(accounts)@.len() == old(accounts)@.len(),
        forall|i: int| 0 <= i < final(accounts)@.len() ==> (#[trigger] final(accounts)@[i]).wf(),
        match spec_parse_instruction(input@) {
            None => r == Err::<(), TitleError>(TitleError::DeserializationFailure) && final(accounts)@ == old(accounts)@,
            Some(insn) => match insn {
                TitleInstructionView::CreateHouse { coat_of_arms, display_name } => {
                    if old(accounts)@.len() < 3 {
                        r == Err::<(), TitleError>(TitleError::InvalidArgument) && final(accounts)@ == old(accounts)@
                    } else {
                        &&& forall|i: int|
                            0 <= i < final(accounts)@.len() && i != 1 ==> final(accounts)@[i]
                                == old(accounts)@[i]
                        &&& match create_house_result(
                            noble_program_id@,
                            old(accounts)@[0]@,
                            old(accounts)@[1]@,
                            coat_of_arms,
                            display_name,
                        ) {
                            Ok(data) => r is Ok && final(accounts)@[1]@ == account_created(
                                old(accounts)@[1]@,
                                data,
                                noble_program_id@,
                            ),
                            Err(e) => r == Err::<(), TitleError>(e) && final(accounts)@[1]@
                                == old(accounts)@[1]@,
                        }
                    }
                },
                TitleInstructionView::CreateTitle {
                    rank,
                    kind,
                    required_stake_lamports,
                    coat_of_arms,
                    display_name,
                    liege_address,
                    liege_vassal_index,
                } => {
                    if old(accounts)@.len() < 5 {
                        r == Err::<(), TitleError>(TitleError::InvalidArgument) && final(accounts)@ == old(accounts)@
                    } else {
                        &&& forall|i: int|
                            0 <= i < final(accounts)@.len() && i != 2 && i != 3 ==> final(accounts)@[i] == old(accounts)@[i]
                        &&& match create_title_result(
                            noble_program_id@,
                            old(accounts)@[0]@,
                            old(accounts)@[1]@,
                            old(accounts)@[2]@,
                            old(accounts)@[3]@,
                            rank,
                            kind,
                            required_stake_lamports,
                            coat_of_arms,
                            display_name,
                            liege_address,
                            liege_vassal_index,
                        ) {
                            Ok(p) => {
                                &&& r is Ok
                                &&& final(accounts)@[2]@ == account_created(
                                    old(accounts)@[2]@,
                                    p.0,
                                    noble_program_id@,
                                )
                                &&& match p.1 {
                                    Some(lb) => final(accounts)@[3]@ == account_with_data(
                                        old(accounts)@[3]@,
                                        lb,
                                    ),
                                    None => final(accounts)@[3]@ == old(accounts)@[3]@,
                                }
                            },
                            Err(e) => {
                                &&& r == Err::<(), TitleError>(e)
                                &&& final(accounts)@[2]@ == old(accounts)@[2]@
                                &&& if e == TitleError::AllocationConflict && rank > 1 {
                                    final(accounts)@[3]@ == account_with_data(
                                        old(accounts)@[3]@,
                                        spec_title_bytes(
                                            liege_after_append(
                                                spec_parse_title(old(accounts)@[3]@.data).unwrap(),
                                                old(accounts)@[2]@.address,
                                            ),
                                        ),
                                    )
                                } else {
                                    final(accounts)@[3]@ == old(accounts)@[3]@
                                }
                            },
                        }
                    }
                },
            },
        },
{
    let insn = match TitleInstruction::decode(input) {
        Ok(i) => i,
        Err(e) => { return Err(e); },
    };
    match insn {
        TitleInstruction::CreateHouse { coat_of_arms, display_name } => {
            if accounts.len() < 3 {
                return Err(TitleError::InvalidArgument);
            }
            let wallet = (&accounts[0]).dup();
            let mut house = (&accounts[1]).dup();
            let system_account = (&accounts[2]).dup();
            let outcome = process_create_house_account(
                noble_program_id,
                &wallet,
                &mut house,
                &system_account,
                &coat_of_arms,
                &display_name,
            );
            accounts[1] = house;
            outcome
        },
        TitleInstruction::CreateTitle {
            rank,
            kind,
            required_stake_lamports,
            coat_of_arms,
            display_name,
            liege_address,
            liege_vassal_index,
        } => {
            if accounts.len() < 5 {
                return Err(TitleError::InvalidArgument);
            }
            let wallet = (&accounts[0]).dup();
            let house = (&accounts[1]).dup();
            let mut new_title = (&accounts[2]).dup();
            let mut liege_title = (&accounts[3]).dup();
            let system_account = (&accounts[4]).dup();
            let outcome = process_create_title_account(
                noble_program_id,
                &wallet,
                &house,
                &mut new_title,
                &mut liege_title,
                &system_account,
                rank,
                kind,
                required_stake_lamports,
                &coat_of_arms,
                &display_name,
                &liege_address,
                liege_vassal_index,
            );
            accounts[2] = new_title;
            accounts[3] = liege_title;
            outcome
        },
    }
}

/// Whatever a Title record was parsed from, it is well formed.
pub proof fn lemma_parse_title_wf(s: Seq<u8>)
    ensures
        spec_parse_title(s) matches Some(v) ==> v.wf(),
{
}

/// Law: a root title never names a liege. With the account, allocator
/// and kind checks otherwise passing, CreateTitle with rank 1 and a
/// non-empty liege address is rejected as an invalid argument.
pub proof fn lemma_create_title_root_with_liege_rejected(
    program_id: Seq<u8>,
    wallet: AccountView,
    house: AccountView,
    new_title: AccountView,
    liege_acct: AccountView,
    kind: u8,
    required_stake_lamports: u64,
    coat_of_arms: Seq<u8>,
    display_name: Seq<u8>,
    liege_address: Seq<u8>,
    liege_vassal_index: u8,
)
    requires
        wallet.is_signer,
        wallet.is_writable,
        new_title.is_writable,
        liege_acct.is_writable,
        wallet.owner == zero_address(),
        1 <= kind <= 2,
        liege_address != zero_address(),
    ensures
        create_title_result(
            program_id,
            wallet,
            house,
            new_title,
            liege_acct,
            1,
            kind,
            required_stake_lamports,
            coat_of_arms,
            display_name,
            liege_address,
            liege_vassal_index,
        ) == Err::<(Seq<u8>, Option<Seq<u8>>), TitleError>(TitleError::InvalidArgument),
{
}

/// Law: a non-root title always names a liege. With the account,
/// allocator and kind checks otherwise passing, CreateTitle with rank
/// above 1 and the empty liege sentinel is rejected as an invalid
/// argument.
pub proof fn lemma_create_title_nonroot_without_liege_rejected(
    program_id: Seq<u8>,
    wallet: AccountView,
    house: AccountView,
    new_title: AccountView,
    liege_acct: AccountView,
    rank: u8,
    kind: u8,
    required_stake_lamports: u64,
    coat_of_arms: Seq<u8>,
    display_name: Seq<u8>,
    liege_vassal_index: u8,
)
    requires
        wallet.is_signer,
        wallet.is_writable,
        new_title.is_writable,
        wallet.owner == zero_address(),
        1 < rank <= 8,
        1 <= kind <= 2,
    ensures
        create_title_result(
            program_id,
            wallet,
            house,
            new_title,
            liege_acct,
            rank,
            kind,
            required_stake_lamports,
            coat_of_arms,
            display_name,
            zero_address(),
            liege_vassal_index,
        ) == Err::<(Seq<u8>, Option<Seq<u8>>), TitleError>(TitleError::InvalidArgument),
{
}

/// Law: a root title with the empty liege sentinel is accepted. With
/// every account and argument check passing and the target address still
/// unallocated, CreateTitle with rank 1 succeeds and writes a fresh root
/// Title record, touching no liege.
pub proof fn lemma_create_title_root_succeeds(
    program_id: Seq<u8>,
    wallet: AccountView,
    house: AccountView,
    new_title: AccountView,
    liege_acct: AccountView,
    kind: u8,
    required_stake_lamports: u64,
    coat_of_arms: Seq<u8>,
    display_name: Seq<u8>,
    liege_vassal_index: u8,
)
    requires
        wallet.is_signer,
        wallet.is_writable,
        new_title.is_writable,
        wallet.owner == zero_address(),
        1 <= kind <= 2,
        house_pda(wallet.address, program_id) matches Some(hp) && hp.0 == house.address,
        title_pda(liege_acct.address, liege_vassal_index, program_id) matches Some(tp) && tp.0
            == new_title.address,
        new_title.data.len() == 0,
    ensures
        create_title_result(
            program_id,
            wallet,
            house,
            new_title,
            liege_acct,
            1,
            kind,
            required_stake_lamports,
            coat_of_arms,
            display_name,
            zero_address(),
            liege_vassal_index,
        ) == Ok::<(Seq<u8>, Option<Seq<u8>>), TitleError>(
            (
                spec_title_bytes(
                    new_title_view(
                        1,
                        kind,
                        required_stake_lamports,
                        coat_of_arms,
                        display_name,
                        house.address,
                        liege_acct.address,
                        liege_vassal_index,
                    ),
                ),
                None,
            ),
        ),
{
}

/// Law: vassal indices are append-only, contiguous and zero-based. With
/// every earlier check passing and the caller's House holding the liege,
/// a CreateTitle that targets a liege with `k` existing vassals is
/// rejected as an invalid argument whenever its vassal index is not
/// exactly `k`.
pub proof fn lemma_create_title_vassal_index_must_match(
    program_id: Seq<u8>,
    wallet: AccountView,
    house: AccountView,
    new_title: AccountView,
    liege_acct: AccountView,
    rank: u8,
    kind: u8,
    required_stake_lamports: u64,
    coat_of_arms: Seq<u8>,
    display_name: Seq<u8>,
    liege_address: Seq<u8>,
    liege_vassal_index: u8,
)
    requires
        wallet.is_signer,
        wallet.is_writable,
        new_title.is_writable,
        liege_acct.is_writable,
        wallet.owner == zero_address(),
        1 < rank <= 8,
        1 <= kind <= 2,
        liege_address != zero_address(),
        house_pda(wallet.address, program_id) matches Some(hp) && hp.0 == house.address,
        title_pda(liege_acct.address, liege_vassal_index, program_id) matches Some(tp) && tp.0
            == new_title.address,
        spec_parse_title(liege_acct.data) matches Some(ld) && ld.holder_house_address
            == house.address && ld.vassal_addresses.len() != liege_vassal_index,
    ensures
        create_title_result(
            program_id,
            wallet,
            house,
            new_title,
            liege_acct,
            rank,
            kind,
            required_stake_lamports,
            coat_of_arms,
            display_name,
            liege_address,
            liege_vassal_index,
        ) == Err::<(Seq<u8>, Option<Seq<u8>>), TitleError>(TitleError::InvalidArgument),
{
}

/// Law: a vassal created at the next free index extends the liege's
/// vassal list by exactly one entry, the new title's address. With every
/// check passing, a liege holding `k` vassals (below the fan-out cap)
/// accepts index `k`, and the persisted liege record reads back with
/// `k + 1` vassals whose last entry is the new title's address.
pub proof fn lemma_create_title_vassal_append(
    program_id: Seq<u8>,
    wallet: AccountView,
    house: AccountView,
    new_title: AccountView,
    liege_acct: AccountView,
    rank: u8,
    kind: u8,
    required_stake_lamports: u64,
    coat_of_arms: Seq<u8>,
    display_name: Seq<u8>,
    liege_address: Seq<u8>,
    liege_vassal_index: u8,
)
    requires
        wallet.is_signer,
        wallet.is_writable,
        new_title.is_writable,
        liege_acct.is_writable,
        wallet.owner == zero_address(),
        1 < rank <= 8,
        1 <= kind <= 2,
        liege_address != zero_address(),
        house_pda(wallet.address, program_id) matches Some(hp) && hp.0 == house.address,
        title_pda(liege_acct.address, liege_vassal_index, program_id) matches Some(tp) && tp.0
            == new_title.address,
        new_title.address.len() == 32,
        new_title.data.len() == 0,
        spec_parse_title(liege_acct.data) matches Some(ld) && ld.holder_house_address
            == house.address && ld.vassal_addresses.len() == liege_vassal_index && ld.rank < rank
            && ld.vassal_addresses.len() < 64,
    ensures
        ({
            let res = create_title_result(
                program_id,
                wallet,
                house,
                new_title,
                liege_acct,
                rank,
                kind,
                required_stake_lamports,
                coat_of_arms,
                display_name,
                liege_address,
                liege_vassal_index,
            );
            let ld = spec_parse_title(liege_acct.data).unwrap();
            &&& res matches Ok(p) && p.1 matches Some(lb) && spec_parse_title(lb) == Some(
                liege_after_append(ld, new_title.address),
            )
            &&& liege_after_append(ld, new_title.address).vassal_addresses.len()
                == ld.vassal_addresses.len() + 1
            &&& liege_after_append(ld, new_title.address).vassal_addresses.last()
                == new_title.address
        }),
{
    let ld = spec_parse_title(liege_acct.data).unwrap();
    lemma_parse_title_wf(liege_acct.data);
    crate::state::lemma_title_round_trip(liege_after_append(ld, new_title.address));
}

/// Law: only the holder of the liege may mint a vassal under it. With
/// every earlier check passing, a CreateTitle whose liege names a holder
/// House other than the caller's is rejected as an authority mismatch,
/// whatever the remaining arguments are.
pub proof fn lemma_create_title_authority_required(
    program_id: Seq<u8>,
    wallet: AccountView,
    house: AccountView,
    new_title: AccountView,
    liege_acct: AccountView,
    rank: u8,
    kind: u8,
    required_stake_lamports: u64,
    coat_of_arms: Seq<u8>,
    display_name: Seq<u8>,
    liege_address: Seq<u8>,
    liege_vassal_index: u8,
)
    requires
        wallet.is_signer,
        wallet.is_writable,
        new_title.is_writable,
        liege_acct.is_writable,
        wallet.owner == zero_address(),
        1 < rank <= 8,
        1 <= kind <= 2,
        liege_address != zero_address(),
        house_pda(wallet.address, program_id) matches Some(hp) && hp.0 == house.address,
        title_pda(liege_acct.address, liege_vassal_index, program_id) matches Some(tp) && tp.0
            == new_title.address,
        spec_parse_title(liege_acct.data) matches Some(ld) && ld.holder_house_address
            != house.address,
    ensures
        create_title_result(
            program_id,
            wallet,
            house,
            new_title,
            liege_acct,
            rank,
            kind,
            required_stake_lamports,
            coat_of_arms,
            display_name,
            liege_address,
            liege_vassal_index,
        ) == Err::<(Seq<u8>, Option<Seq<u8>>), TitleError>(TitleError::AuthorityMismatch),
{
}

} // verus!
