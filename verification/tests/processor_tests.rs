use nobilitydao::addr::Address;
use nobilitydao::error::TitleError;
use nobilitydao::instruction;
use nobilitydao::processor::{
    process_create_house_account, process_create_title_account, process_instruction, Account,
};
use nobilitydao::state::{HouseData, TitleData};
use nobilitydao::{get_house_address, get_title_address};

fn addr(byte: u8) -> Address {
    Address::new(vec![byte; 32])
}

fn program_id() -> Address {
    addr(77)
}

fn wallet_account(address: &Address) -> Account {
    Account {
        address: address.dup(),
        owner: Address::zero(),
        is_signer: true,
        is_writable: true,
        data: Vec::new(),
    }
}

fn fresh_account(address: &Address, writable: bool) -> Account {
    Account {
        address: address.dup(),
        owner: Address::zero(),
        is_signer: false,
        is_writable: writable,
        data: Vec::new(),
    }
}

fn system_account() -> Account {
    fresh_account(&Address::zero(), false)
}

/// Run CreateHouse end to end through the instruction pipeline and hand
/// back the written House account.
fn make_house(wallet_address: &Address, display_name: &[u8]) -> Account {
    let program = program_id();
    let house_address = get_house_address(wallet_address, &program).unwrap();
    let ix = instruction::create_house(
        wallet_address,
        &house_address,
        &Vec::new(),
        &display_name.to_vec(),
        &program,
    );
    let mut accounts = vec![
        wallet_account(wallet_address),
        fresh_account(&house_address, true),
        system_account(),
    ];
    let r = process_instruction(&program, &mut accounts, &ix.data);
    assert_eq!(r, Ok(()));
    accounts.remove(1)
}

/// Create the root title under wallet `a`'s house, returning the written
/// root Title account.
fn make_root_title(wallet: &Address, house: &Account, stake: u64) -> Account {
    let program = program_id();
    let zero = Address::zero();
    let root_address = get_title_address(&zero, 0, &program).unwrap();
    let mut new_title = fresh_account(&root_address, true);
    let mut liege = fresh_account(&zero, true);
    let r = process_create_title_account(
        &program,
        &wallet_account(wallet),
        house,
        &mut new_title,
        &mut liege,
        &system_account(),
        1,
        1,
        stake,
        &Vec::new(),
        &b"Deus".to_vec(),
        &zero,
        0,
    );
    assert_eq!(r, Ok(()));
    new_title
}

#[test]
fn scenario_house_root_and_foreign_vassal() {
    let program = program_id();
    let wallet_a = addr(1);
    let wallet_b = addr(2);

    // Wallet A creates its House with an empty coat of arms.
    let house_a = make_house(&wallet_a, b"House of A");
    let record = HouseData::deserialize(&house_a.data).unwrap();
    assert_eq!(record.version, HouseData::CURRENT_VERSION);
    assert_eq!(record.governance_token_supply, 1);
    assert_eq!(record.prestige, 0);
    assert_eq!(record.virtue, 0);
    let mut expected_name = b"House of A".to_vec();
    expected_name.resize(128, 0);
    assert_eq!(record.display_name, expected_name);
    assert_eq!(house_a.owner.bytes, program.bytes);
    assert_eq!(
        house_a.address.bytes,
        get_house_address(&wallet_a, &program).unwrap().bytes
    );

    // The root title appears at the derivation from the zero sentinel.
    let root = make_root_title(&wallet_a, &house_a, 1000);
    let root_record = TitleData::deserialize(&root.data).unwrap();
    assert_eq!(root_record.rank, 1);
    assert_eq!(root_record.kind, 1);
    assert_eq!(root_record.lifecycle_state, TitleData::INACTIVE_STATE);
    assert_eq!(root_record.required_stake_lamports, 1000);
    assert_eq!(root_record.sale_price_lamports, 1000);
    assert_eq!(root_record.holder_house_address.bytes, house_a.address.bytes);
    assert_eq!(root_record.liege_address.bytes, vec![0u8; 32]);
    assert!(root_record.vassal_addresses.is_empty());

    // Wallet B owns its own House, but the root is held by A's House:
    // minting a vassal under it must fail as an authority mismatch.
    let house_b = make_house(&wallet_b, b"House of B");
    let vassal_address = get_title_address(&root.address, 0, &program).unwrap();
    let mut new_title = fresh_account(&vassal_address, true);
    let mut liege = root.dup();
    liege.is_writable = true;
    let r = process_create_title_account(
        &program,
        &wallet_account(&wallet_b),
        &house_b,
        &mut new_title,
        &mut liege,
        &system_account(),
        2,
        1,
        500,
        &Vec::new(),
        &b"Emperor".to_vec(),
        &root.address,
        0,
    );
    assert_eq!(r, Err(TitleError::AuthorityMismatch));
    assert!(new_title.data.is_empty());
    assert_eq!(liege.data, root.data);

    // The holder itself may mint the vassal.
    let mut liege = root.dup();
    liege.is_writable = true;
    let r = process_create_title_account(
        &program,
        &wallet_account(&wallet_a),
        &house_a,
        &mut new_title,
        &mut liege,
        &system_account(),
        2,
        1,
        500,
        &Vec::new(),
        &b"Emperor".to_vec(),
        &root.address,
        0,
    );
    assert_eq!(r, Ok(()));
    let vassal_record = TitleData::deserialize(&new_title.data).unwrap();
    assert_eq!(vassal_record.rank, 2);
    assert_eq!(vassal_record.liege_address.bytes, root.address.bytes);
    assert_eq!(vassal_record.liege_vassal_index, 0);
    let liege_record = TitleData::deserialize(&liege.data).unwrap();
    assert_eq!(liege_record.vassal_addresses.len(), 1);
    assert_eq!(liege_record.vassal_addresses[0].bytes, new_title.address.bytes);
}

#[test]
fn root_title_with_liege_rejected() {
    let program = program_id();
    let wallet = addr(3);
    let house = make_house(&wallet, b"House");
    let liege_address = addr(9);
    let new_title_address = get_title_address(&liege_address, 0, &program).unwrap();
    let mut new_title = fresh_account(&new_title_address, true);
    let mut liege = fresh_account(&liege_address, true);
    let r = process_create_title_account(
        &program,
        &wallet_account(&wallet),
        &house,
        &mut new_title,
        &mut liege,
        &system_account(),
        1,
        1,
        1000,
        &Vec::new(),
        &b"Deus".to_vec(),
        &liege_address,
        0,
    );
    assert_eq!(r, Err(TitleError::InvalidArgument));
    assert!(new_title.data.is_empty());
}

#[test]
fn nonroot_title_without_liege_rejected() {
    let program = program_id();
    let wallet = addr(3);
    let house = make_house(&wallet, b"House");
    let zero = Address::zero();
    let new_title_address = get_title_address(&zero, 0, &program).unwrap();
    let mut new_title = fresh_account(&new_title_address, true);
    let mut liege = fresh_account(&zero, true);
    let r = process_create_title_account(
        &program,
        &wallet_account(&wallet),
        &house,
        &mut new_title,
        &mut liege,
        &system_account(),
        2,
        1,
        1000,
        &Vec::new(),
        &b"Emperor".to_vec(),
        &zero,
        0,
    );
    assert_eq!(r, Err(TitleError::InvalidArgument));
    assert!(new_title.data.is_empty());
}

#[test]
fn root_title_with_empty_liege_succeeds() {
    let wallet = addr(4);
    let house = make_house(&wallet, b"House");
    let root = make_root_title(&wallet, &house, 2000);
    let record = TitleData::deserialize(&root.data).unwrap();
    assert_eq!(record.rank, 1);
}

/// Attempt to add a vassal at `index` under a liege that the house holds.
fn try_vassal_at(
    wallet: &Address,
    house: &Account,
    liege: &mut Account,
    index: u8,
    rank: u8,
) -> (Result<(), TitleError>, Account) {
    let program = program_id();
    let liege_address = liege.address.dup();
    let vassal_address = get_title_address(&liege_address, index, &program).unwrap();
    let mut new_title = fresh_account(&vassal_address, true);
    let r = process_create_title_account(
        &program,
        &wallet_account(wallet),
        house,
        &mut new_title,
        liege,
        &system_account(),
        rank,
        1,
        500,
        &Vec::new(),
        &b"Vassal".to_vec(),
        &liege_address,
        index,
    );
    (r, new_title)
}

#[test]
fn vassal_index_must_equal_current_count() {
    let wallet = addr(5);
    let house = make_house(&wallet, b"House");
    let mut root = make_root_title(&wallet, &house, 1000);
    root.is_writable = true;

    // no vassals yet: indexes other than 0 are rejected
    let (r, _) = try_vassal_at(&wallet, &house, &mut root, 1, 2);
    assert_eq!(r, Err(TitleError::InvalidArgument));
    let (r, _) = try_vassal_at(&wallet, &house, &mut root, 7, 2);
    assert_eq!(r, Err(TitleError::InvalidArgument));
    assert_eq!(TitleData::deserialize(&root.data).unwrap().vassal_addresses.len(), 0);

    // index 0 extends the list to one entry
    let (r, first) = try_vassal_at(&wallet, &house, &mut root, 0, 2);
    assert_eq!(r, Ok(()));
    let root_record = TitleData::deserialize(&root.data).unwrap();
    assert_eq!(root_record.vassal_addresses.len(), 1);
    assert_eq!(root_record.vassal_addresses[0].bytes, first.address.bytes);

    // with one vassal, index 0 is taken and index 1 is the only one accepted
    let (r, _) = try_vassal_at(&wallet, &house, &mut root, 0, 2);
    assert_eq!(r, Err(TitleError::InvalidArgument));
    let (r, second) = try_vassal_at(&wallet, &house, &mut root, 1, 2);
    assert_eq!(r, Ok(()));
    let root_record = TitleData::deserialize(&root.data).unwrap();
    assert_eq!(root_record.vassal_addresses.len(), 2);
    assert_eq!(root_record.vassal_addresses[1].bytes, second.address.bytes);
}

#[test]
fn vassal_rank_must_exceed_liege_rank() {
    let wallet = addr(6);
    let house = make_house(&wallet, b"House");
    let mut root = make_root_title(&wallet, &house, 1000);
    root.is_writable = true;
    // rank 1 under a liege is a root/liege mismatch; rank equal to the
    // liege's rank is rejected by the strict-increase rule, so start from
    // a rank-2 vassal and try to hang a rank-2 child under it.
    let (r, vassal) = try_vassal_at(&wallet, &house, &mut root, 0, 2);
    assert_eq!(r, Ok(()));
    let mut vassal_liege = vassal;
    vassal_liege.is_writable = true;
    let (r, _) = try_vassal_at(&wallet, &house, &mut vassal_liege, 0, 2);
    assert_eq!(r, Err(TitleError::InvalidArgument));
    let (r, _) = try_vassal_at(&wallet, &house, &mut vassal_liege, 0, 3);
    assert_eq!(r, Ok(()));
}

#[test]
fn create_house_error_cases() {
    let program = program_id();
    let wallet = addr(10);
    let house_address = get_house_address(&wallet, &program).unwrap();
    let coat: Vec<u8> = Vec::new();
    let name = b"House".to_vec();

    // missing signature
    let mut w = wallet_account(&wallet);
    w.is_signer = false;
    let mut house = fresh_account(&house_address, true);
    let r = process_create_house_account(&program, &w, &mut house, &system_account(), &coat, &name);
    assert_eq!(r, Err(TitleError::MissingSignature));

    // house account not writable
    let mut house = fresh_account(&house_address, false);
    let r = process_create_house_account(
        &program,
        &wallet_account(&wallet),
        &mut house,
        &system_account(),
        &coat,
        &name,
    );
    assert_eq!(r, Err(TitleError::InvalidWritability));

    // wallet owned by some other program than the system allocator
    let mut w = wallet_account(&wallet);
    w.owner = addr(50);
    let mut house = fresh_account(&house_address, true);
    let r = process_create_house_account(&program, &w, &mut house, &system_account(), &coat, &name);
    assert_eq!(r, Err(TitleError::WrongAllocatorIdentity));

    // supplied house account does not match the derivation
    let mut house = fresh_account(&addr(51), true);
    let r = process_create_house_account(
        &program,
        &wallet_account(&wallet),
        &mut house,
        &system_account(),
        &coat,
        &name,
    );
    assert_eq!(r, Err(TitleError::AddressDerivationMismatch));

    // the derived address already holds data
    let mut house = fresh_account(&house_address, true);
    house.data = vec![1, 2, 3];
    let r = process_create_house_account(
        &program,
        &wallet_account(&wallet),
        &mut house,
        &system_account(),
        &coat,
        &name,
    );
    assert_eq!(r, Err(TitleError::AllocationConflict));
    assert_eq!(house.data, vec![1, 2, 3]);
}

#[test]
fn create_title_rejects_bad_rank_and_kind() {
    let program = program_id();
    let wallet = addr(11);
    let house = make_house(&wallet, b"House");
    let zero = Address::zero();
    let root_address = get_title_address(&zero, 0, &program).unwrap();
    for (rank, kind) in [(0u8, 1u8), (9, 1), (1, 0), (1, 3)] {
        let mut new_title = fresh_account(&root_address, true);
        let mut liege = fresh_account(&zero, true);
        let r = process_create_title_account(
            &program,
            &wallet_account(&wallet),
            &house,
            &mut new_title,
            &mut liege,
            &system_account(),
            rank,
            kind,
            1000,
            &Vec::new(),
            &b"Deus".to_vec(),
            &zero,
            0,
        );
        assert_eq!(r, Err(TitleError::InvalidArgument));
    }
}

#[test]
fn create_title_rejects_malformed_liege_record() {
    let program = program_id();
    let wallet = addr(12);
    let house = make_house(&wallet, b"House");
    let liege_address = addr(13);
    let vassal_address = get_title_address(&liege_address, 0, &program).unwrap();
    let mut new_title = fresh_account(&vassal_address, true);
    let mut liege = fresh_account(&liege_address, true);
    liege.data = vec![0xFF; 40];  // not a Title record
    let r = process_create_title_account(
        &program,
        &wallet_account(&wallet),
        &house,
        &mut new_title,
        &mut liege,
        &system_account(),
        2,
        1,
        500,
        &Vec::new(),
        &b"Emperor".to_vec(),
        &liege_address,
        0,
    );
    assert_eq!(r, Err(TitleError::DeserializationFailure));
}

#[test]
fn create_title_allocation_conflict_leaves_liege_mutated() {
    // The vassal list is persisted before the new account is allocated,
    // so a conflict at the allocation step leaves the liege extended.
    let wallet = addr(14);
    let house = make_house(&wallet, b"House");
    let mut root = make_root_title(&wallet, &house, 1000);
    root.is_writable = true;
    let program = program_id();
    let root_address = root.address.dup();
    let vassal_address = get_title_address(&root_address, 0, &program).unwrap();
    let mut new_title = fresh_account(&vassal_address, true);
    new_title.data = vec![9; 4];  // address already in use
    let r = process_create_title_account(
        &program,
        &wallet_account(&wallet),
        &house,
        &mut new_title,
        &mut root,
        &system_account(),
        2,
        1,
        500,
        &Vec::new(),
        &b"Emperor".to_vec(),
        &root_address,
        0,
    );
    assert_eq!(r, Err(TitleError::AllocationConflict));
    assert_eq!(new_title.data, vec![9; 4]);
    let root_record = TitleData::deserialize(&root.data).unwrap();
    assert_eq!(root_record.vassal_addresses.len(), 1);
    assert_eq!(root_record.vassal_addresses[0].bytes, vassal_address.bytes);
}

#[test]
fn process_instruction_rejects_garbage_and_short_account_lists() {
    let program = program_id();
    let mut accounts = vec![wallet_account(&addr(15))];
    let r = process_instruction(&program, &mut accounts, &vec![250, 1, 2]);
    assert_eq!(r, Err(TitleError::DeserializationFailure));

    let ix = instruction::create_house(
        &addr(15),
        &addr(16),
        &Vec::new(),
        &b"House".to_vec(),
        &program,
    );
    let r = process_instruction(&program, &mut accounts, &ix.data);
    assert_eq!(r, Err(TitleError::InvalidArgument));
}

#[test]
fn create_title_through_process_instruction() {
    let program = program_id();
    let wallet = addr(17);
    let house = make_house(&wallet, b"House");
    let root = make_root_title(&wallet, &house, 1000);
    let vassal_address = get_title_address(&root.address, 0, &program).unwrap();
    let ix = instruction::create_title(
        &wallet,
        &house.address,
        &vassal_address,
        &root.address,
        2,
        1,
        500,
        0,
        &Vec::new(),
        &b"Emperor".to_vec(),
        &program,
    );
    let mut liege = root.dup();
    liege.is_writable = true;
    let mut accounts = vec![
        wallet_account(&wallet),
        house.dup(),
        fresh_account(&vassal_address, true),
        liege,
        system_account(),
    ];
    let r = process_instruction(&program, &mut accounts, &ix.data);
    assert_eq!(r, Ok(()));
    let vassal_record = TitleData::deserialize(&accounts[2].data).unwrap();
    assert_eq!(vassal_record.rank, 2);
    assert_eq!(vassal_record.holder_house_address.bytes, house.address.bytes);
    let liege_record = TitleData::deserialize(&accounts[3].data).unwrap();
    assert_eq!(liege_record.vassal_addresses.len(), 1);
}
