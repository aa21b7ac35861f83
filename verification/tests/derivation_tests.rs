use nobilitydao::addr::Address;
use nobilitydao::{get_house_address, get_title_address};
use solana_program::pubkey::Pubkey;

fn addr(byte: u8) -> Address {
    Address::new(vec![byte; 32])
}

fn program_id() -> Address {
    let mut bytes = vec![0u8; 32];
    for (i, b) in bytes.iter_mut().enumerate() {
        *b = (i as u8).wrapping_mul(31).wrapping_add(11);
    }
    Address::new(bytes)
}

#[test]
fn house_derivation_is_deterministic() {
    let wallet = addr(42);
    let program = program_id();
    let first = get_house_address(&wallet, &program).unwrap();
    let second = get_house_address(&wallet, &program).unwrap();
    assert_eq!(first.bytes, second.bytes);
}

#[test]
fn title_derivation_is_deterministic() {
    let liege = addr(3);
    let program = program_id();
    let first = get_title_address(&liege, 5, &program).unwrap();
    let second = get_title_address(&liege, 5, &program).unwrap();
    assert_eq!(first.bytes, second.bytes);
}

#[test]
fn house_derivation_matches_host_search() {
    // The same search run directly against the host library must agree.
    let wallet = addr(42);
    let program = program_id();
    let derived = get_house_address(&wallet, &program).unwrap();
    let pk_program = Pubkey::new_from_array(program.bytes.clone().try_into().unwrap());
    let (expected, _bump) =
        Pubkey::find_program_address(&[&wallet.bytes], &pk_program);
    assert_eq!(derived.bytes, expected.to_bytes().to_vec());
}

#[test]
fn derived_house_addresses_are_off_curve() {
    let program = program_id();
    let mut seed_byte = 1u8;
    for _ in 0..16 {
        let mut wallet_bytes = vec![0u8; 32];
        for b in wallet_bytes.iter_mut() {
            seed_byte = seed_byte.wrapping_mul(167).wrapping_add(13);
            *b = seed_byte;
        }
        let wallet = Address::new(wallet_bytes.clone());
        let derived = get_house_address(&wallet, &program).unwrap();
        assert_ne!(derived.bytes, wallet_bytes);
        let pk = Pubkey::new_from_array(derived.bytes.clone().try_into().unwrap());
        assert!(!pk.is_on_curve());
    }
}

#[test]
fn derived_title_addresses_are_off_curve() {
    let program = program_id();
    for index in [0u8, 1, 7, 63, 255] {
        let liege = addr(index.wrapping_add(2));
        let derived = get_title_address(&liege, index, &program).unwrap();
        let pk = Pubkey::new_from_array(derived.bytes.clone().try_into().unwrap());
        assert!(!pk.is_on_curve());
    }
}

#[test]
fn distinct_vassal_indexes_derive_distinct_addresses() {
    let program = program_id();
    let liege = addr(8);
    let a = get_title_address(&liege, 0, &program).unwrap();
    let b = get_title_address(&liege, 1, &program).unwrap();
    assert_ne!(a.bytes, b.bytes);
}
