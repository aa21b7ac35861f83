use nobilitydao::addr::Address;
use nobilitydao::error::TitleError;
use nobilitydao::instruction::TitleInstruction;
use nobilitydao::state::{HouseData, TitleData};

fn addr(byte: u8) -> Address {
    Address::new(vec![byte; 32])
}

#[test]
fn serialize_data() {
    let test_record_data: HouseData = HouseData {
        version: 1,
        governance_token_supply: 1,
        coat_of_arms: vec![0; 128],
        display_name: vec![0; 128],
        prestige: 10000,
        virtue: 10000,
    };
    let encoded = test_record_data.serialize();
    assert_eq!(encoded.len(), HouseData::SIZE);
    // version = 1 and supply = 1, both little-endian u16
    assert_eq!(&encoded[..4], &[1, 0, 1, 0]);
    // prestige = 10000 little-endian at its fixed offset
    assert_eq!(&encoded[260..264], &[16, 39, 0, 0]);
    let back = HouseData::deserialize(&encoded).unwrap();
    assert_eq!(back.version, test_record_data.version);
    assert_eq!(back.governance_token_supply, test_record_data.governance_token_supply);
    assert_eq!(back.coat_of_arms, test_record_data.coat_of_arms);
    assert_eq!(back.display_name, test_record_data.display_name);
    assert_eq!(back.prestige, test_record_data.prestige);
    assert_eq!(back.virtue, test_record_data.virtue);
}

#[test]
fn house_round_trip_nonzero_fields() {
    let mut coat = b"https://example.com/arms.png".to_vec();
    coat.resize(128, 0);
    let mut name = b"House of Test".to_vec();
    name.resize(128, 0);
    let record = HouseData {
        version: 1,
        governance_token_supply: 3,
        coat_of_arms: coat.clone(),
        display_name: name.clone(),
        prestige: -5,
        virtue: i32::MIN,
    };
    let encoded = record.serialize();
    assert_eq!(encoded.len(), 268);
    let back = HouseData::deserialize(&encoded).unwrap();
    assert_eq!(back.coat_of_arms, coat);
    assert_eq!(back.display_name, name);
    assert_eq!(back.prestige, -5);
    assert_eq!(back.virtue, i32::MIN);
    assert!(back.is_initialized());
}

#[test]
fn house_deserialize_wrong_size_fails() {
    let r = HouseData::deserialize(&vec![0u8; 267]);
    assert_eq!(r.unwrap_err(), TitleError::DeserializationFailure);
}

fn sample_title(vassals: Vec<Address>) -> TitleData {
    let mut coat = b"https://example.com/title.png".to_vec();
    coat.resize(128, 0);
    let mut name = b"Duke of Test".to_vec();
    name.resize(128, 0);
    TitleData {
        version: 1,
        lifecycle_state: 1,
        rank: 3,
        kind: 1,
        required_stake_lamports: 5_000_000,
        sale_price_lamports: 5_000_000,
        coat_of_arms: coat,
        display_name: name,
        holder_house_address: addr(9),
        stake_address: Address::zero(),
        liege_address: addr(4),
        liege_vassal_index: 2,
        vassal_addresses: vassals,
    }
}

#[test]
fn title_round_trip_no_vassals() {
    let record = sample_title(Vec::new());
    let encoded = record.serialize();
    assert_eq!(encoded.len(), TitleData::SIZE);
    let back = TitleData::deserialize(&encoded).unwrap();
    assert_eq!(back.rank, 3);
    assert_eq!(back.kind, 1);
    assert_eq!(back.required_stake_lamports, 5_000_000);
    assert_eq!(back.holder_house_address.bytes, vec![9u8; 32]);
    assert_eq!(back.liege_address.bytes, vec![4u8; 32]);
    assert_eq!(back.liege_vassal_index, 2);
    assert!(back.vassal_addresses.is_empty());
    assert!(back.is_initialized());
}

#[test]
fn title_round_trip_max_vassals() {
    let mut vassals = Vec::new();
    for i in 0..64u8 {
        vassals.push(addr(i));
    }
    let record = sample_title(vassals);
    let encoded = record.serialize();
    assert_eq!(encoded.len(), TitleData::SIZE);
    let back = TitleData::deserialize(&encoded).unwrap();
    assert_eq!(back.vassal_addresses.len(), 64);
    for i in 0..64u8 {
        assert_eq!(back.vassal_addresses[i as usize].bytes, vec![i; 32]);
    }
}

#[test]
fn title_size_independent_of_vassal_count() {
    let none = sample_title(Vec::new()).serialize();
    let some = sample_title(vec![addr(1), addr(2)]).serialize();
    assert_eq!(none.len(), some.len());
    assert_eq!(none.len(), TitleData::SIZE);
}

#[test]
fn title_deserialize_rejects_bad_count() {
    let record = sample_title(Vec::new());
    let mut encoded = record.serialize();
    // vassal count field sits after the fixed prefix; 65 is over the cap
    encoded[373] = 65;
    let r = TitleData::deserialize(&encoded);
    assert_eq!(r.unwrap_err(), TitleError::DeserializationFailure);
}

#[test]
fn instruction_round_trip_create_house() {
    let insn = TitleInstruction::CreateHouse {
        coat_of_arms: b"".to_vec(),
        display_name: b"House of A".to_vec(),
    };
    let encoded = insn.encode();
    assert_eq!(encoded[0], 0);
    let back = TitleInstruction::decode(&encoded).unwrap();
    match back {
        TitleInstruction::CreateHouse { coat_of_arms, display_name } => {
            assert_eq!(coat_of_arms, b"".to_vec());
            assert_eq!(display_name, b"House of A".to_vec());
        }
        _ => panic!("wrong variant"),
    }
}

#[test]
fn instruction_round_trip_create_title() {
    let insn = TitleInstruction::CreateTitle {
        rank: 2,
        kind: 1,
        required_stake_lamports: 1000,
        coat_of_arms: b"https://example.com/a.png".to_vec(),
        display_name: b"Emperor".to_vec(),
        liege_address: addr(5),
        liege_vassal_index: 7,
    };
    let encoded = insn.encode();
    assert_eq!(encoded[0], 1);
    let back = TitleInstruction::decode(&encoded).unwrap();
    match back {
        TitleInstruction::CreateTitle {
            rank,
            kind,
            required_stake_lamports,
            coat_of_arms,
            display_name,
            liege_address,
            liege_vassal_index,
        } => {
            assert_eq!(rank, 2);
            assert_eq!(kind, 1);
            assert_eq!(required_stake_lamports, 1000);
            assert_eq!(coat_of_arms, b"https://example.com/a.png".to_vec());
            assert_eq!(display_name, b"Emperor".to_vec());
            assert_eq!(liege_address.bytes, vec![5u8; 32]);
            assert_eq!(liege_vassal_index, 7);
        }
        _ => panic!("wrong variant"),
    }
}

#[test]
fn instruction_decode_rejects_garbage() {
    assert_eq!(
        TitleInstruction::decode(&vec![]).unwrap_err(),
        TitleError::DeserializationFailure
    );
    assert_eq!(
        TitleInstruction::decode(&vec![9, 0, 0]).unwrap_err(),
        TitleError::DeserializationFailure
    );
    // a CreateHouse whose text claims to run past the end
    assert_eq!(
        TitleInstruction::decode(&vec![0, 200, 0, 0, 0]).unwrap_err(),
        TitleError::DeserializationFailure
    );
    // trailing bytes are refused
    let insn = TitleInstruction::CreateHouse {
        coat_of_arms: b"".to_vec(),
        display_name: b"x".to_vec(),
    };
    let mut encoded = insn.encode();
    encoded.push(0);
    assert_eq!(
        TitleInstruction::decode(&encoded).unwrap_err(),
        TitleError::DeserializationFailure
    );
}

#[test]
fn uninitialized_records_detected() {
    let mut house = HouseData {
        version: 1,
        governance_token_supply: 1,
        coat_of_arms: vec![0; 128],
        display_name: vec![0; 128],
        prestige: 0,
        virtue: 0,
    };
    assert!(house.is_initialized());
    house.version = 2;
    assert!(!house.is_initialized());
    house.version = 1;
    house.governance_token_supply = 0;
    assert!(!house.is_initialized());

    let mut title = sample_title(Vec::new());
    assert!(title.is_initialized());
    title.rank = 0;
    assert!(!title.is_initialized());
}

#[test]
fn error_messages_name_the_failure() {
    assert_eq!(TitleError::AuthorityMismatch.message(), "incorrect authority");
    assert_eq!(TitleError::AllocationConflict.message(), "address already in use");
    assert_eq!(
        TitleError::AddressDerivationMismatch.message(),
        "account does not match seed derivation"
    );
}
