use review_program::{
    add_review, check_create, derive_address, init_record, process_instruction, update_review,
    Account, AccountState, ReviewError, ReviewInstruction, ACCOUNT_LEN,
};

const PROGRAM: [u8; 32] = [7u8; 32];
const AUTHOR_A: [u8; 32] = [1u8; 32];
const AUTHOR_B: [u8; 32] = [2u8; 32];

fn author(key: [u8; 32], is_signer: bool) -> Account {
    Account { key, owner: [0u8; 32], is_signer, data: Vec::new() }
}

fn fresh_slot(author_key: [u8; 32], title: &str) -> Account {
    let (key, _) = derive_address(&author_key, title, &PROGRAM).expect("derivable");
    Account { key, owner: [0u8; 32], is_signer: false, data: Vec::new() }
}

fn string_bytes(s: &str) -> Vec<u8> {
    let mut out = (s.len() as u32).to_le_bytes().to_vec();
    out.extend_from_slice(s.as_bytes());
    out
}

fn command(variant: u8, title: &str, rating: u8, description: &str) -> Vec<u8> {
    let mut out = vec![variant];
    out.extend(string_bytes(title));
    out.push(rating);
    out.extend(string_bytes(description));
    out
}

fn stored(slot: &Account) -> AccountState {
    AccountState::deserialize(&slot.data).expect("slot decodes")
}

fn created(author_key: [u8; 32], title: &str, rating: u8, description: &str) -> Account {
    let mut slot = fresh_slot(author_key, title);
    add_review(&PROGRAM, &author(author_key, true), &mut slot, title.to_string(), rating, description.to_string())
        .expect("create succeeds");
    slot
}

#[test]
fn scenario_create_update_and_foreign_author() {
    let a = author(AUTHOR_A, true);
    let mut slot = fresh_slot(AUTHOR_A, "Great Coffee");
    let r = add_review(&PROGRAM, &a, &mut slot, "Great Coffee".to_string(), 9, "Loved it".to_string());
    assert_eq!(r, Ok(()));
    assert_eq!(slot.owner, PROGRAM);
    assert_eq!(slot.data.len(), ACCOUNT_LEN);
    let s = stored(&slot);
    assert!(s.is_initialized);
    assert_eq!(s.rating, 9);
    assert_eq!(s.description, "Loved it");
    assert_eq!(s.title, "Great Coffee");

    let r = update_review(&PROGRAM, &a, &mut slot, "Great Coffee".to_string(), 10, "Still great".to_string());
    assert_eq!(r, Ok(()));
    let s = stored(&slot);
    assert!(s.is_initialized);
    assert_eq!(s.rating, 10);
    assert_eq!(s.description, "Still great");
    assert_eq!(s.title, "Great Coffee");

    let before = slot.data.clone();
    let b = author(AUTHOR_B, true);
    let r = update_review(&PROGRAM, &b, &mut slot, "Great Coffee".to_string(), 5, "Mine now".to_string());
    assert_eq!(r, Err(ReviewError::InvalidDerivedAddress));
    assert_eq!(slot.data, before);
}

#[test]
fn record_layout_is_flag_rating_description_title() {
    let slot = created(AUTHOR_A, "Tea", 3, "ok");
    let mut expected = vec![1u8, 3u8];
    expected.extend(string_bytes("ok"));
    expected.extend(string_bytes("Tea"));
    assert_eq!(&slot.data[..expected.len()], &expected[..]);
    assert!(slot.data[expected.len()..].iter().all(|b| *b == 0));
}

#[test]
fn derivation_is_deterministic() {
    let first = derive_address(&AUTHOR_A, "Great Coffee", &PROGRAM);
    let second = derive_address(&AUTHOR_A, "Great Coffee", &PROGRAM);
    assert!(first.is_some());
    assert_eq!(first, second);
}

#[test]
fn different_titles_or_authors_give_different_addresses() {
    let a = derive_address(&AUTHOR_A, "Great Coffee", &PROGRAM).unwrap();
    let b = derive_address(&AUTHOR_A, "Bad Coffee", &PROGRAM).unwrap();
    let c = derive_address(&AUTHOR_B, "Great Coffee", &PROGRAM).unwrap();
    assert_ne!(a.0, b.0);
    assert_ne!(a.0, c.0);
    assert_ne!(a.0, AUTHOR_A);
}

#[test]
fn title_longer_than_a_seed_has_no_address() {
    let title = "a".repeat(33);
    assert_eq!(derive_address(&AUTHOR_A, &title, &PROGRAM), None);
    let mut slot = Account { key: [9u8; 32], owner: [0u8; 32], is_signer: false, data: Vec::new() };
    let r = add_review(&PROGRAM, &author(AUTHOR_A, true), &mut slot, title, 5, "x".to_string());
    assert_eq!(r, Err(ReviewError::InvalidDerivedAddress));
}

#[test]
fn record_round_trip() {
    let state = AccountState {
        is_initialized: true,
        rating: 7,
        description: "caf\u{e9} \u{2615}".to_string(),
        title: "Espresso".to_string(),
    };
    let bytes = state.serialize();
    let back = AccountState::deserialize(&bytes).unwrap();
    assert!(back.is_initialized());
    assert_eq!(back.rating, 7);
    assert_eq!(back.description, "caf\u{e9} \u{2615}");
    assert_eq!(back.title, "Espresso");
    assert_eq!(back.serialize(), bytes);
}

#[test]
fn record_decoding_rejects_bad_bytes() {
    assert!(AccountState::deserialize(&[]).is_none());
    assert!(AccountState::deserialize(&[2, 5, 0, 0, 0, 0, 0, 0, 0, 0]).is_none());
    assert!(AccountState::deserialize(&[1, 5, 9, 0, 0, 0, 1, 2]).is_none());
    assert!(AccountState::deserialize(&[1, 5, 1, 0, 0, 0, 0xff, 0, 0, 0, 0]).is_none());
    let zeros = vec![0u8; 20];
    let s = AccountState::deserialize(&zeros).unwrap();
    assert!(!s.is_initialized);
    assert_eq!(s.rating, 0);
    assert_eq!(s.title, "");
}

#[test]
fn update_without_signature_is_refused() {
    let mut slot = created(AUTHOR_A, "Great Coffee", 9, "Loved it");
    let before = slot.data.clone();
    let r = update_review(&PROGRAM, &author(AUTHOR_A, false), &mut slot, "Great Coffee".to_string(), 5, "x".to_string());
    assert_eq!(r, Err(ReviewError::MissingSignature));
    let r = update_review(&PROGRAM, &author(AUTHOR_A, false), &mut slot, "Great Coffee".to_string(), 0, "x".to_string());
    assert_eq!(r, Err(ReviewError::MissingSignature));
    assert_eq!(slot.data, before);
}

#[test]
fn create_without_signature_is_refused() {
    let mut slot = fresh_slot(AUTHOR_A, "Great Coffee");
    let r = add_review(&PROGRAM, &author(AUTHOR_A, false), &mut slot, "Great Coffee".to_string(), 9, "x".to_string());
    assert_eq!(r, Err(ReviewError::MissingSignature));
    assert!(slot.data.is_empty());
    assert_eq!(slot.owner, [0u8; 32]);
}

#[test]
fn create_at_wrong_address_is_refused() {
    let mut slot = fresh_slot(AUTHOR_A, "Other");
    let r = add_review(&PROGRAM, &author(AUTHOR_A, true), &mut slot, "Great Coffee".to_string(), 9, "x".to_string());
    assert_eq!(r, Err(ReviewError::InvalidDerivedAddress));
}

#[test]
fn rating_bounds_on_create() {
    for rating in [0u8, 11, 255] {
        let mut slot = fresh_slot(AUTHOR_A, "Great Coffee");
        let r = add_review(&PROGRAM, &author(AUTHOR_A, true), &mut slot, "Great Coffee".to_string(), rating, "x".to_string());
        assert_eq!(r, Err(ReviewError::InvalidRating));
        assert!(slot.data.is_empty());
    }
    for rating in [1u8, 10] {
        let slot = created(AUTHOR_A, "Great Coffee", rating, "x");
        assert_eq!(stored(&slot).rating, rating);
    }
}

#[test]
fn rating_bounds_on_update() {
    let mut slot = created(AUTHOR_A, "Great Coffee", 5, "x");
    let a = author(AUTHOR_A, true);
    for rating in [0u8, 11, 255] {
        let r = update_review(&PROGRAM, &a, &mut slot, "Great Coffee".to_string(), rating, "y".to_string());
        assert_eq!(r, Err(ReviewError::InvalidRating));
        assert_eq!(stored(&slot).rating, 5);
    }
    for rating in [1u8, 10] {
        let r = update_review(&PROGRAM, &a, &mut slot, "Great Coffee".to_string(), rating, "y".to_string());
        assert_eq!(r, Ok(()));
        assert_eq!(stored(&slot).rating, rating);
    }
}

#[test]
fn second_create_fails_and_keeps_first_record() {
    let mut slot = created(AUTHOR_A, "Great Coffee", 9, "Loved it");
    let before = slot.data.clone();
    let r = add_review(&PROGRAM, &author(AUTHOR_A, true), &mut slot, "Great Coffee".to_string(), 2, "Meh".to_string());
    assert_eq!(r, Err(ReviewError::AccountAlreadyInUse));
    assert_eq!(slot.data, before);
    let s = stored(&slot);
    assert_eq!(s.rating, 9);
    assert_eq!(s.description, "Loved it");
}

#[test]
fn init_record_refuses_initialized_bytes() {
    let mut data = created(AUTHOR_A, "Great Coffee", 9, "Loved it").data;
    let before = data.clone();
    let r = init_record(&mut data, "Great Coffee".to_string(), 2, "Meh".to_string());
    assert_eq!(r, Err(ReviewError::AlreadyInitialized));
    assert_eq!(data, before);
    let mut bad = vec![3u8; 16];
    assert_eq!(init_record(&mut bad, "t".to_string(), 2, "d".to_string()), Err(ReviewError::CorruptState));
}

#[test]
fn check_create_returns_the_bump() {
    let (key, bump) = derive_address(&AUTHOR_A, "Great Coffee", &PROGRAM).unwrap();
    assert_eq!(check_create(&PROGRAM, &author(AUTHOR_A, true), &key, "Great Coffee", 4), Ok(bump));
    assert_eq!(check_create(&PROGRAM, &author(AUTHOR_A, true), &key, "Great Coffee", 0), Err(ReviewError::InvalidRating));
}

#[test]
fn update_ignores_command_title() {
    let mut slot = created(AUTHOR_A, "Great Coffee", 9, "Loved it");
    let r = update_review(&PROGRAM, &author(AUTHOR_A, true), &mut slot, "Renamed".to_string(), 4, "Changed".to_string());
    assert_eq!(r, Ok(()));
    let s = stored(&slot);
    assert_eq!(s.title, "Great Coffee");
    assert_eq!(s.description, "Changed");
    assert_eq!(s.rating, 4);
}

#[test]
fn update_on_foreign_slot_is_illegal_owner() {
    let mut slot = created(AUTHOR_A, "Great Coffee", 9, "Loved it");
    slot.owner = [3u8; 32];
    let r = update_review(&PROGRAM, &author(AUTHOR_A, false), &mut slot, "Great Coffee".to_string(), 5, "x".to_string());
    assert_eq!(r, Err(ReviewError::IllegalOwner));
}

#[test]
fn update_on_uninitialized_slot() {
    let mut slot = fresh_slot(AUTHOR_A, "");
    slot.owner = PROGRAM;
    slot.data = vec![0u8; ACCOUNT_LEN];
    let r = update_review(&PROGRAM, &author(AUTHOR_A, true), &mut slot, "".to_string(), 5, "x".to_string());
    assert_eq!(r, Err(ReviewError::UninitializedAccount));
}

#[test]
fn update_on_corrupt_slot() {
    let mut slot = created(AUTHOR_A, "Great Coffee", 9, "Loved it");
    slot.data[0] = 7;
    let r = update_review(&PROGRAM, &author(AUTHOR_A, true), &mut slot, "Great Coffee".to_string(), 5, "x".to_string());
    assert_eq!(r, Err(ReviewError::CorruptState));
}

#[test]
fn record_too_large_for_slot() {
    let mut slot = fresh_slot(AUTHOR_A, "Great Coffee");
    let long = "d".repeat(ACCOUNT_LEN);
    let r = add_review(&PROGRAM, &author(AUTHOR_A, true), &mut slot, "Great Coffee".to_string(), 5, long.clone());
    assert_eq!(r, Err(ReviewError::AccountDataTooSmall));
    assert!(slot.data.is_empty());
    let mut slot = created(AUTHOR_A, "Great Coffee", 9, "Loved it");
    let r = update_review(&PROGRAM, &author(AUTHOR_A, true), &mut slot, "Great Coffee".to_string(), 5, long);
    assert_eq!(r, Err(ReviewError::AccountDataTooSmall));
    let most = "d".repeat(ACCOUNT_LEN - 10 - "Great Coffee".len());
    let r = update_review(&PROGRAM, &author(AUTHOR_A, true), &mut slot, "Great Coffee".to_string(), 5, most.clone());
    assert_eq!(r, Ok(()));
    assert_eq!(stored(&slot).description, most);
}

#[test]
fn unpack_commands() {
    match ReviewInstruction::unpack(&command(0, "Great Coffee", 9, "Loved it")) {
        Ok(ReviewInstruction::AddReview { title, rating, description }) => {
            assert_eq!(title, "Great Coffee");
            assert_eq!(rating, 9);
            assert_eq!(description, "Loved it");
        }
        _ => panic!("expected a create command"),
    }
    match ReviewInstruction::unpack(&command(1, "T", 3, "")) {
        Ok(ReviewInstruction::UpdateReview { title, rating, description }) => {
            assert_eq!(title, "T");
            assert_eq!(rating, 3);
            assert_eq!(description, "");
        }
        _ => panic!("expected an update command"),
    }
}

#[test]
fn unpack_rejects_malformed_payloads() {
    let good = command(0, "Great Coffee", 9, "Loved it");
    let mut trailing = good.clone();
    trailing.push(0);
    let cases: Vec<Vec<u8>> = vec![
        vec![],
        command(2, "t", 1, "d"),
        good[..good.len() - 1].to_vec(),
        good[..1 + 4 + 12].to_vec(),
        trailing,
        vec![0, 2, 0, 0, 0, 0xc3, 0x28, 5, 0, 0, 0, 0],
    ];
    for case in cases {
        assert!(matches!(ReviewInstruction::unpack(&case), Err(ReviewError::MalformedPayload)));
    }
}

#[test]
fn process_instruction_dispatches() {
    let a = author(AUTHOR_A, true);
    let mut slot = fresh_slot(AUTHOR_A, "Great Coffee");
    assert_eq!(process_instruction(&PROGRAM, &a, &mut slot, &command(0, "Great Coffee", 9, "Loved it")), Ok(()));
    assert_eq!(stored(&slot).rating, 9);
    assert_eq!(process_instruction(&PROGRAM, &a, &mut slot, &command(1, "Other", 10, "Still great")), Ok(()));
    let s = stored(&slot);
    assert_eq!(s.rating, 10);
    assert_eq!(s.description, "Still great");
    assert_eq!(s.title, "Great Coffee");
    assert_eq!(process_instruction(&PROGRAM, &a, &mut slot, &[9]), Err(ReviewError::MalformedPayload));
}

#[test]
fn error_codes_are_distinct() {
    let all = [
        ReviewError::MissingSignature,
        ReviewError::InvalidDerivedAddress,
        ReviewError::InvalidRating,
        ReviewError::AlreadyInitialized,
        ReviewError::UninitializedAccount,
        ReviewError::IllegalOwner,
        ReviewError::MalformedPayload,
        ReviewError::CorruptState,
        ReviewError::AccountAlreadyInUse,
        ReviewError::AccountDataTooSmall,
    ];
    for (i, a) in all.iter().enumerate() {
        for b in all.iter().skip(i + 1) {
            assert_ne!(a.code(), b.code());
        }
    }
    assert_eq!(ReviewError::UninitializedAccount.code(), 0);
    assert_eq!(ReviewError::InvalidRating.code(), 1);
    assert_eq!(ReviewError::InvalidDerivedAddress.code(), 2);
}
