use substratekitties::types::dna_eq;
use substratekitties::{Dna, Event, Gender, Kitty, Pallet};

#[test]
fn gender_is_parity_of_leading_byte() {
    let mut id: Dna = [0xff; 32];
    id[0] = 0;
    assert_eq!(Kitty::generate_gender(id), Gender::Male);
    id[0] = 1;
    assert_eq!(Kitty::generate_gender(id), Gender::Female);
    id[0] = 2;
    assert_eq!(Kitty::generate_gender(id), Gender::Male);
    id[0] = 254;
    assert_eq!(Kitty::generate_gender(id), Gender::Male);
    id[0] = 255;
    assert_eq!(Kitty::generate_gender(id), Gender::Female);
}

#[test]
fn gender_ignores_the_other_bytes() {
    let mut id: Dna = [1; 32];
    id[0] = 4;
    assert_eq!(Kitty::generate_gender(id), Gender::Male);
    let mut id: Dna = [2; 32];
    id[0] = 5;
    assert_eq!(Kitty::generate_gender(id), Gender::Female);
}

#[test]
fn new_kitty_is_unpriced() {
    let mut id: Dna = [0; 32];
    id[0] = 9;
    assert_eq!(Kitty::new(id, 17), Kitty { dna: id, price: None, gender: Gender::Female, owner: 17 });
}

#[test]
fn identifiers_compare_byte_by_byte() {
    let a: Dna = [3; 32];
    let mut b: Dna = [3; 32];
    assert!(dna_eq(&a, &b));
    b[31] = 4;
    assert!(!dna_eq(&a, &b));
    b[31] = 3;
    b[0] = 0;
    assert!(!dna_eq(&a, &b));
    b[0] = 3;
    b[16] = 2;
    assert!(!dna_eq(&a, &b));
}

#[test]
fn identifier_is_hash_of_draw_block_and_minter() {
    let mut registry = Pallet::new();
    let random: Dna = [7; 32];
    let expected: Dna = [
        177, 193, 144, 179, 245, 176, 44, 117, 142, 191, 243, 151, 92, 5, 52, 22, 136, 42, 81, 181,
        252, 150, 23, 75, 83, 18, 149, 114, 79, 216, 18, 238,
    ];
    assert_eq!(registry.create_kitty(1, random, 1), Ok(Event::Created { kitty: expected, owner: 1 }));
    assert_eq!(
        registry.kitties(&expected),
        Some(Kitty { dna: expected, price: None, gender: Gender::Female, owner: 1 })
    );
    assert_eq!(registry.kitties(&random), None);
    assert_eq!(registry.kitties_owned(1), vec![expected]);
}

#[test]
fn identifier_of_zero_draw() {
    let mut registry = Pallet::new();
    let expected: Dna = [
        223, 105, 165, 22, 222, 18, 5, 109, 8, 149, 253, 234, 122, 2, 116, 197, 171, 166, 112, 145,
        84, 50, 56, 103, 5, 19, 16, 76, 26, 246, 156, 31,
    ];
    assert_eq!(registry.create_kitty(0, [0; 32], 0), Ok(Event::Created { kitty: expected, owner: 0 }));
}

#[test]
fn identifier_agrees_with_the_host_hash() {
    let random: Dna = [0x5a; 32];
    let block_number: u64 = 0x0102_0304_0506_0708;
    let minter: u64 = 42;
    let mut payload = random.to_vec();
    payload.extend_from_slice(&block_number.to_le_bytes());
    payload.extend_from_slice(&minter.to_le_bytes());
    let expected =
        <frame_support::Blake2_256 as frame_support::StorageHasher>::hash(&payload);

    let mut registry = Pallet::new();
    assert_eq!(
        registry.create_kitty(minter, random, block_number),
        Ok(Event::Created { kitty: expected, owner: minter })
    );
}

#[test]
fn identifier_depends_on_each_input() {
    let mut registry = Pallet::new();
    let mut seen: Vec<Dna> = Vec::new();
    for (minter, random, block) in [(1u64, [7u8; 32], 1u64), (2, [7; 32], 1), (1, [8; 32], 1), (1, [7; 32], 2)] {
        match registry.create_kitty(minter, random, block) {
            Ok(Event::Created { kitty, owner }) => {
                assert_eq!(owner, minter);
                assert!(!seen.contains(&kitty));
                seen.push(kitty);
            }
            other => panic!("mint failed: {:?}", other),
        }
    }
    assert_eq!(registry.all_kitties_count(), 4);
}

#[test]
fn same_draw_in_same_block_by_same_minter_is_a_duplicate() {
    let mut registry = Pallet::new();
    assert!(registry.create_kitty(1, [7; 32], 1).is_ok());
    assert_eq!(registry.create_kitty(1, [7; 32], 1), Err(substratekitties::Error::DuplicateKitty));
    assert_eq!(registry.all_kitties_count(), 1);
}

#[test]
fn minted_gender_follows_the_identifier() {
    let mut registry = Pallet::new();
    for block in 0..6u64 {
        match registry.create_kitty(1, [7; 32], block) {
            Ok(Event::Created { kitty, .. }) => {
                let expected = if kitty[0] % 2 == 0 { Gender::Male } else { Gender::Female };
                assert_eq!(registry.kitties(&kitty).unwrap().gender, expected);
                assert_eq!(expected, if block < 3 { Gender::Female } else { Gender::Male });
            }
            other => panic!("mint failed: {:?}", other),
        }
    }
}
