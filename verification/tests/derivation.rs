use aurex_solana_bridge::address::Address;
use aurex_solana_bridge::authority::{
    bump_of_address, card_seed_list, derive_address, escrow_seed_list, is_derived_address,
    registry_seed_list, signer_seed_list,
};

const REGISTRY: [u8; 32] = [
    37, 105, 187, 231, 14, 205, 207, 29, 115, 137, 119, 36, 79, 42, 246, 130, 119, 176, 165, 8, 106,
    249, 25, 27, 104, 184, 113, 36, 188, 233, 99, 53,
];

const CARD_ONE: [u8; 32] = [
    32, 124, 7, 192, 44, 143, 16, 81, 100, 211, 202, 80, 100, 95, 90, 231, 244, 11, 181, 215, 203,
    170, 120, 255, 70, 186, 99, 12, 217, 3, 228, 254,
];

const ESCROW_ONE: [u8; 32] = [
    109, 174, 37, 84, 147, 20, 243, 44, 136, 40, 61, 120, 221, 113, 141, 62, 60, 49, 242, 177, 116,
    151, 24, 194, 170, 198, 109, 93, 50, 19, 234, 224,
];

const CARD_TWO: [u8; 32] = [
    109, 249, 90, 9, 121, 104, 253, 107, 203, 128, 103, 149, 147, 87, 132, 145, 80, 176, 75, 98, 146,
    76, 75, 187, 98, 87, 59, 168, 134, 47, 7, 51,
];

const ESCROW_TWO: [u8; 32] = [
    142, 92, 238, 247, 110, 216, 122, 48, 1, 190, 198, 235, 46, 158, 180, 35, 179, 42, 242, 77, 53,
    54, 92, 216, 7, 79, 51, 180, 27, 35, 121, 214,
];

const CARD_OF_ANOTHER_OWNER: [u8; 32] = [
    241, 44, 78, 52, 249, 32, 134, 236, 249, 169, 188, 219, 147, 169, 87, 235, 130, 174, 137, 197,
    21, 189, 107, 144, 77, 7, 98, 4, 80, 20, 98, 134,
];

fn ledger_program() -> Address {
    Address::new([7; 32])
}

fn first_owner() -> Address {
    Address::new([2; 32])
}

#[test]
fn address_compares_and_lists_its_bytes() {
    let mut bytes: [u8; 32] = [0; 32];
    for (i, byte) in bytes.iter_mut().enumerate() {
        *byte = (i * 3) as u8;
    }
    let address = Address::new(bytes);
    assert_eq!(address.bytes, bytes);
    assert_eq!(address.to_vec(), bytes.to_vec());
    assert!(address.same(&Address::new(bytes)));
    let mut last_differs = bytes;
    last_differs[31] ^= 1;
    assert!(!address.same(&Address::new(last_differs)));
    let mut first_differs = bytes;
    first_differs[0] ^= 0x80;
    assert!(!address.same(&Address::new(first_differs)));
}

#[test]
fn seeds_of_a_card() {
    let seeds = card_seed_list(&first_owner(), "card-1");
    let expected: Vec<Vec<u8>> = vec![vec![99, 97, 114, 100], vec![2; 32], b"card-1".to_vec()];
    assert_eq!(seeds, expected);
    assert_eq!(seeds[0], b"card".to_vec());
    // The id goes in as its bytes.
    let seeds = card_seed_list(&first_owner(), "\u{e9}");
    assert_eq!(seeds[2], vec![0xc3, 0xa9]);
    let seeds = card_seed_list(&first_owner(), "");
    assert_eq!(seeds[2], Vec::<u8>::new());
    assert_eq!(seeds.len(), 3);
}

#[test]
fn seeds_of_an_escrow_account_and_of_the_registry() {
    let card_key = Address::new(CARD_ONE);
    let expected: Vec<Vec<u8>> = vec![b"escrow".to_vec(), CARD_ONE.to_vec()];
    assert_eq!(escrow_seed_list(&card_key), expected);
    let expected: Vec<Vec<u8>> = vec![b"bridge_state".to_vec()];
    assert_eq!(registry_seed_list(), expected);
}

#[test]
fn seeds_that_sign_for_a_card() {
    let expected: Vec<Vec<u8>> =
        vec![b"card".to_vec(), vec![2; 32], b"card-1".to_vec(), vec![253]];
    assert_eq!(signer_seed_list(&first_owner(), "card-1", 253), expected);
    let seeds = signer_seed_list(&first_owner(), "card-1", 0);
    assert_eq!(seeds[3], vec![0]);
}

#[test]
fn derived_addresses_of_known_seeds() {
    let program = ledger_program();
    assert_eq!(
        derive_address(&registry_seed_list(), &program),
        Some((Address::new(REGISTRY), 255))
    );
    assert_eq!(
        derive_address(&card_seed_list(&first_owner(), "card-1"), &program),
        Some((Address::new(CARD_ONE), 255))
    );
    assert_eq!(
        derive_address(&escrow_seed_list(&Address::new(CARD_ONE)), &program),
        Some((Address::new(ESCROW_ONE), 255))
    );
    assert_eq!(
        derive_address(&card_seed_list(&first_owner(), "card-2"), &program),
        Some((Address::new(CARD_TWO), 255))
    );
    // Here the two highest bump seeds give points of the curve.
    assert_eq!(
        derive_address(&escrow_seed_list(&Address::new(CARD_TWO)), &program),
        Some((Address::new(ESCROW_TWO), 253))
    );
    assert_eq!(
        derive_address(&card_seed_list(&Address::new([3; 32]), "card-1"), &program),
        Some((Address::new(CARD_OF_ANOTHER_OWNER), 249))
    );
}

#[test]
fn derivation_depends_on_every_input() {
    let program = ledger_program();
    let base = derive_address(&card_seed_list(&first_owner(), "card-1"), &program).unwrap();
    let again = derive_address(&card_seed_list(&first_owner(), "card-1"), &program).unwrap();
    assert_eq!(base, again);
    let other_id = derive_address(&card_seed_list(&first_owner(), "card-2"), &program).unwrap();
    let other_owner =
        derive_address(&card_seed_list(&Address::new([3; 32]), "card-1"), &program).unwrap();
    let other_program =
        derive_address(&card_seed_list(&first_owner(), "card-1"), &Address::new([8; 32])).unwrap();
    assert_ne!(base.0, other_id.0);
    assert_ne!(base.0, other_owner.0);
    assert_ne!(base.0, other_program.0);
    assert_ne!(base.0, program);
    assert_ne!(base.0, first_owner());
}

#[test]
fn derivation_refuses_seeds_out_of_range() {
    let program = ledger_program();
    // A seed of 33 bytes.
    let long: Vec<Vec<u8>> = vec![vec![1; 33]];
    assert_eq!(derive_address(&long, &program), None);
    assert!(!is_derived_address(&long, &program, &Address::new(CARD_ONE)));
    // Sixteen seeds leave no room for the bump seed.
    let many: Vec<Vec<u8>> = vec![vec![1]; 16];
    assert_eq!(derive_address(&many, &program), None);
    let fifteen: Vec<Vec<u8>> = vec![vec![1]; 15];
    assert!(derive_address(&fifteen, &program).is_some());
    let none: Vec<Vec<u8>> = Vec::new();
    assert!(derive_address(&none, &program).is_some());
}

#[test]
fn is_derived_address_tells_the_derived_address_from_others() {
    let program = ledger_program();
    let seeds = card_seed_list(&first_owner(), "card-1");
    assert!(is_derived_address(&seeds, &program, &Address::new(CARD_ONE)));
    assert!(!is_derived_address(&seeds, &program, &Address::new(CARD_TWO)));
    assert!(!is_derived_address(&seeds, &program, &program));
    assert!(!is_derived_address(&seeds, &Address::new([8; 32]), &Address::new(CARD_ONE)));
    let mut close = CARD_ONE;
    close[31] ^= 1;
    assert!(!is_derived_address(&seeds, &program, &Address::new(close)));
}

#[test]
fn bump_of_address_is_that_of_the_derived_address_alone() {
    let program = ledger_program();
    let seeds = escrow_seed_list(&Address::new(CARD_TWO));
    assert_eq!(bump_of_address(&seeds, &program, &Address::new(ESCROW_TWO)), Some(253));
    assert_eq!(bump_of_address(&seeds, &program, &Address::new(ESCROW_ONE)), None);
    assert_eq!(bump_of_address(&seeds, &Address::new([8; 32]), &Address::new(ESCROW_TWO)), None);
    let long: Vec<Vec<u8>> = vec![vec![1; 33]];
    assert_eq!(bump_of_address(&long, &program, &Address::new(ESCROW_TWO)), None);
    assert_eq!(
        bump_of_address(&registry_seed_list(), &program, &Address::new(REGISTRY)),
        Some(255)
    );
}
