use std::str::FromStr;

use crudapp::{id, todo_address, Pubkey, PROGRAM_ID};

fn key(byte: u8) -> Pubkey {
    Pubkey::new_from_array([byte; 32])
}

#[test]
fn program_id_is_the_declared_key() {
    let declared =
        anchor_lang::prelude::Pubkey::from_str("2mWXq2NSvptkbkFNvmBstU6GuT461BYYbKrzK57mmmt2")
            .unwrap();
    assert_eq!(id().to_bytes(), declared.to_bytes());
    assert_eq!(PROGRAM_ID, declared.to_bytes());
}

#[test]
fn pubkey_keeps_its_bytes() {
    let mut bytes = [0u8; 32];
    bytes[0] = 1;
    bytes[31] = 255;
    let k = Pubkey::new_from_array(bytes);
    assert_eq!(k.to_bytes(), bytes);
    assert_eq!(k.bytes, bytes);
}

#[test]
fn same_compares_every_byte() {
    let a = key(7);
    let mut last = [7u8; 32];
    last[31] = 8;
    let mut first = [7u8; 32];
    first[0] = 6;
    assert!(a.same(&key(7)));
    assert!(!a.same(&Pubkey::new_from_array(last)));
    assert!(!a.same(&Pubkey::new_from_array(first)));
    assert!(!a.same(&key(8)));
}

#[test]
fn address_is_the_program_derived_address() {
    let owner = key(7);
    let program = anchor_lang::prelude::Pubkey::new_from_array(PROGRAM_ID);
    let seeds: [&[u8]; 2] = [b"Buy milk", &owner.bytes];
    let (expected, _) = anchor_lang::prelude::Pubkey::find_program_address(&seeds, &program);
    let address = todo_address("Buy milk", &owner).unwrap();
    assert_eq!(address.to_bytes(), expected.to_bytes());
}

#[test]
fn address_known_values() {
    let address = todo_address("Buy milk", &key(7)).unwrap();
    assert_eq!(
        address.to_bytes(),
        [
            63, 73, 190, 115, 32, 179, 170, 15, 7, 184, 113, 20, 101, 109, 74, 84, 103, 225, 85,
            108, 113, 161, 191, 50, 23, 254, 35, 131, 97, 201, 165, 110
        ]
    );
    let empty = todo_address("", &key(0)).unwrap();
    assert_eq!(
        empty.to_bytes(),
        [
            127, 239, 29, 64, 81, 76, 153, 170, 74, 126, 115, 131, 125, 176, 162, 34, 208, 0, 203,
            237, 135, 123, 115, 130, 66, 218, 72, 150, 26, 246, 249, 224
        ]
    );
}

#[test]
fn address_is_neither_seed() {
    let owner = key(7);
    let address = todo_address("Buy milk", &owner).unwrap();
    assert_ne!(address.to_bytes(), owner.to_bytes());
    assert_ne!(address.to_bytes(), PROGRAM_ID);
}

#[test]
fn address_depends_on_title_and_owner() {
    let a = todo_address("Buy milk", &key(7)).unwrap();
    let b = todo_address("Buy bread", &key(7)).unwrap();
    let c = todo_address("Buy milk", &key(8)).unwrap();
    assert!(!a.same(&b));
    assert!(!a.same(&c));
    assert!(!b.same(&c));
}

#[test]
fn address_is_the_same_each_time() {
    let a = todo_address("Buy milk", &key(7)).unwrap();
    let b = todo_address("Buy milk", &key(7)).unwrap();
    assert!(a.same(&b));
}

#[test]
fn address_of_a_title_of_32_bytes_exists() {
    let title = "a".repeat(32);
    assert!(todo_address(&title, &key(1)).is_some());
}

#[test]
fn address_of_a_title_of_33_bytes_is_missing() {
    let title = "a".repeat(33);
    assert!(todo_address(&title, &key(1)).is_none());
}

#[test]
fn keys_are_equal_when_their_bytes_are() {
    assert!(key(7) == key(7));
    assert!(key(7) != key(8));
    let mut last = [7u8; 32];
    last[31] = 0;
    assert!(key(7) != Pubkey::new_from_array(last));
}
