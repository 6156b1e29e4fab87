use crudapp::{
    fits, Pubkey, TodoError, TodoItemState, ANCHOR_DISCRIMINATOR_SIZE, INIT_SPACE,
    MAX_DESCRIPTION_LEN, MAX_TITLE_LEN, SLOT_SPACE,
};

fn key(byte: u8) -> Pubkey {
    Pubkey::new_from_array([byte; 32])
}

#[test]
fn space_constants() {
    assert_eq!(MAX_TITLE_LEN, 32);
    assert_eq!(MAX_DESCRIPTION_LEN, 256);
    assert_eq!(ANCHOR_DISCRIMINATOR_SIZE, 8);
    assert_eq!(INIT_SPACE, 329);
    assert_eq!(SLOT_SPACE, 337);
}

#[test]
fn fits_counts_bytes() {
    assert!(fits("", 0));
    assert!(fits("abc", 3));
    assert!(!fits("abcd", 3));
    // two bytes for each letter
    assert!(fits("éé", 4));
    assert!(!fits("éé", 3));
}

#[test]
fn new_record_is_not_completed() {
    let r = TodoItemState::new(key(3), "Buy milk".to_string(), "two litres".to_string()).unwrap();
    assert_eq!(r.owner.to_bytes(), [3u8; 32]);
    assert_eq!(r.title, "Buy milk");
    assert_eq!(r.description, "two litres");
    assert!(!r.completed);
}

#[test]
fn new_record_at_the_limits() {
    let r = TodoItemState::new(key(3), "t".repeat(32), "d".repeat(256)).unwrap();
    assert_eq!(r.title.len(), 32);
    assert_eq!(r.description.len(), 256);
    assert_eq!(r.stored_size(), INIT_SPACE);
}

#[test]
fn new_record_title_too_long() {
    let r = TodoItemState::new(key(3), "t".repeat(33), String::new());
    assert_eq!(r.err(), Some(TodoError::TitleTooLong));
}

#[test]
fn new_record_description_too_long() {
    let r = TodoItemState::new(key(3), "t".repeat(32), "d".repeat(257));
    assert_eq!(r.err(), Some(TodoError::DescriptionTooLong));
}

#[test]
fn new_record_title_is_looked_at_first() {
    let r = TodoItemState::new(key(3), "t".repeat(40), "d".repeat(300));
    assert_eq!(r.err(), Some(TodoError::TitleTooLong));
}

#[test]
fn new_record_limit_is_in_bytes() {
    // 17 letters of two bytes each
    let r = TodoItemState::new(key(3), "é".repeat(17), String::new());
    assert_eq!(r.err(), Some(TodoError::TitleTooLong));
    let r = TodoItemState::new(key(3), "é".repeat(16), "é".repeat(128));
    assert!(r.is_ok());
    let r = TodoItemState::new(key(3), "é".repeat(16), "é".repeat(129));
    assert_eq!(r.err(), Some(TodoError::DescriptionTooLong));
}

#[test]
fn record_update_overwrites_description_and_flag() {
    let mut r =
        TodoItemState::new(key(3), "Buy milk".to_string(), "two litres".to_string()).unwrap();
    assert_eq!(r.update("three litres".to_string(), true), Ok(()));
    assert_eq!(r.owner.to_bytes(), [3u8; 32]);
    assert_eq!(r.title, "Buy milk");
    assert_eq!(r.description, "three litres");
    assert!(r.completed);
    assert_eq!(r.update(String::new(), false), Ok(()));
    assert_eq!(r.description, "");
    assert!(!r.completed);
}

#[test]
fn record_update_refused_changes_nothing() {
    let mut r =
        TodoItemState::new(key(3), "Buy milk".to_string(), "two litres".to_string()).unwrap();
    assert_eq!(r.update("d".repeat(257), true), Err(TodoError::DescriptionTooLong));
    assert_eq!(r.description, "two litres");
    assert!(!r.completed);
    assert_eq!(r.update("d".repeat(256), true), Ok(()));
    assert_eq!(r.description.len(), 256);
}

#[test]
fn stored_size_formula() {
    let r = TodoItemState::new(key(3), "abc".to_string(), "hello".to_string()).unwrap();
    assert_eq!(r.stored_size(), 49);
    let empty = TodoItemState::new(key(3), String::new(), String::new()).unwrap();
    assert_eq!(empty.stored_size(), 41);
    let wide = TodoItemState::new(key(3), "é".to_string(), String::new()).unwrap();
    assert_eq!(wide.stored_size(), 43);
    assert!(ANCHOR_DISCRIMINATOR_SIZE + r.stored_size() <= SLOT_SPACE);
}
