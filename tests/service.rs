use visitor_badge::ids::id_text;
use visitor_badge::service::{
    badge_reply, count_text, new_counter_reply, welcome_message, ContentType, NOT_FOUND_BODY,
};
use visitor_badge::store::{CounterStore, StorageError};
use visitor_badge::text::decimal_string;

#[test]
fn identifier_text_is_hyphenated_hex() {
    assert_eq!(id_text(0), "00000000-0000-0000-0000-000000000000");
    assert_eq!(
        id_text(0x67e5504410b1426f9247bb680e5fe0c8),
        "67e55044-10b1-426f-9247-bb680e5fe0c8"
    );
    assert_eq!(id_text(u128::MAX), "ffffffff-ffff-ffff-ffff-ffffffffffff");
}

#[test]
fn count_texts() {
    assert_eq!(count_text(0), "0");
    assert_eq!(count_text(1), "1");
    assert_eq!(count_text(1050), "1050");
    assert_eq!(count_text(-7), "-7");
    assert_eq!(count_text(i64::MAX), "9223372036854775807");
    assert_eq!(count_text(i64::MIN), "-9223372036854775808");
    assert_eq!(decimal_string(u64::MAX), "18446744073709551615");
}

#[test]
fn welcome_names_the_identifier_twice() {
    let msg = welcome_message(0x67e5504410b1426f9247bb680e5fe0c8);
    assert!(msg.starts_with("Welcome! This is a simple API"));
    assert!(msg.contains("Your new unique ID is: 67e55044-10b1-426f-9247-bb680e5fe0c8\n"));
    assert!(msg.contains("To begin tracking, visit: /67e55044-10b1-426f-9247-bb680e5fe0c8\n"));
    assert!(msg.ends_with("The default value for label is \"visitors\""));
}

#[test]
fn new_counter_replies() {
    let ok = new_counter_reply(&Ok(5));
    assert_eq!(ok.status, 200);
    assert_eq!(ok.content_type, ContentType::PlainText);
    assert_eq!(ok.body, welcome_message(5));
    let err = new_counter_reply(&Err(StorageError::Backend("pool timed out".to_string())));
    assert_eq!(err.status, 500);
    assert_eq!(err.body, "pool timed out");
}

#[test]
fn badge_replies() {
    let q: Vec<(String, String)> = Vec::new();
    let missing = badge_reply(&Ok(None), &q);
    assert_eq!(missing.status, 404);
    assert_eq!(missing.body, NOT_FOUND_BODY);
    assert_eq!(missing.body, "UUID not found");
    let failed = badge_reply(&Err(StorageError::CountOutOfRange), &q);
    assert_eq!(failed.status, 500);
    assert_eq!(failed.content_type, ContentType::PlainText);
    assert_eq!(failed.body, "bigint out of range");
    let shown = badge_reply(&Ok(Some(12)), &q);
    assert_eq!(shown.status, 200);
    assert_eq!(shown.content_type, ContentType::Svg);
    assert_eq!(shown.content_type.mime(), "image/svg+xml");
    assert!(shown.body.contains("12"));
}

#[test]
fn end_to_end_counter_and_badges() {
    let mut store = CounterStore::new();
    let created = store.create_counter();
    let welcome = new_counter_reply(&created);
    assert_eq!(welcome.status, 200);
    let id = created.ok().unwrap();
    assert!(welcome.body.contains(&id_text(id)));

    let q: Vec<(String, String)> = Vec::new();
    let first = badge_reply(&store.increment_and_get(id), &q);
    assert_eq!(first.status, 200);
    assert_eq!(first.content_type.mime(), "image/svg+xml");
    assert!(first.body.contains(">1<"));

    let second = badge_reply(&store.increment_and_get(id), &q);
    assert_eq!(second.status, 200);
    assert!(second.body.contains(">2<"));

    let unused = id.wrapping_add(1);
    let missing = badge_reply(&store.increment_and_get(unused), &q);
    assert_eq!(missing.status, 404);
    assert_eq!(missing.body, "UUID not found");
}
