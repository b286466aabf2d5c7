//! The message-batch container seen from outside: owned batches count
//! messages, borrowed batches are read-only byte views.

use asynclog::messages::Messages;

#[test]
fn owned_batch_counts_messages() {
    let m = Messages::new(commitlog::message::MessageBuf::default());
    assert_eq!(m.len(), 0);
    assert_eq!(m.bytes().len(), 0);
    assert_eq!(m.payload_at(0), None);
}

#[test]
fn owned_batch_push_and_read_back() {
    let mut m = Messages::new(commitlog::message::MessageBuf::default());
    m.push(b"hello").unwrap();
    m.push(b"world!").unwrap();
    assert_eq!(m.len(), 2);
    assert_eq!(m.payload_at(0), Some(b"hello".to_vec()));
    assert_eq!(m.payload_at(1), Some(b"world!".to_vec()));
    assert_eq!(m.payload_at(2), None);
    // each message adds its payload plus a fixed header to the byte view
    assert!(m.bytes().len() > 11);
}

#[test]
fn borrowed_batch_is_a_byte_view() {
    let bytes = vec![1u8, 2, 3, 4, 5];
    let m = Messages::from_bytes(bytes.clone());
    // the typed length of a borrowed batch is its byte count
    assert_eq!(m.len(), 5);
    assert_eq!(m.bytes(), bytes.as_slice());
    // a borrowed batch exposes no per-message structure
    assert_eq!(m.payload_at(0), None);
}
