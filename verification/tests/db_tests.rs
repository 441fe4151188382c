use chatpeer::db::{conversation_entries, flag_column, StoredMessage};

#[test]
fn flags_are_stored_as_integers() {
    assert_eq!(flag_column(true), 1);
    assert_eq!(flag_column(false), 0);
}

#[test]
fn rows_read_back_with_nonzero_flags_true() {
    let m = StoredMessage::from_row("msg_1".to_string(), "peer".to_string(), 1, "hi".to_string(), 42, 0);
    assert_eq!(m.id, "msg_1");
    assert_eq!(m.peer_id, "peer");
    assert!(m.is_outgoing);
    assert_eq!(m.content, "hi");
    assert_eq!(m.timestamp, 42);
    assert!(!m.delivered);
    let m = StoredMessage::from_row("a".to_string(), "b".to_string(), 0, "c".to_string(), 0, 7);
    assert!(!m.is_outgoing);
    assert!(m.delivered);
}

#[test]
fn conversation_keeps_message_order() {
    let a = StoredMessage::from_row("msg_1".to_string(), "p".to_string(), 1, "one".to_string(), 10, 0);
    let b = StoredMessage::from_row("msg_2".to_string(), "p".to_string(), 0, "two".to_string(), 20, 1);
    let entries = conversation_entries(vec![a, b]);
    assert_eq!(
        entries,
        vec![
            ("msg_1".to_string(), "p".to_string(), true, "one".to_string(), 10, false),
            ("msg_2".to_string(), "p".to_string(), false, "two".to_string(), 20, true),
        ]
    );
    assert!(conversation_entries(vec![]).is_empty());
}
