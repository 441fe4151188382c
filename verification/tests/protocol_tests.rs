use chatpeer::protocol::{gossip_message_id, PRESENCE_TOPIC};

#[test]
fn presence_topic_is_fixed() {
    assert_eq!(PRESENCE_TOPIC, "/chatpeer/presence/1.0.0");
}

#[test]
fn gossip_id_is_first_twenty_bytes() {
    let long: Vec<u8> = (0u8..50).collect();
    assert_eq!(gossip_message_id(&long), (0u8..20).collect::<Vec<u8>>());
    assert_eq!(gossip_message_id(b"short"), b"short".to_vec());
    assert_eq!(gossip_message_id(b""), Vec::<u8>::new());
}
