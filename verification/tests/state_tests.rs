use chatpeer::crypto::{ChatCrypto, CryptoError};
use chatpeer::protocol::{ChatEnvelope, OnlineStatus, PresenceMessage};
use chatpeer::state::{AppState, ChatRequestOutcome, Command, CommandOutcome, PresenceOutcome};

const BOB_ID: &str = "QmYyQSo1c1Ym7orWxLYvCrM2EmxFTANf8wXmmE7DWjhx5N";
const ALICE_ID: &str = "QmbWqxBEKC3P8tqsKc98xmWNzrzDtRLMiMPL8wBuTGsMnR";

fn presence_of(state: &AppState, status: OnlineStatus) -> PresenceMessage {
    state.presence_message(status)
}

fn pair() -> (AppState, AppState) {
    let alice = AppState::new(ChatCrypto::generate(), "alice".to_string(), ALICE_ID.to_string());
    let bob = AppState::new(ChatCrypto::generate(), "bob".to_string(), BOB_ID.to_string());
    (alice, bob)
}

#[test]
fn message_ids_count_up() {
    let (mut alice, _) = pair();
    assert_eq!(alice.msg_counter(), 0);
    assert_eq!(alice.next_msg_id(), "msg_1");
    assert_eq!(alice.next_msg_id(), "msg_2");
    for _ in 0..7 {
        alice.next_msg_id();
    }
    assert_eq!(alice.next_msg_id(), "msg_10");
    assert_eq!(alice.msg_counter(), 10);
}

#[test]
fn decimal_text_matches_to_string() {
    for n in [0u64, 7, 10, 99, 100, 12345, u64::MAX] {
        assert_eq!(chatpeer::ids::decimal_string(n), n.to_string());
        assert_eq!(chatpeer::ids::msg_id_text(n), format!("msg_{}", n));
    }
}

#[test]
fn own_presence_is_ignored() {
    let (mut alice, _) = pair();
    let p = presence_of(&alice, OnlineStatus::Online);
    assert_eq!(alice.on_presence(&ALICE_ID.to_string(), &p), PresenceOutcome::OwnMessage);
    assert!(alice.online_peers().is_empty());
}

#[test]
fn presence_records_new_then_known_peer() {
    let (mut alice, bob) = pair();
    let p = presence_of(&bob, OnlineStatus::Away);
    assert_eq!(alice.on_presence(&BOB_ID.to_string(), &p), PresenceOutcome::NewPeer);
    assert_eq!(
        alice.online_peers(),
        vec![("bob".to_string(), BOB_ID.to_string(), "Away".to_string())]
    );
    let renamed = PresenceMessage { username: "robert".to_string(), status: OnlineStatus::Busy, public_key: p.public_key };
    assert_eq!(alice.on_presence(&BOB_ID.to_string(), &renamed), PresenceOutcome::KnownPeer);
    assert_eq!(
        alice.online_peers(),
        vec![("robert".to_string(), BOB_ID.to_string(), "Busy".to_string())]
    );
}

#[test]
fn every_peer_but_self_is_dialed() {
    let (alice, _) = pair();
    assert!(!alice.should_dial(&ALICE_ID.to_string()));
    assert!(alice.should_dial(&BOB_ID.to_string()));
}

#[test]
fn set_status_publishes_presence() {
    let (mut alice, _) = pair();
    let key = alice.crypto().public_key_bytes();
    match alice.handle_command(Command::SetStatus { status: OnlineStatus::Busy }, 0) {
        CommandOutcome::Publish { presence } => {
            assert_eq!(presence.username, "alice");
            assert_eq!(presence.status, OnlineStatus::Busy);
            assert_eq!(presence.public_key, key);
        }
        _ => panic!("expected a presence to publish"),
    }
    assert_eq!(alice.msg_counter(), 0);
}

#[test]
fn sending_to_unknown_peer_sends_nothing() {
    let (mut alice, _) = pair();
    let cmd = Command::SendMessage { peer: BOB_ID.to_string(), content: "hi".to_string() };
    match alice.handle_command(cmd, 5) {
        CommandOutcome::NoPublicKey { peer } => assert_eq!(peer, BOB_ID),
        _ => panic!("expected no public key"),
    }
    assert_eq!(alice.msg_counter(), 0);
}

#[test]
fn sent_message_is_received_with_its_text() {
    let (mut alice, mut bob) = pair();
    let pa = presence_of(&alice, OnlineStatus::Online);
    let pb = presence_of(&bob, OnlineStatus::Online);
    alice.on_presence(&BOB_ID.to_string(), &pb);
    bob.on_presence(&ALICE_ID.to_string(), &pa);
    let cmd = Command::SendMessage { peer: BOB_ID.to_string(), content: "héllo, bob".to_string() };
    let envelope = match alice.handle_command(cmd, 1700000000) {
        CommandOutcome::Send { peer, envelope, msg_id, content } => {
            assert_eq!(peer, BOB_ID);
            assert_eq!(msg_id, "msg_1");
            assert_eq!(content, "héllo, bob");
            assert_eq!(envelope.timestamp, 1700000000);
            assert_eq!(envelope.sender_pub, alice.crypto().public_key_bytes());
            assert_eq!(envelope.encrypted.len(), "héllo, bob".len() + 40);
            envelope
        }
        _ => panic!("expected a message to send"),
    };
    match bob.on_chat_request(&ALICE_ID.to_string(), &envelope) {
        ChatRequestOutcome::Accepted { msg_id, username, text, timestamp } => {
            assert_eq!(msg_id, "msg_1");
            assert_eq!(username, "alice");
            assert_eq!(text, "héllo, bob");
            assert_eq!(timestamp, 1700000000);
        }
        _ => panic!("expected the message to be accepted"),
    }
    assert_eq!(bob.msg_counter(), 1);
}

#[test]
fn message_from_unknown_peer_is_dropped() {
    let (alice, mut bob) = pair();
    let envelope = ChatEnvelope {
        sender_pub: alice.crypto().public_key_bytes(),
        encrypted: vec![0u8; 64],
        timestamp: 1,
    };
    assert!(matches!(
        bob.on_chat_request(&ALICE_ID.to_string(), &envelope),
        ChatRequestOutcome::KeyMismatch
    ));
    assert_eq!(bob.msg_counter(), 0);
}

#[test]
fn message_under_another_key_is_dropped() {
    let (alice, mut bob) = pair();
    bob.on_presence(&ALICE_ID.to_string(), &presence_of(&alice, OnlineStatus::Online));
    let mallory = ChatCrypto::generate();
    let framed = mallory.encrypt(&bob.crypto().public_key_bytes(), b"fake").unwrap();
    let envelope = ChatEnvelope { sender_pub: mallory.public_key_bytes(), encrypted: framed, timestamp: 1 };
    assert!(matches!(
        bob.on_chat_request(&ALICE_ID.to_string(), &envelope),
        ChatRequestOutcome::KeyMismatch
    ));
}

#[test]
fn undecryptable_message_is_dropped() {
    let (alice, mut bob) = pair();
    bob.on_presence(&ALICE_ID.to_string(), &presence_of(&alice, OnlineStatus::Online));
    let short = ChatEnvelope { sender_pub: alice.crypto().public_key_bytes(), encrypted: vec![1u8; 10], timestamp: 1 };
    assert!(matches!(
        bob.on_chat_request(&ALICE_ID.to_string(), &short),
        ChatRequestOutcome::DecryptFailed { error: CryptoError::CiphertextTooShort }
    ));
    let garbage = ChatEnvelope { sender_pub: alice.crypto().public_key_bytes(), encrypted: vec![1u8; 80], timestamp: 1 };
    assert!(matches!(
        bob.on_chat_request(&ALICE_ID.to_string(), &garbage),
        ChatRequestOutcome::DecryptFailed { error: CryptoError::DecryptionFailed }
    ));
    assert_eq!(bob.msg_counter(), 0);
}

#[test]
fn invalid_utf8_is_replaced() {
    let (alice, mut bob) = pair();
    bob.on_presence(&ALICE_ID.to_string(), &presence_of(&alice, OnlineStatus::Online));
    let framed = alice.crypto().encrypt(&bob.crypto().public_key_bytes(), &[0xff, b'a']).unwrap();
    let envelope = ChatEnvelope { sender_pub: alice.crypto().public_key_bytes(), encrypted: framed, timestamp: 3 };
    match bob.on_chat_request(&ALICE_ID.to_string(), &envelope) {
        ChatRequestOutcome::Accepted { text, .. } => assert_eq!(text, "\u{FFFD}a"),
        _ => panic!("expected the message to be accepted"),
    }
}

#[test]
fn send_request_with_valid_peer_id_gets_an_id() {
    let (mut alice, _) = pair();
    let (msg_id, cmd) = alice.send_request(BOB_ID, "hello").unwrap();
    assert_eq!(msg_id, "msg_1");
    match cmd {
        Command::SendMessage { peer, content } => {
            assert_eq!(peer, BOB_ID);
            assert_eq!(content, "hello");
        }
        _ => panic!("expected a send command"),
    }
}

#[test]
fn send_request_with_invalid_peer_id_is_refused() {
    let (mut alice, _) = pair();
    let err = alice.send_request("not-a-peer", "hello").err().unwrap();
    assert_eq!(
        err,
        "invalid peer id: base-58 decode error: provided string contained invalid character '-' at byte 3"
    );
    assert_eq!(alice.msg_counter(), 0);
}

#[test]
fn state_reports_identity() {
    let (alice, _) = pair();
    assert_eq!(alice.username(), "alice");
    assert_eq!(alice.my_peer_id(), ALICE_ID);
}

#[test]
fn parsed_send_request_outcomes() {
    let (mut alice, _) = pair();
    let err = alice.accept_send_request(Err("boom".to_string()), "x").err().unwrap();
    assert_eq!(err, "invalid peer id: boom");
    assert_eq!(alice.msg_counter(), 0);
    let (id, cmd) = alice.accept_send_request(Ok("peer".to_string()), "x").unwrap();
    assert_eq!(id, "msg_1");
    assert!(matches!(cmd, Command::SendMessage { ref peer, ref content } if peer == "peer" && content == "x"));
}

#[test]
fn online_peers_show_each_announced_status() {
    let (mut alice, bob) = pair();
    let carol = AppState::new(ChatCrypto::generate(), "carol".to_string(), "carol-id".to_string());
    alice.on_presence(&BOB_ID.to_string(), &presence_of(&bob, OnlineStatus::Online));
    alice.on_presence(&"carol-id".to_string(), &presence_of(&carol, OnlineStatus::Busy));
    let mut list = alice.online_peers();
    list.sort();
    assert_eq!(
        list,
        vec![
            ("bob".to_string(), BOB_ID.to_string(), "Online".to_string()),
            ("carol".to_string(), "carol-id".to_string(), "Busy".to_string()),
        ]
    );
    assert_eq!(OnlineStatus::Away.text(), "Away");
}

#[test]
fn gone_peer_goes_offline_but_keeps_its_key() {
    let (mut alice, mut bob) = pair();
    alice.on_presence(&BOB_ID.to_string(), &presence_of(&bob, OnlineStatus::Away));
    bob.on_presence(&ALICE_ID.to_string(), &presence_of(&alice, OnlineStatus::Online));
    alice.on_peer_gone(&BOB_ID.to_string());
    assert!(alice.knows_peer(&BOB_ID.to_string()));
    assert!(alice.online_peers().is_empty());
    alice.on_peer_gone(&"never-seen".to_string());
    assert!(!alice.knows_peer(&"never-seen".to_string()));
    let cmd = Command::SendMessage { peer: BOB_ID.to_string(), content: "still there?".to_string() };
    let envelope = match alice.handle_command(cmd, 0) {
        CommandOutcome::Send { envelope, .. } => envelope,
        _ => panic!("expected a message to send"),
    };
    bob.on_peer_gone(&ALICE_ID.to_string());
    match bob.on_chat_request(&ALICE_ID.to_string(), &envelope) {
        ChatRequestOutcome::Accepted { text, .. } => assert_eq!(text, "still there?"),
        _ => panic!("expected the message to be accepted"),
    }
    alice.on_presence(&BOB_ID.to_string(), &presence_of(&bob, OnlineStatus::Busy));
    assert_eq!(
        alice.online_peers(),
        vec![("bob".to_string(), BOB_ID.to_string(), "Busy".to_string())]
    );
}

#[test]
fn checked_requests_answer_as_unchecked_ones() {
    let (mut alice, mut bob) = pair();
    let r = alice.send_request_checked(BOB_ID, "x").unwrap().unwrap();
    assert_eq!(r.0, "msg_1");
    let err = alice.send_request_checked("not-a-peer", "x").unwrap().err().unwrap();
    assert!(err.starts_with("invalid peer id: "));
    bob.on_presence(&ALICE_ID.to_string(), &presence_of(&alice, OnlineStatus::Online));
    let framed = alice.crypto().encrypt(&bob.crypto().public_key_bytes(), b"hey").unwrap();
    let envelope = ChatEnvelope { sender_pub: alice.crypto().public_key_bytes(), encrypted: framed, timestamp: 9 };
    match bob.on_chat_request_checked(&ALICE_ID.to_string(), &envelope) {
        Some(ChatRequestOutcome::Accepted { msg_id, text, .. }) => {
            assert_eq!(msg_id, "msg_1");
            assert_eq!(text, "hey");
        }
        _ => panic!("expected the message to be accepted"),
    }
    let stranger = ChatEnvelope { sender_pub: [0u8; 32], encrypted: vec![], timestamp: 0 };
    assert!(matches!(
        bob.on_chat_request_checked(&"unknown".to_string(), &stranger),
        Some(ChatRequestOutcome::KeyMismatch)
    ));
}
