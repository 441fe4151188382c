use chatpeer::identity::{generate_identity, identity_from_key_file};

#[test]
fn key_file_gives_back_the_generated_peer_id() {
    let (keypair, bytes, id) = generate_identity().unwrap();
    assert_eq!(libp2p::PeerId::from(keypair.public()).to_string(), id);
    let (read_keypair, read_id) = identity_from_key_file(&bytes).unwrap();
    assert_eq!(read_id, id);
    assert_eq!(libp2p::PeerId::from(read_keypair.public()).to_string(), id);
    assert!(id.starts_with("12D3KooW"));
}

#[test]
fn two_identities_differ() {
    let (_, _, a) = generate_identity().unwrap();
    let (_, _, b) = generate_identity().unwrap();
    assert_ne!(a, b);
}

#[test]
fn garbage_key_file_is_refused() {
    assert!(identity_from_key_file(&[0xffu8, 0xff, 0xff]).is_err());
    assert!(identity_from_key_file(&[]).is_err());
}
