use chatpeer::crypto::{keys_equal, ChatCrypto, CryptoError, KeyFileError};

fn hex32(s: &str) -> [u8; 32] {
    let mut out = [0u8; 32];
    for i in 0..32 {
        out[i] = u8::from_str_radix(&s[2 * i..2 * i + 2], 16).unwrap();
    }
    out
}

const ALICE_SECRET: &str = "77076d0a7318a57d3c16c17251b26645df4c2f87ebc0992ab177fba51db92c2a";
const ALICE_PUBLIC: &str = "8520f0098930a754748b7ddcb43ef75a0dbf3a0d26381af4eba4a98eaa9b4e6a";
const BOB_SECRET: &str = "5dab087e624a8a4b79e17f8b83800ee66f3bb1292618b6fd1c2f8b27ff88e0eb";
const BOB_PUBLIC: &str = "de9edb7d7b7dc1b4d35b61c2ece435373f8343c85b78674dadfc7e146f882b4f";

#[test]
fn public_key_is_the_x25519_public_key_of_the_secret() {
    let alice = ChatCrypto::from_secret(hex32(ALICE_SECRET));
    assert_eq!(alice.public_key_bytes(), hex32(ALICE_PUBLIC));
    assert_eq!(alice.secret_key_bytes(), hex32(ALICE_SECRET));
    let bob = ChatCrypto::from_secret(hex32(BOB_SECRET));
    assert_eq!(bob.public_key_bytes(), hex32(BOB_PUBLIC));
}

#[test]
fn generated_key_pairs_differ_and_match_their_secret() {
    let a = ChatCrypto::generate();
    let b = ChatCrypto::generate();
    assert_ne!(a.secret_key_bytes(), b.secret_key_bytes());
    let again = ChatCrypto::from_secret(a.secret_key_bytes());
    assert_eq!(again.public_key_bytes(), a.public_key_bytes());
}

#[test]
fn encrypted_message_decrypts_on_the_other_side() {
    let alice = ChatCrypto::from_secret(hex32(ALICE_SECRET));
    let bob = ChatCrypto::from_secret(hex32(BOB_SECRET));
    let message = b"hello bob, this is alice";
    let framed = alice.encrypt(&bob.public_key_bytes(), message).unwrap();
    assert_eq!(framed.len(), message.len() + 40);
    assert_ne!(&framed[24..], &message[..]);
    let plain = bob.decrypt(&alice.public_key_bytes(), &framed).unwrap();
    assert_eq!(plain, message.to_vec());
}

#[test]
fn random_generated_pairs_round_trip() {
    let a = ChatCrypto::generate();
    let b = ChatCrypto::generate();
    let framed = a.encrypt(&b.public_key_bytes(), b"").unwrap();
    assert_eq!(framed.len(), 40);
    assert_eq!(b.decrypt(&a.public_key_bytes(), &framed).unwrap(), Vec::<u8>::new());
}

#[test]
fn encryption_with_a_fixed_nonce_is_framed_by_the_nonce() {
    let alice = ChatCrypto::from_secret(hex32(ALICE_SECRET));
    let bob = ChatCrypto::from_secret(hex32(BOB_SECRET));
    let nonce = [7u8; 24];
    let framed = alice.encrypt_with_nonce(&bob.public_key_bytes(), &nonce, b"abc").unwrap();
    assert_eq!(&framed[..24], &nonce[..]);
    assert_eq!(framed.len(), 3 + 40);
    let again = alice.encrypt_with_nonce(&bob.public_key_bytes(), &nonce, b"abc").unwrap();
    assert_eq!(framed, again);
    assert_eq!(bob.decrypt(&alice.public_key_bytes(), &framed).unwrap(), b"abc".to_vec());
}

#[test]
fn two_encryptions_use_different_nonces() {
    let alice = ChatCrypto::generate();
    let bob = ChatCrypto::generate();
    let a = alice.encrypt(&bob.public_key_bytes(), b"same").unwrap();
    let b = alice.encrypt(&bob.public_key_bytes(), b"same").unwrap();
    assert_ne!(a, b);
}

#[test]
fn short_ciphertext_is_refused() {
    let bob = ChatCrypto::generate();
    let r = bob.decrypt(&[1u8; 32], &[0u8; 23]);
    assert_eq!(r, Err(CryptoError::CiphertextTooShort));
    assert_eq!(CryptoError::CiphertextTooShort.message(), "ciphertext too short");
}

#[test]
fn frame_without_full_tag_fails_to_decrypt() {
    let bob = ChatCrypto::generate();
    let r = bob.decrypt(&[1u8; 32], &[0u8; 30]);
    assert_eq!(r, Err(CryptoError::DecryptionFailed));
    assert_eq!(CryptoError::DecryptionFailed.message(), "decryption failed: aead::Error");
    assert_eq!(CryptoError::EncryptionFailed.message(), "encryption failed: aead::Error");
}

#[test]
fn tampered_ciphertext_fails_to_decrypt() {
    let alice = ChatCrypto::generate();
    let bob = ChatCrypto::generate();
    let mut framed = alice.encrypt(&bob.public_key_bytes(), b"do not touch").unwrap();
    let last = framed.len() - 1;
    framed[last] ^= 1;
    assert_eq!(
        bob.decrypt(&alice.public_key_bytes(), &framed),
        Err(CryptoError::DecryptionFailed)
    );
}

#[test]
fn wrong_sender_key_fails_to_decrypt() {
    let alice = ChatCrypto::generate();
    let bob = ChatCrypto::generate();
    let mallory = ChatCrypto::generate();
    let framed = alice.encrypt(&bob.public_key_bytes(), b"secret").unwrap();
    assert_eq!(
        bob.decrypt(&mallory.public_key_bytes(), &framed),
        Err(CryptoError::DecryptionFailed)
    );
}

#[test]
fn key_files_of_the_wrong_length_are_refused() {
    let r = ChatCrypto::from_key_bytes(vec![0u8; 31], vec![0u8; 32]);
    assert!(matches!(r, Err(KeyFileError::InvalidSecretKeyFile)));
    let r = ChatCrypto::from_key_bytes(vec![0u8; 33], vec![0u8; 3]);
    assert!(matches!(r, Err(KeyFileError::InvalidSecretKeyFile)));
    let r = ChatCrypto::from_key_bytes(vec![0u8; 32], vec![0u8; 33]);
    assert!(matches!(r, Err(KeyFileError::InvalidPublicKeyFile)));
    assert_eq!(KeyFileError::InvalidSecretKeyFile.message(), "invalid secret key file");
    assert_eq!(KeyFileError::InvalidPublicKeyFile.message(), "invalid public key file");
}

#[test]
fn key_files_are_read_back_as_stored() {
    let secret = hex32(ALICE_SECRET).to_vec();
    let public = vec![9u8; 32];
    let c = ChatCrypto::from_key_bytes(secret.clone(), public.clone()).unwrap();
    assert_eq!(c.secret_key_bytes().to_vec(), secret);
    assert_eq!(c.public_key_bytes().to_vec(), public);
}

#[test]
fn keys_compare_bytewise() {
    assert!(keys_equal(&[3u8; 32], &[3u8; 32]));
    let mut other = [3u8; 32];
    other[31] = 4;
    assert!(!keys_equal(&[3u8; 32], &other));
}

#[test]
fn sender_can_decrypt_its_own_frame() {
    let alice = ChatCrypto::generate();
    let bob = ChatCrypto::generate();
    let framed = alice.encrypt(&bob.public_key_bytes(), b"note to self").unwrap();
    assert_eq!(alice.decrypt(&bob.public_key_bytes(), &framed).unwrap(), b"note to self".to_vec());
}

#[test]
fn frames_between_nonce_and_tag_length_fail() {
    let bob = ChatCrypto::generate();
    for len in 24..40 {
        assert_eq!(bob.decrypt(&[1u8; 32], &vec![0u8; len]), Err(CryptoError::DecryptionFailed));
    }
}
