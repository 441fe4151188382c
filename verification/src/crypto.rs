//! End-to-end encryption of chat messages: X25519 key agreement with an
//! XSalsa20-Poly1305 box (NaCl `crypto_box`), framed as the 24-byte nonce
//! followed by the sealed box.
use crypto_box::aead::{Aead, OsRng};
use crypto_box::{Nonce, PublicKey, SalsaBox, SecretKey};
use rand::RngCore;
use vstd::prelude::*;
use vstd::slice::slice_to_vec;

verus! {

/// Length of the nonce that starts every framed ciphertext.
pub const NONCE_LEN: usize = 24;

/// `aead::Error`, the error of `crypto_box`'s encryption and decryption,
/// carried through as an opaque value.
#[verifier::external_type_specification]
#[verifier::external_body]
pub struct ExAeadError(crypto_box::aead::Error);

/// The X25519 public key of the secret key `secret`.
pub uninterp spec fn x25519_public_of(secret: Seq<u8>) -> Seq<u8>;

/// The box that `crypto_box` seals `plaintext` into, for the key pair
/// (`secret`, `public`) and the nonce `nonce`.
pub uninterp spec fn box_seal_of(
    secret: Seq<u8>,
    public: Seq<u8>,
    nonce: Seq<u8>,
    plaintext: Seq<u8>,
) -> Seq<u8>;

/// What `crypto_box` opens the box `sealed` into, for the key pair
/// (`secret`, `public`) and the nonce `nonce`: `None` where it refuses it.
pub uninterp spec fn box_open_of(
    secret: Seq<u8>,
    public: Seq<u8>,
    nonce: Seq<u8>,
    sealed: Seq<u8>,
) -> Option<Seq<u8>>;

/// The framed ciphertext that a sender with secret key `sender_secret` writes
/// for the recipient's public key: the nonce, then the sealed box.
pub open spec fn sealed_frame(
    sender_secret: Seq<u8>,
    recipient_public: Seq<u8>,
    nonce: Seq<u8>,
    plaintext: Seq<u8>,
) -> Seq<u8> {
    nonce + box_seal_of(sender_secret, recipient_public, nonce, plaintext)
}

/// `crypto_box::SecretKey::public_key` on the secret key made from `secret`:
/// trusted to be a function of the secret bytes alone.
#[verifier::external_body]
fn x25519_public_key(secret: &[u8; 32]) -> (public: [u8; 32])
    ensures
        public@ == x25519_public_of(secret@),
{
    *SecretKey::from(*secret).public_key().as_bytes()
}

/// `crypto_box::SecretKey::generate` with the operating system's random
/// generator: nothing is claimed of the bytes, which are random.
#[verifier::external_body]
fn random_secret_key() -> [u8; 32] {
    SecretKey::generate(&mut OsRng).to_bytes()
}

/// `rand::RngCore::fill_bytes` of the operating system's random generator on a
/// fresh nonce: nothing is claimed of the bytes, which are random.
#[verifier::external_body]
fn random_nonce() -> [u8; 24] {
    let mut nonce = [0u8; 24];
    OsRng.fill_bytes(&mut nonce);
    nonce
}

/// `crypto_box::SalsaBox::new` on (`recipient`, `secret`) followed by
/// `Aead::encrypt` with `nonce` and no associated data. Trusted, as the crate's
/// source shows, to succeed on every plaintext whose buffer can be allocated, and
/// to return a box of the plaintext's length plus the 16-byte tag; the box itself
/// is named by `box_seal_of`.
#[verifier::external_body]
fn box_encrypt(
    secret: &[u8; 32],
    recipient: &[u8; 32],
    nonce: &[u8; 24],
    plaintext: &[u8],
) -> (r: Result<Vec<u8>, crypto_box::aead::Error>)
    requires
        plaintext@.len() + 16 <= isize::MAX,
    ensures
        r is Ok,
        r matches Ok(sealed) ==> sealed@ == box_seal_of(secret@, recipient@, nonce@, plaintext@),
        r matches Ok(sealed) ==> sealed@.len() == plaintext@.len() + 16,
{
    SalsaBox::new(&PublicKey::from(*recipient), &SecretKey::from(*secret)).encrypt(
        &Nonce::from(*nonce),
        plaintext,
    )
}

/// `crypto_box::SalsaBox::new` on (`sender`, `secret`) followed by
/// `Aead::decrypt` with `nonce` and no associated data. Its result is named by
/// `box_open_of`. Trusted beside that, as the crate's source and documentation
/// show: a box shorter than the tag is refused, an opened box is 16 bytes longer
/// than its plaintext, and a box that the sender sealed with its secret key `a`
/// for this secret key's public key opens, under the sender's public key, into
/// what was sealed (X25519 gives both sides the same shared key); so does a box
/// that this secret key sealed itself for the key `sender`, the shared key being
/// the same one.
#[verifier::external_body]
fn box_decrypt(
    secret: &[u8; 32],
    sender: &[u8; 32],
    nonce: &[u8; 24],
    sealed: &[u8],
) -> (res: Result<Vec<u8>, crypto_box::aead::Error>)
    ensures
        match res {
            Ok(plain) => box_open_of(secret@, sender@, nonce@, sealed@) == Some(plain@),
            Err(_) => box_open_of(secret@, sender@, nonce@, sealed@) is None,
        },
        sealed@.len() < 16 ==> res is Err,
        res matches Ok(plain) ==> plain@.len() + 16 == sealed@.len(),
        res is Err ==> forall|a: Seq<u8>, m: Seq<u8>|
            #![trigger box_seal_of(a, x25519_public_of(secret@), nonce@, m)]
            !(a.len() == 32 && sender@ == x25519_public_of(a) && sealed@ == box_seal_of(
                a,
                x25519_public_of(secret@),
                nonce@,
                m,
            )),
        res is Err ==> forall|m: Seq<u8>|
            #![trigger box_seal_of(secret@, sender@, nonce@, m)]
            sealed@ != box_seal_of(secret@, sender@, nonce@, m),
        res matches Ok(plain) ==> forall|m: Seq<u8>|
            #![trigger box_seal_of(secret@, sender@, nonce@, m)]
            sealed@ == box_seal_of(secret@, sender@, nonce@, m) ==> plain@ == m,
        res matches Ok(plain) ==> forall|a: Seq<u8>, m: Seq<u8>|
            #![trigger box_seal_of(a, x25519_public_of(secret@), nonce@, m)]
            a.len() == 32 && sender@ == x25519_public_of(a) && sealed@ == box_seal_of(
                a,
                x25519_public_of(secret@),
                nonce@,
                m,
            ) ==> plain@ == m,
{
    SalsaBox::new(&PublicKey::from(*sender), &SecretKey::from(*secret)).decrypt(
        &Nonce::from(*nonce),
        sealed,
    )
}

/// Copies a slice of length 32 into a key array.
fn key_array(bytes: &[u8]) -> (key: [u8; 32])
    requires
        bytes@.len() == 32,
    ensures
        key@ == bytes@,
{
    let mut key = [0u8; 32];
    let mut i: usize = 0;
    while i < 32
        invariant
            i <= 32,
            bytes@.len() == 32,
            key@.len() == 32,
            forall|j: int| 0 <= j < i ==> key@[j] == bytes@[j],
        decreases 32 - i,
    {
        key[i] = bytes[i];
        i = i + 1;
    }
    assert(key@ =~= bytes@);
    key
}

/// Whether two keys hold the same bytes.
pub fn keys_equal(a: &[u8; 32], b: &[u8; 32]) -> (eq: bool)
    ensures
        eq == (a@ == b@),
{
    let mut i: usize = 0;
    while i < 32
        invariant
            i <= 32,
            a@.len() == 32,
            b@.len() == 32,
            forall|j: int| 0 <= j < i ==> a@[j] == b@[j],
        decreases 32 - i,
    {
        if a[i] != b[i] {
            return false;
        }
        i = i + 1;
    }
    assert(a@ =~= b@);
    true
}

/// Why key material read from the key files was refused.
#[derive(Clone, Copy, Debug, PartialEq, Eq, Structural)]
pub enum KeyFileError {
    InvalidSecretKeyFile,
    InvalidPublicKeyFile,
}

impl KeyFileError {
    /// The error's text.
    pub fn message(&self) -> (s: String)
        ensures
            s@ == key_file_error_text(*self),
    {
        match self {
            KeyFileError::InvalidSecretKeyFile => "invalid secret key file".to_owned(),
            KeyFileError::InvalidPublicKeyFile => "invalid public key file".to_owned(),
        }
    }
}

/// The text of a key file error.
pub open spec fn key_file_error_text(e: KeyFileError) -> Seq<char> {
    match e {
        KeyFileError::InvalidSecretKeyFile => "invalid secret key file"@,
        KeyFileError::InvalidPublicKeyFile => "invalid public key file"@,
    }
}

/// Why encryption or decryption failed.
#[derive(Clone, Copy, Debug, PartialEq, Eq, Structural)]
pub enum CryptoError {
    CiphertextTooShort,
    EncryptionFailed,
    DecryptionFailed,
}

impl CryptoError {
    /// The error's text.
    pub fn message(&self) -> (s: String)
        ensures
            s@ == crypto_error_text(*self),
    {
        match self {
            CryptoError::CiphertextTooShort => "ciphertext too short".to_owned(),
            CryptoError::EncryptionFailed => "encryption failed: aead::Error".to_owned(),
            CryptoError::DecryptionFailed => "decryption failed: aead::Error".to_owned(),
        }
    }
}

/// The text of a crypto error.
pub open spec fn crypto_error_text(e: CryptoError) -> Seq<char> {
    match e {
        CryptoError::CiphertextTooShort => "ciphertext too short"@,
        CryptoError::EncryptionFailed => "encryption failed: aead::Error"@,
        CryptoError::DecryptionFailed => "decryption failed: aead::Error"@,
    }
}

/// What decrypting the framed `ciphertext` from the holder of `sender_public`
/// gives with the secret key `secret`: a ciphertext shorter than the nonce is too
/// short; otherwise its first 24 bytes are the nonce and the rest is the box to open.
pub open spec fn decrypt_spec(secret: Seq<u8>, sender_public: Seq<u8>, ciphertext: Seq<u8>) -> Result<
    Seq<u8>,
    CryptoError,
> {
    if ciphertext.len() < 24 {
        Err(CryptoError::CiphertextTooShort)
    } else {
        match box_open_of(secret, sender_public, ciphertext.take(24), ciphertext.skip(24)) {
            Some(plain) => Ok(plain),
            None => Err(CryptoError::DecryptionFailed),
        }
    }
}

/// A sealed frame is the nonce followed by the box sealed under that same nonce,
/// so its first 24 bytes are the nonce and the rest is the box.
pub proof fn lemma_frame_is_nonce_then_box(
    secret: Seq<u8>,
    public: Seq<u8>,
    nonce: Seq<u8>,
    plaintext: Seq<u8>,
)
    ensures
        sealed_frame(secret, public, nonce, plaintext) == nonce + box_seal_of(
            secret,
            public,
            nonce,
            plaintext,
        ),
        nonce.len() == 24 ==> sealed_frame(secret, public, nonce, plaintext).take(24) == nonce,
        nonce.len() == 24 ==> sealed_frame(secret, public, nonce, plaintext).skip(24) == box_seal_of(
            secret,
            public,
            nonce,
            plaintext,
        ),
{
    assert((nonce + box_seal_of(secret, public, nonce, plaintext)).take(nonce.len() as int) =~= nonce);
    assert((nonce + box_seal_of(secret, public, nonce, plaintext)).skip(nonce.len() as int)
        =~= box_seal_of(secret, public, nonce, plaintext));
}

/// Decrypting a frame that is a nonce followed by a box opens that box under that
/// same nonce; a frame shorter than a nonce is too short.
pub proof fn lemma_frame_opens_under_its_nonce(
    secret: Seq<u8>,
    sender_public: Seq<u8>,
    nonce: Seq<u8>,
    sealed: Seq<u8>,
)
    requires
        nonce.len() == 24,
    ensures
        decrypt_spec(secret, sender_public, nonce + sealed) == match box_open_of(
            secret,
            sender_public,
            nonce,
            sealed,
        ) {
            Some(plain) => Ok::<Seq<u8>, CryptoError>(plain),
            None => Err::<Seq<u8>, CryptoError>(CryptoError::DecryptionFailed),
        },
        forall|c: Seq<u8>|
            c.len() < 24 ==> #[trigger] decrypt_spec(secret, sender_public, c) == Err::<
                Seq<u8>,
                CryptoError,
            >(CryptoError::CiphertextTooShort),
{
    assert((nonce + sealed).take(24) =~= nonce);
    assert((nonce + sealed).skip(24) =~= sealed);
}

/// Frames a sealed box: the nonce, then the box.
pub fn frame_ciphertext(nonce: &[u8; 24], sealed: Vec<u8>) -> (framed: Vec<u8>)
    ensures
        framed@ == nonce@ + sealed@,
{
    let mut framed = slice_to_vec(nonce.as_slice());
    let mut sealed = sealed;
    framed.append(&mut sealed);
    framed
}

/// This node's end-to-end encryption key pair.
pub struct ChatCrypto {
    secret: [u8; 32],
    public: [u8; 32],
}

impl ChatCrypto {
    /// The secret key's bytes.
    pub closed spec fn secret_key(&self) -> Seq<u8> {
        self.secret@
    }

    /// The public key's bytes.
    pub closed spec fn public_key(&self) -> Seq<u8> {
        self.public@
    }

    /// The key pair read back from the contents of the secret and the public key
    /// files; each must hold exactly 32 bytes, the secret key's file being
    /// checked first.
    pub fn from_key_bytes(secret: Vec<u8>, public: Vec<u8>) -> (r: Result<ChatCrypto, KeyFileError>)
        ensures
            secret@.len() != 32 ==> r == Err::<ChatCrypto, KeyFileError>(
                KeyFileError::InvalidSecretKeyFile,
            ),
            secret@.len() == 32 && public@.len() != 32 ==> r == Err::<ChatCrypto, KeyFileError>(
                KeyFileError::InvalidPublicKeyFile,
            ),
            secret@.len() == 32 && public@.len() == 32 ==> (r matches Ok(c) && c.secret_key()
                == secret@ && c.public_key() == public@),
    {
        if secret.len() != 32 {
            return Err(KeyFileError::InvalidSecretKeyFile);
        }
        if public.len() != 32 {
            return Err(KeyFileError::InvalidPublicKeyFile);
        }
        Ok(ChatCrypto { secret: key_array(secret.as_slice()), public: key_array(public.as_slice()) })
    }

    /// A key pair made from the secret key `secret`.
    pub fn from_secret(secret: [u8; 32]) -> (c: ChatCrypto)
        ensures
            c.secret_key() == secret@,
            c.public_key() == x25519_public_of(secret@),
    {
        let public = x25519_public_key(&secret);
        ChatCrypto { secret, public }
    }

    /// A fresh key pair with a random secret key.
    pub fn generate() -> (c: ChatCrypto)
        ensures
            c.secret_key().len() == 32,
            c.public_key() == x25519_public_of(c.secret_key()),
    {
        let secret = random_secret_key();
        ChatCrypto::from_secret(secret)
    }

    /// The public key, as peers receive it in presence announcements.
    pub fn public_key_bytes(&self) -> (key: [u8; 32])
        ensures
            key@ == self.public_key(),
    {
        self.public
    }

    /// The secret key, as the key file stores it.
    pub fn secret_key_bytes(&self) -> (key: [u8; 32])
        ensures
            key@ == self.secret_key(),
    {
        self.secret
    }

    /// Encrypts `plaintext` for the holder of `recipient_pub` under a fresh random
    /// nonce; the result is the nonce followed by the sealed box.
    pub fn encrypt(&self, recipient_pub: &[u8; 32], plaintext: &[u8]) -> (r: Result<
        Vec<u8>,
        CryptoError,
    >)
        requires
            plaintext@.len() + 40 <= isize::MAX,
        ensures
            r is Ok,
            r matches Ok(framed) ==> framed@.len() == plaintext@.len() + 40,
            r matches Ok(framed) ==> exists|nonce: Seq<u8>|
                nonce.len() == 24 && framed@ == sealed_frame(
                    self.secret_key(),
                    recipient_pub@,
                    nonce,
                    plaintext@,
                ),
            r matches Ok(framed) ==> framed@.skip(24) == box_seal_of(
                self.secret_key(),
                recipient_pub@,
                framed@.take(24),
                plaintext@,
            ),
    {
        let nonce = random_nonce();
        let r = self.encrypt_with_nonce(recipient_pub, &nonce, plaintext);
        assert(nonce@.len() == 24);
        proof {
            lemma_frame_is_nonce_then_box(self.secret_key(), recipient_pub@, nonce@, plaintext@);
        }
        r
    }

    /// Encrypts `plaintext` for the holder of `recipient_pub` under `nonce`; the
    /// result is the nonce followed by the sealed box.
    pub fn encrypt_with_nonce(&self, recipient_pub: &[u8; 32], nonce: &[u8; 24], plaintext: &[u8]) -> (r:
        Result<Vec<u8>, CryptoError>)
        requires
            plaintext@.len() + 40 <= isize::MAX,
        ensures
            r is Ok,
            r matches Ok(framed) ==> framed@ == sealed_frame(
                self.secret_key(),
                recipient_pub@,
                nonce@,
                plaintext@,
            ),
            r matches Ok(framed) ==> framed@.len() == plaintext@.len() + 40,
            r matches Ok(framed) ==> framed@ == nonce@ + box_seal_of(
                self.secret_key(),
                recipient_pub@,
                nonce@,
                plaintext@,
            ),
            r matches Ok(framed) ==> framed@.take(24) == nonce@ && framed@.skip(24) == box_seal_of(
                self.secret_key(),
                recipient_pub@,
                nonce@,
                plaintext@,
            ),
    {
        match box_encrypt(&self.secret, recipient_pub, nonce, plaintext) {
            Ok(sealed) => {
                let framed = frame_ciphertext(nonce, sealed);
                proof {
                    lemma_frame_is_nonce_then_box(self.secret_key(), recipient_pub@, nonce@, plaintext@);
                    assert(framed@.take(24) =~= nonce@);
                    assert(framed@.skip(24) =~= box_seal_of(
                        self.secret_key(),
                        recipient_pub@,
                        nonce@,
                        plaintext@,
                    ));
                }
                Ok(framed)
            },
            Err(_) => Err(CryptoError::EncryptionFailed),
        }
    }

    /// Decrypts a framed ciphertext from the holder of `sender_pub`. A ciphertext
    /// shorter than the nonce is refused as too short; otherwise the nonce is its
    /// first 24 bytes and the rest is the sealed box to open. A frame that the
    /// sender sealed with its secret key for this key pair's secret key opens into
    /// what was sealed, and so does a frame that this key pair sealed itself for
    /// the holder of `sender_pub`.
    pub fn decrypt(&self, sender_pub: &[u8; 32], ciphertext: &[u8]) -> (r: Result<
        Vec<u8>,
        CryptoError,
    >)
        ensures
            match r {
                Ok(p) => decrypt_spec(self.secret_key(), sender_pub@, ciphertext@) == Ok::<
                    Seq<u8>,
                    CryptoError,
                >(p@),
                Err(e) => decrypt_spec(self.secret_key(), sender_pub@, ciphertext@) == Err::<
                    Seq<u8>,
                    CryptoError,
                >(e),
            },
            r matches Ok(p) ==> ciphertext@.len() >= 40 && p@.len() == ciphertext@.len() - 40,
            ciphertext@.len() < 24 ==> r == Err::<Vec<u8>, CryptoError>(CryptoError::CiphertextTooShort),
            ciphertext@.len() >= 24 ==> match box_open_of(
                self.secret_key(),
                sender_pub@,
                ciphertext@.take(24),
                ciphertext@.skip(24),
            ) {
                Some(plain) => r matches Ok(p) && p@ == plain,
                None => r == Err::<Vec<u8>, CryptoError>(CryptoError::DecryptionFailed),
            },
            forall|a: Seq<u8>, n: Seq<u8>, m: Seq<u8>|
                #![trigger box_seal_of(a, x25519_public_of(self.secret_key()), n, m)]
                a.len() == 32 && n.len() == 24 && sender_pub@ == x25519_public_of(a) && ciphertext@
                    == n + box_seal_of(a, x25519_public_of(self.secret_key()), n, m) ==> (r matches Ok(
                    p,
                ) && p@ == m),
            forall|n: Seq<u8>, m: Seq<u8>|
                #![trigger box_seal_of(self.secret_key(), sender_pub@, n, m)]
                n.len() == 24 && ciphertext@ == n + box_seal_of(self.secret_key(), sender_pub@, n, m)
                    ==> (r matches Ok(p) && p@ == m),
            forall|a: Seq<u8>, nonce: Seq<u8>, m: Seq<u8>|
                #![trigger sealed_frame(a, x25519_public_of(self.secret_key()), nonce, m)]
                a.len() == 32 && nonce.len() == 24 && sender_pub@ == x25519_public_of(a)
                    && ciphertext@ == sealed_frame(a, x25519_public_of(self.secret_key()), nonce, m)
                    ==> (r matches Ok(p) && p@ == m),
            forall|nonce: Seq<u8>, m: Seq<u8>|
                #![trigger sealed_frame(self.secret_key(), sender_pub@, nonce, m)]
                nonce.len() == 24 && ciphertext@ == sealed_frame(
                    self.secret_key(),
                    sender_pub@,
                    nonce,
                    m,
                ) ==> (r matches Ok(p) && p@ == m),
    {
        if ciphertext.len() < NONCE_LEN {
            return Err(CryptoError::CiphertextTooShort);
        }
        let mut nonce = [0u8; 24];
        let mut i: usize = 0;
        while i < 24
            invariant
                i <= 24,
                ciphertext@.len() >= 24,
                nonce@.len() == 24,
                forall|j: int| 0 <= j < i ==> nonce@[j] == ciphertext@[j],
            decreases 24 - i,
        {
            nonce[i] = ciphertext[i];
            i = i + 1;
        }
        assert(nonce@ =~= ciphertext@.take(24));
        let sealed = vstd::slice::slice_subrange(ciphertext, NONCE_LEN, ciphertext.len());
        assert(sealed@ =~= ciphertext@.skip(24));
        let r = box_decrypt(&self.secret, sender_pub, &nonce, sealed);
        proof {
            assert forall|a: Seq<u8>, n: Seq<u8>, m: Seq<u8>|
                a.len() == 32 && n.len() == 24 && sender_pub@ == x25519_public_of(a)
                    && ciphertext@ == sealed_frame(
                    a,
                    x25519_public_of(self.secret_key()),
                    n,
                    m,
                ) implies (r matches Ok(p) && p@ == m) by {
                let seal = box_seal_of(a, x25519_public_of(self.secret_key()), n, m);
                assert(ciphertext@.take(24) =~= n);
                assert(ciphertext@.skip(24) =~= seal);
            }
            assert forall|a: Seq<u8>, n: Seq<u8>, m: Seq<u8>|
                a.len() == 32 && n.len() == 24 && sender_pub@ == x25519_public_of(a) && ciphertext@
                    == n + box_seal_of(a, x25519_public_of(self.secret_key()), n, m) implies (r matches Ok(
                p,
            ) && p@ == m) by {
                let seal = box_seal_of(a, x25519_public_of(self.secret_key()), n, m);
                assert(ciphertext@.take(24) =~= n);
                assert(ciphertext@.skip(24) =~= seal);
            }
            assert forall|n: Seq<u8>, m: Seq<u8>|
                n.len() == 24 && ciphertext@ == n + box_seal_of(self.secret_key(), sender_pub@, n, m)
                    implies (r matches Ok(p) && p@ == m) by {
                let seal = box_seal_of(self.secret_key(), sender_pub@, n, m);
                assert(ciphertext@.take(24) =~= n);
                assert(ciphertext@.skip(24) =~= seal);
            }
            assert forall|n: Seq<u8>, m: Seq<u8>|
                n.len() == 24 && ciphertext@ == sealed_frame(
                    self.secret_key(),
                    sender_pub@,
                    n,
                    m,
                ) implies (r matches Ok(p) && p@ == m) by {
                let seal = box_seal_of(self.secret_key(), sender_pub@, n, m);
                assert(ciphertext@.take(24) =~= n);
                assert(ciphertext@.skip(24) =~= seal);
            }
        }
        match r {
            Ok(plain) => Ok(plain),
            Err(_) => Err(CryptoError::DecryptionFailed),
        }
    }
}

} // verus!
