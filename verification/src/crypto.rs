//! End-to-end encryption helpers: key pairs, ChaCha20-Poly1305 messages and
//! the derivation of a shared key. Keys, nonces and ciphertexts travel as
//! base64 text.

use crate::codec::{base64_decode, base64_decoding, base64_encode, base64_encoding};
use crate::text::{decimal, push_decimal};
use chacha20poly1305::aead::Aead;
use chacha20poly1305::KeyInit;
use rand::RngCore;
use vstd::prelude::*;
use vstd::string::{StringExecFns, StringSliceAdditionalSpecFns};
use vstd::utf8::{encode_utf8, valid_utf8};

verus! {

/// The length of every key, in bytes.
pub const KEY_LEN: usize = 32;

/// The length of a nonce, in bytes.
pub const NONCE_LEN: usize = 12;

/// The length of the authentication tag that follows a ciphertext, in bytes.
pub const TAG_LEN: usize = 16;

/// The longest plaintext, in bytes, whose ciphertext can still be written
/// as base64 text.
pub const MAX_PLAINTEXT_LEN: usize = usize::MAX / 4 * 3 - 16;

/// Error of the `chacha20poly1305` crate, carried through unopened.
#[verifier::external_type_specification]
#[verifier::external_body]
pub struct ExAeadError(chacha20poly1305::Error);

/// Error of the `hkdf` crate, carried through unopened.
#[verifier::external_type_specification]
#[verifier::external_body]
pub struct ExInvalidLength(hkdf::InvalidLength);

/// Error of `String::from_utf8`, carried through unopened.
#[verifier::external_type_specification]
#[verifier::external_body]
pub struct ExFromUtf8Error(std::string::FromUtf8Error);

/// An X25519 key pair for key exchange and an Ed25519 key pair for signing,
/// each key as base64 text.
#[derive(Clone, Debug, PartialEq, Eq)]
pub struct KeyPair {
    pub x25519_public: String,
    pub x25519_private: String,
    pub ed25519_public: String,
    pub ed25519_private: String,
}

/// A ciphertext and the nonce it was made with, both as base64 text.
#[derive(Clone, Debug, PartialEq, Eq)]
pub struct EncryptedPayload {
    pub ciphertext: String,
    pub nonce: String,
}

pub struct KeyPairView {
    pub x25519_public: Seq<char>,
    pub x25519_private: Seq<char>,
    pub ed25519_public: Seq<char>,
    pub ed25519_private: Seq<char>,
}

pub struct EncryptedPayloadView {
    pub ciphertext: Seq<char>,
    pub nonce: Seq<char>,
}

impl View for KeyPair {
    type V = KeyPairView;

    open spec fn view(&self) -> KeyPairView {
        KeyPairView {
            x25519_public: self.x25519_public@,
            x25519_private: self.x25519_private@,
            ed25519_public: self.ed25519_public@,
            ed25519_private: self.ed25519_private@,
        }
    }
}

impl View for EncryptedPayload {
    type V = EncryptedPayloadView;

    open spec fn view(&self) -> EncryptedPayloadView {
        EncryptedPayloadView { ciphertext: self.ciphertext@, nonce: self.nonce@ }
    }
}

/// Why a cryptographic operation failed. A text is the words of the crate
/// that refused; a number is the length that was found.
#[derive(Clone, Debug, PartialEq, Eq)]
pub enum CryptoError {
    InvalidKeyEncoding(String),
    InvalidKeyLength(usize),
    InvalidNonceEncoding(String),
    InvalidNonceLength(usize),
    InvalidCiphertextEncoding(String),
    PlaintextTooLong(usize),
    EncryptionFailed(String),
    DecryptionFailed(String),
    InvalidUtf8(String),
    InvalidPrivateKeyEncoding(String),
    InvalidPublicKeyEncoding(String),
    InvalidPrivateKeyLength(usize),
    InvalidPublicKeyLength(usize),
    KeyDerivationFailed(String),
}

/// The text that the boundary shows for an error.
pub open spec fn error_text(error: CryptoError) -> Seq<char> {
    match error {
        CryptoError::InvalidKeyEncoding(detail) => "Invalid base64 key: "@ + detail@,
        CryptoError::InvalidKeyLength(n) => "Key must be 32 bytes, got "@ + decimal(n as nat),
        CryptoError::InvalidNonceEncoding(detail) => "Invalid base64 nonce: "@ + detail@,
        CryptoError::InvalidNonceLength(n) => "Nonce must be 12 bytes, got "@ + decimal(n as nat),
        CryptoError::InvalidCiphertextEncoding(detail) => "Invalid base64 ciphertext: "@ + detail@,
        CryptoError::PlaintextTooLong(n) => "Message is too long to encrypt: "@ + decimal(n as nat)
            + " bytes"@,
        CryptoError::EncryptionFailed(detail) => "Encryption failed: "@ + detail@,
        CryptoError::DecryptionFailed(detail) => "Decryption failed: "@ + detail@,
        CryptoError::InvalidUtf8(detail) => "Invalid UTF-8 in decrypted message: "@ + detail@,
        CryptoError::InvalidPrivateKeyEncoding(detail) => "Invalid base64 private key: "@
            + detail@,
        CryptoError::InvalidPublicKeyEncoding(detail) => "Invalid base64 public key: "@ + detail@,
        CryptoError::InvalidPrivateKeyLength(n) => "Private key must be 32 bytes, got "@ + decimal(
            n as nat,
        ),
        CryptoError::InvalidPublicKeyLength(n) => "Public key must be 32 bytes, got "@ + decimal(
            n as nat,
        ),
        CryptoError::KeyDerivationFailed(detail) => "HKDF expansion failed: "@ + detail@,
    }
}

fn with_detail(prefix: &str, detail: &String) -> (text: String)
    ensures
        text@ == prefix@ + detail@,
{
    let mut text = prefix.to_owned();
    text.append(detail.as_str());
    text
}

fn with_number(prefix: &str, n: usize) -> (text: String)
    ensures
        text@ == prefix@ + decimal(n as nat),
{
    let mut text = prefix.to_owned();
    push_decimal(&mut text, n as u64);
    text
}

impl CryptoError {
    /// The text that the boundary shows for this error.
    pub fn message(&self) -> (text: String)
        ensures
            text@ == error_text(*self),
    {
        match self {
            CryptoError::InvalidKeyEncoding(detail) => with_detail("Invalid base64 key: ", detail),
            CryptoError::InvalidKeyLength(n) => with_number("Key must be 32 bytes, got ", *n),
            CryptoError::InvalidNonceEncoding(detail) => with_detail(
                "Invalid base64 nonce: ",
                detail,
            ),
            CryptoError::InvalidNonceLength(n) => with_number("Nonce must be 12 bytes, got ", *n),
            CryptoError::InvalidCiphertextEncoding(detail) => with_detail(
                "Invalid base64 ciphertext: ",
                detail,
            ),
            CryptoError::PlaintextTooLong(n) => {
                let mut text = with_number("Message is too long to encrypt: ", *n);
                text.append(" bytes");
                text
            },
            CryptoError::EncryptionFailed(detail) => with_detail("Encryption failed: ", detail),
            CryptoError::DecryptionFailed(detail) => with_detail("Decryption failed: ", detail),
            CryptoError::InvalidUtf8(detail) => with_detail(
                "Invalid UTF-8 in decrypted message: ",
                detail,
            ),
            CryptoError::InvalidPrivateKeyEncoding(detail) => with_detail(
                "Invalid base64 private key: ",
                detail,
            ),
            CryptoError::InvalidPublicKeyEncoding(detail) => with_detail(
                "Invalid base64 public key: ",
                detail,
            ),
            CryptoError::InvalidPrivateKeyLength(n) => with_number(
                "Private key must be 32 bytes, got ",
                *n,
            ),
            CryptoError::InvalidPublicKeyLength(n) => with_number(
                "Public key must be 32 bytes, got ",
                *n,
            ),
            CryptoError::KeyDerivationFailed(detail) => with_detail(
                "HKDF expansion failed: ",
                detail,
            ),
        }
    }
}

/// The X25519 public key that belongs to a secret of 32 bytes.
pub uninterp spec fn x25519_public_key(secret: Seq<u8>) -> Seq<u8>;

/// The X25519 Diffie-Hellman secret of a secret and another party's public
/// key, 32 bytes each.
pub uninterp spec fn x25519_shared_secret(secret: Seq<u8>, public: Seq<u8>) -> Seq<u8>;

/// The Ed25519 verifying key that belongs to a secret of 32 bytes.
pub uninterp spec fn ed25519_public_key(secret: Seq<u8>) -> Seq<u8>;

/// HKDF-SHA256 without salt: `len` bytes of key material expanded from the
/// input key and the context, or `None` where `len` is too large.
pub uninterp spec fn hkdf_sha256(input_key: Seq<u8>, context: Seq<u8>, len: nat) -> Option<
    Seq<u8>,
>;

/// The ChaCha20-Poly1305 ciphertext, tag included, of a plaintext under a
/// key of 32 bytes and a nonce of 12, or `None` where the cipher refuses.
pub uninterp spec fn chacha20poly1305_sealed(
    key: Seq<u8>,
    nonce: Seq<u8>,
    plaintext: Seq<u8>,
) -> Option<Seq<u8>>;

/// The plaintext of a ChaCha20-Poly1305 ciphertext under a key of 32 bytes
/// and a nonce of 12, or `None` where it does not authenticate.
pub uninterp spec fn chacha20poly1305_opened(
    key: Seq<u8>,
    nonce: Seq<u8>,
    ciphertext: Seq<u8>,
) -> Option<Seq<u8>>;

/// Whether the text is base64 for exactly `len` bytes.
pub open spec fn decodes_to_len(text: Seq<char>, len: nat) -> bool {
    base64_decoding(text) matches Some(bytes) && bytes.len() == len
}

/// Whether the text is base64 for a key of 32 bytes.
pub open spec fn decodes_to_key(key_b64: Seq<char>) -> bool {
    decodes_to_len(key_b64, KEY_LEN as nat)
}

/// Whether the text is base64 for a nonce of 12 bytes.
pub open spec fn decodes_to_nonce(nonce_b64: Seq<char>) -> bool {
    decodes_to_len(nonce_b64, NONCE_LEN as nat)
}

/// The context that shared keys are derived under.
pub open spec fn key_context() -> Seq<u8> {
    "zeusix-e2ee-v1".spec_bytes()
}

/// The key pair that belongs to two secrets.
pub open spec fn key_pair_of(x25519_secret: Seq<u8>, ed25519_secret: Seq<u8>) -> KeyPairView {
    KeyPairView {
        x25519_public: base64_encoding(x25519_public_key(x25519_secret)),
        x25519_private: base64_encoding(x25519_secret),
        ed25519_public: base64_encoding(ed25519_public_key(ed25519_secret)),
        ed25519_private: base64_encoding(ed25519_secret),
    }
}

/// The payload that a plaintext is sealed to, or `None` where the key or
/// the nonce has the wrong length, the plaintext is too long or the cipher
/// refuses.
pub open spec fn sealed_payload(plaintext: Seq<u8>, key: Seq<u8>, nonce: Seq<u8>) -> Option<
    EncryptedPayloadView,
> {
    if key.len() == KEY_LEN && nonce.len() == NONCE_LEN && plaintext.len() <= MAX_PLAINTEXT_LEN {
        match chacha20poly1305_sealed(key, nonce, plaintext) {
            Some(ciphertext) => Some(
                EncryptedPayloadView {
                    ciphertext: base64_encoding(ciphertext),
                    nonce: base64_encoding(nonce),
                },
            ),
            None => None,
        }
    } else {
        None
    }
}

/// The plaintext bytes that a payload opens to, or `None` where a part is
/// not base64, the key or the nonce has the wrong length, or the ciphertext
/// does not authenticate.
pub open spec fn opened_payload(
    ciphertext_b64: Seq<char>,
    nonce_b64: Seq<char>,
    key_b64: Seq<char>,
) -> Option<Seq<u8>> {
    match (base64_decoding(key_b64), base64_decoding(ciphertext_b64), base64_decoding(nonce_b64)) {
        (Some(key), Some(ciphertext), Some(nonce)) => if key.len() == KEY_LEN && nonce.len()
            == NONCE_LEN {
            chacha20poly1305_opened(key, nonce, ciphertext)
        } else {
            None
        },
        _ => None,
    }
}

/// The shared key, as base64 text, that two parties derive, or `None` where
/// a key is not base64 for 32 bytes.
pub open spec fn shared_key(private_key_b64: Seq<char>, public_key_b64: Seq<char>) -> Option<
    Seq<char>,
> {
    match (base64_decoding(private_key_b64), base64_decoding(public_key_b64)) {
        (Some(secret), Some(public)) => if secret.len() == KEY_LEN && public.len() == KEY_LEN {
            match hkdf_sha256(
                x25519_shared_secret(secret, public),
                key_context(),
                KEY_LEN as nat,
            ) {
                Some(key) => Some(base64_encoding(key)),
                None => None,
            }
        } else {
            None
        },
        _ => None,
    }
}

/// `StaticSecret::random_from_rng` with `OsRng`, as bytes: 32 random bytes.
/// It panics where the operating system gives no randomness.
#[verifier::external_body]
fn random_x25519_secret() -> (secret: Vec<u8>)
    ensures
        secret@.len() == KEY_LEN,
{
    x25519_dalek::StaticSecret::random_from_rng(rand::rngs::OsRng).to_bytes().to_vec()
}

/// `SigningKey::generate` with `OsRng`, as bytes: 32 random bytes. It
/// panics where the operating system gives no randomness.
#[verifier::external_body]
fn random_ed25519_secret() -> (secret: Vec<u8>)
    ensures
        secret@.len() == KEY_LEN,
{
    ed25519_dalek::SigningKey::generate(&mut rand::rngs::OsRng).to_bytes().to_vec()
}

/// `OsRng::fill_bytes` on 12 bytes: a random nonce. It panics where the
/// operating system gives no randomness.
#[verifier::external_body]
fn random_nonce() -> (nonce: Vec<u8>)
    ensures
        nonce@.len() == NONCE_LEN,
{
    let mut bytes = [0u8; 12];
    rand::rngs::OsRng.fill_bytes(&mut bytes);
    bytes.to_vec()
}

/// `PublicKey::from` of the `StaticSecret` with these bytes: the public key
/// is a function of the secret and has 32 bytes.
#[verifier::external_body]
fn x25519_public(secret: &Vec<u8>) -> (public: Vec<u8>)
    requires
        secret@.len() == KEY_LEN,
    ensures
        public@ == x25519_public_key(secret@),
        public@.len() == KEY_LEN,
{
    let mut bytes = [0u8; 32];
    bytes.copy_from_slice(secret);
    x25519_dalek::PublicKey::from(&x25519_dalek::StaticSecret::from(bytes)).as_bytes().to_vec()
}

/// `SigningKey::from_bytes` and `verifying_key`: the verifying key is a
/// function of the secret and has 32 bytes.
#[verifier::external_body]
fn ed25519_public(secret: &Vec<u8>) -> (public: Vec<u8>)
    requires
        secret@.len() == KEY_LEN,
    ensures
        public@ == ed25519_public_key(secret@),
        public@.len() == KEY_LEN,
{
    let mut bytes = [0u8; 32];
    bytes.copy_from_slice(secret);
    ed25519_dalek::SigningKey::from_bytes(&bytes).verifying_key().to_bytes().to_vec()
}

/// `StaticSecret::diffie_hellman`: the shared secret is a function of the
/// two keys and has 32 bytes.
#[verifier::external_body]
fn x25519_agree(secret: &Vec<u8>, public: &Vec<u8>) -> (shared: Vec<u8>)
    requires
        secret@.len() == KEY_LEN,
        public@.len() == KEY_LEN,
    ensures
        shared@ == x25519_shared_secret(secret@, public@),
        shared@.len() == KEY_LEN,
{
    let mut ours = [0u8; 32];
    ours.copy_from_slice(secret);
    let mut theirs = [0u8; 32];
    theirs.copy_from_slice(public);
    let theirs = x25519_dalek::PublicKey::from(theirs);
    x25519_dalek::StaticSecret::from(ours).diffie_hellman(&theirs).as_bytes().to_vec()
}

/// `Hkdf::<Sha256>::new` without salt, then `expand` into `len` bytes. The
/// output is a function of the arguments; the call fails exactly where
/// `len` exceeds 255 times the 32 bytes of a SHA-256 digest.
#[verifier::external_body]
fn hkdf_expand(input_key: &Vec<u8>, context: &[u8], len: usize) -> (r: Result<
    Vec<u8>,
    hkdf::InvalidLength,
>)
    ensures
        r is Ok <==> len <= 255 * 32,
        r is Ok <==> hkdf_sha256(input_key@, context@, len as nat) is Some,
        r matches Ok(key) ==> hkdf_sha256(input_key@, context@, len as nat) == Some(key@)
            && key@.len() == len,
{
    let mut output = vec![0u8; len];
    match hkdf::Hkdf::<sha2::Sha256>::new(None, input_key).expand(context, &mut output) {
        Ok(()) => Ok(output),
        Err(e) => Err(e),
    }
}

/// `ChaCha20Poly1305::new` and `encrypt` without associated data. Key and
/// nonce of another length make it panic, as does a plaintext so long that
/// the tag has no room; the precondition excludes them. The ciphertext is a
/// function of the arguments and 16 bytes longer than the plaintext.
#[verifier::external_body]
fn chacha_seal(key: &Vec<u8>, nonce: &Vec<u8>, plaintext: &[u8]) -> (r: Result<
    Vec<u8>,
    chacha20poly1305::Error,
>)
    requires
        key@.len() == KEY_LEN,
        nonce@.len() == NONCE_LEN,
        plaintext@.len() + TAG_LEN <= usize::MAX,
    ensures
        r is Ok <==> chacha20poly1305_sealed(key@, nonce@, plaintext@) is Some,
        r matches Ok(ciphertext) ==> chacha20poly1305_sealed(key@, nonce@, plaintext@) == Some(
            ciphertext@,
        ) && ciphertext@.len() == plaintext@.len() + TAG_LEN,
{
    let cipher = chacha20poly1305::ChaCha20Poly1305::new(chacha20poly1305::Key::from_slice(key));
    cipher.encrypt(chacha20poly1305::Nonce::from_slice(nonce), plaintext)
}

/// `ChaCha20Poly1305::new` and `decrypt` without associated data. Key and
/// nonce of another length make it panic; the precondition excludes them.
/// The plaintext is a function of the arguments.
#[verifier::external_body]
fn chacha_open(key: &Vec<u8>, nonce: &Vec<u8>, ciphertext: &Vec<u8>) -> (r: Result<
    Vec<u8>,
    chacha20poly1305::Error,
>)
    requires
        key@.len() == KEY_LEN,
        nonce@.len() == NONCE_LEN,
    ensures
        r is Ok <==> chacha20poly1305_opened(key@, nonce@, ciphertext@) is Some,
        r matches Ok(plaintext) ==> chacha20poly1305_opened(key@, nonce@, ciphertext@) == Some(
            plaintext@,
        ),
{
    let cipher = chacha20poly1305::ChaCha20Poly1305::new(chacha20poly1305::Key::from_slice(key));
    cipher.decrypt(chacha20poly1305::Nonce::from_slice(nonce), ciphertext.as_slice())
}

/// `String::from_utf8`: the bytes as text where they are UTF-8.
#[verifier::external_body]
fn utf8_text(bytes: Vec<u8>) -> (r: Result<String, std::string::FromUtf8Error>)
    ensures
        r is Ok <==> valid_utf8(bytes@),
        r matches Ok(text) ==> encode_utf8(text@) == bytes@,
{
    String::from_utf8(bytes)
}

/// The key pair that belongs to two secrets of 32 bytes each.
pub fn key_pair_from_secrets(x25519_secret: &Vec<u8>, ed25519_secret: &Vec<u8>) -> (r: Result<
    KeyPair,
    CryptoError,
>)
    ensures
        r is Ok <==> x25519_secret@.len() == KEY_LEN && ed25519_secret@.len() == KEY_LEN,
        r matches Ok(pair) ==> pair@ == key_pair_of(x25519_secret@, ed25519_secret@),
        r matches Err(e) ==> e == (if x25519_secret@.len() != KEY_LEN {
            CryptoError::InvalidPrivateKeyLength(x25519_secret.len())
        } else {
            CryptoError::InvalidPrivateKeyLength(ed25519_secret.len())
        }),
{
    if x25519_secret.len() != KEY_LEN {
        return Err(CryptoError::InvalidPrivateKeyLength(x25519_secret.len()));
    }
    if ed25519_secret.len() != KEY_LEN {
        return Err(CryptoError::InvalidPrivateKeyLength(ed25519_secret.len()));
    }
    let x25519_key = x25519_public(x25519_secret);
    let ed25519_key = ed25519_public(ed25519_secret);
    Ok(
        KeyPair {
            x25519_public: base64_encode(x25519_key.as_slice()),
            x25519_private: base64_encode(x25519_secret.as_slice()),
            ed25519_public: base64_encode(ed25519_key.as_slice()),
            ed25519_private: base64_encode(ed25519_secret.as_slice()),
        },
    )
}

/// Generates a new key pair from fresh random secrets.
pub fn generate_keypair() -> (r: Result<KeyPair, CryptoError>)
    ensures
        r matches Ok(pair) && exists|x25519_secret: Seq<u8>, ed25519_secret: Seq<u8>|
            x25519_secret.len() == KEY_LEN && ed25519_secret.len() == KEY_LEN && pair@
                == #[trigger] key_pair_of(x25519_secret, ed25519_secret),
{
    let x25519_secret = random_x25519_secret();
    let ed25519_secret = random_ed25519_secret();
    let r = key_pair_from_secrets(&x25519_secret, &ed25519_secret);
    proof {
        let _ = key_pair_of(x25519_secret@, ed25519_secret@);
    }
    r
}

/// Decodes a symmetric key: base64 for exactly 32 bytes.
pub fn decode_key(key_b64: &str) -> (r: Result<Vec<u8>, CryptoError>)
    ensures
        r is Ok <==> decodes_to_key(key_b64@),
        r matches Ok(key) ==> base64_decoding(key_b64@) == Some(key@),
        r matches Err(e) ==> match e {
            CryptoError::InvalidKeyEncoding(_) => base64_decoding(key_b64@) is None,
            CryptoError::InvalidKeyLength(n) => decodes_to_len(key_b64@, n as nat) && n != KEY_LEN,
            _ => false,
        },
{
    match base64_decode(key_b64) {
        Err(e) => Err(CryptoError::InvalidKeyEncoding(e.to_string())),
        Ok(key) => if key.len() != KEY_LEN {
            Err(CryptoError::InvalidKeyLength(key.len()))
        } else {
            Ok(key)
        },
    }
}

/// Seals a plaintext under a key of 32 bytes with a nonce of 12 bytes.
pub fn seal_message(plaintext: &str, key: &Vec<u8>, nonce: &Vec<u8>) -> (r: Result<
    EncryptedPayload,
    CryptoError,
>)
    ensures
        r is Ok <==> sealed_payload(plaintext.spec_bytes(), key@, nonce@) is Some,
        r matches Ok(payload) ==> sealed_payload(plaintext.spec_bytes(), key@, nonce@) == Some(
            payload@,
        ),
        r matches Err(e) ==> match e {
            CryptoError::InvalidKeyLength(n) => n == key@.len() && n != KEY_LEN,
            CryptoError::InvalidNonceLength(n) => key@.len() == KEY_LEN && n == nonce@.len() && n
                != NONCE_LEN,
            CryptoError::PlaintextTooLong(n) => key@.len() == KEY_LEN && nonce@.len() == NONCE_LEN
                && n == plaintext.spec_bytes().len() && n > MAX_PLAINTEXT_LEN,
            CryptoError::EncryptionFailed(_) => key@.len() == KEY_LEN && nonce@.len() == NONCE_LEN
                && plaintext.spec_bytes().len() <= MAX_PLAINTEXT_LEN,
            _ => false,
        },
{
    if key.len() != KEY_LEN {
        return Err(CryptoError::InvalidKeyLength(key.len()));
    }
    if nonce.len() != NONCE_LEN {
        return Err(CryptoError::InvalidNonceLength(nonce.len()));
    }
    let bytes = plaintext.as_bytes();
    if bytes.len() > MAX_PLAINTEXT_LEN {
        return Err(CryptoError::PlaintextTooLong(bytes.len()));
    }
    match chacha_seal(key, nonce, bytes) {
        Err(e) => Err(CryptoError::EncryptionFailed(e.to_string())),
        Ok(ciphertext) => Ok(
            EncryptedPayload {
                ciphertext: base64_encode(ciphertext.as_slice()),
                nonce: base64_encode(nonce.as_slice()),
            },
        ),
    }
}

/// What encrypting with the nonce `nonce` gives: the sealed payload, or the
/// error that tells why there is none.
pub open spec fn encrypted_with(
    r: Result<EncryptedPayload, CryptoError>,
    plaintext: Seq<u8>,
    key: Seq<u8>,
    nonce: Seq<u8>,
) -> bool {
    match r {
        Ok(payload) => sealed_payload(plaintext, key, nonce) == Some(payload@),
        Err(CryptoError::PlaintextTooLong(n)) => n == plaintext.len() && n > MAX_PLAINTEXT_LEN,
        Err(CryptoError::EncryptionFailed(_)) => plaintext.len() <= MAX_PLAINTEXT_LEN
            && sealed_payload(plaintext, key, nonce) is None,
        Err(_) => false,
    }
}

/// Encrypts a message under a base64 key of 32 bytes, with a fresh random
/// nonce of 12 bytes.
pub fn encrypt_message(plaintext: String, key_b64: String) -> (r: Result<
    EncryptedPayload,
    CryptoError,
>)
    ensures
        match base64_decoding(key_b64@) {
            None => r matches Err(CryptoError::InvalidKeyEncoding(_)),
            Some(key) => if key.len() != KEY_LEN {
                r == Err::<EncryptedPayload, CryptoError>(
                    CryptoError::InvalidKeyLength(key.len() as usize),
                )
            } else {
                exists|nonce: Seq<u8>|
                    nonce.len() == NONCE_LEN && #[trigger] encrypted_with(
                        r,
                        encode_utf8(plaintext@),
                        key,
                        nonce,
                    )
            },
        },
{
    let key = match decode_key(key_b64.as_str()) {
        Ok(key) => key,
        Err(e) => {
            return Err(e);
        },
    };
    let nonce = random_nonce();
    let r = seal_message(plaintext.as_str(), &key, &nonce);
    assert(encrypted_with(r, encode_utf8(plaintext@), key@, nonce@));
    r
}

/// Decrypts a base64 ciphertext with a base64 nonce of 12 bytes under a
/// base64 key of 32 bytes, and reads the plaintext as UTF-8.
pub fn decrypt_message(ciphertext_b64: String, nonce_b64: String, key_b64: String) -> (r: Result<
    String,
    CryptoError,
>)
    ensures
        r is Ok <==> (opened_payload(ciphertext_b64@, nonce_b64@, key_b64@) matches Some(bytes)
            && valid_utf8(bytes)),
        r matches Ok(text) ==> opened_payload(ciphertext_b64@, nonce_b64@, key_b64@) == Some(
            encode_utf8(text@),
        ),
        r matches Err(e) ==> match e {
            CryptoError::InvalidKeyEncoding(_) => base64_decoding(key_b64@) is None,
            CryptoError::InvalidKeyLength(n) => decodes_to_len(key_b64@, n as nat) && n != KEY_LEN,
            CryptoError::InvalidCiphertextEncoding(_) => decodes_to_key(key_b64@)
                && base64_decoding(ciphertext_b64@) is None,
            CryptoError::InvalidNonceEncoding(_) => decodes_to_key(key_b64@) && base64_decoding(
                ciphertext_b64@,
            ) is Some && base64_decoding(nonce_b64@) is None,
            CryptoError::InvalidNonceLength(n) => decodes_to_key(key_b64@) && base64_decoding(
                ciphertext_b64@,
            ) is Some && decodes_to_len(nonce_b64@, n as nat) && n != NONCE_LEN,
            CryptoError::DecryptionFailed(_) => decodes_to_key(key_b64@) && base64_decoding(
                ciphertext_b64@,
            ) is Some && decodes_to_nonce(nonce_b64@) && opened_payload(
                ciphertext_b64@,
                nonce_b64@,
                key_b64@,
            ) is None,
            CryptoError::InvalidUtf8(_) => opened_payload(ciphertext_b64@, nonce_b64@, key_b64@)
                matches Some(bytes) && !valid_utf8(bytes),
            _ => false,
        },
{
    let key = match decode_key(key_b64.as_str()) {
        Ok(key) => key,
        Err(e) => {
            return Err(e);
        },
    };
    let ciphertext = match base64_decode(ciphertext_b64.as_str()) {
        Ok(ciphertext) => ciphertext,
        Err(e) => {
            return Err(CryptoError::InvalidCiphertextEncoding(e.to_string()));
        },
    };
    let nonce = match base64_decode(nonce_b64.as_str()) {
        Ok(nonce) => nonce,
        Err(e) => {
            return Err(CryptoError::InvalidNonceEncoding(e.to_string()));
        },
    };
    if nonce.len() != NONCE_LEN {
        return Err(CryptoError::InvalidNonceLength(nonce.len()));
    }
    let plaintext = match chacha_open(&key, &nonce, &ciphertext) {
        Ok(plaintext) => plaintext,
        Err(e) => {
            return Err(CryptoError::DecryptionFailed(e.to_string()));
        },
    };
    match utf8_text(plaintext) {
        Ok(text) => Ok(text),
        Err(e) => Err(CryptoError::InvalidUtf8(e.to_string())),
    }
}

/// Derives the key that two parties share: the X25519 secret of our private
/// key and their public key, expanded with HKDF-SHA256 to 32 bytes, as
/// base64 text. Both keys are base64 for 32 bytes.
pub fn derive_shared_secret(private_key_b64: String, public_key_b64: String) -> (r: Result<
    String,
    CryptoError,
>)
    ensures
        r is Ok <==> decodes_to_key(private_key_b64@) && decodes_to_key(public_key_b64@),
        r matches Ok(key) ==> shared_key(private_key_b64@, public_key_b64@) == Some(key@),
        r matches Err(e) ==> match e {
            CryptoError::InvalidPrivateKeyEncoding(_) => base64_decoding(private_key_b64@) is None,
            CryptoError::InvalidPublicKeyEncoding(_) => base64_decoding(private_key_b64@) is Some
                && base64_decoding(public_key_b64@) is None,
            CryptoError::InvalidPrivateKeyLength(n) => base64_decoding(public_key_b64@) is Some
                && decodes_to_len(private_key_b64@, n as nat) && n != KEY_LEN,
            CryptoError::InvalidPublicKeyLength(n) => decodes_to_key(private_key_b64@)
                && decodes_to_len(public_key_b64@, n as nat) && n != KEY_LEN,
            _ => false,
        },
{
    let secret = match base64_decode(private_key_b64.as_str()) {
        Ok(secret) => secret,
        Err(e) => {
            return Err(CryptoError::InvalidPrivateKeyEncoding(e.to_string()));
        },
    };
    let public = match base64_decode(public_key_b64.as_str()) {
        Ok(public) => public,
        Err(e) => {
            return Err(CryptoError::InvalidPublicKeyEncoding(e.to_string()));
        },
    };
    if secret.len() != KEY_LEN {
        return Err(CryptoError::InvalidPrivateKeyLength(secret.len()));
    }
    if public.len() != KEY_LEN {
        return Err(CryptoError::InvalidPublicKeyLength(public.len()));
    }
    let shared = x25519_agree(&secret, &public);
    match hkdf_expand(&shared, "zeusix-e2ee-v1".as_bytes(), KEY_LEN) {
        Ok(key) => Ok(base64_encode(key.as_slice())),
        Err(e) => Err(CryptoError::KeyDerivationFailed(e.to_string())),
    }
}

} // verus!
