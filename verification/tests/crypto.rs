use base64::Engine;
use chacha20poly1305::aead::Aead;
use chacha20poly1305::KeyInit;
use zeusix_desktop::crypto::{
    decode_key, generate_keypair, key_pair_from_secrets, seal_message, CryptoError,
    EncryptedPayload, KEY_LEN, MAX_PLAINTEXT_LEN, NONCE_LEN, TAG_LEN,
};

fn encrypt_message(plaintext: &str, key_b64: &str) -> Result<EncryptedPayload, CryptoError> {
    zeusix_desktop::crypto::encrypt_message(plaintext.to_string(), key_b64.to_string())
}

fn decrypt_message(
    ciphertext_b64: &str,
    nonce_b64: &str,
    key_b64: &str,
) -> Result<String, CryptoError> {
    zeusix_desktop::crypto::decrypt_message(
        ciphertext_b64.to_string(),
        nonce_b64.to_string(),
        key_b64.to_string(),
    )
}

fn derive_shared_secret(private_key_b64: &str, public_key_b64: &str) -> Result<String, CryptoError> {
    zeusix_desktop::crypto::derive_shared_secret(
        private_key_b64.to_string(),
        public_key_b64.to_string(),
    )
}

fn hex(text: &str) -> Vec<u8> {
    (0..text.len()).step_by(2).map(|i| u8::from_str_radix(&text[i..i + 2], 16).unwrap()).collect()
}

fn b64(bytes: &[u8]) -> String {
    base64::engine::general_purpose::STANDARD.encode(bytes)
}

fn unb64(text: &str) -> Vec<u8> {
    base64::engine::general_purpose::STANDARD.decode(text).unwrap()
}

const ALICE_SECRET: &str = "77076d0a7318a57d3c16c17251b26645df4c2f87ebc0992ab177fba51db92c2a";
const ALICE_PUBLIC: &str = "8520f0098930a754748b7ddcb43ef75a0dbf3a0d26381af4eba4a98eaa9b4e6a";
const BOB_SECRET: &str = "5dab087e624a8a4b79e17f8b83800ee66f3bb1292618b6fd1c2f8b27ff88e0eb";
const BOB_PUBLIC: &str = "de9edb7d7b7dc1b4d35b61c2ece435373f8343c85b78674dadfc7e146f882b4f";
const SHARED: &str = "4a5d9d5ba4ce2de1728e3bf480350f25e07e21c947d19e3376f09b3c1e161742";
const ED_SECRET: &str = "9d61b19deffd5a60ba844af492ec2cc44449c5697b326919703bac031cae7f60";
const ED_PUBLIC: &str = "d75a980182b10ab7d54bfed3c964073a0ee172f3daa62325af021a68f707511a";

#[test]
fn keys_are_read_as_standard_base64() {
    let bytes: Vec<u8> = (0u8..32).map(|i| i.wrapping_mul(37).wrapping_add(251)).collect();
    let standard = b64(&bytes);
    assert!(standard.contains('+') || standard.contains('/'));
    assert_eq!(decode_key(&standard), Ok(bytes.clone()));
    let url_safe = base64::engine::general_purpose::URL_SAFE.encode(&bytes);
    assert!(matches!(decode_key(&url_safe), Err(CryptoError::InvalidKeyEncoding(_))));
    let unpadded = base64::engine::general_purpose::STANDARD_NO_PAD.encode(&bytes);
    assert!(matches!(decode_key(&unpadded), Err(CryptoError::InvalidKeyEncoding(_))));
    assert_eq!(
        decode_key("AAECAwQFBgcICQoLDA0ODxAREhMUFRYXGBkaGxwdHh8="),
        Ok((0u8..32).collect::<Vec<u8>>())
    );
}

#[test]
fn keys_are_written_as_standard_base64() {
    let secret: Vec<u8> = (0u8..32).collect();
    let pair = key_pair_from_secrets(&secret, &secret).unwrap();
    assert_eq!(pair.x25519_private, "AAECAwQFBgcICQoLDA0ODxAREhMUFRYXGBkaGxwdHh8=");
    assert_eq!(pair.ed25519_private, "AAECAwQFBgcICQoLDA0ODxAREhMUFRYXGBkaGxwdHh8=");
    assert_eq!(pair.x25519_public.len(), 44);
    assert!(pair.x25519_public.ends_with('='));
}

#[test]
fn a_key_pair_belongs_to_its_secrets() {
    let pair = key_pair_from_secrets(&hex(ALICE_SECRET), &hex(ED_SECRET)).unwrap();
    assert_eq!(pair.x25519_private, b64(&hex(ALICE_SECRET)));
    assert_eq!(pair.x25519_public, b64(&hex(ALICE_PUBLIC)));
    assert_eq!(pair.ed25519_private, b64(&hex(ED_SECRET)));
    assert_eq!(pair.ed25519_public, b64(&hex(ED_PUBLIC)));
    let pair = key_pair_from_secrets(&hex(BOB_SECRET), &hex(ED_SECRET)).unwrap();
    assert_eq!(pair.x25519_public, b64(&hex(BOB_PUBLIC)));
}

#[test]
fn secrets_of_the_wrong_length_give_no_key_pair() {
    assert_eq!(
        key_pair_from_secrets(&vec![0; 31], &vec![0; 32]),
        Err(CryptoError::InvalidPrivateKeyLength(31))
    );
    assert_eq!(
        key_pair_from_secrets(&vec![0; 32], &vec![0; 33]),
        Err(CryptoError::InvalidPrivateKeyLength(33))
    );
    assert_eq!(
        key_pair_from_secrets(&Vec::new(), &Vec::new()),
        Err(CryptoError::InvalidPrivateKeyLength(0))
    );
}

#[test]
fn generated_key_pairs_are_well_formed_and_fresh() {
    let first = generate_keypair().unwrap();
    let second = generate_keypair().unwrap();
    for text in [
        &first.x25519_public,
        &first.x25519_private,
        &first.ed25519_public,
        &first.ed25519_private,
    ] {
        assert_eq!(unb64(text).len(), KEY_LEN);
    }
    assert_ne!(first.x25519_private, second.x25519_private);
    assert_ne!(first.ed25519_private, second.ed25519_private);
    let again =
        key_pair_from_secrets(&unb64(&first.x25519_private), &unb64(&first.ed25519_private))
            .unwrap();
    assert_eq!(again, first);
}

#[test]
fn keys_are_base64_for_32_bytes() {
    assert_eq!(KEY_LEN, 32);
    assert_eq!(decode_key(&b64(&[7; 32])), Ok(vec![7; 32]));
    assert_eq!(decode_key(&b64(&[7; 31])), Err(CryptoError::InvalidKeyLength(31)));
    assert_eq!(decode_key(&b64(&[7; 33])), Err(CryptoError::InvalidKeyLength(33)));
    assert_eq!(decode_key(""), Err(CryptoError::InvalidKeyLength(0)));
    assert!(matches!(decode_key("not base64"), Err(CryptoError::InvalidKeyEncoding(_))));
}

#[test]
fn sealing_gives_the_ciphers_output() {
    let key = vec![9u8; 32];
    let nonce = vec![3u8; 12];
    let payload = seal_message("attack at dawn", &key, &nonce).unwrap();
    let cipher = chacha20poly1305::ChaCha20Poly1305::new(chacha20poly1305::Key::from_slice(&key));
    let expected = cipher
        .encrypt(chacha20poly1305::Nonce::from_slice(&nonce), "attack at dawn".as_bytes())
        .unwrap();
    assert_eq!(
        payload,
        EncryptedPayload { ciphertext: b64(&expected), nonce: b64(&nonce) }
    );
    assert_eq!(unb64(&payload.ciphertext).len(), "attack at dawn".len() + TAG_LEN);
    assert_ne!(unb64(&payload.ciphertext)[..14], *"attack at dawn".as_bytes());
}

#[test]
fn sealing_needs_key_and_nonce_of_the_right_length() {
    assert_eq!(NONCE_LEN, 12);
    assert_eq!(
        seal_message("x", &vec![0; 16], &vec![0; 12]),
        Err(CryptoError::InvalidKeyLength(16))
    );
    assert_eq!(
        seal_message("x", &vec![0; 32], &vec![0; 8]),
        Err(CryptoError::InvalidNonceLength(8))
    );
    assert_eq!(
        seal_message("x", &vec![0; 33], &vec![0; 13]),
        Err(CryptoError::InvalidKeyLength(33))
    );
}

#[test]
fn an_encrypted_message_decrypts_to_itself() {
    let key = b64(&[42u8; 32]);
    for text in ["", "hello", "gr\u{fc}\u{df}e \u{1f600}", "a longer message that spans blocks ................................................"] {
        let payload = encrypt_message(text, &key).unwrap();
        assert_eq!(unb64(&payload.nonce).len(), NONCE_LEN);
        assert_eq!(unb64(&payload.ciphertext).len(), text.len() + TAG_LEN);
        assert_eq!(decrypt_message(&payload.ciphertext, &payload.nonce, &key), Ok(text.to_string()));
    }
}

#[test]
fn every_encryption_draws_a_new_nonce() {
    let key = b64(&[42u8; 32]);
    let first = encrypt_message("same", &key).unwrap();
    let second = encrypt_message("same", &key).unwrap();
    assert_ne!(first.nonce, second.nonce);
    assert_ne!(first.ciphertext, second.ciphertext);
}

#[test]
fn encryption_checks_the_key() {
    assert!(matches!(encrypt_message("x", "???"), Err(CryptoError::InvalidKeyEncoding(_))));
    assert_eq!(encrypt_message("x", &b64(&[1; 16])), Err(CryptoError::InvalidKeyLength(16)));
    assert_eq!(encrypt_message("x", ""), Err(CryptoError::InvalidKeyLength(0)));
}

#[test]
fn decryption_checks_its_arguments_in_order() {
    let key = b64(&[42u8; 32]);
    let payload = seal_message("secret", &vec![42u8; 32], &vec![1u8; 12]).unwrap();
    assert!(matches!(
        decrypt_message("???", "???", "???"),
        Err(CryptoError::InvalidKeyEncoding(_))
    ));
    assert_eq!(
        decrypt_message("???", "???", &b64(&[1; 31])),
        Err(CryptoError::InvalidKeyLength(31))
    );
    assert!(matches!(
        decrypt_message("???", "???", &key),
        Err(CryptoError::InvalidCiphertextEncoding(_))
    ));
    assert!(matches!(
        decrypt_message(&payload.ciphertext, "???", &key),
        Err(CryptoError::InvalidNonceEncoding(_))
    ));
    assert_eq!(
        decrypt_message(&payload.ciphertext, &b64(&[1; 11]), &key),
        Err(CryptoError::InvalidNonceLength(11))
    );
    assert_eq!(
        decrypt_message(&payload.ciphertext, &payload.nonce, &key),
        Ok("secret".to_string())
    );
}

#[test]
fn a_forged_message_does_not_decrypt() {
    let key = b64(&[42u8; 32]);
    let payload = seal_message("secret", &vec![42u8; 32], &vec![1u8; 12]).unwrap();
    let mut forged = unb64(&payload.ciphertext);
    forged[0] ^= 1;
    assert!(matches!(
        decrypt_message(&b64(&forged), &payload.nonce, &key),
        Err(CryptoError::DecryptionFailed(_))
    ));
    assert!(matches!(
        decrypt_message(&payload.ciphertext, &b64(&[2; 12]), &key),
        Err(CryptoError::DecryptionFailed(_))
    ));
    assert!(matches!(
        decrypt_message(&payload.ciphertext, &payload.nonce, &b64(&[43u8; 32])),
        Err(CryptoError::DecryptionFailed(_))
    ));
    assert!(matches!(
        decrypt_message("", &payload.nonce, &key),
        Err(CryptoError::DecryptionFailed(_))
    ));
}

#[test]
fn a_plaintext_that_is_not_utf8_is_reported() {
    let key = vec![42u8; 32];
    let nonce = vec![1u8; 12];
    let cipher = chacha20poly1305::ChaCha20Poly1305::new(chacha20poly1305::Key::from_slice(&key));
    let sealed = cipher
        .encrypt(chacha20poly1305::Nonce::from_slice(&nonce), &[0xff, 0xfe, 0x00][..])
        .unwrap();
    assert!(matches!(
        decrypt_message(&b64(&sealed), &b64(&nonce), &b64(&key)),
        Err(CryptoError::InvalidUtf8(_))
    ));
}

#[test]
fn both_parties_derive_the_same_key() {
    let alice = derive_shared_secret(&b64(&hex(ALICE_SECRET)), &b64(&hex(BOB_PUBLIC))).unwrap();
    let bob = derive_shared_secret(&b64(&hex(BOB_SECRET)), &b64(&hex(ALICE_PUBLIC))).unwrap();
    assert_eq!(alice, bob);
    assert_eq!(unb64(&alice).len(), KEY_LEN);
}

#[test]
fn the_shared_key_is_the_expanded_diffie_hellman_secret() {
    let derived = derive_shared_secret(&b64(&hex(ALICE_SECRET)), &b64(&hex(BOB_PUBLIC))).unwrap();
    let mut expected = [0u8; 32];
    hkdf::Hkdf::<sha2::Sha256>::new(None, &hex(SHARED))
        .expand(b"zeusix-e2ee-v1", &mut expected)
        .unwrap();
    assert_eq!(derived, b64(&expected));
    assert_ne!(derived, b64(&hex(SHARED)));
}

#[test]
fn derivation_checks_its_arguments_in_order() {
    let good = b64(&[5u8; 32]);
    assert!(matches!(
        derive_shared_secret("???", "???"),
        Err(CryptoError::InvalidPrivateKeyEncoding(_))
    ));
    assert!(matches!(
        derive_shared_secret(&b64(&[5u8; 3]), "???"),
        Err(CryptoError::InvalidPublicKeyEncoding(_))
    ));
    assert_eq!(
        derive_shared_secret(&b64(&[5u8; 3]), &b64(&[5u8; 4])),
        Err(CryptoError::InvalidPrivateKeyLength(3))
    );
    assert_eq!(
        derive_shared_secret(&good, &b64(&[5u8; 4])),
        Err(CryptoError::InvalidPublicKeyLength(4))
    );
    assert!(derive_shared_secret(&good, &good).is_ok());
}

#[test]
fn a_derived_key_encrypts_between_the_parties() {
    let alice = derive_shared_secret(&b64(&hex(ALICE_SECRET)), &b64(&hex(BOB_PUBLIC))).unwrap();
    let bob = derive_shared_secret(&b64(&hex(BOB_SECRET)), &b64(&hex(ALICE_PUBLIC))).unwrap();
    let payload = encrypt_message("over the wire", &alice).unwrap();
    assert_eq!(
        decrypt_message(&payload.ciphertext, &payload.nonce, &bob),
        Ok("over the wire".to_string())
    );
}

#[test]
fn the_longest_plaintext_leaves_room_for_the_encoding() {
    assert_eq!(MAX_PLAINTEXT_LEN, usize::MAX / 4 * 3 - 16);
    assert!((MAX_PLAINTEXT_LEN + TAG_LEN + 2) / 3 <= usize::MAX / 4);
}

#[test]
fn crypto_errors_have_their_texts() {
    let detail = || "why".to_string();
    assert_eq!(CryptoError::InvalidKeyEncoding(detail()).message(), "Invalid base64 key: why");
    assert_eq!(CryptoError::InvalidKeyLength(31).message(), "Key must be 32 bytes, got 31");
    assert_eq!(CryptoError::InvalidNonceEncoding(detail()).message(), "Invalid base64 nonce: why");
    assert_eq!(CryptoError::InvalidNonceLength(0).message(), "Nonce must be 12 bytes, got 0");
    assert_eq!(
        CryptoError::InvalidCiphertextEncoding(detail()).message(),
        "Invalid base64 ciphertext: why"
    );
    assert_eq!(
        CryptoError::PlaintextTooLong(100).message(),
        "Message is too long to encrypt: 100 bytes"
    );
    assert_eq!(CryptoError::EncryptionFailed(detail()).message(), "Encryption failed: why");
    assert_eq!(CryptoError::DecryptionFailed(detail()).message(), "Decryption failed: why");
    assert_eq!(
        CryptoError::InvalidUtf8(detail()).message(),
        "Invalid UTF-8 in decrypted message: why"
    );
    assert_eq!(
        CryptoError::InvalidPrivateKeyEncoding(detail()).message(),
        "Invalid base64 private key: why"
    );
    assert_eq!(
        CryptoError::InvalidPublicKeyEncoding(detail()).message(),
        "Invalid base64 public key: why"
    );
    assert_eq!(
        CryptoError::InvalidPrivateKeyLength(33).message(),
        "Private key must be 32 bytes, got 33"
    );
    assert_eq!(
        CryptoError::InvalidPublicKeyLength(1).message(),
        "Public key must be 32 bytes, got 1"
    );
    assert_eq!(
        CryptoError::KeyDerivationFailed(detail()).message(),
        "HKDF expansion failed: why"
    );
}

#[test]
fn a_failed_decryption_carries_the_ciphers_words() {
    let key = b64(&[42u8; 32]);
    match decrypt_message("", &b64(&[1u8; 12]), &key) {
        Err(e @ CryptoError::DecryptionFailed(_)) => {
            assert_eq!(e.message(), format!("Decryption failed: {}", chacha20poly1305::Error));
        }
        other => panic!("unexpected: {:?}", other),
    }
    match decrypt_message("!", "", &key) {
        Err(e @ CryptoError::InvalidCiphertextEncoding(_)) => {
            let expected = base64::engine::general_purpose::STANDARD.decode("!").unwrap_err();
            assert_eq!(e.message(), format!("Invalid base64 ciphertext: {}", expected));
        }
        other => panic!("unexpected: {:?}", other),
    }
}
