//! The keystore: an in-memory table of key material that can be used once
//! it has been initialised with a vault path and a password.

use crate::codec::{base64_decode, base64_decoding};
use sha2::Digest;
use vstd::hash_map::StringHashMap;
use vstd::prelude::*;
use vstd::string::{StringExecFns, StringSliceAdditionalSpecFns};
use vstd::utf8::encode_utf8;

verus! {

/// The shortest password that is accepted, in bytes.
pub const MIN_PASSWORD_LEN: usize = 8;

/// The state of the keystore.
pub struct KeystoreState {
    pub initialized: bool,
    pub vault_path: Option<String>,
    /// Base64 key material by key identifier.
    pub keys: StringHashMap<String>,
}

pub struct KeystoreView {
    pub initialized: bool,
    pub vault_path: Option<Seq<char>>,
    pub keys: Map<Seq<char>, Seq<char>>,
}

impl View for KeystoreState {
    type V = KeystoreView;

    open spec fn view(&self) -> KeystoreView {
        KeystoreView {
            initialized: self.initialized,
            vault_path: match self.vault_path {
                Some(path) => Some(path@),
                None => None,
            },
            keys: self.keys@.map_values(|data: String| data@),
        }
    }
}

/// What `init_keystore` reports.
#[derive(Clone, Debug, PartialEq, Eq)]
pub struct KeystoreInfo {
    pub initialized: bool,
    pub vault_path: String,
    pub key_count: usize,
}

/// What `store_key` reports.
#[derive(Clone, Debug, PartialEq, Eq)]
pub struct StoredKeyInfo {
    pub key_id: String,
    pub stored: bool,
}

/// Why a keystore operation failed.
#[derive(Clone, Debug, PartialEq, Eq)]
pub enum KeystoreError {
    /// The password has fewer than eight bytes.
    PasswordTooShort,
    /// The keystore has not been initialised.
    NotInitialized,
    /// The key material is not base64; the decoder's own words.
    InvalidKeyData(String),
    /// The key material decodes to no bytes.
    EmptyKeyData,
    /// No key is stored under this identifier.
    KeyNotFound(String),
}

/// The text that the boundary shows for an error.
pub open spec fn error_text(error: KeystoreError) -> Seq<char> {
    match error {
        KeystoreError::PasswordTooShort => "Password must be at least 8 characters"@,
        KeystoreError::NotInitialized => "Keystore not initialized. Call init_keystore first."@,
        KeystoreError::InvalidKeyData(detail) => "Invalid base64 key data: "@ + detail@,
        KeystoreError::EmptyKeyData => "Key data cannot be empty"@,
        KeystoreError::KeyNotFound(key_id) => "Key '"@ + key_id@ + "' not found in keystore"@,
    }
}

impl KeystoreError {
    /// The text that the boundary shows for this error.
    pub fn message(&self) -> (text: String)
        ensures
            text@ == error_text(*self),
    {
        match self {
            KeystoreError::PasswordTooShort => "Password must be at least 8 characters".to_owned(),
            KeystoreError::NotInitialized => {
                "Keystore not initialized. Call init_keystore first.".to_owned()
            },
            KeystoreError::InvalidKeyData(detail) => {
                let mut text = "Invalid base64 key data: ".to_owned();
                text.append(detail.as_str());
                text
            },
            KeystoreError::EmptyKeyData => "Key data cannot be empty".to_owned(),
            KeystoreError::KeyNotFound(key_id) => {
                let mut text = "Key '".to_owned();
                text.append(key_id.as_str());
                text.append("' not found in keystore");
                text
            },
        }
    }
}

/// The SHA-256 digest of a sequence of bytes.
pub uninterp spec fn sha256(bytes: Seq<u8>) -> Seq<u8>;

/// `Sha256::new`, `update` and `finalize`: the digest is a function of the
/// bytes and has 32 bytes.
#[verifier::external_body]
fn sha256_digest(bytes: &[u8]) -> (digest: Vec<u8>)
    ensures
        digest@ == sha256(bytes@),
        digest@.len() == 32,
{
    let mut hasher = sha2::Sha256::new();
    hasher.update(bytes);
    hasher.finalize().to_vec()
}

/// The key that the vault is encrypted under: the SHA-256 digest of the
/// password's bytes.
pub fn vault_key(password: &str) -> (key: Vec<u8>)
    ensures
        key@ == sha256(password.spec_bytes()),
        key@.len() == 32,
{
    sha256_digest(password.as_bytes())
}

/// Key material is accepted when it is base64 for at least one byte.
pub open spec fn acceptable_key_data(data: Seq<char>) -> bool {
    base64_decoding(data) matches Some(bytes) && bytes.len() > 0
}

/// The path of the vault, empty where there is none.
pub open spec fn path_or_empty(path: Option<Seq<char>>) -> Seq<char> {
    match path {
        Some(p) => p,
        None => Seq::empty(),
    }
}

/// The keystore after an initialisation with a password of `password_len`
/// bytes: a keystore that is initialised already, or a password that is too
/// short, changes nothing.
pub open spec fn after_init(before: KeystoreView, vault_path: Seq<char>, password_len: nat) -> KeystoreView {
    if before.initialized || password_len < MIN_PASSWORD_LEN {
        before
    } else {
        KeystoreView { initialized: true, vault_path: Some(vault_path), keys: before.keys }
    }
}

impl Default for KeystoreState {
    /// A keystore that is not initialised and holds no key.
    fn default() -> (store: Self)
        ensures
            store@ == (KeystoreView { initialized: false, vault_path: None, keys: Map::empty() }),
    {
        let store = KeystoreState {
            initialized: false,
            vault_path: None,
            keys: StringHashMap::new(),
        };
        assert(store@.keys =~= Map::empty());
        store
    }
}

/// Initialises the keystore for the vault at `vault_path`. A keystore that
/// is initialised already stays as it is and reports its own path and its
/// number of keys. Otherwise the password has to have at least eight bytes.
pub fn init_keystore(store: &mut KeystoreState, vault_path: String, password: String) -> (r: Result<
    KeystoreInfo,
    KeystoreError,
>)
    ensures
        final(store)@ == after_init(old(store)@, vault_path@, encode_utf8(password@).len()),
        old(store)@.initialized ==> (r matches Ok(info) && info.initialized && info.vault_path@
            == path_or_empty(old(store)@.vault_path) && info.key_count == old(store)@.keys.len()),
        !old(store)@.initialized && encode_utf8(password@).len() < MIN_PASSWORD_LEN ==> r == Err::<
            KeystoreInfo,
            KeystoreError,
        >(KeystoreError::PasswordTooShort),
        !old(store)@.initialized && encode_utf8(password@).len() >= MIN_PASSWORD_LEN ==> (r matches Ok(
            info,
        ) && info.initialized && info.vault_path@ == vault_path@ && info.key_count == 0),
{
    if store.initialized {
        let path = match &store.vault_path {
            Some(path) => path.clone(),
            None => String::new(),
        };
        proof {
            broadcast use vstd::hash_map::group_hash_map_axioms;

            assert(store@.keys.dom() =~= store.keys@.dom());
        }
        return Ok(KeystoreInfo { initialized: true, vault_path: path, key_count: store.keys.len() });
    }
    if password.as_str().as_bytes().len() < MIN_PASSWORD_LEN {
        return Err(KeystoreError::PasswordTooShort);
    }
    store.initialized = true;
    store.vault_path = Some(vault_path.clone());
    Ok(KeystoreInfo { initialized: true, vault_path, key_count: 0 })
}

/// Stores key material under `key_id`, replacing what was stored there. The
/// keystore has to be initialised and the material base64 for at least one
/// byte.
pub fn store_key(store: &mut KeystoreState, key_id: String, key_data_b64: String) -> (r: Result<
    StoredKeyInfo,
    KeystoreError,
>)
    ensures
        r is Ok <==> old(store)@.initialized && acceptable_key_data(key_data_b64@),
        r matches Ok(info) ==> info.key_id@ == key_id@ && info.stored && final(store)@ == (
        KeystoreView { keys: old(store)@.keys.insert(key_id@, key_data_b64@), ..old(store)@ }),
        r is Err ==> final(store)@ == old(store)@,
        r matches Err(e) ==> match e {
            KeystoreError::NotInitialized => !old(store)@.initialized,
            KeystoreError::InvalidKeyData(_) => old(store)@.initialized && base64_decoding(
                key_data_b64@,
            ) is None,
            KeystoreError::EmptyKeyData => old(store)@.initialized && base64_decoding(
                key_data_b64@,
            ) == Some(Seq::<u8>::empty()),
            _ => false,
        },
{
    if !store.initialized {
        return Err(KeystoreError::NotInitialized);
    }
    match base64_decode(key_data_b64.as_str()) {
        Err(e) => Err(KeystoreError::InvalidKeyData(e.to_string())),
        Ok(decoded) => {
            if decoded.len() == 0 {
                assert(decoded@ =~= Seq::<u8>::empty());
                return Err(KeystoreError::EmptyKeyData);
            }
            let ghost before = store.keys@;
            store.keys.insert(key_id.clone(), key_data_b64);
            assert(store.keys@.map_values(|data: String| data@) =~= before.map_values(
                |data: String| data@,
            ).insert(key_id@, key_data_b64@));
            Ok(StoredKeyInfo { key_id, stored: true })
        },
    }
}

/// The key material stored under `key_id`.
pub fn get_key(store: &KeystoreState, key_id: String) -> (r: Result<String, KeystoreError>)
    ensures
        r is Ok <==> store@.initialized && store@.keys.contains_key(key_id@),
        r matches Ok(data) ==> data@ == store@.keys[key_id@],
        r matches Err(e) ==> match e {
            KeystoreError::NotInitialized => !store@.initialized,
            KeystoreError::KeyNotFound(missing) => store@.initialized && missing@ == key_id@,
            _ => false,
        },
{
    if !store.initialized {
        return Err(KeystoreError::NotInitialized);
    }
    match store.keys.get(key_id.as_str()) {
        Some(data) => Ok(data.clone()),
        None => Err(KeystoreError::KeyNotFound(key_id)),
    }
}

/// Key material that was stored is found again under its identifier, as it
/// was given.
pub proof fn law_stored_key_is_found(
    before: KeystoreView,
    key_id: Seq<char>,
    key_data: Seq<char>,
)
    ensures
        ({
            let after = KeystoreView { keys: before.keys.insert(key_id, key_data), ..before };
            after.keys.contains_key(key_id) && after.keys[key_id] == key_data
        }),
{
}

} // verus!
