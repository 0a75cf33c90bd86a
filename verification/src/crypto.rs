//! Password hashing, key derivation and the envelope cipher.
//!
//! The verifier that authenticates the master password and the key that
//! encrypts the records come from two separate computations: the verifier is
//! an Argon2id password hash under a fixed cost profile, the key is a raw
//! Argon2id output over the stored salt. Records are sealed with
//! XChaCha20-Poly1305 under that key and a random 24-byte nonce.
use crate::codec::{deserialize, deserialized, serialize, serialized};
use crate::error::VaultError;
use crate::models::{DataType, RecordView};
use crate::phc::{
    argon2_verify, optional_params, parallelism_taken, parse_verifier, phc_params, phc_verdict,
    takes_parallelism, written_under, PhcParam, PhcParamView, MAX_P_COST,
};
use argon2::password_hash::{Salt, SaltString};
use argon2::{Algorithm, Argon2, Params, PasswordHasher, Version};
use chacha20poly1305::aead::AeadMut;
use chacha20poly1305::{Key, KeyInit, XChaCha20Poly1305, XNonce};
use rand_core::{OsRng, TryRngCore};
use vstd::prelude::*;
use vstd::utf8::{decode_utf8, encode_utf8, valid_utf8};

verus! {

/// Memory cost of the password hash, in KiB.
pub const M_COST: u32 = 65536;

/// Number of passes of the password hash.
pub const T_COST: u32 = 10;

/// Degree of parallelism of the password hash.
pub const P_COST: u32 = 3;

/// Length of the password hash's digest, in bytes.
pub const HASH_LEN: usize = 64;

/// Length of the random salt, in bytes.
pub const SALT_LEN: usize = 32;

/// Length of the authentication tag that ends every ciphertext, in bytes.
pub const TAG_LEN: usize = 16;

/// The longest plaintext that the cipher takes, in bytes: 2^32 - 2 blocks of
/// 64 bytes, which is what is left of the key stream after the block that
/// keys the tag.
pub const MAX_PLAINTEXT_LEN: u64 = 0x3F_FFFF_FF80;

/// The longest password or salt that Argon2 takes, in bytes.
pub const ARGON2_MAX_INPUT: usize = 0xFFFF_FFFF;

/// The shortest salt that Argon2 takes, in bytes.
pub const ARGON2_MIN_SALT: usize = 8;

/// The unpadded Base64 text that `SaltString::encode_b64` gives for raw salt
/// bytes; `None` where it refuses them.
pub uninterp spec fn salt_text(raw: Seq<u8>) -> Option<Seq<char>>;

/// The PHC string of the Argon2id (version 0x13) hash of `password` under the
/// given costs, digest length and Base64 salt; `None` where the hash is refused.
pub uninterp spec fn argon2id_phc(
    m_cost: u32,
    t_cost: u32,
    p_cost: u32,
    output_len: usize,
    password: Seq<u8>,
    salt: Seq<char>,
) -> Option<Seq<char>>;

/// The 32 bytes that Argon2id with its default parameters derives from a
/// password and a salt.
pub uninterp spec fn argon2id_key(password: Seq<u8>, salt: Seq<u8>) -> Seq<u8>;

/// The XChaCha20-Poly1305 ciphertext, tag included, of a plaintext under a
/// key and a nonce, with no associated data.
pub uninterp spec fn aead_sealed(key: Seq<u8>, nonce: Seq<u8>, plaintext: Seq<u8>) -> Seq<u8>;

/// The plaintext that XChaCha20-Poly1305 opens a ciphertext to under a key and
/// a nonce; `None` where the ciphertext does not authenticate.
pub uninterp spec fn aead_opened(key: Seq<u8>, nonce: Seq<u8>, ciphertext: Seq<u8>) -> Option<
    Seq<u8>,
>;

/// Calls `OsRng.try_fill_bytes` on a buffer of `N` bytes. `None` where the
/// operating system's random source fails. Nothing is claimed of the bytes.
#[verifier::external_body]
fn os_random<const N: usize>() -> (r: Option<[u8; N]>) {
    let mut total = [0u8; N];
    match OsRng.try_fill_bytes(&mut total) {
        Ok(()) => Some(total),
        Err(_) => None,
    }
}

/// Calls `SaltString::encode_b64`.
///
/// Trusted: the result is the named text `salt_text`, and up to 48 bytes are
/// never refused (their Base64 fits the 64 characters of a salt string).
#[verifier::external_body]
fn encode_salt(raw: &[u8]) -> (r: Option<String>)
    ensures
        match r {
            Some(s) => salt_text(raw@) == Some(s@),
            None => salt_text(raw@) is None,
        },
        raw@.len() <= 48 ==> r is Some,
{
    SaltString::encode_b64(raw).ok().map(|s| s.as_str().to_string())
}

/// The inputs on which a password hash is owed: costs and digest length that
/// Argon2 and the PHC format take, a password of at most 2^32 - 1 bytes, and
/// a salt that is the Base64 text of 8 to 48 raw bytes.
pub open spec fn hash_is_owed(
    m_cost: u32,
    t_cost: u32,
    p_cost: u32,
    output_len: usize,
    password: Seq<u8>,
    salt: Seq<char>,
) -> bool {
    &&& 1 <= p_cost <= MAX_P_COST
    &&& 8 * p_cost <= m_cost
    &&& 1 <= t_cost
    &&& 10 <= output_len <= 64
    &&& password.len() <= ARGON2_MAX_INPUT
    &&& exists|raw: Seq<u8>|
        ARGON2_MIN_SALT <= raw.len() <= 48 && #[trigger] salt_text(raw) == Some(salt)
}

/// Calls `Argon2::hash_password` for Argon2id, version 0x13, with parameters
/// from `Params::new`, and writes the hash as a PHC string.
///
/// The degree of parallelism must be one that Argon2 takes: `Params::new`
/// multiplies it by 8 before it tests it.
///
/// Trusted: the result is the named text `argon2id_phc`; the hash is not
/// refused on the inputs of `hash_is_owed`; and the string that comes back
/// names the degree of parallelism it was written under and verifies with
/// its password.
#[verifier::external_body]
fn argon2id_hash(
    m_cost: u32,
    t_cost: u32,
    p_cost: u32,
    output_len: usize,
    password: &[u8],
    salt: &str,
) -> (r: Option<String>)
    requires
        p_cost <= MAX_P_COST,
    ensures
        hash_is_owed(m_cost, t_cost, p_cost, output_len, password@, salt@) ==> r is Some,
        match r {
            Some(h) => argon2id_phc(m_cost, t_cost, p_cost, output_len, password@, salt@) == Some(
                h@,
            ) && written_under(phc_params(h@), p_cost) && phc_verdict(h@, password@),
            None => argon2id_phc(m_cost, t_cost, p_cost, output_len, password@, salt@) is None,
        },
{
    let params = Params::new(m_cost, t_cost, p_cost, Some(output_len)).ok()?;
    let salt = Salt::from_b64(salt).ok()?;
    let hasher = Argon2::new(Algorithm::Argon2id, Version::V0x13, params);
    hasher.hash_password(password, salt).ok().map(|h| h.to_string())
}

/// Calls `Argon2::hash_password_into` with the default parameters and a
/// 32-byte output.
///
/// Trusted: it succeeds exactly when the password is at most 2^32 - 1 bytes
/// and the salt between 8 and 2^32 - 1 bytes, and the output is the named
/// value `argon2id_key`.
#[verifier::external_body]
fn argon2_derive(password: &[u8], salt: &[u8]) -> (r: Option<[u8; 32]>)
    ensures
        match r {
            Some(k) => argon2_takes(password@, salt@) && k@ == argon2id_key(password@, salt@),
            None => !argon2_takes(password@, salt@),
        },
{
    let mut out = [0u8; 32];
    Argon2::default().hash_password_into(password, salt, &mut out).ok().map(|_| out)
}

/// Calls `XChaCha20Poly1305::encrypt` with no associated data.
///
/// The plaintext must be one that the cipher takes: past that length the
/// key stream ends, and the stream cipher does not return.
///
/// Trusted: within that length the call succeeds; the result is the named
/// value `aead_sealed`, 16 bytes longer than the plaintext; and it opens,
/// under the same key and nonce, to the plaintext.
#[verifier::external_body]
fn aead_seal(key: &[u8; 32], nonce: &[u8; 24], plaintext: &[u8]) -> (r: Option<Vec<u8>>)
    requires
        aead_takes(plaintext@),
    ensures
        match r {
            Some(c) => c@ == aead_sealed(key@, nonce@, plaintext@) && c@.len() == plaintext@.len()
                + TAG_LEN && aead_opened(key@, nonce@, c@) == Some(plaintext@),
            None => false,
        },
{
    let mut cipher = XChaCha20Poly1305::new(Key::from_slice(key));
    cipher.encrypt(XNonce::from_slice(nonce), plaintext).ok()
}

/// Calls `XChaCha20Poly1305::decrypt` with no associated data.
///
/// The ciphertext must be no longer than the longest plaintext and its tag:
/// past that length the key stream ends, and the stream cipher does not
/// return where the tag verifies.
///
/// Trusted: the result is the named value `aead_opened`, 16 bytes shorter
/// than the ciphertext; a ciphertext shorter than the tag never opens.
#[verifier::external_body]
fn aead_open(key: &[u8; 32], nonce: &[u8; 24], ciphertext: &[u8]) -> (r: Option<Vec<u8>>)
    requires
        aead_reads(ciphertext@),
    ensures
        match r {
            Some(p) => aead_opened(key@, nonce@, ciphertext@) == Some(p@) && p@.len() + TAG_LEN
                == ciphertext@.len(),
            None => aead_opened(key@, nonce@, ciphertext@) is None,
        },
        ciphertext@.len() < TAG_LEN ==> r is None,
{
    let mut cipher = XChaCha20Poly1305::new(Key::from_slice(key));
    cipher.decrypt(XNonce::from_slice(nonce), ciphertext).ok()
}

/// Calls `String::from_utf8`.
///
/// Trusted: bytes that are valid UTF-8 give the text they encode, and any
/// other bytes give `None`.
#[verifier::external_body]
fn text_from_utf8(bytes: Vec<u8>) -> (r: Option<String>)
    ensures
        match r {
            Some(s) => valid_utf8(bytes@) && s@ == decode_utf8(bytes@),
            None => !valid_utf8(bytes@),
        },
{
    String::from_utf8(bytes).ok()
}

/// The passwords and salts that Argon2 takes: a password of at most 2^32 - 1
/// bytes, a salt of 8 to 2^32 - 1 bytes.
pub open spec fn argon2_takes(password: Seq<u8>, salt: Seq<u8>) -> bool {
    password.len() <= ARGON2_MAX_INPUT && ARGON2_MIN_SALT <= salt.len() && salt.len()
        <= ARGON2_MAX_INPUT
}

/// The plaintexts that the cipher takes: those of at most
/// `MAX_PLAINTEXT_LEN` bytes.
pub open spec fn aead_takes(plaintext: Seq<u8>) -> bool {
    plaintext.len() <= MAX_PLAINTEXT_LEN
}

/// The ciphertexts that the cipher reads: those no longer than the longest
/// plaintext and its tag.
pub open spec fn aead_reads(ciphertext: Seq<u8>) -> bool {
    ciphertext.len() <= MAX_PLAINTEXT_LEN + TAG_LEN
}

/// Verifier and salt for a password hashed over the raw salt `raw_salt`.
pub open spec fn verifier_for(password: Seq<char>, raw_salt: Seq<u8>) -> Result<
    (Seq<char>, Seq<char>),
    VaultError,
> {
    match salt_text(raw_salt) {
        None => Err(VaultError::HashingFailed),
        Some(salt) => match argon2id_phc(
            M_COST,
            T_COST,
            P_COST,
            HASH_LEN,
            encode_utf8(password),
            salt,
        ) {
            None => Err(VaultError::HashingFailed),
            Some(hash) => Ok((hash, salt)),
        },
    }
}

/// What the parameters of a verifier decide before Argon2 is asked:
/// `MalformedVerifier` where the verifier did not parse; that no password
/// verifies where it names a degree of parallelism that Argon2 does not
/// take; nothing otherwise.
pub open spec fn decided_by(params: Option<Seq<PhcParamView>>) -> Option<Result<bool, VaultError>> {
    match params {
        None => Some(Err(VaultError::MalformedVerifier)),
        Some(p) => if parallelism_taken(p) {
            None
        } else {
            Some(Ok(false))
        },
    }
}

/// What checking a password against a verifier gives: what its parameters
/// decide, and else the verdict of Argon2.
pub open spec fn checked(hash: Seq<char>, password: Seq<char>) -> Result<bool, VaultError> {
    match decided_by(phc_params(hash)) {
        Some(decision) => decision,
        None => Ok(phc_verdict(hash, encode_utf8(password))),
    }
}

/// The key derived from a stored salt and a password.
pub open spec fn derived_key(salt: Seq<char>, password: Seq<char>) -> Result<Seq<u8>, VaultError> {
    let p = encode_utf8(password);
    let s = encode_utf8(salt);
    if argon2_takes(p, s) {
        Ok(argon2id_key(p, s))
    } else {
        Err(VaultError::KeyDerivationFailed)
    }
}

/// The ciphertext of a text under a key and a nonce.
pub open spec fn sealed_text(text: Seq<char>, key: Seq<u8>, nonce: Seq<u8>) -> Result<
    Seq<u8>,
    VaultError,
> {
    if aead_takes(encode_utf8(text)) {
        Ok(aead_sealed(key, nonce, encode_utf8(text)))
    } else {
        Err(VaultError::EncryptionFailed)
    }
}

/// The text that the cipher's answer stands for: `DecryptionFailed` where the
/// ciphertext did not authenticate, `CorruptRecord` where it did and the
/// plaintext is no UTF-8.
pub open spec fn plain_text(opened: Option<Seq<u8>>) -> Result<Seq<char>, VaultError> {
    match opened {
        None => Err(VaultError::DecryptionFailed),
        Some(bytes) => if valid_utf8(bytes) {
            Ok(decode_utf8(bytes))
        } else {
            Err(VaultError::CorruptRecord)
        },
    }
}

/// The text that a ciphertext opens to. A ciphertext longer than any that
/// the cipher writes is `DecryptionFailed`, and the cipher is not asked.
pub open spec fn opened_text(ciphertext: Seq<u8>, nonce: Seq<u8>, key: Seq<u8>) -> Result<
    Seq<char>,
    VaultError,
> {
    if aead_reads(ciphertext) {
        plain_text(aead_opened(key, nonce, ciphertext))
    } else {
        Err(VaultError::DecryptionFailed)
    }
}

/// The bytes of an answer of the cipher, by their view.
pub open spec fn bytes_view(opened: Option<Vec<u8>>) -> Option<Seq<u8>> {
    match opened {
        Some(bytes) => Some(bytes@),
        None => None,
    }
}

/// True for a text short enough for the cipher.
pub open spec fn text_fits(text: Seq<char>) -> bool {
    aead_takes(encode_utf8(text))
}

/// True for a record whose written form is short enough for the cipher.
pub open spec fn record_fits(record: RecordView) -> bool {
    text_fits(serialized(record))
}

/// The ciphertext of a record under a key and a nonce.
pub open spec fn sealed_record(record: RecordView, key: Seq<u8>, nonce: Seq<u8>) -> Result<
    Seq<u8>,
    VaultError,
> {
    sealed_text(serialized(record), key, nonce)
}

/// The record that a ciphertext opens to.
pub open spec fn opened_record(ciphertext: Seq<u8>, nonce: Seq<u8>, key: Seq<u8>) -> Result<
    RecordView,
    VaultError,
> {
    match opened_text(ciphertext, nonce, key) {
        Err(e) => Err(e),
        Ok(text) => deserialized(text),
    }
}

/// Hashes a password over a given raw salt into a verifier, and returns the
/// verifier with the salt in its Base64 form. The verifier names algorithm,
/// parameters, salt and digest, and verifies with the same password.
pub fn encode_with_salt(password: &str, raw_salt: &[u8; 32]) -> (r: Result<
    (String, String),
    VaultError,
>)
    ensures
        match r {
            Ok((hash, salt)) => verifier_for(password@, raw_salt@) == Ok::<
                (Seq<char>, Seq<char>),
                VaultError,
            >((hash@, salt@)) && checked(hash@, password@) == Ok::<bool, VaultError>(true),
            Err(e) => verifier_for(password@, raw_salt@) == Err::<
                (Seq<char>, Seq<char>),
                VaultError,
            >(e),
        },
        encode_utf8(password@).len() <= ARGON2_MAX_INPUT ==> r is Ok,
{
    let salt = match encode_salt(raw_salt.as_slice()) {
        Some(s) => s,
        None => { return Err(VaultError::HashingFailed); },
    };
    match argon2id_hash(M_COST, T_COST, P_COST, HASH_LEN, password.as_bytes(), salt.as_str()) {
        Some(hash) => Ok((hash, salt)),
        None => Err(VaultError::HashingFailed),
    }
}

/// Hashes a password over the salt that the random source gave. Where it
/// gave none the failure is `RngFailure`: nothing is hashed, no salt of
/// zeros or any other made-up salt stands in, and the draw is not repeated.
pub fn encode_drawn(password: &str, drawn: Option<[u8; 32]>) -> (r: Result<
    (String, String),
    VaultError,
>)
    ensures
        match (drawn, r) {
            (None, Err(e)) => e == VaultError::RngFailure,
            (None, Ok(_)) => false,
            (Some(raw), Ok((hash, salt))) => verifier_for(password@, raw@) == Ok::<
                (Seq<char>, Seq<char>),
                VaultError,
            >((hash@, salt@)) && checked(hash@, password@) == Ok::<bool, VaultError>(true),
            (Some(raw), Err(e)) => verifier_for(password@, raw@) == Err::<
                (Seq<char>, Seq<char>),
                VaultError,
            >(e),
        },
        drawn is Some && encode_utf8(password@).len() <= ARGON2_MAX_INPUT ==> r is Ok,
{
    match drawn {
        None => Err(VaultError::RngFailure),
        Some(raw_salt) => encode_with_salt(password, &raw_salt),
    }
}

/// Hashes a password over a fresh random salt of 32 bytes. A failure of the
/// random source is `RngFailure` and is not retried.
pub fn encode(password: String) -> (r: Result<(String, String), VaultError>)
    ensures
        match r {
            Ok((hash, salt)) => checked(hash@, password@) == Ok::<bool, VaultError>(true)
                && exists|raw: Seq<u8>|
                raw.len() == SALT_LEN && #[trigger] verifier_for(password@, raw) == Ok::<
                    (Seq<char>, Seq<char>),
                    VaultError,
                >((hash@, salt@)),
            Err(e) => e == VaultError::RngFailure || (e == VaultError::HashingFailed
                && encode_utf8(password@).len() > ARGON2_MAX_INPUT),
        },
{
    let drawn = os_random::<32>();
    encode_drawn(password.as_str(), drawn)
}

/// Decides what can be decided from the parameters of a verifier as they
/// were parsed. A verifier that did not parse is `MalformedVerifier`, which
/// is kept apart from a password that does not verify. One that names a
/// degree of parallelism that Argon2 does not take verifies no password.
/// `None` leaves the verdict to Argon2.
pub fn check_parsed(parsed: &Option<Vec<PhcParam>>) -> (r: Option<Result<bool, VaultError>>)
    ensures
        r == decided_by(optional_params(*parsed)),
{
    match parsed {
        None => Some(Err(VaultError::MalformedVerifier)),
        Some(params) => if takes_parallelism(params) {
            None
        } else {
            Some(Ok(false))
        },
    }
}

/// Checks a password against a stored verifier. A verifier that does not
/// parse is `MalformedVerifier`; one that parses gives `true` exactly when the
/// password verifies.
pub fn check_password(hash: &String, pass: &String) -> (r: Result<bool, VaultError>)
    ensures
        r == checked(hash@, pass@),
{
    let parsed = parse_verifier(hash.as_str());
    match check_parsed(&parsed) {
        Some(decision) => decision,
        None => Ok(argon2_verify(hash.as_str(), pass.as_str().as_bytes())),
    }
}

/// Draws a fresh nonce from the operating system's random source.
pub fn create_nonce() -> (r: Result<[u8; 24], VaultError>)
    ensures
        r matches Err(e) ==> e == VaultError::NonceGenerationFailed,
{
    // The random source decides whether there is a nonce and which;
    // nothing is known here of the bytes it gives.
    let drawn = os_random::<24>();
    read_nonce(drawn)
}

/// What the random source's answer means for a nonce: the bytes as they
/// came, or `NonceGenerationFailed` where none came.
pub open spec fn nonce_result(drawn: Option<[u8; 24]>) -> Result<[u8; 24], VaultError> {
    match drawn {
        Some(nonce) => Ok(nonce),
        None => Err(VaultError::NonceGenerationFailed),
    }
}

/// Reads the random source's answer as a nonce. The bytes are taken as they
/// came; where none came the failure is `NonceGenerationFailed`, and no
/// nonce of zeros or any other made-up nonce stands in for them.
pub fn read_nonce(drawn: Option<[u8; 24]>) -> (r: Result<[u8; 24], VaultError>)
    ensures
        r == nonce_result(drawn),
{
    match drawn {
        Some(nonce) => Ok(nonce),
        None => Err(VaultError::NonceGenerationFailed),
    }
}

/// Derives the 32-byte key from the stored salt and the password. The same
/// salt and password always give the same key; no default key is ever
/// returned in place of a failure.
pub fn create_crypto_key(salt: &str, password: &str) -> (r: Result<[u8; 32], VaultError>)
    ensures
        match r {
            Ok(key) => derived_key(salt@, password@) == Ok::<Seq<u8>, VaultError>(key@),
            Err(e) => derived_key(salt@, password@) == Err::<Seq<u8>, VaultError>(e),
        },
{
    match argon2_derive(password.as_bytes(), salt.as_bytes()) {
        Some(key) => Ok(key),
        None => Err(VaultError::KeyDerivationFailed),
    }
}

/// Encrypts a text under a key and a given nonce. The ciphertext opens, under
/// the same key and nonce, to the same text.
pub fn encrypt_str_with_nonce(string: &str, key: &[u8; 32], nonce: &[u8; 24]) -> (r: Result<
    Vec<u8>,
    VaultError,
>)
    ensures
        match r {
            Ok(c) => sealed_text(string@, key@, nonce@) == Ok::<Seq<u8>, VaultError>(c@)
                && opened_text(c@, nonce@, key@) == Ok::<Seq<char>, VaultError>(string@)
                && c@.len() == encode_utf8(string@).len() + TAG_LEN,
            Err(e) => sealed_text(string@, key@, nonce@) == Err::<Seq<u8>, VaultError>(e),
        },
{
    proof {
        vstd::utf8::encode_utf8_valid_utf8(string@);
        vstd::utf8::encode_utf8_decode_utf8(string@);
    }
    let plaintext = string.as_bytes();
    if plaintext.len() as u64 > MAX_PLAINTEXT_LEN {
        return Err(VaultError::EncryptionFailed);
    }
    match aead_seal(key, nonce, plaintext) {
        Some(c) => Ok(c),
        // Never taken: the cipher seals every plaintext that it takes.
        None => Err(VaultError::EncryptionFailed),
    }
}

/// Encrypts a text under a key and the nonce that was drawn, and returns the
/// ciphertext with that nonce. Where the draw failed its failure is handed
/// on: nothing is encrypted, and no nonce of zeros or any earlier nonce
/// stands in.
pub fn encrypt_str_drawn(string: &str, key: &[u8; 32], drawn: Result<[u8; 24], VaultError>) -> (r:
    Result<(Vec<u8>, [u8; 24]), VaultError>)
    ensures
        match (drawn, r) {
            (Err(d), Err(e)) => e == d,
            (Err(_), Ok(_)) => false,
            (Ok(n), Ok((c, nonce))) => nonce == n && sealed_text(string@, key@, n@) == Ok::<
                Seq<u8>,
                VaultError,
            >(c@) && opened_text(c@, n@, key@) == Ok::<Seq<char>, VaultError>(string@) && c@.len()
                == encode_utf8(string@).len() + TAG_LEN,
            (Ok(n), Err(e)) => sealed_text(string@, key@, n@) == Err::<Seq<u8>, VaultError>(e),
        },
{
    let nonce = match drawn {
        Ok(n) => n,
        Err(e) => { return Err(e); },
    };
    match encrypt_str_with_nonce(string, key, &nonce) {
        Ok(c) => Ok((c, nonce)),
        Err(e) => Err(e),
    }
}

/// Encrypts a text under a key and a fresh random nonce, and returns the
/// ciphertext with the nonce. Where no nonce can be drawn nothing is encrypted.
pub fn encrypt_str(string: &str, key: &[u8; 32]) -> (r: Result<(Vec<u8>, [u8; 24]), VaultError>)
    ensures
        match r {
            Ok((c, nonce)) => sealed_text(string@, key@, nonce@) == Ok::<Seq<u8>, VaultError>(c@)
                && opened_text(c@, nonce@, key@) == Ok::<Seq<char>, VaultError>(string@)
                && c@.len() == encode_utf8(string@).len() + TAG_LEN,
            Err(e) => e == VaultError::NonceGenerationFailed || (e == VaultError::EncryptionFailed
                && !text_fits(string@)),
        },
{
    encrypt_str_drawn(string, key, create_nonce())
}

/// Encrypts a record under a key and a given nonce: the record is written as
/// text, and the text is encrypted. The ciphertext opens, under the same key
/// and nonce, to the same record.
pub fn encrypt_data_with_nonce(data: &DataType, key: &[u8; 32], nonce: &[u8; 24]) -> (r: Result<
    Vec<u8>,
    VaultError,
>)
    ensures
        match r {
            Ok(c) => sealed_record(data@, key@, nonce@) == Ok::<Seq<u8>, VaultError>(c@)
                && opened_record(c@, nonce@, key@) == Ok::<RecordView, VaultError>(data@)
                && c@.len() == encode_utf8(serialized(data@)).len() + TAG_LEN,
            Err(e) => sealed_record(data@, key@, nonce@) == Err::<Seq<u8>, VaultError>(e),
        },
{
    let text = serialize(data);
    encrypt_str_with_nonce(text.as_str(), key, nonce)
}

/// Encrypts a record under a key and the nonce that was drawn, and returns
/// the ciphertext with that nonce. Where the draw failed its failure is
/// handed on: nothing is encrypted, and no nonce of zeros or any earlier
/// nonce stands in.
pub fn encrypt_data_drawn(data: &DataType, key: &[u8; 32], drawn: Result<[u8; 24], VaultError>) -> (r:
    Result<(Vec<u8>, [u8; 24]), VaultError>)
    ensures
        match (drawn, r) {
            (Err(d), Err(e)) => e == d,
            (Err(_), Ok(_)) => false,
            (Ok(n), Ok((c, nonce))) => nonce == n && sealed_record(data@, key@, n@) == Ok::<
                Seq<u8>,
                VaultError,
            >(c@) && opened_record(c@, n@, key@) == Ok::<RecordView, VaultError>(data@) && c@.len()
                == encode_utf8(serialized(data@)).len() + TAG_LEN,
            (Ok(n), Err(e)) => sealed_record(data@, key@, n@) == Err::<Seq<u8>, VaultError>(e),
        },
{
    let nonce = match drawn {
        Ok(n) => n,
        Err(e) => { return Err(e); },
    };
    match encrypt_data_with_nonce(data, key, &nonce) {
        Ok(c) => Ok((c, nonce)),
        Err(e) => Err(e),
    }
}

/// Encrypts a record under a key and a fresh random nonce, and returns the
/// ciphertext with the nonce.
pub fn encrypt_data(data: &DataType, key: &[u8; 32]) -> (r: Result<
    (Vec<u8>, [u8; 24]),
    VaultError,
>)
    ensures
        match r {
            Ok((c, nonce)) => sealed_record(data@, key@, nonce@) == Ok::<Seq<u8>, VaultError>(c@)
                && opened_record(c@, nonce@, key@) == Ok::<RecordView, VaultError>(data@)
                && c@.len() == encode_utf8(serialized(data@)).len() + TAG_LEN,
            Err(e) => e == VaultError::NonceGenerationFailed || (e == VaultError::EncryptionFailed
                && !record_fits(data@)),
        },
{
    encrypt_data_drawn(data, key, create_nonce())
}

/// Reads the cipher's answer as text: no answer is `DecryptionFailed`, bytes
/// that are no UTF-8 are `CorruptRecord`.
pub fn read_plaintext(opened: Option<Vec<u8>>) -> (r: Result<String, VaultError>)
    ensures
        match r {
            Ok(text) => plain_text(bytes_view(opened)) == Ok::<Seq<char>, VaultError>(text@),
            Err(e) => plain_text(bytes_view(opened)) == Err::<Seq<char>, VaultError>(e),
        },
{
    match opened {
        None => Err(VaultError::DecryptionFailed),
        Some(bytes) => match text_from_utf8(bytes) {
            Some(text) => Ok(text),
            None => Err(VaultError::CorruptRecord),
        },
    }
}

/// Decrypts a text. Fails closed: a ciphertext that does not authenticate
/// under this key and nonce gives `DecryptionFailed` and no part of a
/// plaintext.
pub fn decrypt_str(string: &Vec<u8>, nonce: &[u8; 24], key: &[u8; 32]) -> (r: Result<
    String,
    VaultError,
>)
    ensures
        match r {
            Ok(text) => opened_text(string@, nonce@, key@) == Ok::<Seq<char>, VaultError>(text@),
            Err(e) => opened_text(string@, nonce@, key@) == Err::<Seq<char>, VaultError>(e),
        },
        string@.len() < TAG_LEN ==> r == Err::<String, VaultError>(VaultError::DecryptionFailed),
{
    let ciphertext = string.as_slice();
    if ciphertext.len() as u64 > MAX_PLAINTEXT_LEN + TAG_LEN as u64 {
        return Err(VaultError::DecryptionFailed);
    }
    read_plaintext(aead_open(key, nonce, ciphertext))
}

/// Decrypts a record: `DecryptionFailed` where the ciphertext does not
/// authenticate, `CorruptRecord` where it does and what it holds is no record.
pub fn decrypt_data(data: &Vec<u8>, nonce: &[u8; 24], key: &[u8; 32]) -> (r: Result<
    DataType,
    VaultError,
>)
    ensures
        match r {
            Ok(record) => opened_record(data@, nonce@, key@) == Ok::<RecordView, VaultError>(
                record@,
            ),
            Err(e) => opened_record(data@, nonce@, key@) == Err::<RecordView, VaultError>(e),
        },
        data@.len() < TAG_LEN ==> (r matches Err(e) && e == VaultError::DecryptionFailed),
{
    match decrypt_str(data, nonce, key) {
        Err(e) => Err(e),
        Ok(text) => deserialize(text.as_str()),
    }
}

/// Deriving a key twice from the same salt and password gives the same key.
pub proof fn lemma_key_derivation_deterministic(
    salt_a: Seq<char>,
    password_a: Seq<char>,
    salt_b: Seq<char>,
    password_b: Seq<char>,
)
    requires
        salt_a == salt_b,
        password_a == password_b,
    ensures
        derived_key(salt_a, password_a) == derived_key(salt_b, password_b),
{
}

/// Opening never yields part of a plaintext: whatever the ciphertext, nonce
/// and key, the outcome is the whole text that the cipher authenticated, or
/// `DecryptionFailed`, or `CorruptRecord`.
pub proof fn lemma_decryption_fails_closed(ciphertext: Seq<u8>, nonce: Seq<u8>, key: Seq<u8>)
    ensures
        !aead_reads(ciphertext) || aead_opened(key, nonce, ciphertext) is None ==> opened_text(
            ciphertext,
            nonce,
            key,
        ) == Err::<
            Seq<char>,
            VaultError,
        >(VaultError::DecryptionFailed) && opened_record(ciphertext, nonce, key) == Err::<
            RecordView,
            VaultError,
        >(VaultError::DecryptionFailed),
        opened_text(ciphertext, nonce, key) matches Ok(text) ==> aead_reads(ciphertext)
            && aead_opened(key, nonce, ciphertext) == Some(encode_utf8(text)),
{
    if let Some(bytes) = aead_opened(key, nonce, ciphertext) {
        if valid_utf8(bytes) {
            vstd::utf8::decode_utf8_encode_utf8(bytes);
        }
    }
}

} // verus!
