//! Credential vault: AES-256-GCM authenticated encryption of secrets at rest,
//! with a fresh random nonce for every encryption.

use vstd::prelude::*;
use ring::aead::{Aad, LessSafeKey, Nonce, UnboundKey, AES_256_GCM};
use ring::error::Unspecified;
use ring::rand::{SecureRandom, SystemRandom};
use crate::errors::AppError;

verus! {

/// Length in bytes of an AES-256-GCM nonce.
pub const NONCE_LEN: usize = 12;

/// Length in bytes of an AES-256 key.
pub const KEY_LEN: usize = 32;

/// Length in bytes of the authentication tag appended to every ciphertext.
pub const TAG_LEN: usize = 16;

/// The longest plaintext, in bytes, that AES-GCM seals under one nonce: the
/// 32-bit block counter, less two blocks, times the 16-byte block.
pub const AES_GCM_MAX_INPUT_LEN: u64 = 68719476704;

#[verifier::external_type_specification]
#[verifier::external_body]
pub struct ExUnspecified(Unspecified);

#[verifier::external_type_specification]
#[verifier::external_body]
pub struct ExSystemRandom(SystemRandom);

#[verifier::external_type_specification]
#[verifier::external_body]
pub struct ExFromHexError(hex::FromHexError);

pub assume_specification[ SystemRandom::new ]() -> SystemRandom;

/// What AES-256-GCM sealing under `key` and `nonce`, bound to `aad`, makes of
/// `plaintext`: the ciphertext followed by the authentication tag.
pub uninterp spec fn aes_256_gcm_sealed(key: Seq<u8>, nonce: Seq<u8>, aad: Seq<u8>, plaintext: Seq<u8>) -> Seq<u8>;

/// What AES-256-GCM opening under `key` and `nonce`, bound to `aad`, makes of
/// `sealed`: the plaintext, or nothing where authentication fails.
pub uninterp spec fn aes_256_gcm_opened(key: Seq<u8>, nonce: Seq<u8>, aad: Seq<u8>, sealed: Seq<u8>) -> Option<Seq<u8>>;

/// The value of a hexadecimal digit, either case; -1 for any other character.
pub open spec fn hex_digit_value(c: char) -> int {
    if '0' <= c && c <= '9' {
        c as int - '0' as int
    } else if 'a' <= c && c <= 'f' {
        c as int - 'a' as int + 10
    } else if 'A' <= c && c <= 'F' {
        c as int - 'A' as int + 10
    } else {
        -1
    }
}

/// An even number of hexadecimal digits.
pub open spec fn is_hex_text(s: Seq<char>) -> bool {
    &&& s.len() % 2 == 0
    &&& forall|i: int| 0 <= i < s.len() ==> hex_digit_value(#[trigger] s[i]) >= 0
}

/// The bytes that a hexadecimal text stands for, two digits per byte, high digit first.
pub open spec fn hex_bytes(s: Seq<char>) -> Seq<u8> {
    Seq::new(
        (s.len() / 2) as nat,
        |i: int| (hex_digit_value(s[2 * i]) * 16 + hex_digit_value(s[2 * i + 1])) as u8,
    )
}

/// Relies on `hex::decode`: it accepts exactly an even number of hex digits of
/// either case, and gives one byte per pair of digits, high digit first.
#[verifier::external_body]
fn decode_hex(s: &str) -> (r: Result<Vec<u8>, hex::FromHexError>)
    ensures
        r is Ok <==> is_hex_text(s@),
        r is Ok ==> r->Ok_0@ == hex_bytes(s@),
{
    hex::decode(s)
}

/// Relies on ring's `SecureRandom::fill` for `SystemRandom`: it fills `dest`
/// from the operating system's secure random source, or fails.
#[verifier::external_body]
fn fill_random(rand: &SystemRandom, dest: &mut [u8; NONCE_LEN]) -> (r: Result<(), Unspecified>) {
    rand.fill(dest)
}

/// Relies on ring's `LessSafeKey::seal_in_place_append_tag` for `AES_256_GCM`:
/// it encrypts `data` under `key` and `nonce`, bound to `aad`, and appends the
/// tag. The bytes are only wrapped for the call: the key by `UnboundKey::new`
/// (which takes exactly 32 bytes), the nonce by `Nonce::try_assume_unique_for_key`
/// (exactly 12), the associated data by `Aad::from`. With those lengths it
/// fails only where the data is longer than AES-GCM allows or the length of
/// the associated data in bits does not fit in a `usize`.
#[verifier::external_body]
fn seal(key: &[u8], nonce: &[u8], aad: &[u8], data: Vec<u8>) -> (r: Result<Vec<u8>, Unspecified>)
    requires
        key@.len() == KEY_LEN,
        nonce@.len() == NONCE_LEN,
    ensures
        data@.len() <= AES_GCM_MAX_INPUT_LEN && aad@.len() <= usize::MAX / 8 ==> r is Ok,
        r is Ok ==> r->Ok_0@ == aes_256_gcm_sealed(key@, nonce@, aad@, data@),
        r is Ok ==> r->Ok_0@.len() == data@.len() + TAG_LEN,
{
    let key = LessSafeKey::new(UnboundKey::new(&AES_256_GCM, key)?);
    let mut data = data;
    key.seal_in_place_append_tag(Nonce::try_assume_unique_for_key(nonce)?, Aad::from(aad), &mut data)?;
    Ok(data)
}

/// Relies on ring's `LessSafeKey::open_in_place` for `AES_256_GCM`: it checks
/// the tag at the end of `data` under `key` and `nonce`, bound to `aad`, and
/// gives the plaintext only where the check passes; what sealing made of a
/// plaintext under the same key, nonce and associated data opens to it. The
/// bytes are wrapped for the call as in `seal`.
#[verifier::external_body]
fn open(key: &[u8], nonce: &[u8], aad: &[u8], data: Vec<u8>) -> (r: Result<Vec<u8>, Unspecified>)
    requires
        key@.len() == KEY_LEN,
        nonce@.len() == NONCE_LEN,
    ensures
        r is Ok <==> aes_256_gcm_opened(key@, nonce@, aad@, data@) is Some,
        r is Ok ==> r->Ok_0@ == aes_256_gcm_opened(key@, nonce@, aad@, data@)->Some_0,
        forall|p: Seq<u8>|
            data@ == #[trigger] aes_256_gcm_sealed(key@, nonce@, aad@, p) ==> (r is Ok && r->Ok_0@ == p),
{
    let key = LessSafeKey::new(UnboundKey::new(&AES_256_GCM, key)?);
    let mut data = data;
    let plain = key.open_in_place(Nonce::try_assume_unique_for_key(nonce)?, Aad::from(aad), &mut data)?;
    Ok(plain.to_vec())
}

/// Message of the error for a nonce of the wrong length.
pub open spec fn nonce_length_message() -> Seq<char> {
    "Wrong nonce length during decryption process."@
}

/// Message of the error for a failed encryption or authentication.
pub open spec fn crypto_failure_message() -> Seq<char> {
    "Authenticated encryption operation failed."@
}

/// Message of the error for a key that is not 32 bytes.
pub open spec fn key_length_message() -> Seq<char> {
    "The key must be 32 bytes long."@
}

/// Message of the error for a key that is not hexadecimal text.
pub open spec fn key_hex_message() -> Seq<char> {
    "The key must be given as hexadecimal text."@
}

fn crypto_failure() -> (e: AppError)
    ensures
        e matches AppError::CryptoError(m) && m@ == crypto_failure_message(),
{
    AppError::CryptoError(String::from_str("Authenticated encryption operation failed."))
}

/// The result of an encryption: the ciphertext with its tag, and the nonce that
/// must be kept beside it for decryption.
pub struct EncryptResponse {
    pub cypher: Vec<u8>,
    pub nonce: [u8; NONCE_LEN],
}

/// A source of nonces, each drawn from the system's secure random generator.
pub struct RandomNonceSequence {
    nonce: [u8; NONCE_LEN],
    rand: SystemRandom,
}

impl RandomNonceSequence {
    /// The nonce that the sequence hands out next.
    pub closed spec fn current(&self) -> Seq<u8> {
        self.nonce@
    }

    /// A sequence whose first nonce is freshly drawn.
    pub fn new() -> (r: Result<Self, Unspecified>) {
        let rand = SystemRandom::new();
        let mut nonce_sequence = RandomNonceSequence { nonce: [0u8; NONCE_LEN], rand };
        let nonce = nonce_sequence.generate_nonce()?;
        nonce_sequence.nonce = nonce;
        Ok(nonce_sequence)
    }

    /// Draws a fresh nonce from the secure random source.
    pub fn generate_nonce(&self) -> (r: Result<[u8; NONCE_LEN], Unspecified>) {
        let mut nonce_bytes = [0u8; NONCE_LEN];
        fill_random(&self.rand, &mut nonce_bytes)?;
        Ok(nonce_bytes)
    }

    /// A sequence that hands out the given nonce first.
    pub fn create(nonce: [u8; NONCE_LEN]) -> (r: Self)
        ensures
            r.current() == nonce@,
    {
        let rand = SystemRandom::new();
        RandomNonceSequence { nonce, rand }
    }

    pub fn get_nonce(&self) -> (r: [u8; NONCE_LEN])
        ensures
            r@ == self.current(),
    {
        self.nonce
    }
}

/// AES-256-GCM with one key, loaded once when the process starts.
pub struct Aes256Gcm {
    key: Vec<u8>,
}

impl Aes256Gcm {
    #[verifier::type_invariant]
    spec fn key_is_256_bits(&self) -> bool {
        self.key@.len() == KEY_LEN
    }

    /// The key's bytes.
    pub closed spec fn key(&self) -> Seq<u8> {
        self.key@
    }

    /// A vault for the key written as 64 hexadecimal digits.
    pub fn new(key_hex: &str) -> (r: Result<Self, AppError>)
        ensures
            !is_hex_text(key_hex@) ==> (r matches Err(AppError::HexParse(m)) && m@ == key_hex_message()),
            is_hex_text(key_hex@) && key_hex@.len() != 2 * KEY_LEN
                ==> (r matches Err(AppError::CryptoError(m)) && m@ == key_length_message()),
            is_hex_text(key_hex@) && key_hex@.len() == 2 * KEY_LEN
                ==> (r matches Ok(v) && v.key() == hex_bytes(key_hex@)),
    {
        match decode_hex(key_hex) {
            Err(_) => Err(AppError::HexParse(String::from_str("The key must be given as hexadecimal text."))),
            Ok(key) => {
                if key.len() != KEY_LEN {
                    Err(AppError::CryptoError(String::from_str("The key must be 32 bytes long.")))
                } else {
                    Ok(Aes256Gcm { key })
                }
            },
        }
    }

    /// What `encrypt` guarantees of its result `r` for `data` and `aad`: on
    /// success, the ciphertext is the seal of `data` under the key and the
    /// returned nonce; on failure, a crypto error that carries no secret.
    pub open spec fn encrypt_post(&self, data: Seq<u8>, aad: Seq<u8>, r: Result<EncryptResponse, AppError>) -> bool {
        match r {
            Ok(resp) => {
                &&& resp.cypher@ == aes_256_gcm_sealed(self.key(), resp.nonce@, aad, data)
                &&& resp.cypher@.len() == data.len() + TAG_LEN
            },
            Err(e) => e matches AppError::CryptoError(m) && m@ == crypto_failure_message(),
        }
    }

    /// What `decrypt` guarantees of its result `r` for `cypher`, `aad` and `nonce`.
    pub open spec fn decrypt_post(&self, cypher: Seq<u8>, aad: Seq<u8>, nonce: Seq<u8>, r: Result<Vec<u8>, AppError>) -> bool {
        if nonce.len() != NONCE_LEN {
            r matches Err(AppError::CryptoError(m)) && m@ == nonce_length_message()
        } else {
            &&& match aes_256_gcm_opened(self.key(), nonce, aad, cypher) {
                Some(p) => r matches Ok(q) && q@ == p,
                None => r matches Err(AppError::CryptoError(m)) && m@ == crypto_failure_message(),
            }
            &&& forall|p: Seq<u8>|
                cypher == #[trigger] aes_256_gcm_sealed(self.key(), nonce, aad, p)
                    ==> (r matches Ok(q) && q@ == p)
        }
    }

    /// Seals `data` bound to `aad` under `nonce`; it fails only on input
    /// longer than AES-GCM allows.
    pub fn seal_with_nonce(&self, data: Vec<u8>, aad: Vec<u8>, nonce: [u8; NONCE_LEN]) -> (r: Result<
        EncryptResponse,
        AppError,
    >)
        ensures
            self.encrypt_post(data@, aad@, r),
            r matches Ok(resp) ==> resp.nonce@ == nonce@,
            data@.len() <= AES_GCM_MAX_INPUT_LEN && aad@.len() <= usize::MAX / 8 ==> r is Ok,
    {
        proof { use_type_invariant(self); }
        match seal(self.key.as_slice(), nonce.as_slice(), aad.as_slice(), data) {
            Ok(cypher) => Ok(EncryptResponse { cypher, nonce }),
            Err(_) => Err(crypto_failure()),
        }
    }

    /// Encrypts `data` bound to `aad` under a freshly drawn nonce. Whether the
    /// draw succeeds is the operating system's affair; what follows it is
    /// `seal_with_nonce`.
    pub fn encrypt(&self, data: Vec<u8>, aad: Vec<u8>) -> (r: Result<EncryptResponse, AppError>)
        ensures
            self.encrypt_post(data@, aad@, r),
    {
        let nonce_sequence = match RandomNonceSequence::new() {
            Ok(s) => s,
            Err(_) => return Err(crypto_failure()),
        };
        self.seal_with_nonce(data, aad, nonce_sequence.get_nonce())
    }

    /// Checks and decrypts `cypher`, bound to `aad`, under `nonce`.
    pub fn decrypt(&self, cypher: Vec<u8>, aad: Vec<u8>, nonce: Vec<u8>) -> (r: Result<Vec<u8>, AppError>)
        ensures
            self.decrypt_post(cypher@, aad@, nonce@, r),
    {
        proof { use_type_invariant(self); }
        if nonce.len() != NONCE_LEN {
            return Err(AppError::CryptoError(String::from_str("Wrong nonce length during decryption process.")));
        }
        match open(self.key.as_slice(), nonce.as_slice(), aad.as_slice(), cypher) {
            Ok(plain) => Ok(plain),
            Err(_) => Err(crypto_failure()),
        }
    }
}

/// Decrypting what `encrypt` returned for a plaintext and associated data, with
/// the same associated data and the returned nonce, gives back the plaintext.
pub proof fn lemma_decrypt_inverts_encrypt(
    vault: Aes256Gcm,
    plaintext: Seq<u8>,
    aad: Seq<u8>,
    sealed: EncryptResponse,
    opened: Result<Vec<u8>, AppError>,
)
    requires
        vault.encrypt_post(plaintext, aad, Ok(sealed)),
        vault.decrypt_post(sealed.cypher@, aad, sealed.nonce@, opened),
    ensures
        opened matches Ok(q) && q@ == plaintext,
{
    assert(sealed.cypher@ == aes_256_gcm_sealed(vault.key(), sealed.nonce@, aad, plaintext));
}

} // verus!
