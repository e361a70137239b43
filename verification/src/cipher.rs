//! AES-256-GCM encryption of the session blobs that leave the node.
//!
//! The client supplies the key with every turn. The node holds it for that turn only and
//! wipes it at the end.
//!
//! Wire format: a nonce of twelve bytes, then the ciphertext with its tag. Every blob is
//! sealed under a nonce of its own, drawn from the operating system.

use crate::bytes::KEY_LEN;
use aes_gcm::aead::{Aead, KeyInit};
use rand::RngCore;
use vstd::prelude::*;
use zeroize::Zeroize;

verus! {

pub const NONCE_LEN: usize = 12;

/// The length of the authentication tag behind a ciphertext.
pub const TAG_LEN: usize = 16;

/// The longest plaintext that AES-GCM takes.
pub const MAX_PLAINTEXT: u64 = 0x10_0000_0000;

#[derive(Debug, Clone, Copy, PartialEq, Eq, Structural)]
pub enum CipherError {
    /// The blob is too short to contain a nonce.
    TooShort,
    /// Wrong key, or a ciphertext that was tampered with.
    AuthFailed,
}

impl CipherError {
    /// What went wrong, in words.
    pub fn message(&self) -> (r: String)
        ensures
            r@ == cipher_error_text(*self),
    {
        match self {
            CipherError::TooShort => String::from_str("ciphertext too short to contain a nonce"),
            CipherError::AuthFailed => String::from_str(
                "AEAD authentication failed (wrong key or tampered ciphertext)",
            ),
        }
    }
}

pub open spec fn cipher_error_text(e: CipherError) -> Seq<char> {
    match e {
        CipherError::TooShort => "ciphertext too short to contain a nonce"@,
        CipherError::AuthFailed => "AEAD authentication failed (wrong key or tampered ciphertext)"@,
    }
}

/// The error of the `aes-gcm` crate, which says nothing of its cause.
#[verifier::external_type_specification]
#[verifier::external_body]
pub struct ExAeadError(aes_gcm::Error);

/// The ciphertext, with its tag, of a plaintext under a key and a nonce.
pub uninterp spec fn aes256_gcm_encrypt(
    key: Seq<u8>,
    nonce: Seq<u8>,
    plaintext: Seq<u8>,
) -> Seq<u8>;

/// The plaintext behind a ciphertext with its tag, where the tag is that of the ciphertext.
pub uninterp spec fn aes256_gcm_decrypt(
    key: Seq<u8>,
    nonce: Seq<u8>,
    ciphertext: Seq<u8>,
) -> Option<Seq<u8>>;

/// Calls `Aead::encrypt` of `aes_gcm::Aes256Gcm`.
///
/// The call fails on no plaintext within the length that AES-GCM takes. Its result depends on
/// key, nonce and plaintext alone, is longer than the plaintext by the tag, and decrypts to the
/// plaintext under the same key and nonce.
#[verifier::external_body]
fn encrypt(key: &[u8; 32], nonce: &[u8; 12], plaintext: &[u8]) -> (r: Result<
    Vec<u8>,
    aes_gcm::Error,
>)
    ensures
        r is Ok <==> plaintext@.len() <= MAX_PLAINTEXT,
        r matches Ok(c) ==> c@ == aes256_gcm_encrypt(key@, nonce@, plaintext@),
        r matches Ok(c) ==> c@.len() == plaintext@.len() + TAG_LEN,
        r matches Ok(c) ==> aes256_gcm_decrypt(key@, nonce@, c@) == Some(plaintext@),
{
    aes_gcm::Aes256Gcm::new(key.into()).encrypt(nonce.into(), plaintext)
}

/// Calls `Aead::decrypt` of `aes_gcm::Aes256Gcm`.
///
/// The result depends on key, nonce and ciphertext alone. A ciphertext that is too short for a
/// tag is refused, and a plaintext is shorter than its ciphertext by the tag.
#[verifier::external_body]
fn decrypt(key: &[u8; 32], nonce: &[u8], ciphertext: &[u8]) -> (r: Result<Vec<u8>, aes_gcm::Error>)
    requires
        nonce@.len() == NONCE_LEN,
    ensures
        r matches Ok(p) ==> aes256_gcm_decrypt(key@, nonce@, ciphertext@) == Some(p@),
        r is Err ==> aes256_gcm_decrypt(key@, nonce@, ciphertext@) is None,
        ciphertext@.len() < TAG_LEN ==> r is Err,
        r matches Ok(p) ==> ciphertext@.len() == p@.len() + TAG_LEN,
{
    aes_gcm::Aes256Gcm::new(key.into()).decrypt(aes_gcm::Nonce::from_slice(nonce), ciphertext)
}

/// Calls `RngCore::fill_bytes` of `rand::rngs::OsRng`, the generator of the operating system:
/// twelve bytes of chance.
#[verifier::external_body]
fn random_nonce() -> [u8; 12] {
    let mut nonce = [0u8; 12];
    rand::rngs::OsRng.fill_bytes(&mut nonce);
    nonce
}

/// Calls `Zeroize::zeroize` on a key, which overwrites each of its bytes with zero.
#[verifier::external_body]
fn zeroize_key(key: &mut [u8; 32])
    ensures
        final(key)@ == zeroed_key(),
{
    key.zeroize();
}

/// What is left of a key that was overwritten.
pub open spec fn zeroed_key() -> Seq<u8> {
    Seq::new(KEY_LEN as nat, |i: int| 0u8)
}

/// What is left of a key that may be absent, once it is wiped.
pub open spec fn wiped(key: Option<Seq<u8>>) -> Option<Seq<u8>> {
    match key {
        Some(_) => Some(zeroed_key()),
        None => None,
    }
}

/// The blob of a plaintext under a key and a nonce.
pub open spec fn sealed(key: Seq<u8>, nonce: Seq<u8>, plaintext: Seq<u8>) -> Seq<u8> {
    nonce + aes256_gcm_encrypt(key, nonce, plaintext)
}

/// What a blob opens to.
pub open spec fn opened(key: Seq<u8>, blob: Seq<u8>) -> Result<Seq<u8>, CipherError> {
    if blob.len() < NONCE_LEN {
        Err(CipherError::TooShort)
    } else {
        match aes256_gcm_decrypt(
            key,
            blob.subrange(0, NONCE_LEN as int),
            blob.subrange(NONCE_LEN as int, blob.len() as int),
        ) {
            Some(p) => Ok(p),
            None => Err(CipherError::AuthFailed),
        }
    }
}

/// The bytes in a result.
pub open spec fn bytes_view<E>(r: Result<Vec<u8>, E>) -> Result<Seq<u8>, E> {
    match r {
        Ok(v) => Ok(v@),
        Err(e) => Err(e),
    }
}

/// Puts a nonce in front of a ciphertext.
pub fn frame(nonce: &[u8; 12], ciphertext: &[u8]) -> (r: Vec<u8>)
    ensures
        r@ == nonce@ + ciphertext@,
{
    let mut out: Vec<u8> = Vec::new();
    out.extend_from_slice(nonce.as_slice());
    out.extend_from_slice(ciphertext);
    assert(out@ =~= nonce@ + ciphertext@);
    out
}

/// Encrypts `plaintext` under the given nonce, which must never have served this key before.
pub fn seal_with_nonce(key: &[u8; 32], nonce: &[u8; 12], plaintext: &[u8]) -> (r: Vec<u8>)
    requires
        plaintext@.len() <= MAX_PLAINTEXT,
    ensures
        r@ == sealed(key@, nonce@, plaintext@),
        r@.len() == NONCE_LEN + plaintext@.len() + TAG_LEN,
        opened(key@, r@) == Ok::<Seq<u8>, CipherError>(plaintext@),
{
    match encrypt(key, nonce, plaintext) {
        Ok(c) => {
            let r = frame(nonce, c.as_slice());
            assert(r@.subrange(0, NONCE_LEN as int) =~= nonce@);
            assert(r@.subrange(NONCE_LEN as int, r@.len() as int) =~= c@);
            r
        },
        Err(_) => Vec::new(),
    }
}

/// Encrypts `plaintext` with `key` under a fresh random nonce. Returns the nonce, then the
/// ciphertext with its tag. Which nonce it is rests on chance.
pub fn seal(key: &[u8; 32], plaintext: &[u8]) -> (r: Vec<u8>)
    requires
        plaintext@.len() <= MAX_PLAINTEXT,
    ensures
        r@.len() == NONCE_LEN + plaintext@.len() + TAG_LEN,
        r@ == sealed(key@, r@.subrange(0, NONCE_LEN as int), plaintext@),
        opened(key@, r@) == Ok::<Seq<u8>, CipherError>(plaintext@),
{
    let nonce: [u8; 12] = random_nonce();
    let r = seal_with_nonce(key, &nonce, plaintext);
    assert(r@.subrange(0, NONCE_LEN as int) =~= nonce@);
    r
}

/// What an attempt to decrypt comes to: the plaintext, or a failed authentication.
pub fn authenticated(decrypted: Result<Vec<u8>, aes_gcm::Error>) -> (r: Result<
    Vec<u8>,
    CipherError,
>)
    ensures
        decrypted matches Ok(p) ==> r == Ok::<Vec<u8>, CipherError>(p),
        decrypted is Err ==> r == Err::<Vec<u8>, CipherError>(CipherError::AuthFailed),
{
    match decrypted {
        Ok(p) => Ok(p),
        Err(_) => Err(CipherError::AuthFailed),
    }
}

/// Decrypts a blob that [`seal`] produced.
pub fn open(key: &[u8; 32], blob: &[u8]) -> (r: Result<Vec<u8>, CipherError>)
    ensures
        bytes_view(r) == opened(key@, blob@),
        r matches Ok(p) ==> blob@.len() == NONCE_LEN + p@.len() + TAG_LEN,
{
    if blob.len() < NONCE_LEN {
        return Err(CipherError::TooShort);
    }
    let nonce = vstd::slice::slice_subrange(blob, 0, NONCE_LEN);
    let ciphertext = vstd::slice::slice_subrange(blob, NONCE_LEN, blob.len());
    authenticated(decrypt(key, nonce, ciphertext))
}

/// Overwrites the session key where it stands, and takes what is left of it out.
pub fn wipe(key: &mut Option<[u8; 32]>) -> (r: Option<[u8; 32]>)
    ensures
        *final(key) is None,
        r is Some <==> *old(key) is Some,
        r matches Some(k) ==> k@ == zeroed_key(),
{
    match key {
        Some(k) => {
            zeroize_key(k);
        },
        None => {},
    }
    key.take()
}

/// A blob is its nonce and then the ciphertext, and it is opened as just that: by the nonce in
/// front and the ciphertext behind. What is shorter than a nonce is not opened at all.
pub proof fn law_blobs_lead_with_their_nonce(
    key: Seq<u8>,
    nonce: Seq<u8>,
    plaintext: Seq<u8>,
    ciphertext: Seq<u8>,
    short: Seq<u8>,
)
    requires
        nonce.len() == 12,
        short.len() < 12,
    ensures
        sealed(key, nonce, plaintext).subrange(0, 12) == nonce,
        sealed(key, nonce, plaintext).subrange(
            12,
            sealed(key, nonce, plaintext).len() as int,
        ) == aes256_gcm_encrypt(key, nonce, plaintext),
        aes256_gcm_decrypt(key, nonce, ciphertext) matches Some(p) ==> opened(
            key,
            nonce + ciphertext,
        ) == Ok::<Seq<u8>, CipherError>(p),
        aes256_gcm_decrypt(key, nonce, ciphertext) is None ==> opened(key, nonce + ciphertext)
            == Err::<Seq<u8>, CipherError>(CipherError::AuthFailed),
        opened(key, short) == Err::<Seq<u8>, CipherError>(CipherError::TooShort),
{
    let c = aes256_gcm_encrypt(key, nonce, plaintext);
    assert((nonce + c).subrange(0, 12) =~= nonce);
    assert((nonce + c).subrange(12, (nonce + c).len() as int) =~= c);
    assert((nonce + ciphertext).subrange(0, 12) =~= nonce);
    assert((nonce + ciphertext).subrange(12, (nonce + ciphertext).len() as int) =~= ciphertext);
}

/// Of a wiped key as many zeros are left as it had bytes, and of no key nothing.
pub proof fn law_wiped_keys_are_zero(key: Seq<u8>)
    ensures
        wiped(Some(key)) matches Some(left) && left.len() == 32 && forall|i: int|
            0 <= i < 32 ==> #[trigger] left[i] == 0,
        wiped(None) is None,
{
}

/// What the contracts read of bytes or an error is all there is to them.
pub proof fn law_results_in_full(bytes: Vec<u8>, error: CipherError)
    ensures
        bytes_view::<CipherError>(Ok(bytes)) == Ok::<Seq<u8>, CipherError>(bytes@),
        bytes_view::<CipherError>(Err(error)) == Err::<Seq<u8>, CipherError>(error),
{
}

} // verus!
