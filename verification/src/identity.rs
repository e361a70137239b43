//! The node's own key, and the key of the coordinator that it trusts.
//!
//! The secret key is kept in a file, so that the node is the same peer after a restart.

use crate::bytes::{array32, KEY_LEN};
use crate::encoding::{hex_bytes, hex_decode, hex_text};
use crate::text::{trim_end_slashes, without_end_slashes};
use vstd::prelude::*;
use vstd::utf8::encode_utf8;

verus! {

#[derive(Debug, Clone, Copy, PartialEq, Eq, Structural)]
pub enum IdentityError {
    /// The identity file does not hold exactly one key.
    WrongLength,
}

pub open spec fn identity_error_text(e: IdentityError) -> Seq<char> {
    match e {
        IdentityError::WrongLength => "identity file is not 32 bytes"@,
    }
}

impl IdentityError {
    pub fn message(&self) -> (r: String)
        ensures
            r@ == identity_error_text(*self),
    {
        match self {
            IdentityError::WrongLength => String::from_str("identity file is not 32 bytes"),
        }
    }
}

/// Where the node's key comes from.
#[derive(Debug, PartialEq, Eq)]
pub enum IdentitySource {
    /// The key was found on disk.
    Stored([u8; 32]),
    /// There is none yet: one is made, and is to be stored.
    Created([u8; 32]),
}

/// Calls `SigningKey::generate` of `ed25519_dalek` with the generator of the operating system.
/// The key rests on chance.
#[verifier::external_body]
fn generate_key() -> [u8; 32] {
    ed25519_dalek::SigningKey::generate(&mut rand::rngs::OsRng).to_bytes()
}

/// The key that an identity file holds.
pub fn stored_key(file: &[u8]) -> (r: Result<[u8; 32], IdentityError>)
    ensures
        r is Ok <==> file@.len() == KEY_LEN,
        r matches Ok(k) ==> k@ == file@,
{
    match array32(file) {
        Some(k) => Ok(k),
        None => Err(IdentityError::WrongLength),
    }
}

/// The node's key: the one in the identity file, or a new one where there is no file. A file
/// that does not hold a key is never replaced.
pub fn load_or_create(file: Option<&[u8]>) -> (r: Result<IdentitySource, IdentityError>)
    ensures
        r is Err <==> (file matches Some(f) && f@.len() != KEY_LEN),
        file matches Some(f) ==> (r matches Ok(s) ==> (s matches IdentitySource::Stored(k) && k@
            == f@)),
        file is None ==> (r matches Ok(IdentitySource::Created(_))),
{
    match file {
        Some(f) => match stored_key(f) {
            Ok(k) => Ok(IdentitySource::Stored(k)),
            Err(e) => Err(e),
        },
        None => Ok(IdentitySource::Created(generate_key())),
    }
}

#[derive(Debug, Clone, Copy, PartialEq, Eq, Structural)]
pub enum PubkeyError {
    NotHex,
    WrongLength,
}

pub open spec fn pubkey_error_text(e: PubkeyError) -> Seq<char> {
    match e {
        PubkeyError::NotHex => "decode pubkey hex"@,
        PubkeyError::WrongLength => "coordinator pubkey is not 32 bytes"@,
    }
}

impl PubkeyError {
    pub fn message(&self) -> (r: String)
        ensures
            r@ == pubkey_error_text(*self),
    {
        match self {
            PubkeyError::NotHex => String::from_str("decode pubkey hex"),
            PubkeyError::WrongLength => String::from_str("coordinator pubkey is not 32 bytes"),
        }
    }
}

/// Where the coordinator publishes its key.
pub fn coordinator_health_url(coordinator_http: &str) -> (r: String)
    ensures
        r@ == without_end_slashes(coordinator_http@) + "/enclave_health"@,
{
    trim_end_slashes(coordinator_http).concat("/enclave_health")
}

/// The key that a text names in hexadecimal.
pub open spec fn pubkey_of(text: Seq<char>) -> Result<Seq<u8>, PubkeyError> {
    match hex_bytes(encode_utf8(text)) {
        Some(b) => if b.len() == KEY_LEN {
            Ok(b)
        } else {
            Err(PubkeyError::WrongLength)
        },
        None => Err(PubkeyError::NotHex),
    }
}

pub open spec fn key_view<E>(r: Result<[u8; 32], E>) -> Result<Seq<u8>, E> {
    match r {
        Ok(k) => Ok(k@),
        Err(e) => Err(e),
    }
}

/// Reads the coordinator's key from its hexadecimal form.
pub fn parse_coordinator_pubkey(text: &str) -> (r: Result<[u8; 32], PubkeyError>)
    ensures
        key_view(r) == pubkey_of(text@),
{
    match hex_decode(text) {
        Ok(b) => match array32(b.as_slice()) {
            Some(k) => Ok(k),
            None => Err(PubkeyError::WrongLength),
        },
        Err(_) => Err(PubkeyError::NotHex),
    }
}

/// A key that is published in hexadecimal is read as that key.
pub proof fn law_published_pubkey_is_read(key: Seq<u8>)
    requires
        key.len() == KEY_LEN,
    ensures
        pubkey_of(hex_text(key)) == Ok::<Seq<u8>, PubkeyError>(key),
{
    crate::encoding::law_hex_reads_back(key);
}

/// A text names a key exactly where it is thirty-two bytes in hexadecimal. Text that is not
/// hexadecimal is told apart from text of another length.
pub proof fn law_which_texts_name_a_key(text: Seq<char>, key: Seq<u8>)
    ensures
        hex_bytes(encode_utf8(text)) is None ==> pubkey_of(text) == Err::<Seq<u8>, PubkeyError>(
            PubkeyError::NotHex,
        ),
        hex_bytes(encode_utf8(text)) matches Some(b) ==> (b.len() == 32 ==> pubkey_of(text) == Ok::<
            Seq<u8>,
            PubkeyError,
        >(b)) && (b.len() != 32 ==> pubkey_of(text) == Err::<Seq<u8>, PubkeyError>(
            PubkeyError::WrongLength,
        )),
        key.len() != 32 ==> pubkey_of(hex_text(key)) == Err::<Seq<u8>, PubkeyError>(
            PubkeyError::WrongLength,
        ),
{
    crate::encoding::law_hex_reads_back(key);
}

/// What the contracts read of a key, or of why there is none, is all there is to it.
pub proof fn law_pubkeys_in_full(key: [u8; 32], error: PubkeyError)
    ensures
        key_view::<PubkeyError>(Ok(key)) == Ok::<Seq<u8>, PubkeyError>(key@),
        key_view::<PubkeyError>(Err(error)) == Err::<Seq<u8>, PubkeyError>(error),
{
}

} // verus!
