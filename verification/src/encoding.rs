//! Digests and the text forms of bytes and identifiers.

use base64::Engine;
use sha2::Digest;
use vstd::prelude::*;
use vstd::utf8::{encode_utf8, is_ascii_chars, is_ascii_chars_encode_utf8};

verus! {

/// The messages that SHA-256 is defined on are shorter than this many bytes.
pub const SHA256_MAX_BYTES: u64 = 0x2000_0000_0000_0000;

/// The SHA-256 digest of a message.
pub uninterp spec fn sha256_digest(message: Seq<u8>) -> Seq<u8>;

/// Calls `Sha256::digest`, whose result depends on the message alone.
#[verifier::external_body]
pub(crate) fn sha256(message: &[u8]) -> (r: [u8; 32])
    requires
        message@.len() < SHA256_MAX_BYTES,
    ensures
        r@ == sha256_digest(message@),
{
    sha2::Sha256::digest(message).into()
}

/// The lower-case hexadecimal digit of `n`, for `n` below sixteen.
pub open spec fn hex_digit(n: int) -> char {
    if n < 10 {
        ('0' as int + n) as char
    } else {
        ('a' as int + n - 10) as char
    }
}

/// Bytes in lower-case hexadecimal, two digits for each.
pub open spec fn hex_text(bytes: Seq<u8>) -> Seq<char> {
    Seq::new(
        2 * bytes.len(),
        |i: int| hex_digit(if i % 2 == 0 { bytes[i / 2] as int / 16 } else { bytes[i / 2] as int % 16 }),
    )
}

/// Calls `hex::encode`, which writes two lower-case digits for each byte.
#[verifier::external_body]
pub(crate) fn hex_encode(bytes: &[u8; 32]) -> (r: String)
    ensures
        r@ == hex_text(bytes@),
{
    hex::encode(bytes)
}

/// What a character of either case is worth as a hexadecimal digit.
pub open spec fn hex_value(c: u8) -> Option<int> {
    if 48 <= c <= 57 {
        Some(c - 48)
    } else if 65 <= c <= 70 {
        Some(c - 55)
    } else if 97 <= c <= 102 {
        Some(c - 87)
    } else {
        None
    }
}

/// The bytes that hexadecimal text stands for: pairs of digits, and nothing else.
pub open spec fn hex_bytes(text: Seq<u8>) -> Option<Seq<u8>> {
    if text.len() % 2 == 0 && (forall|i: int|
        0 <= i < text.len() ==> hex_value(#[trigger] text[i]) is Some) {
        Some(
            Seq::new(
                text.len() / 2,
                |i: int| (hex_value(text[2 * i])->0 * 16 + hex_value(text[2 * i + 1])->0) as u8,
            ),
        )
    } else {
        None
    }
}

/// The error of the `hex` crate.
#[verifier::external_type_specification]
#[verifier::external_body]
pub struct ExFromHexError(hex::FromHexError);

/// Calls `hex::decode`, which takes digits of either case, in pairs, and nothing else.
#[verifier::external_body]
pub(crate) fn hex_decode(text: &str) -> (r: Result<Vec<u8>, hex::FromHexError>)
    ensures
        r matches Ok(b) ==> hex_bytes(encode_utf8(text@)) == Some(b@),
        r is Err ==> hex_bytes(encode_utf8(text@)) is None,
{
    hex::decode(text)
}

/// What the standard base64 alphabet with canonical padding reads a text as: its bytes, or what
/// is wrong with it, in words.
pub uninterp spec fn base64_standard_decode(text: Seq<char>) -> Result<Seq<u8>, Seq<char>>;

/// The contents of a decoding.
pub open spec fn decoded_view(r: Result<Vec<u8>, String>) -> Result<Seq<u8>, Seq<char>> {
    match r {
        Ok(b) => Ok(b@),
        Err(e) => Err(e@),
    }
}

/// Calls `Engine::decode` of `base64::engine::general_purpose::STANDARD`, whose result depends
/// on the text alone. An error is handed on as its text.
#[verifier::external_body]
pub(crate) fn base64_decode(text: &str) -> (r: Result<Vec<u8>, String>)
    ensures
        decoded_view(r) == base64_standard_decode(text@),
{
    match base64::engine::general_purpose::STANDARD.decode(text.as_bytes()) {
        Ok(b) => Ok(b),
        Err(e) => Err(e.to_string()),
    }
}

/// How many hyphens stand before place `i` of a written identifier.
pub open spec fn hyphens_before(i: int) -> int {
    if i <= 8 {
        0
    } else if i <= 13 {
        1
    } else if i <= 18 {
        2
    } else if i <= 23 {
        3
    } else {
        4
    }
}

/// An identifier in its usual form: hexadecimal digits in groups of 8, 4, 4, 4 and 12.
pub open spec fn uuid_text(id: u128) -> Seq<char> {
    Seq::new(
        36,
        |i: int|
            if i == 8 || i == 13 || i == 18 || i == 23 {
                '-'
            } else {
                hex_digit(((id >> (4 * (31 - (i - hyphens_before(i)))) as u128) % 16) as int)
            },
    )
}

/// Calls `Uuid::to_string`, which writes the hyphenated form in lower case.
#[verifier::external_body]
pub(crate) fn uuid_to_string(id: u128) -> (r: String)
    ensures
        r@ == uuid_text(id),
{
    uuid::Uuid::from_u128(id).to_string()
}

/// Whether an identifier is marked as a random one.
pub open spec fn is_random_uuid(id: u128) -> bool {
    (id >> 76) % 16 == 4 && (id >> 62) % 4 == 2
}

/// Calls `Uuid::new_v4`. Its bits rest on chance, but for those of version and variant.
#[verifier::external_body]
pub(crate) fn random_uuid() -> (r: u128)
    ensures
        is_random_uuid(r),
{
    uuid::Uuid::new_v4().as_u128()
}

proof fn lemma_hex_digit(n: int)
    requires
        0 <= n < 16,
    ensures
        0 <= hex_digit(n) as int,
        (hex_digit(n) as int) < 128,
        hex_value(hex_digit(n) as u8) == Some(n),
{
}

/// Bytes written in hexadecimal read back as the same bytes.
pub proof fn law_hex_reads_back(bytes: Seq<u8>)
    ensures
        hex_bytes(encode_utf8(hex_text(bytes))) == Some(bytes),
{
    let chars = hex_text(bytes);
    assert forall|i: int| 0 <= i < chars.len() implies (#[trigger] chars[i] as int) < 128 by {
        lemma_hex_digit(bytes[i / 2] as int / 16);
        lemma_hex_digit(bytes[i / 2] as int % 16);
    }
    assert(is_ascii_chars(chars));
    is_ascii_chars_encode_utf8(chars);
    let text = encode_utf8(chars);
    assert(text.len() == chars.len());
    assert forall|i: int| 0 <= i < text.len() implies hex_value(#[trigger] text[i]) is Some by {
        lemma_hex_digit(bytes[i / 2] as int / 16);
        lemma_hex_digit(bytes[i / 2] as int % 16);
        assert(text[i] == chars[i] as u8);
    }
    let back = hex_bytes(text)->0;
    assert forall|i: int| 0 <= i < bytes.len() implies back[i] == bytes[i] by {
        lemma_hex_digit(bytes[i] as int / 16);
        lemma_hex_digit(bytes[i] as int % 16);
        assert(text[2 * i] == chars[2 * i] as u8);
        assert(text[2 * i + 1] == chars[2 * i + 1] as u8);
    }
    assert(back =~= bytes);
}

/// Different bytes are never written alike.
pub proof fn law_hex_tells_bytes_apart(a: Seq<u8>, b: Seq<u8>)
    requires
        hex_text(a) == hex_text(b),
    ensures
        a == b,
{
    law_hex_reads_back(a);
    law_hex_reads_back(b);
}

/// Every byte is written as two digits, the higher half first, out of sixteen digits in lower
/// case.
pub proof fn law_hex_digit_by_digit(bytes: Seq<u8>)
    ensures
        hex_text(bytes).len() == 2 * bytes.len(),
        forall|i: int|
            #![trigger bytes[i]]
            0 <= i < bytes.len() ==> hex_text(bytes)[2 * i] == "0123456789abcdef"@[bytes[i] as int
                / 16] && hex_text(bytes)[2 * i + 1] == "0123456789abcdef"@[bytes[i] as int % 16],
{
    reveal_strlit("0123456789abcdef");
    assert forall|i: int| #![trigger bytes[i]] 0 <= i < bytes.len() implies hex_text(bytes)[2 * i]
        == "0123456789abcdef"@[bytes[i] as int / 16] && hex_text(bytes)[2 * i + 1]
        == "0123456789abcdef"@[bytes[i] as int % 16] by {
        assert((2 * i) / 2 == i && (2 * i) % 2 == 0);
        assert((2 * i + 1) / 2 == i && (2 * i + 1) % 2 == 1);
    }
}

/// Hexadecimal text is read in pairs of digits, of either case, and text with anything else in
/// it, or with a digit left over, is not read.
pub proof fn law_hex_is_read_in_pairs(text: Seq<u8>)
    ensures
        text.len() % 2 == 1 ==> hex_bytes(text) is None,
        (exists|i: int|
            0 <= i < text.len() && !(48 <= #[trigger] text[i] <= 57 || 65 <= text[i] <= 70 || 97
                <= text[i] <= 102)) ==> hex_bytes(text) is None,
        text.len() % 2 == 0 && (forall|i: int|
            0 <= i < text.len() ==> (48 <= #[trigger] text[i] <= 57 || 65 <= text[i] <= 70 || 97
                <= text[i] <= 102)) ==> (hex_bytes(text) matches Some(b) && 2 * b.len()
            == text.len() && forall|i: int|
            0 <= i < b.len() ==> #[trigger] b[i] == 16 * (if text[2 * i] <= 57 {
                text[2 * i] - 48
            } else if text[2 * i] <= 70 {
                text[2 * i] - 55
            } else {
                text[2 * i] - 87
            }) + (if text[2 * i + 1] <= 57 {
                text[2 * i + 1] - 48
            } else if text[2 * i + 1] <= 70 {
                text[2 * i + 1] - 55
            } else {
                text[2 * i + 1] - 87
            })),
{
    if exists|i: int|
        0 <= i < text.len() && !(48 <= #[trigger] text[i] <= 57 || 65 <= text[i] <= 70 || 97
            <= text[i] <= 102) {
        let i = choose|i: int|
            0 <= i < text.len() && !(48 <= #[trigger] text[i] <= 57 || 65 <= text[i] <= 70 || 97
                <= text[i] <= 102);
        assert(hex_value(text[i]) is None);
    }
}

/// An identifier is written with hyphens in four places and its digits, highest first, in the
/// others.
pub proof fn law_uuid_digit_by_digit(id: u128, i: int)
    requires
        0 <= i < 36,
    ensures
        uuid_text(id).len() == 36,
        i == 8 || i == 13 || i == 18 || i == 23 ==> uuid_text(id)[i] == '-',
        i < 8 ==> uuid_text(id)[i] == hex_digit(((id >> (124 - 4 * i) as u128) % 16) as int),
        8 < i < 13 ==> uuid_text(id)[i] == hex_digit(((id >> (128 - 4 * i) as u128) % 16) as int),
        13 < i < 18 ==> uuid_text(id)[i] == hex_digit(((id >> (132 - 4 * i) as u128) % 16) as int),
        18 < i < 23 ==> uuid_text(id)[i] == hex_digit(((id >> (136 - 4 * i) as u128) % 16) as int),
        23 < i ==> uuid_text(id)[i] == hex_digit(((id >> (140 - 4 * i) as u128) % 16) as int),
{
}

/// What the contracts read of a decoding is all there is to it.
pub proof fn law_decodings_in_full(bytes: Vec<u8>, error: String)
    ensures
        decoded_view(Ok(bytes)) == Ok::<Seq<u8>, Seq<char>>(bytes@),
        decoded_view(Err(error)) == Err::<Seq<u8>, Seq<char>>(error@),
{
}

} // verus!
