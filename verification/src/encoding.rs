//! Bytes and text: UTF-8, hexadecimal, base64 and SHA-256.

use base64::engine::general_purpose::STANDARD;
use base64::Engine;
use sha2::Digest;
use vstd::prelude::*;
use vstd::string::*;
use vstd::utf8::*;

verus! {

/// Most bytes whose base64 encoding an allocation can hold: `isize::MAX` characters, four for every
/// three bytes.
pub const MAX_BASE64_INPUT: usize = usize::MAX / 8 * 3;

/// The displayed reason why bytes are no UTF-8.
pub uninterp spec fn utf8_failure(bytes: Seq<u8>) -> Seq<char>;

/// `String::from_utf8` of std, its failure as its displayed text: it succeeds exactly on valid
/// UTF-8, and the text it gives encodes to the same bytes; the displayed text is named.
#[verifier::external_body]
pub(crate) fn utf8_text(bytes: &[u8]) -> (result: Result<String, String>)
    ensures
        match result {
            Ok(text) => valid_utf8(bytes@) && encode_utf8(text@) == bytes@,
            Err(text) => !valid_utf8(bytes@) && text@ == utf8_failure(bytes@),
        },
{
    String::from_utf8(bytes.to_vec()).map_err(|error| error.to_string())
}

/// What `String::from_utf8_lossy` makes of bytes.
pub uninterp spec fn lossy_utf8(bytes: Seq<u8>) -> Seq<char>;

/// `String::from_utf8_lossy` of std: named; on valid UTF-8 the text encodes to the same bytes.
#[verifier::external_body]
pub(crate) fn lossy_text(bytes: &[u8]) -> (text: String)
    ensures
        text@ == lossy_utf8(bytes@),
        valid_utf8(bytes@) ==> encode_utf8(text@) == bytes@,
{
    String::from_utf8_lossy(bytes).into_owned()
}

/// The value of a hexadecimal digit of either case.
pub open spec fn hex_value(c: char) -> Option<u8> {
    if '0' <= c && c <= '9' {
        Some((c as u32 - 48) as u8)
    } else if 'a' <= c && c <= 'f' {
        Some((c as u32 - 87) as u8)
    } else if 'A' <= c && c <= 'F' {
        Some((c as u32 - 55) as u8)
    } else {
        None
    }
}

/// The lower-case hexadecimal digit of `n`.
pub open spec fn hex_digit(n: u8) -> char {
    if n < 10 {
        (48 + n) as char
    } else {
        (87 + n) as char
    }
}

/// `text` is an even number of hexadecimal digits.
pub open spec fn is_hex(text: Seq<char>) -> bool {
    text.len() % 2 == 0 && forall|i: int| 0 <= i < text.len() ==> hex_value(#[trigger] text[i]) is Some
}

/// The bytes that the digit pairs of `text` stand for.
pub open spec fn hex_bytes(text: Seq<char>) -> Seq<u8> {
    Seq::new(
        text.len() / 2,
        |i: int| (16 * hex_value(text[2 * i])->0 + hex_value(text[2 * i + 1])->0) as u8,
    )
}

/// Two lower-case digits for each byte.
pub open spec fn hex_text(bytes: Seq<u8>) -> Seq<char> {
    Seq::new(
        2 * bytes.len(),
        |i: int|
            if i % 2 == 0 {
                hex_digit(bytes[i / 2] / 16)
            } else {
                hex_digit(bytes[i / 2] % 16)
            },
    )
}

/// Different bytes have different digits.
pub proof fn hex_texts_differ(left: Seq<u8>, right: Seq<u8>)
    requires
        hex_text(left) == hex_text(right),
    ensures
        left == right,
{
    assert(hex_text(left).len() == 2 * left.len());
    assert(hex_text(right).len() == 2 * right.len());
    assert forall|i: int| 0 <= i < left.len() implies left[i] == right[i] by {
        assert(hex_text(left)[2 * i] == hex_digit(left[i] / 16));
        assert(hex_text(right)[2 * i] == hex_digit(right[i] / 16));
        assert(hex_text(left)[2 * i + 1] == hex_digit(left[i] % 16));
        assert(hex_text(right)[2 * i + 1] == hex_digit(right[i] % 16));
        digits_differ(left[i] / 16, right[i] / 16);
        digits_differ(left[i] % 16, right[i] % 16);
    }
    assert(left =~= right);
}

proof fn digits_differ(left: u8, right: u8)
    requires
        left < 16,
        right < 16,
        hex_digit(left) == hex_digit(right),
    ensures
        left == right,
{
    assert(hex_digit(left) as u32 == if left < 10 {
        48 + left
    } else {
        87 + left
    });
    assert(hex_digit(right) as u32 == if right < 10 {
        48 + right
    } else {
        87 + right
    });
}

/// `hex::decode`: succeeds exactly on an even number of hexadecimal digits of either case, each pair
/// being one byte.
#[verifier::external_body]
pub(crate) fn hex_decode(text: &str) -> (bytes: Option<Vec<u8>>)
    ensures
        bytes is Some == is_hex(text@),
        bytes matches Some(value) ==> value@ == hex_bytes(text@),
{
    hex::decode(text).ok()
}

/// `hex::encode`: two lower-case digits for each byte.
#[verifier::external_body]
pub(crate) fn hex_encode(bytes: &[u8]) -> (text: String)
    ensures
        text@ == hex_text(bytes@),
{
    hex::encode(bytes)
}

/// What the standard base64 engine decodes: the bytes, or the displayed failure.
pub uninterp spec fn base64_decoded(text: Seq<char>) -> Result<Seq<u8>, Seq<char>>;

/// What the standard base64 engine encodes bytes to.
pub uninterp spec fn base64_encoded(bytes: Seq<u8>) -> Seq<char>;

/// The outcome of a decoding as characters and bytes.
pub open spec fn decoded_view(result: Result<Vec<u8>, String>) -> Result<Seq<u8>, Seq<char>> {
    match result {
        Ok(bytes) => Ok(bytes@),
        Err(text) => Err(text@),
    }
}

/// `base64::engine::general_purpose::STANDARD.decode`, its failure as its displayed text: named.
#[verifier::external_body]
pub(crate) fn base64_decode(text: &str) -> (bytes: Result<Vec<u8>, String>)
    ensures
        decoded_view(bytes) == base64_decoded(text@),
{
    STANDARD.decode(text).map_err(|error| error.to_string())
}

/// Decoding `text` succeeds with exactly `bytes`.
pub open spec fn decodes_to(text: Seq<char>, bytes: Seq<u8>) -> bool {
    base64_decoded(text) == Ok::<Seq<u8>, Seq<char>>(bytes)
}

/// `base64::engine::general_purpose::STANDARD.encode`: named; decoding gives the bytes back. The
/// bound keeps the encoded length below what an allocation can hold, beyond which it panics.
#[verifier::external_body]
pub(crate) fn base64_encode(bytes: &[u8]) -> (text: String)
    requires
        bytes@.len() <= MAX_BASE64_INPUT,
    ensures
        text@ == base64_encoded(bytes@),
        decodes_to(text@, bytes@),
{
    STANDARD.encode(bytes)
}

/// The SHA-256 digest of bytes.
pub uninterp spec fn sha256(bytes: Seq<u8>) -> Seq<u8>;

/// `sha2::Sha256::digest`: named; a digest has 32 bytes.
#[verifier::external_body]
pub(crate) fn sha256_digest(bytes: &[u8]) -> (digest: Vec<u8>)
    ensures
        digest@ == sha256(bytes@),
        digest@.len() == 32,
{
    sha2::Sha256::digest(bytes).to_vec()
}

/// The hexadecimal text of bytes is hexadecimal and gives the bytes back.
pub proof fn hex_texts_give_the_bytes_back(bytes: Seq<u8>)
    ensures
        is_hex(hex_text(bytes)),
        hex_bytes(hex_text(bytes)) == bytes,
        hex_text(bytes).len() == 2 * bytes.len(),
{
    let text = hex_text(bytes);
    assert forall|i: int| 0 <= i < text.len() implies hex_value(#[trigger] text[i]) is Some by {
        digits_have_their_value(bytes[i / 2] / 16);
        digits_have_their_value(bytes[i / 2] % 16);
    }
    let back = hex_bytes(text);
    assert(back.len() == bytes.len());
    assert forall|i: int| 0 <= i < bytes.len() implies #[trigger] back[i] == bytes[i] by {
        digits_have_their_value(bytes[i] / 16);
        digits_have_their_value(bytes[i] % 16);
        assert((2 * i) / 2 == i && (2 * i + 1) / 2 == i);
        assert((2 * i) % 2 == 0 && (2 * i + 1) % 2 == 1);
        assert(text[2 * i] == hex_digit(bytes[i] / 16));
        assert(text[2 * i + 1] == hex_digit(bytes[i] % 16));
        assert(16 * (bytes[i] / 16) + bytes[i] % 16 == bytes[i]);
    }
}

proof fn digits_have_their_value(n: u8)
    requires
        n < 16,
    ensures
        hex_value(hex_digit(n)) == Some(n),
{
}

/// Digits and the letters from a to f in either case are hexadecimal, and worth what they are; nothing
/// else is hexadecimal.
pub proof fn hexadecimal_digits_have_their_worth(c: char)
    ensures
        hex_value(c) is Some <==> '0' <= c <= '9' || 'a' <= c <= 'f' || 'A' <= c <= 'F',
        hex_value('0') == Some(0u8) && hex_value('9') == Some(9u8),
        hex_value('a') == Some(10u8) && hex_value('f') == Some(15u8),
        hex_value('A') == Some(10u8) && hex_value('F') == Some(15u8),
        hex_value(c) matches Some(value) ==> value < 16,
{
}

} // verus!
