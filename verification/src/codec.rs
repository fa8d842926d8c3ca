//! Encodings, digests and random identifiers.

use crate::text::push_char;
use base64::engine::general_purpose::STANDARD as BASE64;
use base64::Engine;
use vstd::prelude::*;

verus! {

/// The error of `base64` decoding.
#[verifier::external_type_specification]
#[verifier::external_body]
pub struct ExDecodeError(base64::DecodeError);

/// The error of the random number source.
#[verifier::external_type_specification]
#[verifier::external_body]
pub struct ExRandomError(getrandom::Error);

/// The incremental state of the BLAKE3 hash.
#[verifier::external_type_specification]
#[verifier::external_body]
pub struct ExHasher(blake3::Hasher);

/// The standard base64 text, with padding, of a byte sequence.
pub uninterp spec fn base64_text(bytes: Seq<u8>) -> Seq<char>;

/// The bytes that a standard base64 text stands for, if it is one.
pub uninterp spec fn base64_bytes(text: Seq<char>) -> Option<Seq<u8>>;

/// The BLAKE3 digest of a byte sequence, in hexadecimal digits.
pub uninterp spec fn blake3_hex(bytes: Seq<u8>) -> Seq<char>;

/// The bytes that a hasher has been fed since it was made.
pub uninterp spec fn hashed(hasher: blake3::Hasher) -> Seq<u8>;

/// Encodes bytes by `Engine::encode` of the standard engine. The text is a
/// function of the bytes, and decoding it gives the bytes back. The bound keeps
/// the text, four characters for three bytes, within what can be allocated;
/// beyond that `encode` panics.
#[verifier::external_body]
pub(crate) fn encode_base64(bytes: &[u8]) -> (text: String)
    requires
        bytes@.len() <= usize::MAX / 4,
    ensures
        text@ == base64_text(bytes@),
        base64_bytes(text@) == Some(bytes@),
{
    BASE64.encode(bytes)
}

/// Decodes a text by `Engine::decode` of the standard engine. Whether it
/// succeeds, and with what bytes, is a function of the text.
#[verifier::external_body]
pub(crate) fn decode_base64(text: &str) -> (bytes: Result<Vec<u8>, base64::DecodeError>)
    ensures
        match bytes {
            Ok(decoded) => base64_bytes(text@) == Some(decoded@),
            Err(_) => base64_bytes(text@) is None,
        },
{
    BASE64.decode(text)
}

/// The text that bytes stand for, with replacement characters where they are
/// not UTF-8.
pub uninterp spec fn lossy_text(bytes: Seq<u8>) -> Seq<char>;

/// Reads bytes as text by `String::from_utf8_lossy`, which is documented to
/// replace what is not UTF-8 and to keep everything else as it is.
#[verifier::external_body]
pub(crate) fn to_lossy_text(bytes: &[u8]) -> (text: String)
    ensures
        text@ == lossy_text(bytes@),
        vstd::utf8::valid_utf8(bytes@) ==> text@ == vstd::utf8::decode_utf8(bytes@),
{
    String::from_utf8_lossy(bytes).into_owned()
}

/// The text in lower case.
pub uninterp spec fn lower_case(text: Seq<char>) -> Seq<char>;

/// Whether a character is an upper-case ASCII letter.
pub open spec fn is_ascii_upper(c: char) -> bool {
    'A' <= c <= 'Z'
}

/// The lower-case form of an ASCII letter; any other character as it is.
pub open spec fn ascii_lower(c: char) -> char {
    if is_ascii_upper(c) {
        ((c as u32) + 32) as char
    } else {
        c
    }
}

/// Puts text in lower case by `str::to_lowercase`, which goes by the Unicode
/// property and so changes of ASCII text the upper-case letters only.
#[verifier::external_body]
pub(crate) fn to_lower_case(text: &str) -> (lower: String)
    ensures
        lower@ == lower_case(text@),
        vstd::utf8::is_ascii_chars(text@) ==> lower@ == text@.map_values(|c: char| ascii_lower(c)),
{
    text.to_lowercase()
}

/// Makes a hasher by `Hasher::new`, which has been fed nothing.
#[verifier::external_body]
pub(crate) fn new_hasher() -> (hasher: blake3::Hasher)
    ensures
        hashed(hasher) == Seq::<u8>::empty(),
{
    blake3::Hasher::new()
}

/// Feeds a hasher by `Hasher::update`, which adds to what it has been fed
/// before.
#[verifier::external_body]
pub(crate) fn feed_hasher(hasher: &mut blake3::Hasher, bytes: &[u8])
    ensures
        hashed(*final(hasher)) == hashed(*old(hasher)) + bytes@,
{
    hasher.update(bytes);
}

/// Finishes a hash by `Hasher::finalize` and `Hash::to_hex`: the digest of all
/// that the hasher has been fed, as 64 lower-case hexadecimal digits.
#[verifier::external_body]
pub(crate) fn digest_of(hasher: &blake3::Hasher) -> (digest: String)
    ensures
        digest@ == blake3_hex(hashed(*hasher)),
        digest@.len() == 64,
        all_lower_hex(digest@),
{
    hasher.finalize().to_hex().to_string()
}

/// Fills a slice by `getrandom::getrandom`. Nothing is known of the bytes.
pub assume_specification[ getrandom::getrandom ](dest: &mut [u8]) -> (result: Result<
    (),
    getrandom::Error,
>)
    ensures
        final(dest)@.len() == old(dest)@.len(),
;

/// The hexadecimal digit of a value below sixteen.
pub open spec fn hex_digit(value: int) -> char {
    if value < 10 {
        (48 + value) as char
    } else {
        (87 + value) as char
    }
}

/// Whether a character is a lower-case hexadecimal digit.
pub open spec fn is_lower_hex(c: char) -> bool {
    '0' <= c <= '9' || 'a' <= c <= 'f'
}

/// Whether every character is a lower-case hexadecimal digit.
pub open spec fn all_lower_hex(text: Seq<char>) -> bool {
    forall|i: int| 0 <= i < text.len() ==> is_lower_hex(#[trigger] text[i])
}

/// The hexadecimal digits of bytes, two for each.
pub open spec fn hex(bytes: Seq<u8>) -> Seq<char>
    decreases bytes.len(),
{
    if bytes.len() == 0 {
        Seq::empty()
    } else {
        hex(bytes.drop_last()).push(hex_digit(bytes.last() as int / 16)).push(
            hex_digit(bytes.last() as int % 16),
        )
    }
}

fn to_hex_digit(value: u8) -> (digit: char)
    requires
        value < 16,
    ensures
        digit == hex_digit(value as int),
{
    if value < 10 {
        (48u8 + value) as char
    } else {
        (87u8 + value) as char
    }
}

/// Writes bytes in hexadecimal.
pub fn to_hex(bytes: &[u8]) -> (text: String)
    ensures
        text@ == hex(bytes@),
{
    let mut text = String::new();
    let mut i: usize = 0;
    while i < bytes.len()
        invariant
            i <= bytes.len(),
            text@ == hex(bytes@.take(i as int)),
        decreases bytes.len() - i,
    {
        assert(bytes@.take(i + 1).drop_last() =~= bytes@.take(i as int));
        push_char(&mut text, to_hex_digit(bytes[i] / 16));
        push_char(&mut text, to_hex_digit(bytes[i] % 16));
        i += 1;
    }
    assert(bytes@.take(i as int) =~= bytes@);
    text
}

/// Hexadecimal text has two digits for each byte.
pub proof fn hex_is_lower(bytes: Seq<u8>)
    ensures
        hex(bytes).len() == 2 * bytes.len(),
        all_lower_hex(hex(bytes)),
    decreases bytes.len(),
{
    if bytes.len() > 0 {
        hex_is_lower(bytes.drop_last());
    }
}

/// Different byte sequences have different hexadecimal texts.
pub proof fn hex_is_injective(left: Seq<u8>, right: Seq<u8>)
    requires
        hex(left) == hex(right),
    ensures
        left == right,
    decreases left.len(),
{
    hex_is_lower(left);
    hex_is_lower(right);
    if left.len() > 0 {
        let l = hex(left);
        let r = hex(right);
        assert(l[l.len() - 1] == r[r.len() - 1]);
        assert(l[l.len() - 2] == r[r.len() - 2]);
        assert(l.take(l.len() - 2) =~= hex(left.drop_last()));
        assert(r.take(r.len() - 2) =~= hex(right.drop_last()));
        hex_is_injective(left.drop_last(), right.drop_last());
        assert(left.last() == right.last());
        assert(left =~= left.drop_last().push(left.last()));
        assert(right =~= right.drop_last().push(right.last()));
    } else {
        assert(left =~= right);
    }
}

/// Whether a text can be the identifier of a session or of a stream: the
/// hexadecimal digits of sixteen bytes.
pub open spec fn is_session_id(text: Seq<char>) -> bool {
    text.len() == 32 && all_lower_hex(text)
}

/// Whether a text can be the identifier of a session.
pub fn is_valid_session_id(text: &str) -> (valid: bool)
    ensures
        valid == is_session_id(text@),
{
    let chars = crate::text::chars_of(text);
    if chars.len() != 32 {
        return false;
    }
    let mut i: usize = 0;
    while i < chars.len()
        invariant
            i <= chars.len(),
            chars@ == text@,
            forall|k: int| 0 <= k < i ==> is_lower_hex(#[trigger] chars@[k]),
        decreases chars.len() - i,
    {
        let c = chars[i];
        if !(('0' <= c && c <= '9') || ('a' <= c && c <= 'f')) {
            return false;
        }
        i += 1;
    }
    true
}

/// The identifier that random bytes stand for, or the failure of the source that
/// was to give them.
pub fn session_id_of(filled: Result<(), getrandom::Error>, bytes: &[u8]) -> (id: Result<
    String,
    getrandom::Error,
>)
    ensures
        match filled {
            Ok(()) => id matches Ok(text) && text@ == hex(bytes@),
            Err(error) => id == Err::<String, _>(error),
        },
        filled is Ok && bytes@.len() == 16 ==> is_session_id(id->Ok_0@),
{
    match filled {
        Ok(()) => {
            proof {
                hex_is_lower(bytes@);
            }
            Ok(to_hex(bytes))
        },
        Err(error) => Err(error),
    }
}

/// A new random identifier, or the failure of the random number source. The
/// identifier is that of the sixteen bytes that the source gave.
pub fn new_session_id() -> (id: Result<String, getrandom::Error>)
    ensures
        id matches Ok(text) ==> is_session_id(text@) && exists|bytes: Seq<u8>|
            bytes.len() == 16 && text@ == #[trigger] hex(bytes),
{
    let mut bytes: Vec<u8> = vec![0u8; 16];
    let filled = getrandom::getrandom(bytes.as_mut_slice());
    session_id_of(filled, bytes.as_slice())
}

} // verus!
