//! Text encodings of bytes: base64 (two alphabets of the `base64` crate),
//! lower-case hexadecimal, and the SHA-256 digest of the `sha256` crate.
use vstd::prelude::*;
use base64::Engine;

verus! {

/// Why a base64 text could not be decoded (the variants of the `base64`
/// crate's `DecodeError`, with their positions and bytes).
#[derive(Debug, Clone, PartialEq, Eq, Structural)]
pub enum Base64Error {
    InvalidByte(usize, u8),
    InvalidLength(usize),
    InvalidLastSymbol(usize, u8),
    InvalidPadding,
}

/// Why a base64 text could not be decoded into a buffer of fixed size.
#[derive(Debug, Clone, PartialEq, Eq, Structural)]
pub enum Base64SliceError {
    Invalid(Base64Error),
    OutputSliceTooSmall,
}

#[verifier::external_type_specification]
#[verifier::external_body]
pub struct ExBase64DecodeError(base64::DecodeError);

/// What `base64::engine::general_purpose::URL_SAFE.encode` gives for `bytes`.
pub uninterp spec fn url_safe_encoded(bytes: Seq<u8>) -> Seq<char>;

/// What `URL_SAFE` decodes `text` to, or `None` where `text` is not
/// canonical padded URL-safe base64.
pub uninterp spec fn url_safe_decoded(text: Seq<char>) -> Option<Seq<u8>>;

/// What `base64::engine::general_purpose::STANDARD_NO_PAD.encode` gives for `bytes`.
pub uninterp spec fn standard_no_pad_encoded(bytes: Seq<u8>) -> Seq<char>;

/// What `STANDARD_NO_PAD` decodes `text` to, or `None` where `text` is not
/// canonical unpadded standard base64.
pub uninterp spec fn standard_no_pad_decoded(text: Seq<char>) -> Option<Seq<u8>>;

/// The SHA-256 digest of `data`, as `sha2::Sha256` computes it.
pub uninterp spec fn sha256_of(data: Seq<u8>) -> Seq<u8>;

/// Moves the fields of the `base64` crate's decoding error into this crate's
/// own `Base64Error`, one variant for one variant; nothing is stated of which.
#[verifier::external_body]
fn decode_error_of(e: base64::DecodeError) -> Base64Error {
    match e {
        base64::DecodeError::InvalidByte(at, b) => Base64Error::InvalidByte(at, b),
        base64::DecodeError::InvalidLength(n) => Base64Error::InvalidLength(n),
        base64::DecodeError::InvalidLastSymbol(at, b) => Base64Error::InvalidLastSymbol(at, b),
        base64::DecodeError::InvalidPadding => Base64Error::InvalidPadding,
    }
}

/// Calls `URL_SAFE.encode`. Claims that the text is `url_safe_encoded(bytes)`
/// and that `URL_SAFE` decodes it back to `bytes` (the crate's round trip).
#[verifier::external_body]
pub(crate) fn url_safe_encode(bytes: &[u8]) -> (text: String)
    ensures
        text@ == url_safe_encoded(bytes@),
        url_safe_decoded(text@) == Some(bytes@),
{
    base64::engine::general_purpose::URL_SAFE.encode(bytes)
}

/// Calls `URL_SAFE.decode_slice` with a 32-byte buffer. Claims, from the
/// crate's source: on a text that decodes to at most 32 bytes it returns their
/// number, writes them at the front and leaves the rest of the buffer as it
/// was; on one that decodes to more it reports `OutputSliceTooSmall`; on a text
/// that does not decode it fails. Which variant a text that does not decode
/// gets, and what such a call leaves in the buffer, is not stated.
#[verifier::external_body]
pub(crate) fn url_safe_decode_slice(text: &str, output: &mut [u8; 32]) -> (r: Result<usize, Base64SliceError>)
    ensures
        match url_safe_decoded(text@) {
            Some(d) => if d.len() <= 32 {
                &&& r == Ok::<usize, Base64SliceError>(d.len() as usize)
                &&& final(output)@ == d + old(output)@.skip(d.len() as int)
            } else {
                r == Err::<usize, Base64SliceError>(Base64SliceError::OutputSliceTooSmall)
            },
            None => r is Err,
        },
        r matches Err(Base64SliceError::Invalid(_)) ==> url_safe_decoded(text@) is None,
{
    match base64::engine::general_purpose::URL_SAFE.decode_slice(text, output) {
        Ok(n) => Ok(n),
        Err(base64::DecodeSliceError::OutputSliceTooSmall) => Err(Base64SliceError::OutputSliceTooSmall),
        Err(base64::DecodeSliceError::DecodeError(e)) => Err(Base64SliceError::Invalid(decode_error_of(e))),
    }
}

/// Calls `STANDARD_NO_PAD.encode`. Claims that the text is
/// `standard_no_pad_encoded(bytes)` and that `STANDARD_NO_PAD` decodes it back
/// to `bytes` (the crate's round trip).
#[verifier::external_body]
pub(crate) fn standard_no_pad_encode(bytes: &[u8]) -> (text: String)
    ensures
        text@ == standard_no_pad_encoded(bytes@),
        standard_no_pad_decoded(text@) == Some(bytes@),
{
    base64::engine::general_purpose::STANDARD_NO_PAD.encode(bytes)
}

/// Calls `STANDARD_NO_PAD.decode`. Claims that it succeeds exactly on the texts
/// that decode, with their bytes; which variant a failure gets is not stated.
#[verifier::external_body]
pub(crate) fn standard_no_pad_decode(text: &str) -> (r: Result<Vec<u8>, Base64Error>)
    ensures
        match r {
            Ok(v) => standard_no_pad_decoded(text@) == Some(v@),
            Err(_) => standard_no_pad_decoded(text@) is None,
        },
{
    base64::engine::general_purpose::STANDARD_NO_PAD.decode(text).map_err(decode_error_of)
}

/// The lower-case hexadecimal digit for `n < 16`.
pub open spec fn hex_digit(n: int) -> char {
    if n < 10 {
        (n + 48) as char
    } else {
        (n + 87) as char
    }
}

/// Lower-case hexadecimal text of `bytes`: two digits per byte, high half first.
pub open spec fn lower_hex(bytes: Seq<u8>) -> Seq<char> {
    Seq::new(
        2 * bytes.len(),
        |i: int|
            if i % 2 == 0 {
                hex_digit((bytes[i / 2] / 16) as int)
            } else {
                hex_digit((bytes[i / 2] % 16) as int)
            },
    )
}

/// The value of an ASCII hexadecimal digit of either case.
pub open spec fn hex_value(b: u8) -> Option<u8> {
    if 48 <= b <= 57 {
        Some((b - 48) as u8)
    } else if 65 <= b <= 70 {
        Some((b - 55) as u8)
    } else if 97 <= b <= 102 {
        Some((b - 87) as u8)
    } else {
        None
    }
}

/// What `hex::decode` gives for `text`: one byte for each pair of digits, or
/// `None` where the length is odd or a byte is no hexadecimal digit.
pub open spec fn hex_decoded(text: Seq<u8>) -> Option<Seq<u8>> {
    if text.len() % 2 == 0 && forall|i: int| 0 <= i < text.len() ==> (#[trigger] hex_value(text[i])) is Some {
        Some(
            Seq::new(
                text.len() / 2,
                |i: int| (hex_value(text[2 * i])->0 * 16 + hex_value(text[2 * i + 1])->0) as u8,
            ),
        )
    } else {
        None
    }
}

/// Calls `hex::decode`. Claims what its source shows: it decodes exactly the
/// texts of even length made of hexadecimal digits, each pair to one byte.
#[verifier::external_body]
fn hex_decode(text: &[u8]) -> (r: Option<Vec<u8>>)
    ensures
        match r {
            Some(v) => hex_decoded(text@) == Some(v@),
            None => hex_decoded(text@) is None,
        },
{
    hex::decode(text).ok()
}

/// Calls `sha256::digest`. Claims that it gives the lower-case hexadecimal
/// text of the 32-byte SHA-256 digest of `data` (the crate hex-encodes
/// `sha2::Sha256::digest`).
#[verifier::external_body]
fn sha256_hex_digest(data: &[u8]) -> (text: String)
    ensures
        text@.len() == 64,
        text@ == lower_hex(sha256_of(data@)),
{
    sha256::digest(data)
}

/// Calls `String::from_utf8`, which by its documentation succeeds exactly on
/// valid UTF-8 and then holds the text that the bytes encode.
#[verifier::external_body]
pub(crate) fn string_from_utf8(bytes: Vec<u8>) -> (r: Option<String>)
    ensures
        match r {
            Some(s) => vstd::utf8::valid_utf8(bytes@) && s@ == vstd::utf8::decode_utf8(bytes@),
            None => !vstd::utf8::valid_utf8(bytes@),
        },
{
    String::from_utf8(bytes).ok()
}

/// The bytes of `chars` where each is an ASCII character.
pub open spec fn ascii_bytes(chars: Seq<char>) -> Seq<u8> {
    Seq::new(chars.len(), |i: int| chars[i] as u8)
}

proof fn lemma_hex_digit(n: int)
    requires
        0 <= n < 16,
    ensures
        '\0' <= hex_digit(n) <= '\u{7f}',
        hex_value(hex_digit(n) as u8) == Some(n as u8),
{
}

/// Lower-case hexadecimal text is ASCII and `hex::decode` gives back the bytes.
proof fn lemma_lower_hex_decodes(bytes: Seq<u8>)
    ensures
        vstd::utf8::is_ascii_chars(lower_hex(bytes)),
        hex_decoded(ascii_bytes(lower_hex(bytes))) == Some(bytes),
{
    let chars = lower_hex(bytes);
    let text = ascii_bytes(chars);
    assert forall|i: int| 0 <= i < chars.len() implies '\0' <= #[trigger] chars[i] <= '\u{7f}'
        && hex_value(text[i]) == Some((if i % 2 == 0 { bytes[i / 2] / 16 } else { bytes[i / 2] % 16 }) as u8) by {
        if i % 2 == 0 {
            lemma_hex_digit((bytes[i / 2] / 16) as int);
        } else {
            lemma_hex_digit((bytes[i / 2] % 16) as int);
        }
    }
    assert forall|i: int| 0 <= i < text.len() implies (#[trigger] hex_value(text[i])) is Some by {
        assert('\0' <= chars[i] <= '\u{7f}');
    }
    let decoded = hex_decoded(text)->0;
    assert forall|i: int| 0 <= i < bytes.len() implies decoded[i] == bytes[i] by {
        assert('\0' <= chars[2 * i] <= '\u{7f}');
        assert('\0' <= chars[2 * i + 1] <= '\u{7f}');
        assert((2 * i) % 2 == 0 && (2 * i) / 2 == i);
        assert((2 * i + 1) % 2 == 1 && (2 * i + 1) / 2 == i);
    }
    assert(decoded =~= bytes);
}

/// The SHA-256 digest of `data`, computed as hexadecimal text and decoded
/// back to its 32 bytes.
pub fn sha256_bytes(data: &[u8]) -> (digest: Vec<u8>)
    ensures
        digest@ == sha256_of(data@),
        digest@.len() == 32,
{
    let text = sha256_hex_digest(data);
    let bytes = text.as_str().as_bytes();
    proof {
        lemma_lower_hex_decodes(sha256_of(data@));
        vstd::utf8::is_ascii_chars_encode_utf8(text@);
        assert(bytes@ =~= ascii_bytes(text@));
    }
    match hex_decode(bytes) {
        Some(v) => v,
        None => {
            proof {
                assert(false);
            }
            Vec::new()
        },
    }
}

} // verus!
