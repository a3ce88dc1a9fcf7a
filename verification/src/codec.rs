//! The oversize-payload codec.
//!
//! A queue message may hold fewer than 262,144 bytes. A larger document is
//! gzipped and written in Base58; a reader tells the two forms apart by the
//! first character that is not white space.

use flate2::read::GzDecoder;
use flate2::read::GzEncoder;
use flate2::Compression;
use std::io::Read;
use vstd::prelude::*;
use vstd::std_specs::iter::IteratorSpec;
use vstd::utf8::*;

verus! {

/// A queue message must be shorter than this many bytes.
pub const MAX_MESSAGE_BYTES: usize = 262144;

#[verifier::external_type_specification]
#[verifier::external_body]
pub struct ExIoError(std::io::Error);

#[verifier::external_type_specification]
#[verifier::external_body]
pub struct ExFromUtf8Error(std::string::FromUtf8Error);

#[verifier::external_type_specification]
#[verifier::external_body]
pub struct ExBase58Error(bs58::decode::Error);

/// Why a message body could not be decoded.
#[derive(Clone, Copy, Debug, PartialEq, Eq, Structural)]
pub enum DecodeError {
    /// The body is not Base58 text.
    Base58,
    /// The Base58 payload is not a gzip stream.
    Gzip,
    /// The decompressed bytes are not UTF-8.
    Utf8,
}

/// Why a document could not be encoded.
#[derive(Clone, Copy, Debug, PartialEq, Eq, Structural)]
pub enum EncodeError {
    /// The compressor reported a failure.
    Gzip,
}

/// The Base58 text (Bitcoin alphabet) that `bs58` gives for `bytes`.
pub uninterp spec fn base58_text(bytes: Seq<u8>) -> Seq<char>;

/// The bytes that `bs58` decodes from a Base58 `text`.
pub uninterp spec fn base58_bytes(text: Seq<char>) -> Seq<u8>;

/// The gzip stream that `flate2` produces for `data` at its fastest level,
/// or nothing where it reports a failure.
pub uninterp spec fn gzip_fast(data: Seq<u8>) -> Option<Seq<u8>>;

/// What `flate2` decompresses from the gzip stream `data`, if it is one.
pub uninterp spec fn gunzip(data: Seq<u8>) -> Option<Seq<u8>>;

/// The characters of the Base58 alphabet: the ASCII digits and letters
/// without `0`, `O`, `I` and `l`.
pub open spec fn is_base58_char(c: char) -> bool {
    let u = c as u32;
    (0x31 <= u <= 0x39) || (0x41 <= u <= 0x5A && u != 0x49 && u != 0x4F) || (0x61 <= u <= 0x7A
        && u != 0x6C)
}

/// Every character of `text` is in the Base58 alphabet.
pub open spec fn is_base58_text(text: Seq<char>) -> bool {
    forall|i: int| 0 <= i < text.len() ==> is_base58_char(#[trigger] text[i])
}

/// Unicode white space, as `char::is_whitespace` has it.
pub open spec fn is_whitespace(c: char) -> bool {
    let u = c as u32;
    (0x09 <= u <= 0x0D) || u == 0x20 || u == 0x85 || u == 0xA0 || u == 0x1680 || (0x2000 <= u
        <= 0x200A) || u == 0x2028 || u == 0x2029 || u == 0x202F || u == 0x205F || u == 0x3000
}

/// Every character of `s` is white space.
pub open spec fn all_whitespace(s: Seq<char>) -> bool {
    forall|i: int| 0 <= i < s.len() ==> is_whitespace(#[trigger] s[i])
}

/// `s` is empty, or its first character that is not white space is `{`.
pub open spec fn looks_like_json(s: Seq<char>) -> bool {
    s.len() == 0 || exists|i: int|
        0 <= i < s.len() && #[trigger] s[i] == '{' && all_whitespace(s.take(i))
}

/// The length of `s` in bytes.
pub open spec fn byte_len(s: Seq<char>) -> nat {
    encode_utf8(s).len()
}

/// The encoded form of `body`: itself while it fits in a message, else the
/// Base58 text of its gzip stream.
pub open spec fn encoded(body: Seq<char>) -> Result<Seq<char>, EncodeError> {
    if byte_len(body) < MAX_MESSAGE_BYTES {
        Ok(body)
    } else {
        match gzip_fast(encode_utf8(body)) {
            Some(stream) => Ok(base58_text(stream)),
            None => Err(EncodeError::Gzip),
        }
    }
}

/// `r` stands for the same outcome as `expected`.
pub open spec fn encode_result_is(
    r: Result<String, EncodeError>,
    expected: Result<Seq<char>, EncodeError>,
) -> bool {
    match r {
        Ok(s) => expected == Ok::<Seq<char>, EncodeError>(s@),
        Err(e) => expected == Err::<Seq<char>, EncodeError>(e),
    }
}

/// The decoded form of `body`, or the step of decoding that fails.
pub open spec fn decoded(body: Seq<char>) -> Result<Seq<char>, DecodeError> {
    if looks_like_json(body) {
        Ok(body)
    } else if !is_base58_text(body) {
        Err(DecodeError::Base58)
    } else {
        match gunzip(base58_bytes(body)) {
            None => Err(DecodeError::Gzip),
            Some(raw) => if valid_utf8(raw) {
                Ok(decode_utf8(raw))
            } else {
                Err(DecodeError::Utf8)
            },
        }
    }
}

/// `r` stands for the same outcome as `expected`.
pub open spec fn decode_result_is(
    r: Result<String, DecodeError>,
    expected: Result<Seq<char>, DecodeError>,
) -> bool {
    match r {
        Ok(s) => expected == Ok::<Seq<char>, DecodeError>(s@),
        Err(e) => expected == Err::<Seq<char>, DecodeError>(e),
    }
}

/// Calls `bs58::encode(..).into_string()`. The text is made of characters of
/// the Base58 alphabet only, is empty only for empty input, and decodes back
/// to `data`.
#[verifier::external_body]
fn base58_encode(data: &Vec<u8>) -> (r: String)
    ensures
        r@ == base58_text(data@),
        is_base58_text(r@),
        data@.len() > 0 ==> r@.len() > 0,
        base58_bytes(r@) == data@,
{
    bs58::encode(data).into_string()
}

/// Calls `bs58::decode(..).into_vec()`. It fails exactly when a character of
/// `text` is outside the Base58 alphabet.
#[verifier::external_body]
fn base58_decode(text: &str) -> (r: Result<Vec<u8>, bs58::decode::Error>)
    ensures
        r is Ok <==> is_base58_text(text@),
        r matches Ok(v) ==> v@ == base58_bytes(text@),
{
    bs58::decode(text).into_vec()
}

/// Reads `flate2::read::GzEncoder` at `Compression::fast()` to its end. A
/// stream that was produced is never empty and decompresses back to `data`.
#[verifier::external_body]
fn gzip_compress(data: &[u8]) -> (r: Result<Vec<u8>, std::io::Error>)
    ensures
        match r {
            Ok(v) => gzip_fast(data@) == Some(v@) && v@.len() > 0 && gunzip(v@) == Some(data@),
            Err(_) => gzip_fast(data@) is None,
        },
{
    let mut out: Vec<u8> = Vec::new();
    match GzEncoder::new(data, Compression::fast()).read_to_end(&mut out) {
        Ok(_) => Ok(out),
        Err(e) => Err(e),
    }
}

/// Reads `flate2::read::GzDecoder` to its end.
#[verifier::external_body]
fn gzip_decompress(data: &[u8]) -> (r: Result<Vec<u8>, std::io::Error>)
    ensures
        match r {
            Ok(v) => gunzip(data@) == Some(v@),
            Err(_) => gunzip(data@) is None,
        },
{
    let mut out: Vec<u8> = Vec::new();
    match GzDecoder::new(data).read_to_end(&mut out) {
        Ok(_) => Ok(out),
        Err(e) => Err(e),
    }
}

/// `String::from_utf8` accepts exactly the valid UTF-8 byte strings and
/// gives the characters that they encode.
pub assume_specification[ String::from_utf8 ](bytes: Vec<u8>) -> (r: Result<
    String,
    std::string::FromUtf8Error,
>)
    ensures
        r is Ok <==> valid_utf8(bytes@),
        r matches Ok(s) ==> s@ == decode_utf8(bytes@),
;

/// Whether `c` is Unicode white space.
pub fn char_is_whitespace(c: char) -> (r: bool)
    ensures
        r == is_whitespace(c),
{
    let u: u32 = c as u32;
    (0x09 <= u && u <= 0x0D) || u == 0x20 || u == 0x85 || u == 0xA0 || u == 0x1680 || (0x2000 <= u
        && u <= 0x200A) || u == 0x2028 || u == 0x2029 || u == 0x202F || u == 0x205F || u == 0x3000
}

/// Whether `body` is taken for a plain JSON document.
pub fn starts_like_json(body: &str) -> (r: bool)
    ensures
        r == looks_like_json(body@),
{
    for c in it: body.chars()
        invariant
            it.seq() == body@,
            all_whitespace(body@.take(it.index() as int)),
    {
        let ghost k = it.index() as int;
        if !char_is_whitespace(c) {
            proof {
                if c == '{' {
                    assert(body@[k] == '{');
                } else {
                    assert forall|i: int|
                        0 <= i < body@.len() && #[trigger] body@[i] == '{' implies !all_whitespace(
                        body@.take(i),
                    ) by {
                        if i < k {
                            assert(body@.take(k)[i] == body@[i]);
                        } else if i > k {
                            assert(body@.take(i)[k] == body@[k]);
                        }
                    }
                }
            }
            return c == '{';
        }
        proof {
            assert forall|j: int| 0 <= j < k + 1 implies is_whitespace(
                #[trigger] body@.take(k + 1)[j],
            ) by {
                if j < k {
                    assert(body@.take(k)[j] == body@[j]);
                }
            }
        }
    }
    proof {
        assert(body@.take(body@.len() as int) =~= body@);
        assert forall|i: int| 0 <= i < body@.len() && #[trigger] body@[i] == '{' implies false by {
            assert(is_whitespace(body@[i]));
        }
    }
    body.is_empty()
}

/// Gives the Base58 text of a compressed document, or the failure of the
/// compressor.
pub fn encode_compressed(compressed: Result<Vec<u8>, std::io::Error>) -> (r: Result<
    String,
    EncodeError,
>)
    ensures
        match compressed {
            Ok(v) => (r matches Ok(t) && t@ == base58_text(v@) && is_base58_text(t@) && (v@.len()
                > 0 ==> t@.len() > 0) && base58_bytes(t@) == v@),
            Err(_) => r == Err::<String, EncodeError>(EncodeError::Gzip),
        },
{
    match compressed {
        Ok(v) => Ok(base58_encode(&v)),
        Err(_) => Err(EncodeError::Gzip),
    }
}

/// Encodes a document for the queue. A document that fits in a message is
/// returned as it is. A larger one is compressed and written in Base58; what
/// comes back then decodes to the document again.
pub fn compress_output(response: String) -> (r: Result<String, EncodeError>)
    ensures
        encode_result_is(r, encoded(response@)),
        r matches Ok(t) ==> (byte_len(response@) >= MAX_MESSAGE_BYTES ==> decoded(t@) == Ok::<
            Seq<char>,
            DecodeError,
        >(response@)),
{
    let bytes = response.as_str().as_bytes();
    if bytes.len() < MAX_MESSAGE_BYTES {
        return Ok(response);
    }
    let r = encode_compressed(gzip_compress(bytes));
    proof {
        if let Ok(t) = &r {
            assert forall|i: int|
                0 <= i < t@.len() && #[trigger] t@[i] == '{' implies !all_whitespace(
                t@.take(i),
            ) by {
                assert(is_base58_char(t@[i]));
            }
            assert(!looks_like_json(t@));
            encode_utf8_valid_utf8(response@);
            encode_utf8_decode_utf8(response@);
        }
    }
    r
}

/// Decodes a message body. A body that is empty, or whose first character
/// after leading white space is `{`, is returned as it is; any other body is
/// read as Base58, decompressed and checked to be UTF-8.
pub fn decode_maybe_binary(body: String) -> (r: Result<String, DecodeError>)
    ensures
        decode_result_is(r, decoded(body@)),
{
    if starts_like_json(body.as_str()) {
        return Ok(body);
    }
    let packed = match base58_decode(body.as_str()) {
        Ok(v) => v,
        Err(_) => {
            return Err(DecodeError::Base58);
        },
    };
    let raw = match gzip_decompress(packed.as_slice()) {
        Ok(v) => v,
        Err(_) => {
            return Err(DecodeError::Gzip);
        },
    };
    match String::from_utf8(raw) {
        Ok(s) => Ok(s),
        Err(_) => Err(DecodeError::Utf8),
    }
}

/// The first character of `s` that is not white space.
pub open spec fn first_visible(s: Seq<char>) -> Option<char>
    decreases s.len(),
{
    if s.len() == 0 {
        None
    } else if is_whitespace(s[0]) {
        first_visible(s.drop_first())
    } else {
        Some(s[0])
    }
}

/// Where the first character of `s` that is not white space is `{`, gives
/// its position: only white space stands before it.
pub proof fn lemma_brace_position(s: Seq<char>) -> (at: int)
    requires
        first_visible(s) == Some('{'),
    ensures
        0 <= at < s.len(),
        s[at] == '{',
        all_whitespace(s.take(at)),
    decreases s.len(),
{
    if is_whitespace(s[0]) {
        let rest = s.drop_first();
        let inner = lemma_brace_position(rest);
        assert forall|j: int| 0 <= j < inner + 1 implies is_whitespace(
            #[trigger] s.take(inner + 1)[j],
        ) by {
            if j > 0 {
                assert(s.take(inner + 1)[j] == rest.take(inner)[j - 1]);
            }
        }
        inner + 1
    } else {
        0
    }
}

/// Decoding is the identity on every body whose first character that is
/// not white space is `{`.
pub proof fn lemma_decode_keeps_json(body: Seq<char>)
    requires
        first_visible(body) == Some('{'),
    ensures
        decoded(body) == Ok::<Seq<char>, DecodeError>(body),
{
    let at = lemma_brace_position(body);
    assert(body[at] == '{' && all_whitespace(body.take(at)));
}

} // verus!
