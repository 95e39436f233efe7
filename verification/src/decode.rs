//! Typed register decoders: a closed set of decode rules over the byte
//! sequence produced by the word/byte codec — two's-complement signed 16-bit,
//! big-endian unsigned 32-bit, and packed-ASCII text with null padding
//! stripped.

use vstd::prelude::*;
use crate::codec::{be_bytes_of, to_be_bytes};

verus! {

/// A successful register read returned bytes that do not fit the requested
/// type's contract.
#[derive(Clone, Copy, Debug, PartialEq, Eq, Structural)]
pub enum DecodeError {
    /// Too few words for the requested type.
    WrongWordCount,
    /// Packed-ASCII bytes were not valid UTF-8 after null stripping.
    InvalidUtf8,
}

/// A register word reinterpreted as a two's-complement signed 16-bit value.
pub open spec fn i16_of_word(w: u16) -> i16 {
    w as i16
}

/// Two register words reassembled as a big-endian unsigned 32-bit value: the
/// first word gives the high two bytes, the second the low two.
pub open spec fn u32_of_words(hi: u16, lo: u16) -> u32 {
    (hi * 0x10000 + lo) as u32
}

/// Null padding removed: every zero byte is discarded, wherever it stands.
pub open spec fn strip_nulls(bytes: Seq<u8>) -> Seq<u8> {
    bytes.filter(|b: u8| b != 0)
}

/// The characters of a byte sequence read as UTF-8, or `None` where the bytes
/// are not valid UTF-8; names what `String::from_utf8` returns, which is a
/// function of the bytes alone.
pub uninterp spec fn utf8_chars(bytes: Seq<u8>) -> Option<Seq<char>>;

/// Relies on std's `String::from_utf8`: it succeeds exactly on valid UTF-8
/// input, its result is a function of the bytes alone, and ASCII bytes decode
/// to the identical characters (UTF-8 is documented as a strict superset of
/// ASCII).
#[verifier::external_body]
fn string_from_utf8(bytes: Vec<u8>) -> (r: Option<String>)
    ensures
        r is Some <==> utf8_chars(bytes@) is Some,
        r is Some ==> r->Some_0@ == utf8_chars(bytes@)->Some_0,
        (forall|i: int| 0 <= i < bytes@.len() ==> bytes@[i] < 128) ==> (r is Some
            && r->Some_0@ == bytes@.map_values(|b: u8| b as char)),
{
    String::from_utf8(bytes).ok()
}

proof fn lemma_strip_nulls_push(s: Seq<u8>, x: u8)
    ensures
        strip_nulls(s.push(x)) == if x != 0 {
            strip_nulls(s).push(x)
        } else {
            strip_nulls(s)
        },
{
    s.lemma_filter_push(x, |b: u8| b != 0);
}

/// Signed 16-bit decode: reinterprets the first word's bit pattern as a
/// two's-complement value, ignoring any words beyond the first; fails only
/// when no word is available.
pub fn decode_i16(words: &Vec<u16>) -> (r: Result<i16, DecodeError>)
    ensures
        words@.len() >= 1 ==> r == Ok::<i16, DecodeError>(i16_of_word(words@[0])),
        words@.len() == 0 ==> r == Err::<i16, DecodeError>(DecodeError::WrongWordCount),
{
    if words.len() >= 1 {
        Ok(words[0] as i16)
    } else {
        Err(DecodeError::WrongWordCount)
    }
}

/// Unsigned 32-bit decode: exactly two words, reassembled big-endian; with
/// any other word count the four needed bytes are not available and the
/// decode fails.
pub fn decode_u32(words: &Vec<u16>) -> (r: Result<u32, DecodeError>)
    ensures
        words@.len() == 2 ==> r == Ok::<u32, DecodeError>(u32_of_words(words@[0], words@[1])),
        words@.len() != 2 ==> r == Err::<u32, DecodeError>(DecodeError::WrongWordCount),
{
    if words.len() == 2 {
        Ok((words[0] as u32) * 0x10000 + (words[1] as u32))
    } else {
        Err(DecodeError::WrongWordCount)
    }
}

/// Packed-ASCII decode: converts the words through the byte codec, discards
/// every zero byte (null padding may appear anywhere), and reads the
/// remainder as UTF-8 text; fails exactly when the remaining bytes are not
/// valid UTF-8. On all-ASCII content the text's characters are pinned down
/// byte for byte.
pub fn decode_text(words: Vec<u16>) -> (r: Result<String, DecodeError>)
    ensures
        ({
            let stripped = strip_nulls(be_bytes_of(words@));
            &&& (r is Ok <==> utf8_chars(stripped) is Some)
            &&& (r is Ok ==> r->Ok_0@ == utf8_chars(stripped)->Some_0)
            &&& (r is Err ==> r == Err::<String, DecodeError>(DecodeError::InvalidUtf8))
            &&& ((forall|i: int| 0 <= i < stripped.len() ==> stripped[i] < 128) ==> (r is Ok
                && r->Ok_0@ == stripped.map_values(|b: u8| b as char)))
        }),
{
    let bytes = to_be_bytes(words);
    let n = bytes.len();
    let mut kept: Vec<u8> = Vec::new();
    let mut i: usize = 0;
    while i < n
        invariant
            i <= n,
            n == bytes@.len(),
            kept@ == strip_nulls(bytes@.take(i as int)),
        decreases n - i,
    {
        let b = bytes[i];
        proof {
            assert(bytes@.take(i as int + 1) =~= bytes@.take(i as int).push(bytes@[i as int]));
            lemma_strip_nulls_push(bytes@.take(i as int), bytes@[i as int]);
        }
        if b != 0 {
            kept.push(b);
        }
        i = i + 1;
    }
    proof {
        assert(bytes@.take(n as int) =~= bytes@);
    }
    match string_from_utf8(kept) {
        Some(s) => Ok(s),
        None => Err(DecodeError::InvalidUtf8),
    }
}

} // verus!
