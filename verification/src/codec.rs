//! Word/byte codec: an ordered sequence of 16-bit register words converts to
//! a big-endian byte sequence, each word contributing its high byte and then
//! its low byte. Every typed decoder builds on this primitive.

use vstd::prelude::*;
use vstd::arithmetic::div_mod::lemma_fundamental_div_mod;

verus! {

/// High (first, big-endian) byte of a 16-bit word.
pub open spec fn word_hi(w: u16) -> u8 {
    (w / 256) as u8
}

/// Low (second, big-endian) byte of a 16-bit word.
pub open spec fn word_lo(w: u16) -> u8 {
    (w % 256) as u8
}

/// The big-endian byte sequence of a word sequence: twice as long, with each
/// word's high byte at the even index and its low byte at the odd index.
pub open spec fn be_bytes_of(words: Seq<u16>) -> Seq<u8> {
    Seq::new(
        2 * words.len(),
        |i: int| if i % 2 == 0 { word_hi(words[i / 2]) } else { word_lo(words[i / 2]) },
    )
}

/// Re-pairing a byte sequence big-endian into 16-bit words; a trailing odd
/// byte contributes nothing.
pub open spec fn words_of_be_bytes(bytes: Seq<u8>) -> Seq<u16> {
    Seq::new(bytes.len() / 2, |i: int| (bytes[2 * i] * 256 + bytes[2 * i + 1]) as u16)
}

/// Emits each word's two bytes in big-endian order, concatenated in word
/// order.
pub fn to_be_bytes(data: Vec<u16>) -> (out: Vec<u8>)
    ensures
        out@ == be_bytes_of(data@),
{
    let mut out: Vec<u8> = Vec::new();
    let mut i: usize = 0;
    while i < data.len()
        invariant
            i <= data.len(),
            out@.len() == 2 * i,
            forall|j: int| 0 <= j < out@.len() ==> out@[j] == be_bytes_of(data@)[j],
        decreases data.len() - i,
    {
        let w = data[i];
        out.push((w / 256) as u8);
        out.push((w % 256) as u8);
        i = i + 1;
    }
    assert(out@ =~= be_bytes_of(data@));
    out
}

/// Rebuilds words from a big-endian byte sequence, pairing bytes in order; a
/// trailing odd byte is ignored.
pub fn from_be_bytes(bytes: &Vec<u8>) -> (out: Vec<u16>)
    ensures
        out@ == words_of_be_bytes(bytes@),
{
    let n = bytes.len() / 2;
    let mut out: Vec<u16> = Vec::new();
    let mut i: usize = 0;
    while i < n
        invariant
            i <= n,
            n == bytes@.len() / 2,
            bytes@.len() <= usize::MAX,
            out@.len() == i,
            forall|j: int| 0 <= j < out@.len() ==> out@[j] == words_of_be_bytes(bytes@)[j],
        decreases n - i,
    {
        proof {
            lemma_fundamental_div_mod(bytes@.len() as int, 2);
            assert(2 * (i as int) + 1 < bytes@.len() as int);
        }
        let hi = bytes[2 * i];
        let lo = bytes[2 * i + 1];
        out.push((hi as u16) * 256 + (lo as u16));
        i = i + 1;
    }
    assert(out@ =~= words_of_be_bytes(bytes@));
    out
}

/// Round-trip law: re-pairing the big-endian bytes of any word sequence
/// reconstructs the original words exactly.
pub proof fn lemma_be_bytes_round_trip(words: Seq<u16>)
    ensures
        words_of_be_bytes(be_bytes_of(words)) == words,
{
    let bytes = be_bytes_of(words);
    assert forall|i: int| 0 <= i < words.len() implies words_of_be_bytes(bytes)[i] == words[i] by {
        assert(bytes[2 * i] == word_hi(words[i]));
        assert(bytes[2 * i + 1] == word_lo(words[i]));
        lemma_fundamental_div_mod(words[i] as int, 256);
    }
    assert(words_of_be_bytes(bytes) =~= words);
}

} // verus!
