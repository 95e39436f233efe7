//! Register descriptors and decode dispatch: an address/word-count/kind
//! triple describes one protocol read, and a closed kind tag selects the
//! decode rule applied to the returned words.

use vstd::prelude::*;
use crate::codec::be_bytes_of;
use crate::decode::{
    decode_i16, decode_text, decode_u32, i16_of_word, strip_nulls, u32_of_words, utf8_chars,
    DecodeError,
};

verus! {

/// The closed catalog of register value kinds.
#[derive(Clone, Copy, Debug, PartialEq, Eq, Structural)]
pub enum RegisterKind {
    /// Two's-complement signed 16-bit integer, one word.
    Int16,
    /// Big-endian unsigned 32-bit integer, two words.
    UInt32,
    /// Packed-ASCII text, any word count.
    Text,
}

/// One decoded register value.
#[derive(Debug)]
pub enum Value {
    Int16(i16),
    UInt32(u32),
    Text(String),
}

/// An immutable register descriptor: address, word count, and the kind of
/// value the words decode to.
#[derive(Clone, Copy, Debug, PartialEq, Eq, Structural)]
pub struct ModbusRegister {
    pub address: u16,
    pub length: u16,
    pub kind: RegisterKind,
}

/// A register read failed: either the transport round trip itself, or the
/// decoding of the words a successful round trip returned.
#[derive(Clone, Copy, Debug, PartialEq, Eq, Structural)]
pub enum ReadError {
    /// The read operation against the protocol session failed.
    Transport,
    /// The returned words do not fit the requested kind's contract.
    Decode(DecodeError),
}

/// Whether a descriptor requests exactly the word count its kind decodes.
pub open spec fn length_matches_kind(reg: ModbusRegister) -> bool {
    match reg.kind {
        RegisterKind::Int16 => reg.length == 1,
        RegisterKind::UInt32 => reg.length == 2,
        RegisterKind::Text => true,
    }
}

/// Whether the returned words satisfy the kind's word-count demand.
pub open spec fn word_count_ok(kind: RegisterKind, words: Seq<u16>) -> bool {
    match kind {
        RegisterKind::Int16 => words.len() >= 1,
        RegisterKind::UInt32 => words.len() == 2,
        RegisterKind::Text => true,
    }
}

impl ModbusRegister {
    /// A descriptor for one read of `length` words at `address`, decoded as
    /// `kind`.
    pub fn new(address: u16, length: u16, kind: RegisterKind) -> (r: ModbusRegister)
        ensures
            r.address == address,
            r.length == length,
            r.kind == kind,
    {
        ModbusRegister { address, length, kind }
    }
}

/// Applies the decoder the descriptor's kind selects to one read's words.
/// Signed and unsigned integers are pinned exactly; text goes through the
/// byte codec, null stripping, and UTF-8 reading.
pub fn decode_register(reg: &ModbusRegister, words: Vec<u16>) -> (r: Result<Value, DecodeError>)
    ensures
        !word_count_ok(reg.kind, words@) ==> r == Err::<Value, DecodeError>(
            DecodeError::WrongWordCount,
        ),
        reg.kind == RegisterKind::Int16 && words@.len() >= 1 ==> r == Ok::<Value, DecodeError>(
            Value::Int16(i16_of_word(words@[0])),
        ),
        reg.kind == RegisterKind::UInt32 && words@.len() == 2 ==> r == Ok::<Value, DecodeError>(
            Value::UInt32(u32_of_words(words@[0], words@[1])),
        ),
        reg.kind == RegisterKind::Text ==> {
            let stripped = strip_nulls(be_bytes_of(words@));
            &&& (r is Ok <==> utf8_chars(stripped) is Some)
            &&& (r is Ok ==> (r->Ok_0 matches Value::Text(s) && s@ == utf8_chars(
                stripped,
            )->Some_0))
            &&& (r is Err ==> r == Err::<Value, DecodeError>(DecodeError::InvalidUtf8))
        },
{
    match reg.kind {
        RegisterKind::Int16 => match decode_i16(&words) {
            Ok(v) => Ok(Value::Int16(v)),
            Err(e) => Err(e),
        },
        RegisterKind::UInt32 => match decode_u32(&words) {
            Ok(v) => Ok(Value::UInt32(v)),
            Err(e) => Err(e),
        },
        RegisterKind::Text => match decode_text(words) {
            Ok(s) => Ok(Value::Text(s)),
            Err(e) => Err(e),
        },
    }
}

} // verus!
