//! One polling cycle as an explicit state machine. The library fixes the
//! register plan (which address, how many words, which kind, in which
//! order); the caller performs each protocol round trip and hands the words
//! — or the fact of a transport failure — back in. A snapshot exists only
//! when every read of the plan succeeded and decoded: an interrupted cycle
//! can never yield a partial one.

use vstd::prelude::*;
use crate::decode::{decode_i16, decode_u32, i16_of_word, u32_of_words, DecodeError};
use crate::registers::{length_matches_kind, word_count_ok, ModbusRegister, ReadError, RegisterKind};
use crate::snapshot::{aggregate, snapshot_of, RawReadings, SiteMeters};

verus! {

/// The fixed register plan of one cycle, in read order: inverter AC power
/// and its scale factor, exported and imported energy with their shared
/// scale factor, meter AC power and its scale factor.
pub open spec fn cycle_plan_spec() -> Seq<ModbusRegister> {
    seq![
        ModbusRegister { address: 40083, length: 1, kind: RegisterKind::Int16 },
        ModbusRegister { address: 40084, length: 1, kind: RegisterKind::Int16 },
        ModbusRegister { address: 40226, length: 2, kind: RegisterKind::UInt32 },
        ModbusRegister { address: 40234, length: 2, kind: RegisterKind::UInt32 },
        ModbusRegister { address: 40242, length: 1, kind: RegisterKind::Int16 },
        ModbusRegister { address: 40206, length: 1, kind: RegisterKind::Int16 },
        ModbusRegister { address: 40210, length: 1, kind: RegisterKind::Int16 },
    ]
}

/// How many reads one cycle makes.
pub open spec fn plan_len() -> int {
    cycle_plan_spec().len() as int
}

/// The fixed register plan as a vector, for callers that drive the session.
pub fn cycle_plan() -> (plan: Vec<ModbusRegister>)
    ensures
        plan@ == cycle_plan_spec(),
{
    let mut plan: Vec<ModbusRegister> = Vec::new();
    plan.push(ModbusRegister { address: 40083, length: 1, kind: RegisterKind::Int16 });
    plan.push(ModbusRegister { address: 40084, length: 1, kind: RegisterKind::Int16 });
    plan.push(ModbusRegister { address: 40226, length: 2, kind: RegisterKind::UInt32 });
    plan.push(ModbusRegister { address: 40234, length: 2, kind: RegisterKind::UInt32 });
    plan.push(ModbusRegister { address: 40242, length: 1, kind: RegisterKind::Int16 });
    plan.push(ModbusRegister { address: 40206, length: 1, kind: RegisterKind::Int16 });
    plan.push(ModbusRegister { address: 40210, length: 1, kind: RegisterKind::Int16 });
    proof {
        assert(plan@ =~= cycle_plan_spec());
    }
    plan
}

/// The decode state of one cycle: how many reads of the plan have been
/// supplied, and the raw values decoded so far. Positions at or beyond
/// `step` still hold their initial zero.
#[derive(Clone, Copy, Debug, PartialEq, Eq, Structural)]
pub struct CycleState {
    pub step: usize,
    pub raw: RawReadings,
}

/// The state after storing the decode of position `s.step`, the word count
/// having been checked.
pub open spec fn stored(s: CycleState, words: Seq<u16>) -> CycleState {
    let i = s.step as int;
    if i == 0 {
        CycleState { step: 1, raw: RawReadings { ac_power: i16_of_word(words[0]), ..s.raw } }
    } else if i == 1 {
        CycleState { step: 2, raw: RawReadings { ac_power_sf: i16_of_word(words[0]), ..s.raw } }
    } else if i == 2 {
        CycleState {
            step: 3,
            raw: RawReadings { exported: u32_of_words(words[0], words[1]), ..s.raw },
        }
    } else if i == 3 {
        CycleState {
            step: 4,
            raw: RawReadings { imported: u32_of_words(words[0], words[1]), ..s.raw },
        }
    } else if i == 4 {
        CycleState { step: 5, raw: RawReadings { energy_sf: i16_of_word(words[0]), ..s.raw } }
    } else if i == 5 {
        CycleState { step: 6, raw: RawReadings { meter_power: i16_of_word(words[0]), ..s.raw } }
    } else {
        CycleState { step: 7, raw: RawReadings { meter_power_sf: i16_of_word(words[0]), ..s.raw } }
    }
}

/// A cycle is complete when every read of the plan has been supplied.
pub open spec fn cycle_complete(s: CycleState) -> bool {
    s.step as int == plan_len()
}

/// The snapshot a cycle state determines: one exists only for a complete
/// cycle whose consumption sum is representable.
pub open spec fn cycle_snapshot(s: CycleState) -> Option<SiteMeters> {
    if cycle_complete(s) {
        snapshot_of(s.raw)
    } else {
        None
    }
}

impl CycleState {
    /// A fresh cycle: nothing read yet.
    pub fn new() -> (s: CycleState)
        ensures
            s.step == 0,
            s.raw == (RawReadings {
                ac_power: 0,
                ac_power_sf: 0,
                exported: 0,
                imported: 0,
                energy_sf: 0,
                meter_power: 0,
                meter_power_sf: 0,
            }),
    {
        CycleState {
            step: 0,
            raw: RawReadings {
                ac_power: 0,
                ac_power_sf: 0,
                exported: 0,
                imported: 0,
                energy_sf: 0,
                meter_power: 0,
                meter_power_sf: 0,
            },
        }
    }

    /// The next read to issue against the session, or `None` once the plan
    /// is exhausted.
    pub fn next_request(&self) -> (r: Option<ModbusRegister>)
        ensures
            (self.step as int) < plan_len() ==> r == Some(cycle_plan_spec()[self.step as int]),
            (self.step as int) >= plan_len() ==> r is None,
    {
        if self.step == 0 {
            Some(ModbusRegister { address: 40083, length: 1, kind: RegisterKind::Int16 })
        } else if self.step == 1 {
            Some(ModbusRegister { address: 40084, length: 1, kind: RegisterKind::Int16 })
        } else if self.step == 2 {
            Some(ModbusRegister { address: 40226, length: 2, kind: RegisterKind::UInt32 })
        } else if self.step == 3 {
            Some(ModbusRegister { address: 40234, length: 2, kind: RegisterKind::UInt32 })
        } else if self.step == 4 {
            Some(ModbusRegister { address: 40242, length: 1, kind: RegisterKind::Int16 })
        } else if self.step == 5 {
            Some(ModbusRegister { address: 40206, length: 1, kind: RegisterKind::Int16 })
        } else if self.step == 6 {
            Some(ModbusRegister { address: 40210, length: 1, kind: RegisterKind::Int16 })
        } else {
            None
        }
    }

    /// Feeds back the outcome of the pending read: the returned words, or
    /// `None` for a transport failure. A transport failure or a decode
    /// mismatch leaves the state unchanged and names the error's kind; on
    /// success the decoded value is stored and the cycle advances one step.
    pub fn supply(&mut self, response: Option<&Vec<u16>>) -> (r: Result<(), ReadError>)
        requires
            (old(self).step as int) < plan_len(),
        ensures
            response is None ==> r == Err::<(), ReadError>(ReadError::Transport) && *final(self)
                == *old(self),
            response matches Some(words) ==> ({
                let kind = cycle_plan_spec()[old(self).step as int].kind;
                &&& (word_count_ok(kind, words@) ==> r == Ok::<(), ReadError>(()) && *final(self)
                    == stored(*old(self), words@))
                &&& (!word_count_ok(kind, words@) ==> r == Err::<(), ReadError>(
                    ReadError::Decode(DecodeError::WrongWordCount),
                ) && *final(self) == *old(self))
            }),
    {
        match response {
            None => Err(ReadError::Transport),
            Some(words) => {
                if self.step == 2 || self.step == 3 {
                    match decode_u32(words) {
                        Ok(v) => {
                            if self.step == 2 {
                                self.raw.exported = v;
                            } else {
                                self.raw.imported = v;
                            }
                            self.step = self.step + 1;
                            Ok(())
                        },
                        Err(e) => Err(ReadError::Decode(e)),
                    }
                } else {
                    match decode_i16(words) {
                        Ok(v) => {
                            if self.step == 0 {
                                self.raw.ac_power = v;
                            } else if self.step == 1 {
                                self.raw.ac_power_sf = v;
                            } else if self.step == 4 {
                                self.raw.energy_sf = v;
                            } else if self.step == 5 {
                                self.raw.meter_power = v;
                            } else {
                                self.raw.meter_power_sf = v;
                            }
                            self.step = self.step + 1;
                            Ok(())
                        },
                        Err(e) => Err(ReadError::Decode(e)),
                    }
                }
            },
        }
    }

    /// The cycle's snapshot: `Some` exactly when every read was supplied and
    /// the consumption sum is representable; an incomplete cycle yields
    /// nothing.
    pub fn finish(&self) -> (r: Option<SiteMeters>)
        ensures
            r == cycle_snapshot(*self),
    {
        if self.step == 7 {
            aggregate(&self.raw)
        } else {
            None
        }
    }
}

/// Success is owed on well-formed responses: every read of the plan asks for
/// exactly the word count its kind decodes, so a response of the declared
/// length always passes the word-count check — a cycle of correct-length
/// responses can fail only by transport.
pub proof fn lemma_plan_lengths_decode(i: int, words: Seq<u16>)
    requires
        0 <= i < plan_len(),
        words.len() == cycle_plan_spec()[i].length,
    ensures
        length_matches_kind(cycle_plan_spec()[i]),
        word_count_ok(cycle_plan_spec()[i].kind, words),
{
}

/// No partial snapshot is ever observable: a cycle that has not supplied
/// every read of the plan determines no snapshot, whatever was read so far.
pub proof fn lemma_no_partial_snapshot(s: CycleState)
    requires
        (s.step as int) < plan_len(),
    ensures
        cycle_snapshot(s) is None,
{
}

} // verus!
