//! The instructions of the program and their byte format.
//!
//! An instruction is one tag byte, followed for three of the four
//! instructions by a little-endian `u32`. Bytes behind what an instruction
//! needs are not looked at.

use vstd::prelude::*;
use vstd::slice::slice_subrange;
use crate::wire::{borsh_read_u32, le_value, U32_LEN};

verus! {

/// Tag of `Increment`.
pub const TAG_INCREMENT: u8 = 0;

/// Tag of `Decrement`.
pub const TAG_DECREMENT: u8 = 1;

/// Tag of `Reset`.
pub const TAG_RESET: u8 = 2;

/// Tag of `Update`.
pub const TAG_UPDATE: u8 = 3;

/// What the program can be told to do with its counter.
#[derive(Clone, Copy, Debug, PartialEq, Eq, Structural)]
pub enum CounterInstruction {
    /// Add `amount`, wrapping round at 2^32.
    Increment { amount: u32 },
    /// Take `amount` away, stopping at zero.
    Decrement { amount: u32 },
    /// Set the counter to zero.
    Reset,
    /// Set the counter to `value`.
    Update { value: u32 },
}

/// Why a buffer is not an instruction.
#[derive(Clone, Copy, Debug, PartialEq, Eq, Structural)]
pub enum DecodeError {
    /// The buffer has no bytes.
    EmptyInput,
    /// The first byte is none of the four tags.
    UnknownTag,
    /// The tag asks for a number, and fewer than four bytes follow it.
    TruncatedPayload,
}

/// Whether `tag` is one of the four tags.
pub open spec fn is_tag(tag: u8) -> bool {
    tag == TAG_INCREMENT || tag == TAG_DECREMENT || tag == TAG_RESET || tag == TAG_UPDATE
}

/// Whether a number follows `tag`.
pub open spec fn has_payload(tag: u8) -> bool {
    tag == TAG_INCREMENT || tag == TAG_DECREMENT || tag == TAG_UPDATE
}

/// The number that the four bytes behind the tag spell.
pub open spec fn payload(data: Seq<u8>) -> u32
    recommends
        data.len() >= 1 + U32_LEN,
{
    le_value(data.skip(1))
}

/// The instruction that a buffer holds, or the reason why it holds none.
pub open spec fn unpacked(data: Seq<u8>) -> Result<CounterInstruction, DecodeError> {
    if data.len() == 0 {
        Err(DecodeError::EmptyInput)
    } else if !is_tag(data[0]) {
        Err(DecodeError::UnknownTag)
    } else if data[0] == TAG_RESET {
        Ok(CounterInstruction::Reset)
    } else if data.len() < 1 + U32_LEN {
        Err(DecodeError::TruncatedPayload)
    } else if data[0] == TAG_INCREMENT {
        Ok(CounterInstruction::Increment { amount: payload(data) })
    } else if data[0] == TAG_DECREMENT {
        Ok(CounterInstruction::Decrement { amount: payload(data) })
    } else {
        Ok(CounterInstruction::Update { value: payload(data) })
    }
}

impl CounterInstruction {
    /// Decodes an instruction from the front of `input`.
    ///
    /// An empty buffer, a first byte that is no tag, and a tag with fewer
    /// than four bytes behind it where it needs a number are the three ways
    /// to fail; every other buffer is the instruction that its tag names,
    /// with the number that follows the tag.
    pub fn unpack(input: &[u8]) -> (res: Result<CounterInstruction, DecodeError>)
        ensures
            res == unpacked(input@),
            res == Err::<CounterInstruction, DecodeError>(DecodeError::EmptyInput) <==> input@.len()
                == 0,
            res == Err::<CounterInstruction, DecodeError>(DecodeError::UnknownTag) <==> input@.len()
                > 0 && !is_tag(input@[0]),
            res == Err::<CounterInstruction, DecodeError>(DecodeError::TruncatedPayload) <==> 0
                < input@.len() < 1 + U32_LEN && has_payload(input@[0]),
    {
        if input.len() == 0 {
            return Err(DecodeError::EmptyInput);
        }
        let tag: u8 = input[0];
        if tag == TAG_RESET {
            return Ok(CounterInstruction::Reset);
        }
        if tag != TAG_INCREMENT && tag != TAG_DECREMENT && tag != TAG_UPDATE {
            return Err(DecodeError::UnknownTag);
        }
        let rest = slice_subrange(input, 1, input.len());
        assert(rest@ == input@.skip(1));
        match borsh_read_u32(rest) {
            None => Err(DecodeError::TruncatedPayload),
            Some(number) => {
                if tag == TAG_INCREMENT {
                    Ok(CounterInstruction::Increment { amount: number })
                } else if tag == TAG_DECREMENT {
                    Ok(CounterInstruction::Decrement { amount: number })
                } else {
                    Ok(CounterInstruction::Update { value: number })
                }
            },
        }
    }
}

/// Every buffer is one of three failures or one of four instructions, and
/// what it holds decides which. It decodes to `instr` only where its first
/// byte is the tag of `instr`, and then the number in `instr` is the one
/// behind the tag: no buffer decodes to another instruction than the one it
/// spells.
pub proof fn lemma_unpack_partition(data: Seq<u8>, instr: CounterInstruction)
    ensures
        unpacked(data) == Err::<CounterInstruction, DecodeError>(DecodeError::EmptyInput)
            <==> data.len() == 0,
        unpacked(data) == Err::<CounterInstruction, DecodeError>(DecodeError::UnknownTag)
            <==> data.len() > 0 && !is_tag(data[0]),
        unpacked(data) == Err::<CounterInstruction, DecodeError>(DecodeError::TruncatedPayload)
            <==> 0 < data.len() < 1 + U32_LEN && has_payload(data[0]),
        unpacked(data) == Ok::<CounterInstruction, DecodeError>(instr) <==> match instr {
            CounterInstruction::Increment { amount } => data.len() >= 1 + U32_LEN && data[0]
                == TAG_INCREMENT && amount == payload(data),
            CounterInstruction::Decrement { amount } => data.len() >= 1 + U32_LEN && data[0]
                == TAG_DECREMENT && amount == payload(data),
            CounterInstruction::Reset => data.len() >= 1 && data[0] == TAG_RESET,
            CounterInstruction::Update { value } => data.len() >= 1 + U32_LEN && data[0]
                == TAG_UPDATE && value == payload(data),
        },
{
}

} // verus!
