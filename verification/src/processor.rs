//! One invocation of the program: decode the instruction, read the counter,
//! apply the instruction, write the counter back.

use vstd::prelude::*;
use crate::instruction::{unpacked, CounterInstruction, DecodeError};
use crate::state::{
    decode_state, decoded_state, stored_state, write_state, CodecError, CounterAccount, STATE_LEN,
};

verus! {

/// Why an invocation changed nothing.
#[derive(Clone, Copy, Debug, PartialEq, Eq, Structural)]
pub enum Error {
    /// The instruction buffer is not an instruction.
    Decode(DecodeError),
    /// The state region does not hold a counter.
    State(CodecError),
}

/// The counter after an instruction.
pub open spec fn applied(current: CounterAccount, instr: CounterInstruction) -> CounterAccount {
    match instr {
        CounterInstruction::Increment { amount } => CounterAccount {
            counter: ((current.counter + amount) % 0x1_0000_0000) as u32,
        },
        CounterInstruction::Decrement { amount } => CounterAccount {
            counter: if amount >= current.counter {
                0
            } else {
                (current.counter - amount) as u32
            },
        },
        CounterInstruction::Reset => CounterAccount { counter: 0 },
        CounterInstruction::Update { value } => CounterAccount { counter: value },
    }
}

/// What an instruction does to a state region: the region after it, or the
/// reason why the region stays as it is.
pub open spec fn executed(region: Seq<u8>, instr: CounterInstruction) -> Result<
    Seq<u8>,
    CodecError,
> {
    match decoded_state(region) {
        Ok(current) => Ok(stored_state(region, applied(current, instr))),
        Err(e) => Err(e),
    }
}

/// What an invocation does to a state region: the region after it, or the
/// reason why the region stays as it is. The instruction buffer is looked at
/// first, so where both inputs are bad the error is that of the instruction.
pub open spec fn processed(region: Seq<u8>, data: Seq<u8>) -> Result<Seq<u8>, Error> {
    match unpacked(data) {
        Err(e) => Err(Error::Decode(e)),
        Ok(instr) => match executed(region, instr) {
            Ok(next) => Ok(next),
            Err(e) => Err(Error::State(e)),
        },
    }
}

/// Applies `instr` to `current`. Never fails: an increment wraps round at
/// 2^32, a decrement stops at zero.
pub fn apply(current: CounterAccount, instr: CounterInstruction) -> (next: CounterAccount)
    ensures
        next == applied(current, instr),
        match instr {
            CounterInstruction::Increment { amount } => next.counter == (current.counter + amount)
                % 0x1_0000_0000,
            CounterInstruction::Decrement { amount } => next.counter == vstd::math::max(
                current.counter - amount,
                0,
            ),
            CounterInstruction::Reset => next.counter == 0,
            CounterInstruction::Update { value } => next.counter == value,
        },
{
    match instr {
        CounterInstruction::Increment { amount } => CounterAccount {
            counter: current.counter.wrapping_add(amount),
        },
        CounterInstruction::Decrement { amount } => CounterAccount {
            counter: current.counter.saturating_sub(amount),
        },
        CounterInstruction::Reset => CounterAccount { counter: 0 },
        CounterInstruction::Update { value } => CounterAccount { counter: value },
    }
}

/// Runs a decoded instruction against the counter stored in `state`.
///
/// Fails exactly when `state` has fewer than four bytes, and then leaves it
/// as it is. Otherwise the first four bytes of `state` hold the new counter
/// and the rest of the region is as it was.
pub fn execute(state: &mut [u8], instr: CounterInstruction) -> (res: Result<(), CodecError>)
    ensures
        match executed(old(state)@, instr) {
            Ok(next) => res is Ok && final(state)@ == next,
            Err(e) => res == Err::<(), CodecError>(e) && final(state)@ == old(state)@,
        },
        res is Err <==> old(state)@.len() < STATE_LEN,
        final(state)@.len() == old(state)@.len(),
        forall|k: int| STATE_LEN <= k < old(state)@.len() ==> final(state)@[k] == old(state)@[k],
{
    let current = match decode_state(state) {
        Ok(current) => current,
        Err(e) => {
            return Err(e);
        },
    };
    let next = apply(current, instr);
    write_state(&next, state);
    Ok(())
}

/// Runs the instruction in `instruction_data` against the counter stored in
/// `state`.
///
/// On success the first four bytes of `state` hold the new counter and the
/// rest of the region is as it was. On failure nothing in `state` has
/// changed.
pub fn process_instruction(state: &mut [u8], instruction_data: &[u8]) -> (res: Result<(), Error>)
    ensures
        match processed(old(state)@, instruction_data@) {
            Ok(next) => res is Ok && final(state)@ == next,
            Err(e) => res == Err::<(), Error>(e) && final(state)@ == old(state)@,
        },
        res is Ok <==> unpacked(instruction_data@) is Ok && old(state)@.len() >= STATE_LEN,
        final(state)@.len() == old(state)@.len(),
        forall|k: int| STATE_LEN <= k < old(state)@.len() ==> final(state)@[k] == old(state)@[k],
{
    let instr = match CounterInstruction::unpack(instruction_data) {
        Ok(instr) => instr,
        Err(e) => {
            return Err(Error::Decode(e));
        },
    };
    match execute(state, instr) {
        Ok(()) => Ok(()),
        Err(e) => Err(Error::State(e)),
    }
}

/// A decrement takes `amount` away where the counter holds that much, and
/// leaves zero where it does not: the counter never wraps below zero.
pub proof fn lemma_decrement_floor(current: CounterAccount, amount: u32)
    ensures
        applied(current, CounterInstruction::Decrement { amount }).counter == vstd::math::max(
            current.counter - amount,
            0,
        ),
        amount > current.counter ==> applied(
            current,
            CounterInstruction::Decrement { amount },
        ).counter == 0,
{
}

/// An increment adds modulo 2^32: past the largest counter it starts again at
/// zero.
pub proof fn lemma_increment_wraps(current: CounterAccount, amount: u32)
    ensures
        applied(current, CounterInstruction::Increment { amount }).counter == (current.counter
            + amount) % 0x1_0000_0000,
        current.counter + amount <= u32::MAX ==> applied(
            current,
            CounterInstruction::Increment { amount },
        ).counter == current.counter + amount,
        current.counter + amount > u32::MAX ==> applied(
            current,
            CounterInstruction::Increment { amount },
        ).counter == current.counter + amount - 0x1_0000_0000,
{
}

/// A reset gives zero, and a second reset changes nothing.
pub proof fn lemma_reset_idempotent(current: CounterAccount)
    ensures
        applied(current, CounterInstruction::Reset).counter == 0,
        applied(applied(current, CounterInstruction::Reset), CounterInstruction::Reset) == applied(
            current,
            CounterInstruction::Reset,
        ),
{
}

/// An update gives the value it carries, whatever the counter held.
pub proof fn lemma_update_absolute(a: CounterAccount, b: CounterAccount, value: u32)
    ensures
        applied(a, CounterInstruction::Update { value }).counter == value,
        applied(a, CounterInstruction::Update { value }) == applied(
            b,
            CounterInstruction::Update { value },
        ),
{
}

/// An invocation that fails leaves no trace, and one that succeeds changes
/// the first four bytes only: the region keeps its length, the bytes behind
/// the fourth stay, and the region then stores the counter that the
/// instruction gives.
pub proof fn lemma_processed_region(region: Seq<u8>, data: Seq<u8>)
    ensures
        processed(region, data) is Ok <==> unpacked(data) is Ok && region.len() >= STATE_LEN,
        processed(region, data) matches Ok(next) ==> {
            &&& next.len() == region.len()
            &&& next.skip(STATE_LEN as int) == region.skip(STATE_LEN as int)
            &&& decoded_state(next) == Ok::<CounterAccount, CodecError>(
                applied(decoded_state(region).unwrap(), unpacked(data).unwrap()),
            )
        },
{
    if processed(region, data) is Ok {
        crate::state::lemma_stored_state_round_trip(
            region,
            applied(decoded_state(region).unwrap(), unpacked(data).unwrap()),
        );
    }
}

} // verus!
