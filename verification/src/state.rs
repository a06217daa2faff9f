//! The counter and the bytes that store it.
//!
//! The stored form is the counter as a little-endian `u32` in the first four
//! bytes of a region. A region may be wider than that: the bytes behind the
//! fourth mean nothing, and are never changed.

use vstd::prelude::*;
use crate::wire::{
    borsh_read_u32, borsh_u32_to_vec, le_bytes, lemma_le_bytes_of_value, lemma_le_value_of_bytes,
    read_u32,
};

verus! {

/// Number of bytes that the stored counter takes.
pub const STATE_LEN: usize = 4;

/// The counter that the program keeps.
#[derive(Clone, Copy, Debug, PartialEq, Eq, Structural)]
pub struct CounterAccount {
    pub counter: u32,
}

/// Why a region does not hold a counter.
#[derive(Clone, Copy, Debug, PartialEq, Eq, Structural)]
pub enum CodecError {
    /// The region has fewer than four bytes.
    UndersizedRegion,
}

/// The counter that a region stores, or the reason why it stores none.
pub open spec fn decoded_state(region: Seq<u8>) -> Result<CounterAccount, CodecError> {
    match read_u32(region) {
        Some(counter) => Ok(CounterAccount { counter }),
        None => Err(CodecError::UndersizedRegion),
    }
}

/// The four bytes that store a counter.
pub open spec fn encoded_state(account: CounterAccount) -> Seq<u8> {
    le_bytes(account.counter)
}

/// A region after a counter was stored in it: the counter's four bytes, then
/// what the region held behind them.
pub open spec fn stored_state(region: Seq<u8>, account: CounterAccount) -> Seq<u8>
    recommends
        region.len() >= STATE_LEN,
{
    encoded_state(account) + region.skip(STATE_LEN as int)
}

/// Reads the counter from the first four bytes of `region`. Fails exactly
/// when the region has fewer than four bytes.
pub fn decode_state(region: &[u8]) -> (res: Result<CounterAccount, CodecError>)
    ensures
        res == decoded_state(region@),
        res is Err <==> region@.len() < STATE_LEN,
{
    match borsh_read_u32(region) {
        Some(counter) => Ok(CounterAccount { counter }),
        None => Err(CodecError::UndersizedRegion),
    }
}

/// The four bytes that store `account`.
pub fn encode_state(account: &CounterAccount) -> (bytes: Vec<u8>)
    ensures
        bytes@ == encoded_state(*account),
        bytes@.len() == STATE_LEN,
{
    borsh_u32_to_vec(account.counter).unwrap()
}

/// Stores `account` in the first four bytes of `region` and leaves the rest
/// of the region as it was.
pub fn write_state(account: &CounterAccount, region: &mut [u8])
    requires
        old(region)@.len() >= STATE_LEN,
    ensures
        final(region)@ == stored_state(old(region)@, *account),
        final(region)@.len() == old(region)@.len(),
        decoded_state(final(region)@) == Ok::<CounterAccount, CodecError>(*account),
{
    let bytes = encode_state(account);
    let mut i: usize = 0;
    while i < STATE_LEN
        invariant
            i <= STATE_LEN,
            bytes@ == encoded_state(*account),
            region@.len() == old(region)@.len(),
            region@.len() >= STATE_LEN,
            forall|k: int| 0 <= k < i ==> region@[k] == bytes@[k],
            forall|k: int| i <= k < region@.len() ==> region@[k] == old(region)@[k],
        decreases STATE_LEN - i,
    {
        region[i] = bytes[i];
        i += 1;
    }
    proof {
        assert(region@ =~= stored_state(old(region)@, *account));
        lemma_le_value_of_bytes(account.counter, old(region)@.skip(STATE_LEN as int));
    }
}

/// Round trip: the bytes of a counter decode to that counter.
pub proof fn lemma_state_round_trip(account: CounterAccount)
    ensures
        decoded_state(encoded_state(account)) == Ok::<CounterAccount, CodecError>(account),
{
    lemma_le_value_of_bytes(account.counter, Seq::empty());
    assert(encoded_state(account) + Seq::<u8>::empty() =~= encoded_state(account));
}

/// Round trip through a region: after a counter was stored in a region of
/// four bytes or more, the region decodes to that counter, and the bytes
/// behind the fourth are the ones it held before.
pub proof fn lemma_stored_state_round_trip(region: Seq<u8>, account: CounterAccount)
    requires
        region.len() >= STATE_LEN,
    ensures
        stored_state(region, account).len() == region.len(),
        decoded_state(stored_state(region, account)) == Ok::<CounterAccount, CodecError>(account),
        stored_state(region, account).skip(STATE_LEN as int) == region.skip(STATE_LEN as int),
{
    lemma_le_value_of_bytes(account.counter, region.skip(STATE_LEN as int));
    assert(stored_state(region, account).skip(STATE_LEN as int) =~= region.skip(STATE_LEN as int));
}

/// The other way round: a region that decodes to a counter starts with the
/// four bytes of that counter, so storing the counter it already holds
/// changes nothing.
pub proof fn lemma_decoded_state_bytes(region: Seq<u8>, account: CounterAccount)
    requires
        decoded_state(region) == Ok::<CounterAccount, CodecError>(account),
    ensures
        region.len() >= STATE_LEN,
        encoded_state(account) == region.subrange(0, STATE_LEN as int),
        stored_state(region, account) == region,
{
    lemma_le_bytes_of_value(region);
    assert(stored_state(region, account) =~= region);
}

} // verus!
