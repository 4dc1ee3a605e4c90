use vstd::prelude::*;

pub mod error;
pub mod instructions;

use crate::error::CounterError;
use crate::instructions::CounterInstructions;
use crate::instructions::decode_spec;
use vstd::bytes::spec_u32_from_le_bytes;
use vstd::bytes::spec_u32_to_le_bytes;
use vstd::bytes::lemma_auto_spec_u32_to_from_le_bytes;
use vstd::bytes::u32_from_le_bytes;
use vstd::bytes::u32_to_le_bytes;

verus! {

/// The persisted state: one unsigned 32-bit counter, stored as the first four
/// bytes of an externally owned buffer in little-endian order. No other field
/// exists; bytes beyond offset 4 belong to the owner of the buffer.
#[derive(Debug, Clone, Copy, PartialEq, Eq, Structural)]
pub struct CounterAccount {
    pub counter: u32,
}

/// The transition function of the state machine: the counter an instruction
/// leaves, given the counter it found. Total and memoryless. `Increment`
/// wraps on unsigned 32-bit overflow; `Decrement` stops at zero; `Update`
/// overwrites; `Reset` clears.
pub open spec fn transition(counter: u32, instruction: CounterInstructions) -> u32 {
    match instruction {
        CounterInstructions::Increment(value) => if counter + value > u32::MAX {
            (counter + value - 0x1_0000_0000) as u32
        } else {
            (counter + value) as u32
        },
        CounterInstructions::Decrement(value) => if value <= counter {
            (counter - value) as u32
        } else {
            0u32
        },
        CounterInstructions::Update(value) => value,
        CounterInstructions::Reset => 0u32,
    }
}

/// What loading a state buffer yields: the little-endian counter in its first
/// four bytes, or an error when fewer than four exist. Bytes past the fourth
/// are ignored and are no fault.
pub open spec fn load_spec(buffer: Seq<u8>) -> Result<CounterAccount, CounterError> {
    if buffer.len() >= 4 {
        Ok(CounterAccount { counter: spec_u32_from_le_bytes(buffer.take(4)) })
    } else {
        Err(CounterError::BufferTooShort)
    }
}

/// What storing a counter leaves of a state buffer: its first four bytes
/// replaced by the counter's little-endian encoding and every later byte
/// untouched, or an error (and no change) when fewer than four bytes exist.
pub open spec fn store_spec(counter: u32, buffer: Seq<u8>) -> Result<Seq<u8>, CounterError> {
    if buffer.len() >= 4 {
        Ok(spec_u32_to_le_bytes(counter) + buffer.skip(4))
    } else {
        Err(CounterError::BufferTooShort)
    }
}

impl CounterAccount {
    /// Deserialize the counter from the first four bytes of the state buffer,
    /// exactly as `load_spec` reads them.
    pub fn load(buffer: &[u8]) -> (result: Result<CounterAccount, CounterError>)
        ensures
            result == load_spec(buffer@),
    {
        if buffer.len() < 4 {
            return Err(CounterError::BufferTooShort);
        }
        let counter = u32_from_le_bytes(&buffer[0..4]);
        Ok(CounterAccount { counter })
    }

    /// Apply one instruction to this counter: the pure transition of the
    /// state machine, free of panics for every counter and every value.
    pub fn apply(self, instruction: &CounterInstructions) -> (next: CounterAccount)
        ensures
            next.counter == transition(self.counter, *instruction),
    {
        match instruction {
            CounterInstructions::Increment(value) => CounterAccount {
                counter: self.counter.wrapping_add(*value),
            },
            CounterInstructions::Decrement(value) => {
                if *value <= self.counter {
                    CounterAccount { counter: self.counter - *value }
                } else {
                    CounterAccount { counter: 0 }
                }
            },
            CounterInstructions::Update(value) => CounterAccount { counter: *value },
            CounterInstructions::Reset => CounterAccount { counter: 0 },
        }
    }

    /// Serialize the counter into the first four bytes of the state buffer,
    /// in place. The write is all or nothing: a buffer under four bytes is
    /// left exactly as it was, and bytes past the fourth are never touched.
    pub fn store(&self, buffer: &mut Vec<u8>) -> (result: Result<(), CounterError>)
        ensures
            match store_spec(self.counter, old(buffer)@) {
                Ok(stored) => result == Ok::<(), CounterError>(()) && final(buffer)@ == stored,
                Err(e) => result == Err::<(), CounterError>(e) && final(buffer)@ == old(buffer)@,
            },
    {
        if buffer.len() < 4 {
            return Err(CounterError::BufferTooShort);
        }
        let bytes = u32_to_le_bytes(self.counter);
        buffer[0] = bytes[0];
        buffer[1] = bytes[1];
        buffer[2] = bytes[2];
        buffer[3] = bytes[3];
        proof {
            lemma_auto_spec_u32_to_from_le_bytes();
            assert(buffer@ =~= spec_u32_to_le_bytes(self.counter) + old(buffer)@.skip(4));
        }
        Ok(())
    }
}

/// What one whole invocation leaves of the state buffer: decode the
/// instruction, load the counter, take the transition, and re-encode the new
/// counter over the first four bytes. The first error wins, and an erring
/// invocation leaves no trace: the buffer the caller sees is unchanged.
pub open spec fn process_spec(state: Seq<u8>, instruction_data: Seq<u8>) -> Result<
    Seq<u8>,
    CounterError,
> {
    match decode_spec(instruction_data) {
        Err(e) => Err(e),
        Ok(instruction) => match load_spec(state) {
            Err(e) => Err(e),
            Ok(account) => store_spec(transition(account.counter, instruction), state),
        },
    }
}

/// One invocation of the counter state machine: decode `instruction_data`,
/// load the counter from `state`, apply the instruction and store the result
/// back into `state`. Atomic from the caller's point of view: on any error
/// the buffer is exactly what it was, and on success only its first four
/// bytes change.
pub fn process(state: &mut Vec<u8>, instruction_data: &[u8]) -> (result: Result<(), CounterError>)
    ensures
        match process_spec(old(state)@, instruction_data@) {
            Ok(stored) => result == Ok::<(), CounterError>(()) && final(state)@ == stored,
            Err(e) => result == Err::<(), CounterError>(e) && final(state)@ == old(state)@,
        },
{
    let instruction = match CounterInstructions::unpack(instruction_data) {
        Ok(instruction) => instruction,
        Err(e) => {
            return Err(e);
        },
    };
    let account = match CounterAccount::load(state.as_slice()) {
        Ok(account) => account,
        Err(e) => {
            return Err(e);
        },
    };
    let next = account.apply(&instruction);
    next.store(state)
}

/// From a zero counter, the decoded buffer `[0] ++ v1 as little-endian bytes`
/// is `Increment(v1)` and takes the counter to `v1`; the decoded buffer
/// `[1] ++ v2 as little-endian bytes` is `Decrement(v2)` and takes it on to
/// `v1 - v2` when `v2 <= v1`, and to zero otherwise.
pub proof fn lemma_increment_then_decrement_from_zero(v1: u32, v2: u32)
    ensures
        decode_spec(seq![0u8] + spec_u32_to_le_bytes(v1)) == Ok::<CounterInstructions, CounterError>(
            CounterInstructions::Increment(v1),
        ),
        transition(0, CounterInstructions::Increment(v1)) == v1,
        decode_spec(seq![1u8] + spec_u32_to_le_bytes(v2)) == Ok::<CounterInstructions, CounterError>(
            CounterInstructions::Decrement(v2),
        ),
        transition(
            transition(0, CounterInstructions::Increment(v1)),
            CounterInstructions::Decrement(v2),
        ) == if v2 <= v1 {
            (v1 - v2) as u32
        } else {
            0u32
        },
{
    lemma_auto_spec_u32_to_from_le_bytes();
    assert((seq![0u8] + spec_u32_to_le_bytes(v1)).subrange(1, 5) =~= spec_u32_to_le_bytes(v1));
    assert((seq![1u8] + spec_u32_to_le_bytes(v2)).subrange(1, 5) =~= spec_u32_to_le_bytes(v2));
}

/// Round trip: storing a counter into any buffer of at least four bytes and
/// loading from what that left yields exactly the counter that was stored.
pub proof fn lemma_store_load_round_trip(counter: u32, buffer: Seq<u8>)
    requires
        buffer.len() >= 4,
    ensures
        store_spec(counter, buffer) matches Ok(stored) && load_spec(stored) == Ok::<
            CounterAccount,
            CounterError,
        >(CounterAccount { counter }),
{
    lemma_auto_spec_u32_to_from_le_bytes();
    let stored = store_spec(counter, buffer).unwrap();
    assert(stored.take(4) =~= spec_u32_to_le_bytes(counter));
}

/// `Reset` is idempotent: it yields zero from any counter, and a second
/// `Reset` yields zero again.
pub proof fn lemma_reset_idempotent(counter: u32)
    ensures
        transition(counter, CounterInstructions::Reset) == 0,
        transition(
            transition(counter, CounterInstructions::Reset),
            CounterInstructions::Reset,
        ) == 0,
{
}

/// `Update(value)` is idempotent: it yields `value` from any counter, and a
/// second `Update(value)` yields `value` again.
pub proof fn lemma_update_idempotent(counter: u32, value: u32)
    ensures
        transition(counter, CounterInstructions::Update(value)) == value,
        transition(
            transition(counter, CounterInstructions::Update(value)),
            CounterInstructions::Update(value),
        ) == value,
{
}

} // verus!
