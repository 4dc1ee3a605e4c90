use vstd::prelude::*;

use crate::error::CounterError;
use vstd::bytes::spec_u32_from_le_bytes;
use vstd::bytes::u32_from_le_bytes;

verus! {

/// An instruction decoded from a raw byte buffer. Byte 0 of the buffer is the
/// tag: 0 for `Increment`, 1 for `Decrement`, 2 for `Update`, 3 for `Reset`.
/// The tags that carry a value read it from bytes 1..5 as a little-endian
/// unsigned 32-bit integer; `Reset` carries nothing.
#[derive(Debug, Clone, Copy, PartialEq, Eq, Structural)]
pub enum CounterInstructions {
    /// Add the value to the counter, wrapping on unsigned 32-bit overflow.
    Increment(u32),
    /// Subtract the value from the counter, stopping at zero.
    Decrement(u32),
    /// Overwrite the counter with the value.
    Update(u32),
    /// Set the counter to zero.
    Reset,
}

/// What decoding an instruction buffer yields: the unique reading of the wire
/// format. An empty buffer, or a value-carrying tag with fewer than 4 bytes
/// after it, is a malformed payload; a tag above 3 is unrecognized; bytes past
/// the ones a tag consumes are ignored.
pub open spec fn decode_spec(data: Seq<u8>) -> Result<CounterInstructions, CounterError> {
    if data.len() == 0 {
        Err(CounterError::MalformedPayload)
    } else if data[0] == 0 || data[0] == 1 || data[0] == 2 {
        if data.len() < 5 {
            Err(CounterError::MalformedPayload)
        } else {
            let value = spec_u32_from_le_bytes(data.subrange(1, 5));
            if data[0] == 0 {
                Ok(CounterInstructions::Increment(value))
            } else if data[0] == 1 {
                Ok(CounterInstructions::Decrement(value))
            } else {
                Ok(CounterInstructions::Update(value))
            }
        }
    } else if data[0] == 3 {
        Ok(CounterInstructions::Reset)
    } else {
        Err(CounterError::UnrecognizedInstruction)
    }
}

impl CounterInstructions {
    /// Decode one instruction from a raw byte buffer. Pure and single-pass:
    /// the result is exactly the reading that `decode_spec` gives, and no
    /// input makes it panic.
    pub fn unpack(input: &[u8]) -> (result: Result<CounterInstructions, CounterError>)
        ensures
            result == decode_spec(input@),
    {
        if input.len() == 0 {
            return Err(CounterError::MalformedPayload);
        }
        let tag = input[0];
        if tag <= 2 {
            if input.len() < 5 {
                return Err(CounterError::MalformedPayload);
            }
            let value = u32_from_le_bytes(&input[1..5]);
            if tag == 0 {
                Ok(CounterInstructions::Increment(value))
            } else if tag == 1 {
                Ok(CounterInstructions::Decrement(value))
            } else {
                Ok(CounterInstructions::Update(value))
            }
        } else if tag == 3 {
            Ok(CounterInstructions::Reset)
        } else {
            Err(CounterError::UnrecognizedInstruction)
        }
    }
}

/// Decode failure is exact: an empty buffer fails as a malformed payload, a
/// value-carrying tag (0, 1 or 2) with fewer than 4 bytes after it fails as a
/// malformed payload, and any tag above 3 fails as unrecognized.
pub proof fn lemma_decode_failures(data: Seq<u8>)
    ensures
        data.len() == 0 ==> decode_spec(data) == Err::<CounterInstructions, CounterError>(
            CounterError::MalformedPayload,
        ),
        data.len() >= 1 && (data[0] == 0 || data[0] == 1 || data[0] == 2) && data.len() < 5
            ==> decode_spec(data) == Err::<CounterInstructions, CounterError>(
            CounterError::MalformedPayload,
        ),
        data.len() >= 1 && data[0] > 3 ==> decode_spec(data) == Err::<
            CounterInstructions,
            CounterError,
        >(CounterError::UnrecognizedInstruction),
{
}

} // verus!
