use vstd::prelude::*;

verus! {

/// Everything that can go wrong while handling one invocation: decoding the
/// instruction buffer, or moving the counter in and out of the state buffer.
/// Every error is terminal for the invocation; none leaves a partial write
/// behind.
#[derive(Debug, Clone, Copy, PartialEq, Eq, Structural)]
pub enum CounterError {
    /// The instruction buffer's tag byte names no known instruction.
    UnrecognizedInstruction,
    /// The instruction buffer ends before the 4-byte value its tag requires,
    /// or is empty.
    MalformedPayload,
    /// The state buffer holds fewer than the 4 bytes of the counter.
    BufferTooShort,
}

} // verus!
