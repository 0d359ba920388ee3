use vstd::prelude::*;

verus! {

/// One executable opcode in decoded form. The interpreter gives defined
/// behavior to numeric add, local access, and block/function end; every other
/// variant is the extension point and is dispatched to a recoverable
/// [`crate::error::Error::UnsupportedInstruction`].
#[derive(Debug, Clone, Copy, PartialEq, Eq, Structural)]
pub enum Instruction {
    /// Pop two 32-bit operands, push their sum modulo 2^32.
    I32Add,
    /// Push a copy of the local at the given index.
    LocalGet(u32),
    /// End of the current block or function body: unwind the frame.
    End,
    /// Invoke the function at the given index. Decoded but not yet
    /// implemented by the dispatch loop.
    Call(u32),
}

} // verus!
