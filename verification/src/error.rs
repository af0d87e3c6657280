use vstd::prelude::*;

verus! {

/// Why the machine refused an operation.
///
/// Every variant is fatal for the operation that reports it: the machine is left exactly as it
/// was before the call, and nothing is retried on its own.
#[derive(Clone, Copy, Debug, PartialEq, Eq, Structural)]
pub enum EmuError {
    /// A program of `len` bytes does not fit between `0x200` and the end of memory.
    ProgramTooLarge { len: usize },
    /// `index` does not name one of the sixteen keys.
    KeyOutOfRange { index: usize },
    /// An instruction fetch or a memory-indexed instruction reached `addr`, the first address
    /// of its range that lies past the end of memory.
    MemoryOutOfBounds { addr: usize },
    /// A call was made with sixteen return addresses already on the stack.
    StackOverflow,
    /// A return was made with no return address on the stack.
    StackUnderflow,
    /// The word `opcode`, fetched at `pc`, is not an instruction of the machine.
    UnimplementedOpcode { opcode: u16, pc: u16 },
}

} // verus!
