use vstd::prelude::*;

verus! {

/// Everything that can go wrong while instantiating a module or executing a
/// call. Every failure is surfaced as one of these kinds; the machine never
/// panics.
#[derive(Debug, Clone, Copy, PartialEq, Eq, Structural)]
pub enum Error {
    /// A call named an export that the module's export table does not hold.
    ExportNotFound,
    /// The export resolved to a description that is not a function.
    UnsupportedExportKind,
    /// The function index resolved from an export is out of range in the store.
    FunctionNotFound,
    /// Instantiation needed the type section and the module has none.
    MissingSection,
    /// A function's type index points outside the type section.
    InvalidTypeIndex,
    /// An arithmetic instruction's operands are missing or of the wrong kind.
    TypeMismatch,
    /// A local access named a slot past the frame's declared locals.
    LocalIndexOutOfRange,
    /// Dispatch met an instruction variant with no defined behavior.
    UnsupportedInstruction,
    /// A function with a result ended with nothing left on the operand stack.
    MissingReturnValue,
    /// Unwinding needed a result value and the operand stack was empty.
    StackUnderflow,
}

} // verus!
