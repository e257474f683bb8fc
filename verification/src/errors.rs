use vstd::prelude::*;

verus! {

/// Every failure the library can report to its caller.
///
/// The acquisition failures (`EnumerationFailure`, `AccessDenied`) and the
/// memory-operation failures (`ReadFailure`, `WriteFailure`) carry the raw
/// error code the operating system reported; the variant itself names the
/// failing operation. `ProcessNotFound` is the normal outcome of looking for
/// a process that is not running, distinct from an enumeration failure.
#[derive(Clone, Copy, Debug, PartialEq, Eq, Structural)]
pub enum GamecheatError {
    /// Enumeration succeeded but no process carries the requested name.
    ProcessNotFound,
    /// The process snapshot could not be created or iterated.
    EnumerationFailure { os_error: u32 },
    /// A handle to the matched process could not be opened.
    AccessDenied { os_error: u32 },
    /// The opened process has no loaded module with the requested name.
    ModuleNotFound,
    /// An OS read failed outright or transferred fewer bytes than requested.
    ReadFailure { os_error: u32 },
    /// An OS write failed outright or transferred fewer bytes than requested.
    WriteFailure { os_error: u32 },
    /// A composite addition would exceed the range of the stored value.
    ArithmeticOverflow,
    /// A composite subtraction would fall below zero.
    ArithmeticUnderflow,
}

} // verus!
