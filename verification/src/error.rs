use vstd::prelude::*;

verus! {

/// The error taxonomy of an inspection.
///
/// Only two failures abort an inspection: the status probe failing (an
/// operating-system error) and a path that cannot be carried as a native
/// C string. Every other subsystem (identity resolution, classification,
/// dependency extraction) degrades to an absent result instead of raising
/// an error.
#[derive(Debug, Clone, Copy, PartialEq, Eq, Structural)]
pub enum Error {
    /// The raw status call failed and no OS error code was available.
    Lstat,
    /// An interior zero byte was found while building a C path string.
    InternalNulByte,
    /// An OS call failed; carries the underlying OS error code.
    Io(i32),
}

} // verus!
