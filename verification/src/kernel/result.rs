//! The unified kernel error type.
//!
//! Low-level sources and sinks report sentinel error values (`EndOfFile`,
//! `OutOfBounds`, `FormatError`); peripheral drivers report an opaque fault
//! from their bring-up. All of them map losslessly into `KernelError`, so a
//! call site can unify heterogeneous failures into one error value.

use vstd::prelude::*;

use crate::kernel::io::{EndOfFile, FormatError, OutOfBounds};

verus! {

/// Sum of every error the kernel can surface.
#[derive(Clone, Copy, Debug, PartialEq, Eq, Structural)]
pub enum KernelError {
    /// A source or sink reported no progress when more was required.
    EndOfFile,
    /// An access outside the bounds of a buffer or register window.
    OutOfBounds,
    /// Formatted output failed for a reason other than an I/O error.
    FormatError,
    /// A peripheral driver failed its one-time bring-up.
    DriverFault,
}

/// Outcome of a kernel operation that yields no value.
pub type KernelResult = Result<(), KernelError>;

impl KernelError {
    /// Explicit conversion: a source that reported no progress.
    pub fn from_end_of_file(e: EndOfFile) -> (r: KernelError)
        ensures
            r == KernelError::EndOfFile,
    {
        KernelError::EndOfFile
    }

    /// Explicit conversion: an out-of-bounds access.
    pub fn from_out_of_bounds(e: OutOfBounds) -> (r: KernelError)
        ensures
            r == KernelError::OutOfBounds,
    {
        KernelError::OutOfBounds
    }

    /// Explicit conversion: a formatter failure that carried no I/O error.
    pub fn from_format_error(e: FormatError) -> (r: KernelError)
        ensures
            r == KernelError::FormatError,
    {
        KernelError::FormatError
    }
}

} // verus!
