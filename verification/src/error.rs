//! Errors a frame operation can report. Every failure is local to the
//! operation that raised it and leaves the frame it was called on unchanged.

use vstd::prelude::*;

verus! {

/// What went wrong in a frame operation.
#[derive(Clone, Copy, PartialEq, Eq, Structural, Debug)]
pub enum Error {
    /// The buffer allocator refused the request: the frame's sizing metadata
    /// (format, sample count, channel layout) does not describe a valid,
    /// representable buffer.
    AllocationFailure,
    /// A copy was asked to write into a destination whose allocated storage
    /// does not match the source's shape.
    PreconditionViolation,
}

} // verus!
