//! Sample formats: the numeric encoding of one audio sample, and its
//! translation to and from the native integer format code stored in a frame.

use vstd::prelude::*;

verus! {

/// How samples of the several channels are laid out in memory: interleaved in
/// one plane (packed) or one plane per channel (planar).
#[derive(Clone, Copy, PartialEq, Eq, Structural, Debug)]
pub enum SampleType {
    Packed,
    Planar,
}

/// The numeric encoding of one audio sample: bit width, integer or floating
/// point, and packed or planar layout. `Unset` is the sentinel that a
/// freshly allocated frame carries.
#[derive(Clone, Copy, PartialEq, Eq, Structural, Debug)]
pub enum Sample {
    Unset,
    U8(SampleType),
    I16(SampleType),
    I32(SampleType),
    I64(SampleType),
    F32(SampleType),
    F64(SampleType),
}

/// The native integer code of a sample format; `Unset` maps to the sentinel -1.
pub open spec fn spec_code_of(s: Sample) -> int {
    match s {
        Sample::Unset => -1,
        Sample::U8(SampleType::Packed) => 0,
        Sample::I16(SampleType::Packed) => 1,
        Sample::I32(SampleType::Packed) => 2,
        Sample::F32(SampleType::Packed) => 3,
        Sample::F64(SampleType::Packed) => 4,
        Sample::U8(SampleType::Planar) => 5,
        Sample::I16(SampleType::Planar) => 6,
        Sample::I32(SampleType::Planar) => 7,
        Sample::F32(SampleType::Planar) => 8,
        Sample::F64(SampleType::Planar) => 9,
        Sample::I64(SampleType::Packed) => 10,
        Sample::I64(SampleType::Planar) => 11,
    }
}

/// The sample format a native integer code denotes. Codes outside the known
/// enumeration (including the sentinel -1) read back as `Unset`: unknown codes
/// are a soft failure, kept for compatibility with format additions.
pub open spec fn spec_sample_of(code: int) -> Sample {
    if code == 0 {
        Sample::U8(SampleType::Packed)
    } else if code == 1 {
        Sample::I16(SampleType::Packed)
    } else if code == 2 {
        Sample::I32(SampleType::Packed)
    } else if code == 3 {
        Sample::F32(SampleType::Packed)
    } else if code == 4 {
        Sample::F64(SampleType::Packed)
    } else if code == 5 {
        Sample::U8(SampleType::Planar)
    } else if code == 6 {
        Sample::I16(SampleType::Planar)
    } else if code == 7 {
        Sample::I32(SampleType::Planar)
    } else if code == 8 {
        Sample::F32(SampleType::Planar)
    } else if code == 9 {
        Sample::F64(SampleType::Planar)
    } else if code == 10 {
        Sample::I64(SampleType::Packed)
    } else if code == 11 {
        Sample::I64(SampleType::Planar)
    } else {
        Sample::Unset
    }
}

/// How many bytes one sample of this format occupies; 0 for the sentinel.
pub open spec fn spec_bytes_of(s: Sample) -> nat {
    match s {
        Sample::Unset => 0,
        Sample::U8(_) => 1,
        Sample::I16(_) => 2,
        Sample::I32(_) => 4,
        Sample::I64(_) => 8,
        Sample::F32(_) => 4,
        Sample::F64(_) => 8,
    }
}

/// Whether this format stores each channel in a plane of its own.
pub open spec fn spec_is_planar(s: Sample) -> bool {
    match s {
        Sample::Unset => false,
        Sample::U8(t) => t == SampleType::Planar,
        Sample::I16(t) => t == SampleType::Planar,
        Sample::I32(t) => t == SampleType::Planar,
        Sample::I64(t) => t == SampleType::Planar,
        Sample::F32(t) => t == SampleType::Planar,
        Sample::F64(t) => t == SampleType::Planar,
    }
}

/// Translating a supported format to its native code and back returns the
/// same format; the sentinel code reads back as `Unset`.
pub proof fn lemma_code_round_trip(s: Sample)
    ensures
        spec_sample_of(spec_code_of(s)) == s,
        spec_sample_of(-1) == Sample::Unset,
{
}

impl Sample {
    /// The format a native integer code denotes; unknown codes yield `Unset`.
    pub fn from_code(code: i32) -> (s: Sample)
        ensures
            s == spec_sample_of(code as int),
    {
        if code == 0 {
            Sample::U8(SampleType::Packed)
        } else if code == 1 {
            Sample::I16(SampleType::Packed)
        } else if code == 2 {
            Sample::I32(SampleType::Packed)
        } else if code == 3 {
            Sample::F32(SampleType::Packed)
        } else if code == 4 {
            Sample::F64(SampleType::Packed)
        } else if code == 5 {
            Sample::U8(SampleType::Planar)
        } else if code == 6 {
            Sample::I16(SampleType::Planar)
        } else if code == 7 {
            Sample::I32(SampleType::Planar)
        } else if code == 8 {
            Sample::F32(SampleType::Planar)
        } else if code == 9 {
            Sample::F64(SampleType::Planar)
        } else if code == 10 {
            Sample::I64(SampleType::Packed)
        } else if code == 11 {
            Sample::I64(SampleType::Planar)
        } else {
            Sample::Unset
        }
    }

    /// The native integer code of this format; `Unset` becomes the sentinel -1.
    pub fn code(&self) -> (c: i32)
        ensures
            c == spec_code_of(*self),
    {
        match *self {
            Sample::Unset => -1,
            Sample::U8(SampleType::Packed) => 0,
            Sample::I16(SampleType::Packed) => 1,
            Sample::I32(SampleType::Packed) => 2,
            Sample::F32(SampleType::Packed) => 3,
            Sample::F64(SampleType::Packed) => 4,
            Sample::U8(SampleType::Planar) => 5,
            Sample::I16(SampleType::Planar) => 6,
            Sample::I32(SampleType::Planar) => 7,
            Sample::F32(SampleType::Planar) => 8,
            Sample::F64(SampleType::Planar) => 9,
            Sample::I64(SampleType::Packed) => 10,
            Sample::I64(SampleType::Planar) => 11,
        }
    }

    /// How many bytes one sample of this format occupies; 0 for `Unset`.
    pub fn bytes(&self) -> (n: usize)
        ensures
            n == spec_bytes_of(*self),
    {
        match *self {
            Sample::Unset => 0,
            Sample::U8(_) => 1,
            Sample::I16(_) => 2,
            Sample::I32(_) => 4,
            Sample::I64(_) => 8,
            Sample::F32(_) => 4,
            Sample::F64(_) => 8,
        }
    }

    /// Whether this format stores each channel in a plane of its own.
    pub fn is_planar(&self) -> (r: bool)
        ensures
            r == spec_is_planar(*self),
    {
        match *self {
            Sample::Unset => false,
            Sample::U8(t) => matches!(t, SampleType::Planar),
            Sample::I16(t) => matches!(t, SampleType::Planar),
            Sample::I32(t) => matches!(t, SampleType::Planar),
            Sample::I64(t) => matches!(t, SampleType::Planar),
            Sample::F32(t) => matches!(t, SampleType::Planar),
            Sample::F64(t) => matches!(t, SampleType::Planar),
        }
    }
}

} // verus!
