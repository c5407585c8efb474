//! The frame handle: the one owner of a native-style media buffer, its
//! metadata fields, and the primitive operations the audio layer builds on —
//! empty allocation, raw field access, sized buffer allocation, and the two
//! halves of a deep copy (data and properties).

use vstd::prelude::*;

use crate::error::Error;
use crate::layout::{count_ones, layout_bits, ones, spec_layout_bits};
use crate::sample::{spec_bytes_of, spec_is_planar, spec_sample_of, Sample};

verus! {

/// The mathematical value of a frame: its metadata fields and the bytes of
/// its planes. Plane contents are `planes[i][j]`, the `j`-th byte of the
/// `i`-th plane; an unallocated frame has no planes.
#[verifier::ext_equal]
pub struct FrameModel {
    /// Native sample-format code; -1 is the "unset" sentinel.
    pub format_code: int,
    /// Channel-layout bitmask, stored verbatim.
    pub channel_layout: i64,
    /// Channel count as stored in the handle.
    pub channels: u16,
    /// Sample rate in Hz.
    pub rate: u32,
    /// Samples per channel this frame describes.
    pub sample_count: usize,
    /// Raw sample bytes, one sequence per plane.
    pub planes: Seq<Seq<u8>>,
}

impl FrameModel {
    /// The state of a freshly allocated frame: every field at its sentinel,
    /// no backing storage.
    pub open spec fn empty_frame() -> FrameModel {
        FrameModel {
            format_code: -1,
            channel_layout: 0,
            channels: 0,
            rate: 0,
            sample_count: 0,
            planes: Seq::empty(),
        }
    }
}

/// The channel count an allocation uses: the channels field when it is set,
/// otherwise the count of set bits in the channel-layout mask.
pub open spec fn spec_alloc_channels(m: FrameModel) -> nat {
    if m.channels != 0 {
        m.channels as nat
    } else {
        count_ones(spec_layout_bits(m.channel_layout))
    }
}

/// How many planes an allocation for `m` carries: one per channel for planar
/// formats, a single interleaved plane otherwise.
pub open spec fn spec_plane_count(m: FrameModel) -> nat {
    if spec_is_planar(spec_sample_of(m.format_code)) {
        spec_alloc_channels(m)
    } else {
        1
    }
}

/// How many bytes each allocated plane holds.
pub open spec fn spec_plane_len(m: FrameModel) -> nat {
    let bps = spec_bytes_of(spec_sample_of(m.format_code));
    if spec_is_planar(spec_sample_of(m.format_code)) {
        (m.sample_count * bps) as nat
    } else {
        (m.sample_count * spec_alloc_channels(m) * bps) as nat
    }
}

/// Total bytes an allocation for `m` holds: one sample per channel for each
/// of the `sample_count` sample instants.
pub open spec fn spec_total_bytes(m: FrameModel) -> nat {
    (m.sample_count * spec_alloc_channels(m) * spec_bytes_of(spec_sample_of(m.format_code))) as nat
}

/// Whether the sizing metadata of `m` describes a buffer the allocator will
/// grant: a set format, a positive sample count, at least one channel, and a
/// total size within the native size field's signed 32-bit range.
pub open spec fn spec_alloc_ok(m: FrameModel) -> bool {
    &&& spec_sample_of(m.format_code) != Sample::Unset
    &&& m.sample_count > 0
    &&& spec_alloc_channels(m) > 0
    &&& spec_total_bytes(m) <= 0x7fff_ffff
}

/// The planes a fresh allocation for `m` carries: all bytes zeroed.
pub open spec fn spec_alloc_planes(m: FrameModel) -> Seq<Seq<u8>> {
    Seq::new(spec_plane_count(m), |i: int| Seq::new(spec_plane_len(m), |j: int| 0u8))
}

/// The state of `m` after a successful buffer allocation: planes sized from
/// the metadata, and a channels field filled in from the layout mask when it
/// was unset.
pub open spec fn spec_allocated(m: FrameModel) -> FrameModel {
    FrameModel {
        channels: spec_alloc_channels(m) as u16,
        planes: spec_alloc_planes(m),
        ..m
    }
}

/// A zero-filled plane of `n` bytes.
fn zero_plane(n: usize) -> (v: Vec<u8>)
    ensures
        v@ == Seq::new(n as nat, |j: int| 0u8),
{
    let mut v: Vec<u8> = Vec::new();
    let mut i: usize = 0;
    while i < n
        invariant
            i <= n,
            v@ == Seq::new(i as nat, |j: int| 0u8),
        decreases n - i,
    {
        v.push(0);
        i = i + 1;
        proof {
            assert(v@ =~= Seq::new(i as nat, |j: int| 0u8));
        }
    }
    v
}

/// A frame handle. It exclusively owns its buffer: there is no shallow copy,
/// moving it transfers ownership, and dropping it releases the storage.
pub struct Frame {
    format_code: i32,
    channel_layout: i64,
    channels: u16,
    rate: u32,
    sample_count: usize,
    planes: Vec<Vec<u8>>,
}

impl View for Frame {
    type V = FrameModel;

    closed spec fn view(&self) -> FrameModel {
        FrameModel {
            format_code: self.format_code as int,
            channel_layout: self.channel_layout,
            channels: self.channels,
            rate: self.rate,
            sample_count: self.sample_count,
            planes: self.planes@.map_values(|p: Vec<u8>| p@),
        }
    }
}

impl Frame {
    /// A fresh handle with empty metadata and no backing storage.
    pub fn allocate_empty() -> (f: Frame)
        ensures
            f@ == FrameModel::empty_frame(),
    {
        let f = Frame {
            format_code: -1,
            channel_layout: 0,
            channels: 0,
            rate: 0,
            sample_count: 0,
            planes: Vec::new(),
        };
        proof {
            assert(f@.planes =~= Seq::<Seq<u8>>::empty());
            assert(f@ =~= FrameModel::empty_frame());
        }
        f
    }

    pub(crate) fn format_code(&self) -> (c: i32)
        ensures
            c as int == self@.format_code,
    {
        self.format_code
    }

    pub(crate) fn set_format_code(&mut self, c: i32)
        ensures
            final(self)@ == (FrameModel { format_code: c as int, ..old(self)@ }),
    {
        self.format_code = c;
        proof {
            assert(final(self)@ =~= (FrameModel { format_code: c as int, ..old(self)@ }));
        }
    }

    pub(crate) fn channel_layout(&self) -> (v: i64)
        ensures
            v == self@.channel_layout,
    {
        self.channel_layout
    }

    pub(crate) fn set_channel_layout(&mut self, v: i64)
        ensures
            final(self)@ == (FrameModel { channel_layout: v, ..old(self)@ }),
    {
        self.channel_layout = v;
        proof {
            assert(final(self)@ =~= (FrameModel { channel_layout: v, ..old(self)@ }));
        }
    }

    pub(crate) fn channels(&self) -> (v: u16)
        ensures
            v == self@.channels,
    {
        self.channels
    }

    pub(crate) fn set_channels(&mut self, v: u16)
        ensures
            final(self)@ == (FrameModel { channels: v, ..old(self)@ }),
    {
        self.channels = v;
        proof {
            assert(final(self)@ =~= (FrameModel { channels: v, ..old(self)@ }));
        }
    }

    pub(crate) fn rate(&self) -> (v: u32)
        ensures
            v == self@.rate,
    {
        self.rate
    }

    pub(crate) fn set_rate(&mut self, v: u32)
        ensures
            final(self)@ == (FrameModel { rate: v, ..old(self)@ }),
    {
        self.rate = v;
        proof {
            assert(final(self)@ =~= (FrameModel { rate: v, ..old(self)@ }));
        }
    }

    pub(crate) fn sample_count(&self) -> (v: usize)
        ensures
            v == self@.sample_count,
    {
        self.sample_count
    }

    /// The native field behind the sample count is a signed 32-bit quantity:
    /// larger values cannot be represented and are a caller error.
    pub(crate) fn set_sample_count(&mut self, v: usize)
        requires
            v <= 0x7fff_ffff,
        ensures
            final(self)@ == (FrameModel { sample_count: v, ..old(self)@ }),
    {
        self.sample_count = v;
        proof {
            assert(final(self)@ =~= (FrameModel { sample_count: v, ..old(self)@ }));
        }
    }

    /// Allocates backing storage sized to the current metadata, with no
    /// padding beyond the samples themselves (1-byte alignment). Succeeds
    /// exactly when the metadata describes a valid buffer; on failure the
    /// frame is left unchanged.
    pub(crate) fn allocate_buffer(&mut self) -> (r: Result<(), Error>)
        ensures
            r is Ok <==> spec_alloc_ok(old(self)@),
            r is Ok ==> final(self)@ == spec_allocated(old(self)@),
            r is Err ==> final(self)@ == old(self)@ && r == Result::<(), Error>::Err(
                Error::AllocationFailure,
            ),
    {
        let format = Sample::from_code(self.format_code);
        let bps = format.bytes();
        if bps == 0 {
            return Err(Error::AllocationFailure);
        }
        let ch: u16 = if self.channels != 0 {
            self.channels
        } else {
            ones(layout_bits(self.channel_layout))
        };
        if ch == 0 {
            return Err(Error::AllocationFailure);
        }
        if self.sample_count == 0 || self.sample_count > 0x7fff_ffff {
            proof {
                if self.sample_count > 0x7fff_ffff {
                    assert(spec_total_bytes(self@) >= self@.sample_count) by (nonlinear_arith)
                        requires
                            spec_total_bytes(self@) == self@.sample_count * spec_alloc_channels(
                                self@,
                            ) * spec_bytes_of(spec_sample_of(self@.format_code)),
                            spec_alloc_channels(self@) >= 1,
                            spec_bytes_of(spec_sample_of(self@.format_code)) >= 1,
                    ;
                }
            }
            return Err(Error::AllocationFailure);
        }
        let sc64: u64 = self.sample_count as u64;
        let ch64: u64 = ch as u64;
        let bps64: u64 = bps as u64;
        assert(sc64 * ch64 <= 0x7fff_ffff * 0xffff && sc64 * ch64 * bps64 <= 0x7fff_ffff * 0xffff
            * 8) by (nonlinear_arith)
            requires
                sc64 <= 0x7fff_ffff,
                ch64 <= 0xffff,
                bps64 <= 8,
        ;
        let total: u64 = sc64 * ch64 * bps64;
        assert(total == spec_total_bytes(self@));
        if total > 0x7fff_ffff {
            return Err(Error::AllocationFailure);
        }
        let planar = format.is_planar();
        let plane_count: usize = if planar {
            ch as usize
        } else {
            1
        };
        let plane_len: usize = if planar {
            assert(self@.sample_count * (bps as nat) <= total) by (nonlinear_arith)
                requires
                    total == self@.sample_count * (ch as nat) * (bps as nat),
                    ch >= 1,
                    self@.sample_count >= 0,
                    bps >= 0,
            ;
            self.sample_count * bps
        } else {
            total as usize
        };
        assert(plane_count as nat == spec_plane_count(self@));
        assert(plane_len as nat == spec_plane_len(self@));
        let mut planes: Vec<Vec<u8>> = Vec::new();
        let mut i: usize = 0;
        while i < plane_count
            invariant
                i <= plane_count,
                planes@.len() == i,
                forall|k: int|
                    0 <= k < i ==> planes@[k]@ == Seq::new(plane_len as nat, |j: int| 0u8),
            decreases plane_count - i,
        {
            planes.push(zero_plane(plane_len));
            i = i + 1;
        }
        self.channels = ch;
        self.planes = planes;
        proof {
            assert(final(self)@.planes =~~= spec_alloc_planes(old(self)@));
            assert(final(self)@ =~~= spec_allocated(old(self)@));
        }
        Ok(())
    }

    /// Whether `other`'s storage has the same shape as this frame's, and the
    /// sizing metadata agrees: the precondition of a data copy.
    pub(crate) fn compatible_with(&self, other: &Frame) -> (r: bool)
        ensures
            r == spec_compatible(self@, other@),
    {
        if self.format_code != other.format_code || self.channel_layout != other.channel_layout
            || self.channels != other.channels || self.sample_count != other.sample_count
            || self.planes.len() != other.planes.len() {
            return false;
        }
        let n = self.planes.len();
        let mut i: usize = 0;
        while i < n
            invariant
                i <= n,
                n == self@.planes.len(),
                n == other@.planes.len(),
                forall|k: int| 0 <= k < i ==> self@.planes[k].len() == other@.planes[k].len(),
            decreases n - i,
        {
            if self.planes[i].len() != other.planes[i].len() {
                proof {
                    assert(self@.planes[i as int].len() != other@.planes[i as int].len());
                }
                return false;
            }
            i = i + 1;
        }
        true
    }

    /// Copies the plane bytes of `src` into this frame, plane by plane,
    /// byte-exact. The destination's storage must already match the source's
    /// shape; metadata is untouched.
    pub(crate) fn copy_data_from(&mut self, src: &Frame)
        requires
            spec_compatible(old(self)@, src@),
        ensures
            final(self)@ == (FrameModel { planes: src@.planes, ..old(self)@ }),
    {
        let n = src.planes.len();
        let mut planes: Vec<Vec<u8>> = Vec::new();
        let mut i: usize = 0;
        while i < n
            invariant
                i <= n,
                n == src@.planes.len(),
                planes@.len() == i,
                forall|k: int| 0 <= k < i ==> planes@[k]@ == src@.planes[k],
            decreases n - i,
        {
            let mut plane: Vec<u8> = Vec::new();
            let len = src.planes[i].len();
            let mut j: usize = 0;
            while j < len
                invariant
                    j <= len,
                    i < n,
                    n == src@.planes.len(),
                    len == src@.planes[i as int].len(),
                    plane@ == src@.planes[i as int].take(j as int),
                decreases len - j,
            {
                let b = src.planes[i][j];
                plane.push(b);
                j = j + 1;
                proof {
                    assert(plane@ =~= src@.planes[i as int].take(j as int));
                }
            }
            proof {
                assert(plane@ =~= src@.planes[i as int]);
            }
            planes.push(plane);
            i = i + 1;
        }
        self.planes = planes;
        proof {
            assert(final(self)@.planes =~~= src@.planes);
            assert(final(self)@ =~~= (FrameModel { planes: src@.planes, ..old(self)@ }));
        }
    }

    /// Copies the auxiliary properties of `src` — the metadata that does not
    /// take part in the buffer's layout, here the sample rate — leaving the
    /// destination's sizing metadata and storage alone.
    pub(crate) fn copy_props_from(&mut self, src: &Frame)
        ensures
            final(self)@ == (FrameModel { rate: src@.rate, ..old(self)@ }),
    {
        self.rate = src.rate;
        proof {
            assert(final(self)@ =~= (FrameModel { rate: src@.rate, ..old(self)@ }));
        }
    }

    /// A shared borrow of the plane storage.
    pub(crate) fn planes_ref(&self) -> (p: &Vec<Vec<u8>>)
        ensures
            p@.map_values(|q: Vec<u8>| q@) == self@.planes,
    {
        &self.planes
    }

    /// An exclusive borrow of the plane storage: whatever the borrower leaves
    /// in it becomes the frame's plane data; the metadata fields stay as they
    /// were.
    pub(crate) fn planes_mut(&mut self) -> (p: &mut Vec<Vec<u8>>)
        ensures
            p@.map_values(|q: Vec<u8>| q@) == old(self)@.planes,
            final(self)@ == (FrameModel {
                planes: final(p)@.map_values(|q: Vec<u8>| q@),
                ..old(self)@
            }),
    {
        &mut self.planes
    }

    /// Relies on core::ptr::eq: the result is true exactly when the two
    /// references address one and the same frame object. Equal addresses
    /// denote one object, so the two values are then equal too.
    #[verifier::external_body]
    pub(crate) fn is_same(&self, other: &Frame) -> (r: bool)
        ensures
            r ==> self@ == other@,
    {
        core::ptr::eq(self, other)
    }
}

/// With a set format and at least one channel, the buffer a frame asks for
/// holds at least one byte per sample instant: its total size is bounded
/// below by the sample count.
pub proof fn lemma_total_bytes_at_least_samples(m: FrameModel)
    requires
        spec_sample_of(m.format_code) != Sample::Unset,
        spec_alloc_channels(m) >= 1,
    ensures
        spec_total_bytes(m) >= m.sample_count,
{
    assert(spec_bytes_of(spec_sample_of(m.format_code)) >= 1);
    assert((m.sample_count * spec_alloc_channels(m) * spec_bytes_of(spec_sample_of(m.format_code)))
        as nat >= m.sample_count) by (nonlinear_arith)
        requires
            spec_alloc_channels(m) >= 1,
            spec_bytes_of(spec_sample_of(m.format_code)) >= 1,
            m.sample_count >= 0,
    ;
}

/// Whether a data copy from `b` into `a` is defined: the sizing metadata
/// agrees and the allocated planes have the same shape.
pub open spec fn spec_compatible(a: FrameModel, b: FrameModel) -> bool {
    &&& a.format_code == b.format_code
    &&& a.channel_layout == b.channel_layout
    &&& a.channels == b.channels
    &&& a.sample_count == b.sample_count
    &&& a.planes.len() == b.planes.len()
    &&& forall|i: int| 0 <= i < a.planes.len() ==> a.planes[i].len() == b.planes[i].len()
}

} // verus!
