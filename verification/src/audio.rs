//! The audio frame: a frame handle with audio semantics. Its metadata fields
//! — sample format, channel layout, channel count, rate and sample count —
//! describe the intended shape of the buffer and may be set freely before
//! storage exists; allocating storage sized to them is a separate, explicit
//! step taken by `new`. Cloning is deep: a fresh allocation plus a
//! byte-exact copy of plane data and properties. Equality of frames is
//! identity of the underlying handle, never structural equality of contents.

use vstd::prelude::*;

use crate::error::Error;
use crate::frame::{
    lemma_total_bytes_at_least_samples, spec_alloc_ok, spec_allocated, spec_compatible,
    spec_plane_count, spec_plane_len, Frame, FrameModel,
};
use crate::sample::{lemma_code_round_trip, spec_code_of, spec_sample_of, Sample};
use crate::samples::{Samples, SamplesMut};

verus! {

/// The metadata a `new(format, samples, layout)` request describes, before
/// its allocation: a fresh frame whose format, sample count and channel
/// layout have been set.
pub open spec fn spec_new_request(format: Sample, samples: usize, layout: i64) -> FrameModel {
    FrameModel {
        format_code: spec_code_of(format),
        channel_layout: layout,
        channels: 0,
        rate: 0,
        sample_count: samples,
        planes: Seq::empty(),
    }
}

/// The request a deep clone of a frame with metadata `m` makes: the same
/// format, sample count and channel layout, allocated afresh.
pub open spec fn spec_clone_request(m: FrameModel) -> FrameModel {
    spec_new_request(spec_sample_of(m.format_code), m.sample_count, m.channel_layout)
}

/// Whether a deep clone of a frame with metadata `m` succeeds: the metadata
/// must describe a grantable allocation, and that fresh allocation must have
/// the shape of `m`'s own storage, so that the copy is defined.
pub open spec fn spec_clone_ok(m: FrameModel) -> bool {
    &&& spec_alloc_ok(spec_clone_request(m))
    &&& spec_compatible(spec_allocated(spec_clone_request(m)), m)
}

/// An audio frame: one exclusively owned frame handle plus the audio-typed
/// accessors over its metadata and sample data.
pub struct Audio {
    frame: Frame,
}

impl View for Audio {
    type V = FrameModel;

    closed spec fn view(&self) -> FrameModel {
        self.frame@
    }
}

impl Audio {
    /// A fresh frame: no storage, format at its sentinel, every other field
    /// zero.
    pub fn empty() -> (a: Audio)
        ensures
            a@ == FrameModel::empty_frame(),
    {
        Audio { frame: Frame::allocate_empty() }
    }

    /// A frame with format, sample count and channel layout set, and backing
    /// storage allocated to fit them, with no padding (1-byte alignment).
    /// Fails with `AllocationFailure` exactly when that metadata does not
    /// describe a grantable buffer: an unset format, no samples, no channel,
    /// or a total size beyond the native size field's range.
    pub fn new(format: Sample, samples: usize, layout: i64) -> (r: Result<Audio, Error>)
        ensures
            r is Ok <==> spec_alloc_ok(spec_new_request(format, samples, layout)),
            r is Ok ==> r->Ok_0@ == spec_allocated(spec_new_request(format, samples, layout)),
            r is Err ==> r == Result::<Audio, Error>::Err(Error::AllocationFailure),
    {
        let mut frame = Audio::empty();
        if samples > 0x7fff_ffff {
            proof {
                let req = spec_new_request(format, samples, layout);
                lemma_code_round_trip(format);
                if spec_alloc_ok(req) {
                    lemma_total_bytes_at_least_samples(req);
                }
            }
            return Err(Error::AllocationFailure);
        }
        frame.set_format(format);
        frame.set_sample_number(samples);
        frame.set_channel_layout(layout);
        proof {
            assert(frame@ =~= spec_new_request(format, samples, layout));
        }
        match frame.frame.allocate_buffer() {
            Ok(()) => Ok(frame),
            Err(e) => Err(e),
        }
    }

    /// The sample format the frame's metadata holds. The native sentinel and
    /// any format code outside the known enumeration read back as `Unset`.
    pub fn format(&self) -> (f: Sample)
        ensures
            f == spec_sample_of(self@.format_code),
    {
        Sample::from_code(self.frame.format_code())
    }

    /// Sets the sample format, translating it to its native code; nothing
    /// else changes.
    pub fn set_format(&mut self, value: Sample)
        ensures
            final(self)@ == (FrameModel { format_code: spec_code_of(value), ..old(self)@ }),
    {
        let code = value.code();
        self.frame.set_format_code(code);
    }

    /// The channel-layout bitmask, exactly as last stored.
    pub fn channel_layout(&self) -> (v: i64)
        ensures
            v == self@.channel_layout,
    {
        self.frame.channel_layout()
    }

    /// Stores a channel-layout bitmask verbatim: any 64-bit value is
    /// accepted and read back exactly; nothing else changes.
    pub fn set_channel_layout(&mut self, value: i64)
        ensures
            final(self)@ == (FrameModel { channel_layout: value, ..old(self)@ }),
    {
        self.frame.set_channel_layout(value);
    }

    /// The channel count, exactly as last stored or derived by allocation.
    pub fn channels(&self) -> (v: u16)
        ensures
            v == self@.channels,
    {
        self.frame.channels()
    }

    /// Sets the channel count; nothing else changes.
    pub fn set_channels(&mut self, value: u16)
        ensures
            final(self)@ == (FrameModel { channels: value, ..old(self)@ }),
    {
        self.frame.set_channels(value);
    }

    /// The sample rate in Hz, exactly as last stored.
    pub fn rate(&self) -> (v: u32)
        ensures
            v == self@.rate,
    {
        self.frame.rate()
    }

    /// Sets the sample rate; nothing else changes.
    pub fn set_rate(&mut self, value: u32)
        ensures
            final(self)@ == (FrameModel { rate: value, ..old(self)@ }),
    {
        self.frame.set_rate(value);
    }

    /// How many samples per channel this frame describes.
    pub fn sample_number(&self) -> (v: usize)
        ensures
            v == self@.sample_count,
    {
        self.frame.sample_count()
    }

    /// Sets the samples-per-channel count; nothing else changes. The native
    /// field is a signed 32-bit quantity: a larger value cannot be
    /// represented and is a caller error.
    pub fn set_sample_number(&mut self, value: usize)
        requires
            value <= 0x7fff_ffff,
        ensures
            final(self)@ == (FrameModel { sample_count: value, ..old(self)@ }),
    {
        self.frame.set_sample_count(value);
    }

    /// A read-only view over the frame's planes, reporting the frame's own
    /// format, rate, sample count and channel count. Before any allocation
    /// the view is simply empty.
    pub fn samples(&self) -> (s: Samples<'_>)
        ensures
            s.spec_planes() == self@.planes,
            s.spec_format() == spec_sample_of(self@.format_code),
            s.spec_rate() == self@.rate,
            s.spec_sample_number() == self@.sample_count,
            s.spec_channels() == self@.channels,
    {
        let format = self.format();
        let rate = self.rate();
        let sample_number = self.sample_number();
        let channels = self.channels();
        Samples::wrap(self.frame.planes_ref(), format, rate, sample_number, channels)
    }

    /// A writable view over the frame's planes. While the view lives the
    /// frame is exclusively borrowed; the caller may write sample bytes
    /// through the view, and only the plane bytes can change — every
    /// metadata field is exactly what it was.
    pub fn samples_mut(&mut self) -> (s: SamplesMut<'_>)
        ensures
            s.spec_planes() == old(self)@.planes,
            s.spec_format() == spec_sample_of(old(self)@.format_code),
            s.spec_rate() == old(self)@.rate,
            s.spec_sample_number() == old(self)@.sample_count,
            s.spec_channels() == old(self)@.channels,
            final(self)@.format_code == old(self)@.format_code,
            final(self)@.channel_layout == old(self)@.channel_layout,
            final(self)@.channels == old(self)@.channels,
            final(self)@.rate == old(self)@.rate,
            final(self)@.sample_count == old(self)@.sample_count,
    {
        let format = self.format();
        let rate = self.rate();
        let sample_number = self.sample_number();
        let channels = self.channels();
        SamplesMut::wrap(self.frame.planes_mut(), format, rate, sample_number, channels)
    }

    /// Deep clone: a fresh frame allocated for this frame's format, sample
    /// count and channel layout, filled with a byte-exact copy of this
    /// frame's plane data and properties. The result is a distinct handle:
    /// only its contents, never its identity, come from this frame. Fails
    /// with `AllocationFailure` when the metadata does not describe a
    /// grantable buffer, and with `PreconditionViolation` when the fresh
    /// allocation would not match this frame's own storage shape.
    pub fn clone(&self) -> (r: Result<Audio, Error>)
        ensures
            r is Ok <==> spec_clone_ok(self@),
            r is Ok ==> r->Ok_0@ == self@,
            !spec_alloc_ok(spec_clone_request(self@)) ==> r == Result::<Audio, Error>::Err(
                Error::AllocationFailure,
            ),
            spec_alloc_ok(spec_clone_request(self@)) && !spec_clone_ok(self@) ==> r
                == Result::<Audio, Error>::Err(Error::PreconditionViolation),
    {
        let format = self.format();
        let sample_number = self.sample_number();
        let layout = self.channel_layout();
        let mut cloned = match Audio::new(format, sample_number, layout) {
            Ok(c) => c,
            Err(e) => {
                return Err(e);
            },
        };
        match cloned.clone_from(self) {
            Ok(()) => Ok(cloned),
            Err(e) => Err(e),
        }
    }

    /// Copies `source`'s plane bytes (plane by plane, byte-exact) and its
    /// auxiliary properties into this frame, leaving only this frame's
    /// identity untouched. The destination must already hold storage of the
    /// same shape as the source's, with agreeing sizing metadata; otherwise
    /// the copy is refused with `PreconditionViolation` and nothing changes.
    pub fn clone_from(&mut self, source: &Audio) -> (r: Result<(), Error>)
        ensures
            r is Ok <==> spec_compatible(old(self)@, source@),
            r is Ok ==> final(self)@ == source@,
            r is Err ==> final(self)@ == old(self)@ && r == Result::<(), Error>::Err(
                Error::PreconditionViolation,
            ),
    {
        if !self.frame.compatible_with(&source.frame) {
            return Err(Error::PreconditionViolation);
        }
        self.frame.copy_data_from(&source.frame);
        self.frame.copy_props_from(&source.frame);
        proof {
            assert(final(self)@ =~~= source@);
        }
        Ok(())
    }

    /// Whether `other` is this very frame. Frames are equal only by handle
    /// identity: a frame equals itself, and never a distinct frame, however
    /// alike their metadata and contents are.
    pub fn same_frame(&self, other: &Audio) -> (r: bool)
        ensures
            r ==> self@ == other@,
    {
        self.frame.is_same(&other.frame)
    }
}

/// Setting a metadata field on any frame stores exactly the value given, and
/// reading it back yields that value: the format survives its translation to
/// the native code and back for every supported format, and layout, channel
/// count, rate and sample count are stored verbatim.
pub proof fn lemma_metadata_round_trip(
    m: FrameModel,
    format: Sample,
    layout: i64,
    channels: u16,
    rate: u32,
    samples: usize,
)
    ensures
        spec_sample_of((FrameModel { format_code: spec_code_of(format), ..m }).format_code)
            == format,
        (FrameModel { channel_layout: layout, ..m }).channel_layout == layout,
        (FrameModel { channels: channels, ..m }).channels == channels,
        (FrameModel { rate: rate, ..m }).rate == rate,
        (FrameModel { sample_count: samples, ..m }).sample_count == samples,
{
    lemma_code_round_trip(format);
}

/// What a grantable `new(format, samples, layout)` request allocates keeps
/// the metadata it was asked for — the same format, sample count and layout
/// — and sizes its storage to it: each allocated plane holds exactly the
/// advertised plane length, over the advertised plane count.
pub proof fn lemma_allocation_sizing(format: Sample, samples: usize, layout: i64)
    requires
        spec_alloc_ok(spec_new_request(format, samples, layout)),
    ensures
        spec_sample_of(spec_allocated(spec_new_request(format, samples, layout)).format_code)
            == format,
        spec_allocated(spec_new_request(format, samples, layout)).sample_count == samples,
        spec_allocated(spec_new_request(format, samples, layout)).channel_layout == layout,
        spec_allocated(spec_new_request(format, samples, layout)).planes.len() == spec_plane_count(
            spec_new_request(format, samples, layout),
        ),
        forall|i: int|
            0 <= i < spec_allocated(spec_new_request(format, samples, layout)).planes.len()
                ==> spec_allocated(spec_new_request(format, samples, layout)).planes[i].len()
                == spec_plane_len(spec_new_request(format, samples, layout)),
{
    lemma_code_round_trip(format);
}

/// A frame exactly as a successful `new(format, samples, layout)` produced
/// it can always be deep-cloned: the clone's own fresh allocation is
/// grantable and matches the frame's storage shape.
pub proof fn lemma_new_frame_clones(format: Sample, samples: usize, layout: i64)
    requires
        spec_alloc_ok(spec_new_request(format, samples, layout)),
    ensures
        spec_clone_ok(spec_allocated(spec_new_request(format, samples, layout))),
{
    let req = spec_new_request(format, samples, layout);
    let m = spec_allocated(req);
    lemma_code_round_trip(format);
    assert(spec_clone_request(m) =~= req);
    assert(spec_compatible(spec_allocated(spec_clone_request(m)), m));
}

/// A freshly allocated empty frame carries the sentinels: format unset, no
/// samples, no layout, and no storage at all.
pub proof fn lemma_empty_frame_unset()
    ensures
        spec_sample_of(FrameModel::empty_frame().format_code) == Sample::Unset,
        FrameModel::empty_frame().sample_count == 0,
        FrameModel::empty_frame().channel_layout == 0int,
        FrameModel::empty_frame().planes.len() == 0,
{
}

/// Buffer allocation with the format still unset is never granted, whatever
/// the other metadata says: the request fails rather than produce storage of
/// no known shape.
pub proof fn lemma_unset_format_never_allocates(samples: usize, layout: i64)
    ensures
        !spec_alloc_ok(spec_new_request(Sample::Unset, samples, layout)),
{
}

} // verus!
