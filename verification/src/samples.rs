//! Borrowed views over a frame's sample data: a window onto the frame's
//! planes together with the metadata a reader or writer of raw samples needs.
//! A view never owns, allocates or copies; it borrows from its frame and
//! cannot outlive it. On a frame without backing storage the view is simply
//! empty.

use vstd::prelude::*;

use crate::sample::Sample;

verus! {

/// A read-only window over a frame's planes and sizing metadata.
pub struct Samples<'a> {
    planes: &'a Vec<Vec<u8>>,
    format: Sample,
    rate: u32,
    sample_number: usize,
    channels: u16,
}

impl<'a> Samples<'a> {
    /// The plane bytes this view exposes.
    pub closed spec fn spec_planes(&self) -> Seq<Seq<u8>> {
        self.planes@.map_values(|p: Vec<u8>| p@)
    }

    /// The sample format the view reports.
    pub closed spec fn spec_format(&self) -> Sample {
        self.format
    }

    /// The sample rate the view reports.
    pub closed spec fn spec_rate(&self) -> u32 {
        self.rate
    }

    /// The samples-per-channel count the view reports.
    pub closed spec fn spec_sample_number(&self) -> usize {
        self.sample_number
    }

    /// The channel count the view reports.
    pub closed spec fn spec_channels(&self) -> u16 {
        self.channels
    }

    /// Wraps borrowed planes and copied metadata into a view.
    pub(crate) fn wrap(
        planes: &'a Vec<Vec<u8>>,
        format: Sample,
        rate: u32,
        sample_number: usize,
        channels: u16,
    ) -> (s: Samples<'a>)
        ensures
            s.spec_planes() == planes@.map_values(|p: Vec<u8>| p@),
            s.spec_format() == format,
            s.spec_rate() == rate,
            s.spec_sample_number() == sample_number,
            s.spec_channels() == channels,
    {
        Samples { planes, format, rate, sample_number, channels }
    }

    /// The sample format of the data behind the view.
    pub fn format(&self) -> (f: Sample)
        ensures
            f == self.spec_format(),
    {
        self.format
    }

    /// The sample rate of the data behind the view.
    pub fn rate(&self) -> (r: u32)
        ensures
            r == self.spec_rate(),
    {
        self.rate
    }

    /// How many samples per channel the view covers.
    pub fn sample_number(&self) -> (n: usize)
        ensures
            n == self.spec_sample_number(),
    {
        self.sample_number
    }

    /// How many channels the view covers.
    pub fn channels(&self) -> (c: u16)
        ensures
            c == self.spec_channels(),
    {
        self.channels
    }

    /// How many planes the view exposes; 0 when the frame has no storage.
    pub fn plane_count(&self) -> (n: usize)
        ensures
            n == self.spec_planes().len(),
    {
        self.planes.len()
    }

    /// The raw bytes of one plane.
    pub fn plane(&self, index: usize) -> (p: &'a Vec<u8>)
        requires
            index < self.spec_planes().len(),
        ensures
            p@ == self.spec_planes()[index as int],
    {
        &self.planes[index]
    }
}

/// A writable window over a frame's planes: the same metadata as the
/// read-only view, with the right to write sample bytes through it. While it
/// lives it borrows its frame exclusively.
pub struct SamplesMut<'a> {
    planes: &'a mut Vec<Vec<u8>>,
    format: Sample,
    rate: u32,
    sample_number: usize,
    channels: u16,
}

impl<'a> SamplesMut<'a> {
    /// The plane bytes currently behind the view.
    pub closed spec fn spec_planes(&self) -> Seq<Seq<u8>> {
        self.planes@.map_values(|p: Vec<u8>| p@)
    }

    /// The sample format the view reports.
    pub closed spec fn spec_format(&self) -> Sample {
        self.format
    }

    /// The sample rate the view reports.
    pub closed spec fn spec_rate(&self) -> u32 {
        self.rate
    }

    /// The samples-per-channel count the view reports.
    pub closed spec fn spec_sample_number(&self) -> usize {
        self.sample_number
    }

    /// The channel count the view reports.
    pub closed spec fn spec_channels(&self) -> u16 {
        self.channels
    }

    /// Wraps exclusively borrowed planes and copied metadata into a view.
    pub(crate) fn wrap(
        planes: &'a mut Vec<Vec<u8>>,
        format: Sample,
        rate: u32,
        sample_number: usize,
        channels: u16,
    ) -> (s: SamplesMut<'a>)
        ensures
            s.spec_planes() == old(planes)@.map_values(|p: Vec<u8>| p@),
            s.spec_format() == format,
            s.spec_rate() == rate,
            s.spec_sample_number() == sample_number,
            s.spec_channels() == channels,
    {
        SamplesMut { planes, format, rate, sample_number, channels }
    }

    /// The sample format of the data behind the view.
    pub fn format(&self) -> (f: Sample)
        ensures
            f == self.spec_format(),
    {
        self.format
    }

    /// The sample rate of the data behind the view.
    pub fn rate(&self) -> (r: u32)
        ensures
            r == self.spec_rate(),
    {
        self.rate
    }

    /// How many samples per channel the view covers.
    pub fn sample_number(&self) -> (n: usize)
        ensures
            n == self.spec_sample_number(),
    {
        self.sample_number
    }

    /// How many channels the view covers.
    pub fn channels(&self) -> (c: u16)
        ensures
            c == self.spec_channels(),
    {
        self.channels
    }

    /// How many planes the view exposes; 0 when the frame has no storage.
    pub fn plane_count(&self) -> (n: usize)
        ensures
            n == self.spec_planes().len(),
    {
        self.planes.len()
    }

    /// How many bytes one plane holds.
    pub fn plane_len(&self, plane: usize) -> (n: usize)
        requires
            plane < self.spec_planes().len(),
        ensures
            n == self.spec_planes()[plane as int].len(),
    {
        self.planes[plane].len()
    }

    /// Reads one byte of sample data.
    pub fn read_byte(&self, plane: usize, index: usize) -> (b: u8)
        requires
            plane < self.spec_planes().len(),
            index < self.spec_planes()[plane as int].len(),
        ensures
            b == self.spec_planes()[plane as int][index as int],
    {
        self.planes[plane][index]
    }

    /// Writes one byte of sample data in place.
    pub fn write_byte(&mut self, plane: usize, index: usize, value: u8)
        requires
            plane < old(self).spec_planes().len(),
            index < old(self).spec_planes()[plane as int].len(),
        ensures
            final(self).spec_planes() == old(self).spec_planes().update(
                plane as int,
                old(self).spec_planes()[plane as int].update(index as int, value),
            ),
    {
        let p: &mut Vec<u8> = &mut self.planes[plane];
        let b: &mut u8 = &mut p[index];
        *b = value;
    }
}

} // verus!
