//! Audio media frame abstraction: a typed frame object carrying sample-format
//! metadata (format, channel layout, channel count, rate, sample count) and
//! zero or more planes of raw sample bytes, with explicit, sized buffer
//! allocation, deep-copy cloning, and borrowed views over the sample data.

mod audio;
mod error;
mod frame;
mod layout;
mod sample;
mod samples;

pub use audio::lemma_allocation_sizing;
pub use audio::lemma_empty_frame_unset;
pub use audio::lemma_metadata_round_trip;
pub use audio::lemma_new_frame_clones;
pub use audio::lemma_unset_format_never_allocates;
pub use audio::spec_clone_ok;
pub use audio::spec_clone_request;
pub use audio::spec_new_request;
pub use audio::Audio;
pub use error::Error;
pub use frame::lemma_total_bytes_at_least_samples;
pub use frame::spec_alloc_channels;
pub use frame::spec_alloc_ok;
pub use frame::spec_alloc_planes;
pub use frame::spec_allocated;
pub use frame::spec_compatible;
pub use frame::spec_plane_count;
pub use frame::spec_plane_len;
pub use frame::spec_total_bytes;
pub use frame::Frame;
pub use frame::FrameModel;
pub use layout::count_ones;
pub use layout::lemma_count_ones_le_64;
pub use layout::spec_layout_bits;
pub use sample::lemma_code_round_trip;
pub use sample::spec_bytes_of;
pub use sample::spec_code_of;
pub use sample::spec_is_planar;
pub use sample::spec_sample_of;
pub use sample::Sample;
pub use sample::SampleType;
pub use samples::Samples;
pub use samples::SamplesMut;
