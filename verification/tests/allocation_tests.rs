//! Buffer allocation, sample views, deep cloning, identity, and the error
//! paths of both allocation and copying.

use audio_frame::{Audio, Error, Sample, SampleType};

#[test]
fn new_sizes_packed_storage() {
    let frame = Audio::new(Sample::F32(SampleType::Packed), 4, 3).unwrap();
    assert_eq!(frame.sample_number(), 4);
    assert_eq!(frame.format(), Sample::F32(SampleType::Packed));
    assert_eq!(frame.channel_layout(), 3);
    assert_eq!(frame.channels(), 2);
    let view = frame.samples();
    assert_eq!(view.sample_number(), 4);
    assert_eq!(view.channels(), 2);
    assert_eq!(view.format(), Sample::F32(SampleType::Packed));
    assert_eq!(view.rate(), frame.rate());
    assert_eq!(view.plane_count(), 1);
    assert_eq!(view.plane(0).len(), 4 * 2 * 4);
}

#[test]
fn new_sizes_planar_storage() {
    let frame = Audio::new(Sample::I16(SampleType::Planar), 3, 0b101).unwrap();
    assert_eq!(frame.channels(), 2);
    let view = frame.samples();
    assert_eq!(view.plane_count(), 2);
    assert_eq!(view.plane(0).len(), 3 * 2);
    assert_eq!(view.plane(1).len(), 3 * 2);
}

#[test]
fn new_zeroes_the_buffer() {
    let frame = Audio::new(Sample::U8(SampleType::Packed), 8, 1).unwrap();
    let view = frame.samples();
    for i in 0..view.plane(0).len() {
        assert_eq!(view.plane(0)[i], 0);
    }
}

#[test]
fn new_derives_channels_from_layout() {
    let frame = Audio::new(Sample::U8(SampleType::Planar), 2, 0xf).unwrap();
    assert_eq!(frame.channels(), 4);
    assert_eq!(frame.samples().plane_count(), 4);
}

#[test]
fn layout_sign_bit_counts_as_a_channel() {
    let frame = Audio::new(Sample::U8(SampleType::Packed), 2, i64::MIN).unwrap();
    assert_eq!(frame.channels(), 1);
    assert_eq!(frame.samples().plane(0).len(), 2);
}

#[test]
fn new_with_unset_format_fails() {
    let r = Audio::new(Sample::Unset, 4, 3);
    assert!(matches!(r, Err(Error::AllocationFailure)));
}

#[test]
fn new_with_zero_samples_fails() {
    let r = Audio::new(Sample::I16(SampleType::Packed), 0, 3);
    assert!(matches!(r, Err(Error::AllocationFailure)));
}

#[test]
fn new_with_empty_layout_fails() {
    let r = Audio::new(Sample::I16(SampleType::Packed), 4, 0);
    assert!(matches!(r, Err(Error::AllocationFailure)));
}

#[test]
fn new_with_oversized_request_fails() {
    let r = Audio::new(Sample::F64(SampleType::Packed), 0x7fff_ffff, 1);
    assert!(matches!(r, Err(Error::AllocationFailure)));
    let r = Audio::new(Sample::U8(SampleType::Packed), usize::MAX, 1);
    assert!(matches!(r, Err(Error::AllocationFailure)));
}

#[test]
fn writes_through_view_are_read_back() {
    let mut frame = Audio::new(Sample::U8(SampleType::Planar), 4, 0b11).unwrap();
    {
        let mut view = frame.samples_mut();
        assert_eq!(view.plane_count(), 2);
        assert_eq!(view.plane_len(0), 4);
        view.write_byte(0, 0, 42);
        view.write_byte(1, 3, 7);
        assert_eq!(view.read_byte(0, 0), 42);
    }
    assert_eq!(frame.sample_number(), 4);
    let view = frame.samples();
    assert_eq!(view.plane(0)[0], 42);
    assert_eq!(view.plane(0)[1], 0);
    assert_eq!(view.plane(1)[3], 7);
}

#[test]
fn clone_copies_metadata_and_bytes() {
    let mut a = Audio::new(Sample::U8(SampleType::Planar), 4, 0b11).unwrap();
    a.set_rate(48000);
    {
        let mut view = a.samples_mut();
        view.write_byte(0, 0, 11);
        view.write_byte(0, 3, 22);
        view.write_byte(1, 2, 33);
    }
    let b = a.clone().unwrap();
    assert_eq!(b.format(), a.format());
    assert_eq!(b.sample_number(), a.sample_number());
    assert_eq!(b.channel_layout(), a.channel_layout());
    assert_eq!(b.channels(), a.channels());
    assert_eq!(b.rate(), 48000);
    let va = a.samples();
    let vb = b.samples();
    assert_eq!(va.plane_count(), vb.plane_count());
    for p in 0..va.plane_count() {
        assert_eq!(va.plane(p), vb.plane(p));
    }
}

#[test]
fn clone_is_independent_storage() {
    let mut a = Audio::new(Sample::U8(SampleType::Packed), 4, 1).unwrap();
    {
        let mut view = a.samples_mut();
        view.write_byte(0, 0, 5);
    }
    let mut b = a.clone().unwrap();
    assert!(!a.same_frame(&b));
    {
        let mut view = b.samples_mut();
        view.write_byte(0, 0, 99);
    }
    assert_eq!(a.samples().plane(0)[0], 5);
    assert_eq!(b.samples().plane(0)[0], 99);
}

#[test]
fn frames_are_equal_only_to_themselves() {
    let a = Audio::new(Sample::I16(SampleType::Packed), 4, 3).unwrap();
    let b = Audio::new(Sample::I16(SampleType::Packed), 4, 3).unwrap();
    assert!(a.same_frame(&a));
    assert!(b.same_frame(&b));
    assert!(!a.same_frame(&b));
    assert!(!b.same_frame(&a));
}

#[test]
fn clone_of_unallocated_frame_fails() {
    let empty = Audio::empty();
    assert!(matches!(empty.clone(), Err(Error::AllocationFailure)));
}

#[test]
fn clone_after_resizing_metadata_is_refused() {
    // Mutating the sizing metadata after allocation makes the frame's
    // storage disagree with what a fresh clone would allocate: the copy is
    // refused rather than performed over mismatched buffers.
    let mut a = Audio::new(Sample::U8(SampleType::Packed), 4, 1).unwrap();
    a.set_sample_number(8);
    assert!(matches!(a.clone(), Err(Error::PreconditionViolation)));
}

#[test]
fn clone_from_requires_matching_storage() {
    let a = Audio::new(Sample::U8(SampleType::Packed), 4, 1).unwrap();
    let mut b = Audio::new(Sample::U8(SampleType::Packed), 8, 1).unwrap();
    assert!(matches!(b.clone_from(&a), Err(Error::PreconditionViolation)));
    // The failed copy left the destination untouched.
    assert_eq!(b.sample_number(), 8);
    assert_eq!(b.samples().plane(0).len(), 8);
}

#[test]
fn clone_from_copies_into_matching_storage() {
    let mut a = Audio::new(Sample::U8(SampleType::Packed), 4, 1).unwrap();
    a.set_rate(8000);
    {
        let mut view = a.samples_mut();
        view.write_byte(0, 2, 77);
    }
    let mut b = Audio::new(Sample::U8(SampleType::Packed), 4, 1).unwrap();
    assert!(b.clone_from(&a).is_ok());
    assert_eq!(b.rate(), 8000);
    assert_eq!(b.samples().plane(0)[2], 77);
    assert!(!b.same_frame(&a));
}
