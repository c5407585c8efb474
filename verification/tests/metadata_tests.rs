//! Metadata behaviour: format translation round trips, verbatim storage of
//! layout, rate, channel count and sample count, and the empty frame.

use audio_frame::{Audio, Sample, SampleType};

fn all_formats() -> Vec<Sample> {
    vec![
        Sample::Unset,
        Sample::U8(SampleType::Packed),
        Sample::U8(SampleType::Planar),
        Sample::I16(SampleType::Packed),
        Sample::I16(SampleType::Planar),
        Sample::I32(SampleType::Packed),
        Sample::I32(SampleType::Planar),
        Sample::I64(SampleType::Packed),
        Sample::I64(SampleType::Planar),
        Sample::F32(SampleType::Packed),
        Sample::F32(SampleType::Planar),
        Sample::F64(SampleType::Packed),
        Sample::F64(SampleType::Planar),
    ]
}

#[test]
fn format_round_trip_all_supported() {
    for f in all_formats() {
        let mut frame = Audio::empty();
        frame.set_format(f);
        assert_eq!(frame.format(), f);
    }
}

#[test]
fn format_codes_round_trip() {
    for f in all_formats() {
        assert_eq!(Sample::from_code(f.code()), f);
    }
}

#[test]
fn format_sentinel_reads_as_unset() {
    let mut frame = Audio::empty();
    frame.set_format(Sample::Unset);
    assert_eq!(frame.format(), Sample::Unset);
    assert_eq!(Sample::Unset.code(), -1);
    assert_eq!(Sample::from_code(-1), Sample::Unset);
}

#[test]
fn unknown_format_codes_read_as_unset() {
    assert_eq!(Sample::from_code(99), Sample::Unset);
    assert_eq!(Sample::from_code(12), Sample::Unset);
    assert_eq!(Sample::from_code(-2), Sample::Unset);
    assert_eq!(Sample::from_code(i32::MIN), Sample::Unset);
}

#[test]
fn format_properties() {
    assert_eq!(Sample::U8(SampleType::Packed).bytes(), 1);
    assert_eq!(Sample::I16(SampleType::Planar).bytes(), 2);
    assert_eq!(Sample::I32(SampleType::Packed).bytes(), 4);
    assert_eq!(Sample::I64(SampleType::Planar).bytes(), 8);
    assert_eq!(Sample::F32(SampleType::Packed).bytes(), 4);
    assert_eq!(Sample::F64(SampleType::Planar).bytes(), 8);
    assert_eq!(Sample::Unset.bytes(), 0);
    assert!(Sample::I16(SampleType::Planar).is_planar());
    assert!(!Sample::I16(SampleType::Packed).is_planar());
    assert!(!Sample::Unset.is_planar());
}

#[test]
fn channel_layout_round_trip_exact() {
    let values: [i64; 7] = [0, 1, 3, 0x3f, -1, i64::MAX, i64::MIN];
    for v in values {
        let mut frame = Audio::empty();
        frame.set_channel_layout(v);
        assert_eq!(frame.channel_layout(), v);
    }
}

#[test]
fn rate_round_trip_full_range() {
    let values: [u32; 5] = [0, 1, 44100, 48000, u32::MAX];
    for v in values {
        let mut frame = Audio::empty();
        frame.set_rate(v);
        assert_eq!(frame.rate(), v);
    }
}

#[test]
fn channels_round_trip_full_range() {
    let values: [u16; 5] = [0, 1, 2, 8, u16::MAX];
    for v in values {
        let mut frame = Audio::empty();
        frame.set_channels(v);
        assert_eq!(frame.channels(), v);
    }
}

#[test]
fn sample_number_round_trip() {
    let values: [usize; 4] = [0, 1, 1024, 0x7fff_ffff];
    for v in values {
        let mut frame = Audio::empty();
        frame.set_sample_number(v);
        assert_eq!(frame.sample_number(), v);
    }
}

#[test]
fn metadata_fields_are_independent() {
    let mut frame = Audio::empty();
    frame.set_format(Sample::I16(SampleType::Packed));
    frame.set_channel_layout(3);
    frame.set_channels(2);
    frame.set_rate(44100);
    frame.set_sample_number(100);
    assert_eq!(frame.format(), Sample::I16(SampleType::Packed));
    assert_eq!(frame.channel_layout(), 3);
    assert_eq!(frame.channels(), 2);
    assert_eq!(frame.rate(), 44100);
    assert_eq!(frame.sample_number(), 100);
    frame.set_rate(48000);
    assert_eq!(frame.format(), Sample::I16(SampleType::Packed));
    assert_eq!(frame.sample_number(), 100);
    assert_eq!(frame.rate(), 48000);
}

#[test]
fn empty_frame_carries_sentinels() {
    let frame = Audio::empty();
    assert_eq!(frame.sample_number(), 0);
    assert_eq!(frame.format(), Sample::Unset);
    assert_eq!(frame.channel_layout(), 0);
    assert_eq!(frame.channels(), 0);
    assert_eq!(frame.rate(), 0);
}

#[test]
fn view_before_allocation_is_empty() {
    let frame = Audio::empty();
    let view = frame.samples();
    assert_eq!(view.plane_count(), 0);
    assert_eq!(view.sample_number(), 0);
    assert_eq!(view.format(), Sample::Unset);
}
