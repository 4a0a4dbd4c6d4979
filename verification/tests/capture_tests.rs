use speaker_core::audio::{canonical_samples, s16_to_f32_bits, AudioFormat, SampleChunk};
use speaker_core::capture::{
    needs_playback_backpressure, CaptureTee, SubmitOutcome, CAPTURE_QUEUE_CAPACITY,
    PLAYBACK_QUEUE_LIMIT,
};
use speaker_core::sink::{select_output_device, validate_capture_format, DeviceSelection, RodioError};

#[test]
fn s16_conversion_matches_float_division() {
    // The verified integer construction of the bit pattern agrees with the
    // float arithmetic it stands for, across the whole sample range.
    for s in i16::MIN..=i16::MAX {
        let expected = (s as f32 / i16::MAX as f32).to_bits();
        assert_eq!(s16_to_f32_bits(s), expected, "sample {}", s);
    }
}

#[test]
fn s16_conversion_known_values() {
    assert_eq!(s16_to_f32_bits(0), 0x0000_0000);
    assert_eq!(s16_to_f32_bits(1), 0x3800_0100);
    assert_eq!(s16_to_f32_bits(-1), 0xb800_0100);
    assert_eq!(s16_to_f32_bits(32767), 0x3f80_0000);
    assert_eq!(s16_to_f32_bits(-32768), 0xbf80_0100);
    assert_eq!(s16_to_f32_bits(12345), 0x3ec0_e582);
}

#[test]
fn float_chunks_pass_through_unchanged() {
    let bits = vec![0x3f80_0000u32, 0x0000_0000, 0xbf80_0000];
    let out = canonical_samples(SampleChunk::F32Bits(bits.clone()));
    assert_eq!(out, bits);
}

#[test]
fn s16_chunks_convert_sample_by_sample() {
    let out = canonical_samples(SampleChunk::S16(vec![0, 1, -1, 32767]));
    assert_eq!(out, vec![0x0000_0000, 0x3800_0100, 0xb800_0100, 0x3f80_0000]);
}

#[test]
fn tee_never_blocks_and_drops_when_full() {
    // Submit more chunks than the queue holds: the overflow is dropped, the
    // submissions all return immediately, and the consumer sees exactly the
    // accepted chunks, in order and uncorrupted.
    let (tee, receiver) = CaptureTee::new(2);
    assert_eq!(tee.capacity(), 2);
    let chunks: Vec<Vec<u32>> = (0..5).map(|i| vec![i, i + 10, i + 20]).collect();
    let mut outcomes = Vec::new();
    for c in &chunks {
        outcomes.push(tee.submit(SampleChunk::F32Bits(c.clone())));
    }
    assert_eq!(
        outcomes,
        vec![
            SubmitOutcome::Delivered,
            SubmitOutcome::Delivered,
            SubmitOutcome::Dropped,
            SubmitOutcome::Dropped,
            SubmitOutcome::Dropped,
        ]
    );
    assert_eq!(receiver.try_recv().unwrap(), chunks[0]);
    assert_eq!(receiver.try_recv().unwrap(), chunks[1]);
    assert!(receiver.try_recv().is_err());
}

#[test]
fn consumer_sees_an_ordered_subsequence_of_submissions() {
    // Interleaved submissions and drains: what arrives is always a
    // subsequence of what was submitted, in submission order, uncorrupted.
    let (tee, receiver) = CaptureTee::new(2);
    let chunks: Vec<Vec<u32>> = (0u32..6).map(|i| vec![i, i * i]).collect();

    tee.submit(SampleChunk::F32Bits(chunks[0].clone()));
    tee.submit(SampleChunk::F32Bits(chunks[1].clone()));
    tee.submit(SampleChunk::F32Bits(chunks[2].clone())); // dropped: queue full
    let mut seen = vec![receiver.try_recv().unwrap()];
    tee.submit(SampleChunk::F32Bits(chunks[3].clone()));
    tee.submit(SampleChunk::F32Bits(chunks[4].clone())); // dropped: queue full
    seen.push(receiver.try_recv().unwrap());
    tee.submit(SampleChunk::F32Bits(chunks[5].clone()));
    seen.push(receiver.try_recv().unwrap());
    seen.push(receiver.try_recv().unwrap());

    assert_eq!(
        seen,
        vec![chunks[0].clone(), chunks[1].clone(), chunks[3].clone(), chunks[5].clone()]
    );
}

#[test]
fn tee_reports_a_vanished_consumer() {
    let (tee, receiver) = CaptureTee::new(4);
    drop(receiver);
    let outcome = tee.submit(SampleChunk::S16(vec![1, 2, 3]));
    assert_eq!(outcome, SubmitOutcome::Detached);
}

#[test]
fn tee_converts_before_sending() {
    let (tee, receiver) = CaptureTee::new(CAPTURE_QUEUE_CAPACITY);
    assert_eq!(tee.submit(SampleChunk::S16(vec![32767, 0])), SubmitOutcome::Delivered);
    assert_eq!(receiver.recv().unwrap(), vec![0x3f80_0000, 0]);
}

#[test]
fn backpressure_only_past_the_playback_bound() {
    assert!(!needs_playback_backpressure(0));
    assert!(!needs_playback_backpressure(PLAYBACK_QUEUE_LIMIT));
    assert!(needs_playback_backpressure(PLAYBACK_QUEUE_LIMIT + 1));
}

#[test]
fn named_device_selection_finds_the_first_match() {
    let names = vec![
        Some("HDMI".to_string()),
        None,
        Some("Speakers".to_string()),
        Some("Speakers".to_string()),
    ];
    let r = select_output_device(&names, &Some("Speakers".to_string()), true);
    assert_eq!(r.unwrap(), DeviceSelection::Named(2));
}

#[test]
fn missing_named_device_is_reported_by_name() {
    let names = vec![Some("HDMI".to_string())];
    match select_output_device(&names, &Some("Speakers".to_string()), true) {
        Err(RodioError::DeviceNotAvailable(n)) => assert_eq!(n, "Speakers"),
        _ => panic!("expected the named-device error"),
    }
}

#[test]
fn default_device_selection() {
    let names: Vec<Option<String>> = Vec::new();
    assert_eq!(
        select_output_device(&names, &None, true).unwrap(),
        DeviceSelection::Default
    );
    assert!(matches!(
        select_output_device(&names, &None, false),
        Err(RodioError::NoDeviceAvailable)
    ));
}

#[test]
fn only_the_two_capture_formats_are_accepted() {
    assert!(validate_capture_format(AudioFormat::S16).is_ok());
    assert!(validate_capture_format(AudioFormat::F32).is_ok());
    for bad in [AudioFormat::F64, AudioFormat::S32, AudioFormat::S24, AudioFormat::S24_3] {
        assert!(matches!(
            validate_capture_format(bad),
            Err(RodioError::Samples(_))
        ));
    }
}
