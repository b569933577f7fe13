use voice_pipeline::accumulator::FrameAccumulator;
use voice_pipeline::codec::CodecEngine;
use voice_pipeline::config::SampleFormatKind;
use voice_pipeline::config::StreamConfig;
use voice_pipeline::config::WavSampleKind;
use voice_pipeline::config::config_supported;
use voice_pipeline::config::sample_format_converter;
use voice_pipeline::config::sample_size;
use voice_pipeline::config::wav_file_spec_from_config;
use voice_pipeline::impairment::EventQueue;
use voice_pipeline::impairment::NetworkSimulator;
use voice_pipeline::samples::deinterleave_stereo;
use voice_pipeline::samples::duplicate_to_stereo;
use voice_pipeline::samples::fill_from_source;
use voice_pipeline::samples::narrow_sample_16_to_8;
use voice_pipeline::samples::widen_sample_8_to_16;
use voice_pipeline::sink::SinkWriter;
use voice_pipeline::FRAME_LEN;
use voice_pipeline::LOSS_SCALE;
use voice_pipeline::MAX_PACKET_SIZE;
use voice_pipeline::PipelineError;

#[test]
fn accumulator_nonuniform_chunks_emit_ceil_frames() {
    // 500 + 1500 = 2000 samples: one full frame, then one zero-padded frame.
    let mut acc = FrameAccumulator::new();
    let first: Vec<i16> = (0..500).map(|i| i as i16).collect();
    let second: Vec<i16> = (500..2000).map(|i| i as i16).collect();

    acc.push(&first);
    assert!(acc.pop_frame().is_none());
    acc.push(&second);

    let frame = acc.pop_frame().expect("a full frame is available");
    assert_eq!(frame.len(), FRAME_LEN);
    for (i, s) in frame.iter().enumerate() {
        assert_eq!(*s, i as i16);
    }
    assert!(acc.pop_frame().is_none());

    let last = acc.finish().expect("the remainder is zero-padded");
    assert_eq!(last.len(), FRAME_LEN);
    for (i, s) in last.iter().enumerate() {
        if i < 80 {
            assert_eq!(*s, (FRAME_LEN + i) as i16);
        } else {
            assert_eq!(*s, 0);
        }
    }
    // 2000 samples yield ceil(2000 / 1920) = 2 frames.
    assert_eq!(acc.frames_out(), 2);
    assert_eq!(acc.samples_in(), 2000);
}

#[test]
fn accumulator_exact_multiple_needs_no_padding() {
    let mut acc = FrameAccumulator::new();
    let chunk: Vec<i16> = vec![5; 2 * FRAME_LEN];
    acc.push(&chunk);
    assert!(acc.pop_frame().is_some());
    assert!(acc.pop_frame().is_some());
    assert!(acc.finish().is_none());
    assert_eq!(acc.frames_out(), 2);
}

#[test]
fn accumulator_empty_stream_emits_nothing() {
    let mut acc = FrameAccumulator::new();
    assert!(acc.finish().is_none());
    assert_eq!(acc.frames_out(), 0);
    assert_eq!(acc.samples_in(), 0);
}

#[test]
fn sink_counts_appends() {
    let mut sink = SinkWriter::new();
    assert!(!sink.finalized());
    assert_eq!(sink.written(), 0);
    assert_eq!(sink.append(100), Ok(()));
    assert_eq!(sink.append(23), Ok(()));
    assert_eq!(sink.written(), 123);
}

#[test]
fn sink_append_after_finalize_errors_without_mutation() {
    let mut sink = SinkWriter::new();
    assert_eq!(sink.append(50), Ok(()));
    assert_eq!(sink.finalize(), Ok(()));
    for _ in 0..3 {
        assert_eq!(sink.append(10), Err(PipelineError::AlreadyFinalized));
        assert_eq!(sink.written(), 50);
        assert!(sink.finalized());
    }
}

#[test]
fn sink_finalize_is_one_time() {
    let mut sink = SinkWriter::new();
    assert_eq!(sink.finalize(), Ok(()));
    assert_eq!(sink.finalize(), Err(PipelineError::AlreadyFinalized));
    assert_eq!(sink.finalize(), Err(PipelineError::AlreadyFinalized));
}

#[test]
fn classify_is_deterministic_on_given_draws() {
    let sim = NetworkSimulator::new(LOSS_SCALE / 2, 10_000, 5_000);
    // A loss draw below half the scale drops the packet.
    assert_eq!(sim.classify(499_999, 1234, 0), None);
    // A loss draw at or above it schedules: now + latency + draw % jitter.
    assert_eq!(sim.classify(500_000, 1234, 100), Some(100 + 10_000 + 1234));
    assert_eq!(sim.classify(999_999, 7_777, 0), Some(10_000 + 2_777));
}

#[test]
fn classify_with_zero_jitter_adds_latency_alone() {
    let sim = NetworkSimulator::new(0, 42, 0);
    assert_eq!(sim.classify(0, 999, 5), Some(5 + 42));
}

#[test]
fn codec_engine_numbers_packets_in_order() {
    let mut codec = CodecEngine::new();
    let p0 = codec.accept_encoded(vec![1, 2, 3]).expect("small payload fits");
    let p1 = codec.accept_encoded(vec![4]).expect("small payload fits");
    assert_eq!(p0.sequence(), 0);
    assert_eq!(p1.sequence(), 1);
    assert_eq!(p0.payload(), &vec![1, 2, 3]);
    assert_eq!(p0.payload_len(), 3);
    assert_eq!(codec.sequence_counter(), 2);
    assert_eq!(codec.failures(), 0);
}

#[test]
fn codec_engine_rejects_oversized_payload() {
    let mut codec = CodecEngine::new();
    let oversized = vec![0u8; MAX_PACKET_SIZE + 1];
    assert!(matches!(codec.accept_encoded(oversized), Err(PipelineError::Codec)));
    assert_eq!(codec.failures(), 1);
    assert_eq!(codec.sequence_counter(), 0);
    let exact = vec![0u8; MAX_PACKET_SIZE];
    assert!(codec.accept_encoded(exact).is_ok());
}

#[test]
fn event_queue_releases_in_delivery_time_order() {
    let mut codec = CodecEngine::new();
    let sim = NetworkSimulator::new(0, 0, 0);
    let mut queue = EventQueue::new();
    for (payload, at) in [(vec![30u8], 30u64), (vec![10u8], 10u64), (vec![20u8], 20u64)] {
        let packet = codec.accept_encoded(payload).unwrap();
        let ev = sim.simulate_network(packet, at).expect("loss probability zero");
        queue.insert(ev);
    }
    assert_eq!(queue.len(), 3);
    // Not due yet.
    assert!(queue.pop_due(9).is_none());
    let a = queue.pop_due(u64::MAX).unwrap();
    let b = queue.pop_due(u64::MAX).unwrap();
    let c = queue.pop_due(u64::MAX).unwrap();
    assert!(queue.pop_due(u64::MAX).is_none());
    assert_eq!(a.delivery_time_us, 10);
    assert_eq!(b.delivery_time_us, 20);
    assert_eq!(c.delivery_time_us, 30);
    assert_eq!(a.packet.payload(), &vec![10u8]);
    assert_eq!(b.packet.payload(), &vec![20u8]);
    assert_eq!(c.packet.payload(), &vec![30u8]);
}

#[test]
fn event_queue_clear_discards_everything() {
    let mut codec = CodecEngine::new();
    let sim = NetworkSimulator::new(0, 5, 0);
    let mut queue = EventQueue::new();
    let packet = codec.accept_encoded(vec![1]).unwrap();
    queue.insert(sim.simulate_network(packet, 0).unwrap());
    queue.clear();
    assert_eq!(queue.len(), 0);
    assert!(queue.pop_due(u64::MAX).is_none());
}

#[test]
fn simulate_network_extremes() {
    let mut codec = CodecEngine::new();
    let never = NetworkSimulator::new(0, 1_000, 500);
    let always = NetworkSimulator::new(LOSS_SCALE, 1_000, 500);
    for _ in 0..32 {
        let packet = codec.accept_encoded(vec![9]).unwrap();
        let ev = never.simulate_network(packet, 77).expect("loss probability zero delivers");
        assert!(ev.delivery_time_us >= 77 + 1_000);
        assert!(ev.delivery_time_us <= 77 + 1_000 + 500);
        let packet = codec.accept_encoded(vec![9]).unwrap();
        assert!(always.simulate_network(packet, 77).is_none());
    }
}

#[test]
fn wav_spec_follows_the_stream_config() {
    let float_config =
        StreamConfig { sample_rate: 48_000, channels: 2, format: SampleFormatKind::Float32 };
    let spec = wav_file_spec_from_config(&float_config);
    assert_eq!(spec.channels, 2);
    assert_eq!(spec.sample_rate, 48_000);
    assert_eq!(spec.bits_per_sample, 32);
    assert_eq!(spec.sample_format, WavSampleKind::Float);

    let int_config =
        StreamConfig { sample_rate: 44_100, channels: 2, format: SampleFormatKind::Int16 };
    let spec = wav_file_spec_from_config(&int_config);
    assert_eq!(spec.channels, 2);
    assert_eq!(spec.sample_rate, 44_100);
    assert_eq!(spec.bits_per_sample, 16);
    assert_eq!(spec.sample_format, WavSampleKind::Int);
}

#[test]
fn sample_format_mapping_is_float_only_for_float() {
    assert_eq!(sample_format_converter(SampleFormatKind::Float32), WavSampleKind::Float);
    assert_eq!(sample_format_converter(SampleFormatKind::Int8), WavSampleKind::Int);
    assert_eq!(sample_format_converter(SampleFormatKind::Int16), WavSampleKind::Int);
    assert_eq!(sample_format_converter(SampleFormatKind::Int32), WavSampleKind::Int);
    assert_eq!(sample_size(SampleFormatKind::Int8), 1);
    assert_eq!(sample_size(SampleFormatKind::Int16), 2);
    assert_eq!(sample_size(SampleFormatKind::Int32), 4);
    assert_eq!(sample_size(SampleFormatKind::Float32), 4);
}

#[test]
fn config_support_needs_stereo_and_rate_in_range() {
    assert!(config_supported(2, 8_000, 96_000, 48_000));
    assert!(!config_supported(1, 8_000, 96_000, 48_000));
    assert!(!config_supported(2, 48_001, 96_000, 48_000));
    assert!(!config_supported(2, 8_000, 47_999, 48_000));
}

#[test]
fn deinterleave_splits_left_and_right() {
    let interleaved: Vec<i16> = vec![1, 2, 3, 4, 5, 6];
    assert_eq!(deinterleave_stereo(&interleaved), vec![1, 3, 5, 2, 4, 6]);
}

#[test]
fn duplicate_writes_each_sample_to_both_channels() {
    let mono: Vec<i16> = vec![7, -8];
    assert_eq!(duplicate_to_stereo(&mono), vec![7, 7, -8, -8]);
}

#[test]
fn fill_from_source_pads_with_silence_when_exhausted() {
    let source: Vec<i16> = vec![1, 2, 3, 4, 5];
    let mut out: Vec<i16> = vec![99; 4];
    let pos = fill_from_source(&source, 3, &mut out);
    assert_eq!(out, vec![4, 5, 0, 0]);
    assert_eq!(pos, 5);

    let mut out2: Vec<i16> = vec![99; 3];
    let pos2 = fill_from_source(&source, 0, &mut out2);
    assert_eq!(out2, vec![1, 2, 3]);
    assert_eq!(pos2, 3);
}

#[test]
fn integer_sample_conversion_round_trips() {
    for x in [-128i8, -1, 0, 1, 42, 127] {
        let wide = widen_sample_8_to_16(x);
        assert_eq!(narrow_sample_16_to_8(wide), x);
    }
    assert_eq!(widen_sample_8_to_16(1), 256);
    assert_eq!(widen_sample_8_to_16(-128), i16::MIN);
    assert_eq!(narrow_sample_16_to_8(0x1234), 0x12);
}
