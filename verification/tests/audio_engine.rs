use presence_core::device::{describe_format, resolve_device, DeviceDescriptor, DeviceFormat, SupportedFormat};
use presence_core::errors::AudioError;
use presence_core::level::compute_level;
use presence_core::sample::{normalize_i16, normalize_u16, SampleEncoding};
use presence_core::session::{
    clamp_capture_duration, clamp_level_duration, finish_capture, finish_level, plan_stream,
};
use presence_core::wav::{decode_wav, encode_wav};

/// Quantizes one canonical float sample exactly as a driver feeding the
/// engine does: clamp to [-1, 1], scale to Q15, round to nearest.
fn quantize(sample: f32) -> i16 {
    (sample.clamp(-1.0, 1.0) * 32767.0).round() as i16
}

fn device(index: u32, name: &str, is_default: bool, format: Option<DeviceFormat>) -> DeviceDescriptor {
    DeviceDescriptor { index, name: name.to_string(), is_default, format }
}

fn f32_format(sample_rate: u32, channel_count: u16) -> DeviceFormat {
    DeviceFormat { sample_rate, channel_count, encoding: Some(SampleEncoding::Float32) }
}

// === Sample normalizer ===

#[test]
fn normalize_i16_maps_full_scale() {
    assert_eq!(normalize_i16(i16::MAX), 32767);
    assert_eq!(normalize_i16(i16::MIN), -32767);
    assert_eq!(normalize_i16(0), 0);
    assert_eq!(normalize_i16(1234), 1234);
    assert_eq!(normalize_i16(-32767), -32767);
}

#[test]
fn normalize_u16_maps_full_scale() {
    assert_eq!(normalize_u16(u16::MAX), 32767);
    assert_eq!(normalize_u16(0), -32767);
    assert_eq!(normalize_u16(32767), 0);
    assert_eq!(normalize_u16(32768), 0);
}

#[test]
fn normalize_u16_matches_float_formula() {
    for raw in [0u16, 1, 100, 16384, 32767, 32768, 50000, 65534, 65535] {
        let float_value = (raw as f64 / 65535.0) * 2.0 - 1.0;
        let expected = (float_value * 32767.0).round() as i16;
        assert_eq!(normalize_u16(raw), expected, "raw = {}", raw);
    }
}

// === Container encoder ===

#[test]
fn encode_wav_writes_classic_header() {
    let samples: Vec<i16> = vec![0, 1, -1];
    let bytes = encode_wav(&samples, 44100, 1).unwrap();
    assert_eq!(bytes.len(), 44 + 2 * samples.len());
    assert_eq!(&bytes[0..4], b"RIFF");
    assert_eq!(&bytes[8..12], b"WAVE");
    assert_eq!(&bytes[12..16], b"fmt ");
    assert_eq!(&bytes[36..40], b"data");
    // fmt chunk: size 16, PCM tag 1, mono, 44100 Hz, 16 bits.
    assert_eq!(u32::from_le_bytes(bytes[16..20].try_into().unwrap()), 16);
    assert_eq!(u16::from_le_bytes(bytes[20..22].try_into().unwrap()), 1);
    assert_eq!(u16::from_le_bytes(bytes[22..24].try_into().unwrap()), 1);
    assert_eq!(u32::from_le_bytes(bytes[24..28].try_into().unwrap()), 44100);
    assert_eq!(u32::from_le_bytes(bytes[28..32].try_into().unwrap()), 88200);
    assert_eq!(u16::from_le_bytes(bytes[32..34].try_into().unwrap()), 2);
    assert_eq!(u16::from_le_bytes(bytes[34..36].try_into().unwrap()), 16);
    assert_eq!(u32::from_le_bytes(bytes[40..44].try_into().unwrap()), 6);
    // data chunk: little-endian samples.
    assert_eq!(&bytes[44..50], &[0, 0, 1, 0, 0xff, 0xff]);
}

#[test]
fn encode_wav_rejects_invalid_parameters() {
    let samples: Vec<i16> = vec![0];
    assert_eq!(encode_wav(&samples, 44100, 0), Err(AudioError::WriterInitFailed));
    assert_eq!(encode_wav(&samples, 0, 1), Err(AudioError::WriterInitFailed));
}

#[test]
fn wav_round_trip_preserves_quantized_samples() {
    let floats = [0.0f32, 0.5, -0.5, 1.0, -1.0, 1.5, -2.0, 0.25, 0.9999, -0.0001];
    let samples: Vec<i16> = floats.iter().map(|&f| quantize(f)).collect();
    let bytes = encode_wav(&samples, 48000, 2).unwrap();
    let (decoded, rate, channels) = decode_wav(&bytes).unwrap();
    assert_eq!(decoded, samples);
    assert_eq!(rate, 48000);
    assert_eq!(channels, 2);
    for (i, &f) in floats.iter().enumerate() {
        let expected = (f.clamp(-1.0, 1.0) * 32767.0).round() as i16;
        assert_eq!(decoded[i], expected);
    }
}

#[test]
fn wav_is_readable_by_a_standard_reader() {
    let samples: Vec<i16> = vec![100, -100, 32767, -32767, 0];
    let bytes = encode_wav(&samples, 22050, 1).unwrap();
    let reader = hound::WavReader::new(std::io::Cursor::new(bytes)).unwrap();
    let spec = reader.spec();
    assert_eq!(spec.sample_rate, 22050);
    assert_eq!(spec.channels, 1);
    assert_eq!(spec.bits_per_sample, 16);
    assert_eq!(spec.sample_format, hound::SampleFormat::Int);
    let read_back: Vec<i16> = reader.into_samples::<i16>().map(|s| s.unwrap()).collect();
    assert_eq!(read_back, samples);
}

#[test]
fn decode_wav_rejects_corrupt_containers() {
    let samples: Vec<i16> = vec![1, 2, 3];
    let good = encode_wav(&samples, 8000, 1).unwrap();
    assert!(decode_wav(&good).is_some());

    let mut bad_magic = good.clone();
    bad_magic[0] = b'X';
    assert!(decode_wav(&bad_magic).is_none());

    let mut bad_size = good.clone();
    bad_size[40] = bad_size[40].wrapping_add(2);
    assert!(decode_wav(&bad_size).is_none());

    let truncated = good[..20].to_vec();
    assert!(decode_wav(&truncated).is_none());
}

// === Level sampler ===

#[test]
fn level_of_all_zero_buffer_is_silent() {
    let samples = vec![0i16; 4410];
    let stats = compute_level(&samples);
    assert_eq!(stats.rms, 0);
    assert_eq!(stats.peak, 0);
    assert!(stats.is_silent);
}

#[test]
fn level_of_constant_amplitude_buffer() {
    // A buffer pinned at amplitude 0.25 meters at rms = peak = 0.25.
    let q = quantize(0.25);
    let samples = vec![q; 1000];
    let stats = compute_level(&samples);
    assert_eq!(stats.rms, q as u16);
    assert_eq!(stats.peak, q as u16);
    assert!(!stats.is_silent);
    let rms_float = stats.rms as f32 / 32767.0;
    assert!((rms_float - 0.25).abs() < 0.001);
}

#[test]
fn level_of_square_wave_half_amplitude() {
    // A 0.5-amplitude square wave: rms = peak = 0.5, not silent.
    let q = quantize(0.5);
    let samples: Vec<i16> = (0..2000).map(|i| if i % 2 == 0 { q } else { -q }).collect();
    let stats = finish_level(samples, None).unwrap();
    assert_eq!(stats.rms, q as u16);
    assert_eq!(stats.peak, q as u16);
    assert!(!stats.is_silent);
    let rms_float = stats.rms as f32 / 32767.0;
    let peak_float = stats.peak as f32 / 32767.0;
    assert!((rms_float - 0.5).abs() < 0.001);
    assert!((peak_float - 0.5).abs() < 0.001);
}

#[test]
fn level_just_below_threshold_is_silent() {
    // 0.009 of full scale is below the 0.01 silence threshold.
    let samples = vec![quantize(0.009); 100];
    let stats = compute_level(&samples);
    assert!(stats.is_silent);
    // 0.011 is above it.
    let samples = vec![quantize(0.011); 100];
    let stats = compute_level(&samples);
    assert!(!stats.is_silent);
}

// === Device registry ===

#[test]
fn resolve_out_of_range_index_fails() {
    let devices = vec![
        device(0, "mic a", false, Some(f32_format(44100, 1))),
        device(1, "mic b", true, Some(f32_format(48000, 2))),
    ];
    assert_eq!(resolve_device(&devices, Some(2)), Err(AudioError::DeviceNotFound { index: 2 }));
    assert_eq!(resolve_device(&devices, Some(99)), Err(AudioError::DeviceNotFound { index: 99 }));
    assert_eq!(resolve_device(&devices, Some(1)), Ok(1));
    assert_eq!(resolve_device(&devices, Some(0)), Ok(0));
}

#[test]
fn resolve_default_on_empty_host_fails() {
    let devices: Vec<DeviceDescriptor> = Vec::new();
    assert_eq!(resolve_device(&devices, None), Err(AudioError::NoDefaultDevice));
    // A host with devices but no default behaves the same.
    let devices = vec![device(0, "mic a", false, None)];
    assert_eq!(resolve_device(&devices, None), Err(AudioError::NoDefaultDevice));
}

#[test]
fn resolve_none_picks_first_default() {
    let devices = vec![
        device(0, "mic a", false, None),
        device(1, "mic b", true, Some(f32_format(44100, 1))),
        device(2, "mic c", true, None),
    ];
    assert_eq!(resolve_device(&devices, None), Ok(1));
}

// === Stream planning ===

#[test]
fn plan_stream_carries_native_format() {
    let devices = vec![
        device(0, "mic a", false, Some(f32_format(44100, 1))),
        device(
            1,
            "mic b",
            true,
            Some(DeviceFormat {
                sample_rate: 48000,
                channel_count: 2,
                encoding: Some(SampleEncoding::SignedInt16),
            }),
        ),
    ];
    let plan = plan_stream(&devices, None).unwrap();
    assert_eq!(plan.device_index, 1);
    assert_eq!(plan.sample_rate, 48000);
    assert_eq!(plan.channel_count, 2);
    assert_eq!(plan.encoding, SampleEncoding::SignedInt16);
}

#[test]
fn plan_stream_fails_without_configuration() {
    let devices = vec![device(0, "mic a", true, None)];
    match plan_stream(&devices, Some(0)) {
        Err(AudioError::StreamBuildFailed { .. }) => {},
        other => panic!("unexpected result: {:?}", other),
    }
}

#[test]
fn plan_stream_fails_on_unsupported_encoding() {
    let devices = vec![device(
        0,
        "mic a",
        true,
        Some(DeviceFormat { sample_rate: 44100, channel_count: 1, encoding: None }),
    )];
    assert_eq!(plan_stream(&devices, Some(0)), Err(AudioError::UnsupportedFormat));
}

// === Timed capture controller ===

#[test]
fn capture_duration_is_clamped_not_rejected() {
    assert_eq!(clamp_capture_duration(Some(100)), 30);
    assert_eq!(clamp_capture_duration(Some(0)), 1);
    assert_eq!(clamp_capture_duration(Some(15)), 15);
    assert_eq!(clamp_capture_duration(None), 5);
    assert_eq!(clamp_level_duration(Some(5000)), 1000);
    assert_eq!(clamp_level_duration(Some(1)), 10);
    assert_eq!(clamp_level_duration(Some(250)), 250);
    assert_eq!(clamp_level_duration(None), 100);
}

#[test]
fn zero_sample_capture_fails_but_zero_sample_level_succeeds() {
    let capture = finish_capture(Vec::new(), None, 44100, 1);
    assert_eq!(capture, Err(AudioError::NoAudioCaptured));

    let level = finish_level(Vec::new(), None).unwrap();
    assert_eq!(level.rms, 0);
    assert_eq!(level.peak, 0);
    assert!(level.is_silent);
}

#[test]
fn stream_error_outranks_captured_audio() {
    let samples = vec![1000i16; 100];
    let capture = finish_capture(samples, Some("device disconnected".to_string()), 44100, 1);
    assert_eq!(
        capture,
        Err(AudioError::StreamFailed { detail: "device disconnected".to_string() })
    );

    let samples = vec![1000i16; 100];
    let level = finish_level(samples, Some("device disconnected".to_string()));
    assert_eq!(
        level,
        Err(AudioError::StreamFailed { detail: "device disconnected".to_string() })
    );
}

#[test]
fn five_seconds_of_mono_silence_encodes_as_expected() {
    // Five seconds of silence at 44100 Hz, mono: one container of
    // 2 * 5 * 44100 all-zero sample bytes behind the 44-byte header.
    let samples = vec![0i16; 5 * 44100];
    let container = finish_capture(samples, None, 44100, 1).unwrap();
    assert_eq!(container.sample_rate, 44100);
    assert_eq!(container.channel_count, 1);
    assert_eq!(container.bit_depth, 16);
    assert_eq!(container.data.len(), 44 + 2 * 5 * 44100);
    assert!(container.data[44..].iter().all(|&b| b == 0));

    let reader = hound::WavReader::new(std::io::Cursor::new(container.data)).unwrap();
    assert_eq!(reader.spec().sample_rate, 44100);
    assert_eq!(reader.spec().channels, 1);
    let read_back: Vec<i16> = reader.into_samples::<i16>().map(|s| s.unwrap()).collect();
    assert_eq!(read_back.len(), 5 * 44100);
    assert!(read_back.iter().all(|&s| s == 0));
}

#[test]
fn decode_wav_reads_a_standard_writer_output() {
    let spec = hound::WavSpec {
        channels: 1,
        sample_rate: 44100,
        bits_per_sample: 16,
        sample_format: hound::SampleFormat::Int,
    };
    let samples: Vec<i16> = vec![7, -7, 32767, -32768];
    let mut cursor = std::io::Cursor::new(Vec::new());
    {
        let mut writer = hound::WavWriter::new(&mut cursor, spec).unwrap();
        for &s in &samples {
            writer.write_sample(s).unwrap();
        }
        writer.finalize().unwrap();
    }
    let bytes = cursor.into_inner();
    let (decoded, rate, channels) = decode_wav(&bytes).unwrap();
    assert_eq!(decoded, samples);
    assert_eq!(rate, 44100);
    assert_eq!(channels, 1);
}

#[test]
fn supported_format_renders_for_display() {
    let f = SupportedFormat {
        min_sample_rate: 8000,
        max_sample_rate: 48000,
        channel_count: 2,
        encoding: Some(SampleEncoding::Float32),
    };
    assert_eq!(describe_format(&f), "8000Hz-48000Hz, 2 ch, Float32");

    let f = SupportedFormat {
        min_sample_rate: 44100,
        max_sample_rate: 44100,
        channel_count: 1,
        encoding: None,
    };
    assert_eq!(describe_format(&f), "44100Hz-44100Hz, 1 ch, Unsupported");
}
