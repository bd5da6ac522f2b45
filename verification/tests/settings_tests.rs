use noise_cancellation::settings::{EngineSettings, StreamSettings};

#[test]
fn default_settings() {
    let s = EngineSettings::default();
    assert_eq!(s.sample_rate, 48_000);
    assert_eq!(s.buffer_size, 256);
    assert_eq!(s.input_device, None);
    assert_eq!(s.output_device, None);
    assert!(s.enable_ultrasonic_cancellation);
    assert!(s.enable_spectral_gating);
}

#[test]
fn default_stream_is_mono_256_frames_at_48k() {
    let stream = EngineSettings::default().stream_settings();
    assert_eq!(stream, StreamSettings { channels: 1, sample_rate: 48_000, buffer_frames: 256 });
    // 256 samples at 48 kHz last about 5.3 ms.
    let ms = stream.buffer_frames as f64 * 1000.0 / stream.sample_rate as f64;
    assert!((ms - 5.333).abs() < 0.01);
}

#[test]
fn buffer_size_is_cast_to_u32() {
    let mut s = EngineSettings::default();
    s.buffer_size = (1usize << 32) + 7;
    assert_eq!(s.stream_settings().buffer_frames, 7);
}

#[test]
fn device_names_follow_configuration() {
    let mut s = EngineSettings::default();
    assert_eq!(s.input_device_name(), "default");
    assert_eq!(s.output_device_name(), "default");
    s.input_device = Some("Mic".to_string());
    assert_eq!(s.input_device_name(), "Mic");
    assert_eq!(s.output_device_name(), "default");
}
