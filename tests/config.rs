use audiospeedhack::config::{
    bridge_capacity, plan_session, resolve_stream_config, CaptureConfig, OutputConfigRange,
    SampleFormat, SessionError, StreamConfig,
};

fn capture(rate: u32, channels: u16, format: SampleFormat) -> CaptureConfig {
    CaptureConfig { sample_rate: rate, channels, sample_format: format }
}

fn range(channels: u16, min: u32, max: u32, format: SampleFormat) -> OutputConfigRange {
    OutputConfigRange { channels, min_sample_rate: min, max_sample_rate: max, sample_format: format }
}

#[test]
fn stereo_at_48k_on_both_sides_resolves() {
    let outputs = vec![range(2, 8_000, 192_000, SampleFormat::F32)];
    let config = resolve_stream_config(&capture(48_000, 2, SampleFormat::F32), &outputs);
    assert_eq!(
        config,
        Ok(StreamConfig {
            sample_rate: 48_000,
            sample_format: SampleFormat::F32,
            input_channels: 2,
            output_channels: 2,
        })
    );
}

#[test]
fn non_float_capture_is_unsupported() {
    let outputs = vec![range(2, 8_000, 192_000, SampleFormat::F32)];
    let config = resolve_stream_config(&capture(48_000, 2, SampleFormat::I16), &outputs);
    assert_eq!(config, Err(SessionError::UnsupportedFormat));
}

#[test]
fn non_float_capture_fails_the_plan() {
    let outputs = vec![range(2, 8_000, 192_000, SampleFormat::F32)];
    let plan = plan_session(&capture(44_100, 2, SampleFormat::U8), &outputs);
    assert_eq!(plan, Err(SessionError::UnsupportedFormat));
}

#[test]
fn no_float_output_is_no_compatible_config() {
    let outputs = vec![
        range(2, 8_000, 192_000, SampleFormat::I16),
        range(2, 8_000, 44_100, SampleFormat::F32),
    ];
    let config = resolve_stream_config(&capture(48_000, 2, SampleFormat::F32), &outputs);
    assert_eq!(config, Err(SessionError::NoCompatibleOutputConfig));
}

#[test]
fn empty_output_list_is_no_compatible_config() {
    let config = resolve_stream_config(&capture(48_000, 2, SampleFormat::F32), &vec![]);
    assert_eq!(config, Err(SessionError::NoCompatibleOutputConfig));
}

#[test]
fn first_candidate_above_the_rate_is_out_of_range() {
    let outputs = vec![
        range(2, 96_000, 192_000, SampleFormat::F32),
        range(2, 8_000, 192_000, SampleFormat::F32),
    ];
    let config = resolve_stream_config(&capture(48_000, 2, SampleFormat::F32), &outputs);
    assert_eq!(config, Err(SessionError::SampleRateOutOfRange));
}

#[test]
fn channel_counts_are_taken_independently() {
    let outputs = vec![
        range(6, 8_000, 44_100, SampleFormat::F32),
        range(8, 48_000, 48_000, SampleFormat::F32),
        range(2, 8_000, 192_000, SampleFormat::F32),
    ];
    let config = resolve_stream_config(&capture(48_000, 1, SampleFormat::F32), &outputs).unwrap();
    assert_eq!(config.input_channels, 1);
    assert_eq!(config.output_channels, 8);
    assert_eq!(config.sample_rate, 48_000);
}

#[test]
fn bridge_capacity_rounds_frames_then_scales_by_channels() {
    assert_eq!(bridge_capacity(100, 48_000, 2), 9_600);
    assert_eq!(bridge_capacity(100, 44_100, 2), 8_820);
    assert_eq!(bridge_capacity(100, 22_055, 1), 2_206);
    assert_eq!(bridge_capacity(100, 22_054, 1), 2_205);
    assert_eq!(bridge_capacity(0, 48_000, 2), 0);
}

#[test]
fn plan_sizes_bridge_and_shifters() {
    let outputs = vec![range(2, 8_000, 192_000, SampleFormat::F32)];
    let plan = plan_session(&capture(48_000, 2, SampleFormat::F32), &outputs).unwrap();
    assert_eq!(plan.bridge_capacity, 9_600);
    assert_eq!(plan.shifter_count, 2);
    assert_eq!(plan.config.output_channels, 2);
}
