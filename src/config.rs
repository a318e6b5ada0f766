//! Stream configuration: the one shared configuration that the capture and
//! playback devices both honour, and the plan of a session built on it.

use vstd::prelude::*;

verus! {

/// Delay that the frame bridge can absorb between capture and playback, in
/// milliseconds.
pub const BUFFER_LATENCY_MS: u32 = 100;

/// Quality setting handed to each channel's pitch shifter: higher costs more
/// processing and gives more precision, never another output length.
pub const OVERSAMPLING: usize = 16;

/// Window length of each channel's pitch shifter, in milliseconds.
pub const WINDOW_DURATION_MS: usize = 22;

/// Sample encodings that an audio device may report.
#[derive(Clone, Copy, Debug, PartialEq, Eq, Structural)]
pub enum SampleFormat {
    I8,
    I16,
    I32,
    I64,
    U8,
    U16,
    U32,
    U64,
    F32,
    F64,
}

/// The default input configuration of the capture device.
#[derive(Clone, Copy, Debug, PartialEq, Eq, Structural)]
pub struct CaptureConfig {
    pub sample_rate: u32,
    pub channels: u16,
    pub sample_format: SampleFormat,
}

/// One family of output configurations that the playback device supports:
/// one channel count and format over a range of sample rates.
#[derive(Clone, Copy, Debug, PartialEq, Eq, Structural)]
pub struct OutputConfigRange {
    pub channels: u16,
    pub min_sample_rate: u32,
    pub max_sample_rate: u32,
    pub sample_format: SampleFormat,
}

/// The configuration of a session, fixed once resolved. The sample format
/// is always single-precision float.
#[derive(Clone, Copy, Debug, PartialEq, Eq, Structural)]
pub struct StreamConfig {
    pub sample_rate: u32,
    pub sample_format: SampleFormat,
    pub input_channels: u16,
    pub output_channels: u16,
}

/// Configuration errors; each ends the session before any stream starts.
#[derive(Clone, Copy, Debug, PartialEq, Eq, Structural)]
pub enum SessionError {
    /// The capture device does not deliver single-precision floats.
    UnsupportedFormat,
    /// No output configuration uses floats at a rate as high as the capture
    /// rate.
    NoCompatibleOutputConfig,
    /// The output configuration that was picked does not reach down to the
    /// capture rate.
    SampleRateOutOfRange,
    /// The device index names no usable device.
    DeviceIndexOutOfRange,
    /// No usable device exists for the direction asked for.
    NoDevicesAvailable,
}

/// Whether an output configuration family can carry a stream captured at
/// `rate`: it uses floats and reaches up to `rate`.
pub open spec fn is_candidate(range: OutputConfigRange, rate: u32) -> bool {
    range.sample_format == SampleFormat::F32 && range.max_sample_rate >= rate
}

/// The first candidate among `outputs`, in their order.
pub open spec fn first_candidate(outputs: Seq<OutputConfigRange>, rate: u32) -> Option<
    OutputConfigRange,
>
    decreases outputs.len(),
{
    if outputs.len() == 0 {
        None
    } else if is_candidate(outputs[0], rate) {
        Some(outputs[0])
    } else {
        first_candidate(outputs.drop_first(), rate)
    }
}

/// The configuration resolved from the capture device's default input
/// configuration and the playback device's supported output
/// configurations, or the error that stops it.
pub open spec fn resolved(capture: CaptureConfig, outputs: Seq<OutputConfigRange>) -> Result<
    StreamConfig,
    SessionError,
> {
    if capture.sample_format != SampleFormat::F32 {
        Err(SessionError::UnsupportedFormat)
    } else {
        match first_candidate(outputs, capture.sample_rate) {
            None => Err(SessionError::NoCompatibleOutputConfig),
            Some(range) => if range.min_sample_rate <= capture.sample_rate {
                Ok(
                    StreamConfig {
                        sample_rate: capture.sample_rate,
                        sample_format: SampleFormat::F32,
                        input_channels: capture.channels,
                        output_channels: range.channels,
                    },
                )
            } else {
                Err(SessionError::SampleRateOutOfRange)
            },
        }
    }
}

/// Resolves the session's stream configuration: the capture device must
/// deliver floats; the first playback family that uses floats and reaches
/// up to the capture rate is asked for exactly that rate. The channel
/// counts of the two sides are taken independently.
pub fn resolve_stream_config(capture: &CaptureConfig, outputs: &Vec<OutputConfigRange>) -> (r:
    Result<StreamConfig, SessionError>)
    ensures
        r == resolved(*capture, outputs@),
{
    if capture.sample_format != SampleFormat::F32 {
        return Err(SessionError::UnsupportedFormat);
    }
    let rate = capture.sample_rate;
    let mut i: usize = 0;
    assert(outputs@.skip(0) =~= outputs@);
    while i < outputs.len()
        invariant
            i <= outputs@.len(),
            rate == capture.sample_rate,
            capture.sample_format == SampleFormat::F32,
            first_candidate(outputs@, rate) == first_candidate(outputs@.skip(i as int), rate),
        decreases outputs@.len() - i,
    {
        let range = outputs[i];
        assert(outputs@.skip(i as int)[0] == range);
        if range.sample_format == SampleFormat::F32 && range.max_sample_rate >= rate {
            assert(first_candidate(outputs@.skip(i as int), rate) == Some(range));
            if range.min_sample_rate <= rate {
                return Ok(
                    StreamConfig {
                        sample_rate: rate,
                        sample_format: SampleFormat::F32,
                        input_channels: capture.channels,
                        output_channels: range.channels,
                    },
                );
            } else {
                return Err(SessionError::SampleRateOutOfRange);
            }
        }
        assert(outputs@.skip(i as int).drop_first() =~= outputs@.skip(i + 1));
        i = i + 1;
    }
    Err(SessionError::NoCompatibleOutputConfig)
}

/// When the capture device delivers floats and the first output family
/// uses floats over a range that holds the capture rate, the session runs
/// at the capture rate, with the capture device's channel count on the
/// input side and that family's channel count on the output side.
pub proof fn lemma_matching_devices_resolve(
    capture: CaptureConfig,
    outputs: Seq<OutputConfigRange>,
)
    requires
        capture.sample_format == SampleFormat::F32,
        outputs.len() > 0,
        outputs[0].sample_format == SampleFormat::F32,
        outputs[0].min_sample_rate <= capture.sample_rate <= outputs[0].max_sample_rate,
    ensures
        resolved(capture, outputs) == Ok::<StreamConfig, SessionError>(
            StreamConfig {
                sample_rate: capture.sample_rate,
                sample_format: SampleFormat::F32,
                input_channels: capture.channels,
                output_channels: outputs[0].channels,
            },
        ),
{
}

/// Frames of audio that `latency_ms` milliseconds hold at `sample_rate`,
/// rounded to the nearest frame (halves up).
pub open spec fn latency_frames(latency_ms: nat, sample_rate: nat) -> nat {
    (latency_ms * sample_rate + 500) / 1000
}

/// Number of samples that the frame bridge holds: the latency budget in
/// frames, times the input channel count.
pub fn bridge_capacity(latency_ms: u32, sample_rate: u32, channels: u16) -> (r: usize)
    requires
        latency_frames(latency_ms as nat, sample_rate as nat) * channels <= usize::MAX,
    ensures
        r == latency_frames(latency_ms as nat, sample_rate as nat) * channels,
{
    let l = latency_ms as u64;
    let s = sample_rate as u64;
    proof {
        assert(l * s <= 0xFFFF_FFFFu64 * 0xFFFF_FFFFu64) by (nonlinear_arith)
            requires
                l <= 0xFFFF_FFFFu64,
                s <= 0xFFFF_FFFFu64,
        ;
    }
    let frames: u64 = (l * s + 500) / 1000;
    if channels == 0 {
        return 0;
    }
    assert(frames <= frames * channels) by (nonlinear_arith)
        requires
            channels >= 1,
    ;
    (frames as usize) * (channels as usize)
}

/// What a session is built from: its stream configuration, the frame
/// bridge's capacity, and how many pitch shifters it runs.
#[derive(Clone, Copy, Debug, PartialEq, Eq, Structural)]
pub struct SessionPlan {
    pub config: StreamConfig,
    pub bridge_capacity: usize,
    pub shifter_count: usize,
}

/// Plans a session: resolves the configuration, sizes the frame bridge for
/// [`BUFFER_LATENCY_MS`], and asks for one pitch shifter per input channel.
/// An error comes before any stream exists.
pub fn plan_session(capture: &CaptureConfig, outputs: &Vec<OutputConfigRange>) -> (r: Result<
    SessionPlan,
    SessionError,
>)
    requires
        latency_frames(BUFFER_LATENCY_MS as nat, capture.sample_rate as nat) * capture.channels
            <= usize::MAX,
    ensures
        match resolved(*capture, outputs@) {
            Err(e) => r == Err::<SessionPlan, SessionError>(e),
            Ok(config) => r == Ok::<SessionPlan, SessionError>(
                SessionPlan {
                    config,
                    bridge_capacity: (latency_frames(
                        BUFFER_LATENCY_MS as nat,
                        config.sample_rate as nat,
                    ) * config.input_channels) as usize,
                    shifter_count: config.input_channels as usize,
                },
            ),
        },
{
    match resolve_stream_config(capture, outputs) {
        Err(e) => Err(e),
        Ok(config) => {
            Ok(
            SessionPlan {
                config,
                bridge_capacity: bridge_capacity(
                    BUFFER_LATENCY_MS,
                    config.sample_rate,
                    config.input_channels,
                ),
                shifter_count: config.input_channels as usize,
            },
        )
        },
    }
}

} // verus!
