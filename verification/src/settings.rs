use vstd::prelude::*;
use crate::devices::{requested_device_name, spec_requested_name};
use crate::pipeline::{Stage, spec_stage_plan, stage_plan};

verus! {

/// The settings of the engine that its decisions read: stream format, device
/// choice and which optional stages run.
#[derive(Debug, Clone)]
pub struct EngineSettings {
    /// Samples per second.
    pub sample_rate: u32,
    /// Samples per device buffer.
    pub buffer_size: usize,
    /// Name of the input device, or `None` for the default one.
    pub input_device: Option<String>,
    /// Name of the output device, or `None` for the default one.
    pub output_device: Option<String>,
    /// Whether the ultrasonic filter runs.
    pub enable_ultrasonic_cancellation: bool,
    /// Whether the spectral gate runs.
    pub enable_spectral_gating: bool,
}

/// The format in which the audio streams are opened.
#[derive(Debug, Clone, Copy, PartialEq, Eq, Structural)]
pub struct StreamSettings {
    /// Number of interleaved channels.
    pub channels: u16,
    /// Samples per second.
    pub sample_rate: u32,
    /// Frames per device buffer.
    pub buffer_frames: u32,
}

impl Default for EngineSettings {
    /// 48 kHz, 256-sample buffers, the default devices, all stages on.
    fn default() -> (settings: Self)
        ensures
            settings.sample_rate == 48_000,
            settings.buffer_size == 256,
            settings.input_device is None,
            settings.output_device is None,
            settings.enable_ultrasonic_cancellation,
            settings.enable_spectral_gating,
    {
        EngineSettings {
            sample_rate: 48_000,
            buffer_size: 256,
            input_device: None,
            output_device: None,
            enable_ultrasonic_cancellation: true,
            enable_spectral_gating: true,
        }
    }
}

impl EngineSettings {
    /// The stages that run under these settings, in order.
    pub fn stage_plan(&self) -> (plan: Vec<Stage>)
        ensures
            plan@ == spec_stage_plan(self.enable_ultrasonic_cancellation, self.enable_spectral_gating),
    {
        stage_plan(self.enable_ultrasonic_cancellation, self.enable_spectral_gating)
    }

    /// The format of both streams: one channel at the configured rate, with
    /// fixed buffers of the configured size taken as a `u32` (as a cast: only
    /// the low 32 bits of a larger size are kept).
    pub fn stream_settings(&self) -> (stream: StreamSettings)
        ensures
            stream.channels == 1,
            stream.sample_rate == self.sample_rate,
            stream.buffer_frames == self.buffer_size as u32,
    {
        StreamSettings {
            channels: 1,
            sample_rate: self.sample_rate,
            buffer_frames: self.buffer_size as u32,
        }
    }

    /// The name under which the input device is looked up.
    pub fn input_device_name(&self) -> (name: String)
        ensures
            name@ == spec_requested_name(self.input_device),
    {
        requested_device_name(&self.input_device)
    }

    /// The name under which the output device is looked up.
    pub fn output_device_name(&self) -> (name: String)
        ensures
            name@ == spec_requested_name(self.output_device),
    {
        requested_device_name(&self.output_device)
    }
}

} // verus!
