//! The per-task plan: everything decided before the engine runs.
//!
//! For one task this fixes the engine parameter record, the pessimistic
//! buffer capacity and the output file name; it also fixes the per-codec
//! configuration the writers use: the lossless encoder's bit depth,
//! compression effort and verification switch, and the block-based
//! encoder's bitrate management strategy.

use vstd::prelude::*;
use crate::SongMetadata;
use crate::names::{WriteFormat, file_name, file_name_spec};
use crate::render::{
    RenderConfig, RenderParams, bytes_per_sample_spec, capacity_bytes, capacity_bytes_spec,
    output_channels_spec, render_params_for, selector_code_spec,
};
use crate::tasks::{RenderTask, Selector};

verus! {

/// Everything one render task needs before the engine is invoked.
pub struct RenderPlan {
    pub params: RenderParams,
    pub capacity: u64,
    pub file_name: String,
}

/// The block-based codec writes float samples, so rendering for it always
/// uses float output whatever depth was asked for.
pub fn effective_float_samples(float_requested: bool, format: WriteFormat) -> (f: bool)
    ensures
        f == (float_requested || format is Vorbis),
{
    float_requested || format == WriteFormat::Vorbis
}

/// Builds the complete plan for one task: the engine parameter record, the
/// over-estimated buffer capacity and the collision-free output name.
pub fn plan_task(
    meta: &SongMetadata,
    config: &RenderConfig,
    task: &RenderTask,
    stem: &str,
    format: WriteFormat,
) -> (plan: RenderPlan)
    requires
        meta.is_valid_spec(),
        config.sample_rate <= 192000,
        selector_code_spec(task.channel) <= i32::MAX,
        selector_code_spec(task.instrument) <= i32::MAX,
        task.instrument matches Selector::One(i) ==> i < u32::MAX,
    ensures
        plan.params == render_params_spec(*task, *config),
        plan.capacity == capacity_bytes_spec(
            meta.duration_seconds_ceil as int,
            config.sample_rate as int,
            bytes_per_sample_spec(config.float_samples),
            output_channels_spec(*task),
        ),
        plan.file_name@ == file_name_spec(stem@, task.channel, task.instrument, format),
{
    let params = render_params_for(task, config);
    let channels: u32 = if task.stereo {
        2
    } else {
        1
    };
    let capacity = capacity_bytes(
        meta.duration_seconds_ceil,
        config.sample_rate,
        params.bytes_per_sample,
        channels,
    );
    let name = file_name(stem, task.channel, task.instrument, format);
    RenderPlan { params, capacity, file_name: name }
}

/// The engine parameter record a task and configuration determine.
pub open spec fn render_params_spec(task: RenderTask, config: RenderConfig) -> RenderParams {
    RenderParams {
        sample_rate: config.sample_rate,
        bytes_per_sample: bytes_per_sample_spec(config.float_samples) as u32,
        channel_to_play: selector_code_spec(task.channel) as i32,
        instrument_to_play: selector_code_spec(task.instrument) as i32,
        stereo_separation: crate::render::separation_spec(config).0 as u32,
        stereo_separation_enabled: crate::render::separation_spec(config).1,
        stereo_output: task.stereo,
    }
}

/// Configuration handed to the lossless encoder: 24-bit depth for float
/// input (scaled down by the writer), 16-bit for integer input; maximum
/// compression effort; output verification on.
#[derive(Clone, Copy, Debug, PartialEq, Eq, Structural)]
pub struct FlacConfig {
    pub bits_per_sample: u32,
    pub compression_level: u32,
    pub verify: bool,
}

/// Fixes the lossless encoder's configuration from the sample depth.
pub fn flac_config(bytes_per_sample: u32) -> (c: FlacConfig)
    requires
        bytes_per_sample == 2 || bytes_per_sample == 4,
    ensures
        c.bits_per_sample == (if bytes_per_sample == 4 { 24int } else { 16int }),
        c.compression_level == 8,
        c.verify == true,
{
    FlacConfig {
        bits_per_sample: if bytes_per_sample == 4 {
            24
        } else {
            16
        },
        compression_level: 8,
        verify: true,
    }
}

/// The block-based codec's four mutually exclusive bitrate managements.
#[derive(Clone, Copy, Debug, PartialEq, Eq, Structural)]
pub enum OggMode {
    Vbr,
    QualityVbr,
    Abr,
    ConstrainedAbr,
}

/// The strategy handed to the block-based encoder.  Bitrates are in bits
/// per second; the quality target of `QualityVbr` is a unit interval value
/// that the writer clamps and passes through as it stands.
#[derive(Clone, Copy, Debug, PartialEq, Eq, Structural)]
pub enum VorbisStrategy {
    Vbr { target_bitrate: u32 },
    QualityVbr,
    Abr { average_bitrate: u32 },
    ConstrainedAbr { maximum_bitrate: u32 },
}

/// Selects the bitrate management strategy: the configured kilobit rate
/// scaled to bits per second under the mode's own name, or the quality
/// target mode.
pub fn vorbis_strategy(mode: OggMode, bitrate_kbps: u32) -> (s: VorbisStrategy)
    requires
        bitrate_kbps * 1000 <= u32::MAX,
    ensures
        mode is Vbr ==> s == (VorbisStrategy::Vbr { target_bitrate: (bitrate_kbps * 1000) as u32 }),
        mode is Abr ==> s == (VorbisStrategy::Abr {
            average_bitrate: (bitrate_kbps * 1000) as u32,
        }),
        mode is ConstrainedAbr ==> s == (VorbisStrategy::ConstrainedAbr {
            maximum_bitrate: (bitrate_kbps * 1000) as u32,
        }),
        mode is QualityVbr ==> s == VorbisStrategy::QualityVbr,
{
    let bps: u32 = bitrate_kbps * 1000;
    match mode {
        OggMode::Vbr => VorbisStrategy::Vbr { target_bitrate: bps },
        OggMode::QualityVbr => VorbisStrategy::QualityVbr,
        OggMode::Abr => VorbisStrategy::Abr { average_bitrate: bps },
        OggMode::ConstrainedAbr => VorbisStrategy::ConstrainedAbr { maximum_bitrate: bps },
    }
}

} // verus!
