//! Per-task render orchestration: the engine parameter record, the
//! pessimistic buffer capacity, and what happens to a rendered buffer
//! (truncation to the reported length, then the silence-skip policy).
//!
//! The synthesis engine itself is driven outside this crate; everything it
//! needs and everything decided about its output is stated here.

use vstd::prelude::*;
use crate::tasks::{RenderTask, Selector};

verus! {

/// Extra whole seconds allocated past the nominal duration, absorbing
/// release and reverb tails the engine may emit.
pub const SAFETY_MARGIN_SECONDS: u64 = 5;

/// The parameter record handed to the synthesis engine for one render call.
/// Field for field this is the engine's cross-boundary contract; a channel
/// or instrument of `-1` means "all".
#[derive(Clone, Copy, Debug, PartialEq, Eq, Structural)]
pub struct RenderParams {
    pub sample_rate: u32,
    pub bytes_per_sample: u32,
    pub channel_to_play: i32,
    pub instrument_to_play: i32,
    pub stereo_separation: u32,
    pub stereo_separation_enabled: bool,
    pub stereo_output: bool,
}

/// File-level rendering configuration: the output sample rate, whether
/// samples are 32-bit float rather than 16-bit integer, and an optional
/// stereo-separation override in percent.
#[derive(Clone, Copy, Debug, PartialEq, Eq, Structural)]
pub struct RenderConfig {
    pub sample_rate: u32,
    pub float_samples: bool,
    pub stereo_separation: Option<u32>,
}

/// Bytes per sample: 4 for 32-bit float output, 2 for 16-bit integer output.
pub open spec fn bytes_per_sample_spec(float_samples: bool) -> int {
    if float_samples { 4 } else { 2 }
}

/// Output channel count of a task: 2 when it renders stereo, else 1.
pub open spec fn output_channels_spec(task: RenderTask) -> int {
    if task.stereo { 2 } else { 1 }
}

/// The engine's integer encoding of a selector: `-1` for all, else the index.
pub open spec fn selector_code_spec(s: Selector) -> int {
    match s {
        Selector::All => -1,
        Selector::One(i) => i as int,
    }
}

/// Stereo separation handed to the engine: the configured percentage with
/// the enabled flag set, or the engine default of 100 with it clear.
pub open spec fn separation_spec(config: RenderConfig) -> (int, bool) {
    match config.stereo_separation {
        Some(s) => (s as int, true),
        None => (100, false),
    }
}

/// Builds the engine parameter record for one task.
pub fn render_params_for(task: &RenderTask, config: &RenderConfig) -> (p: RenderParams)
    requires
        selector_code_spec(task.channel) <= i32::MAX,
        selector_code_spec(task.instrument) <= i32::MAX,
    ensures
        p.sample_rate == config.sample_rate,
        p.bytes_per_sample == bytes_per_sample_spec(config.float_samples),
        p.channel_to_play == selector_code_spec(task.channel),
        p.instrument_to_play == selector_code_spec(task.instrument),
        p.stereo_separation == separation_spec(*config).0,
        p.stereo_separation_enabled == separation_spec(*config).1,
        p.stereo_output == task.stereo,
{
    let channel_to_play: i32 = match task.channel {
        Selector::All => -1,
        Selector::One(c) => c as i32,
    };
    let instrument_to_play: i32 = match task.instrument {
        Selector::All => -1,
        Selector::One(i) => i as i32,
    };
    let (stereo_separation, stereo_separation_enabled): (u32, bool) = match config
        .stereo_separation {
        Some(s) => (s, true),
        None => (100, false),
    };
    RenderParams {
        sample_rate: config.sample_rate,
        bytes_per_sample: if config.float_samples { 4 } else { 2 },
        channel_to_play,
        instrument_to_play,
        stereo_separation,
        stereo_separation_enabled,
        stereo_output: task.stereo,
    }
}

/// Byte capacity allocated for one render: the duration rounded up plus the
/// safety margin, times sample rate, bytes per sample and output channels.
/// Always an over-estimate of what the engine writes.
pub open spec fn capacity_bytes_spec(
    duration_ceil: int,
    sample_rate: int,
    bytes_per_sample: int,
    channels: int,
) -> int {
    (duration_ceil + SAFETY_MARGIN_SECONDS) * sample_rate * bytes_per_sample * channels
}

/// Computes the allocation capacity in bytes for one render call.
pub fn capacity_bytes(
    duration_ceil: u32,
    sample_rate: u32,
    bytes_per_sample: u32,
    channels: u32,
) -> (cap: u64)
    requires
        sample_rate <= 192000,
        bytes_per_sample <= 4,
        channels <= 2,
    ensures
        cap == capacity_bytes_spec(
            duration_ceil as int,
            sample_rate as int,
            bytes_per_sample as int,
            channels as int,
        ),
{
    let seconds: u64 = duration_ceil as u64 + SAFETY_MARGIN_SECONDS;
    assert(seconds * sample_rate <= 0x1_0000_0005u64 * 192000) by (nonlinear_arith)
        requires
            seconds <= 0x1_0000_0005u64,
            sample_rate <= 192000,
    ;
    let per_channel_rate: u64 = seconds * (sample_rate as u64);
    assert(per_channel_rate * bytes_per_sample <= 0x1_0000_0005u64 * 192000 * 4)
        by (nonlinear_arith)
        requires
            per_channel_rate <= 0x1_0000_0005u64 * 192000,
            bytes_per_sample <= 4,
    ;
    let per_channel: u64 = per_channel_rate * (bytes_per_sample as u64);
    assert(per_channel * channels <= 0x1_0000_0005u64 * 192000 * 4 * 2) by (nonlinear_arith)
        requires
            per_channel <= 0x1_0000_0005u64 * 192000 * 4,
            channels <= 2,
    ;
    per_channel * (channels as u64)
}

/// Allocates the zero-initialized render buffer.
pub fn alloc_buffer(capacity: usize) -> (buf: Vec<u8>)
    ensures
        buf@.len() == capacity,
        forall|i: int| 0 <= i < capacity ==> buf@[i] == 0,
{
    let mut buf: Vec<u8> = Vec::new();
    let mut i: usize = 0;
    while i < capacity
        invariant
            i <= capacity,
            buf@.len() == i,
            forall|j: int| 0 <= j < i ==> buf@[j] == 0,
        decreases capacity - i,
    {
        buf.push(0u8);
        i = i + 1;
    }
    buf
}

/// A rendered buffer is silent when every byte of it is zero.
pub open spec fn is_silent(s: Seq<u8>) -> bool {
    forall|i: int| 0 <= i < s.len() ==> s[i] == 0
}

/// The output a task keeps for a reported render length: the allocation
/// truncated to that length, or nothing when the report exceeds the
/// allocation (a violation of the engine's interface, treated as a failed
/// render).
pub open spec fn accepted_output(buf: Seq<u8>, rendered_len: int) -> Option<Seq<u8>> {
    if 0 <= rendered_len <= buf.len() {
        Some(buf.subrange(0, rendered_len))
    } else {
        None
    }
}

/// The silence-skip policy: a buffer is written out exactly when at least
/// one of its bytes is nonzero.
pub open spec fn writes_output(s: Seq<u8>) -> bool {
    !is_silent(s)
}

/// Truncates the render buffer to the length the engine reported.  Returns
/// false, leaving the buffer alone, when the report exceeds the allocation.
pub fn truncate_rendered(buffer: &mut Vec<u8>, rendered_len: usize) -> (accepted: bool)
    ensures
        accepted == (rendered_len <= old(buffer)@.len()),
        accepted ==> Some(final(buffer)@) == accepted_output(old(buffer)@, rendered_len as int),
        !accepted ==> final(buffer)@ == old(buffer)@,
{
    if rendered_len <= buffer.len() {
        buffer.truncate(rendered_len);
        true
    } else {
        false
    }
}

/// Scans the full buffer and decides the silence-skip policy: true exactly
/// when some byte is nonzero, so an all-zero render produces no file.
pub fn should_write_output(buffer: &Vec<u8>) -> (write: bool)
    ensures
        write == writes_output(buffer@),
{
    let n = buffer.len();
    let mut i: usize = 0;
    while i < n
        invariant
            n == buffer@.len(),
            i <= n,
            forall|j: int| 0 <= j < i ==> buffer@[j] == 0,
        decreases n - i,
    {
        if *buffer.get(i).unwrap() != 0 {
            return true;
        }
        i = i + 1;
    }
    false
}

/// What became of one render: the engine's length report was rejected, the
/// truncated buffer was all silence, or the buffer is to be written.
#[derive(Clone, Copy, Debug, PartialEq, Eq, Structural)]
pub enum RenderOutcome {
    RejectedLength,
    Silent,
    Write,
}

/// Decides a whole rendered task: truncates the buffer to the reported
/// length, then applies the silence-skip policy to what remains.  Exactly
/// the write outcome hands the buffer on to a codec writer.
pub fn finish_render(buffer: &mut Vec<u8>, rendered_len: usize) -> (outcome: RenderOutcome)
    ensures
        (outcome is RejectedLength) == (rendered_len > old(buffer)@.len()),
        outcome is RejectedLength ==> final(buffer)@ == old(buffer)@,
        !(outcome is RejectedLength) ==> Some(final(buffer)@) == accepted_output(
            old(buffer)@,
            rendered_len as int,
        ),
        (outcome is Write) == (rendered_len <= old(buffer)@.len() && writes_output(
            old(buffer)@.subrange(0, rendered_len as int),
        )),
        (outcome is Silent) == (rendered_len <= old(buffer)@.len() && is_silent(
            old(buffer)@.subrange(0, rendered_len as int),
        )),
{
    if !truncate_rendered(buffer, rendered_len) {
        return RenderOutcome::RejectedLength;
    }
    if should_write_output(buffer) {
        RenderOutcome::Write
    } else {
        RenderOutcome::Silent
    }
}

/// Capacity over-estimation invariant: whatever render length the engine
/// reports, the buffer a codec writer can ever receive is no longer than
/// the allocated capacity.
pub proof fn lemma_rendered_within_capacity(buf: Seq<u8>, rendered_len: int, out: Seq<u8>)
    requires
        accepted_output(buf, rendered_len) == Some(out),
    ensures
        out.len() <= buf.len(),
        out.len() == rendered_len,
{
    assert(accepted_output(buf, rendered_len) is Some);
}

/// Silence-skip law: an all-zero buffer never produces an output file, and
/// a buffer with at least one nonzero byte always does.
pub proof fn lemma_silence_skip(s: Seq<u8>)
    ensures
        is_silent(s) ==> !writes_output(s),
        (exists|i: int| 0 <= i < s.len() && s[i] != 0) ==> writes_output(s),
{
}

} // verus!
