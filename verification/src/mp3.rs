//! The frame-based lossy codec: 16-bit PCM encoded to MP3 in memory.
//!
//! The encoder is LAME, reached through the `mp3lame_encoder` crate.  The
//! protocol is two-phase: one `encode` call consumes the whole sample
//! buffer, then a mandatory gapless flush emits the buffered remainder;
//! both grow the output by exactly the byte counts they report.  Encoder
//! configuration is fixed: the requested channel count and sample rate,
//! 192 kbps, best quality.  With the configuration fixed, the finished
//! stream is a function of the samples, the channel count and the sample
//! rate alone, which `lame_mp3_of` names.  The float sample path lives with
//! the caller; this module takes the integer one.

use vstd::prelude::*;
use mp3lame_encoder::{Bitrate, Builder, FlushNoGap, InterleavedPcm, MonoPcm, Quality};
use crate::samples::{decode_i16_samples, i16_samples_spec, sample_values};

verus! {

/// Where an encode attempt failed: configuring and initializing the
/// encoder, the encode pass, or the final flush.
#[derive(Clone, Copy, Debug, PartialEq, Eq, Structural)]
pub enum Mp3Error {
    Setup,
    Encode,
    Finalize,
}

/// The complete MP3 stream LAME produces for the given sample values at the
/// fixed 192 kbps best-quality configuration: the encode-pass bytes followed
/// by the gapless-flush bytes.
pub uninterp spec fn lame_mp3_of(samples: Seq<int>, channels: int, sample_rate: int) -> Seq<u8>;

/// Relies on mp3lame_encoder::max_required_buffer_size: LAME's worst-case
/// output bound for the given per-channel sample count.
pub assume_specification[ mp3lame_encoder::max_required_buffer_size ](
    sample_number: usize,
) -> (r: usize);

/// Relies on mp3lame_encoder: `Builder::new`, `with_num_channels`,
/// `with_sample_rate`, `with_brate` and `with_quality` configure a fresh
/// LAME handle at the fixed 192 kbps best-quality settings and `build`
/// initializes it; `Encoder::encode_to_vec` then consumes the whole sample
/// buffer and `flush_to_vec::<FlushNoGap>` emits the gapless remainder, each
/// appending to the output exactly the bytes it reports.  A fresh encoder
/// and a fixed configuration make the finished stream depend on the samples,
/// channel count and sample rate alone, so on success what was appended is
/// `lame_mp3_of` of them.  Each error names the stage LAME refused; a
/// too-small output capacity surfaces as a failed stage, never as a partial
/// success.  An interleaved two-channel buffer must hold whole frames:
/// LAME's input wrapper asserts that in debug builds.
#[verifier::external_body]
fn lame_mp3_stream(samples: &[i16], channels: u32, sample_rate: u32, out: &mut Vec<u8>) -> (r:
    Result<(), Mp3Error>)
    requires
        channels == 1 || channels == 2,
        channels == 2 ==> samples@.len() % 2 == 0,
    ensures
        r is Ok ==> final(out)@ == old(out)@ + lame_mp3_of(
            sample_values(samples@),
            channels as int,
            sample_rate as int,
        ),
        old(out)@.is_prefix_of(final(out)@),
{
    let mut enc = Builder::new()
        .ok_or(Mp3Error::Setup)?
        .with_num_channels(channels as u8)
        .and_then(|b| b.with_sample_rate(sample_rate))
        .and_then(|b| b.with_brate(Bitrate::Kbps192))
        .and_then(|b| b.with_quality(Quality::Best))
        .and_then(|b| b.build())
        .map_err(|_| Mp3Error::Setup)?;
    match channels {
        2 => enc.encode_to_vec(InterleavedPcm(samples), out),
        _ => enc.encode_to_vec(MonoPcm(samples), out),
    }
        .map_err(|_| Mp3Error::Encode)?;
    enc.flush_to_vec::<FlushNoGap>(out).map_err(|_| Mp3Error::Finalize)?;
    Ok(())
}

/// Encodes a 16-bit interleaved PCM buffer to a complete MP3 stream in
/// memory: configure, encode the whole buffer, then flush gaplessly.  On
/// success the result is exactly the stream LAME produces for these samples,
/// the encode-pass bytes followed by the flush bytes.  Any step the encoder
/// refuses abandons the file and names the failed stage; nothing is flushed
/// after a failed encode pass.
pub fn encode_mp3_i16(data: &Vec<u8>, channels: u32, sample_rate: u32) -> (r: Result<
    Vec<u8>,
    Mp3Error,
>)
    requires
        channels == 1 || channels == 2,
        data@.len() % 2 == 0,
        channels == 2 ==> data@.len() % 4 == 0,
    ensures
        r matches Ok(v) ==> v@ == lame_mp3_of(
            i16_samples_spec(data@),
            channels as int,
            sample_rate as int,
        ),
{
    let samples = decode_i16_samples(data.as_slice());
    proof {
        if channels == 2 {
            let len = data@.len() as int;
            vstd::arithmetic::div_mod::lemma_fundamental_div_mod(len, 4);
            vstd::arithmetic::div_mod::lemma_div_multiples_vanish(2 * (len / 4), 2);
            assert(samples@.len() == 2 * (len / 4));
            vstd::arithmetic::div_mod::lemma_mod_multiples_basic(len / 4, 2);
            assert((2 * (len / 4)) % 2 == 0) by {
                assert(2 * (len / 4) == (len / 4) * 2) by (nonlinear_arith);
            }
        }
        assert(sample_values(samples@) =~= i16_samples_spec(data@));
    }
    let mut out: Vec<u8> = Vec::new();
    out.reserve(mp3lame_encoder::max_required_buffer_size(samples.len() / (channels as usize)));
    match lame_mp3_stream(samples.as_slice(), channels, sample_rate, &mut out) {
        Ok(()) => {
            proof {
                assert(out@ =~= lame_mp3_of(
                    i16_samples_spec(data@),
                    channels as int,
                    sample_rate as int,
                ));
            }
            Ok(out)
        },
        Err(e) => Err(e),
    }
}

} // verus!
