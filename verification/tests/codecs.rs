use core::num::{NonZeroU32, NonZeroU8};
use stemgen::blocks::block_plan;
use stemgen::mp3::{encode_mp3_i16, Mp3Error};
use stemgen::plan::{flac_config, vorbis_strategy, OggMode, VorbisStrategy};
use stemgen::samples::{
    deinterleave_two_channels, i16_from_le_pair, i16_to_le_pair, widen_i16_samples,
};
use vorbis_rs::{VorbisBitrateManagementStrategy, VorbisEncoderBuilder};

#[test]
fn block_plan_covers_exactly() {
    // 100000 samples at one-second blocks of 48000: two full blocks and a
    // short tail, no gap and no overlap.
    let plan = block_plan(100_000, 48_000);
    assert_eq!(plan, vec![(0, 48_000), (48_000, 48_000), (96_000, 4_000)]);
    let total: usize = plan.iter().map(|b| b.1).sum();
    assert_eq!(total, 100_000);
    // An exact multiple has no tail block.
    assert_eq!(block_plan(96_000, 48_000), vec![(0, 48_000), (48_000, 48_000)]);
    // Nothing to submit for an empty buffer.
    assert_eq!(block_plan(0, 48_000), vec![]);
    // A buffer shorter than one block is one short block.
    assert_eq!(block_plan(7, 48_000), vec![(0, 7)]);
}

#[test]
fn deinterleave_splits_frames() {
    let data: Vec<u8> = (0u8..16).collect();
    let (left, right) = deinterleave_two_channels(&data, 4);
    assert_eq!(left, vec![0, 1, 2, 3, 8, 9, 10, 11]);
    assert_eq!(right, vec![4, 5, 6, 7, 12, 13, 14, 15]);
    let (l2, r2) = deinterleave_two_channels(&data, 2);
    assert_eq!(l2, vec![0, 1, 4, 5, 8, 9, 12, 13]);
    assert_eq!(r2, vec![2, 3, 6, 7, 10, 11, 14, 15]);
}

#[test]
fn sixteen_bit_samples_round_trip() {
    for s in [i16::MIN, -1, 0, 1, 257, i16::MAX] {
        let (lo, hi) = i16_to_le_pair(s);
        assert_eq!([lo, hi], s.to_le_bytes());
        assert_eq!(i16_from_le_pair(lo, hi), s);
    }
}

#[test]
fn widening_preserves_sample_values() {
    let samples: Vec<i16> = vec![i16::MIN, -1, 0, 1, i16::MAX, -12345];
    let mut data: Vec<u8> = Vec::new();
    for s in &samples {
        data.extend_from_slice(&s.to_le_bytes());
    }
    let wide = widen_i16_samples(&data);
    assert_eq!(wide.len(), samples.len());
    for (w, s) in wide.iter().zip(samples.iter()) {
        assert_eq!(*w, *s as i32);
        // Narrowing back is exact: the integer route loses nothing.
        assert_eq!(*w as i16, *s);
    }
}

#[test]
fn lossless_encoder_configuration() {
    let float_cfg = flac_config(4);
    assert_eq!(float_cfg.bits_per_sample, 24);
    assert_eq!(float_cfg.compression_level, 8);
    assert!(float_cfg.verify);
    let int_cfg = flac_config(2);
    assert_eq!(int_cfg.bits_per_sample, 16);
    assert_eq!(int_cfg.compression_level, 8);
    assert!(int_cfg.verify);
}

#[test]
fn vorbis_strategy_scales_kilobits() {
    assert_eq!(
        vorbis_strategy(OggMode::Vbr, 160),
        VorbisStrategy::Vbr {
            target_bitrate: 160_000
        }
    );
    assert_eq!(
        vorbis_strategy(OggMode::Abr, 96),
        VorbisStrategy::Abr {
            average_bitrate: 96_000
        }
    );
    assert_eq!(
        vorbis_strategy(OggMode::ConstrainedAbr, 192),
        VorbisStrategy::ConstrainedAbr {
            maximum_bitrate: 192_000
        }
    );
    assert_eq!(vorbis_strategy(OggMode::QualityVbr, 160), VorbisStrategy::QualityVbr);
}

#[test]
fn mp3_stream_is_produced_for_int16_input() {
    // A second of a quiet square wave, mono 16-bit.
    let mut data: Vec<u8> = Vec::new();
    for i in 0..44_100i32 {
        let s: i16 = if (i / 100) % 2 == 0 { 2000 } else { -2000 };
        data.extend_from_slice(&s.to_le_bytes());
    }
    let out = encode_mp3_i16(&data, 1, 44_100).expect("the encoder accepts plain mono PCM");
    assert!(!out.is_empty());
    let stereo = encode_mp3_i16(&data, 2, 44_100).expect("the encoder accepts stereo PCM");
    assert!(!stereo.is_empty());
}

#[test]
fn mp3_rejects_an_impossible_sample_rate() {
    let data: Vec<u8> = vec![0u8; 64];
    assert_eq!(encode_mp3_i16(&data, 1, 0), Err(Mp3Error::Setup));
}

#[test]
fn vorbis_blocks_encode_through_the_plan() {
    // Drive a real block-based encode with the library's deinterleaving and
    // block plan: 1.5 blocks of stereo float samples.
    let frames = 72_000usize;
    let mut interleaved: Vec<u8> = Vec::new();
    for i in 0..frames {
        let l = ((i % 100) as f32 / 100.0) * 0.1;
        let r = -l;
        interleaved.extend_from_slice(&l.to_le_bytes());
        interleaved.extend_from_slice(&r.to_le_bytes());
    }
    let (left_bytes, right_bytes) = deinterleave_two_channels(&interleaved, 4);
    let to_f32 = |bytes: &[u8]| -> Vec<f32> {
        bytes
            .chunks_exact(4)
            .map(|c| f32::from_le_bytes([c[0], c[1], c[2], c[3]]))
            .collect()
    };
    let left = to_f32(&left_bytes);
    let right = to_f32(&right_bytes);
    assert_eq!(left.len(), frames);
    let mut encoder = VorbisEncoderBuilder::new(
        NonZeroU32::new(48_000).unwrap(),
        NonZeroU8::new(2).unwrap(),
        Vec::new(),
    )
    .expect("builder accepts the stream parameters")
    .bitrate_management_strategy(VorbisBitrateManagementStrategy::Vbr {
        target_bitrate: NonZeroU32::new(160_000).unwrap(),
    })
    .build()
    .expect("encoder initializes");
    let plan = block_plan(frames, 48_000);
    assert_eq!(plan.len(), 2);
    for (offset, len) in plan {
        encoder
            .encode_audio_block([&left[offset..offset + len], &right[offset..offset + len]])
            .expect("block encodes");
    }
    let ogg = encoder.finish().expect("stream finalizes");
    assert!(ogg.len() > 4);
    assert_eq!(&ogg[0..4], b"OggS");
}
