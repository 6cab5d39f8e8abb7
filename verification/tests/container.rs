use std::io::Cursor;
use stemgen::samples::decode_i16_samples;
use stemgen::wavfmt::{
    parse_wav_header, wav_file_bytes, FORMAT_TAG_IEEE_FLOAT, FORMAT_TAG_PCM,
};

#[test]
fn wav_header_round_trip_int16() {
    let samples: Vec<i16> = vec![0, 1, -1, 32767, -32768, 123, -456, 7];
    let mut data: Vec<u8> = Vec::new();
    for s in &samples {
        data.extend_from_slice(&s.to_le_bytes());
    }
    let file = wav_file_bytes(FORMAT_TAG_PCM, 2, 48000, 16, &data);
    assert_eq!(file.len(), 44 + data.len());
    let header = parse_wav_header(&file).expect("header parses back");
    assert_eq!(header.format_tag, FORMAT_TAG_PCM);
    assert_eq!(header.channel_count, 2);
    assert_eq!(header.sample_rate, 48000);
    assert_eq!(header.bits_per_sample, 16);
    assert_eq!(header.data_len as usize, data.len());
    assert_eq!(&file[44..], &data[..]);
}

#[test]
fn wav_header_round_trip_float32() {
    let data: Vec<u8> = vec![0u8; 32];
    let file = wav_file_bytes(FORMAT_TAG_IEEE_FLOAT, 1, 44100, 32, &data);
    let header = parse_wav_header(&file).expect("header parses back");
    assert_eq!(header.format_tag, FORMAT_TAG_IEEE_FLOAT);
    assert_eq!(header.channel_count, 1);
    assert_eq!(header.sample_rate, 44100);
    assert_eq!(header.bits_per_sample, 32);
    assert_eq!(header.data_len, 32);
}

#[test]
fn wav_parse_rejects_other_bytes() {
    assert!(parse_wav_header(&[]).is_none());
    assert!(parse_wav_header(&[0u8; 43]).is_none());
    let mut not_riff = wav_file_bytes(FORMAT_TAG_PCM, 1, 8000, 16, &vec![0u8; 2]);
    not_riff[0] = b'X';
    assert!(parse_wav_header(&not_riff).is_none());
}

#[test]
fn wav_file_reads_back_through_a_wave_reader() {
    // An independent RIFF/WAVE reader recovers the same header fields and
    // the identical 16-bit samples from the built file.
    let samples: Vec<i16> = (0..480).map(|i| (i * 13 - 3000) as i16).collect();
    let mut data: Vec<u8> = Vec::new();
    for s in &samples {
        data.extend_from_slice(&s.to_le_bytes());
    }
    let file = wav_file_bytes(FORMAT_TAG_PCM, 2, 48000, 16, &data);
    let mut cursor = Cursor::new(file);
    let (header, track) = wav::read(&mut cursor).expect("wave reader accepts the file");
    assert_eq!(header.audio_format, wav::header::WAV_FORMAT_PCM);
    assert_eq!(header.channel_count, 2);
    assert_eq!(header.sampling_rate, 48000);
    assert_eq!(header.bits_per_sample, 16);
    let read_samples = match track {
        wav::BitDepth::Sixteen(v) => v,
        other => panic!("unexpected bit depth {:?}", other),
    };
    assert_eq!(read_samples, samples);
    let decoded = decode_i16_samples(&data);
    assert_eq!(decoded, samples);
}
