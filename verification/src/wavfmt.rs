//! The raw-PCM container: a RIFF/WAVE file is the rendered bytes wrapped in
//! a 44-byte header that declares sample rate, channel count, bit depth and
//! the sample format tag (integer PCM or IEEE float).  No resampling and no
//! bit-depth conversion happens here; building and parsing the header are
//! exact inverses.

use vstd::prelude::*;

verus! {

/// Format tag for integer PCM samples.
pub const FORMAT_TAG_PCM: u16 = 1;

/// Format tag for 32-bit IEEE float samples.
pub const FORMAT_TAG_IEEE_FLOAT: u16 = 3;

/// The fields a reader recovers from the container header.
#[derive(Clone, Copy, Debug, PartialEq, Eq, Structural)]
pub struct WavHeader {
    pub format_tag: u16,
    pub channel_count: u16,
    pub sample_rate: u32,
    pub bits_per_sample: u16,
    pub data_len: u32,
}

/// Little-endian bytes of a 16-bit value.
pub open spec fn u16_le_spec(v: u16) -> Seq<u8> {
    seq![(v as int % 256) as u8, (v as int / 256) as u8]
}

/// Little-endian bytes of a 32-bit value.
pub open spec fn u32_le_spec(v: u32) -> Seq<u8> {
    seq![
        (v as int % 256) as u8,
        (v as int / 256 % 256) as u8,
        (v as int / 65536 % 256) as u8,
        (v as int / 16777216) as u8,
    ]
}

/// The value stored by two little-endian bytes.
pub open spec fn u16_from_le_spec(b0: u8, b1: u8) -> int {
    b0 + 256 * b1
}

/// The value stored by four little-endian bytes.
pub open spec fn u32_from_le_spec(b0: u8, b1: u8, b2: u8, b3: u8) -> int {
    b0 + 256 * b1 + 65536 * b2 + 16777216 * b3
}

/// Reading back the two little-endian bytes of a 16-bit value gives the
/// value itself.
pub proof fn lemma_u16_le_round_trip(v: u16)
    ensures
        u16_from_le_spec(u16_le_spec(v)[0], u16_le_spec(v)[1]) == v,
{
    vstd::arithmetic::div_mod::lemma_fundamental_div_mod(v as int, 256);
    vstd::arithmetic::div_mod::lemma_mod_bound(v as int, 256);
    vstd::arithmetic::div_mod::lemma_div_is_ordered(v as int, 65535, 256);
}

/// Reading back the four little-endian bytes of a 32-bit value gives the
/// value itself.
pub proof fn lemma_u32_le_round_trip(v: u32)
    ensures
        u32_from_le_spec(
            u32_le_spec(v)[0],
            u32_le_spec(v)[1],
            u32_le_spec(v)[2],
            u32_le_spec(v)[3],
        ) == v,
{
    let x = v as int;
    vstd::arithmetic::div_mod::lemma_fundamental_div_mod(x, 256);
    vstd::arithmetic::div_mod::lemma_mod_bound(x, 256);
    vstd::arithmetic::div_mod::lemma_fundamental_div_mod(x / 256, 256);
    vstd::arithmetic::div_mod::lemma_mod_bound(x / 256, 256);
    vstd::arithmetic::div_mod::lemma_fundamental_div_mod(x / 65536, 256);
    vstd::arithmetic::div_mod::lemma_mod_bound(x / 65536, 256);
    assert((x / 256) / 256 == x / 65536) by {
        vstd::arithmetic::div_mod::lemma_div_denominator(x, 256, 256);
    }
    assert((x / 65536) / 256 == x / 16777216) by {
        vstd::arithmetic::div_mod::lemma_div_denominator(x, 65536, 256);
    }
    vstd::arithmetic::div_mod::lemma_div_is_ordered(x, 0xffff_ffff, 16777216);
}

/// The "RIFF" chunk tag.
pub open spec fn riff_tag() -> Seq<u8> {
    seq![0x52u8, 0x49u8, 0x46u8, 0x46u8]
}

/// The "WAVE" form tag.
pub open spec fn wave_tag() -> Seq<u8> {
    seq![0x57u8, 0x41u8, 0x56u8, 0x45u8]
}

/// The "fmt " chunk tag.
pub open spec fn fmt_tag() -> Seq<u8> {
    seq![0x66u8, 0x6du8, 0x74u8, 0x20u8]
}

/// The "data" chunk tag.
pub open spec fn data_tag() -> Seq<u8> {
    seq![0x64u8, 0x61u8, 0x74u8, 0x61u8]
}

/// Bytes each interleaved frame occupies: channels times bytes per sample.
pub open spec fn block_align_spec(channel_count: u16, bits_per_sample: u16) -> int {
    channel_count * (bits_per_sample as int / 8)
}

/// Bytes streamed per second of audio.
pub open spec fn byte_rate_spec(
    channel_count: u16,
    sample_rate: u32,
    bits_per_sample: u16,
) -> int {
    sample_rate * block_align_spec(channel_count, bits_per_sample)
}

/// The whole 44-byte container header for a data chunk of `data_len` bytes.
pub open spec fn wav_header_spec(
    format_tag: u16,
    channel_count: u16,
    sample_rate: u32,
    bits_per_sample: u16,
    data_len: u32,
) -> Seq<u8> {
    riff_tag() + u32_le_spec((36 + data_len) as u32) + wave_tag() + fmt_tag() + u32_le_spec(16u32)
        + u16_le_spec(format_tag) + u16_le_spec(channel_count) + u32_le_spec(sample_rate)
        + u32_le_spec(byte_rate_spec(channel_count, sample_rate, bits_per_sample) as u32)
        + u16_le_spec(block_align_spec(channel_count, bits_per_sample) as u16)
        + u16_le_spec(bits_per_sample) + data_tag() + u32_le_spec(data_len)
}

/// What a reader makes of a byte sequence: the header fields, when the tags
/// and the fixed chunk sizes are in place, and nothing otherwise.
pub open spec fn parse_wav_header_spec(b: Seq<u8>) -> Option<WavHeader> {
    if b.len() >= 44 && b.subrange(0, 4) == riff_tag() && b.subrange(8, 12) == wave_tag()
        && b.subrange(12, 16) == fmt_tag() && b.subrange(16, 20) == u32_le_spec(16u32)
        && b.subrange(36, 40) == data_tag() {
        Some(
            WavHeader {
                format_tag: u16_from_le_spec(b[20], b[21]) as u16,
                channel_count: u16_from_le_spec(b[22], b[23]) as u16,
                sample_rate: u32_from_le_spec(b[24], b[25], b[26], b[27]) as u32,
                bits_per_sample: u16_from_le_spec(b[34], b[35]) as u16,
                data_len: u32_from_le_spec(b[40], b[41], b[42], b[43]) as u32,
            },
        )
    } else {
        None
    }
}

/// Appends the two little-endian bytes of a 16-bit value.
pub fn push_u16_le(out: &mut Vec<u8>, v: u16)
    ensures
        final(out)@ == old(out)@ + u16_le_spec(v),
{
    out.push((v % 256) as u8);
    out.push((v / 256) as u8);
    proof {
        assert(final(out)@ =~= old(out)@ + u16_le_spec(v));
    }
}

/// Appends the four little-endian bytes of a 32-bit value.
pub fn push_u32_le(out: &mut Vec<u8>, v: u32)
    ensures
        final(out)@ == old(out)@ + u32_le_spec(v),
{
    out.push((v % 256) as u8);
    out.push((v / 256 % 256) as u8);
    out.push((v / 65536 % 256) as u8);
    out.push((v / 16777216) as u8);
    proof {
        vstd::arithmetic::div_mod::lemma_div_is_ordered(v as int, 0xffff_ffff, 16777216);
        assert(final(out)@ =~= old(out)@ + u32_le_spec(v));
    }
}

/// Builds the whole container file: the 44-byte header followed by the
/// rendered bytes, which are copied unchanged.
#[verifier::rlimit(50)]
pub fn wav_file_bytes(
    format_tag: u16,
    channel_count: u16,
    sample_rate: u32,
    bits_per_sample: u16,
    data: &Vec<u8>,
) -> (file: Vec<u8>)
    requires
        1 <= channel_count <= 2,
        sample_rate <= 192000,
        bits_per_sample == 16 || bits_per_sample == 32,
        data@.len() + 44 <= u32::MAX,
    ensures
        file@ == wav_header_spec(
            format_tag,
            channel_count,
            sample_rate,
            bits_per_sample,
            data@.len() as u32,
        ) + data@,
        file@.len() == 44 + data@.len(),
{
    let data_len: u32 = data.len() as u32;
    let block_align: u16 = if bits_per_sample == 32 {
        channel_count * 4
    } else {
        channel_count * 2
    };
    proof {
        assert(block_align == block_align_spec(channel_count, bits_per_sample));
        assert(sample_rate * block_align <= 192000 * 8) by (nonlinear_arith)
            requires
                sample_rate <= 192000,
                block_align <= 8,
        ;
    }
    let byte_rate: u32 = sample_rate * (block_align as u32);
    let mut file: Vec<u8> = Vec::new();
    file.push(0x52u8);
    file.push(0x49u8);
    file.push(0x46u8);
    file.push(0x46u8);
    push_u32_le(&mut file, 36 + data_len);
    file.push(0x57u8);
    file.push(0x41u8);
    file.push(0x56u8);
    file.push(0x45u8);
    file.push(0x66u8);
    file.push(0x6du8);
    file.push(0x74u8);
    file.push(0x20u8);
    push_u32_le(&mut file, 16u32);
    push_u16_le(&mut file, format_tag);
    push_u16_le(&mut file, channel_count);
    push_u32_le(&mut file, sample_rate);
    push_u32_le(&mut file, byte_rate);
    push_u16_le(&mut file, block_align);
    push_u16_le(&mut file, bits_per_sample);
    file.push(0x64u8);
    file.push(0x61u8);
    file.push(0x74u8);
    file.push(0x61u8);
    push_u32_le(&mut file, data_len);
    proof {
        assert(file@ =~= wav_header_spec(
            format_tag,
            channel_count,
            sample_rate,
            bits_per_sample,
            data@.len() as u32,
        ));
    }
    let ghost header = file@;
    let mut i: usize = 0;
    let n = data.len();
    while i < n
        invariant
            n == data@.len(),
            i <= n,
            file@ == header + data@.subrange(0, i as int),
        decreases n - i,
    {
        file.push(data[i]);
        i = i + 1;
        proof {
            assert(file@ =~= header + data@.subrange(0, i as int));
        }
    }
    proof {
        assert(data@.subrange(0, data@.len() as int) =~= data@);
    }
    file
}

/// Parses the container header back out of a byte buffer, exactly as
/// `parse_wav_header_spec` states it.
pub fn parse_wav_header(bytes: &[u8]) -> (h: Option<WavHeader>)
    ensures
        h == parse_wav_header_spec(bytes@),
{
    if bytes.len() < 44 {
        return None;
    }
    let tags_ok = bytes[0] == 0x52 && bytes[1] == 0x49 && bytes[2] == 0x46 && bytes[3] == 0x46
        && bytes[8] == 0x57 && bytes[9] == 0x41 && bytes[10] == 0x56 && bytes[11] == 0x45
        && bytes[12] == 0x66 && bytes[13] == 0x6d && bytes[14] == 0x74 && bytes[15] == 0x20
        && bytes[16] == 16 && bytes[17] == 0 && bytes[18] == 0 && bytes[19] == 0
        && bytes[36] == 0x64 && bytes[37] == 0x61 && bytes[38] == 0x74 && bytes[39] == 0x61;
    if !tags_ok {
        proof {
            if parse_wav_header_spec(bytes@) is Some {
                assert(bytes@.subrange(0, 4) == riff_tag());
                assert(bytes@.subrange(0, 4)[0] == 0x52 && bytes@.subrange(0, 4)[1] == 0x49
                    && bytes@.subrange(0, 4)[2] == 0x46 && bytes@.subrange(0, 4)[3] == 0x46);
                assert(bytes@.subrange(8, 12)[0] == 0x57 && bytes@.subrange(8, 12)[1] == 0x41
                    && bytes@.subrange(8, 12)[2] == 0x56 && bytes@.subrange(8, 12)[3] == 0x45);
                assert(bytes@.subrange(12, 16)[0] == 0x66 && bytes@.subrange(12, 16)[1] == 0x6d
                    && bytes@.subrange(12, 16)[2] == 0x74 && bytes@.subrange(12, 16)[3] == 0x20);
                assert(bytes@.subrange(16, 20)[0] == 16 && bytes@.subrange(16, 20)[1] == 0
                    && bytes@.subrange(16, 20)[2] == 0 && bytes@.subrange(16, 20)[3] == 0);
                assert(bytes@.subrange(36, 40)[0] == 0x64 && bytes@.subrange(36, 40)[1] == 0x61
                    && bytes@.subrange(36, 40)[2] == 0x74 && bytes@.subrange(36, 40)[3] == 0x61);
            }
        }
        return None;
    }
    proof {
        assert(bytes@.subrange(0, 4) =~= riff_tag());
        assert(bytes@.subrange(8, 12) =~= wave_tag());
        assert(bytes@.subrange(12, 16) =~= fmt_tag());
        assert(bytes@.subrange(16, 20) =~= u32_le_spec(16u32));
        assert(bytes@.subrange(36, 40) =~= data_tag());
    }
    let format_tag: u16 = bytes[20] as u16 + 256 * (bytes[21] as u16);
    let channel_count: u16 = bytes[22] as u16 + 256 * (bytes[23] as u16);
    let sample_rate: u32 = bytes[24] as u32 + 256 * (bytes[25] as u32) + 65536 * (
    bytes[26] as u32) + 16777216 * (bytes[27] as u32);
    let bits_per_sample: u16 = bytes[34] as u16 + 256 * (bytes[35] as u16);
    let data_len: u32 = bytes[40] as u32 + 256 * (bytes[41] as u32) + 65536 * (bytes[42] as u32)
        + 16777216 * (bytes[43] as u32);
    Some(
        WavHeader {
            format_tag,
            channel_count,
            sample_rate,
            bits_per_sample,
            data_len,
        },
    )
}

/// Container round-trip law: parsing a file built around any data chunk
/// recovers exactly the sample rate, channel count, bit depth, format tag
/// and data length it was built with.
pub proof fn lemma_wav_round_trip(
    format_tag: u16,
    channel_count: u16,
    sample_rate: u32,
    bits_per_sample: u16,
    data: Seq<u8>,
)
    requires
        data.len() + 44 <= u32::MAX,
    ensures
        parse_wav_header_spec(
            wav_header_spec(
                format_tag,
                channel_count,
                sample_rate,
                bits_per_sample,
                data.len() as u32,
            ) + data,
        ) == Some(
            WavHeader {
                format_tag,
                channel_count,
                sample_rate,
                bits_per_sample,
                data_len: data.len() as u32,
            },
        ),
{
    let data_len = data.len() as u32;
    let h = wav_header_spec(format_tag, channel_count, sample_rate, bits_per_sample, data_len);
    let b = h + data;
    assert(h.len() == 44);
    assert(b.subrange(0, 4) =~= riff_tag());
    assert(b.subrange(8, 12) =~= wave_tag());
    assert(b.subrange(12, 16) =~= fmt_tag());
    assert(b.subrange(16, 20) =~= u32_le_spec(16u32));
    assert(b.subrange(36, 40) =~= data_tag());
    assert(b[20] == u16_le_spec(format_tag)[0] && b[21] == u16_le_spec(format_tag)[1]);
    assert(b[22] == u16_le_spec(channel_count)[0] && b[23] == u16_le_spec(channel_count)[1]);
    assert(b[24] == u32_le_spec(sample_rate)[0] && b[25] == u32_le_spec(sample_rate)[1]
        && b[26] == u32_le_spec(sample_rate)[2] && b[27] == u32_le_spec(sample_rate)[3]);
    assert(b[34] == u16_le_spec(bits_per_sample)[0] && b[35] == u16_le_spec(bits_per_sample)[1]);
    assert(b[40] == u32_le_spec(data_len)[0] && b[41] == u32_le_spec(data_len)[1]
        && b[42] == u32_le_spec(data_len)[2] && b[43] == u32_le_spec(data_len)[3]);
    lemma_u16_le_round_trip(format_tag);
    lemma_u16_le_round_trip(channel_count);
    lemma_u32_le_round_trip(sample_rate);
    lemma_u16_le_round_trip(bits_per_sample);
    lemma_u32_le_round_trip(data_len);
}

} // verus!
