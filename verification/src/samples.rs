//! Sample views over the raw interleaved PCM byte buffer.
//!
//! The engine hands back plain little-endian bytes; each codec wants its own
//! layout.  These conversions are total, bounds-checked functions: 16-bit
//! samples read out of byte pairs, the widening to 32-bit integers that the
//! lossless path feeds its encoder, and the deinterleaving of a two-channel
//! buffer into independent per-channel sample streams.

use vstd::prelude::*;

verus! {

/// The signed 16-bit sample stored little-endian in the byte pair (lo, hi).
pub open spec fn i16_le_spec(lo: u8, hi: u8) -> int {
    if hi < 128 {
        lo + 256 * hi
    } else {
        lo + 256 * hi - 65536
    }
}

/// The sequence of 16-bit samples held by an even-length byte buffer.
pub open spec fn i16_samples_spec(bytes: Seq<u8>) -> Seq<int> {
    Seq::new((bytes.len() / 2) as nat, |k: int| i16_le_spec(bytes[2 * k], bytes[2 * k + 1]))
}

/// The values of a 16-bit sample sequence, sample for sample.
pub open spec fn sample_values(samples: Seq<i16>) -> Seq<int> {
    Seq::new(samples.len(), |k: int| samples[k] as int)
}

/// Reads one little-endian signed 16-bit sample out of its two bytes.
pub fn i16_from_le_pair(lo: u8, hi: u8) -> (s: i16)
    ensures
        s == i16_le_spec(lo, hi),
{
    let unsigned: i32 = lo as i32 + 256 * (hi as i32);
    let value: i32 = if unsigned >= 32768 {
        unsigned - 65536
    } else {
        unsigned
    };
    value as i16
}

/// The two little-endian bytes of a signed 16-bit sample.
pub fn i16_to_le_pair(s: i16) -> (pair: (u8, u8))
    ensures
        i16_le_spec(pair.0, pair.1) == s,
{
    let unsigned: i32 = if s < 0 {
        s as i32 + 65536
    } else {
        s as i32
    };
    ((unsigned % 256) as u8, (unsigned / 256) as u8)
}

/// Decodes an even-length little-endian byte buffer into its 16-bit samples.
pub fn decode_i16_samples(bytes: &[u8]) -> (samples: Vec<i16>)
    requires
        bytes@.len() % 2 == 0,
    ensures
        samples@.len() == bytes@.len() / 2,
        forall|k: int|
            0 <= k < samples@.len() ==> samples@[k] == i16_samples_spec(bytes@)[k],
{
    let len = bytes.len();
    let n = len / 2;
    proof {
        vstd::arithmetic::div_mod::lemma_fundamental_div_mod(len as int, 2);
    }
    let mut samples: Vec<i16> = Vec::new();
    let mut k: usize = 0;
    while k < n
        invariant
            len == bytes@.len(),
            n == bytes@.len() / 2,
            len == 2 * n,
            k <= n,
            samples@.len() == k,
            forall|j: int| 0 <= j < k ==> samples@[j] == i16_samples_spec(bytes@)[j],
        decreases n - k,
    {
        let s = i16_from_le_pair(bytes[2 * k], bytes[2 * k + 1]);
        samples.push(s);
        k = k + 1;
    }
    samples
}

/// Widens the 16-bit samples of a byte buffer to 32-bit integers, value for
/// value and with no scaling, as the lossless encoder consumes them at
/// 16-bit depth.
pub fn widen_i16_samples(bytes: &[u8]) -> (samples: Vec<i32>)
    requires
        bytes@.len() % 2 == 0,
    ensures
        samples@.len() == bytes@.len() / 2,
        forall|k: int|
            0 <= k < samples@.len() ==> samples@[k] == i16_samples_spec(bytes@)[k],
{
    let len = bytes.len();
    let n = len / 2;
    proof {
        vstd::arithmetic::div_mod::lemma_fundamental_div_mod(len as int, 2);
    }
    let mut samples: Vec<i32> = Vec::new();
    let mut k: usize = 0;
    while k < n
        invariant
            len == bytes@.len(),
            n == bytes@.len() / 2,
            len == 2 * n,
            k <= n,
            samples@.len() == k,
            forall|j: int| 0 <= j < k ==> samples@[j] == i16_samples_spec(bytes@)[j],
        decreases n - k,
    {
        let s = i16_from_le_pair(bytes[2 * k], bytes[2 * k + 1]);
        samples.push(s as i32);
        k = k + 1;
    }
    samples
}

/// Widening a 16-bit sample to 32 bits and narrowing it again reproduces the
/// sample exactly: the lossless path's integer route loses nothing.
pub proof fn lemma_widen_i16_round_trip(lo: u8, hi: u8)
    ensures
        -32768 <= i16_le_spec(lo, hi) <= 32767,
        i16_le_spec(lo, hi) as i32 as i16 == i16_le_spec(lo, hi),
{
}

/// The bytes of the sample unit at position `index` of channel `ch` in an
/// interleaved two-channel buffer of `unit`-byte samples.
pub open spec fn interleaved_unit(
    data: Seq<u8>,
    unit: int,
    ch: int,
    index: int,
) -> Seq<u8> {
    data.subrange(index * 2 * unit + ch * unit, index * 2 * unit + ch * unit + unit)
}

/// Splits an interleaved two-channel buffer of `unit`-byte samples into its
/// two independent channel streams: sample `k` of channel `ch` in the output
/// is sample unit `(k, ch)` of the input, with no gap, loss or reordering.
pub fn deinterleave_two_channels(data: &[u8], unit: usize) -> (split: (Vec<u8>, Vec<u8>))
    requires
        unit > 0,
        2 * unit <= usize::MAX,
        data@.len() as int % (2 * unit as int) == 0,
    ensures
        split.0@.len() == data@.len() / 2,
        split.1@.len() == data@.len() / 2,
        forall|k: int|
            0 <= k < data@.len() as int / (2 * unit as int) ==> {
                &&& #[trigger] split.0@.subrange(k * unit, k * unit + unit)
                    == interleaved_unit(data@, unit as int, 0, k)
                &&& split.1@.subrange(k * unit, k * unit + unit)
                    == interleaved_unit(data@, unit as int, 1, k)
            },
{
    let frame: usize = 2 * unit;
    let dlen: usize = data.len();
    let frames: usize = dlen / frame;
    let mut left: Vec<u8> = Vec::new();
    let mut right: Vec<u8> = Vec::new();
    let mut k: usize = 0;
    proof {
        vstd::arithmetic::div_mod::lemma_fundamental_div_mod(dlen as int, frame as int);
        vstd::arithmetic::mul::lemma_mul_is_commutative(frame as int, frames as int);
        assert(dlen == frames * frame);
    }
    while k < frames
        invariant
            unit > 0,
            frame == 2 * unit,
            dlen == data@.len(),
            dlen == frames * frame,
            k <= frames,
            left@.len() == k * unit,
            right@.len() == k * unit,
            forall|j: int|
                0 <= j < k ==> {
                    &&& #[trigger] left@.subrange(j * unit, j * unit + unit)
                        == interleaved_unit(data@, unit as int, 0, j)
                    &&& right@.subrange(j * unit, j * unit + unit)
                        == interleaved_unit(data@, unit as int, 1, j)
                },
        decreases frames - k,
    {
        proof {
            assert((k + 1) * frame <= frames * frame) by (nonlinear_arith)
                requires
                    k < frames,
                    frame > 0,
            ;
            assert(k * frame <= (k + 1) * frame) by (nonlinear_arith)
                requires
                    frame > 0,
                    k >= 0,
            ;
            assert(k * frame + frame == (k + 1) * frame) by (nonlinear_arith);
            assert(k * unit + unit <= k * frame + frame) by (nonlinear_arith)
                requires
                    frame == 2 * unit,
                    unit > 0,
                    k >= 0,
            ;
        }
        let base: usize = k * frame;
        let ghost left0 = left@;
        let ghost right0 = right@;
        let mut b: usize = 0;
        while b < unit
            invariant
                unit > 0,
                frame == 2 * unit,
                base == k * frame,
                dlen == data@.len(),
                base + frame <= dlen,
                b <= unit,
                left@ == left0 + data@.subrange(base as int, base + b),
                right@ == right0 + data@.subrange(base + unit, base + unit + b),
                left0.len() == k * unit,
                right0.len() == k * unit,
            decreases unit - b,
        {
            left.push(data[base + b]);
            right.push(data[base + unit + b]);
            b = b + 1;
            proof {
                assert(left@ =~= left0 + data@.subrange(base as int, base + b));
                assert(right@ =~= right0 + data@.subrange(base + unit, base + unit + b));
            }
        }
        k = k + 1;
        proof {
            assert(left@.len() == k * unit) by (nonlinear_arith)
                requires
                    left@.len() == left0.len() + unit,
                    left0.len() == (k - 1) * unit,
            ;
            assert(right@.len() == k * unit) by (nonlinear_arith)
                requires
                    right@.len() == right0.len() + unit,
                    right0.len() == (k - 1) * unit,
            ;
            assert forall|j: int| 0 <= j < k implies {
                &&& #[trigger] left@.subrange(j * unit, j * unit + unit)
                    == interleaved_unit(data@, unit as int, 0, j)
                &&& right@.subrange(j * unit, j * unit + unit)
                    == interleaved_unit(data@, unit as int, 1, j)
            } by {
                assert(j * unit >= 0 && (j + 1) * unit <= k * unit) by (nonlinear_arith)
                    requires
                        0 <= j < k,
                        unit > 0,
                ;
                if j < k - 1 {
                    assert(j * unit + unit <= (k - 1) * unit) by (nonlinear_arith)
                        requires
                            j <= k - 2,
                            unit > 0,
                    ;
                    assert(left@.subrange(j * unit, j * unit + unit)
                        =~= left0.subrange(j * unit, j * unit + unit));
                    assert(right@.subrange(j * unit, j * unit + unit)
                        =~= right0.subrange(j * unit, j * unit + unit));
                } else {
                    assert(j == k - 1);
                    assert(j * unit == left0.len());
                    assert(base == j * 2 * unit) by (nonlinear_arith)
                        requires
                            base == j * frame,
                            frame == 2 * unit,
                    ;
                    assert(left@.subrange(j * unit, j * unit + unit)
                        =~= interleaved_unit(data@, unit as int, 0, j));
                    assert(right@.subrange(j * unit, j * unit + unit)
                        =~= interleaved_unit(data@, unit as int, 1, j));
                }
            }
        }
    }
    proof {
        let u = unit as int;
        let fr = frames as int;
        let fm = frame as int;
        assert(fr * fm == 2 * (fr * u)) by (nonlinear_arith)
            requires
                fm == 2 * u,
        ;
        assert(fr * fm == (2 * u) * fr) by (nonlinear_arith)
            requires
                fm == 2 * u,
        ;
        vstd::arithmetic::div_mod::lemma_div_multiples_vanish(fr * u, 2);
        vstd::arithmetic::div_mod::lemma_div_multiples_vanish(fr, 2 * u);
        assert(left@.len() == data@.len() / 2);
        assert(frames == data@.len() as int / (2 * u));
        assert forall|j: int| 0 <= j < data@.len() as int / (2 * u) implies {
            &&& #[trigger] left@.subrange(j * unit, j * unit + unit)
                == interleaved_unit(data@, unit as int, 0, j)
            &&& right@.subrange(j * unit, j * unit + unit)
                == interleaved_unit(data@, unit as int, 1, j)
        } by {
            assert(0 <= j < frames);
            assert(left@.subrange(j * unit, j * unit + unit) == interleaved_unit(
                data@,
                unit as int,
                0,
                j,
            ));
        }
    }
    (left, right)
}

} // verus!
