//! Sample arithmetic of the capture sink: loudness of a buffer and conversion
//! to 16-bit PCM.
//!
//! Everything here works on integers. A buffer of 16-bit samples is measured
//! exactly. A buffer of float samples reaches this module in two integer
//! forms that the caller derives from it: each sample multiplied by
//! [`FULL_SCALE`] and truncated towards zero, and the root-mean-square of the
//! raw samples as the bit pattern of an IEEE-754 single.

use vstd::prelude::*;

verus! {

/// Largest magnitude of a stored PCM sample, and the factor between a float
/// sample in `[-1, 1]` and its PCM value.
pub const FULL_SCALE: i32 = 32767;

/// A buffer longer than this is followed by a flush of the writer.
pub const FLUSH_THRESHOLD: usize = 1000;

/// Bit pattern of the single-precision value nearest to the loudness
/// threshold 0.003.
pub const LOUDNESS_THRESHOLD_BITS: u32 = 0x3B44_9BA6;

/// Bit pattern of positive infinity in single precision. Patterns above it,
/// with the sign bit clear, are NaN.
pub const POSITIVE_INFINITY_BITS: u32 = 0x7F80_0000;

/// The PCM value of a scaled float sample: the value itself, held to
/// `[-FULL_SCALE, FULL_SCALE]`.
pub open spec fn pcm_of_scaled(v: int) -> int {
    if v > FULL_SCALE as int {
        FULL_SCALE as int
    } else if v < -(FULL_SCALE as int) {
        -(FULL_SCALE as int)
    } else {
        v
    }
}

/// The PCM samples of a buffer of scaled float samples, in order.
pub open spec fn pcm_of_scaled_buffer(data: Seq<i32>) -> Seq<i16> {
    Seq::new(data.len(), |i: int| pcm_of_scaled(data[i] as int) as i16)
}

/// Sum of the squares of the samples.
pub open spec fn sum_of_squares(data: Seq<i16>) -> nat
    decreases data.len(),
{
    if data.len() == 0 {
        0
    } else {
        sum_of_squares(data.drop_last()) + (data.last() as int * data.last() as int) as nat
    }
}

/// Whether the root-mean-square of the samples, each taken as a fraction of
/// [`FULL_SCALE`], is above 0.003.
///
/// `sqrt(sum / (n * 32767^2)) > 3 / 1000` is the same as
/// `1_000_000 * sum > 9 * 32767^2 * n`; an empty buffer is never loud.
pub open spec fn is_loud_pcm(data: Seq<i16>) -> bool {
    1_000_000 * sum_of_squares(data) > 9 * (FULL_SCALE as int) * (FULL_SCALE as int) * data.len()
}

/// Whether a root-mean-square reading, given as the bits of a single, is
/// above the threshold.
///
/// Singles with a clear sign bit that are not NaN are ordered as their bit
/// patterns are, so the reading is above the threshold exactly when its bits
/// lie above the threshold's and do not pass positive infinity. Negative
/// readings and NaN are never above it.
pub open spec fn is_loud_rms(bits: u32) -> bool {
    LOUDNESS_THRESHOLD_BITS < bits <= POSITIVE_INFINITY_BITS
}

/// Whether a buffer of `len` samples is followed by a flush.
pub open spec fn flush_after(len: nat) -> bool {
    len > FLUSH_THRESHOLD as nat
}

/// A square of a 16-bit sample is at most `2^30`.
proof fn lemma_square_bound(x: int)
    by (nonlinear_arith)
    requires
        -32768 <= x <= 32767,
    ensures
        0 <= x * x <= 0x4000_0000,
{
}

/// The sum of squares grows by one square per sample and stays below
/// `2^30` times the length.
proof fn lemma_sum_of_squares_push(data: Seq<i16>, x: i16)
    ensures
        sum_of_squares(data.push(x)) == sum_of_squares(data) + (x as int) * (x as int),
        0 <= (x as int) * (x as int) <= 0x4000_0000,
{
    lemma_square_bound(x as int);
    assert(data.push(x).drop_last() =~= data);
    assert(data.push(x).last() == x);
}

/// Saturates a scaled float sample to the symmetric 16-bit range.
///
/// A sample above full scale is stored as `32767` and one below as `-32767`;
/// nothing wraps.
pub fn pcm_from_scaled(v: i32) -> (r: i16)
    ensures
        r as int == pcm_of_scaled(v as int),
        -(FULL_SCALE as int) <= r as int <= FULL_SCALE as int,
        v >= FULL_SCALE ==> r == 32767,
        v <= -FULL_SCALE ==> r == -32767,
{
    if v > FULL_SCALE {
        32767i16
    } else if v < -FULL_SCALE {
        -32767i16
    } else {
        v as i16
    }
}

/// Converts a buffer of scaled float samples to PCM, sample by sample.
pub fn pcm_from_scaled_buffer(data: &[i32]) -> (out: Vec<i16>)
    ensures
        out@ == pcm_of_scaled_buffer(data@),
{
    let mut out: Vec<i16> = Vec::new();
    let mut i: usize = 0;
    while i < data.len()
        invariant
            i <= data.len(),
            out@.len() == i,
            forall|k: int| 0 <= k < i ==> out@[k] == pcm_of_scaled(data@[k] as int) as i16,
        decreases data.len() - i,
    {
        let s: i16 = pcm_from_scaled(data[i]);
        out.push(s);
        i += 1;
    }
    assert(out@ =~= pcm_of_scaled_buffer(data@));
    out
}

/// Copies a buffer of 16-bit samples: they are stored as they came.
pub fn pcm_from_pcm_buffer(data: &[i16]) -> (out: Vec<i16>)
    ensures
        out@ == data@,
{
    let mut out: Vec<i16> = Vec::new();
    let mut i: usize = 0;
    while i < data.len()
        invariant
            i <= data.len(),
            out@ == data@.take(i as int),
        decreases data.len() - i,
    {
        out.push(data[i]);
        assert(data@.take(i as int).push(data@[i as int]) =~= data@.take(i + 1));
        i += 1;
    }
    assert(data@.take(data@.len() as int) =~= data@);
    out
}

/// Measures a buffer of 16-bit samples against the loudness threshold.
pub fn loud_pcm(data: &[i16]) -> (loud: bool)
    ensures
        loud == is_loud_pcm(data@),
{
    let mut sum: u128 = 0;
    let mut i: usize = 0;
    while i < data.len()
        invariant
            i <= data.len(),
            sum as nat == sum_of_squares(data@.take(i as int)),
            sum <= i * 0x4000_0000,
        decreases data.len() - i,
    {
        let x: i64 = data[i] as i64;
        proof {
            lemma_sum_of_squares_push(data@.take(i as int), data@[i as int]);
            assert(data@.take(i as int).push(data@[i as int]) =~= data@.take(i + 1));
        }
        let sq: i64 = x * x;
        sum = sum + sq as u128;
        i += 1;
    }
    assert(data@.take(data@.len() as int) =~= data@);
    let n: u128 = data.len() as u128;
    1_000_000u128 * sum > 9_663_086_601u128 * n
}

/// Measures a root-mean-square reading against the loudness threshold.
pub fn loud_rms(bits: u32) -> (loud: bool)
    ensures
        loud == is_loud_rms(bits),
{
    LOUDNESS_THRESHOLD_BITS < bits && bits <= POSITIVE_INFINITY_BITS
}

} // verus!
