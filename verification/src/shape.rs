//! Shape constants and sizing arithmetic of the RVC streaming pipeline.
use vstd::prelude::*;

verus! {

/// ContentVec (HuBERT) input sample rate: 16 kHz.
pub const EMBEDDER_SAMPLE_RATE: u32 = 16_000;

/// Default RVC model output sample rate: 48 kHz.
pub const RVC_SAMPLE_RATE: u32 = 48_000;

/// ContentVec context alignment in samples: 320 = 20 ms at 16 kHz.
pub const CONTENTVEC_CONTEXT_ALIGN_SAMPLES: usize = 320;

/// RMVPE samples per frame: 160 = 10 ms at 16 kHz.
pub const RMVPE_FRAME_SAMPLES_16K: usize = 160;

/// RMVPE bucket size in frames.
pub const RMVPE_BUCKET_FRAMES: usize = 32;

/// RMVPE guard frames added around a chunk.
pub const RMVPE_GUARD_FRAMES: usize = 5;

/// Integer division rounding up (`denominator > 0`).
pub open spec fn div_ceil_spec(numerator: int, denominator: int) -> int {
    if numerator % denominator == 0 {
        numerator / denominator
    } else {
        numerator / denominator + 1
    }
}

/// Smallest multiple of `align` that is at least `value` (`value` itself when `align == 0`).
pub open spec fn align_up_spec(value: int, align: int) -> int {
    if align == 0 || value % align == 0 {
        value
    } else {
        value + (align - value % align)
    }
}

/// The product of two `u32` values fits in a `u64`.
pub proof fn lemma_u32_product_fits(a: u32, b: u32)
    ensures
        0 <= a * b <= 0xffff_fffe_0000_0001,
{
    assert(0 <= a * b <= 0xffff_ffff * 0xffff_ffff) by (nonlinear_arith)
        requires
            a <= 0xffff_ffffu32,
            b <= 0xffff_ffffu32,
    ;
}

/// Milliseconds to samples at `sample_rate`, rounded down (before the cast to `usize`).
pub open spec fn ms_to_samples_spec(sample_rate: u32, ms: u32) -> int {
    (sample_rate * ms) / 1000
}

/// Converts a duration in milliseconds to a sample count at `sample_rate`, rounding down.
pub fn ms_to_samples(sample_rate: u32, ms: u32) -> (n: usize)
    ensures
        n == ms_to_samples_spec(sample_rate, ms) as usize,
{
    proof {
        lemma_u32_product_fits(sample_rate, ms);
    }
    let prod: u64 = (sample_rate as u64) * (ms as u64);
    (prod / 1000) as usize
}

/// ContentVec feature frames (10 ms hop) covering `samples` at `sample_rate`.
pub open spec fn feature_len_spec(samples: int, sample_rate: int) -> int {
    samples * 100 / sample_rate
}

/// Number of ContentVec feature frames (10 ms hop) covering `samples` samples at
/// `sample_rate`: `floor(samples * 100 / sample_rate)`.
pub fn feature_len_for_samples(samples: usize, sample_rate: u32) -> (n: usize)
    requires
        sample_rate > 0,
        samples * 100 <= u64::MAX,
    ensures
        n == feature_len_spec(samples as int, sample_rate as int) as usize,
{
    ((samples as u64) * 100 / (sample_rate as u64)) as usize
}

/// Rounding mode of a sample-count conversion.
#[derive(Clone, Copy, Debug, PartialEq, Eq)]
pub enum Rounding {
    Floor,
    Ceil,
}

/// Integer division rounding up.
fn ceil_div(numerator: u64, denominator: u64) -> (q: u64)
    requires
        denominator > 0,
    ensures
        q == div_ceil_spec(numerator as int, denominator as int),
{
    let q = numerator / denominator;
    if numerator % denominator != 0 {
        proof {
            assert(q < numerator) by (nonlinear_arith)
                requires
                    q == numerator / denominator,
                    numerator % denominator != 0,
                    denominator > 0,
            ;
        }
        q + 1
    } else {
        q
    }
}

/// Sample count at `to_sr` of `samples` samples at `from_sr`, before the cast to `usize`.
pub open spec fn samples_between_rates_spec(samples: int, from_sr: int, to_sr: int, rounding: Rounding) -> int {
    match rounding {
        Rounding::Floor => samples * to_sr / from_sr,
        Rounding::Ceil => div_ceil_spec(samples * to_sr, from_sr),
    }
}

/// Converts a sample count between sample rates: the number of samples at
/// `to_sr` that spans the duration of `samples` samples at `from_sr`.
pub fn samples_between_rates(samples: usize, from_sr: u32, to_sr: u32, rounding: Rounding) -> (n: usize)
    requires
        from_sr > 0,
        samples * to_sr <= u64::MAX,
    ensures
        n == samples_between_rates_spec(samples as int, from_sr as int, to_sr as int, rounding) as usize,
{
    let numerator: u64 = (samples as u64) * (to_sr as u64);
    let denominator: u64 = from_sr as u64;
    match rounding {
        Rounding::Floor => (numerator / denominator) as usize,
        Rounding::Ceil => ceil_div(numerator, denominator) as usize,
    }
}

/// Rounds `value` up to a multiple of `align`; an `align` of 0 leaves `value` unchanged.
pub fn align_up(value: usize, align: usize) -> (r: usize)
    requires
        align_up_spec(value as int, align as int) <= usize::MAX,
    ensures
        r == align_up_spec(value as int, align as int),
{
    if align == 0 || value % align == 0 {
        value
    } else {
        value + (align - value % align)
    }
}

/// Keeps only the last `len` elements of `values`, dropping from the front.
pub fn keep_tail_in_place<T>(values: &mut Vec<T>, len: usize)
    ensures
        old(values)@.len() > len ==> final(values)@ == old(values)@.subrange(
            old(values)@.len() - len,
            old(values)@.len() as int,
        ),
        old(values)@.len() <= len ==> final(values)@ == old(values)@,
{
    if values.len() > len {
        let start = values.len() - len;
        let tail = values.split_off(start);
        *values = tail;
    }
}

/// RMVPE model input length at 16 kHz for a chunk, before overflow checks:
/// the chunk's 10 ms frames (rounded up) plus the guard frames, at least one,
/// aligned up to a whole bucket, minus one frame, in samples.
pub open spec fn rmvpe_input_frames_spec(chunk_samples: int, sample_rate: int) -> int {
    let chunk_frames = div_ceil_spec(chunk_samples * 100, sample_rate) as usize as int;
    let guarded = if chunk_frames + RMVPE_GUARD_FRAMES > usize::MAX {
        usize::MAX as int
    } else {
        chunk_frames + RMVPE_GUARD_FRAMES
    };
    let required = if guarded < 1 { 1 } else { guarded };
    align_up_spec(required, RMVPE_BUCKET_FRAMES as int)
}

/// RMVPE model input sample count at 16 kHz for `chunk_samples` samples at `sample_rate`.
pub open spec fn rmvpe_input_samples_spec(chunk_samples: int, sample_rate: int) -> int {
    (rmvpe_input_frames_spec(chunk_samples, sample_rate) - 1) * RMVPE_FRAME_SAMPLES_16K
}

/// RMVPE model input length (16 kHz samples) for a chunk: 10 ms frames plus
/// guard frames, aligned up to a bucket, minus one frame.
pub fn rmvpe_model_input_samples_16k(chunk_samples: usize, sample_rate: u32) -> (n: usize)
    requires
        sample_rate > 0,
        chunk_samples * 100 <= u64::MAX,
        rmvpe_input_frames_spec(chunk_samples as int, sample_rate as int) <= usize::MAX,
        rmvpe_input_samples_spec(chunk_samples as int, sample_rate as int) <= usize::MAX,
    ensures
        n == rmvpe_input_samples_spec(chunk_samples as int, sample_rate as int),
{
    let chunk_frames = ceil_div((chunk_samples as u64) * 100, sample_rate as u64) as usize;
    let guarded = chunk_frames.saturating_add(RMVPE_GUARD_FRAMES);
    let required = if guarded < 1 { 1 } else { guarded };
    let bucket_frames = align_up(required, RMVPE_BUCKET_FRAMES);
    proof {
        assert(bucket_frames >= 1) by (nonlinear_arith)
            requires
                bucket_frames == align_up_spec(required as int, 32),
                required >= 1,
        ;
    }
    (bucket_frames - 1) * RMVPE_FRAME_SAMPLES_16K
}

/// Front feature frames covered by the extra conversion margin, before the cast.
pub open spec fn silence_front_frames_spec(extra_convert_samples: int, rvc_sample_rate: int) -> int {
    let extra_16k = (extra_convert_samples * EMBEDDER_SAMPLE_RATE / rvc_sample_rate) as usize as int;
    (extra_16k / 360) * 2
}

/// Number of leading feature frames that correspond to the extra conversion
/// margin (`extra_convert_samples` at the RVC sample rate) and are trimmed.
pub fn onnx_silence_front_feature_frames(extra_convert_samples: usize, rvc_sample_rate: u32) -> (n: usize)
    requires
        rvc_sample_rate > 0,
        extra_convert_samples * EMBEDDER_SAMPLE_RATE <= u64::MAX,
    ensures
        n == silence_front_frames_spec(extra_convert_samples as int, rvc_sample_rate as int),
{
    let extra_16k_samples = ((extra_convert_samples as u64) * (EMBEDDER_SAMPLE_RATE as u64)
        / (rvc_sample_rate as u64)) as usize;
    (extra_16k_samples / 360) * 2
}


/// Aligning up gives the smallest multiple of `align` that is at least `value`.
pub proof fn lemma_align_up_is_least_multiple(value: nat, align: nat)
    requires
        align > 0,
    ensures
        align_up_spec(value as int, align as int) % (align as int) == 0,
        value <= align_up_spec(value as int, align as int) < value + align,
{
    let r = align_up_spec(value as int, align as int);
    if value % align != 0 {
        assert(r == value + (align - value % align));
        assert((value + (align - value % align)) % (align as int) == 0) by (nonlinear_arith)
            requires align > 0;
    }
}

/// Rounding a rate conversion up gives the rounded-down count, or one more
/// when the conversion is not exact.
pub proof fn lemma_ceil_is_floor_or_next(samples: int, from_sr: int, to_sr: int)
    requires
        samples >= 0,
        to_sr >= 0,
        from_sr > 0,
    ensures
        ({
            let lo = samples_between_rates_spec(samples, from_sr, to_sr, Rounding::Floor);
            let hi = samples_between_rates_spec(samples, from_sr, to_sr, Rounding::Ceil);
            &&& (samples * to_sr) % from_sr == 0 ==> hi == lo
            &&& (samples * to_sr) % from_sr != 0 ==> hi == lo + 1
            &&& lo * from_sr <= samples * to_sr <= hi * from_sr
        }),
{
    let n = samples * to_sr;
    assert(n >= 0) by (nonlinear_arith)
        requires samples >= 0, to_sr >= 0, n == samples * to_sr;
    assert((n / from_sr) * from_sr <= n) by (nonlinear_arith)
        requires from_sr > 0, n >= 0;
    assert(n <= (n / from_sr + 1) * from_sr) by (nonlinear_arith)
        requires from_sr > 0, n >= 0;
    if n % from_sr == 0 {
        assert((n / from_sr) * from_sr == n) by (nonlinear_arith)
            requires from_sr > 0, n % from_sr == 0;
    }
}

/// Integer division rounds down: `(x / d) * d <= x < (x / d + 1) * d`.
pub proof fn lemma_floor_div_bounds(x: int, d: int)
    requires
        x >= 0,
        d > 0,
    ensures
        0 <= x / d,
        (x / d) * d <= x < (x / d + 1) * d,
{
    assert(0 <= x / d && (x / d) * d <= x < (x / d + 1) * d) by (nonlinear_arith)
        requires x >= 0, d > 0;
}

/// Rounding up: `div_ceil_spec(x, d)` is the least `q` with `q * d >= x`.
pub proof fn lemma_ceil_div_bounds(x: int, d: int)
    requires
        x >= 0,
        d > 0,
    ensures
        0 <= div_ceil_spec(x, d),
        div_ceil_spec(x, d) * d >= x,
        (div_ceil_spec(x, d) - 1) * d < x || x == 0 && div_ceil_spec(x, d) == 0,
{
    lemma_floor_div_bounds(x, d);
    let q = x / d;
    if x % d == 0 {
        assert(q * d == x) by (nonlinear_arith)
            requires x % d == 0, d > 0, q == x / d;
        if x > 0 {
            assert((q - 1) * d < x) by (nonlinear_arith)
                requires q * d == x, d > 0;
        } else {
            assert(q == 0) by (nonlinear_arith)
                requires q * d == 0, d > 0, q >= 0;
        }
    } else {
        assert((q + 1) * d >= x && q * d < x) by (nonlinear_arith)
            requires q * d <= x < (q + 1) * d, x % d != 0, q == x / d, d > 0;
        assert(div_ceil_spec(x, d) == q + 1);
    }
}

/// Two counts with the rounding-up property are equal.
proof fn lemma_ceil_unique(f: int, g: int, x: int, d: int)
    requires
        d > 0,
        x > 0,
        f * d >= x,
        (f - 1) * d < x,
        g * d >= x,
        (g - 1) * d < x,
    ensures
        f == g,
{
    assert(f == g) by (nonlinear_arith)
        requires d > 0, f * d >= x, (f - 1) * d < x, g * d >= x, (g - 1) * d < x;
}

/// The RMVPE input of a chunk: with `frames` the number of 10 ms frames that
/// cover the chunk (rounded up), the input holds `b - 1` frames of 160
/// samples, where `b` is the least multiple of the 32-frame bucket that is at
/// least `frames` plus the 5 guard frames.
pub proof fn lemma_rmvpe_input_is_bucketed(chunk_samples: nat, sample_rate: nat, frames: nat)
    requires
        sample_rate > 0,
        frames * sample_rate >= chunk_samples * 100,
        frames == 0 || (frames - 1) * sample_rate < chunk_samples * 100,
        frames + 5 <= usize::MAX,
    ensures
        ({
            let n = rmvpe_input_samples_spec(chunk_samples as int, sample_rate as int);
            let b = n / 160 + 1;
            &&& n >= 0
            &&& n % 160 == 0
            &&& b % 32 == 0
            &&& b >= frames + 5
            &&& b - 32 < frames + 5
        }),
{
    let x: int = (chunk_samples as int) * 100;
    let d = sample_rate as int;
    assert(x >= 0) by (nonlinear_arith)
        requires x == chunk_samples * 100;
    lemma_ceil_div_bounds(x, d);
    let q = div_ceil_spec(x, d);
    if x == 0 {
        assert(frames == 0) by (nonlinear_arith)
            requires frames == 0 || (frames - 1) * d < x, x == 0, d > 0, frames >= 0;
        assert(q == 0) by (nonlinear_arith)
            requires q * d >= x, (q - 1) * d < x || x == 0 && q == 0, x == 0, d > 0, q >= 0;
    } else {
        assert(frames > 0) by (nonlinear_arith)
            requires frames * d >= x, x > 0, d > 0, frames >= 0;
        assert(q > 0) by (nonlinear_arith)
            requires q * d >= x, x > 0, d > 0, q >= 0;
        lemma_ceil_unique(frames as int, q, x, d);
    }
    assert(q == frames);
    assert(q as usize as int == q);
    let required: int = (frames as int) + 5;
    let b = align_up_spec(required, 32);
    lemma_align_up_is_least_multiple((frames + 5) as nat, 32);
    assert(rmvpe_input_frames_spec(chunk_samples as int, sample_rate as int) == b);
    let n = rmvpe_input_samples_spec(chunk_samples as int, sample_rate as int);
    assert(n == (b - 1) * 160);
    assert(b >= 32) by (nonlinear_arith)
        requires b % 32 == 0, b >= required, required >= 5;
    assert(n >= 0 && n % 160 == 0 && n / 160 == b - 1) by (nonlinear_arith)
        requires n == (b - 1) * 160, b >= 1;
}

/// The leading feature frames trimmed for the extra conversion margin: twice
/// the number of whole 360-sample blocks in the margin converted to 16 kHz
/// from `rvc_sample_rate`. It depends only on the margin's duration: the same
/// duration at any two rates gives the same count.
pub proof fn lemma_silence_front_frames(extra_convert_samples: nat, rvc_sample_rate: nat)
    requires
        rvc_sample_rate > 0,
        (extra_convert_samples as int) * 16000 / (rvc_sample_rate as int) <= usize::MAX,
    ensures
        ({
            let r = silence_front_frames_spec(extra_convert_samples as int, rvc_sample_rate as int);
            &&& r >= 0
            &&& r % 2 == 0
            &&& (r / 2) * 360 * rvc_sample_rate <= extra_convert_samples * 16000
            &&& extra_convert_samples * 16000 < (r / 2 + 1) * 360 * rvc_sample_rate
        }),
{
    let a: int = (extra_convert_samples as int) * 16000;
    let d = rvc_sample_rate as int;
    assert(a >= 0) by (nonlinear_arith)
        requires a == extra_convert_samples * 16000;
    lemma_floor_div_bounds(a, d);
    let q1 = a / d;
    assert(q1 as usize as int == q1);
    lemma_floor_div_bounds(q1, 360);
    let q2 = q1 / 360;
    let r = silence_front_frames_spec(extra_convert_samples as int, rvc_sample_rate as int);
    assert(r == q2 * 2);
    assert(r >= 0 && r % 2 == 0 && r / 2 == q2) by (nonlinear_arith)
        requires r == q2 * 2, q2 >= 0;
    assert(q2 * 360 * d <= a && a < (q2 + 1) * 360 * d) by (nonlinear_arith)
        requires q1 * d <= a < (q1 + 1) * d, q2 * 360 <= q1 < (q2 + 1) * 360, d > 0;
}

/// Two margins of the same duration at two RVC rates trim the same number of frames.
pub proof fn lemma_silence_front_same_duration(e1: nat, r1: nat, e2: nat, r2: nat)
    requires
        r1 > 0,
        r2 > 0,
        e1 * r2 == e2 * r1,
        (e1 as int) * 16000 / (r1 as int) <= usize::MAX,
        (e2 as int) * 16000 / (r2 as int) <= usize::MAX,
    ensures
        silence_front_frames_spec(e1 as int, r1 as int) == silence_front_frames_spec(e2 as int, r2 as int),
{
    lemma_silence_front_frames(e1, r1);
    lemma_silence_front_frames(e2, r2);
    let k1 = silence_front_frames_spec(e1 as int, r1 as int) / 2;
    let k2 = silence_front_frames_spec(e2 as int, r2 as int) / 2;
    // Multiply each bound by the other rate: both counts bound e1 * 16000 * r2 alike.
    assert(k1 == k2) by (nonlinear_arith)
        requires
            r1 > 0, r2 > 0, e1 * r2 == e2 * r1, k1 >= 0, k2 >= 0,
            k1 * 360 * r1 <= e1 * 16000, e1 * 16000 < (k1 + 1) * 360 * r1,
            k2 * 360 * r2 <= e2 * 16000, e2 * 16000 < (k2 + 1) * 360 * r2;
}

} // verus!
