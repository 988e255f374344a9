//! Cross-chunk state of the RVC stream: rolling windows and their sizes.
//!
//! For every new chunk of device audio the stream appends it (and its 16 kHz
//! resampled version) to rolling buffers, extends the F0 buffer with one
//! silent entry per new feature frame, computes the conversion window sizes,
//! then left-pads each buffer with silence and keeps its tail so that the
//! buffers hold exactly `convert_size`, `convert_size_16k` and `feature_size`
//! entries.
use vstd::prelude::*;
use crate::Sample;
use crate::buffers::{extend_samples, left_pad_to_len_in_place, push_silence, silence};
use crate::shape::{
    div_ceil_spec, lemma_align_up_is_least_multiple, lemma_ceil_div_bounds, lemma_floor_div_bounds,
    align_up, align_up_spec, feature_len_for_samples, feature_len_spec, keep_tail_in_place,
    samples_between_rates, samples_between_rates_spec, Rounding, CONTENTVEC_CONTEXT_ALIGN_SAMPLES,
    EMBEDDER_SAMPLE_RATE,
};

verus! {

/// Window sizes computed for one chunk.
#[derive(Clone, Copy, Debug, PartialEq, Eq)]
pub struct StreamSizes {
    /// New samples at 16 kHz spanned by the chunk.
    pub new_16k_samples: usize,
    /// New feature frames spanned by the chunk.
    pub new_feature_len: usize,
    /// Extra conversion margin at 16 kHz.
    pub extra_16k_samples: usize,
    /// Conversion window at 16 kHz (aligned to the ContentVec context).
    pub convert_size_16k: usize,
    /// Conversion window at the device sample rate.
    pub convert_size: usize,
    /// Output size at the RVC sample rate (at least 1).
    pub out_size: usize,
    /// Feature frames in the conversion window.
    pub feature_size: usize,
}

/// The sizes of the chunk before any overflow consideration.
pub open spec fn new_16k_spec(new_audio_len: int, sample_rate: int) -> int {
    samples_between_rates_spec(new_audio_len, sample_rate, EMBEDDER_SAMPLE_RATE as int, Rounding::Floor)
}

pub open spec fn extra_16k_spec(extra: int, rvc_sample_rate: int) -> int {
    samples_between_rates_spec(extra, rvc_sample_rate, EMBEDDER_SAMPLE_RATE as int, Rounding::Floor)
}

pub open spec fn convert_16k_spec(new_audio_len: int, sample_rate: int, rvc_sample_rate: int, extra: int) -> int {
    align_up_spec(
        new_16k_spec(new_audio_len, sample_rate) + extra_16k_spec(extra, rvc_sample_rate),
        CONTENTVEC_CONTEXT_ALIGN_SAMPLES as int,
    )
}

/// The chunk's sizes can be computed without overflow.
pub open spec fn stream_sizes_fit(new_audio_len: int, sample_rate: int, rvc_sample_rate: int, extra: int) -> bool {
    let n16 = new_16k_spec(new_audio_len, sample_rate);
    let e16 = extra_16k_spec(extra, rvc_sample_rate);
    let c16 = convert_16k_spec(new_audio_len, sample_rate, rvc_sample_rate, extra);
    &&& sample_rate > 0
    &&& rvc_sample_rate > 0
    &&& n16 <= usize::MAX
    &&& e16 <= usize::MAX
    &&& new_audio_len * EMBEDDER_SAMPLE_RATE <= u64::MAX
    &&& extra * EMBEDDER_SAMPLE_RATE <= u64::MAX
    &&& n16 * 100 <= u64::MAX
    &&& c16 <= usize::MAX
    &&& c16 * 100 <= u64::MAX
    &&& c16 * sample_rate <= u64::MAX
    &&& c16 * rvc_sample_rate <= u64::MAX
    &&& samples_between_rates_spec(c16, EMBEDDER_SAMPLE_RATE as int, sample_rate, Rounding::Ceil) <= usize::MAX
}

/// The sizes of a chunk of `new_audio_len` device samples at `sample_rate`,
/// with an extra conversion margin of `extra` samples at `rvc_sample_rate`.
pub open spec fn stream_sizes_spec(new_audio_len: int, sample_rate: int, rvc_sample_rate: int, extra: int) -> StreamSizes {
    let n16 = new_16k_spec(new_audio_len, sample_rate);
    let e16 = extra_16k_spec(extra, rvc_sample_rate);
    let c16 = convert_16k_spec(new_audio_len, sample_rate, rvc_sample_rate, extra);
    let out = samples_between_rates_spec(
        if c16 - e16 < 0 { 0 } else { c16 - e16 },
        EMBEDDER_SAMPLE_RATE as int,
        rvc_sample_rate,
        Rounding::Floor,
    ) as usize;
    StreamSizes {
        new_16k_samples: n16 as usize,
        new_feature_len: feature_len_spec(n16, EMBEDDER_SAMPLE_RATE as int) as usize,
        extra_16k_samples: e16 as usize,
        convert_size_16k: c16 as usize,
        convert_size: samples_between_rates_spec(c16, EMBEDDER_SAMPLE_RATE as int, sample_rate, Rounding::Ceil) as usize,
        out_size: if out < 1 { 1 } else { out },
        feature_size: feature_len_spec(c16, EMBEDDER_SAMPLE_RATE as int) as usize,
    }
}

/// Computes the window sizes of a chunk of `new_audio_len` device samples at
/// `sample_rate`; `extra_convert_samples` is the extra conversion margin at
/// `rvc_sample_rate`.
pub fn stream_sizes(
    new_audio_len: usize,
    sample_rate: u32,
    rvc_sample_rate: u32,
    extra_convert_samples: usize,
) -> (s: StreamSizes)
    requires
        stream_sizes_fit(new_audio_len as int, sample_rate as int, rvc_sample_rate as int, extra_convert_samples as int),
    ensures
        s == stream_sizes_spec(new_audio_len as int, sample_rate as int, rvc_sample_rate as int, extra_convert_samples as int),
{
    let ghost n16s = new_16k_spec(new_audio_len as int, sample_rate as int);
    let ghost e16s = extra_16k_spec(extra_convert_samples as int, rvc_sample_rate as int);
    let new_16k = samples_between_rates(new_audio_len, sample_rate, EMBEDDER_SAMPLE_RATE, Rounding::Floor);
    proof {
        assert(0 <= n16s) by (nonlinear_arith)
            requires
                n16s == new_audio_len * 16000 / (sample_rate as int),
                sample_rate > 0,
        ;
        assert(new_16k == n16s);
    }
    let new_feature_len = feature_len_for_samples(new_16k, EMBEDDER_SAMPLE_RATE);
    let extra_16k = samples_between_rates(extra_convert_samples, rvc_sample_rate, EMBEDDER_SAMPLE_RATE, Rounding::Floor);
    proof {
        assert(0 <= e16s <= u64::MAX) by (nonlinear_arith)
            requires
                e16s == extra_convert_samples * 16000 / (rvc_sample_rate as int),
                rvc_sample_rate > 0,
                extra_convert_samples * 16000 <= u64::MAX,
        ;
        assert(extra_16k == e16s);
        assert(n16s + e16s <= convert_16k_spec(new_audio_len as int, sample_rate as int, rvc_sample_rate as int, extra_convert_samples as int)) by (nonlinear_arith)
            requires
                n16s + e16s >= 0,
                convert_16k_spec(new_audio_len as int, sample_rate as int, rvc_sample_rate as int, extra_convert_samples as int)
                    == align_up_spec(n16s + e16s, 320),
        ;
    }
    let convert_size_16k = align_up(new_16k + extra_16k, CONTENTVEC_CONTEXT_ALIGN_SAMPLES);
    let convert_size = samples_between_rates(convert_size_16k, EMBEDDER_SAMPLE_RATE, sample_rate, Rounding::Ceil);
    let kept = convert_size_16k.saturating_sub(extra_16k);
    proof {
        assert(kept * rvc_sample_rate <= u64::MAX) by (nonlinear_arith)
            requires
                kept <= convert_size_16k,
                convert_size_16k * rvc_sample_rate <= u64::MAX,
        ;
    }
    let out = samples_between_rates(kept, EMBEDDER_SAMPLE_RATE, rvc_sample_rate, Rounding::Floor);
    let out_size = if out < 1 { 1 } else { out };
    let feature_size = feature_len_for_samples(convert_size_16k, EMBEDDER_SAMPLE_RATE);
    StreamSizes {
        new_16k_samples: new_16k,
        new_feature_len,
        extra_16k_samples: extra_16k,
        convert_size_16k,
        convert_size,
        out_size,
        feature_size,
    }
}

/// Computes the window sizes of a chunk when they fit the machine's integers
/// (see [`stream_sizes_fit`]), and `None` when they do not (a zero sample
/// rate included).
pub fn try_stream_sizes(
    new_audio_len: usize,
    sample_rate: u32,
    rvc_sample_rate: u32,
    extra_convert_samples: usize,
) -> (r: Option<StreamSizes>)
    ensures
        r is Some <==> stream_sizes_fit(
            new_audio_len as int,
            sample_rate as int,
            rvc_sample_rate as int,
            extra_convert_samples as int,
        ),
        r matches Some(s) ==> s == stream_sizes_spec(
            new_audio_len as int,
            sample_rate as int,
            rvc_sample_rate as int,
            extra_convert_samples as int,
        ),
{
    let ghost l = new_audio_len as int;
    let ghost sr = sample_rate as int;
    let ghost rv = rvc_sample_rate as int;
    let ghost ex = extra_convert_samples as int;
    if sample_rate == 0 || rvc_sample_rate == 0 {
        return None;
    }
    let scaled = match (new_audio_len as u64).checked_mul(16000) {
        Some(v) => v,
        None => return None,
    };
    let n16 = scaled / (sample_rate as u64);
    if n16 > usize::MAX as u64 {
        return None;
    }
    let extra_scaled = match (extra_convert_samples as u64).checked_mul(16000) {
        Some(v) => v,
        None => return None,
    };
    let e16 = extra_scaled / (rvc_sample_rate as u64);
    if e16 > usize::MAX as u64 {
        return None;
    }
    if n16.checked_mul(100).is_none() {
        return None;
    }
    let sum = match n16.checked_add(e16) {
        Some(v) => v,
        None => {
            proof {
                assert(align_up_spec(n16 + e16, 320) >= n16 + e16);
            }
            return None;
        },
    };
    let c16 = if sum % 320 == 0 {
        sum
    } else {
        match sum.checked_add(320 - sum % 320) {
            Some(v) => v,
            None => return None,
        }
    };
    proof {
        assert(n16 == new_16k_spec(l, sr));
        assert(e16 == extra_16k_spec(ex, rv));
        assert(c16 == convert_16k_spec(l, sr, rv, ex));
    }
    if c16 > usize::MAX as u64 {
        return None;
    }
    if c16.checked_mul(100).is_none() {
        return None;
    }
    let at_device = match c16.checked_mul(sample_rate as u64) {
        Some(v) => v,
        None => return None,
    };
    if c16.checked_mul(rvc_sample_rate as u64).is_none() {
        return None;
    }
    let back = at_device / 16000 + if at_device % 16000 == 0 { 0 } else { 1 };
    proof {
        assert(at_device / 16000 < u64::MAX) by (nonlinear_arith)
            requires at_device <= u64::MAX;
        assert(back as int == samples_between_rates_spec(c16 as int, 16000, sr, Rounding::Ceil));
    }
    if back > usize::MAX as u64 {
        return None;
    }
    Some(stream_sizes(new_audio_len, sample_rate, rvc_sample_rate, extra_convert_samples))
}

/// `s` left-padded with silence to `len` entries, then its last `len` entries:
/// exactly `len` entries.
pub open spec fn fit_window(s: Seq<Sample>, len: nat) -> Seq<Sample> {
    if s.len() < len {
        silence((len - s.len()) as nat) + s
    } else {
        s.subrange(s.len() - len, s.len() as int)
    }
}

/// Rolling buffers of the RVC stream.
pub struct RvcStreamBuffers {
    /// Device-rate audio window.
    pub audio_buffer: Vec<Sample>,
    /// 16 kHz audio window (ContentVec / RMVPE input).
    pub audio_16k_buffer: Vec<Sample>,
    /// F0 window aligned with the feature frames.
    pub pitchf_buffer: Vec<Sample>,
    /// Current device sample rate (0 = not initialised).
    pub sample_rate: u32,
    /// RVC model output sample rate.
    pub rvc_sample_rate: u32,
}

fn fit_window_in_place(values: &mut Vec<Sample>, len: usize)
    ensures
        final(values)@ == fit_window(old(values)@, len as nat),
{
    left_pad_to_len_in_place(values, len);
    keep_tail_in_place(values, len);
    assert(values@ =~= fit_window(old(values)@, len as nat));
}

impl RvcStreamBuffers {
    /// Empty buffers for a model that outputs at `rvc_sample_rate`.
    pub fn new(rvc_sample_rate: u32) -> (s: Self)
        ensures
            s.audio_buffer@ == Seq::<Sample>::empty(),
            s.audio_16k_buffer@ == Seq::<Sample>::empty(),
            s.pitchf_buffer@ == Seq::<Sample>::empty(),
            s.sample_rate == 0,
            s.rvc_sample_rate == rvc_sample_rate,
    {
        RvcStreamBuffers {
            audio_buffer: Vec::new(),
            audio_16k_buffer: Vec::new(),
            pitchf_buffer: Vec::new(),
            sample_rate: 0,
            rvc_sample_rate,
        }
    }

    /// Clears every buffer and forgets the device sample rate.
    pub fn reset(&mut self)
        ensures
            final(self).audio_buffer@ == Seq::<Sample>::empty(),
            final(self).audio_16k_buffer@ == Seq::<Sample>::empty(),
            final(self).pitchf_buffer@ == Seq::<Sample>::empty(),
            final(self).sample_rate == 0,
            final(self).rvc_sample_rate == old(self).rvc_sample_rate,
    {
        self.audio_buffer.clear();
        self.audio_16k_buffer.clear();
        self.pitchf_buffer.clear();
        self.sample_rate = 0;
    }

    /// Starts a chunk at `sample_rate`: a change of sample rate resets the
    /// buffers and records the new rate. Returns whether it changed (the
    /// caller then needs a new resampler).
    pub fn start_chunk(&mut self, sample_rate: u32) -> (changed: bool)
        ensures
            changed == (old(self).sample_rate != sample_rate),
            final(self).sample_rate == sample_rate,
            final(self).rvc_sample_rate == old(self).rvc_sample_rate,
            changed ==> final(self).audio_buffer@ == Seq::<Sample>::empty()
                && final(self).audio_16k_buffer@ == Seq::<Sample>::empty()
                && final(self).pitchf_buffer@ == Seq::<Sample>::empty(),
            !changed ==> final(self).audio_buffer@ == old(self).audio_buffer@
                && final(self).audio_16k_buffer@ == old(self).audio_16k_buffer@
                && final(self).pitchf_buffer@ == old(self).pitchf_buffer@,
    {
        if self.sample_rate != sample_rate {
            self.reset();
            self.sample_rate = sample_rate;
            true
        } else {
            false
        }
    }

    /// Commits a chunk: appends `new_audio` and its resampled `new_audio_16k`,
    /// appends `sizes.new_feature_len` silent F0 entries, then fits every
    /// buffer to its window (`convert_size`, `convert_size_16k`, `feature_size`).
    pub fn commit_chunk(&mut self, new_audio: &[Sample], new_audio_16k: &[Sample], sizes: &StreamSizes)
        ensures
            final(self).audio_buffer@ == fit_window(old(self).audio_buffer@ + new_audio@, sizes.convert_size as nat),
            final(self).audio_16k_buffer@ == fit_window(old(self).audio_16k_buffer@ + new_audio_16k@, sizes.convert_size_16k as nat),
            final(self).pitchf_buffer@ == fit_window(old(self).pitchf_buffer@ + silence(sizes.new_feature_len as nat), sizes.feature_size as nat),
            final(self).sample_rate == old(self).sample_rate,
            final(self).rvc_sample_rate == old(self).rvc_sample_rate,
    {
        extend_samples(&mut self.audio_buffer, new_audio);
        extend_samples(&mut self.audio_16k_buffer, new_audio_16k);
        push_silence(&mut self.pitchf_buffer, sizes.new_feature_len);
        fit_window_in_place(&mut self.audio_buffer, sizes.convert_size);
        fit_window_in_place(&mut self.audio_16k_buffer, sizes.convert_size_16k);
        fit_window_in_place(&mut self.pitchf_buffer, sizes.feature_size);
    }

    /// The current 16 kHz window.
    pub fn audio_16k_window(&self) -> (w: &[Sample])
        ensures
            w@ == self.audio_16k_buffer@,
    {
        self.audio_16k_buffer.as_slice()
    }

    /// The current device-rate window.
    pub fn audio_window(&self) -> (w: &[Sample])
        ensures
            w@ == self.audio_buffer@,
    {
        self.audio_buffer.as_slice()
    }
}


/// After a chunk is committed, the buffers hold exactly `convert_size`,
/// `convert_size_16k` and `feature_size` entries, the newest ones last.
pub proof fn lemma_fit_window(s: Seq<Sample>, len: nat)
    ensures
        fit_window(s, len).len() == len,
        s.len() >= len ==> fit_window(s, len) == s.subrange(s.len() - len, s.len() as int),
        s.len() < len ==> fit_window(s, len).subrange(len - s.len(), len as int) == s,
{
    if s.len() < len {
        assert(fit_window(s, len).subrange(len - s.len(), len as int) =~= s);
    }
}

/// What the window sizes of a chunk mean, in terms of the chunk alone:
/// `new_16k_samples` and `extra_16k_samples` are the 16 kHz counts (rounded
/// down) spanning the new audio at the device rate and the margin at the
/// model rate; the 16 kHz window is the least multiple of 320 holding both;
/// `convert_size` is the least number of device-rate samples spanning that
/// window (it depends on the device rate, not the model rate); the feature
/// counts are the 10 ms frames (rounded down) of the new audio and of the
/// window; `out_size` is the model-rate samples (rounded down, at least 1)
/// spanning the window without the margin.
pub proof fn lemma_stream_sizes_meaning(new_audio_len: nat, sample_rate: nat, rvc_sample_rate: nat, extra: nat)
    requires
        stream_sizes_fit(new_audio_len as int, sample_rate as int, rvc_sample_rate as int, extra as int),
    ensures
        ({
            let s = stream_sizes_spec(new_audio_len as int, sample_rate as int, rvc_sample_rate as int, extra as int);
            let n16 = s.new_16k_samples as int;
            let e16 = s.extra_16k_samples as int;
            let c16 = s.convert_size_16k as int;
            let cs = s.convert_size as int;
            let kept = (c16 - e16) * rvc_sample_rate;
            &&& n16 * sample_rate <= new_audio_len * 16000 < (n16 + 1) * sample_rate
            &&& e16 * rvc_sample_rate <= extra * 16000 < (e16 + 1) * rvc_sample_rate
            &&& c16 % 320 == 0
            &&& n16 + e16 <= c16 < n16 + e16 + 320
            &&& cs * 16000 >= c16 * sample_rate
            &&& (c16 == 0 ==> cs == 0)
            &&& (c16 > 0 ==> (cs - 1) * 16000 < c16 * sample_rate)
            &&& s.new_feature_len * 16000 <= n16 * 100 < (s.new_feature_len + 1) * 16000
            &&& s.feature_size * 16000 <= c16 * 100 < (s.feature_size + 1) * 16000
            &&& (kept / 16000 <= usize::MAX ==> {
                &&& s.out_size >= 1
                &&& (kept >= 16000 ==> s.out_size * 16000 <= kept < (s.out_size + 1) * 16000)
                &&& (kept < 16000 ==> s.out_size == 1)
            })
        }),
{
    let l = new_audio_len as int;
    let sr = sample_rate as int;
    let rv = rvc_sample_rate as int;
    let ex = extra as int;
    let n16 = new_16k_spec(l, sr);
    let e16 = extra_16k_spec(ex, rv);
    let c16 = convert_16k_spec(l, sr, rv, ex);
    assert(l * 16000 >= 0 && ex * 16000 >= 0) by (nonlinear_arith)
        requires l >= 0, ex >= 0;
    lemma_floor_div_bounds(l * 16000, sr);
    lemma_floor_div_bounds(ex * 16000, rv);
    assert(n16 == l * 16000 / sr);
    assert(e16 == ex * 16000 / rv);
    lemma_align_up_is_least_multiple((n16 + e16) as nat, 320);
    let s = stream_sizes_spec(l, sr, rv, ex);
    assert(s.new_16k_samples as int == n16);
    assert(s.extra_16k_samples as int == e16);
    assert(s.convert_size_16k as int == c16);
    // The window back at the device rate, rounded up.
    assert(c16 * sr >= 0) by (nonlinear_arith)
        requires c16 >= 0, sr > 0;
    lemma_ceil_div_bounds(c16 * sr, 16000);
    let back = div_ceil_spec(c16 * sr, 16000);
    assert(back == samples_between_rates_spec(c16, 16000, sr, Rounding::Ceil));
    assert(s.convert_size as int == back);
    if c16 == 0 {
        assert(c16 * sr == 0) by (nonlinear_arith)
            requires c16 == 0;
    } else {
        assert(c16 * sr > 0) by (nonlinear_arith)
            requires c16 > 0, sr > 0;
    }
    // Feature counts.
    assert(n16 * 100 >= 0 && c16 * 100 >= 0) by (nonlinear_arith)
        requires n16 >= 0, c16 >= 0;
    lemma_floor_div_bounds(n16 * 100, 16000);
    lemma_floor_div_bounds(c16 * 100, 16000);
    assert(n16 * 100 / 16000 <= n16 && c16 * 100 / 16000 <= c16) by (nonlinear_arith)
        requires n16 >= 0, c16 >= 0;
    assert(s.new_feature_len as int == n16 * 100 / 16000);
    assert(s.feature_size as int == c16 * 100 / 16000);
    // Output size.
    let kept = (c16 - e16) * rv;
    assert(kept >= 0) by (nonlinear_arith)
        requires c16 - e16 >= 0, rv > 0, kept == (c16 - e16) * rv;
    lemma_floor_div_bounds(kept, 16000);
    let out = samples_between_rates_spec(
        if c16 - e16 < 0 { 0 } else { c16 - e16 },
        16000,
        rv,
        Rounding::Floor,
    );
    assert(out == kept / 16000);
    if kept / 16000 <= usize::MAX {
        assert(out as usize as int == out);
        if kept >= 16000 {
            assert(kept / 16000 >= 1) by (nonlinear_arith)
                requires kept >= 16000;
        } else {
            assert(kept / 16000 == 0) by (nonlinear_arith)
                requires 0 <= kept < 16000;
        }
    }
}

} // verus!
