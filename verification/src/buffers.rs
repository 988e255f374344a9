//! Sample buffer windows: padding with silence, taking tails.
use vstd::prelude::*;
use crate::{Sample, SILENCE};

verus! {

/// A run of `n` silent samples.
pub open spec fn silence(n: nat) -> Seq<Sample> {
    Seq::new(n, |i: int| SILENCE)
}

/// The last `len` elements of `s` (all of `s` when it is shorter).
pub open spec fn tail_of<T>(s: Seq<T>, len: nat) -> Seq<T> {
    if s.len() > len {
        s.subrange(s.len() - len, s.len() as int)
    } else {
        s
    }
}

/// `s` padded on the left with silence to `len` samples, then trimmed on the
/// left to exactly `len` samples.
pub open spec fn last_or_pad(s: Seq<Sample>, len: nat) -> Seq<Sample> {
    if s.len() >= len {
        s.subrange(s.len() - len, s.len() as int)
    } else {
        silence((len - s.len()) as nat) + s
    }
}

/// Appends `n` silent samples to `values`.
pub fn push_silence(values: &mut Vec<Sample>, n: usize)
    ensures
        final(values)@ == old(values)@ + silence(n as nat),
{
    let ghost start = values@;
    let mut i: usize = 0;
    while i < n
        invariant
            i <= n,
            values@ == start + silence(i as nat),
        decreases n - i,
    {
        values.push(SILENCE);
        i = i + 1;
        assert(values@ =~= start + silence(i as nat));
    }
}

/// Appends all of `src` to `values`.
pub fn extend_samples(values: &mut Vec<Sample>, src: &[Sample])
    ensures
        final(values)@ == old(values)@ + src@,
{
    let ghost start = values@;
    let mut i: usize = 0;
    while i < src.len()
        invariant
            i <= src@.len(),
            values@ == start + src@.subrange(0, i as int),
        decreases src@.len() - i,
    {
        values.push(src[i]);
        i = i + 1;
        assert(values@ =~= start + src@.subrange(0, i as int));
    }
    assert(src@.subrange(0, src@.len() as int) =~= src@);
}

/// The last `len` samples of `audio` (all of `audio` when it is shorter).
pub fn tail_slice(audio: &[Sample], len: usize) -> (r: &[Sample])
    ensures
        r@ == tail_of(audio@, len as nat),
{
    let start = audio.len().saturating_sub(len);
    let r = &audio[start..audio.len()];
    assert(r@ =~= tail_of(audio@, len as nat));
    r
}

/// Replaces `output` with the last `target_len` samples of `audio`, padding
/// with leading silence when `audio` is shorter.
pub fn last_or_pad_into(audio: &[Sample], target_len: usize, output: &mut Vec<Sample>)
    ensures
        final(output)@ == last_or_pad(audio@, target_len as nat),
{
    output.clear();
    if audio.len() >= target_len {
        extend_samples(output, &audio[audio.len() - target_len..audio.len()]);
    } else {
        push_silence(output, target_len - audio.len());
        extend_samples(output, audio);
    }
    assert(output@ =~= last_or_pad(audio@, target_len as nat));
}

/// Pads `values` with trailing silence up to `len` samples; longer buffers are unchanged.
pub fn pad_to_len_in_place(values: &mut Vec<Sample>, len: usize)
    ensures
        old(values)@.len() < len ==> final(values)@ == old(values)@ + silence(
            (len - old(values)@.len()) as nat,
        ),
        old(values)@.len() >= len ==> final(values)@ == old(values)@,
{
    if values.len() < len {
        let n = len - values.len();
        push_silence(values, n);
    }
}

/// Pads `values` with leading silence up to `len` samples; longer buffers are unchanged.
pub fn left_pad_to_len_in_place(values: &mut Vec<Sample>, len: usize)
    ensures
        old(values)@.len() < len ==> final(values)@ == silence(
            (len - old(values)@.len()) as nat,
        ) + old(values)@,
        old(values)@.len() >= len ==> final(values)@ == old(values)@,
{
    if values.len() >= len {
        return;
    }
    let mut padded: Vec<Sample> = Vec::with_capacity(len);
    push_silence(&mut padded, len - values.len());
    extend_samples(&mut padded, values.as_slice());
    *values = padded;
}


/// `last_or_pad` always yields exactly `len` samples, ending with the input's tail.
pub proof fn lemma_last_or_pad_len(s: Seq<Sample>, len: nat)
    ensures
        last_or_pad(s, len).len() == len,
        last_or_pad(s, len).subrange(len - tail_of(s, len).len(), len as int) == tail_of(s, len),
{
    if s.len() >= len {
        assert(last_or_pad(s, len).subrange(0, len as int) =~= tail_of(s, len));
    } else {
        assert(last_or_pad(s, len).subrange(len - s.len(), len as int) =~= s);
    }
}

} // verus!
