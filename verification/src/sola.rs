//! SOLA (similarity overlap-add) chunk joining: the window bookkeeping.
//!
//! Each RVC output chunk is produced independently, so consecutive chunks do
//! not line up sample-exactly. The joiner keeps the tail of the previous chunk
//! (the crossfade reference), lets the caller search the head of the new chunk
//! for the offset that matches that tail best, cuts an output of fixed length
//! from that offset and remembers the new reference. The similarity search and
//! the crossfade itself operate on sample values and are done by the caller;
//! this module owns every index and length involved.
use vstd::prelude::*;
use crate::Sample;
use crate::buffers::{extend_samples, push_silence, last_or_pad, last_or_pad_into, silence, tail_of, tail_slice};
use crate::shape::ms_to_samples;

verus! {

/// Chunk smoothing strategy.
#[derive(Clone, Copy, Debug, PartialEq, Eq)]
pub enum SmoothingKind {
    /// Plain SOLA (similarity search).
    Sola,
    /// Pitch-synchronous SOLA (offsets on pitch-period boundaries).
    Psola,
}

/// Configuration of a [`SolaChunkJoiner`].
#[derive(Clone, Debug)]
pub struct SolaConfig {
    pub kind: SmoothingKind,
    /// Output chunk length in samples.
    pub chunk_samples: usize,
    /// Sample rate (Hz), used to turn pitch into a period.
    pub sample_rate: u32,
    /// Crossfade length in samples.
    pub crossfade_samples: usize,
    /// Offset search range in samples.
    pub sola_search_samples: usize,
    /// Unstable tail samples discarded from every chunk.
    pub tail_discard_samples: usize,
}

impl SolaConfig {
    /// Builds a configuration from durations in milliseconds at `sample_rate`.
    pub fn from_ms(
        kind: SmoothingKind,
        chunk_samples: usize,
        sample_rate: u32,
        crossfade_ms: u32,
        sola_search_ms: u32,
        tail_discard_ms: u32,
    ) -> (c: Self)
        ensures
            c.kind == kind,
            c.chunk_samples == chunk_samples,
            c.sample_rate == sample_rate,
            c.crossfade_samples == crate::shape::ms_to_samples_spec(sample_rate, crossfade_ms) as usize,
            c.sola_search_samples == crate::shape::ms_to_samples_spec(sample_rate, sola_search_ms) as usize,
            c.tail_discard_samples == crate::shape::ms_to_samples_spec(sample_rate, tail_discard_ms) as usize,
    {
        SolaConfig {
            kind,
            chunk_samples,
            sample_rate,
            crossfade_samples: ms_to_samples(sample_rate, crossfade_ms),
            sola_search_samples: ms_to_samples(sample_rate, sola_search_ms),
            tail_discard_samples: ms_to_samples(sample_rate, tail_discard_ms),
        }
    }
}

/// The lengths of one join, computed from the new chunk and the stored reference.
#[derive(Clone, Copy, Debug, PartialEq, Eq)]
pub struct JoinPlan {
    /// Samples blended between the stored reference and the new chunk.
    pub crossfade_len: usize,
    /// Largest offset into the candidate window that may be chosen.
    pub max_offset: usize,
    /// Length of the head of the candidate window that the search may read.
    pub candidate_len: usize,
}

/// What [`SolaChunkJoiner::begin`] did with a chunk.
#[derive(Clone, Copy, Debug, PartialEq, Eq)]
pub enum JoinStart {
    /// The output is complete and the chosen offset is 0: no crossfade is
    /// configured, the chunk was empty, or this chunk primed the joiner.
    Finished,
    /// A search is needed: choose an offset in `0..=max_offset`, then call
    /// [`SolaChunkJoiner::finish`].
    Search(JoinPlan),
}

fn sat_add(a: usize, b: usize) -> (r: usize)
    ensures
        r == sat_add_spec(a as int, b as int),
{
    a.saturating_add(b)
}

/// `a + b`, saturated at `usize::MAX`.
pub open spec fn sat_add_spec(a: int, b: int) -> int {
    if a + b > usize::MAX { usize::MAX as int } else { a + b }
}

/// `a - b`, saturated at 0.
pub open spec fn sat_sub_spec(a: int, b: int) -> int {
    if a - b < 0 { 0 } else { a - b }
}

pub open spec fn min_spec(a: int, b: int) -> int {
    if a <= b { a } else { b }
}

/// SOLA chunk joiner: keeps the crossfade reference and the fixed-length output.
pub struct SolaChunkJoiner {
    chunk_samples: usize,
    sample_rate: u32,
    kind: SmoothingKind,
    crossfade_samples: usize,
    sola_search_samples: usize,
    tail_discard_samples: usize,
    /// Tail of the previous chunk (crossfade reference).
    sola_buffer: Vec<Sample>,
    /// Output of the last join.
    output_buffer: Vec<Sample>,
}

impl SolaChunkJoiner {
    /// Configured smoothing strategy.
    pub closed spec fn spec_kind(&self) -> SmoothingKind {
        self.kind
    }

    /// Configured sample rate.
    pub closed spec fn spec_sample_rate(&self) -> u32 {
        self.sample_rate
    }

    /// Configured crossfade length.
    pub closed spec fn spec_crossfade(&self) -> nat {
        self.crossfade_samples as nat
    }

    /// Configured search range.
    pub closed spec fn spec_search(&self) -> nat {
        self.sola_search_samples as nat
    }

    /// Configured discarded tail.
    pub closed spec fn spec_tail_discard(&self) -> nat {
        self.tail_discard_samples as nat
    }

    /// Length of every output: the chunk length, at least 1.
    pub closed spec fn target_len(&self) -> nat {
        if self.chunk_samples == 0 { 1 } else { self.chunk_samples as nat }
    }

    /// The stored crossfade reference (tail of the previous chunk).
    pub closed spec fn reference_buffer(&self) -> Seq<Sample> {
        self.sola_buffer@
    }

    /// The output of the last join.
    pub closed spec fn output_view(&self) -> Seq<Sample> {
        self.output_buffer@
    }

    /// Well-formedness: the search range and crossfade length add up without overflow.
    pub closed spec fn wf(&self) -> bool {
        self.crossfade_samples + self.sola_search_samples <= usize::MAX
    }

    /// The part of a chunk that takes part in a join: the chunk without its
    /// discarded tail, limited to its last `target + crossfade + search` samples.
    pub open spec fn window(&self, audio: Seq<Sample>) -> Seq<Sample> {
        let stable_len = sat_sub_spec(audio.len() as int, self.spec_tail_discard() as int);
        let window_len = sat_add_spec(
            sat_add_spec(self.target_len() as int, self.spec_crossfade() as int),
            self.spec_search() as int,
        );
        if stable_len > window_len {
            audio.subrange(stable_len - window_len, stable_len)
        } else {
            audio.subrange(0, stable_len)
        }
    }

    /// The plan of the join of `audio`, or `None` when `begin` finishes the chunk itself.
    pub open spec fn plan_for(&self, audio: Seq<Sample>) -> Option<JoinPlan> {
        let w = self.window(audio);
        let crossfade_len = min_spec(
            min_spec(
                min_spec(self.reference_buffer().len() as int, self.spec_crossfade() as int),
                w.len() as int,
            ),
            self.target_len() as int,
        );
        let max_offset = min_spec(
            self.spec_search() as int,
            sat_sub_spec(w.len() as int, self.target_len() as int),
        );
        if self.spec_crossfade() == 0 || w.len() == 0 || self.reference_buffer().len() == 0
            || crossfade_len == 0 {
            None
        } else {
            Some(
                JoinPlan {
                    crossfade_len: crossfade_len as usize,
                    max_offset: max_offset as usize,
                    candidate_len: min_spec(crossfade_len + max_offset, w.len() as int) as usize,
                },
            )
        }
    }

    /// The reference kept after a join of the window `w` at offset `offset`:
    /// `crossfade` samples that end `search - offset` samples before the end of
    /// the window, or the window's tail when that range does not fit.
    pub open spec fn next_reference(&self, w: Seq<Sample>, offset: int) -> Seq<Sample> {
        let cf = self.spec_crossfade() as int;
        let search = self.spec_search() as int;
        if cf == 0 {
            Seq::empty()
        } else if offset < search {
            let start = sat_sub_spec(w.len() as int, search + cf - offset);
            let end = sat_sub_spec(w.len() as int, search - offset);
            if start < end && end <= w.len() {
                w.subrange(start, end)
            } else {
                tail_of(w, cf as nat)
            }
        } else {
            tail_of(w, cf as nat)
        }
    }

    /// The output cut from the window `w` at `offset`: `target` samples from
    /// `offset` on, padded with trailing silence where the window ends early.
    pub open spec fn cut_output(&self, w: Seq<Sample>, offset: int) -> Seq<Sample> {
        let end = min_spec(offset + self.target_len(), w.len() as int);
        let part = w.subrange(offset, end);
        part + silence((self.target_len() - part.len()) as nat)
    }

    /// Builds a joiner for `config`.
    pub fn new(config: &SolaConfig) -> (j: Self)
        requires
            config.crossfade_samples + config.sola_search_samples <= usize::MAX,
        ensures
            j.wf(),
            j.reference_buffer() == Seq::<Sample>::empty(),
            j.output_view() == Seq::<Sample>::empty(),
            j.spec_crossfade() == config.crossfade_samples,
            j.spec_search() == config.sola_search_samples,
            j.spec_tail_discard() == config.tail_discard_samples,
            j.target_len() == (if config.chunk_samples == 0 { 1 } else { config.chunk_samples as nat }),
            j.spec_kind() == config.kind,
            j.spec_sample_rate() == config.sample_rate,
    {
        SolaChunkJoiner {
            chunk_samples: config.chunk_samples,
            sample_rate: config.sample_rate,
            kind: config.kind,
            crossfade_samples: config.crossfade_samples,
            sola_search_samples: config.sola_search_samples,
            tail_discard_samples: config.tail_discard_samples,
            sola_buffer: Vec::new(),
            output_buffer: Vec::new(),
        }
    }

    /// The configured smoothing strategy.
    pub fn kind(&self) -> (k: SmoothingKind)
        ensures
            k == self.spec_kind(),
    {
        self.kind
    }

    /// The configured sample rate.
    pub fn sample_rate(&self) -> (r: u32)
        ensures
            r == self.spec_sample_rate(),
    {
        self.sample_rate
    }

    /// Output length of every join: the chunk length, at least 1.
    pub fn output_len(&self) -> (n: usize)
        ensures
            n == self.target_len(),
    {
        if self.chunk_samples == 0 { 1 } else { self.chunk_samples }
    }

    /// The window of `audio` that takes part in a join (see [`Self::window`]).
    pub fn candidate_audio<'a>(&self, audio: &'a [Sample]) -> (w: &'a [Sample])
        ensures
            w@ == self.window(audio@),
    {
        let stable_len = audio.len().saturating_sub(self.tail_discard_samples);
        let target = if self.chunk_samples == 0 { 1 } else { self.chunk_samples };
        let window_len = sat_add(sat_add(target, self.crossfade_samples), self.sola_search_samples);
        if stable_len > window_len {
            &audio[stable_len - window_len..stable_len]
        } else {
            &audio[0..stable_len]
        }
    }

    /// Primes the joiner with a chunk: its window's tail becomes the reference.
    pub fn prime(&mut self, audio: &[Sample])
        requires
            old(self).wf(),
        ensures
            final(self).wf(),
            final(self).output_view() == old(self).output_view(),
            final(self).reference_buffer() == (if old(self).spec_crossfade() == 0 || old(
                self,
            ).window(audio@).len() == 0 {
                Seq::<Sample>::empty()
            } else {
                tail_of(old(self).window(audio@), old(self).spec_crossfade())
            }),
            final(self).same_config(*old(self)),
    {
        let w = self.candidate_audio(audio);
        self.prime_window(w);
    }

    /// Both joiners have the same configuration.
    pub open spec fn same_config(&self, other: Self) -> bool {
        &&& self.spec_crossfade() == other.spec_crossfade()
        &&& self.spec_search() == other.spec_search()
        &&& self.spec_tail_discard() == other.spec_tail_discard()
        &&& self.target_len() == other.target_len()
        &&& self.spec_kind() == other.spec_kind()
        &&& self.spec_sample_rate() == other.spec_sample_rate()
    }

    fn prime_window(&mut self, w: &[Sample])
        requires
            old(self).wf(),
        ensures
            final(self).wf(),
            final(self).output_view() == old(self).output_view(),
            final(self).reference_buffer() == (if old(self).spec_crossfade() == 0 || w@.len() == 0 {
                Seq::<Sample>::empty()
            } else {
                tail_of(w@, old(self).spec_crossfade())
            }),
            final(self).same_config(*old(self)),
    {
        self.sola_buffer.clear();
        if self.crossfade_samples == 0 || w.len() == 0 {
            return;
        }
        let t = tail_slice(w, self.crossfade_samples);
        extend_samples(&mut self.sola_buffer, t);
        assert(self.sola_buffer@ =~= tail_of(w@, self.crossfade_samples as nat));
    }

    /// Replaces the reference with the one kept after a join at `offset`.
    fn update_reference(&mut self, w: &[Sample], offset: usize)
        requires
            old(self).wf(),
        ensures
            final(self).wf(),
            final(self).output_view() == old(self).output_view(),
            final(self).reference_buffer() == old(self).next_reference(w@, offset as int),
            final(self).same_config(*old(self)),
    {
        self.sola_buffer.clear();
        if self.crossfade_samples == 0 {
            return;
        }
        if offset < self.sola_search_samples {
            let start = w.len().saturating_sub(self.sola_search_samples + self.crossfade_samples - offset);
            let end = w.len().saturating_sub(self.sola_search_samples - offset);
            if start < end && end <= w.len() {
                extend_samples(&mut self.sola_buffer, &w[start..end]);
                assert(self.sola_buffer@ =~= w@.subrange(start as int, end as int));
                return;
            }
        }
        let t = tail_slice(w, self.crossfade_samples);
        extend_samples(&mut self.sola_buffer, t);
        assert(self.sola_buffer@ =~= tail_of(w@, self.crossfade_samples as nat));
    }

    /// Starts joining `audio`. When no search is needed the chunk is handled
    /// completely: without a crossfade (or with an empty window) the output is
    /// the window's last `target` samples padded with leading silence and the
    /// reference is cleared; the first chunk after a reset only primes the
    /// reference (with [`Self::prime`] applied to the window) and the output
    /// is `target` samples of silence.
    pub fn begin(&mut self, audio: &[Sample]) -> (r: JoinStart)
        requires
            old(self).wf(),
        ensures
            final(self).wf(),
            final(self).same_config(*old(self)),
            ({
                let w = old(self).window(audio@);
                match r {
                    JoinStart::Search(plan) => {
                        &&& old(self).plan_for(audio@) == Some(plan)
                        &&& *final(self) == *old(self)
                    },
                    JoinStart::Finished => {
                        &&& old(self).plan_for(audio@) is None
                        &&& if old(self).spec_crossfade() == 0 || w.len() == 0 {
                            &&& final(self).output_view() == last_or_pad(w, old(self).target_len())
                            &&& final(self).reference_buffer() == Seq::<Sample>::empty()
                        } else if old(self).reference_buffer().len() == 0 {
                            &&& final(self).output_view() == silence(old(self).target_len())
                            &&& final(self).reference_buffer() == (if old(self).window(w).len() == 0 {
                                Seq::<Sample>::empty()
                            } else {
                                tail_of(old(self).window(w), old(self).spec_crossfade())
                            })
                        } else {
                            &&& final(self).output_view() == last_or_pad(w, old(self).target_len())
                            &&& final(self).reference_buffer() == old(self).next_reference(w, 0)
                        }
                    },
                }
            }),
    {
        let target = self.output_len();
        let w = self.candidate_audio(audio);
        if self.crossfade_samples == 0 || w.len() == 0 {
            last_or_pad_into(w, target, &mut self.output_buffer);
            self.sola_buffer.clear();
            return JoinStart::Finished;
        }
        if self.sola_buffer.len() == 0 {
            self.prime(w);
            self.output_buffer.clear();
            push_silence(&mut self.output_buffer, target);
            assert(self.output_buffer@ =~= silence(target as nat));
            return JoinStart::Finished;
        }
        let mut crossfade_len = self.sola_buffer.len();
        if self.crossfade_samples < crossfade_len {
            crossfade_len = self.crossfade_samples;
        }
        if w.len() < crossfade_len {
            crossfade_len = w.len();
        }
        if target < crossfade_len {
            crossfade_len = target;
        }
        if crossfade_len == 0 {
            last_or_pad_into(w, target, &mut self.output_buffer);
            self.update_reference(w, 0);
            return JoinStart::Finished;
        }
        let room = w.len().saturating_sub(target);
        let max_offset = if self.sola_search_samples < room { self.sola_search_samples } else { room };
        let candidate_len = if crossfade_len + max_offset < w.len() {
            crossfade_len + max_offset
        } else {
            w.len()
        };
        JoinStart::Search(JoinPlan { crossfade_len, max_offset, candidate_len })
    }

    /// Length of the stored reference.
    pub fn reference_len(&self) -> (n: usize)
        ensures
            n == self.reference_buffer().len(),
    {
        self.sola_buffer.len()
    }

    /// The last `crossfade_len` samples of the stored reference: the signal
    /// the search compares against and the crossfade blends from.
    pub fn reference(&self, crossfade_len: usize) -> (r: &[Sample])
        requires
            crossfade_len <= self.reference_buffer().len(),
        ensures
            r@ == self.reference_buffer().subrange(
                self.reference_buffer().len() - crossfade_len,
                self.reference_buffer().len() as int,
            ),
    {
        let n = self.sola_buffer.len();
        &self.sola_buffer.as_slice()[n - crossfade_len..n]
    }

    /// Completes the join of `audio` whose [`Self::begin`] returned a plan:
    /// clamps `offset` to the plan's `max_offset`, cuts the output from the
    /// window at that offset and keeps the next reference. Returns the offset used.
    pub fn finish(&mut self, audio: &[Sample], offset: usize) -> (used: usize)
        requires
            old(self).wf(),
            old(self).plan_for(audio@) is Some,
        ensures
            final(self).wf(),
            final(self).same_config(*old(self)),
            used == min_spec(offset as int, old(self).plan_for(audio@)->0.max_offset as int),
            final(self).output_view() == old(self).cut_output(old(self).window(audio@), used as int),
            final(self).reference_buffer() == old(self).next_reference(old(self).window(audio@), used as int),
    {
        let ghost plan = self.plan_for(audio@)->0;
        let target = self.output_len();
        let w = self.candidate_audio(audio);
        let room = w.len().saturating_sub(target);
        let max_offset = if self.sola_search_samples < room { self.sola_search_samples } else { room };
        assert(max_offset == plan.max_offset);
        let used = if offset < max_offset { offset } else { max_offset };
        let end = if used + target < w.len() { used + target } else { w.len() };
        self.output_buffer.clear();
        extend_samples(&mut self.output_buffer, &w[used..end]);
        let ghost part = w@.subrange(used as int, end as int);
        assert(self.output_buffer@ =~= part);
        push_silence(&mut self.output_buffer, target - (end - used));
        assert(self.output_buffer@ =~= self.cut_output(w@, used as int));
        self.update_reference(w, used);
        used
    }

    /// The output of the last join.
    pub fn output(&self) -> (o: &[Sample])
        ensures
            o@ == self.output_view(),
    {
        self.output_buffer.as_slice()
    }

    /// Overwrites the first samples of the output with `blended` (the crossfaded head).
    pub fn overwrite_output_head(&mut self, blended: &[Sample])
        requires
            blended@.len() <= old(self).output_view().len(),
        ensures
            final(self).output_view() == blended@ + old(self).output_view().subrange(
                blended@.len() as int,
                old(self).output_view().len() as int,
            ),
            final(self).reference_buffer() == old(self).reference_buffer(),
            final(self).same_config(*old(self)),
            final(self).wf() == old(self).wf(),
    {
        let mut i: usize = 0;
        while i < blended.len()
            invariant
                i <= blended@.len(),
                blended@.len() <= old(self).output_view().len(),
                self.output_buffer@.len() == old(self).output_view().len(),
                self.output_buffer@ == blended@.subrange(0, i as int) + old(self).output_view().subrange(
                    i as int,
                    old(self).output_view().len() as int,
                ),
                self.sola_buffer == old(self).sola_buffer,
                self.same_config(*old(self)),
                self.wf() == old(self).wf(),
            decreases blended@.len() - i,
        {
            self.output_buffer.set(i, blended[i]);
            i = i + 1;
            assert(self.output_buffer@ =~= blended@.subrange(0, i as int) + old(self).output_view().subrange(
                i as int,
                old(self).output_view().len() as int,
            ));
        }
        assert(blended@.subrange(0, i as int) =~= blended@);
    }

    /// Clears the reference and the output (on a pass-through switch or a
    /// sample-rate change).
    pub fn reset(&mut self)
        requires
            old(self).wf(),
        ensures
            final(self).wf(),
            final(self).same_config(*old(self)),
            final(self).reference_buffer() == Seq::<Sample>::empty(),
            final(self).output_view() == Seq::<Sample>::empty(),
    {
        self.sola_buffer.clear();
        self.output_buffer.clear();
    }
}


/// A join keeps the output length fixed: whichever way `begin` or `finish`
/// handles a chunk, the output holds exactly the target number of samples,
/// and the kept reference is never longer than the crossfade.
pub proof fn lemma_join_lengths(j: SolaChunkJoiner, audio: Seq<Sample>, offset: int)
    ensures
        last_or_pad(j.window(audio), j.target_len()).len() == j.target_len(),
        j.plan_for(audio) is Some && 0 <= offset <= j.plan_for(audio)->0.max_offset ==> {
            &&& j.cut_output(j.window(audio), offset).len() == j.target_len()
            &&& j.next_reference(j.window(audio), offset).len() <= j.spec_crossfade()
        },
        j.next_reference(j.window(audio), 0).len() <= j.spec_crossfade(),
        tail_of(j.window(audio), j.spec_crossfade()).len() <= j.spec_crossfade(),
        tail_of(j.window(j.window(audio)), j.spec_crossfade()).len() <= j.spec_crossfade(),
{
    let w = j.window(audio);
    crate::buffers::lemma_last_or_pad_len(w, j.target_len());
    if j.plan_for(audio) is Some && 0 <= offset <= j.plan_for(audio)->0.max_offset {
        let end = min_spec(offset + j.target_len(), w.len() as int);
        assert(offset <= end);
    }
}

/// A join continues the audio: for a full window (target + crossfade +
/// search samples) and any offset the search may choose, the output cut at
/// `offset` is the `target` samples from `offset` on, and the reference kept
/// for the next join is the `crossfade` samples that directly follow that
/// output, so the next chunk is crossfaded against the audio that continues it.
pub proof fn lemma_reference_follows_output(j: SolaChunkJoiner, w: Seq<Sample>, offset: int)
    requires
        w.len() == j.target_len() + j.spec_crossfade() + j.spec_search(),
        0 <= offset <= j.spec_search(),
    ensures
        j.cut_output(w, offset) == w.subrange(offset, offset + j.target_len()),
        j.next_reference(w, offset) == w.subrange(
            offset + j.target_len(),
            offset + j.target_len() + j.spec_crossfade(),
        ),
{
    let t = j.target_len() as int;
    let cf = j.spec_crossfade() as int;
    let search = j.spec_search() as int;
    let end = min_spec(offset + t, w.len() as int);
    assert(end == offset + t);
    assert(j.cut_output(w, offset) =~= w.subrange(offset, offset + t));
    if cf == 0 {
        assert(j.next_reference(w, offset) =~= w.subrange(offset + t, offset + t));
    } else if offset < search {
        assert(sat_sub_spec(w.len() as int, search + cf - offset) == offset + t);
        assert(sat_sub_spec(w.len() as int, search - offset) == offset + t + cf);
    } else {
        assert(offset == search);
        assert(tail_of(w, cf as nat) =~= w.subrange(offset + t, offset + t + cf));
    }
}

/// A chunk long enough fills the window: once the discarded tail is removed,
/// the window is the last target + crossfade + search samples before it.
pub proof fn lemma_full_window(j: SolaChunkJoiner, audio: Seq<Sample>)
    requires
        j.target_len() + j.spec_crossfade() + j.spec_search() <= usize::MAX,
        audio.len() >= j.spec_tail_discard() + j.target_len() + j.spec_crossfade() + j.spec_search(),
    ensures
        ({
            let n = j.target_len() + j.spec_crossfade() + j.spec_search();
            let stable = audio.len() - j.spec_tail_discard();
            j.window(audio) == audio.subrange(stable - n, stable)
        }),
{
}

} // verus!
