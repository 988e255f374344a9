//! Audio frames, processing stages, pipeline configuration and the frame
//! adapter that packs a sample stream into fixed-size frames.
use vstd::prelude::*;
use crate::{Sample, SILENCE};
use crate::buffers::{extend_samples, push_silence, silence};
use crate::error::VoxError;

verus! {

/// An audio frame: interleaved samples and their metadata.
#[derive(Debug, Clone)]
pub struct Frame {
    /// Interleaved samples: `samples[ch + frame * channels]`.
    pub samples: Vec<Sample>,
    /// Sample rate (Hz).
    pub sample_rate: u32,
    /// Channel count.
    pub channels: u16,
    /// Timestamp: samples per channel since the pipeline started.
    pub timestamp: u64,
}

/// `a * b`, saturated at `usize::MAX`.
pub open spec fn sat_mul_spec(a: int, b: int) -> int {
    if a * b > usize::MAX { usize::MAX as int } else { a * b }
}

/// The channel count used for sizes: at least 1.
pub open spec fn effective_channels(channels: u16) -> int {
    if channels == 0 { 1 } else { channels as int }
}

impl Frame {
    /// A silent frame of `frames` frames (`frames * max(channels, 1)` samples,
    /// saturated) with timestamp 0.
    pub fn zero(sample_rate: u32, channels: u16, frames: usize) -> (f: Self)
        ensures
            f.samples@ == silence(sat_mul_spec(frames as int, effective_channels(channels)) as nat),
            f.sample_rate == sample_rate,
            f.channels == channels,
            f.timestamp == 0,
    {
        let ch: usize = if channels == 0 { 1 } else { channels as usize };
        let n = if frames > usize::MAX / ch {
            proof {
                assert(frames * ch > usize::MAX) by (nonlinear_arith)
                    requires frames > usize::MAX / ch, ch > 0;
            }
            usize::MAX
        } else {
            proof {
                assert(frames * ch <= usize::MAX) by (nonlinear_arith)
                    requires frames <= usize::MAX / ch, ch > 0;
            }
            frames * ch
        };
        let mut samples: Vec<Sample> = Vec::new();
        push_silence(&mut samples, n);
        assert(samples@ =~= silence(sat_mul_spec(frames as int, effective_channels(channels)) as nat));
        Frame { samples, sample_rate, channels, timestamp: 0 }
    }

    /// Frames per channel: `samples.len() / max(channels, 1)`.
    pub fn frame_count(&self) -> (n: usize)
        ensures
            n == (self.samples@.len() as int) / effective_channels(self.channels),
    {
        let ch: usize = if self.channels == 0 { 1 } else { self.channels as usize };
        self.samples.len() / ch
    }

    /// A silent frame with this frame's length and metadata.
    pub fn silent_like(&self) -> (f: Frame)
        ensures
            f.samples@ == silence(self.samples@.len()),
            f.sample_rate == self.sample_rate,
            f.channels == self.channels,
            f.timestamp == self.timestamp,
    {
        let mut samples: Vec<Sample> = Vec::new();
        push_silence(&mut samples, self.samples.len());
        assert(samples@ =~= silence(self.samples@.len()));
        Frame {
            samples,
            sample_rate: self.sample_rate,
            channels: self.channels,
            timestamp: self.timestamp,
        }
    }
}

/// A processing node of the voice pipeline (pre-processing, features,
/// conversion, vocoder): turns an input frame into an output frame.
pub trait VoiceProcessor {
    /// Processes one frame into `output`.
    fn process(&mut self, input: &Frame, output: &mut Frame) -> Result<(), VoxError>;

    /// Resets internal state (filter history, phase accumulators).
    fn reset(&mut self) {
    }
}

/// A pipeline stage: processes one frame into one frame; errors are turned
/// into silence by the caller.
pub trait Stage {
    /// Processes one frame into `output`.
    fn process(&mut self, input: &Frame, output: &mut Frame) -> Result<(), VoxError>;

    /// Resets internal state so that nothing leaks across frames.
    fn reset(&mut self) {
    }
}

/// Pass-through stage: the output is a copy of the input.
#[derive(Debug, Default)]
pub struct PassthroughStage;

impl PassthroughStage {
    /// A pass-through stage.
    pub fn new() -> (s: Self) {
        PassthroughStage
    }

    /// Copies `input` (samples and metadata) into `output`.
    pub fn copy_frame(&mut self, input: &Frame, output: &mut Frame)
        ensures
            final(output).samples@ == input.samples@,
            final(output).sample_rate == input.sample_rate,
            final(output).channels == input.channels,
            final(output).timestamp == input.timestamp,
    {
        output.samples.clear();
        extend_samples(&mut output.samples, input.samples.as_slice());
        output.sample_rate = input.sample_rate;
        output.channels = input.channels;
        output.timestamp = input.timestamp;
    }
}

impl Stage for PassthroughStage {
    fn process(&mut self, input: &Frame, output: &mut Frame) -> (r: Result<(), VoxError>)
        ensures
            r is Ok,
            final(output).samples@ == input.samples@,
            final(output).sample_rate == input.sample_rate,
            final(output).channels == input.channels,
            final(output).timestamp == input.timestamp,
    {
        self.copy_frame(input, output);
        Ok(())
    }
}

/// Pipeline configuration.
#[derive(Debug, Clone, Copy)]
pub struct PipelineConfig {
    /// Sample rate (Hz).
    pub sample_rate: u32,
    /// Channel count.
    pub channels: u16,
    /// Frame length in samples per channel.
    pub frame_size: usize,
    /// Capacity of the channels between stages, in frames.
    pub channel_capacity: usize,
}

impl PipelineConfig {
    /// 16 kHz mono, 32 ms frames (512 samples), channel capacity 3.
    pub fn default_16k_mono() -> (c: Self)
        ensures
            c.sample_rate == 16000,
            c.channels == 1,
            c.frame_size == 512,
            c.channel_capacity == 3,
    {
        PipelineConfig { sample_rate: 16000, channels: 1, frame_size: 512, channel_capacity: 3 }
    }
}

impl Default for PipelineConfig {
    fn default() -> (c: Self)
        ensures
            c.sample_rate == 16000,
            c.channels == 1,
            c.frame_size == 512,
            c.channel_capacity == 3,
    {
        Self::default_16k_mono()
    }
}

/// A snapshot of the pipeline counters.
#[derive(Debug, Clone, Copy)]
pub struct MetricsSnapshot {
    pub input_frames: u64,
    pub output_frames: u64,
    pub dropped_frames: u64,
    pub error_count: u64,
    pub last_infer_us: u64,
}

impl Default for MetricsSnapshot {
    fn default() -> (m: Self)
        ensures
            m.input_frames == 0,
            m.output_frames == 0,
            m.dropped_frames == 0,
            m.error_count == 0,
            m.last_infer_us == 0,
    {
        MetricsSnapshot { input_frames: 0, output_frames: 0, dropped_frames: 0, error_count: 0, last_infer_us: 0 }
    }
}

/// Frame size used when an adapter is configured from a stream: 512 samples
/// per channel (32 ms at 16 kHz).
pub const DEFAULT_ADAPTER_FRAME_SIZE: usize = 512;

/// Frame adapter configuration.
#[derive(Debug, Clone, Copy)]
pub struct FrameAdapterConfig {
    /// Samples per channel in a frame.
    pub frame_size: usize,
    /// Channel count.
    pub channels: u16,
    /// Sample rate (Hz).
    pub sample_rate: u32,
}

impl FrameAdapterConfig {
    /// The configuration for a source or sink with these parameters: default
    /// frame size, the stream's channel count and sample rate.
    pub fn for_stream(channels: u16, sample_rate: u32) -> (c: Self)
        ensures
            c.frame_size == DEFAULT_ADAPTER_FRAME_SIZE,
            c.channels == channels,
            c.sample_rate == sample_rate,
    {
        FrameAdapterConfig { frame_size: DEFAULT_ADAPTER_FRAME_SIZE, channels, sample_rate }
    }
}

/// Real-time engine configuration.
#[derive(Debug, Clone, Copy)]
pub struct RealtimeEngineConfig {
    /// Samples per channel in a frame.
    pub frame_size: usize,
    /// Capacity of the pipeline channels.
    pub channel_capacity: usize,
    /// How long the capture loop sleeps when the source has no data, in milliseconds.
    pub poll_interval_ms: u64,
}

impl Default for RealtimeEngineConfig {
    /// 512-sample frames (32 ms at 16 kHz), channel capacity 4, 5 ms polling.
    fn default() -> (c: Self)
        ensures
            c.frame_size == DEFAULT_ADAPTER_FRAME_SIZE,
            c.channel_capacity == 4,
            c.poll_interval_ms == 5,
    {
        RealtimeEngineConfig { frame_size: DEFAULT_ADAPTER_FRAME_SIZE, channel_capacity: 4, poll_interval_ms: 5 }
    }
}

impl RealtimeEngineConfig {
    /// The adapter configuration of the capture loop for a source with these
    /// parameters: the engine's frame size, the source's channels and rate.
    pub fn adapter_config(&self, channels: u16, sample_rate: u32) -> (c: FrameAdapterConfig)
        ensures
            c.frame_size == self.frame_size,
            c.channels == channels,
            c.sample_rate == sample_rate,
    {
        FrameAdapterConfig { frame_size: self.frame_size, channels, sample_rate }
    }
}

/// A read-only view of one audio device.
pub trait AudioDevice: Send {
    /// Human-readable device name.
    fn name(&self) -> &str;

    /// Native sample rate (Hz).
    fn sample_rate(&self) -> u32;

    /// Channel count.
    fn channels(&self) -> u16;
}

/// Lists input and output devices.
pub trait DeviceEnumerator: Send {
    /// All available input devices.
    fn list_inputs(&self) -> Vec<Box<dyn AudioDevice>>;

    /// All available output devices.
    fn list_outputs(&self) -> Vec<Box<dyn AudioDevice>>;

    /// The system's default input device.
    fn default_input(&self) -> Option<Box<dyn AudioDevice>>;

    /// The system's default output device.
    fn default_output(&self) -> Option<Box<dyn AudioDevice>>;
}

/// The `i`-th frame's samples when `s` is cut into frames of `n` samples.
pub open spec fn chunk(s: Seq<Sample>, n: int, i: int) -> Seq<Sample> {
    s.subrange(i * n, (i + 1) * n)
}

/// Frame adapter: accumulates interleaved samples and packs them into frames
/// of `frame_size * channels` samples, stamping each with a running timestamp.
pub struct FrameAdapter {
    config: FrameAdapterConfig,
    accum: Vec<Sample>,
    timestamp: u64,
}

impl FrameAdapter {
    /// The adapter's configuration.
    pub closed spec fn spec_config(&self) -> FrameAdapterConfig {
        self.config
    }

    /// Samples accumulated but not yet packed into a frame.
    pub closed spec fn pending(&self) -> Seq<Sample> {
        self.accum@
    }

    /// Timestamp of the next frame.
    pub closed spec fn next_timestamp(&self) -> u64 {
        self.timestamp
    }

    /// Samples per frame: `frame_size * channels`.
    pub open spec fn frame_samples(&self) -> int {
        self.spec_config().frame_size * self.spec_config().channels
    }

    /// An empty adapter with timestamp 0.
    pub fn new(config: FrameAdapterConfig) -> (a: Self)
        ensures
            a.spec_config() == config,
            a.pending() == Seq::<Sample>::empty(),
            a.next_timestamp() == 0,
    {
        FrameAdapter { config, accum: Vec::new(), timestamp: 0 }
    }

    /// Appends `samples` to the accumulated ones and packs every complete
    /// frame, in order. The `i`-th frame holds the `i`-th run of
    /// `frame_size * channels` samples and is stamped `timestamp + i * frame_size`.
    pub fn pack(&mut self, samples: &[Sample]) -> (frames: Vec<Frame>)
        requires
            old(self).frame_samples() > 0,
            old(self).frame_samples() <= usize::MAX,
            old(self).next_timestamp() + ((old(self).pending().len() + samples@.len()) as int / old(self).frame_samples())
                * old(self).spec_config().frame_size <= u64::MAX,
        ensures
            ({
                let all = old(self).pending() + samples@;
                let n = old(self).frame_samples();
                let k = (all.len() as int) / n;
                &&& frames@.len() == k
                &&& forall|i: int| 0 <= i < k ==> {
                    &&& (#[trigger] frames@[i]).samples@ == chunk(all, n, i)
                    &&& frames@[i].sample_rate == old(self).spec_config().sample_rate
                    &&& frames@[i].channels == old(self).spec_config().channels
                    &&& frames@[i].timestamp == old(self).next_timestamp() + i * old(self).spec_config().frame_size
                }
                &&& final(self).pending() == all.subrange(k * n, all.len() as int)
                &&& final(self).next_timestamp() == old(self).next_timestamp() + k * old(self).spec_config().frame_size
                &&& final(self).spec_config() == old(self).spec_config()
            }),
    {
        let n = self.config.frame_size * (self.config.channels as usize);
        let ghost all = self.accum@ + samples@;
        let ghost k = (all.len() as int) / (n as int);
        let ghost ts0 = self.timestamp;
        extend_samples(&mut self.accum, samples);
        let mut frames: Vec<Frame> = Vec::new();
        let mut pos: usize = 0;
        let total = self.accum.len();
        proof {
            assert(k * n <= all.len()) by (nonlinear_arith)
                requires k == (all.len() as int) / (n as int), n > 0;
        }
        while total - pos >= n
            invariant
                self.accum@ == all,
                total == all.len(),
                n == self.frame_samples(),
                n > 0,
                k == (all.len() as int) / (n as int),
                k * n <= all.len(),
                pos == frames@.len() * n,
                pos <= total,
                frames@.len() <= k,
                self.config == old(self).config,
                ts0 == old(self).timestamp,
                ts0 + k * self.config.frame_size <= u64::MAX,
                self.timestamp == ts0 + frames@.len() * self.config.frame_size,
                forall|i: int| 0 <= i < frames@.len() ==> {
                    &&& (#[trigger] frames@[i]).samples@ == chunk(all, n as int, i)
                    &&& frames@[i].sample_rate == self.config.sample_rate
                    &&& frames@[i].channels == self.config.channels
                    &&& frames@[i].timestamp == ts0 + i * self.config.frame_size
                },
            decreases total - pos,
        {
            proof {
                assert(frames@.len() < k) by (nonlinear_arith)
                    requires
                        pos == frames@.len() * n,
                        total - pos >= n,
                        total == all.len(),
                        k == (all.len() as int) / (n as int),
                        n > 0,
                ;
                assert((frames@.len() + 1) * self.config.frame_size <= k * self.config.frame_size) by (nonlinear_arith)
                    requires frames@.len() < k;
                assert((frames@.len() + 1) * self.config.frame_size == frames@.len() * self.config.frame_size
                    + self.config.frame_size) by (nonlinear_arith);
                assert((frames@.len() + 1) * n == frames@.len() * n + n) by (nonlinear_arith);
                assert((frames@.len() + 1) * n <= k * n) by (nonlinear_arith)
                    requires frames@.len() < k, n > 0;
            }
            let mut chunk_samples: Vec<Sample> = Vec::new();
            extend_samples(&mut chunk_samples, &self.accum.as_slice()[pos..pos + n]);
            let ghost i = frames@.len() as int;
            assert(chunk_samples@ =~= chunk(all, n as int, i)) by {
                assert(pos + n == (i + 1) * n) by (nonlinear_arith)
                    requires pos == i * n;
            }
            frames.push(Frame {
                samples: chunk_samples,
                sample_rate: self.config.sample_rate,
                channels: self.config.channels,
                timestamp: self.timestamp,
            });
            pos = pos + n;
            self.timestamp = self.timestamp + self.config.frame_size as u64;
        }
        proof {
            assert(frames@.len() == k) by (nonlinear_arith)
                requires
                    pos == frames@.len() * n,
                    total - pos < n,
                    frames@.len() <= k,
                    total == all.len(),
                    k == (all.len() as int) / (n as int),
                    n > 0,
            ;
        }
        let rest = self.accum.split_off(pos);
        self.accum = rest;
        frames
    }

    /// Emits the accumulated samples as one last frame padded with silence to
    /// a full frame; `None` when nothing is accumulated.
    pub fn flush_remaining(&mut self) -> (r: Option<Frame>)
        requires
            old(self).pending().len() > 0 ==> old(self).next_timestamp() + old(self).spec_config().frame_size <= u64::MAX
                && old(self).frame_samples() <= usize::MAX,
        ensures
            old(self).pending().len() == 0 ==> r is None && *final(self) == *old(self),
            old(self).pending().len() > 0 ==> ({
                let n = old(self).frame_samples();
                &&& r is Some
                &&& r->0.samples@ == (if old(self).pending().len() >= n {
                    old(self).pending().subrange(0, n)
                } else {
                    old(self).pending() + silence((n - old(self).pending().len()) as nat)
                })
                &&& r->0.sample_rate == old(self).spec_config().sample_rate
                &&& r->0.channels == old(self).spec_config().channels
                &&& r->0.timestamp == old(self).next_timestamp()
                &&& final(self).pending() == Seq::<Sample>::empty()
                &&& final(self).next_timestamp() == old(self).next_timestamp() + old(self).spec_config().frame_size
                &&& final(self).spec_config() == old(self).spec_config()
            }),
    {
        if self.accum.len() == 0 {
            return None;
        }
        let n = self.config.frame_size * (self.config.channels as usize);
        let mut samples: Vec<Sample> = Vec::new();
        std::mem::swap(&mut samples, &mut self.accum);
        if samples.len() >= n {
            samples.truncate(n);
        } else {
            let missing = n - samples.len();
            push_silence(&mut samples, missing);
        }
        let frame = Frame {
            samples,
            sample_rate: self.config.sample_rate,
            channels: self.config.channels,
            timestamp: self.timestamp,
        };
        self.timestamp = self.timestamp + self.config.frame_size as u64;
        Some(frame)
    }

    /// Clears the accumulated samples and resets the timestamp to 0.
    pub fn reset(&mut self)
        ensures
            final(self).pending() == Seq::<Sample>::empty(),
            final(self).next_timestamp() == 0,
            final(self).spec_config() == old(self).spec_config(),
    {
        self.accum.clear();
        self.timestamp = 0;
    }

    /// The adapter's configuration.
    pub fn config(&self) -> (c: FrameAdapterConfig)
        ensures
            c == self.spec_config(),
    {
        self.config
    }

    /// Timestamp that the next frame will carry.
    pub fn timestamp(&self) -> (t: u64)
        ensures
            t == self.next_timestamp(),
    {
        self.timestamp
    }

    /// Number of accumulated samples.
    pub fn accumulated_samples(&self) -> (n: usize)
        ensures
            n == self.pending().len(),
    {
        self.accum.len()
    }
}

/// Capacity of the ring buffer between an audio device callback and the
/// pipeline: a tenth of a second of interleaved samples, at least 4096.
pub fn ring_buffer_capacity(sample_rate: u32, channels: u16) -> (cap: usize)
    requires
        sample_rate * channels <= usize::MAX,
    ensures
        cap == (if sample_rate * channels / 10 < 4096 { 4096 } else { sample_rate * channels / 10 }),
{
    let c = (sample_rate as usize) * (channels as usize) / 10;
    if c < 4096 { 4096 } else { c }
}


/// The samples of a run of frames, in order.
pub open spec fn concat_samples(frames: Seq<Frame>) -> Seq<Sample>
    decreases frames.len(),
{
    if frames.len() == 0 {
        Seq::empty()
    } else {
        concat_samples(frames.drop_last()) + frames.last().samples@
    }
}

proof fn lemma_concat_chunks(frames: Seq<Frame>, all: Seq<Sample>, n: int)
    requires
        n > 0,
        frames.len() * n <= all.len(),
        forall|i: int| 0 <= i < frames.len() ==> (#[trigger] frames[i]).samples@ == chunk(all, n, i),
    ensures
        concat_samples(frames) == all.subrange(0, frames.len() * n),
    decreases frames.len(),
{
    if frames.len() > 0 {
        let d = frames.drop_last();
        let k = frames.len() - 1;
        assert(d.len() * n <= all.len()) by (nonlinear_arith)
            requires d.len() == k, k * n + n <= all.len() || (k + 1) * n <= all.len(), n > 0, k >= 0;
        assert forall|i: int| 0 <= i < d.len() implies (#[trigger] d[i]).samples@ == chunk(all, n, i) by {
            assert(d[i] == frames[i]);
        }
        lemma_concat_chunks(d, all, n);
        assert(frames.last().samples@ == chunk(all, n, k));
        assert((k + 1) * n == k * n + n) by (nonlinear_arith);
        assert(all.subrange(0, k * n) + all.subrange(k * n, (k + 1) * n) =~= all.subrange(0, (k + 1) * n));
    }
}

/// Packing loses and duplicates nothing: the packed frames' samples followed
/// by what stays accumulated are exactly the previously accumulated samples
/// followed by the new ones.
pub proof fn lemma_pack_conserves_samples(
    pending: Seq<Sample>,
    input: Seq<Sample>,
    frame_samples: int,
    frames: Seq<Frame>,
    rest: Seq<Sample>,
)
    requires
        frame_samples > 0,
        frames.len() == (pending + input).len() as int / frame_samples,
        forall|i: int| 0 <= i < frames.len() ==> (#[trigger] frames[i]).samples@ == chunk(pending + input, frame_samples, i),
        rest == (pending + input).subrange(frames.len() * frame_samples, (pending + input).len() as int),
    ensures
        concat_samples(frames) + rest == pending + input,
        rest.len() < frame_samples,
{
    let all = pending + input;
    let k = frames.len() as int;
    assert(k * frame_samples <= all.len()) by (nonlinear_arith)
        requires k == all.len() as int / frame_samples, frame_samples > 0;
    assert(all.len() - k * frame_samples < frame_samples) by (nonlinear_arith)
        requires k == all.len() as int / frame_samples, frame_samples > 0;
    lemma_concat_chunks(frames, all, frame_samples);
    assert(all.subrange(0, k * frame_samples) + rest =~= all);
}

} // verus!
