//! Decisions of the pipeline's worker loops.
//!
//! Each stage runs on its own thread: it takes a frame from its input
//! channel, processes it into a preallocated silent frame (so that a failed
//! stage outputs silence) and offers the result to the next stage without
//! blocking. The threads and channels live with the caller; this module
//! decides what each outcome means for the counters and for the loop.
use vstd::prelude::*;
use crate::buffers::silence;
use crate::frame::{effective_channels, sat_mul_spec, Frame, PipelineConfig};

verus! {

/// Result of a non-blocking send to a bounded channel.
#[derive(Debug, Clone, Copy, PartialEq, Eq, Structural)]
pub enum SendOutcome {
    /// The message was queued.
    Sent,
    /// The channel was full (backpressure).
    Full,
    /// The receiving side is gone.
    Disconnected,
}

/// What a stage worker records after handling one frame.
#[derive(Debug, Clone, Copy, PartialEq, Eq, Structural)]
pub struct StageReport {
    /// Count a processing error (the frame went out silent).
    pub error: bool,
    /// Count a dropped frame (the next stage's channel was full).
    pub dropped: bool,
    /// Leave the loop (the next stage is gone).
    pub exit: bool,
}

/// The outcome of one frame in a stage worker: an error is counted when
/// processing failed, a drop when the output channel was full, and the loop
/// ends when the output channel is disconnected.
pub fn stage_report(processed_ok: bool, send: SendOutcome) -> (r: StageReport)
    ensures
        r.error == !processed_ok,
        r.dropped == (send == SendOutcome::Full),
        r.exit == (send == SendOutcome::Disconnected),
{
    StageReport {
        error: !processed_ok,
        dropped: match send { SendOutcome::Full => true, _ => false },
        exit: match send { SendOutcome::Disconnected => true, _ => false },
    }
}

/// Feeding a frame into the pipeline: accepted when queued; a full input
/// channel drops the frame (and counts it); a disconnected one refuses it
/// without counting.
pub fn feed_report(send: SendOutcome) -> (r: (bool, bool))
    ensures
        r.0 == (send == SendOutcome::Sent),
        r.1 == (send == SendOutcome::Full),
{
    match send {
        SendOutcome::Sent => (true, false),
        SendOutcome::Full => (false, true),
        SendOutcome::Disconnected => (false, false),
    }
}

/// The silent frame a stage worker prepares before processing a frame with
/// `timestamp`: `Frame::zero(sample_rate, channels, frame_size * channels)`
/// stamped with the input's timestamp.
pub fn stage_output_frame(config: &PipelineConfig, timestamp: u64) -> (f: Frame)
    requires
        config.frame_size * config.channels <= usize::MAX,
    ensures
        f.samples@ == silence(
            sat_mul_spec(config.frame_size * config.channels, effective_channels(config.channels)) as nat,
        ),
        f.sample_rate == config.sample_rate,
        f.channels == config.channels,
        f.timestamp == timestamp,
{
    let frame_len = config.frame_size * (config.channels as usize);
    let mut f = Frame::zero(config.sample_rate, config.channels, frame_len);
    f.timestamp = timestamp;
    f
}

} // verus!
