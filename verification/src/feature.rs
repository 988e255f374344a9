//! Feature tensors: ContentVec output `[1, frames, channels]` and the frame
//! operations of the RVC pipeline (2x frame repetition, front trimming).
use vstd::prelude::*;
use crate::{Sample, SILENCE};
use crate::text::{decimal, with_decimal};

verus! {

/// A feature tensor of shape `[1, frames, channels]`, data flattened row-major.
#[derive(Debug, Default)]
pub struct FeatureTensor {
    /// Flattened feature data (`frames * channels` values).
    pub data: Vec<Sample>,
    /// Shape `[1, frames, channels]`.
    pub shape: Vec<i64>,
}

/// Why a feature tensor's shape was refused, or `None` when it is `[1, frames, channels]`
/// with every dimension representable as a `usize`.
pub open spec fn shape_error(shape: Seq<i64>) -> Option<Seq<char>> {
    if shape.len() != 3 {
        Some("feature tensor must be rank-3 [1, frames, channels]"@)
    } else if shape[0] < 0 || shape[0] > usize::MAX {
        Some("invalid feature batch"@)
    } else if shape[1] < 0 || shape[1] > usize::MAX {
        Some("invalid feature frames"@)
    } else if shape[2] < 0 || shape[2] > usize::MAX {
        Some("invalid feature channels"@)
    } else if shape[0] != 1 {
        Some("feature batch must be 1, got "@ + decimal(shape[0] as nat))
    } else {
        None
    }
}

/// The data of a tensor with `frames` frames of `channels` values after every
/// frame is repeated `factor` times, the rest of a longer buffer kept in place
/// and the buffer grown with silence to `factor` times its length.
pub open spec fn repeated(data: Seq<Sample>, frames: int, channels: int, factor: int) -> Seq<Sample> {
    Seq::new(
        (data.len() * factor) as nat,
        |j: int|
            if j < frames * factor * channels {
                data[((j / channels) / factor) * channels + j % channels]
            } else if j < data.len() {
                data[j]
            } else {
                SILENCE
            },
    )
}

proof fn lemma_repeat_index(j: int, frames: int, channels: int, factor: int)
    requires
        0 <= j < frames * factor * channels,
        channels > 0,
        factor > 0,
        frames >= 0,
    ensures
        0 <= ((j / channels) / factor) * channels + j % channels < frames * channels,
{
    assert(0 <= j / channels < frames * factor) by (nonlinear_arith)
        requires
            0 <= j < frames * factor * channels,
            channels > 0,
    ;
    assert(0 <= (j / channels) / factor < frames) by (nonlinear_arith)
        requires
            0 <= j / channels < frames * factor,
            factor > 0,
    ;
    assert(0 <= ((j / channels) / factor) * channels + j % channels < frames * channels) by (nonlinear_arith)
        requires
            0 <= (j / channels) / factor < frames,
            channels > 0,
            0 <= j % channels < channels,
    ;
}

fn dim(v: i64) -> (r: Option<usize>)
    ensures
        r == (if v < 0 || v > usize::MAX { None::<usize> } else { Some(v as usize) }),
{
    if v < 0 || v as u64 > usize::MAX as u64 {
        None
    } else {
        Some(v as usize)
    }
}

impl FeatureTensor {
    /// Checks the shape and returns `(frames, channels)`.
    fn frames_and_channels(&self) -> (r: Result<(usize, usize), String>)
        ensures
            match r {
                Ok((frames, channels)) => shape_error(self.shape@) is None
                    && frames == self.shape@[1] && channels == self.shape@[2],
                Err(msg) => shape_error(self.shape@) == Some(msg@),
            },
    {
        if self.shape.len() != 3 {
            return Err(String::from_str("feature tensor must be rank-3 [1, frames, channels]"));
        }
        let batch = match dim(self.shape[0]) {
            Some(b) => b,
            None => return Err(String::from_str("invalid feature batch")),
        };
        let frames = match dim(self.shape[1]) {
            Some(f) => f,
            None => return Err(String::from_str("invalid feature frames")),
        };
        let channels = match dim(self.shape[2]) {
            Some(c) => c,
            None => return Err(String::from_str("invalid feature channels")),
        };
        if batch != 1 {
            return Err(with_decimal("feature batch must be 1, got ", batch as u64));
        }
        Ok((frames, channels))
    }

    /// The tensor's frame count and channel count as integers (meaningful when
    /// the shape is accepted).
    pub open spec fn spec_frames(&self) -> int {
        self.shape@[1] as int
    }

    pub open spec fn spec_channels(&self) -> int {
        self.shape@[2] as int
    }

    /// Repeats every frame `factor` times (the 2x upsampling convention of RVC).
    /// A factor of 0 or 1 leaves the tensor unchanged.
    pub fn repeat_frames(&mut self, factor: usize) -> (r: Result<(), String>)
        requires
            factor > 1 && shape_error(old(self).shape@) is None ==> {
                &&& old(self).spec_frames() * old(self).spec_channels() <= old(self).data@.len()
                &&& old(self).data@.len() * factor <= usize::MAX
                &&& old(self).spec_frames() * factor <= usize::MAX
            },
        ensures
            factor <= 1 ==> r is Ok && *final(self) == *old(self),
            factor > 1 ==> match shape_error(old(self).shape@) {
                Some(msg) => r is Err && r->Err_0@ == msg && *final(self) == *old(self),
                None => {
                    &&& r is Ok
                    &&& final(self).data@ == repeated(
                        old(self).data@,
                        old(self).spec_frames(),
                        old(self).spec_channels(),
                        factor as int,
                    )
                    &&& final(self).shape@ == old(self).shape@.update(
                        1,
                        (old(self).spec_frames() * factor) as i64,
                    )
                },
            },
    {
        if factor <= 1 {
            return Ok(());
        }
        let (frames, channels) = match self.frames_and_channels() {
            Ok(fc) => fc,
            Err(msg) => return Err(msg),
        };
        let old_len = self.data.len();
        let new_len = old_len * factor;
        let ghost old_data = self.data@;
        proof {
            assert(frames * factor * channels <= new_len) by (nonlinear_arith)
                requires
                    frames * channels <= old_len,
                    new_len == old_len * factor,
                    factor > 1,
            ;
        }
        let repeated_len = frames * factor * channels;
        let mut out: Vec<Sample> = Vec::with_capacity(new_len);
        let mut j: usize = 0;
        while j < new_len
            invariant
                j <= new_len,
                new_len == old_len * factor,
                old_len == old_data.len(),
                old_data == self.data@,
                repeated_len == frames * factor * channels,
                repeated_len <= new_len,
                frames * channels <= old_len,
                factor > 1,
                out@.len() == j,
                forall|k: int| 0 <= k < j ==> out@[k] == repeated(old_data, frames as int, channels as int, factor as int)[k],
            decreases new_len - j,
        {
            let v = if j < repeated_len {
                proof {
                    lemma_repeat_index(j as int, frames as int, channels as int, factor as int);
                    assert(channels > 0) by (nonlinear_arith)
                        requires j < frames * factor * channels, j >= 0;
                }
                self.data[((j / channels) / factor) * channels + j % channels]
            } else if j < old_len {
                self.data[j]
            } else {
                SILENCE
            };
            out.push(v);
            j = j + 1;
        }
        assert(out@ =~= repeated(old_data, frames as int, channels as int, factor as int));
        self.data = out;
        self.shape.set(1, (frames * factor) as i64);
        Ok(())
    }

    /// Drops the first `frames_to_drop` frames; dropping all of them (or more)
    /// empties the data and sets the frame count to 0.
    pub fn trim_front_frames(&mut self, frames_to_drop: usize) -> (r: Result<(), String>)
        requires
            frames_to_drop > 0 && shape_error(old(self).shape@) is None
                && frames_to_drop < old(self).spec_frames() ==> frames_to_drop * old(self).spec_channels()
                <= old(self).data@.len(),
        ensures
            frames_to_drop == 0 ==> r is Ok && *final(self) == *old(self),
            frames_to_drop > 0 ==> match shape_error(old(self).shape@) {
                Some(msg) => r is Err && r->Err_0@ == msg && *final(self) == *old(self),
                None => {
                    &&& r is Ok
                    &&& if frames_to_drop >= old(self).spec_frames() {
                        &&& final(self).data@ == Seq::<Sample>::empty()
                        &&& final(self).shape@ == old(self).shape@.update(1, 0)
                    } else {
                        &&& final(self).data@ == old(self).data@.subrange(
                            frames_to_drop * old(self).spec_channels(),
                            old(self).data@.len() as int,
                        )
                        &&& final(self).shape@ == old(self).shape@.update(
                            1,
                            (old(self).spec_frames() - frames_to_drop) as i64,
                        )
                    }
                },
            },
    {
        if frames_to_drop == 0 {
            return Ok(());
        }
        let (frames, channels) = match self.frames_and_channels() {
            Ok(fc) => fc,
            Err(msg) => return Err(msg),
        };
        if frames_to_drop >= frames {
            self.data.clear();
            self.shape.set(1, 0);
            return Ok(());
        }
        let data_len = self.data.len();
        assert(frames_to_drop * channels <= data_len);
        let sample_offset = frames_to_drop * channels;
        let tail = self.data.split_off(sample_offset);
        self.data = tail;
        self.shape.set(1, (frames - frames_to_drop) as i64);
        Ok(())
    }
}


/// Repeating frames multiplies the buffer length by the factor and keeps
/// every frame's values: each of the `factor` copies of frame `f` equals it.
pub proof fn lemma_repeat_copies_frames(data: Seq<Sample>, frames: int, channels: int, factor: int, f: int, r: int, c: int)
    requires
        frames >= 0,
        channels > 0,
        factor > 0,
        frames * channels <= data.len(),
        0 <= f < frames,
        0 <= r < factor,
        0 <= c < channels,
    ensures
        repeated(data, frames, channels, factor).len() == data.len() * factor,
        repeated(data, frames, channels, factor)[(f * factor + r) * channels + c] == data[f * channels + c],
{
    let j = (f * factor + r) * channels + c;
    assert(0 <= j < frames * factor * channels) by (nonlinear_arith)
        requires
            0 <= f < frames, 0 <= r < factor, 0 <= c < channels, channels > 0, factor > 0,
            j == (f * factor + r) * channels + c;
    assert(j / channels == f * factor + r && j % channels == c) by (nonlinear_arith)
        requires j == (f * factor + r) * channels + c, 0 <= c < channels, f * factor + r >= 0;
    assert((f * factor + r) / factor == f) by (nonlinear_arith)
        requires 0 <= r < factor, f >= 0;
    assert(data.len() * factor >= 0) by (nonlinear_arith)
        requires factor > 0;
    assert(j < data.len() * factor) by (nonlinear_arith)
        requires j < frames * factor * channels, frames * channels <= data.len(), factor > 0;
}

} // verus!
