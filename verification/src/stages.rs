//! Model input layouts of the conversion and vocoder stages, and the tensors
//! built from a frame for them.
use vstd::prelude::*;
use crate::Sample;
use crate::buffers::{extend_samples, push_silence, silence};
use crate::frame::Frame;
use crate::infer::{Tensor, TensorData};

verus! {

/// Input layout of the converter model.
#[derive(Debug, Clone)]
pub struct ConvertInputLayout {
    /// Shape of the content features without the batch dimension, such as `[T, 768]`.
    pub content_shape: Vec<usize>,
    /// Shape of the timbre embedding without the batch dimension, such as `[256]`.
    pub embedding_shape: Vec<usize>,
}

/// Frames of a flattened feature buffer of `len` values with `feat_dim`
/// values per frame; a buffer that is not a whole number of frames counts
/// every value as a frame.
pub open spec fn time_len(len: int, feat_dim: int) -> int {
    if len % feat_dim == 0 { len / feat_dim } else { len }
}

/// The feature dimension declared by a layout shape: its second entry, or `default`.
pub open spec fn declared_dim(shape: Seq<usize>, default: usize) -> usize {
    if shape.len() > 1 { shape[1] } else { default }
}

fn dim_or(shape: &Vec<usize>, default: usize) -> (d: usize)
    ensures
        d == declared_dim(shape@, default),
{
    if shape.len() > 1 { shape[1] } else { default }
}

fn copy_samples(src: &[Sample]) -> (v: Vec<Sample>)
    ensures
        v@ == src@,
{
    let mut v: Vec<Sample> = Vec::new();
    extend_samples(&mut v, src);
    assert(v@ =~= src@);
    v
}

impl ConvertInputLayout {
    /// Content features `[T, 768]` and embedding `[256]`.
    pub fn default_hubert() -> (l: Self)
        ensures
            l.content_shape@ == seq![0usize, 768],
            l.embedding_shape@ == seq![256usize],
    {
        let mut content_shape = Vec::new();
        content_shape.push(0);
        content_shape.push(768);
        let mut embedding_shape = Vec::new();
        embedding_shape.push(256);
        assert(content_shape@ =~= seq![0usize, 768]);
        assert(embedding_shape@ =~= seq![256usize]);
        ConvertInputLayout { content_shape, embedding_shape }
    }

    /// The converter's inputs for flattened content features `audio` and a
    /// timbre `embedding`: `[1, T, feat_dim]` features (with `T` from
    /// [`time_len`] and `feat_dim` the layout's declared dimension, 768 by
    /// default) and the embedding shaped `[1, ...embedding_shape]`.
    pub fn build_inputs(&self, audio: &[Sample], embedding: &[Sample]) -> (inputs: Vec<Tensor>)
        requires
            declared_dim(self.content_shape@, 768) > 0,
        ensures
            inputs@.len() == 2,
            inputs@[0].data == TensorData::F32(inputs@[0].data->F32_0),
            inputs@[0].data->F32_0@ == audio@,
            inputs@[0].shape@ == seq![
                1usize,
                time_len(audio@.len() as int, declared_dim(self.content_shape@, 768) as int) as usize,
                declared_dim(self.content_shape@, 768),
            ],
            inputs@[1].data == TensorData::F32(inputs@[1].data->F32_0),
            inputs@[1].data->F32_0@ == embedding@,
            inputs@[1].shape@ == seq![1usize] + self.embedding_shape@,
    {
        let feat_dim = dim_or(&self.content_shape, 768);
        let t_len = if audio.len() % feat_dim == 0 { audio.len() / feat_dim } else { audio.len() };
        let mut content_shape: Vec<usize> = Vec::new();
        content_shape.push(1);
        content_shape.push(t_len);
        content_shape.push(feat_dim);
        let content = Tensor::float(copy_samples(audio), content_shape);
        let mut embedding_shape: Vec<usize> = Vec::new();
        embedding_shape.push(1);
        let mut i: usize = 0;
        while i < self.embedding_shape.len()
            invariant
                i <= self.embedding_shape@.len(),
                embedding_shape@ == seq![1usize] + self.embedding_shape@.subrange(0, i as int),
            decreases self.embedding_shape@.len() - i,
        {
            embedding_shape.push(self.embedding_shape[i]);
            i = i + 1;
            assert(embedding_shape@ =~= seq![1usize] + self.embedding_shape@.subrange(0, i as int));
        }
        assert(self.embedding_shape@.subrange(0, self.embedding_shape@.len() as int) =~= self.embedding_shape@);
        let emb = Tensor::float(copy_samples(embedding), embedding_shape);
        let mut inputs: Vec<Tensor> = Vec::new();
        inputs.push(content);
        inputs.push(emb);
        proof {
            assert(content.shape@ =~= seq![
                1usize,
                time_len(audio@.len() as int, feat_dim as int) as usize,
                feat_dim,
            ]);
        }
        inputs
    }
}

/// Input layout of the vocoder model.
#[derive(Debug, Clone)]
pub struct VocoderInputLayout {
    /// Shape of the converted features without the batch dimension, such as `[T, 256]`.
    pub feature_shape: Vec<usize>,
    /// Output sample rate of the vocoder.
    pub output_sample_rate: u32,
}

impl VocoderInputLayout {
    /// Features `[T, 256]`, output at 16 kHz.
    pub fn default_16k() -> (l: Self)
        ensures
            l.feature_shape@ == seq![0usize, 256],
            l.output_sample_rate == 16000,
    {
        let mut feature_shape = Vec::new();
        feature_shape.push(0);
        feature_shape.push(256);
        assert(feature_shape@ =~= seq![0usize, 256]);
        VocoderInputLayout { feature_shape, output_sample_rate: 16000 }
    }

    /// The vocoder input for flattened converted features:
    /// `[1, T, feat_dim]` with `feat_dim` the layout's declared dimension (256 by default).
    pub fn build_input(&self, features: &[Sample]) -> (t: Tensor)
        requires
            declared_dim(self.feature_shape@, 256) > 0,
        ensures
            t.data == TensorData::F32(t.data->F32_0),
            t.data->F32_0@ == features@,
            t.shape@ == seq![
                1usize,
                time_len(features@.len() as int, declared_dim(self.feature_shape@, 256) as int) as usize,
                declared_dim(self.feature_shape@, 256),
            ],
    {
        let feat_dim = dim_or(&self.feature_shape, 256);
        let t_len = if features.len() % feat_dim == 0 { features.len() / feat_dim } else { features.len() };
        let mut shape: Vec<usize> = Vec::new();
        shape.push(1);
        shape.push(t_len);
        shape.push(feat_dim);
        assert(shape@ =~= seq![1usize, time_len(features@.len() as int, feat_dim as int) as usize, feat_dim]);
        Tensor::float(copy_samples(features), shape)
    }

    /// The silent vocoder output that replaces a failed inference: `len`
    /// silent mono samples at the vocoder's rate, with `timestamp`.
    pub fn silent_output(&self, timestamp: u64, len: usize) -> (f: Frame)
        ensures
            f.samples@ == silence(len as nat),
            f.sample_rate == self.output_sample_rate,
            f.channels == 1,
            f.timestamp == timestamp,
    {
        let mut samples: Vec<Sample> = Vec::new();
        push_silence(&mut samples, len);
        assert(samples@ =~= silence(len as nat));
        Frame { samples, sample_rate: self.output_sample_rate, channels: 1, timestamp }
    }
}

/// Drops the first `n` entries of `values` when it holds more than `n`
/// (keeps the pitch buffers aligned with trimmed feature frames).
pub fn trim_front<T>(values: &mut Vec<T>, n: usize)
    ensures
        n < old(values)@.len() ==> final(values)@ == old(values)@.subrange(n as int, old(values)@.len() as int),
        n >= old(values)@.len() ==> final(values)@ == old(values)@,
{
    if n < values.len() {
        let rest = values.split_off(n);
        *values = rest;
    }
}

} // verus!
