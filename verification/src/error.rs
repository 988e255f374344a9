//! Error types of the library and their messages.
//!
//! Every error carries a human-readable message; `message()` returns the text
//! that the error displays, and the matching `*_text` spec function states it.
use vstd::prelude::*;

verus! {

/// `prefix` followed by `detail`.
fn prefixed(prefix: &str, detail: &String) -> (s: String)
    ensures
        s@ == prefix@ + detail@,
{
    let mut s = String::from_str(prefix);
    s.append(detail.as_str());
    s
}

/// Error shared by the core traits: audio I/O, inference, shapes, models, backpressure, input validation.
#[derive(Debug)]
pub enum VoxError {
    /// An audio source or sink failed.
    Audio(String),
    /// The inference backend failed.
    Infer(String),
    /// A tensor shape or dtype did not match.
    ShapeMismatch(String),
    /// A model or timbre was not found or failed to load.
    Model(String),
    /// A frame was dropped because of backpressure (not fatal).
    Dropped,
    /// An input parameter was invalid (sample rate, channels, frame length).
    InvalidInput(String),
}

/// The displayed text of a [`VoxError`].
pub open spec fn vox_error_text(e: VoxError) -> Seq<char> {
    match e {
        VoxError::Audio(m) => "audio io failure: "@ + m@,
        VoxError::Infer(m) => "inference failure: "@ + m@,
        VoxError::ShapeMismatch(m) => "tensor shape mismatch: "@ + m@,
        VoxError::Model(m) => "model not available: "@ + m@,
        VoxError::Dropped => "frame dropped due to backpressure"@,
        VoxError::InvalidInput(m) => "invalid input: "@ + m@,
    }
}

impl VoxError {
    /// An [`VoxError::Audio`] error with message `msg`.
    pub fn audio(msg: &str) -> (e: Self)
        ensures
            e matches VoxError::Audio(m) && m@ == msg@,
    {
        VoxError::Audio(String::from_str(msg))
    }

    /// An [`VoxError::Infer`] error with message `msg`.
    pub fn infer(msg: &str) -> (e: Self)
        ensures
            e matches VoxError::Infer(m) && m@ == msg@,
    {
        VoxError::Infer(String::from_str(msg))
    }

    /// An [`VoxError::InvalidInput`] error with message `msg`.
    pub fn invalid_input(msg: &str) -> (e: Self)
        ensures
            e matches VoxError::InvalidInput(m) && m@ == msg@,
    {
        VoxError::InvalidInput(String::from_str(msg))
    }

    /// The error's message.
    pub fn message(&self) -> (s: String)
        ensures
            s@ == vox_error_text(*self),
    {
        match self {
            VoxError::Audio(m) => prefixed("audio io failure: ", m),
            VoxError::Infer(m) => prefixed("inference failure: ", m),
            VoxError::ShapeMismatch(m) => prefixed("tensor shape mismatch: ", m),
            VoxError::Model(m) => prefixed("model not available: ", m),
            VoxError::Dropped => String::from_str("frame dropped due to backpressure"),
            VoxError::InvalidInput(m) => prefixed("invalid input: ", m),
        }
    }
}

/// Inference errors.
#[derive(Debug)]
pub enum InferError {
    /// The model failed to load (missing file, bad format).
    Load(String),
    /// An execution provider is unavailable or failed to initialise.
    ExecutionProvider(String),
    /// A tensor shape or dtype did not match.
    ShapeMismatch(String),
    /// The backend failed at run time.
    Runtime(String),
    /// An error of the core layer.
    Core(VoxError),
}

/// The displayed text of an [`InferError`].
pub open spec fn infer_error_text(e: InferError) -> Seq<char> {
    match e {
        InferError::Load(m) => "model load failure: "@ + m@,
        InferError::ExecutionProvider(m) => "execution provider unavailable: "@ + m@,
        InferError::ShapeMismatch(m) => "tensor shape mismatch: "@ + m@,
        InferError::Runtime(m) => "runtime error: "@ + m@,
        InferError::Core(c) => vox_error_text(c),
    }
}

impl InferError {
    /// The error's message.
    pub fn message(&self) -> (s: String)
        ensures
            s@ == infer_error_text(*self),
    {
        match self {
            InferError::Load(m) => prefixed("model load failure: ", m),
            InferError::ExecutionProvider(m) => prefixed("execution provider unavailable: ", m),
            InferError::ShapeMismatch(m) => prefixed("tensor shape mismatch: ", m),
            InferError::Runtime(m) => prefixed("runtime error: ", m),
            InferError::Core(c) => c.message(),
        }
    }

    /// The core error that an inference error becomes when it crosses into the
    /// core layer: a [`VoxError::Infer`] carrying the inference error's message.
    pub fn into_vox(&self) -> (e: VoxError)
        ensures
            e matches VoxError::Infer(m) && m@ == infer_error_text(*self),
    {
        VoxError::Infer(self.message())
    }
}

/// DSP errors.
#[derive(Debug)]
pub enum DspError {
    /// An input parameter was invalid (sample rate, frame length, channels).
    InvalidInput(String),
    /// The algorithm failed (for example an FFT plan).
    Compute(String),
    /// An error of the core layer.
    Core(VoxError),
}

/// The displayed text of a [`DspError`].
pub open spec fn dsp_error_text(e: DspError) -> Seq<char> {
    match e {
        DspError::InvalidInput(m) => "invalid dsp input: "@ + m@,
        DspError::Compute(m) => "dsp computation failure: "@ + m@,
        DspError::Core(c) => vox_error_text(c),
    }
}

impl DspError {
    /// The error's message.
    pub fn message(&self) -> (s: String)
        ensures
            s@ == dsp_error_text(*self),
    {
        match self {
            DspError::InvalidInput(m) => prefixed("invalid dsp input: ", m),
            DspError::Compute(m) => prefixed("dsp computation failure: ", m),
            DspError::Core(c) => c.message(),
        }
    }
}

/// Feature extraction errors.
#[derive(Debug)]
pub enum FeatureError {
    /// The inference backend failed.
    Infer(InferError),
    /// The input frame was invalid.
    InvalidInput(String),
    /// An error of the core layer.
    Core(VoxError),
}

/// The displayed text of a [`FeatureError`].
pub open spec fn feature_error_text(e: FeatureError) -> Seq<char> {
    match e {
        FeatureError::Infer(i) => infer_error_text(i),
        FeatureError::InvalidInput(m) => "invalid feature input: "@ + m@,
        FeatureError::Core(c) => vox_error_text(c),
    }
}

impl FeatureError {
    /// The error's message.
    pub fn message(&self) -> (s: String)
        ensures
            s@ == feature_error_text(*self),
    {
        match self {
            FeatureError::Infer(i) => i.message(),
            FeatureError::InvalidInput(m) => prefixed("invalid feature input: ", m),
            FeatureError::Core(c) => c.message(),
        }
    }
}

/// Audio I/O errors.
#[derive(Debug)]
pub enum AudioError {
    /// The audio device failed.
    Device(String),
    /// The device is unavailable or disconnected.
    Unavailable(String),
    /// Decoding a file failed.
    Decode(String),
    /// Encoding a file failed.
    Encode(String),
    /// The format is not supported.
    Unsupported(String),
    /// An error of the core layer.
    Core(VoxError),
}

/// The displayed text of an [`AudioError`].
pub open spec fn audio_error_text(e: AudioError) -> Seq<char> {
    match e {
        AudioError::Device(m) => "cpal device error: "@ + m@,
        AudioError::Unavailable(m) => "device unavailable: "@ + m@,
        AudioError::Decode(m) => "decode error: "@ + m@,
        AudioError::Encode(m) => "encode error: "@ + m@,
        AudioError::Unsupported(m) => "unsupported format: "@ + m@,
        AudioError::Core(c) => vox_error_text(c),
    }
}

impl AudioError {
    /// The error's message.
    pub fn message(&self) -> (s: String)
        ensures
            s@ == audio_error_text(*self),
    {
        match self {
            AudioError::Device(m) => prefixed("cpal device error: ", m),
            AudioError::Unavailable(m) => prefixed("device unavailable: ", m),
            AudioError::Decode(m) => prefixed("decode error: ", m),
            AudioError::Encode(m) => prefixed("encode error: ", m),
            AudioError::Unsupported(m) => prefixed("unsupported format: ", m),
            AudioError::Core(c) => c.message(),
        }
    }
}

/// Model and timbre library errors.
#[derive(Debug)]
pub enum ModelError {
    /// A model or timbre file was not found.
    NotFound(String),
    /// Metadata failed to parse.
    Metadata(String),
    /// An embedding file is corrupt or has the wrong length.
    Embedding(String),
    /// An error of the core layer.
    Core(VoxError),
}

/// The displayed text of a [`ModelError`].
pub open spec fn model_error_text(e: ModelError) -> Seq<char> {
    match e {
        ModelError::NotFound(m) => "not found: "@ + m@,
        ModelError::Metadata(m) => "metadata parse error: "@ + m@,
        ModelError::Embedding(m) => "embedding invalid: "@ + m@,
        ModelError::Core(c) => vox_error_text(c),
    }
}

impl ModelError {
    /// The error's message.
    pub fn message(&self) -> (s: String)
        ensures
            s@ == model_error_text(*self),
    {
        match self {
            ModelError::NotFound(m) => prefixed("not found: ", m),
            ModelError::Metadata(m) => prefixed("metadata parse error: ", m),
            ModelError::Embedding(m) => prefixed("embedding invalid: ", m),
            ModelError::Core(c) => c.message(),
        }
    }
}

/// Streaming state errors.
#[derive(Debug)]
pub enum StreamError {
    /// Resampling failed.
    Dsp(DspError),
    /// The state was used before it was initialised.
    NotInitialized(String),
}

/// The displayed text of a [`StreamError`].
pub open spec fn stream_error_text(e: StreamError) -> Seq<char> {
    match e {
        StreamError::Dsp(d) => dsp_error_text(d),
        StreamError::NotInitialized(m) => "stream state not initialized: "@ + m@,
    }
}

impl StreamError {
    /// The error's message.
    pub fn message(&self) -> (s: String)
        ensures
            s@ == stream_error_text(*self),
    {
        match self {
            StreamError::Dsp(d) => d.message(),
            StreamError::NotInitialized(m) => prefixed("stream state not initialized: ", m),
        }
    }
}

/// Errors of the RVC stage.
#[derive(Debug)]
pub enum RvcStageError {
    /// The streaming state failed.
    Stream(StreamError),
    /// Feature extraction failed.
    Feature(FeatureError),
    /// Any other failure.
    Other(String),
}

/// The displayed text of an [`RvcStageError`].
pub open spec fn rvc_stage_error_text(e: RvcStageError) -> Seq<char> {
    match e {
        RvcStageError::Stream(s) => stream_error_text(s),
        RvcStageError::Feature(f) => feature_error_text(f),
        RvcStageError::Other(m) => "rvc stage error: "@ + m@,
    }
}

impl RvcStageError {
    /// The error's message.
    pub fn message(&self) -> (s: String)
        ensures
            s@ == rvc_stage_error_text(*self),
    {
        match self {
            RvcStageError::Stream(s) => s.message(),
            RvcStageError::Feature(f) => f.message(),
            RvcStageError::Other(m) => prefixed("rvc stage error: ", m),
        }
    }

    /// The core error that an RVC stage error becomes: a [`VoxError::Infer`]
    /// carrying the stage error's message.
    pub fn into_vox(&self) -> (e: VoxError)
        ensures
            e matches VoxError::Infer(m) && m@ == rvc_stage_error_text(*self),
    {
        VoxError::Infer(self.message())
    }
}

/// Errors of the conversion orchestration.
#[derive(Debug)]
pub enum ConvertError {
    /// Audio I/O failed.
    Io(AudioError),
    /// DSP failed.
    Dsp(DspError),
    /// Feature extraction failed.
    Feature(FeatureError),
    /// Inference failed.
    Infer(InferError),
    /// The timbre library failed.
    Model(ModelError),
    /// The pipeline was in the wrong state (for example started without a model).
    State(String),
    /// An error of the core layer.
    Core(VoxError),
}

/// The displayed text of a [`ConvertError`].
pub open spec fn convert_error_text(e: ConvertError) -> Seq<char> {
    match e {
        ConvertError::Io(a) => audio_error_text(a),
        ConvertError::Dsp(d) => dsp_error_text(d),
        ConvertError::Feature(f) => feature_error_text(f),
        ConvertError::Infer(i) => infer_error_text(i),
        ConvertError::Model(m) => model_error_text(m),
        ConvertError::State(m) => "pipeline state error: "@ + m@,
        ConvertError::Core(c) => vox_error_text(c),
    }
}

impl ConvertError {
    /// The error's message.
    pub fn message(&self) -> (s: String)
        ensures
            s@ == convert_error_text(*self),
    {
        match self {
            ConvertError::Io(a) => a.message(),
            ConvertError::Dsp(d) => d.message(),
            ConvertError::Feature(f) => f.message(),
            ConvertError::Infer(i) => i.message(),
            ConvertError::Model(m) => m.message(),
            ConvertError::State(m) => prefixed("pipeline state error: ", m),
            ConvertError::Core(c) => c.message(),
        }
    }
}

} // verus!
