//! Tensors exchanged with inference backends, the backend trait, and the
//! execution-provider preference order.
use vstd::prelude::*;
use crate::Sample;
use crate::error::VoxError;

verus! {

/// Tensor element data: `f32` values (as bit patterns) or `i64` values.
#[derive(Debug, Clone)]
pub enum TensorData {
    /// `f32` data (audio, features): the values' bit patterns.
    F32(Vec<Sample>),
    /// `i64` data (pitch bins, speaker ids).
    I64(Vec<i64>),
}

impl TensorData {
    /// Element count.
    pub open spec fn spec_len(&self) -> nat {
        match self {
            TensorData::F32(v) => v@.len(),
            TensorData::I64(v) => v@.len(),
        }
    }

    /// Element count.
    pub fn len(&self) -> (n: usize)
        ensures
            n == self.spec_len(),
    {
        match self {
            TensorData::F32(v) => v.len(),
            TensorData::I64(v) => v.len(),
        }
    }

    /// Whether there are no elements.
    pub fn is_empty(&self) -> (b: bool)
        ensures
            b == (self.spec_len() == 0),
    {
        self.len() == 0
    }

    /// The `f32` data, when the tensor holds `f32` data.
    pub fn as_f32(&self) -> (r: Option<&[Sample]>)
        ensures
            match self {
                TensorData::F32(v) => r matches Some(s) && s@ == v@,
                TensorData::I64(_) => r is None,
            },
    {
        match self {
            TensorData::F32(v) => Some(v.as_slice()),
            TensorData::I64(_) => None,
        }
    }

    /// The `i64` data, when the tensor holds `i64` data.
    pub fn as_i64(&self) -> (r: Option<&[i64]>)
        ensures
            match self {
                TensorData::I64(v) => r matches Some(s) && s@ == v@,
                TensorData::F32(_) => r is None,
            },
    {
        match self {
            TensorData::I64(v) => Some(v.as_slice()),
            TensorData::F32(_) => None,
        }
    }
}

/// Product of the dimensions of a shape (1 for the empty shape).
pub open spec fn shape_product(shape: Seq<usize>) -> int
    decreases shape.len(),
{
    if shape.len() == 0 {
        1
    } else {
        shape_product(shape.drop_last()) * shape.last()
    }
}

/// Every partial product of the shape's dimensions fits in a `usize`.
pub open spec fn shape_fits(shape: Seq<usize>) -> bool {
    forall|i: int| 0 <= i <= shape.len() ==> #[trigger] shape_product(shape.subrange(0, i)) <= usize::MAX
}

proof fn lemma_product_nonneg(shape: Seq<usize>)
    ensures
        shape_product(shape) >= 0,
    decreases shape.len(),
{
    if shape.len() > 0 {
        lemma_product_nonneg(shape.drop_last());
        assert(shape_product(shape) >= 0) by (nonlinear_arith)
            requires
                shape_product(shape) == shape_product(shape.drop_last()) * shape.last(),
                shape_product(shape.drop_last()) >= 0,
                shape.last() >= 0,
        ;
    }
}

fn product(shape: &Vec<usize>) -> (p: usize)
    requires
        shape_fits(shape@),
    ensures
        p == shape_product(shape@),
{
    let mut p: usize = 1;
    let mut i: usize = 0;
    assert(shape@.subrange(0, 0) =~= Seq::<usize>::empty());
    while i < shape.len()
        invariant
            i <= shape@.len(),
            shape_fits(shape@),
            p == shape_product(shape@.subrange(0, i as int)),
        decreases shape@.len() - i,
    {
        let ghost next = shape@.subrange(0, i + 1);
        assert(next.drop_last() =~= shape@.subrange(0, i as int));
        assert(shape_product(next) <= usize::MAX);
        p = p * shape[i];
        i = i + 1;
    }
    assert(shape@.subrange(0, shape@.len() as int) =~= shape@);
    p
}

impl From<Vec<Sample>> for TensorData {
    /// `f32` data with these bit patterns.
    fn from(v: Vec<Sample>) -> (d: Self) {
        TensorData::F32(v)
    }
}

impl vstd::std_specs::convert::FromSpecImpl<Vec<Sample>> for TensorData {
    open spec fn obeys_from_spec() -> bool {
        true
    }

    open spec fn from_spec(v: Vec<Sample>) -> TensorData {
        TensorData::F32(v)
    }
}

/// A tensor: row-major data and its shape, such as `[batch, time, feat]`.
#[derive(Debug, Clone)]
pub struct Tensor {
    /// Element data, row-major.
    pub data: TensorData,
    /// Dimension sizes.
    pub shape: Vec<usize>,
}

impl Tensor {
    /// An empty `f32` tensor of shape `shape`.
    pub fn new(shape: Vec<usize>) -> (t: Self)
        requires
            shape_fits(shape@),
        ensures
            t.data matches TensorData::F32(v) && v@.len() == 0,
            t.shape@ == shape@,
    {
        let len = product(&shape);
        Tensor { data: TensorData::F32(Vec::with_capacity(len)), shape }
    }

    /// An `f32` tensor with the given data and shape.
    pub fn float(data: Vec<Sample>, shape: Vec<usize>) -> (t: Self)
        ensures
            t.data == TensorData::F32(data),
            t.shape == shape,
    {
        Tensor { data: TensorData::F32(data), shape }
    }

    /// An `i64` tensor with the given data and shape.
    pub fn i64(data: Vec<i64>, shape: Vec<usize>) -> (t: Self)
        ensures
            t.data == TensorData::I64(data),
            t.shape == shape,
    {
        Tensor { data: TensorData::I64(data), shape }
    }

    /// Element count according to the shape: the product of its dimensions.
    pub fn len(&self) -> (n: usize)
        requires
            shape_fits(self.shape@),
        ensures
            n == shape_product(self.shape@),
    {
        product(&self.shape)
    }

    /// Whether the shape holds no element.
    pub fn is_empty(&self) -> (b: bool)
        requires
            shape_fits(self.shape@),
        ensures
            b == (shape_product(self.shape@) == 0),
    {
        self.len() == 0
    }

    /// The `f32` data, when the tensor holds `f32` data.
    pub fn as_f32(&self) -> (r: Option<&[Sample]>)
        ensures
            match self.data {
                TensorData::F32(v) => r matches Some(s) && s@ == v@,
                TensorData::I64(_) => r is None,
            },
    {
        self.data.as_f32()
    }

    /// The `i64` data, when the tensor holds `i64` data.
    pub fn as_i64(&self) -> (r: Option<&[i64]>)
        ensures
            match self.data {
                TensorData::I64(v) => r matches Some(s) && s@ == v@,
                TensorData::F32(_) => r is None,
            },
    {
        self.data.as_i64()
    }
}

/// An inference backend (an ONNX session, a test double): runs a model on input tensors.
pub trait InferenceSession {
    /// Runs the model once.
    fn run(&mut self, inputs: &[Tensor]) -> Result<Vec<Tensor>, VoxError>;
}

/// Execution providers of the inference backend.
#[derive(Debug, Clone, Copy, PartialEq, Eq, Structural)]
pub enum EpDescriptor {
    /// NVIDIA CUDA.
    Cuda,
    /// Windows DirectML.
    DirectML,
    /// Apple CoreML.
    CoreML,
    /// CPU (always available).
    Cpu,
}

/// Execution providers in order of preference: CUDA, DirectML, CoreML, CPU.
pub fn default_execution_providers() -> (eps: Vec<EpDescriptor>)
    ensures
        eps@ == seq![EpDescriptor::Cuda, EpDescriptor::DirectML, EpDescriptor::CoreML, EpDescriptor::Cpu],
{
    let mut eps = Vec::new();
    eps.push(EpDescriptor::Cuda);
    eps.push(EpDescriptor::DirectML);
    eps.push(EpDescriptor::CoreML);
    eps.push(EpDescriptor::Cpu);
    assert(eps@ =~= seq![EpDescriptor::Cuda, EpDescriptor::DirectML, EpDescriptor::CoreML, EpDescriptor::Cpu]);
    eps
}

} // verus!
