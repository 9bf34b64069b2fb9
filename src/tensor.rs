//! Tensors of the CPU backend, seen by the verified code through their shapes,
//! the entries of integer tensors, and names for what each operation returns.
use burn::backend::ndarray::NdArrayDevice;
use burn::backend::NdArray;
use burn::tensor::{Distribution, Int, Tensor, TensorData};
use vstd::prelude::*;

verus! {

#[verifier::external_type_specification]
#[verifier::external_body]
pub struct ExNdArrayDevice(NdArrayDevice);

/// A rank-3 float tensor on the CPU backend.
#[verifier::external_body]
pub struct Tensor3 {
    pub inner: Tensor<NdArray, 3>,
}

/// A rank-2 float tensor on the CPU backend.
#[verifier::external_body]
pub struct Tensor2 {
    pub inner: Tensor<NdArray, 2>,
}

/// A rank-2 integer tensor on the CPU backend.
#[verifier::external_body]
pub struct IntTensor2 {
    pub inner: Tensor<NdArray, 2, Int>,
}

/// Sizes of the dimensions of a rank-3 float tensor.
pub uninterp spec fn shape3(t: Tensor3) -> Seq<usize>;

/// Sizes of the dimensions of a rank-2 float tensor.
pub uninterp spec fn shape2(t: Tensor2) -> Seq<usize>;

/// Sizes of the dimensions of a rank-2 integer tensor.
pub uninterp spec fn shape2_int(t: IntTensor2) -> Seq<usize>;

/// Entries of a rank-2 integer tensor, row after row.
pub uninterp spec fn entries2_int(t: IntTensor2) -> Seq<i64>;

/// A tensor of zeros of the given shape.
pub uninterp spec fn zeros_of(dims: Seq<usize>) -> Tensor3;

/// `t` with its elements laid out under the shape `dims`.
pub uninterp spec fn reshape_of(t: Tensor3, dims: Seq<usize>) -> Tensor3;

/// `t` cut down to `len` entries of dimension `dim`, from `start` on.
pub uninterp spec fn narrow_of(t: Tensor3, dim: usize, start: usize, len: usize) -> Tensor3;

/// `a` followed by `b` along dimension `dim`.
pub uninterp spec fn cat_of(a: Tensor3, b: Tensor3, dim: usize) -> Tensor3;

/// `t` without its dimension 1.
pub uninterp spec fn squeeze_of(t: Tensor3) -> Tensor2;

/// The element-wise sum of `a` and `b`.
pub uninterp spec fn sum_of(a: Tensor3, b: Tensor3) -> Tensor3;

/// The integer tensor of shape `[rows, cols]` holding `values` row after row.
pub uninterp spec fn int_tensor_of(values: Seq<i64>, rows: usize, cols: usize) -> IntTensor2;

/// Relies on `NdArrayDevice::default`: the CPU device.
#[verifier::external_body]
pub(crate) fn cpu_device() -> (d: NdArrayDevice) {
    NdArrayDevice::default()
}

/// Relies on `Tensor::dims`: the sizes of the three dimensions.
#[verifier::external_body]
pub(crate) fn dims3(t: &Tensor3) -> (r: [usize; 3])
    ensures
        r@ == shape3(*t),
{
    t.inner.dims()
}

/// Relies on `Tensor::dims`: the sizes of the two dimensions.
#[verifier::external_body]
pub(crate) fn dims2_int(t: &IntTensor2) -> (r: [usize; 2])
    ensures
        r@ == shape2_int(*t),
{
    t.inner.dims()
}

/// Relies on `Tensor::to_data` and `TensorData::iter`: the entries in row-major
/// order, one per element of the shape.
#[verifier::external_body]
pub(crate) fn int_entries(t: &IntTensor2) -> (r: Vec<i64>)
    ensures
        r@ == entries2_int(*t),
        r@.len() == shape2_int(*t)[0] * shape2_int(*t)[1],
{
    t.inner.to_data().iter::<i64>().collect()
}

/// Relies on `Tensor::from_data` over `TensorData::new`: a tensor of the given
/// shape whose entries, row after row, are `values`.
#[verifier::external_body]
pub(crate) fn int_tensor2(values: Vec<i64>, rows: usize, cols: usize, device: &NdArrayDevice) -> (r: IntTensor2)
    requires
        values@.len() == rows * cols,
    ensures
        r == int_tensor_of(values@, rows, cols),
        shape2_int(r) == seq![rows, cols],
        entries2_int(r) == values@,
{
    IntTensor2 { inner: Tensor::from_data(TensorData::new(values, [rows, cols]), device) }
}

/// Relies on `Tensor::zeros`: a tensor of the given shape filled with zeros.
#[verifier::external_body]
pub(crate) fn zeros3(dims: [usize; 3], device: &NdArrayDevice) -> (r: Tensor3)
    requires
        dims[0] > 0 && dims[1] > 0 && dims[2] > 0,
    ensures
        r == zeros_of(dims@),
        shape3(r) == dims@,
{
    Tensor3 { inner: Tensor::zeros(dims, device) }
}

/// Relies on `Tensor::random` with the default distribution (uniform on
/// `[0, 1)`): a tensor of the given shape.
#[verifier::external_body]
pub(crate) fn random3(dims: [usize; 3], device: &NdArrayDevice) -> (r: Tensor3)
    requires
        dims[0] > 0 && dims[1] > 0 && dims[2] > 0,
    ensures
        shape3(r) == dims@,
{
    Tensor3 { inner: Tensor::random(dims, Distribution::Default, device) }
}

/// Relies on `Tensor::reshape`: the same elements under a shape with as many.
#[verifier::external_body]
pub(crate) fn reshape3(t: Tensor3, dims: [usize; 3]) -> (r: Tensor3)
    requires
        shape3(t).len() == 3,
        shape3(t)[0] * shape3(t)[1] * shape3(t)[2] == dims[0] * dims[1] * dims[2],
    ensures
        r == reshape_of(t, dims@),
        shape3(r) == dims@,
{
    Tensor3 { inner: t.inner.reshape(dims) }
}

/// Relies on `Tensor::narrow`: keeps `len` entries of dimension `dim`, from `start` on.
#[verifier::external_body]
pub(crate) fn narrow3(t: Tensor3, dim: usize, start: usize, len: usize) -> (r: Tensor3)
    requires
        dim < 3,
        shape3(t).len() == 3,
        len > 0,
        start + len <= shape3(t)[dim as int],
    ensures
        r == narrow_of(t, dim, start, len),
        shape3(r) == shape3(t).update(dim as int, len),
{
    Tensor3 { inner: t.inner.narrow(dim, start, len) }
}

/// Relies on `Tensor::cat`: `a` followed by `b` along dimension `dim`.
#[verifier::external_body]
pub(crate) fn cat3(a: Tensor3, b: Tensor3, dim: usize) -> (r: Tensor3)
    requires
        dim < 3,
        shape3(a).len() == 3,
        shape3(b).len() == 3,
        forall|i: int| 0 <= i < 3 && i != dim ==> shape3(a)[i] == shape3(b)[i],
        shape3(a)[dim as int] + shape3(b)[dim as int] <= usize::MAX,
    ensures
        r == cat_of(a, b, dim),
        shape3(r) == shape3(a).update(dim as int, (shape3(a)[dim as int] + shape3(b)[dim as int]) as usize),
{
    Tensor3 { inner: Tensor::cat(vec![a.inner, b.inner], dim) }
}

/// Relies on `Tensor::squeeze`: drops dimension 1, of size 1.
#[verifier::external_body]
pub(crate) fn squeeze_middle(t: Tensor3) -> (r: Tensor2)
    requires
        shape3(t).len() == 3,
        shape3(t)[1] == 1,
    ensures
        r == squeeze_of(t),
        shape2(r) == seq![shape3(t)[0], shape3(t)[2]],
{
    Tensor2 { inner: t.inner.squeeze(1) }
}

/// Relies on `Tensor::add`: the element-wise sum of two tensors of one shape.
#[verifier::external_body]
pub(crate) fn add3(a: Tensor3, b: Tensor3) -> (r: Tensor3)
    requires
        shape3(a) == shape3(b),
    ensures
        r == sum_of(a, b),
        shape3(r) == shape3(a),
{
    Tensor3 { inner: a.inner + b.inner }
}

/// Relies on `Tensor::clone`: a tensor of the same shape and contents.
#[verifier::external_body]
pub(crate) fn clone3(t: &Tensor3) -> (r: Tensor3)
    ensures
        r == *t,
{
    Tensor3 { inner: t.inner.clone() }
}

} // verus!
