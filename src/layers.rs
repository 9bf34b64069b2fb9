//! Learned layers of the neural-network library, seen by the verified code
//! through the widths they were built with and names for what they compute.
use crate::tensor::{shape3, entries2_int, shape2_int, IntTensor2, Tensor3};
use burn::backend::ndarray::NdArrayDevice;
use burn::backend::NdArray;
use burn::nn;
use burn::nn::transformer::{TransformerEncoder, TransformerEncoderConfig, TransformerEncoderInput};
use vstd::prelude::*;

verus! {

/// A dense layer `x -> x W + b`.
#[verifier::external_body]
pub struct LinearLayer {
    inner: nn::Linear<NdArray>,
}

/// A table of learned vectors looked up by integer index.
#[verifier::external_body]
pub struct EmbeddingLayer {
    inner: nn::Embedding<NdArray>,
}

/// Layer normalization over the last dimension.
#[verifier::external_body]
pub struct NormLayer {
    inner: nn::LayerNorm<NdArray>,
}

/// A stack of multi-head self-attention encoder layers.
#[verifier::external_body]
pub struct EncoderStack {
    inner: TransformerEncoder<NdArray>,
}

/// Input and output widths of a dense layer (the shape of its weight).
pub uninterp spec fn linear_widths(l: LinearLayer) -> (usize, usize);

/// Number of rows and width of an embedding table (the shape of its weight).
pub uninterp spec fn embedding_shape(e: EmbeddingLayer) -> (usize, usize);

/// Width that a normalization layer was built for (the size of its scale).
pub uninterp spec fn norm_width(n: NormLayer) -> usize;

/// Model width, feed-forward width, number of heads and number of layers of
/// an encoder stack.
pub uninterp spec fn encoder_config(e: EncoderStack) -> (usize, usize, usize, usize);

/// What a dense layer computes from `x`.
pub uninterp spec fn linear_of(l: LinearLayer, x: Tensor3) -> Tensor3;

/// The vectors an embedding table gives for the indices `ids`.
pub uninterp spec fn embed_of(e: EmbeddingLayer, ids: IntTensor2) -> Tensor3;

/// What a normalization layer computes from `x`.
pub uninterp spec fn norm_of(n: NormLayer, x: Tensor3) -> Tensor3;

/// What an encoder stack computes from `x`, with no masks.
pub uninterp spec fn encoder_of(e: EncoderStack, x: Tensor3) -> Tensor3;

/// Relies on `LinearConfig::init`: a dense layer with a `[d_input, d_output]` weight.
#[verifier::external_body]
pub(crate) fn linear(d_input: usize, d_output: usize, device: &NdArrayDevice) -> (l: LinearLayer)
    requires
        d_input > 0,
        d_output > 0,
    ensures
        linear_widths(l) == (d_input, d_output),
{
    LinearLayer { inner: nn::LinearConfig::new(d_input, d_output).init(device) }
}

/// Relies on `Linear::forward`: `[.., .., d_input]` in, `[.., .., d_output]` out.
/// The backend's matrix product divides by the size of each matrix, so the
/// sequence dimension must not be empty.
#[verifier::external_body]
pub(crate) fn linear_forward(l: &LinearLayer, x: Tensor3) -> (r: Tensor3)
    requires
        shape3(x).len() == 3,
        shape3(x)[1] > 0,
        shape3(x)[2] == linear_widths(*l).0,
    ensures
        r == linear_of(*l, x),
        shape3(r) == shape3(x).update(2, linear_widths(*l).1),
{
    Tensor3 { inner: l.inner.forward(x.inner) }
}

/// Relies on `EmbeddingConfig::init`: a table of `rows` vectors of width `width`.
#[verifier::external_body]
pub(crate) fn embedding(rows: usize, width: usize, device: &NdArrayDevice) -> (e: EmbeddingLayer)
    requires
        rows > 0,
        width > 0,
    ensures
        embedding_shape(e) == (rows, width),
{
    EmbeddingLayer { inner: nn::EmbeddingConfig::new(rows, width).init(device) }
}

/// Relies on `Embedding::forward`: indices `[b, s]` in, vectors `[b, s, width]`
/// out; each index must name a row of the table.
#[verifier::external_body]
pub(crate) fn embedding_forward(e: &EmbeddingLayer, ids: IntTensor2) -> (r: Tensor3)
    requires
        shape2_int(ids).len() == 2,
        forall|i: int| 0 <= i < entries2_int(ids).len()
            ==> 0 <= #[trigger] entries2_int(ids)[i] < embedding_shape(*e).0,
    ensures
        r == embed_of(*e, ids),
        shape3(r) == seq![shape2_int(ids)[0], shape2_int(ids)[1], embedding_shape(*e).1],
{
    Tensor3 { inner: e.inner.forward(ids.inner) }
}

/// Relies on `LayerNormConfig::init`: a normalization over `width` features.
#[verifier::external_body]
pub(crate) fn layer_norm(width: usize, device: &NdArrayDevice) -> (n: NormLayer)
    requires
        width > 0,
    ensures
        norm_width(n) == width,
{
    NormLayer { inner: nn::LayerNormConfig::new(width).init(device) }
}

/// Relies on `LayerNorm::forward`: the shape is kept.
#[verifier::external_body]
pub(crate) fn layer_norm_forward(n: &NormLayer, x: Tensor3) -> (r: Tensor3)
    requires
        shape3(x).len() == 3,
        shape3(x)[2] == norm_width(*n),
    ensures
        r == norm_of(*n, x),
        shape3(r) == shape3(x),
{
    Tensor3 { inner: n.inner.forward(x.inner) }
}

/// Relies on `TransformerEncoderConfig::init`: `n_layers` encoder layers of
/// width `d_model`, with `n_heads` heads and a feed-forward width of `d_ff`.
#[verifier::external_body]
pub(crate) fn encoder_stack(
    d_model: usize,
    d_ff: usize,
    n_heads: usize,
    n_layers: usize,
    device: &NdArrayDevice,
) -> (e: EncoderStack)
    requires
        d_model > 0,
        d_ff > 0,
        n_heads > 0,
        d_model % n_heads == 0,
    ensures
        encoder_config(e) == (d_model, d_ff, n_heads, n_layers),
{
    EncoderStack { inner: TransformerEncoderConfig::new(d_model, d_ff, n_heads, n_layers).init(device) }
}

/// Relies on `TransformerEncoder::forward` with no masks: the shape is kept.
/// Its attention projections are dense layers, whose matrix product divides
/// by the size of each matrix, so the sequence dimension must not be empty.
#[verifier::external_body]
pub(crate) fn encoder_forward(e: &EncoderStack, x: Tensor3) -> (r: Tensor3)
    requires
        shape3(x).len() == 3,
        shape3(x)[1] > 0,
        shape3(x)[2] == encoder_config(*e).0,
    ensures
        r == encoder_of(*e, x),
        shape3(r) == shape3(x),
{
    Tensor3 { inner: e.inner.forward(TransformerEncoderInput::new(x.inner)) }
}

} // verus!
