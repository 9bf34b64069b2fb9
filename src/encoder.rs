//! A stack of self-attention encoder layers and a run of it on random input.
use crate::layers::{encoder_config, encoder_forward, encoder_of, encoder_stack, EncoderStack};
use crate::tensor::{clone3, cpu_device, random3, shape3, Tensor3};
use burn::backend::ndarray::NdArrayDevice;
use vstd::prelude::*;

verus! {

/// Width of each token's vector.
pub const MODEL_WIDTH: usize = 64;

/// Width of the feed-forward part of each layer.
pub const FEED_FORWARD_WIDTH: usize = 8;

/// Number of attention heads.
pub const HEADS: usize = 4;

/// Number of encoder layers.
pub const LAYERS: usize = 256;

/// Batch size of the sample input.
pub const SAMPLE_BATCH: usize = 2;

/// Number of tokens in each sample sequence.
pub const SAMPLE_TOKENS: usize = 5;

/// An encoder stack together with the device it lives on.
pub struct Encoder {
    pub encoder: EncoderStack,
    pub device: NdArrayDevice,
}

impl Encoder {
    /// The stack was built with the constants above.
    pub open spec fn wf(&self) -> bool {
        encoder_config(self.encoder) == (MODEL_WIDTH, FEED_FORWARD_WIDTH, HEADS, LAYERS)
    }

    /// Builds the stack on the CPU device.
    pub fn new() -> (r: Encoder)
        ensures
            r.wf(),
    {
        let device = cpu_device();
        let encoder = encoder_stack(MODEL_WIDTH, FEED_FORWARD_WIDTH, HEADS, LAYERS, &device);
        Encoder { encoder, device }
    }

    /// Runs the stack on a uniformly random input of `SAMPLE_BATCH` sequences
    /// of `SAMPLE_TOKENS` tokens; returns the input and the output, which have
    /// the same shape.
    pub fn encode(&self) -> (r: (Tensor3, Tensor3))
        requires
            self.wf(),
        ensures
            shape3(r.0) == seq![SAMPLE_BATCH, SAMPLE_TOKENS, MODEL_WIDTH],
            shape3(r.1) == shape3(r.0),
            r.1 == encoder_of(self.encoder, r.0),
    {
        let input = random3([SAMPLE_BATCH, SAMPLE_TOKENS, MODEL_WIDTH], &self.device);
        let output = encoder_forward(&self.encoder, clone3(&input));
        (input, output)
    }
}

/// Builds an encoder and runs it once on random input; returns the input and
/// the encoder's output on it.
pub fn encode_test() -> (r: (Tensor3, Tensor3))
    ensures
        shape3(r.0) == seq![SAMPLE_BATCH, SAMPLE_TOKENS, MODEL_WIDTH],
        shape3(r.1) == shape3(r.0),
        exists|e: Encoder| e.wf() && r.1 == encoder_of(e.encoder, r.0),
{
    let encoder = Encoder::new();
    let r = encoder.encode();
    assert(encoder.wf() && r.1 == encoder_of(encoder.encoder, r.0));
    r
}

} // verus!
