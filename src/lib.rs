//! A return-conditioned sequence model for decision making, with the rolling
//! context window that inference uses.
pub mod window;
pub mod tensor;
pub mod layers;
pub mod model;
pub mod encoder;
