//! A minimal feed-forward neural-network building block: a single trainable
//! layer with a forward pass (`propagate`) and a backward pass
//! (`backpropagation`), parameterized by an activation function and a loss
//! function.
//!
//! The layer's scalar entries are carried as opaque 64-bit encodings of the
//! machine numbers they stand for. This crate owns everything about the layer
//! that does not read a scalar's value: the shape invariants of the weight
//! matrix and bias vector, the validation of forward and backward calls, the
//! branching over adjustment and loss variants, and the chaining law that lets
//! one layer's gradient signal feed the previous layer. The scalar arithmetic
//! itself (the affine transform, the nonlinearities and their derivatives) is
//! left to an unverified numeric shell around this crate.

pub mod model;
pub mod neuron;
