//! The multi-stage composition shell around single layers. The composition
//! itself is out of this crate's scope (a network would fold `propagate`
//! left-to-right over the layers and the backward pass right-to-left,
//! threading each layer's gradient signal into the previous one); only the
//! data layout is kept here.

use vstd::prelude::*;
use crate::neuron::NeuronLayer;

verus! {

/// An ordered pipeline of stages, each a batch of transforms.
pub struct Model {
    #[allow(dead_code)]
    stages: Vec<Stage>,
}

/// One stage of a model.
struct Stage {
    #[allow(dead_code)]
    transforms: Vec<Transform>,
}

/// A single transform of a stage.
enum Transform {
    NeuronLayer(NeuronLayer),
}

} // verus!
