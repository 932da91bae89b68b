//! A single trainable layer: its data model, shape invariants, and the
//! validation contracts for its forward and backward passes.

use vstd::prelude::*;

verus! {

/// Why a forward or backward call on a layer must be refused.
#[derive(Clone, Copy, Debug, PartialEq, Eq, Structural)]
pub enum LayerError {
    /// A vector or matrix shape is incompatible with the layer's declared
    /// input and output dimensions.
    DimensionMismatch,
    /// The loss variant was asked for its error or gradient, but defines
    /// neither (cross-entropy is declared and deliberately unimplemented).
    UnsupportedVariant,
}

/// The elementwise nonlinearity a layer applies to its affine output.
#[derive(Clone, Copy, Debug, PartialEq, Eq, Structural)]
pub enum Activation {
    Sigmoid,
    RectifiedLinearUnit,
    Softplus,
}

/// The loss paired with a layer, used only when the layer is the network's
/// terminal layer.
#[derive(Clone, Copy, Debug, PartialEq, Eq, Structural)]
pub enum LossFunction {
    SquaredError,
    CrossEntropy,
}

impl LossFunction {
    /// Whether this variant defines an error and a gradient at all.
    /// Cross-entropy is a declared but unsupported variant: a backward pass
    /// seeded by a target must fail on it rather than produce numbers.
    pub open spec fn supported(self) -> bool {
        self is SquaredError
    }

    /// Runtime test of `supported`.
    pub fn is_supported(&self) -> (r: bool)
        ensures
            r == self.supported(),
    {
        match self {
            LossFunction::SquaredError => true,
            LossFunction::CrossEntropy => false,
        }
    }
}

/// The gradient signal a layer's backward pass hands to the previous layer:
/// how much each of that layer's outputs contributed to downstream error.
/// Entries are 64-bit scalar encodings.
#[derive(Clone, Debug)]
pub struct WeightedDeltas(pub Vec<u64>);

impl WeightedDeltas {
    /// The number of entries in the signal.
    pub fn len(&self) -> (n: usize)
        ensures
            n == self.0@.len(),
    {
        self.0.len()
    }
}

/// How a backward pass is seeded: with the desired output when this layer is
/// the network's terminal layer, or with the gradient signal propagated back
/// from the next layer when it is a hidden layer.
#[derive(Clone, Debug)]
pub enum Adjustment {
    /// Adjust weights to approach a target output.
    Target(Vec<u64>),
    /// Adjust weights based on the outputs' impact on downstream error.
    Deltas(WeightedDeltas),
}

impl Adjustment {
    /// The length of the carried vector; either way it is a per-output
    /// signal, so a layer accepts it only at its output dimension.
    pub open spec fn signal_len(self) -> nat {
        match self {
            Adjustment::Target(t) => t@.len(),
            Adjustment::Deltas(d) => d.0@.len(),
        }
    }

    /// Runtime length of the carried vector.
    pub fn len(&self) -> (n: usize)
        ensures
            n == self.signal_len(),
    {
        match self {
            Adjustment::Target(t) => t.len(),
            Adjustment::Deltas(d) => d.len(),
        }
    }
}

/// One backward step's worth of context: the input the layer saw, the output
/// it produced, the adjustment seeding the step, and the step size. Owned
/// transiently by the caller; the layer does not retain it.
#[derive(Clone, Debug)]
pub struct Propagation {
    /// Input pushed to the layer.
    pub input: Vec<u64>,
    /// Activated outputs from the layer.
    pub output: Vec<u64>,
    /// Adjustment vector seeding the backward step.
    pub adjustment: Adjustment,
    /// 64-bit encoding of the (positive) gradient-descent step size.
    pub learning_rate: u64,
}

/// Do all rows of `weights` have exactly `cols` entries?
pub open spec fn rows_have_len(weights: Seq<Vec<u64>>, cols: nat) -> bool {
    forall|i: int| 0 <= i < weights.len() ==> (#[trigger] weights[i])@.len() == cols
}

/// The column count a weight grid declares: that of its first row.
pub open spec fn first_row_len(weights: Seq<Vec<u64>>) -> nat {
    if weights.len() == 0 {
        0
    } else {
        weights[0]@.len()
    }
}

/// Do a weight grid and a bias vector together form a well-shaped layer:
/// the grid rectangular, the bias one entry per row?
pub open spec fn dims_consistent(weights: Seq<Vec<u64>>, bias: Seq<u64>) -> bool {
    &&& bias.len() == weights.len()
    &&& rows_have_len(weights, first_row_len(weights))
}

/// An affine transform followed by a nonlinearity, with a paired loss used
/// only when the layer is the network's terminal layer. `weights` maps the
/// input dimension to the output dimension (one row per output); `bias` has
/// one entry per output. Scalar entries are 64-bit encodings, opaque to this
/// crate's logic.
#[derive(Clone, Debug)]
pub struct NeuronLayer {
    weights: Vec<Vec<u64>>,
    bias: Vec<u64>,
    activation: Activation,
    loss: LossFunction,
}

impl NeuronLayer {
    /// The rows of the weight matrix.
    pub closed spec fn weights_seq(self) -> Seq<Vec<u64>> {
        self.weights@
    }

    /// The bias vector.
    pub closed spec fn bias_seq(self) -> Seq<u64> {
        self.bias@
    }

    /// The layer's nonlinearity.
    pub closed spec fn activation_spec(self) -> Activation {
        self.activation
    }

    /// The layer's paired loss.
    pub closed spec fn loss_spec(self) -> LossFunction {
        self.loss
    }

    /// The layer's output dimension: the number of weight rows.
    pub open spec fn output_dim_spec(self) -> nat {
        self.weights_seq().len()
    }

    /// The layer's input dimension: the length of each weight row.
    pub open spec fn input_dim_spec(self) -> nat {
        first_row_len(self.weights_seq())
    }

    /// Shape invariant: the weight grid is rectangular and the bias matches
    /// the output dimension. Constructed layers satisfy it, and every update
    /// preserves it.
    pub open spec fn wf(self) -> bool {
        dims_consistent(self.weights_seq(), self.bias_seq())
    }

    /// Builds a layer, refusing a ragged weight grid or a bias whose length
    /// differs from the number of weight rows.
    pub fn new(
        weights: Vec<Vec<u64>>,
        bias: Vec<u64>,
        activation: Activation,
        loss: LossFunction,
    ) -> (r: Result<NeuronLayer, LayerError>)
        ensures
            r is Ok <==> dims_consistent(weights@, bias@),
            r matches Ok(layer) ==> {
                &&& layer.wf()
                &&& layer.weights_seq() == weights@
                &&& layer.bias_seq() == bias@
                &&& layer.activation_spec() == activation
                &&& layer.loss_spec() == loss
            },
            r matches Err(e) ==> e == LayerError::DimensionMismatch,
    {
        if bias.len() != weights.len() {
            return Err(LayerError::DimensionMismatch);
        }
        let cols: usize = if weights.len() == 0 {
            0
        } else {
            weights[0].len()
        };
        for i in 0..weights.len()
            invariant
                cols == first_row_len(weights@),
                forall|j: int| 0 <= j < i ==> (#[trigger] weights@[j])@.len() == cols,
        {
            if weights[i].len() != cols {
                return Err(LayerError::DimensionMismatch);
            }
        }
        Ok(NeuronLayer { weights, bias, activation, loss })
    }

    /// The layer's input dimension.
    pub fn input_dim(&self) -> (n: usize)
        ensures
            n == self.input_dim_spec(),
    {
        if self.weights.len() == 0 {
            0
        } else {
            self.weights[0].len()
        }
    }

    /// The layer's output dimension.
    pub fn output_dim(&self) -> (n: usize)
        ensures
            n == self.output_dim_spec(),
    {
        self.weights.len()
    }

    /// The weight rows, for the numeric shell to read.
    pub fn weights(&self) -> (r: &Vec<Vec<u64>>)
        ensures
            r@ == self.weights_seq(),
    {
        &self.weights
    }

    /// The bias vector, for the numeric shell to read.
    pub fn bias(&self) -> (r: &Vec<u64>)
        ensures
            r@ == self.bias_seq(),
    {
        &self.bias
    }

    /// The layer's nonlinearity.
    pub fn activation(&self) -> (r: Activation)
        ensures
            r == self.activation_spec(),
    {
        self.activation
    }

    /// The layer's paired loss.
    pub fn loss(&self) -> (r: LossFunction)
        ensures
            r == self.loss_spec(),
    {
        self.loss
    }

    /// Runtime test of the shape invariant `wf`.
    pub fn is_well_formed(&self) -> (r: bool)
        ensures
            r == self.wf(),
    {
        if self.bias.len() != self.weights.len() {
            return false;
        }
        let cols = self.input_dim();
        for i in 0..self.weights.len()
            invariant
                cols == self.input_dim_spec(),
                self.bias@.len() == self.weights@.len(),
                forall|j: int| 0 <= j < i ==> (#[trigger] self.weights@[j])@.len() == cols,
        {
            if self.weights[i].len() != cols {
                return false;
            }
        }
        true
    }

    /// Checks a forward call: the input must have the layer's input dimension.
    /// On success returns the output dimension, the length of the vector the
    /// forward pass will produce.
    pub fn validate_input(&self, input: &Vec<u64>) -> (r: Result<usize, LayerError>)
        ensures
            r is Ok <==> input@.len() == self.input_dim_spec(),
            r matches Ok(n) ==> n == self.output_dim_spec(),
            r matches Err(e) ==> e == LayerError::DimensionMismatch,
    {
        if input.len() == self.input_dim() {
            Ok(self.output_dim())
        } else {
            Err(LayerError::DimensionMismatch)
        }
    }

    /// Do a record's vectors fit this layer: the input at the input
    /// dimension, the output and the adjustment signal at the output
    /// dimension?
    pub open spec fn record_shape_ok(self, p: Propagation) -> bool {
        &&& p.input@.len() == self.input_dim_spec()
        &&& p.output@.len() == self.output_dim_spec()
        &&& p.adjustment.signal_len() == self.output_dim_spec()
    }

    /// Can this layer compute the record's seed deltas: a target adjustment
    /// needs the loss gradient, so the paired loss must be a supported
    /// variant; a deltas adjustment never reads the loss.
    pub open spec fn record_supported(self, p: Propagation) -> bool {
        p.adjustment is Target ==> self.loss_spec().supported()
    }

    /// Checks a backward call. On success returns the input dimension: the
    /// length of the gradient signal the backward pass hands to the previous
    /// layer. A shape mismatch is refused as such; a well-shaped record whose
    /// target seed needs an unsupported loss is refused as the missing
    /// feature it is.
    pub fn validate_record(&self, p: &Propagation) -> (r: Result<usize, LayerError>)
        ensures
            r is Ok <==> self.record_shape_ok(*p) && self.record_supported(*p),
            r matches Ok(n) ==> n == self.input_dim_spec(),
            r matches Err(e) ==> (e == LayerError::DimensionMismatch <==> !self.record_shape_ok(
                *p,
            )),
            r matches Err(e) ==> (e == LayerError::UnsupportedVariant <==> self.record_shape_ok(*p)
                && !self.record_supported(*p)),
    {
        let out_dim = self.output_dim();
        if p.input.len() != self.input_dim() || p.output.len() != out_dim
            || p.adjustment.len() != out_dim {
            return Err(LayerError::DimensionMismatch);
        }
        let needs_loss = match &p.adjustment {
            Adjustment::Target(_) => true,
            Adjustment::Deltas(_) => false,
        };
        if needs_loss && !self.loss.is_supported() {
            return Err(LayerError::UnsupportedVariant);
        }
        Ok(self.input_dim())
    }

    /// Installs a freshly descended weight grid, refusing one whose shape
    /// differs from the layer's. On success only the weights change; on
    /// refusal the layer is untouched. Either way the shape invariant and
    /// both dimensions are preserved: this is the only mutation a training
    /// step performs (the bias is never updated by the specified algorithm).
    pub fn set_weights(&mut self, weights: Vec<Vec<u64>>) -> (r: Result<(), LayerError>)
        requires
            old(self).wf(),
        ensures
            final(self).wf(),
            final(self).input_dim_spec() == old(self).input_dim_spec(),
            final(self).output_dim_spec() == old(self).output_dim_spec(),
            final(self).bias_seq() == old(self).bias_seq(),
            final(self).activation_spec() == old(self).activation_spec(),
            final(self).loss_spec() == old(self).loss_spec(),
            r is Ok <==> weights@.len() == old(self).output_dim_spec() && rows_have_len(
                weights@,
                old(self).input_dim_spec(),
            ),
            r is Ok ==> final(self).weights_seq() == weights@,
            r is Err ==> *final(self) == *old(self),
            r matches Err(e) ==> e == LayerError::DimensionMismatch,
    {
        if weights.len() != self.weights.len() {
            return Err(LayerError::DimensionMismatch);
        }
        let cols = self.input_dim();
        for i in 0..weights.len()
            invariant
                *self == *old(self),
                old(self).wf(),
                cols == self.input_dim_spec(),
                weights@.len() == self.weights@.len(),
                forall|j: int| 0 <= j < i ==> (#[trigger] weights@[j])@.len() == cols,
        {
            if weights[i].len() != cols {
                return Err(LayerError::DimensionMismatch);
            }
        }
        self.weights = weights;
        Ok(())
    }
}

/// Chaining law: in a two-layer stack whose dimensions agree (the terminal
/// layer consumes what the previous layer produces), a gradient signal of the
/// length the terminal layer's backward pass hands back — its input
/// dimension, as `validate_record` returns on success — wrapped as a `Deltas`
/// adjustment carries exactly the previous layer's output dimension, so it
/// seeds that layer's own backward pass at the right length.
pub proof fn lemma_deltas_chain(prev: NeuronLayer, terminal: NeuronLayer, upstream: WeightedDeltas)
    requires
        terminal.input_dim_spec() == prev.output_dim_spec(),
        upstream.0@.len() == terminal.input_dim_spec(),
    ensures
        Adjustment::Deltas(upstream).signal_len() == prev.output_dim_spec(),
{
}

} // verus!

