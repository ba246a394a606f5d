//! The five engine variants and their shared configuration, as data.
//!
//! The engines differ only in which gates their forward pass composes,
//! which parameter groups the gradient step may touch, which loss they
//! report, and how often; everything a training loop needs to know about a
//! variant is tabulated here instead of being duplicated as control flow.

use vstd::prelude::*;

verus! {

/// The five model variants sharing the `initialize` / `forward` / `fit` /
/// `predict` contract.
#[derive(Clone, Copy, Debug, PartialEq, Eq, Structural)]
pub enum ModelKind {
    /// Single-layer logistic regression for tabular classification.
    Linear,
    /// One hidden rectified-linear layer with a sigmoid output.
    Feedforward,
    /// Vanilla recurrent network reading each feature as one timestep.
    SimpleRnn,
    /// Gated recurrent unit over a sliding time window.
    Gru,
    /// Long short-term memory over a sliding time window.
    Lstm,
}

/// The loss a variant trains against and reports.
#[derive(Clone, Copy, Debug, PartialEq, Eq, Structural)]
pub enum LossKind {
    /// Binary cross-entropy, predictions clipped away from 0 and 1.
    CrossEntropy,
    /// Mean squared error.
    SquaredError,
}

/// Everything a training loop needs to know about one variant.
#[derive(Clone, Copy, Debug, PartialEq, Eq)]
pub struct EngineConfig {
    /// How many gated transforms one recurrent step composes; zero for the
    /// non-recurrent variants.
    pub gates: usize,
    /// Whether the gradient step may touch only the readout `W_hy`, `b_y`
    /// while every other parameter stays at its initial value.
    pub readout_only: bool,
    /// The loss trained against and reported.
    pub loss: LossKind,
    /// Whether the readout is squashed through the sigmoid (classification)
    /// or left raw (regression).
    pub sigmoid_readout: bool,
    /// Every how many epochs the loss is reported, if at all.
    pub report_interval: Option<usize>,
}

/// The configuration table of the five variants.
pub open spec fn engine_config_spec(kind: ModelKind) -> EngineConfig {
    match kind {
        ModelKind::Linear => EngineConfig {
            gates: 0,
            readout_only: false,
            loss: LossKind::CrossEntropy,
            sigmoid_readout: true,
            report_interval: None,
        },
        ModelKind::Feedforward => EngineConfig {
            gates: 0,
            readout_only: false,
            loss: LossKind::CrossEntropy,
            sigmoid_readout: true,
            report_interval: Some(200),
        },
        ModelKind::SimpleRnn => EngineConfig {
            gates: 1,
            readout_only: true,
            loss: LossKind::CrossEntropy,
            sigmoid_readout: true,
            report_interval: Some(200),
        },
        ModelKind::Gru => EngineConfig {
            gates: 3,
            readout_only: true,
            loss: LossKind::SquaredError,
            sigmoid_readout: false,
            report_interval: Some(100),
        },
        ModelKind::Lstm => EngineConfig {
            gates: 4,
            readout_only: true,
            loss: LossKind::SquaredError,
            sigmoid_readout: false,
            report_interval: Some(100),
        },
    }
}

/// Looks a variant's configuration up.
pub fn engine_config(kind: ModelKind) -> (c: EngineConfig)
    ensures
        c == engine_config_spec(kind),
{
    match kind {
        ModelKind::Linear => EngineConfig {
            gates: 0,
            readout_only: false,
            loss: LossKind::CrossEntropy,
            sigmoid_readout: true,
            report_interval: None,
        },
        ModelKind::Feedforward => EngineConfig {
            gates: 0,
            readout_only: false,
            loss: LossKind::CrossEntropy,
            sigmoid_readout: true,
            report_interval: Some(200),
        },
        ModelKind::SimpleRnn => EngineConfig {
            gates: 1,
            readout_only: true,
            loss: LossKind::CrossEntropy,
            sigmoid_readout: true,
            report_interval: Some(200),
        },
        ModelKind::Gru => EngineConfig {
            gates: 3,
            readout_only: true,
            loss: LossKind::SquaredError,
            sigmoid_readout: false,
            report_interval: Some(100),
        },
        ModelKind::Lstm => EngineConfig {
            gates: 4,
            readout_only: true,
            loss: LossKind::SquaredError,
            sigmoid_readout: false,
            report_interval: Some(100),
        },
    }
}

/// What a fit loop does next: one more full-batch gradient update, or stop.
#[derive(Clone, Copy, Debug, PartialEq, Eq, Structural)]
pub enum FitStep {
    /// Run the forward pass and one gradient update for `epoch`; report the
    /// loss afterwards exactly when `report` holds.
    Update { epoch: usize, report: bool },
    /// The epoch count fixed at construction is exhausted.
    Done,
}

/// Whether the loss is reported at `epoch` under reporting cadence
/// `interval`.
pub open spec fn reports_at(interval: Option<usize>, epoch: usize) -> bool {
    match interval {
        Some(k) => epoch % k == 0,
        None => false,
    }
}

/// The control state of a `fit` loop: a fixed epoch count as the only
/// bound, and the variant's reporting cadence. The numeric work of each
/// epoch happens outside; this schedule decides how often and how long.
pub struct FitSchedule {
    /// The fixed number of full-batch updates.
    pub epochs: usize,
    /// Every how many epochs the loss is reported, if at all.
    pub interval: Option<usize>,
    /// The next epoch to run.
    pub next_epoch: usize,
}

impl FitSchedule {
    /// A schedule that has not run past its bound, with a usable cadence.
    pub open spec fn wf(&self) -> bool {
        &&& self.next_epoch <= self.epochs
        &&& match self.interval {
            Some(k) => k > 0,
            None => true,
        }
    }

    /// A fresh schedule for `epochs` full-batch updates of a `kind` model.
    pub fn new(kind: ModelKind, epochs: usize) -> (s: FitSchedule)
        ensures
            s.wf(),
            s.epochs == epochs,
            s.interval == engine_config_spec(kind).report_interval,
            s.next_epoch == 0,
    {
        let config = engine_config(kind);
        FitSchedule { epochs, interval: config.report_interval, next_epoch: 0 }
    }

    /// Decides the next step: one more update, with its epoch index and
    /// whether to report, until exactly `epochs` updates have been handed
    /// out; `Done` ever after.
    pub fn advance(&mut self) -> (r: FitStep)
        requires
            old(self).wf(),
        ensures
            final(self).wf(),
            final(self).epochs == old(self).epochs,
            final(self).interval == old(self).interval,
            old(self).next_epoch == old(self).epochs ==> r == FitStep::Done
                && final(self).next_epoch == old(self).next_epoch,
            old(self).next_epoch < old(self).epochs ==> r == (FitStep::Update {
                epoch: old(self).next_epoch,
                report: reports_at(old(self).interval, old(self).next_epoch),
            }) && final(self).next_epoch == old(self).next_epoch + 1,
    {
        if self.next_epoch == self.epochs {
            FitStep::Done
        } else {
            let epoch = self.next_epoch;
            self.next_epoch = epoch + 1;
            let report = match self.interval {
                Some(k) => epoch % k == 0,
                None => false,
            };
            FitStep::Update { epoch, report }
        }
    }
}

/// Shapes of the readout parameters: the weight column `W_hy` and the
/// scalar bias, shared by every variant.
pub open spec fn readout_shapes(hidden_size: usize) -> Seq<(usize, usize)> {
    seq![(hidden_size, 1usize), (1usize, 1usize)]
}

/// Shapes of one recurrent gate: input-to-hidden `W`, hidden-to-hidden `U`
/// and the bias row.
pub open spec fn gate_shapes(input_size: usize, hidden_size: usize) -> Seq<(usize, usize)> {
    seq![(input_size, hidden_size), (hidden_size, hidden_size), (1usize, hidden_size)]
}

/// The full parameter-tensor shape list of a variant, fixed for the
/// lifetime of a model instance.
pub open spec fn param_shapes_spec(kind: ModelKind, input_size: usize, hidden_size: usize) -> Seq<
    (usize, usize),
> {
    match kind {
        ModelKind::Linear => seq![(input_size, 1usize), (1usize, 1usize)],
        ModelKind::Feedforward => seq![
            (input_size, hidden_size),
            (1usize, hidden_size),
            (hidden_size, 1usize),
            (1usize, 1usize),
        ],
        ModelKind::SimpleRnn => gate_shapes(input_size, hidden_size) + readout_shapes(hidden_size),
        ModelKind::Gru => gate_shapes(input_size, hidden_size) + gate_shapes(
            input_size,
            hidden_size,
        ) + gate_shapes(input_size, hidden_size) + readout_shapes(hidden_size),
        ModelKind::Lstm => gate_shapes(input_size, hidden_size) + gate_shapes(
            input_size,
            hidden_size,
        ) + gate_shapes(input_size, hidden_size) + gate_shapes(input_size, hidden_size)
            + readout_shapes(hidden_size),
    }
}

/// Appends the three shapes of one recurrent gate.
fn push_gate(shapes: &mut Vec<(usize, usize)>, input_size: usize, hidden_size: usize)
    ensures
        final(shapes)@ == old(shapes)@ + gate_shapes(input_size, hidden_size),
{
    shapes.push((input_size, hidden_size));
    shapes.push((hidden_size, hidden_size));
    shapes.push((1, hidden_size));
    proof {
        assert(shapes@ =~= old(shapes)@ + gate_shapes(input_size, hidden_size));
    }
}

/// Appends the two readout shapes.
fn push_readout(shapes: &mut Vec<(usize, usize)>, hidden_size: usize)
    ensures
        final(shapes)@ == old(shapes)@ + readout_shapes(hidden_size),
{
    shapes.push((hidden_size, 1));
    shapes.push((1, 1));
    proof {
        assert(shapes@ =~= old(shapes)@ + readout_shapes(hidden_size));
    }
}

/// The shape of every parameter tensor a variant owns, in the order the
/// gates are applied: weights and biases sized by `input_size` and
/// `hidden_size`, the output width always one.
pub fn param_shapes(kind: ModelKind, input_size: usize, hidden_size: usize) -> (r: Vec<
    (usize, usize),
>)
    ensures
        r@ == param_shapes_spec(kind, input_size, hidden_size),
{
    let mut shapes: Vec<(usize, usize)> = Vec::new();
    match kind {
        ModelKind::Linear => {
            shapes.push((input_size, 1));
            shapes.push((1, 1));
        },
        ModelKind::Feedforward => {
            shapes.push((input_size, hidden_size));
            shapes.push((1, hidden_size));
            shapes.push((hidden_size, 1));
            shapes.push((1, 1));
        },
        ModelKind::SimpleRnn => {
            push_gate(&mut shapes, input_size, hidden_size);
            push_readout(&mut shapes, hidden_size);
        },
        ModelKind::Gru => {
            push_gate(&mut shapes, input_size, hidden_size);
            push_gate(&mut shapes, input_size, hidden_size);
            push_gate(&mut shapes, input_size, hidden_size);
            push_readout(&mut shapes, hidden_size);
        },
        ModelKind::Lstm => {
            push_gate(&mut shapes, input_size, hidden_size);
            push_gate(&mut shapes, input_size, hidden_size);
            push_gate(&mut shapes, input_size, hidden_size);
            push_gate(&mut shapes, input_size, hidden_size);
            push_readout(&mut shapes, hidden_size);
        },
    }
    proof {
        assert(shapes@ =~= param_shapes_spec(kind, input_size, hidden_size));
    }
    shapes
}

/// The shapes of the parameters `fit` may update: the full list for the
/// fully trained variants, only the readout for the frozen recurrent ones.
pub fn trainable_shapes(kind: ModelKind, input_size: usize, hidden_size: usize) -> (r: Vec<
    (usize, usize),
>)
    ensures
        engine_config_spec(kind).readout_only ==> r@ == readout_shapes(hidden_size),
        !engine_config_spec(kind).readout_only ==> r@ == param_shapes_spec(
            kind,
            input_size,
            hidden_size,
        ),
{
    let config = engine_config(kind);
    if config.readout_only {
        let mut shapes: Vec<(usize, usize)> = Vec::new();
        push_readout(&mut shapes, hidden_size);
        proof {
            assert(shapes@ =~= readout_shapes(hidden_size));
        }
        shapes
    } else {
        param_shapes(kind, input_size, hidden_size)
    }
}

} // verus!
