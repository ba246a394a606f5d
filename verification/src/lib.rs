//! Small supervised-learning engines: the exactly checkable parts.
//!
//! The numeric substrate of the engines (dense floating-point tensors and the
//! gradient updates over them) lives outside this library; what stands here is
//! everything whose behaviour can be stated and proved exactly: dataset
//! shaping (sequence windowing, chronological splits, feature-matrix
//! assembly), hard prediction from probabilities held in fixed-point
//! micro-units, counting metrics as exact rationals, the per-variant
//! configuration data (gates, trainable groups, parameter shapes) shared by
//! the five model kinds, and the control of the fit loop itself (its fixed
//! epoch bound and reporting cadence).

pub mod dataset;
pub mod errors;
pub mod metrics;
pub mod model;
pub mod predict;
