//! Running external pipeline stages: how one external command is launched,
//! fed and drained, how its exit is turned into a result, and how stages are
//! sequenced into a pipeline that stops at the first failure.
//!
//! The library decides; it performs no I/O itself. A driver carries out each
//! requested action and reports what happened.

pub mod command;
pub mod execution;
pub mod execution_trace;
pub mod outcome;
pub mod pipeline;
pub mod pipeline_trace;
pub mod prover;
pub mod text;

pub use crate::command::StageCommand;
pub use crate::execution::{Action, Event, Execution, Phase, ProcessStatus};
pub use crate::outcome::{FailureKind, StageResult};
pub use crate::pipeline::{run_pipeline, Directive, Pipeline, PipelineRun, RunState, Stage};
pub use crate::prover::Prover;
