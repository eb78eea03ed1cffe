//! The result of running one stage.

use vstd::prelude::*;

verus! {

/// Why a stage did not succeed.
#[derive(Clone, Copy, Debug, PartialEq, Eq, Structural)]
pub enum FailureKind {
    /// The external process could not be started.
    SpawnError,
    /// A channel to the process failed while it was running.
    IoError,
    /// The process ran and reported failure through its exit status.
    ExternalToolError,
    /// Bytes that should have been text were not.
    EncodingError,
    /// The process outlived its deadline and was terminated.
    Timeout,
}

/// What one stage produced: its captured output, or a classified failure
/// with its diagnostic and whatever output had been captured until then.
#[derive(Debug, PartialEq, Eq)]
pub enum StageResult {
    Success { output: String },
    Failure { kind: FailureKind, diagnostic: String, partial_output: String },
}

/// The mathematical value of a `StageResult`.
pub enum StageResultView {
    Success { output: Seq<char> },
    Failure { kind: FailureKind, diagnostic: Seq<char>, partial_output: Seq<char> },
}

impl View for StageResult {
    type V = StageResultView;

    open spec fn view(&self) -> StageResultView {
        match self {
            StageResult::Success { output } => StageResultView::Success { output: output@ },
            StageResult::Failure { kind, diagnostic, partial_output } => StageResultView::Failure {
                kind: *kind,
                diagnostic: diagnostic@,
                partial_output: partial_output@,
            },
        }
    }
}

/// The text put between a stage's name and the diagnostic it wraps.
pub open spec fn name_separator() -> Seq<char> {
    ": "@
}

impl StageResultView {
    /// The same result as reported for the stage called `stage`: a failure
    /// keeps its kind and output and has the stage's name put in front of its
    /// diagnostic; a success is unchanged.
    pub open spec fn annotated(self, stage: Seq<char>) -> StageResultView {
        match self {
            StageResultView::Success { .. } => self,
            StageResultView::Failure { kind, diagnostic, partial_output } => StageResultView::Failure {
                kind,
                diagnostic: stage + name_separator() + diagnostic,
                partial_output,
            },
        }
    }
}

impl Clone for StageResult {
    fn clone(&self) -> (copy: StageResult)
        ensures
            copy@ == self@,
    {
        match self {
            StageResult::Success { output } => StageResult::Success { output: output.clone() },
            StageResult::Failure { kind, diagnostic, partial_output } => StageResult::Failure {
                kind: *kind,
                diagnostic: diagnostic.clone(),
                partial_output: partial_output.clone(),
            },
        }
    }
}

impl StageResult {
    /// Whether the stage succeeded.
    pub fn is_success(&self) -> (yes: bool)
        ensures
            yes == (self@ is Success),
    {
        match self {
            StageResult::Success { .. } => true,
            StageResult::Failure { .. } => false,
        }
    }

    /// Marks a failure with the name of the stage it came from.
    pub fn annotate(self, stage: &str) -> (marked: StageResult)
        ensures
            marked@ == self@.annotated(stage@),
    {
        match self {
            StageResult::Success { output } => StageResult::Success { output },
            StageResult::Failure { kind, diagnostic, partial_output } => {
                let mut text = String::from_str(stage);
                text.append(": ");
                text.append(diagnostic.as_str());
                StageResult::Failure { kind, diagnostic: text, partial_output }
            },
        }
    }
}

} // verus!
