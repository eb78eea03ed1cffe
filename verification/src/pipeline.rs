//! Sequencing stages.
//!
//! A `PipelineRun` walks a pipeline stage by stage. It hands out one command
//! at a time and takes back the result of running it. The first failure ends
//! the run; the output of a stage becomes the input of the next one where the
//! next one is declared to take it.

use crate::command::{StageCommand, StageCommandView};
use crate::outcome::{StageResult, StageResultView};
use vstd::prelude::*;

verus! {

/// One step of a pipeline: a name to report failures under, the command to
/// run, and whether the command takes the previous stage's output as its
/// input in place of its own.
#[derive(Debug, PartialEq, Eq)]
pub struct Stage {
    name: String,
    command: StageCommand,
    consumes_previous: bool,
}

/// The mathematical value of a `Stage`.
pub struct StageView {
    pub name: Seq<char>,
    pub command: StageCommandView,
    pub consumes_previous: bool,
}

impl View for Stage {
    type V = StageView;

    closed spec fn view(&self) -> StageView {
        StageView {
            name: self.name@,
            command: self.command@,
            consumes_previous: self.consumes_previous,
        }
    }
}

impl StageView {
    /// The command that is run for this stage when `carried` is the output
    /// of the stage before it, if there was one. A stage that does not take
    /// the previous output, or has none to take, runs as it was configured.
    pub open spec fn issued(self, carried: Option<Seq<char>>) -> StageCommandView {
        match carried {
            Some(output) => if self.consumes_previous {
                self.command.with_input(output)
            } else {
                self.command
            },
            None => self.command,
        }
    }
}

impl Clone for Stage {
    fn clone(&self) -> (copy: Stage)
        ensures
            copy@ == self@,
    {
        Stage {
            name: self.name.clone(),
            command: self.command.clone(),
            consumes_previous: self.consumes_previous,
        }
    }
}

impl Stage {
    /// Builds a stage.
    pub fn new(name: String, command: StageCommand, consumes_previous: bool) -> (stage: Stage)
        ensures
            stage@ == (StageView { name: name@, command: command@, consumes_previous }),
    {
        Stage { name, command, consumes_previous }
    }

    /// The name failures of this stage are reported under.
    pub fn name(&self) -> (name: &str)
        ensures
            name@ == self@.name,
    {
        self.name.as_str()
    }

    /// The command as configured.
    pub fn command(&self) -> (command: &StageCommand)
        ensures
            command@ == self@.command,
    {
        &self.command
    }

    /// Whether this stage takes the previous stage's output as its input.
    pub fn consumes_previous(&self) -> (yes: bool)
        ensures
            yes == self@.consumes_previous,
    {
        self.consumes_previous
    }

    /// The command to run for this stage, given the output of the stage
    /// before it.
    pub fn issue(&self, carried: &Option<String>) -> (command: StageCommand)
        ensures
            command@ == self@.issued(
                match *carried {
                    Some(output) => Some(output@),
                    None => None,
                },
            ),
    {
        let command = self.command.clone();
        match carried {
            Some(output) => if self.consumes_previous {
                command.with_input(output.clone())
            } else {
                command
            },
            None => command,
        }
    }
}

/// The values of a list of stages, in order.
pub open spec fn stage_views(stages: Seq<Stage>) -> Seq<StageView> {
    stages.map_values(|stage: Stage| stage@)
}

/// An ordered list of stages.
#[derive(Debug, PartialEq, Eq)]
pub struct Pipeline {
    stages: Vec<Stage>,
}

impl View for Pipeline {
    type V = Seq<StageView>;

    closed spec fn view(&self) -> Seq<StageView> {
        stage_views(self.stages@)
    }
}

impl Pipeline {
    /// The pipeline that runs `stages` in their order.
    pub fn new(stages: Vec<Stage>) -> (pipeline: Pipeline)
        ensures
            pipeline@ == stage_views(stages@),
    {
        Pipeline { stages }
    }

    /// The number of stages.
    pub fn len(&self) -> (len: usize)
        ensures
            len == self@.len(),
    {
        self.stages.len()
    }

    /// The stages, in order.
    pub fn stages(&self) -> (stages: &Vec<Stage>)
        ensures
            stage_views(stages@) == self@,
    {
        &self.stages
    }

    /// Gives up the pipeline for its stages.
    pub fn into_stages(self) -> (stages: Vec<Stage>)
        ensures
            stage_views(stages@) == self@,
    {
        self.stages
    }
}

/// Where a run stands.
#[derive(Clone, Copy, Debug, PartialEq, Eq, Structural)]
pub enum RunState {
    /// Nothing was handed out yet.
    Pending,
    /// The stage with this index was handed out and its result is awaited.
    Running(usize),
    /// A stage failed. The run is over.
    Failed,
    /// Every stage succeeded. The run is over.
    Succeeded,
}

/// What the driver of a run is asked to do next.
#[derive(Debug, PartialEq, Eq)]
pub enum Directive {
    /// Run this command and report its result.
    Execute(StageCommand),
    /// The run is over, with this result.
    Finish(StageResult),
}

/// The mathematical value of a `Directive`.
pub enum DirectiveView {
    Execute(StageCommandView),
    Finish(StageResultView),
}

impl View for Directive {
    type V = DirectiveView;

    open spec fn view(&self) -> DirectiveView {
        match self {
            Directive::Execute(command) => DirectiveView::Execute(command@),
            Directive::Finish(result) => DirectiveView::Finish(result@),
        }
    }
}

/// The result of a pipeline without stages: a success with no output.
pub open spec fn empty_run_result() -> StageResultView {
    StageResultView::Success { output: Seq::empty() }
}

/// The mathematical value of a `PipelineRun`.
pub struct PipelineRunView {
    pub stages: Seq<StageView>,
    pub state: RunState,
    /// The output of the last stage that succeeded.
    pub carried: Option<Seq<char>>,
    /// The result of the run, once it is over.
    pub result: Option<StageResultView>,
}

impl PipelineRunView {
    /// A run of `stages` before anything was handed out.
    pub open spec fn initial(stages: Seq<StageView>) -> PipelineRunView {
        PipelineRunView { stages, state: RunState::Pending, carried: None, result: None }
    }

    /// What holds of every run: the stages can be counted, a stage that is
    /// awaited exists, a run that is over has its result, and a result is a
    /// failure exactly when the run has failed.
    pub open spec fn well_formed(self) -> bool {
        &&& self.stages.len() <= usize::MAX
        &&& match self.state {
            RunState::Pending => self.carried is None && self.result is None,
            RunState::Running(index) => index < self.stages.len() && self.result is None && (index
                == 0 ==> self.carried is None),
            RunState::Failed => self.result is Some && self.result->0 is Failure,
            RunState::Succeeded => self.result is Some && self.result->0 is Success,
        }
    }

    /// The run after its beginning: the first stage is awaited, or, without
    /// stages, the run is over and has succeeded. A run that was begun is
    /// left as it is.
    pub open spec fn begun(self) -> PipelineRunView {
        match self.state {
            RunState::Pending => if self.stages.len() == 0 {
                PipelineRunView {
                    state: RunState::Succeeded,
                    result: Some(empty_run_result()),
                    ..self
                }
            } else {
                PipelineRunView { state: RunState::Running(0), ..self }
            },
            _ => self,
        }
    }

    /// The run after `result` was reported for the stage that is awaited.
    /// A success moves on to the next stage and carries its output along, or
    /// ends the run after the last stage. A failure ends the run at once,
    /// marked with the name of the stage. A report to a run that is over
    /// changes nothing; a report to a run that was not begun begins it.
    pub open spec fn reported(self, result: StageResultView) -> PipelineRunView {
        match self.state {
            RunState::Pending => self.begun(),
            RunState::Running(index) => match result {
                StageResultView::Success { output } => if index + 1 < self.stages.len() {
                    PipelineRunView {
                        state: RunState::Running((index + 1) as usize),
                        carried: Some(output),
                        ..self
                    }
                } else {
                    PipelineRunView {
                        state: RunState::Succeeded,
                        carried: Some(output),
                        result: Some(result),
                        ..self
                    }
                },
                StageResultView::Failure { .. } => PipelineRunView {
                    state: RunState::Failed,
                    result: Some(result.annotated(self.stages[index as int].name)),
                    ..self
                },
            },
            _ => self,
        }
    }

    /// What the driver is asked to do in a run that was begun: run the stage
    /// that is awaited, with the carried output as its input where the stage
    /// takes it, or finish with the result.
    pub open spec fn asked(self) -> DirectiveView {
        match self.state {
            RunState::Running(index) => DirectiveView::Execute(
                self.stages[index as int].issued(self.carried),
            ),
            _ => DirectiveView::Finish(self.result->0),
        }
    }

    /// What the driver is asked to do in this state. Before the beginning
    /// it is what the beginning asks for.
    pub open spec fn directive(self) -> DirectiveView {
        self.begun().asked()
    }
}

/// One run of a pipeline.
pub struct PipelineRun {
    stages: Vec<Stage>,
    state: RunState,
    carried: Option<String>,
    result: Option<StageResult>,
}

impl View for PipelineRun {
    type V = PipelineRunView;

    closed spec fn view(&self) -> PipelineRunView {
        PipelineRunView {
            stages: stage_views(self.stages@),
            state: self.state,
            carried: match self.carried {
                Some(output) => Some(output@),
                None => None,
            },
            result: match self.result {
                Some(result) => Some(result@),
                None => None,
            },
        }
    }
}

impl PipelineRun {
    #[verifier::type_invariant]
    spec fn sound(self) -> bool {
        self@.well_formed()
    }

    /// A run of `pipeline` with nothing handed out yet.
    pub fn new(pipeline: Pipeline) -> (run: PipelineRun)
        ensures
            run@ == PipelineRunView::initial(pipeline@),
    {
        let stages = pipeline.into_stages();
        assert(stage_views(stages@).len() == stages.len());
        PipelineRun { stages, state: RunState::Pending, carried: None, result: None }
    }

    /// Where the run stands.
    pub fn state(&self) -> (state: RunState)
        ensures
            state == self@.state,
    {
        self.state
    }

    /// What is asked of the driver in a run that was begun.
    fn directive(&self) -> (directive: Directive)
        requires
            !(self@.state is Pending),
        ensures
            directive@ == self@.directive(),
    {
        proof {
            use_type_invariant(self);
        }
        match self.state {
            RunState::Running(index) => {
                Directive::Execute(self.stages[index].issue(&self.carried))
            },
            _ => match &self.result {
                Some(result) => Directive::Finish(result.clone()),
                None => Directive::Finish(StageResult::Success { output: String::new() }),
            },
        }
    }

    /// Begins the run: hands out the first stage, or finishes at once when
    /// there is none. On a run that was begun this only repeats what is
    /// asked for.
    pub fn begin(self) -> (next: (PipelineRun, Directive))
        ensures
            next.0@ == self@.begun(),
            next.1@ == self@.begun().directive(),
    {
        proof {
            use_type_invariant(&self);
        }
        let PipelineRun { stages, state, carried, result } = self;
        let run = match state {
            RunState::Pending => if stages.len() == 0 {
                PipelineRun {
                    stages,
                    state: RunState::Succeeded,
                    carried,
                    result: Some(StageResult::Success { output: String::new() }),
                }
            } else {
                PipelineRun { stages, state: RunState::Running(0), carried, result }
            },
            _ => PipelineRun { stages, state, carried, result },
        };
        let directive = run.directive();
        (run, directive)
    }

    /// Takes the result of the stage that was handed out and says what to
    /// do next.
    pub fn report(self, result: StageResult) -> (next: (PipelineRun, Directive))
        ensures
            next.0@ == self@.reported(result@),
            next.1@ == self@.reported(result@).directive(),
    {
        proof {
            use_type_invariant(&self);
        }
        match self.state {
            RunState::Pending => self.begin(),
            RunState::Running(index) => {
                assert(self@.stages.len() == self.stages@.len());
                let PipelineRun { stages, state: _, carried, result: _ } = self;
                let run = match result {
                    StageResult::Success { output } => if index + 1 < stages.len() {
                        PipelineRun {
                            stages,
                            state: RunState::Running(index + 1),
                            carried: Some(output),
                            result: None,
                        }
                    } else {
                        PipelineRun {
                            stages,
                            state: RunState::Succeeded,
                            carried: Some(output.clone()),
                            result: Some(StageResult::Success { output }),
                        }
                    },
                    StageResult::Failure { kind, diagnostic, partial_output } => {
                        let failure = StageResult::Failure { kind, diagnostic, partial_output };
                        let marked = failure.annotate(stages[index].name());
                        PipelineRun {
                            stages,
                            state: RunState::Failed,
                            carried,
                            result: Some(marked),
                        }
                    },
                };
                let directive = run.directive();
                (run, directive)
            },
            _ => {
                let directive = self.directive();
                (self, directive)
            },
        }
    }
}

/// Whether running the stages of `stages` from index `from` on can end in
/// `result`, when `carried` is the output of the stage before and each
/// command is run by `execute`: some run of the stage at `from` fails and
/// `result` is that failure under the stage's name, or it succeeds and the
/// rest can end in `result` with the new output carried along, or it
/// succeeds as the last stage and `result` is its success.
pub open spec fn may_end_in<F: Fn(StageCommand) -> StageResult>(
    execute: F,
    stages: Seq<StageView>,
    from: int,
    carried: Option<Seq<char>>,
    result: StageResultView,
) -> bool
    decreases stages.len() - from,
{
    if 0 <= from < stages.len() {
        exists|command: StageCommand, report: StageResult|
            {
                &&& command@ == #[trigger] stages[from].issued(carried)
                &&& #[trigger] call_ensures(execute, (command,), report)
                &&& match report@ {
                    StageResultView::Failure { .. } => result == report@.annotated(
                        stages[from].name,
                    ),
                    StageResultView::Success { output } => if from + 1 < stages.len() {
                        may_end_in(execute, stages, from + 1, Some(output), result)
                    } else {
                        result == report@
                    },
                }
            }
    } else {
        false
    }
}

/// Whether a whole run of `stages` can end in `result` when each command is
/// run by `execute`. Without stages the run succeeds with no output.
pub open spec fn run_may_end_in<F: Fn(StageCommand) -> StageResult>(
    execute: F,
    stages: Seq<StageView>,
    result: StageResultView,
) -> bool {
    if stages.len() == 0 {
        result == empty_run_result()
    } else {
        may_end_in(execute, stages, 0, None, result)
    }
}

/// Runs `pipeline`, each command by `execute`, one stage after the other.
/// The first failure ends the run and is returned under the name of its
/// stage; otherwise the success of the last stage is returned.
///
/// The contract fixes the result from what the calls of `execute` return.
/// It cannot count those calls. That a command is handed out once for each
/// stage reached, and none after a failure, is what `PipelineRun` states,
/// whose directives this loop follows.
pub fn run_pipeline<F: Fn(StageCommand) -> StageResult>(pipeline: Pipeline, execute: F) -> (result:
    StageResult)
    requires
        forall|command: StageCommand| call_requires(execute, (command,)),
    ensures
        run_may_end_in(execute, pipeline@, result@),
{
    let ghost stages = pipeline@;
    let begun = PipelineRun::new(pipeline).begin();
    let mut run = begun.0;
    let mut directive = begun.1;
    proof {
        use_type_invariant(&run);
    }
    loop
        invariant
            stages == pipeline@,
            run@.stages == stages,
            run@.well_formed(),
            !(run@.state is Pending),
            directive@ == run@.directive(),
            forall|command: StageCommand| call_requires(execute, (command,)),
            run@.state matches RunState::Running(index) ==> forall|end: StageResultView|
                may_end_in(execute, stages, index as int, run@.carried, end) ==> may_end_in(
                    execute,
                    stages,
                    0,
                    None,
                    end,
                ),
            run@.state is Failed || run@.state is Succeeded ==> run_may_end_in(
                execute,
                stages,
                run@.result->0,
            ),
        decreases
                (match run@.state {
                    RunState::Running(index) => stages.len() - index,
                    _ => 0,
                }),
    {
        match directive {
            Directive::Finish(result) => {
                return result;
            },
            Directive::Execute(command) => {
                let ghost before = run@;
                let ghost issued = command;
                let report = execute(command);
                let next = run.report(report);
                run = next.0;
                directive = next.1;
                proof {
                    use_type_invariant(&run);
                    let index = before.state->Running_0 as int;
                    assert(issued@ == stages[index].issued(before.carried));
                    assert(call_ensures(execute, (issued,), report));
                    assert forall|end: StageResultView|
                        (match report@ {
                            StageResultView::Failure { .. } => end == report@.annotated(
                                stages[index].name,
                            ),
                            StageResultView::Success { output } => if index + 1 < stages.len() {
                                may_end_in(execute, stages, index + 1, Some(output), end)
                            } else {
                                end == report@
                            },
                        }) implies may_end_in(execute, stages, 0, None, end) by {
                        assert(may_end_in(execute, stages, index, before.carried, end));
                    }
                }
            },
        }
    }
}

} // verus!
