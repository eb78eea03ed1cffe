//! Whole runs: what holds of a `PipelineRun` after any sequence of reports.

use crate::outcome::StageResultView;
use crate::pipeline::{DirectiveView, PipelineRunView, RunState, StageView, empty_run_result};
use vstd::prelude::*;

verus! {

/// The state reached from `start` when `reports` are made in order.
pub open spec fn conduct(start: PipelineRunView, reports: Seq<StageResultView>) -> PipelineRunView
    decreases reports.len(),
{
    if reports.len() == 0 {
        start
    } else {
        conduct(start, reports.drop_last()).reported(reports.last())
    }
}

/// A run of `stages` that was begun and has had no report yet.
pub open spec fn begun_run(stages: Seq<StageView>) -> PipelineRunView {
    PipelineRunView::initial(stages).begun()
}

/// Whether every one of `reports` is a success.
pub open spec fn all_succeed(reports: Seq<StageResultView>) -> bool {
    forall|at: int| 0 <= at < reports.len() ==> (#[trigger] reports[at]) is Success
}

/// The output of the last of `reports`, if there is one.
pub open spec fn last_output(reports: Seq<StageResultView>) -> Option<Seq<char>> {
    if reports.len() == 0 {
        None
    } else {
        Some(reports.last()->Success_output)
    }
}

/// One more report is one more step.
pub proof fn lemma_conduct_push(
    start: PipelineRunView,
    reports: Seq<StageResultView>,
    report: StageResultView,
)
    ensures
        conduct(start, reports.push(report)) == conduct(start, reports).reported(report),
{
    assert(reports.push(report).drop_last() =~= reports);
}

/// Beginning and reporting keep a run well-formed.
pub proof fn lemma_steps_keep_well_formed(run: PipelineRunView, report: StageResultView)
    requires
        run.well_formed(),
    ensures
        run.begun().well_formed(),
        run.reported(report).well_formed(),
{
}

/// A run moves through its stages one by one: from a stage it goes to the
/// stage after it or ends, it never goes back, and once over it stays as it
/// is.
pub proof fn lemma_no_stage_skipped_or_repeated(run: PipelineRunView, report: StageResultView)
    requires
        run.well_formed(),
    ensures
        match run.state {
            RunState::Pending => run.reported(report).state == RunState::Running(0)
                || run.reported(report).state is Succeeded,
            RunState::Running(index) => {
                ||| run.reported(report).state == RunState::Running((index + 1) as usize)
                ||| run.reported(report).state is Failed
                ||| run.reported(report).state is Succeeded
            },
            _ => run.reported(report) == run,
        },
        run.state is Running && report is Failure ==> run.reported(report).state is Failed,
        run.state is Running && report is Success ==> !(run.reported(report).state is Failed),
{
}

/// A run that is over asks for nothing but to finish, whatever is reported
/// to it afterwards: no further command is handed out.
pub proof fn lemma_over_run_stays_over(run: PipelineRunView, reports: Seq<StageResultView>)
    requires
        run.state is Failed || run.state is Succeeded,
    ensures
        conduct(run, reports) == run,
        conduct(run, reports).directive() == DirectiveView::Finish(run.result->0),
    decreases reports.len(),
{
    if reports.len() > 0 {
        lemma_over_run_stays_over(run, reports.drop_last());
    }
}

/// While every stage so far has succeeded and stages are left, the run
/// awaits the next stage in order, and hands out its command with the
/// output of the stage before it, where the stage takes it.
pub proof fn lemma_successes_move_stage_by_stage(
    stages: Seq<StageView>,
    reports: Seq<StageResultView>,
)
    requires
        stages.len() <= usize::MAX,
        reports.len() < stages.len(),
        all_succeed(reports),
    ensures
        conduct(begun_run(stages), reports).stages == stages,
        conduct(begun_run(stages), reports).state == RunState::Running(reports.len() as usize),
        conduct(begun_run(stages), reports).carried == last_output(reports),
        conduct(begun_run(stages), reports).result is None,
        conduct(begun_run(stages), reports).directive() == DirectiveView::Execute(
            stages[reports.len() as int].issued(last_output(reports)),
        ),
    decreases reports.len(),
{
    if reports.len() > 0 {
        let before = reports.drop_last();
        assert(all_succeed(before)) by {
            assert forall|at: int| 0 <= at < before.len() implies (#[trigger] before[at])
                is Success by {
                assert(before[at] == reports[at]);
            }
        }
        lemma_successes_move_stage_by_stage(stages, before);
        assert(reports.last() == reports[reports.len() - 1]);
    }
}

/// The first failure ends the run: when the stages before one have all
/// succeeded and that one fails, the run has failed, its result is that
/// failure under the name of the stage that failed, and nothing reported
/// afterwards makes it hand out another command.
pub proof fn lemma_first_failure_ends_run(
    stages: Seq<StageView>,
    successes: Seq<StageResultView>,
    failure: StageResultView,
    later: Seq<StageResultView>,
)
    requires
        stages.len() <= usize::MAX,
        successes.len() < stages.len(),
        all_succeed(successes),
        failure is Failure,
    ensures
        ({
            let failed = conduct(begun_run(stages), successes.push(failure));
            let marked = failure.annotated(stages[successes.len() as int].name);
            &&& failed.state is Failed
            &&& failed.result == Some(marked)
            &&& conduct(failed, later) == failed
            &&& conduct(failed, later).directive() == DirectiveView::Finish(marked)
        }),
{
    lemma_successes_move_stage_by_stage(stages, successes);
    lemma_conduct_push(begun_run(stages), successes, failure);
    lemma_over_run_stays_over(conduct(begun_run(stages), successes.push(failure)), later);
}

/// When every stage succeeds the run succeeds, and its result is the
/// success of the last stage.
pub proof fn lemma_all_successes_return_last(
    stages: Seq<StageView>,
    reports: Seq<StageResultView>,
)
    requires
        stages.len() <= usize::MAX,
        0 < stages.len(),
        reports.len() == stages.len(),
        all_succeed(reports),
    ensures
        conduct(begun_run(stages), reports).state is Succeeded,
        conduct(begun_run(stages), reports).result == Some(reports.last()),
        conduct(begun_run(stages), reports).directive() == DirectiveView::Finish(reports.last()),
{
    let before = reports.drop_last();
    assert(all_succeed(before)) by {
        assert forall|at: int| 0 <= at < before.len() implies (#[trigger] before[at])
            is Success by {
            assert(before[at] == reports[at]);
        }
    }
    lemma_successes_move_stage_by_stage(stages, before);
    assert(reports.last() == reports[reports.len() - 1]);
}

/// A pipeline without stages succeeds at once, with no output, and hands
/// out no command.
pub proof fn lemma_empty_pipeline_succeeds(stages: Seq<StageView>)
    requires
        stages.len() == 0,
    ensures
        begun_run(stages).state is Succeeded,
        begun_run(stages).directive() == DirectiveView::Finish(empty_run_result()),
{
}

} // verus!
