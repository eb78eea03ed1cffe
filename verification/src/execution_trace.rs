//! Whole executions: what holds of an `Execution` after any sequence of
//! reports, stated over the reports themselves.

use crate::command::StageCommandView;
use crate::execution::{EventView, ExecutionView, exit_is_success};
use crate::outcome::{FailureKind, StageResultView};
use crate::text::{decoded, joined};
use vstd::prelude::*;

verus! {

/// The state reached from `start` when `events` are reported in order.
pub open spec fn run(start: ExecutionView, events: Seq<EventView>) -> ExecutionView
    decreases events.len(),
{
    if events.len() == 0 {
        start
    } else {
        run(start, events.drop_last()).step(events.last())
    }
}

/// Whether each of `events` answers the action that was asked for when it
/// was reported, starting from `start`.
pub open spec fn conforms(start: ExecutionView, events: Seq<EventView>) -> bool
    decreases events.len(),
{
    events.len() == 0 || (conforms(start, events.drop_last()) && run(
        start,
        events.drop_last(),
    ).accepts(events.last()))
}

/// The lines of output among `events`: each line that was reported, once,
/// in the order in which they were reported.
pub open spec fn lines_of(events: Seq<EventView>) -> Seq<Seq<char>>
    decreases events.len(),
{
    if events.len() == 0 {
        Seq::empty()
    } else {
        match events.last() {
            EventView::Line(text) => lines_of(events.drop_last()).push(text),
            _ => lines_of(events.drop_last()),
        }
    }
}

/// The text that a process wrote when `events` were reported of it: its
/// lines in order, each kept apart from the next by a line break.
pub open spec fn output_of(events: Seq<EventView>) -> Seq<char> {
    joined(lines_of(events))
}

/// Reporting one more event is one more step.
pub proof fn lemma_run_push(start: ExecutionView, events: Seq<EventView>, event: EventView)
    ensures
        run(start, events.push(event)) == run(start, events).step(event),
        conforms(start, events.push(event)) == (conforms(start, events) && run(
            start,
            events,
        ).accepts(event)),
{
    assert(events.push(event).drop_last() =~= events);
}

/// A step keeps a state well-formed.
pub proof fn lemma_step_keeps_well_formed(state: ExecutionView, event: EventView)
    requires
        state.well_formed(),
    ensures
        state.step(event).well_formed(),
{
}

/// Whatever is reported, in whatever order, the state stays well-formed.
pub proof fn lemma_run_is_well_formed(command: StageCommandView, events: Seq<EventView>)
    ensures
        run(ExecutionView::initial(command), events).well_formed(),
    decreases events.len(),
{
    if events.len() > 0 {
        lemma_run_is_well_formed(command, events.drop_last());
        lemma_step_keeps_well_formed(
            run(ExecutionView::initial(command), events.drop_last()),
            events.last(),
        );
    }
}

/// The lines held are exactly the lines reported: every line, once, in the
/// order of arrival, empty lines too. The output is their text, with the
/// line breaks between them.
pub proof fn lemma_output_is_lines_reported(command: StageCommandView, events: Seq<EventView>)
    requires
        conforms(ExecutionView::initial(command), events),
    ensures
        run(ExecutionView::initial(command), events).lines == lines_of(events),
        run(ExecutionView::initial(command), events).output() == output_of(events),
    decreases events.len(),
{
    if events.len() > 0 {
        lemma_output_is_lines_reported(command, events.drop_last());
    }
}

/// A successful execution returns the text that the process wrote to its
/// output channel: every line in order, none dropped and none twice, and
/// each two lines kept apart by a line break.
pub proof fn lemma_success_returns_output(command: StageCommandView, events: Seq<EventView>)
    requires
        conforms(ExecutionView::initial(command), events),
        run(ExecutionView::initial(command), events).outcome() matches Some(result)
            && result is Success,
    ensures
        run(ExecutionView::initial(command), events).outcome() == Some(
            StageResultView::Success { output: output_of(events) },
        ),
{
    lemma_output_is_lines_reported(command, events);
}

/// A failed execution keeps the output taken before the failure: its result
/// carries the text of the lines reported until then, line breaks kept.
pub proof fn lemma_failure_keeps_output(command: StageCommandView, events: Seq<EventView>)
    requires
        conforms(ExecutionView::initial(command), events),
        run(ExecutionView::initial(command), events).outcome() matches Some(result)
            && result is Failure,
    ensures
        run(ExecutionView::initial(command), events).outcome()->0->partial_output == output_of(
            events,
        ),
{
    lemma_output_is_lines_reported(command, events);
}

/// When the process exits with anything but success and its error channel
/// holds text, the result is a failure of the external tool whose diagnostic
/// is that text, all of it, beside the output written until then.
pub proof fn lemma_failed_exit_returns_error_text(
    command: StageCommandView,
    events: Seq<EventView>,
    code: Option<i32>,
    errors: Seq<u8>,
)
    requires
        conforms(ExecutionView::initial(command), events),
        run(ExecutionView::initial(command), events).phase is Waiting,
        !exit_is_success(code),
        decoded(errors) is Some,
    ensures
        ({
            let all = events.push(EventView::Exited(code)).push(EventView::ErrorDrained(errors));
            &&& conforms(ExecutionView::initial(command), all)
            &&& run(ExecutionView::initial(command), all).outcome() == Some(
                StageResultView::Failure {
                    kind: FailureKind::ExternalToolError,
                    diagnostic: decoded(errors)->0,
                    partial_output: output_of(events),
                },
            )
        }),
{
    let start = ExecutionView::initial(command);
    let exited = events.push(EventView::Exited(code));
    lemma_output_is_lines_reported(command, events);
    lemma_run_is_well_formed(command, events);
    lemma_run_push(start, events, EventView::Exited(code));
    lemma_run_push(start, exited, EventView::ErrorDrained(errors));
}

/// Two successful executions whose processes wrote the same lines return
/// the same result.
pub proof fn lemma_same_output_same_success(
    first_command: StageCommandView,
    first: Seq<EventView>,
    second_command: StageCommandView,
    second: Seq<EventView>,
)
    requires
        conforms(ExecutionView::initial(first_command), first),
        conforms(ExecutionView::initial(second_command), second),
        run(ExecutionView::initial(first_command), first).outcome() matches Some(result)
            && result is Success,
        run(ExecutionView::initial(second_command), second).outcome() matches Some(result)
            && result is Success,
        lines_of(first) == lines_of(second),
    ensures
        run(ExecutionView::initial(first_command), first).outcome() == run(
            ExecutionView::initial(second_command),
            second,
        ).outcome(),
{
    lemma_success_returns_output(first_command, first);
    lemma_success_returns_output(second_command, second);
}

/// Once the result stands nothing changes it.
pub proof fn lemma_result_is_final(state: ExecutionView, events: Seq<EventView>)
    requires
        state.phase is Done,
    ensures
        run(state, events) == state,
    decreases events.len(),
{
    if events.len() > 0 {
        lemma_result_is_final(state, events.drop_last());
    }
}

/// A process is launched at most once: the launch is asked for only while
/// nothing at all has happened.
pub proof fn lemma_process_launched_once(command: StageCommandView, events: Seq<EventView>)
    ensures
        run(ExecutionView::initial(command), events).action() is Spawn ==> run(
            ExecutionView::initial(command),
            events,
        ) == ExecutionView::initial(command),
    decreases events.len(),
{
    if events.len() > 0 {
        lemma_process_launched_once(command, events.drop_last());
    }
}

/// The reports up to, and not including, the one at index `at`.
pub open spec fn before_report(events: Seq<EventView>, at: int) -> Seq<EventView> {
    events.take(at)
}

/// The driver is never asked to wait for the writer, for the exit or for
/// the error channel while output may still arrive: before any of these is
/// asked for, the end of the output channel was reported at a moment when
/// output was being read, and so was taken. A process that writes while it
/// still reads is therefore always being read from.
pub proof fn lemma_output_ends_before_waiting(command: StageCommandView, events: Seq<EventView>)
    ensures
        ({
            let action = run(ExecutionView::initial(command), events).action();
            action is JoinWriter || action is Wait || action is ReadError
        }) ==> exists|at: int|
            0 <= at < events.len() && events[at] == EventView::OutputClosed && run(
                ExecutionView::initial(command),
                #[trigger] before_report(events, at),
            ).phase is Draining,
    decreases events.len(),
{
    let start = ExecutionView::initial(command);
    let action = run(start, events).action();
    if events.len() > 0 && (action is JoinWriter || action is Wait || action is ReadError) {
        let before = events.drop_last();
        let prior = run(start, before).action();
        lemma_output_ends_before_waiting(command, before);
        if prior is JoinWriter || prior is Wait || prior is ReadError {
            let at = choose|at: int|
                0 <= at < before.len() && before[at] == EventView::OutputClosed && run(
                    start,
                    #[trigger] before_report(before, at),
                ).phase is Draining;
            assert(before_report(events, at) =~= before_report(before, at));
            assert(events[at] == EventView::OutputClosed);
        } else {
            let at = events.len() - 1;
            assert(before_report(events, at) =~= before);
            assert(events[at] == EventView::OutputClosed);
        }
    }
}

/// A finished execution awaits no process any more: none was launched, or
/// its exit was seen, or its termination was reported to have failed. The
/// error channel is read only once the exit of the process was seen, and a
/// success is returned only for a process whose exit was seen.
pub proof fn lemma_finished_execution_awaits_no_process(
    command: StageCommandView,
    events: Seq<EventView>,
)
    ensures
        ({
            let state = run(ExecutionView::initial(command), events);
            &&& state.action() is Finish ==> !(state.process is Running)
            &&& state.action() is ReadError ==> state.process is Collected
            &&& (state.outcome() is Some && state.outcome()->0 is Success) ==> state.process
                is Collected
        }),
{
    lemma_run_is_well_formed(command, events);
}

/// A process is given up only when its termination was reported to have
/// failed: as long as no action is reported as failed, every process that
/// was launched has had its exit seen by the time the execution is done.
pub proof fn lemma_process_given_up_only_after_failure(
    command: StageCommandView,
    events: Seq<EventView>,
)
    ensures
        run(ExecutionView::initial(command), events).process is Abandoned ==> exists|at: int|
            0 <= at < events.len() && (#[trigger] events[at]) is IoFailed,
    decreases events.len(),
{
    if events.len() > 0 {
        let before = events.drop_last();
        lemma_process_given_up_only_after_failure(command, before);
        if run(ExecutionView::initial(command), before).process is Abandoned {
            let at = choose|at: int| 0 <= at < before.len() && (#[trigger] before[at]) is IoFailed;
            assert(events[at] is IoFailed);
        } else if run(ExecutionView::initial(command), events).process is Abandoned {
            assert(events[events.len() - 1] is IoFailed);
        }
    }
}

} // verus!
