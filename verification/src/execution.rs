//! Running one external command.
//!
//! An `Execution` follows one invocation from launch to result. It asks for
//! one action at a time and takes back one report of what happened. It does
//! nothing itself: the driver launches the process, moves the bytes and awaits
//! the exit. The order of the requests is what keeps the process and the
//! driver from waiting on each other: output is read to its end while the
//! input is being written by a separate writer, the writer is joined and the
//! exit awaited only after that, and the error channel is read last.

use crate::command::{StageCommand, StageCommandView, texts};
use crate::outcome::{FailureKind, StageResult, StageResultView};
use crate::text::{decode, decoded, join_lines, joined};
use vstd::prelude::*;

verus! {

/// How far an execution has come.
#[derive(Clone, Copy, Debug, PartialEq, Eq, Structural)]
pub enum Phase {
    /// The process is to be launched.
    Spawning,
    /// The process runs; its input channel is to be served.
    Feeding,
    /// Output is read, line by line.
    Draining,
    /// Output has ended; the writer of the input is awaited.
    Joining,
    /// The exit of the process is awaited.
    Waiting,
    /// The process failed; its error channel is read.
    Diagnosing,
    /// Something went wrong while the process ran; it is terminated.
    TearingDown,
    /// The result stands.
    Done,
}

/// What the driver is asked to do next.
#[derive(Clone, Copy, Debug, PartialEq, Eq, Structural)]
pub enum Action {
    /// Launch the process in its directory, with channels of its own for
    /// input, output and errors.
    Spawn,
    /// Hand the input payload to a writer that runs on its own and closes the
    /// channel when it is through. Do not wait for it.
    StartWriter,
    /// Close the input channel: there is nothing to deliver.
    CloseInput,
    /// Await the next line of output.
    ReadLine,
    /// Await the end of the writer.
    JoinWriter,
    /// Await the exit of the process.
    Wait,
    /// Read the error channel to its end.
    ReadError,
    /// Terminate the process, stop the writer and await the exit.
    Kill,
    /// Nothing more: take the result.
    Finish,
}

/// What is known of the external process.
#[derive(Clone, Copy, Debug, PartialEq, Eq, Structural)]
pub enum ProcessStatus {
    /// None was launched.
    Absent,
    /// Launched, and its exit not yet seen.
    Running,
    /// Its exit was seen: it is gone and accounted for.
    Collected,
    /// It was to be terminated, and that failed.
    Abandoned,
}

/// What the driver reports back.
#[derive(Debug, PartialEq, Eq)]
pub enum Event {
    /// The process was launched.
    Spawned,
    /// The process could not be launched.
    SpawnFailed(String),
    /// The writer was started, or the input channel closed.
    InputReady,
    /// One line of output, without the line break that ended it.
    Line(String),
    /// The output channel has ended.
    OutputClosed,
    /// Output arrived that is not text.
    Undecodable(String),
    /// The writer delivered all of the input and closed the channel.
    WriterDone,
    /// The process exited, with its exit code if it has one.
    Exited(Option<i32>),
    /// The error channel was read to its end.
    ErrorDrained(Vec<u8>),
    /// The process has no error channel.
    ErrorMissing,
    /// The process was terminated and its exit seen.
    Reaped,
    /// The requested action failed on a channel or on the process.
    IoFailed(String),
    /// The deadline of the invocation has passed.
    DeadlineExpired,
}

/// The mathematical value of an `Event`.
pub enum EventView {
    Spawned,
    SpawnFailed(Seq<char>),
    InputReady,
    Line(Seq<char>),
    OutputClosed,
    Undecodable(Seq<char>),
    WriterDone,
    Exited(Option<i32>),
    ErrorDrained(Seq<u8>),
    ErrorMissing,
    Reaped,
    IoFailed(Seq<char>),
    DeadlineExpired,
}

impl View for Event {
    type V = EventView;

    open spec fn view(&self) -> EventView {
        match self {
            Event::Spawned => EventView::Spawned,
            Event::SpawnFailed(description) => EventView::SpawnFailed(description@),
            Event::InputReady => EventView::InputReady,
            Event::Line(text) => EventView::Line(text@),
            Event::OutputClosed => EventView::OutputClosed,
            Event::Undecodable(description) => EventView::Undecodable(description@),
            Event::WriterDone => EventView::WriterDone,
            Event::Exited(code) => EventView::Exited(*code),
            Event::ErrorDrained(bytes) => EventView::ErrorDrained(bytes@),
            Event::ErrorMissing => EventView::ErrorMissing,
            Event::Reaped => EventView::Reaped,
            Event::IoFailed(description) => EventView::IoFailed(description@),
            Event::DeadlineExpired => EventView::DeadlineExpired,
        }
    }
}

/// The diagnostic of a process that failed and has no error channel.
pub open spec fn no_diagnostic_text() -> Seq<char> {
    "no diagnostic available"@
}

/// The diagnostic of a process whose error channel did not hold text.
pub open spec fn unreadable_diagnostic_text() -> Seq<char> {
    "failed to parse stderr"@
}

/// The diagnostic of a process that outlived its deadline.
pub open spec fn deadline_text() -> Seq<char> {
    "deadline exceeded"@
}

/// An exit is a success when the exit code is zero. A process that ended
/// without an exit code did not succeed.
pub open spec fn exit_is_success(code: Option<i32>) -> bool {
    code == Some(0i32)
}

/// The mathematical value of an `Execution`.
pub struct ExecutionView {
    /// The command that is being run.
    pub command: StageCommandView,
    pub phase: Phase,
    pub process: ProcessStatus,
    /// The lines of output taken so far, in the order of their arrival.
    pub lines: Seq<Seq<char>>,
    /// The failure that decides the result, once there is one.
    pub failure: Option<(FailureKind, Seq<char>)>,
}

impl ExecutionView {
    /// The execution of `command` before anything was done.
    pub open spec fn initial(command: StageCommandView) -> ExecutionView {
        ExecutionView {
            command,
            phase: Phase::Spawning,
            process: ProcessStatus::Absent,
            lines: Seq::empty(),
            failure: None,
        }
    }

    /// The output taken so far as one text: the lines in their order, with
    /// a line break between each two.
    pub open spec fn output(self) -> Seq<char> {
        joined(self.lines)
    }

    /// Whether the command comes with text for the input channel.
    pub open spec fn has_input(self) -> bool {
        self.command.input is Some
    }

    /// What holds of every execution: the phase, what is known of the
    /// process and the recorded failure fit together. In particular a
    /// finished execution awaits no process, and a process is only given up
    /// after a failure.
    pub open spec fn well_formed(self) -> bool {
        match self.phase {
            Phase::Spawning => self.process is Absent && self.failure is None,
            Phase::Feeding | Phase::Draining | Phase::Waiting => self.process is Running
                && self.failure is None,
            Phase::Joining => self.process is Running && self.failure is None
                && self.has_input(),
            Phase::Diagnosing => self.process is Collected && self.failure is None,
            Phase::TearingDown => self.process is Running && self.failure is Some,
            Phase::Done => !(self.process is Running) && (self.failure is None
                ==> self.process is Collected),
        }
    }

    /// The action asked of the driver in this state.
    pub open spec fn action(self) -> Action {
        match self.phase {
            Phase::Spawning => Action::Spawn,
            Phase::Feeding => if self.has_input() {
                Action::StartWriter
            } else {
                Action::CloseInput
            },
            Phase::Draining => Action::ReadLine,
            Phase::Joining => Action::JoinWriter,
            Phase::Waiting => Action::Wait,
            Phase::Diagnosing => Action::ReadError,
            Phase::TearingDown => Action::Kill,
            Phase::Done => Action::Finish,
        }
    }

    /// Whether `event` is a report that the action of this state can end in.
    pub open spec fn accepts(self, event: EventView) -> bool {
        match self.phase {
            Phase::Spawning => event is Spawned || event is SpawnFailed || event is DeadlineExpired,
            Phase::Feeding => event is InputReady || event is IoFailed || event is DeadlineExpired,
            Phase::Draining => event is Line || event is OutputClosed || event is Undecodable
                || event is IoFailed || event is DeadlineExpired,
            Phase::Joining => event is WriterDone || event is IoFailed || event is DeadlineExpired,
            Phase::Waiting => event is Exited || event is IoFailed || event is DeadlineExpired,
            Phase::Diagnosing => event is ErrorDrained || event is ErrorMissing || event is IoFailed
                || event is DeadlineExpired,
            Phase::TearingDown => event is Reaped || event is IoFailed,
            Phase::Done => false,
        }
    }

    /// This execution with a failure recorded. With no process running the
    /// failure is the result at once; a running process is terminated first.
    pub open spec fn failed(self, kind: FailureKind, diagnostic: Seq<char>) -> ExecutionView {
        ExecutionView {
            phase: if self.process is Running {
                Phase::TearingDown
            } else {
                Phase::Done
            },
            failure: Some((kind, diagnostic)),
            ..self
        }
    }

    /// The state after `event` was reported. A report that the current
    /// action cannot end in changes nothing.
    pub open spec fn step(self, event: EventView) -> ExecutionView {
        if !self.accepts(event) {
            self
        } else {
            match event {
                EventView::Spawned => ExecutionView {
                    phase: Phase::Feeding,
                    process: ProcessStatus::Running,
                    ..self
                },
                EventView::SpawnFailed(description) => self.failed(
                    FailureKind::SpawnError,
                    description,
                ),
                EventView::InputReady => ExecutionView { phase: Phase::Draining, ..self },
                EventView::Line(text) => ExecutionView { lines: self.lines.push(text), ..self },
                EventView::OutputClosed => ExecutionView {
                    phase: if self.has_input() {
                        Phase::Joining
                    } else {
                        Phase::Waiting
                    },
                    ..self
                },
                EventView::Undecodable(description) => self.failed(
                    FailureKind::EncodingError,
                    description,
                ),
                EventView::WriterDone => ExecutionView { phase: Phase::Waiting, ..self },
                EventView::Exited(code) => ExecutionView {
                    phase: if exit_is_success(code) {
                        Phase::Done
                    } else {
                        Phase::Diagnosing
                    },
                    process: ProcessStatus::Collected,
                    ..self
                },
                EventView::ErrorDrained(bytes) => match decoded(bytes) {
                    Some(text) => self.failed(FailureKind::ExternalToolError, text),
                    None => self.failed(FailureKind::EncodingError, unreadable_diagnostic_text()),
                },
                EventView::ErrorMissing => self.failed(
                    FailureKind::ExternalToolError,
                    no_diagnostic_text(),
                ),
                EventView::Reaped => ExecutionView {
                    phase: Phase::Done,
                    process: ProcessStatus::Collected,
                    ..self
                },
                EventView::IoFailed(description) => if self.phase is TearingDown {
                    ExecutionView { phase: Phase::Done, process: ProcessStatus::Abandoned, ..self }
                } else {
                    self.failed(FailureKind::IoError, description)
                },
                EventView::DeadlineExpired => self.failed(FailureKind::Timeout, deadline_text()),
            }
        }
    }

    /// The result, once the execution is done: the recorded failure with the
    /// output taken until then, or else that output as a success. Either
    /// way the output is the text of the lines taken, line breaks kept.
    pub open spec fn outcome(self) -> Option<StageResultView> {
        if self.phase is Done {
            Some(
                match self.failure {
                    Some((kind, diagnostic)) => StageResultView::Failure {
                        kind,
                        diagnostic,
                        partial_output: self.output(),
                    },
                    None => StageResultView::Success { output: self.output() },
                },
            )
        } else {
            None
        }
    }
}

/// One invocation of an external command, from launch to result.
#[derive(Debug)]
pub struct Execution {
    command: StageCommand,
    phase: Phase,
    process: ProcessStatus,
    lines: Vec<String>,
    failure: Option<(FailureKind, String)>,
}

impl View for Execution {
    type V = ExecutionView;

    closed spec fn view(&self) -> ExecutionView {
        ExecutionView {
            command: self.command@,
            phase: self.phase,
            process: self.process,
            lines: texts(self.lines@),
            failure: match self.failure {
                Some((kind, diagnostic)) => Some((kind, diagnostic@)),
                None => None,
            },
        }
    }
}

impl Execution {
    #[verifier::type_invariant]
    spec fn sound(self) -> bool {
        self@.well_formed()
    }

    /// Begins the execution of `command`. Nothing has happened yet: the
    /// first action asked for is the launch.
    pub fn start(command: StageCommand) -> (execution: Execution)
        ensures
            execution@ == ExecutionView::initial(command@),
    {
        let lines: Vec<String> = Vec::new();
        assert(texts(lines@) =~= Seq::<Seq<char>>::empty());
        Execution {
            command,
            phase: Phase::Spawning,
            process: ProcessStatus::Absent,
            lines,
            failure: None,
        }
    }

    /// The command that is being run: what to launch, and the text for the
    /// writer of the input.
    pub fn command(&self) -> (command: &StageCommand)
        ensures
            command@ == self@.command,
    {
        &self.command
    }

    /// The action the driver is to carry out now.
    pub fn action(&self) -> (action: Action)
        ensures
            action == self@.action(),
    {
        match self.phase {
            Phase::Spawning => Action::Spawn,
            Phase::Feeding => if self.command.has_input() {
                Action::StartWriter
            } else {
                Action::CloseInput
            },
            Phase::Draining => Action::ReadLine,
            Phase::Joining => Action::JoinWriter,
            Phase::Waiting => Action::Wait,
            Phase::Diagnosing => Action::ReadError,
            Phase::TearingDown => Action::Kill,
            Phase::Done => Action::Finish,
        }
    }

    /// Records a failure and decides whether the process has to be
    /// terminated before the result can stand.
    fn fail(self, kind: FailureKind, diagnostic: String) -> (next: Execution)
        requires
            !(self@.phase is TearingDown),
            !(self@.phase is Done),
        ensures
            next@ == self@.failed(kind, diagnostic@),
    {
        proof {
            use_type_invariant(&self);
        }
        let Execution { command, phase: _, process, lines, failure: _ } = self;
        let phase = match process {
            ProcessStatus::Running => Phase::TearingDown,
            _ => Phase::Done,
        };
        Execution { command, phase, process, lines, failure: Some((kind, diagnostic)) }
    }

    /// Moves to `phase`, with the process in state `process`.
    fn proceed(self, phase: Phase, process: ProcessStatus) -> (next: Execution)
        requires
            (ExecutionView { phase, process, ..self@ }).well_formed(),
        ensures
            next@ == (ExecutionView { phase, process, ..self@ }),
    {
        let Execution { command, phase: _, process: _, lines, failure } = self;
        Execution { command, phase, process, lines, failure }
    }

    /// Takes the report of what the last action ended in, and moves on.
    /// A report that does not answer the action asked for is ignored.
    pub fn step(self, event: Event) -> (next: Execution)
        ensures
            next@ == self@.step(event@),
    {
        proof {
            use_type_invariant(&self);
        }
        match self.phase {
            Phase::Spawning => match event {
                Event::Spawned => self.proceed(Phase::Feeding, ProcessStatus::Running),
                Event::SpawnFailed(description) => self.fail(FailureKind::SpawnError, description),
                Event::DeadlineExpired => self.expire(),
                _ => self,
            },
            Phase::Feeding => match event {
                Event::InputReady => self.proceed(Phase::Draining, ProcessStatus::Running),
                Event::IoFailed(description) => self.fail(FailureKind::IoError, description),
                Event::DeadlineExpired => self.expire(),
                _ => self,
            },
            Phase::Draining => match event {
                Event::Line(text) => self.take_line(text),
                Event::OutputClosed => if self.command.has_input() {
                    self.proceed(Phase::Joining, ProcessStatus::Running)
                } else {
                    self.proceed(Phase::Waiting, ProcessStatus::Running)
                },
                Event::Undecodable(description) => self.fail(
                    FailureKind::EncodingError,
                    description,
                ),
                Event::IoFailed(description) => self.fail(FailureKind::IoError, description),
                Event::DeadlineExpired => self.expire(),
                _ => self,
            },
            Phase::Joining => match event {
                Event::WriterDone => self.proceed(Phase::Waiting, ProcessStatus::Running),
                Event::IoFailed(description) => self.fail(FailureKind::IoError, description),
                Event::DeadlineExpired => self.expire(),
                _ => self,
            },
            Phase::Waiting => match event {
                Event::Exited(code) => match code {
                    Some(0) => self.proceed(Phase::Done, ProcessStatus::Collected),
                    _ => self.proceed(Phase::Diagnosing, ProcessStatus::Collected),
                },
                Event::IoFailed(description) => self.fail(FailureKind::IoError, description),
                Event::DeadlineExpired => self.expire(),
                _ => self,
            },
            Phase::Diagnosing => match event {
                Event::ErrorDrained(bytes) => match decode(bytes) {
                    Some(text) => self.fail(FailureKind::ExternalToolError, text),
                    None => self.fail(
                        FailureKind::EncodingError,
                        String::from_str("failed to parse stderr"),
                    ),
                },
                Event::ErrorMissing => self.fail(
                    FailureKind::ExternalToolError,
                    String::from_str("no diagnostic available"),
                ),
                Event::IoFailed(description) => self.fail(FailureKind::IoError, description),
                Event::DeadlineExpired => self.expire(),
                _ => self,
            },
            Phase::TearingDown => match event {
                Event::Reaped => self.proceed(Phase::Done, ProcessStatus::Collected),
                Event::IoFailed(_) => self.proceed(Phase::Done, ProcessStatus::Abandoned),
                _ => self,
            },
            Phase::Done => self,
        }
    }

    /// Records that the deadline has passed.
    fn expire(self) -> (next: Execution)
        requires
            !(self@.phase is TearingDown),
            !(self@.phase is Done),
        ensures
            next@ == self@.failed(FailureKind::Timeout, deadline_text()),
    {
        self.fail(FailureKind::Timeout, String::from_str("deadline exceeded"))
    }

    /// Takes one more line of output, after those taken so far.
    fn take_line(self, text: String) -> (next: Execution)
        requires
            self@.phase is Draining,
        ensures
            next@ == (ExecutionView { lines: self@.lines.push(text@), ..self@ }),
    {
        proof {
            use_type_invariant(&self);
        }
        let Execution { command, phase, process, lines, failure } = self;
        let ghost before = lines@;
        let mut lines = lines;
        lines.push(text);
        assert(texts(lines@) =~= texts(before).push(text@));
        Execution { command, phase, process, lines, failure }
    }

    /// Whether the result stands.
    pub fn is_done(&self) -> (done: bool)
        ensures
            done == (self@.phase is Done),
            done == (self@.outcome() is Some),
    {
        match self.phase {
            Phase::Done => true,
            _ => false,
        }
    }

    /// How far the execution has come.
    pub fn phase(&self) -> (phase: Phase)
        ensures
            phase == self@.phase,
    {
        self.phase
    }

    /// What is known of the process. Once the execution is done no process
    /// is awaited any more: none was launched, or its exit was seen, or it
    /// was given up after a failure because it could not be terminated.
    pub fn process(&self) -> (process: ProcessStatus)
        ensures
            process == self@.process,
            self@.phase is Done ==> !(process is Running),
            self@.phase is Done && process is Abandoned ==> self@.failure is Some,
    {
        proof {
            use_type_invariant(self);
        }
        self.process
    }

    /// The lines of output taken so far, in the order of their arrival.
    pub fn lines(&self) -> (lines: &Vec<String>)
        ensures
            texts(lines@) == self@.lines,
    {
        &self.lines
    }

    /// The output taken so far as one text: the lines in their order, with
    /// a line break between each two.
    pub fn output(&self) -> (output: String)
        ensures
            output@ == self@.output(),
    {
        join_lines(&self.lines)
    }

    /// The result, once the execution is done, and `None` before.
    pub fn result(&self) -> (result: Option<StageResult>)
        ensures
            match result {
                Some(result) => self@.outcome() == Some(result@),
                None => self@.outcome() is None,
            },
    {
        match self.phase {
            Phase::Done => Some(
                match &self.failure {
                    Some((kind, diagnostic)) => StageResult::Failure {
                        kind: *kind,
                        diagnostic: diagnostic.clone(),
                        partial_output: join_lines(&self.lines),
                    },
                    None => StageResult::Success { output: join_lines(&self.lines) },
                },
            ),
            _ => None,
        }
    }
}

} // verus!
