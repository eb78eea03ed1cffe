use prover_pipeline::command::StageCommand;
use prover_pipeline::execution::{Action, Event, Execution, Phase, ProcessStatus};
use prover_pipeline::outcome::{FailureKind, StageResult};
use prover_pipeline::text::{decode, join_lines};

fn command(program: &str, args: &[&str], input: Option<&str>) -> StageCommand {
    StageCommand::new(
        program.to_string(),
        args.iter().map(|arg| arg.to_string()).collect(),
        ".".to_string(),
        input.map(|payload| payload.to_string()),
    )
}

fn feed(start: Execution, events: Vec<Event>) -> Execution {
    let mut execution = start;
    for event in events {
        execution = execution.step(event);
    }
    execution
}

fn failure(kind: FailureKind, diagnostic: &str, partial_output: &str) -> StageResult {
    StageResult::Failure {
        kind,
        diagnostic: diagnostic.to_string(),
        partial_output: partial_output.to_string(),
    }
}

#[test]
fn echo_hello_succeeds_with_its_line() {
    let execution = Execution::start(command("echo", &["hello"], None));
    assert_eq!(execution.command(), &command("echo", &["hello"], None));
    assert_eq!(execution.action(), Action::Spawn);
    let execution = execution.step(Event::Spawned);
    assert_eq!(execution.action(), Action::CloseInput);
    let execution = execution.step(Event::InputReady);
    assert_eq!(execution.action(), Action::ReadLine);
    let execution = execution.step(Event::Line("hello".to_string()));
    assert_eq!(execution.action(), Action::ReadLine);
    let execution = execution.step(Event::OutputClosed);
    assert_eq!(execution.action(), Action::Wait);
    let execution = execution.step(Event::Exited(Some(0)));
    assert_eq!(execution.action(), Action::Finish);
    assert!(execution.is_done());
    assert_eq!(execution.result(), Some(StageResult::Success { output: "hello".to_string() }));
    assert_eq!(execution.process(), ProcessStatus::Collected);
}

#[test]
fn false_fails_with_empty_diagnostic() {
    let execution = feed(
        Execution::start(command("false", &[], None)),
        vec![Event::Spawned, Event::InputReady, Event::OutputClosed, Event::Exited(Some(1))],
    );
    assert_eq!(execution.action(), Action::ReadError);
    assert_eq!(execution.result(), None);
    let execution = execution.step(Event::ErrorDrained(Vec::new()));
    assert_eq!(execution.action(), Action::Finish);
    assert_eq!(execution.result(), Some(failure(FailureKind::ExternalToolError, "", "")));
}

#[test]
fn missing_program_is_a_spawn_error() {
    let execution = Execution::start(command("nonexistent-binary-xyz", &[], None));
    let execution = execution.step(Event::SpawnFailed("No such file or directory".to_string()));
    assert!(execution.is_done());
    assert_eq!(execution.process(), ProcessStatus::Absent);
    assert_eq!(
        execution.result(),
        Some(failure(FailureKind::SpawnError, "No such file or directory", "")),
    );
}

#[test]
fn lines_are_kept_apart_and_in_order() {
    let execution = feed(
        Execution::start(command("printf", &["a\\nb\\n\\nc\\n"], None)),
        vec![
            Event::Spawned,
            Event::InputReady,
            Event::Line("a".to_string()),
            Event::Line("b".to_string()),
            Event::Line("".to_string()),
            Event::Line("c".to_string()),
        ],
    );
    assert_eq!(
        execution.lines(),
        &vec!["a".to_string(), "b".to_string(), String::new(), "c".to_string()],
    );
    assert_eq!(execution.output(), "a\nb\n\nc");
    let execution = feed(execution, vec![Event::OutputClosed, Event::Exited(Some(0))]);
    assert_eq!(execution.result(), Some(StageResult::Success { output: "a\nb\n\nc".to_string() }));
}

#[test]
fn two_lines_come_back_as_two_lines() {
    let execution = feed(
        Execution::start(command("sh", &["-c", "printf 'a\\nb\\n'"], None)),
        vec![
            Event::Spawned,
            Event::InputReady,
            Event::Line("a".to_string()),
            Event::Line("b".to_string()),
            Event::OutputClosed,
            Event::Exited(Some(0)),
        ],
    );
    let result = execution.result();
    assert_eq!(result, Some(StageResult::Success { output: "a\nb".to_string() }));
    assert_ne!(result, Some(StageResult::Success { output: "ab".to_string() }));
    match result {
        Some(StageResult::Success { output }) => {
            assert_eq!(output.lines().collect::<Vec<&str>>(), vec!["a", "b"]);
        }
        _ => panic!("the execution succeeded"),
    }
}

#[test]
fn an_empty_line_between_two_lines_is_kept() {
    let execution = feed(
        Execution::start(command("tool", &[], None)),
        vec![
            Event::Spawned,
            Event::InputReady,
            Event::Line("a".to_string()),
            Event::Line(String::new()),
            Event::Line("b".to_string()),
            Event::OutputClosed,
            Event::Exited(Some(0)),
        ],
    );
    assert_eq!(execution.result(), Some(StageResult::Success { output: "a\n\nb".to_string() }));
}

#[test]
fn no_output_and_one_empty_line_are_both_the_empty_text() {
    let silent = feed(
        Execution::start(command("true", &[], None)),
        vec![Event::Spawned, Event::InputReady, Event::OutputClosed, Event::Exited(Some(0))],
    );
    assert_eq!(silent.result(), Some(StageResult::Success { output: String::new() }));
    let blank = feed(
        Execution::start(command("echo", &[], None)),
        vec![
            Event::Spawned,
            Event::InputReady,
            Event::Line(String::new()),
            Event::OutputClosed,
            Event::Exited(Some(0)),
        ],
    );
    assert_eq!(blank.lines(), &vec![String::new()]);
    assert_eq!(blank.result(), Some(StageResult::Success { output: String::new() }));
}

#[test]
fn join_lines_puts_one_break_between_each_two_lines() {
    assert_eq!(join_lines(&Vec::new()), "");
    assert_eq!(join_lines(&vec!["only".to_string()]), "only");
    assert_eq!(join_lines(&vec!["a".to_string(), "b".to_string()]), "a\nb");
    assert_eq!(
        join_lines(&vec![String::new(), "a".to_string(), String::new(), String::new()]),
        "\na\n\n",
    );
}

#[test]
fn input_is_written_beside_the_reading_and_joined_after_it() {
    let execution = Execution::start(command("cat", &[], Some("payload")));
    let execution = execution.step(Event::Spawned);
    assert_eq!(execution.action(), Action::StartWriter);
    let execution = execution.step(Event::InputReady);
    assert_eq!(execution.action(), Action::ReadLine);
    let execution = execution.step(Event::Line("payload".to_string()));
    assert_eq!(execution.action(), Action::ReadLine);
    let execution = execution.step(Event::OutputClosed);
    assert_eq!(execution.action(), Action::JoinWriter);
    let execution = execution.step(Event::WriterDone);
    assert_eq!(execution.action(), Action::Wait);
    let execution = execution.step(Event::Exited(Some(0)));
    assert_eq!(execution.result(), Some(StageResult::Success { output: "payload".to_string() }));
}

#[test]
fn writer_is_never_joined_while_output_is_open() {
    let mut execution = feed(
        Execution::start(command("cat", &[], Some("payload"))),
        vec![Event::Spawned, Event::InputReady],
    );
    for round in 0..1000 {
        execution = execution.step(Event::WriterDone);
        assert_eq!(execution.action(), Action::ReadLine);
        execution = execution.step(Event::Line(format!("{}", round)));
        assert_eq!(execution.action(), Action::ReadLine);
    }
    assert_eq!(execution.phase(), Phase::Draining);
}

#[test]
fn a_payload_far_larger_than_a_pipe_is_read_back_whole() {
    let line = "x".repeat(64 * 1024 - 1);
    let payload = vec![line.clone(); 160].join("\n");
    assert_eq!(payload.len(), 10 * 1024 * 1024 - 1);
    let mut execution = feed(
        Execution::start(command("cat", &[], Some(&payload))),
        vec![Event::Spawned, Event::InputReady],
    );
    for _ in 0..160 {
        assert_eq!(execution.action(), Action::ReadLine);
        execution = execution.step(Event::Line(line.clone()));
    }
    let execution = feed(
        execution,
        vec![Event::OutputClosed, Event::WriterDone, Event::Exited(Some(0))],
    );
    assert_eq!(execution.result(), Some(StageResult::Success { output: payload }));
}

#[test]
fn the_launch_is_asked_for_only_once() {
    let execution = Execution::start(command("tool", &[], None));
    assert_eq!(execution.action(), Action::Spawn);
    let mut execution = execution.step(Event::Spawned);
    let later = vec![
        Event::Spawned,
        Event::InputReady,
        Event::Spawned,
        Event::OutputClosed,
        Event::Spawned,
        Event::Exited(Some(0)),
        Event::Spawned,
    ];
    for event in later {
        assert_ne!(execution.action(), Action::Spawn);
        execution = execution.step(event);
    }
    assert_eq!(execution.action(), Action::Finish);
}

#[test]
fn failed_exit_returns_the_whole_error_text() {
    let text = "error: image not found\nhint: pull it first\n";
    let execution = feed(
        Execution::start(command("podman", &["run"], None)),
        vec![
            Event::Spawned,
            Event::InputReady,
            Event::Line("starting".to_string()),
            Event::Line("pulling".to_string()),
            Event::OutputClosed,
            Event::Exited(Some(125)),
            Event::ErrorDrained(text.as_bytes().to_vec()),
        ],
    );
    assert_eq!(
        execution.result(),
        Some(failure(FailureKind::ExternalToolError, text, "starting\npulling")),
    );
    assert_eq!(execution.process(), ProcessStatus::Collected);
}

#[test]
fn exit_without_a_code_is_a_failure() {
    let execution = feed(
        Execution::start(command("sleep", &["100"], None)),
        vec![Event::Spawned, Event::InputReady, Event::OutputClosed, Event::Exited(None)],
    );
    assert_eq!(execution.action(), Action::ReadError);
    let execution = execution.step(Event::ErrorDrained(b"killed".to_vec()));
    assert_eq!(execution.result(), Some(failure(FailureKind::ExternalToolError, "killed", "")));
}

#[test]
fn negative_exit_code_is_a_failure() {
    let execution = feed(
        Execution::start(command("tool", &[], None)),
        vec![Event::Spawned, Event::InputReady, Event::OutputClosed, Event::Exited(Some(-1))],
    );
    assert_eq!(execution.phase(), Phase::Diagnosing);
}

#[test]
fn error_text_that_is_not_text_is_an_encoding_error() {
    let execution = feed(
        Execution::start(command("tool", &[], None)),
        vec![
            Event::Spawned,
            Event::InputReady,
            Event::Line("partial".to_string()),
            Event::OutputClosed,
            Event::Exited(Some(2)),
            Event::ErrorDrained(vec![0x66, 0x6f, 0xff, 0x6f]),
        ],
    );
    assert_eq!(
        execution.result(),
        Some(failure(FailureKind::EncodingError, "failed to parse stderr", "partial")),
    );
}

#[test]
fn absent_error_channel_gives_the_stock_diagnostic() {
    let execution = feed(
        Execution::start(command("tool", &[], None)),
        vec![
            Event::Spawned,
            Event::InputReady,
            Event::OutputClosed,
            Event::Exited(Some(1)),
            Event::ErrorMissing,
        ],
    );
    assert_eq!(
        execution.result(),
        Some(failure(FailureKind::ExternalToolError, "no diagnostic available", "")),
    );
}

#[test]
fn output_that_is_not_text_is_an_encoding_error_after_teardown() {
    let execution = feed(
        Execution::start(command("tool", &[], None)),
        vec![
            Event::Spawned,
            Event::InputReady,
            Event::Line("good".to_string()),
            Event::Undecodable("stream did not contain valid UTF-8".to_string()),
        ],
    );
    assert_eq!(execution.action(), Action::Kill);
    assert_eq!(execution.result(), None);
    let execution = execution.step(Event::Reaped);
    assert_eq!(
        execution.result(),
        Some(failure(FailureKind::EncodingError, "stream did not contain valid UTF-8", "good")),
    );
    assert_eq!(execution.process(), ProcessStatus::Collected);
}

#[test]
fn read_failure_is_an_io_error_and_keeps_partial_output() {
    let execution = feed(
        Execution::start(command("tool", &[], None)),
        vec![
            Event::Spawned,
            Event::InputReady,
            Event::Line("one".to_string()),
            Event::Line("two".to_string()),
            Event::IoFailed("connection reset".to_string()),
        ],
    );
    assert_eq!(execution.phase(), Phase::TearingDown);
    assert_eq!(execution.process(), ProcessStatus::Running);
    let execution = execution.step(Event::Reaped);
    assert_eq!(
        execution.result(),
        Some(failure(FailureKind::IoError, "connection reset", "one\ntwo")),
    );
}

#[test]
fn writer_failure_is_an_io_error() {
    let execution = feed(
        Execution::start(command("head", &["-c", "1"], Some("a long payload"))),
        vec![
            Event::Spawned,
            Event::InputReady,
            Event::Line("a".to_string()),
            Event::OutputClosed,
            Event::IoFailed("Broken pipe".to_string()),
        ],
    );
    assert_eq!(execution.action(), Action::Kill);
    let execution = execution.step(Event::Reaped);
    assert_eq!(execution.result(), Some(failure(FailureKind::IoError, "Broken pipe", "a")));
}

#[test]
fn missing_input_channel_is_an_io_error() {
    let execution = feed(
        Execution::start(command("tool", &[], Some("payload"))),
        vec![Event::Spawned, Event::IoFailed("failed to open stdin".to_string())],
    );
    assert_eq!(execution.action(), Action::Kill);
    let execution = execution.step(Event::Reaped);
    assert_eq!(execution.result(), Some(failure(FailureKind::IoError, "failed to open stdin", "")));
}

#[test]
fn wait_failure_is_an_io_error() {
    let execution = feed(
        Execution::start(command("tool", &[], None)),
        vec![
            Event::Spawned,
            Event::InputReady,
            Event::OutputClosed,
            Event::IoFailed("no child processes".to_string()),
            Event::Reaped,
        ],
    );
    assert_eq!(execution.result(), Some(failure(FailureKind::IoError, "no child processes", "")));
}

#[test]
fn error_channel_failure_after_exit_ends_at_once() {
    let execution = feed(
        Execution::start(command("tool", &[], None)),
        vec![
            Event::Spawned,
            Event::InputReady,
            Event::OutputClosed,
            Event::Exited(Some(3)),
            Event::IoFailed("read failed".to_string()),
        ],
    );
    assert!(execution.is_done());
    assert_eq!(execution.process(), ProcessStatus::Collected);
    assert_eq!(execution.result(), Some(failure(FailureKind::IoError, "read failed", "")));
}

#[test]
fn deadline_while_draining_kills_then_reports_timeout() {
    let execution = feed(
        Execution::start(command("yes", &[], None)),
        vec![
            Event::Spawned,
            Event::InputReady,
            Event::Line("y".to_string()),
            Event::Line("y".to_string()),
            Event::DeadlineExpired,
        ],
    );
    assert_eq!(execution.action(), Action::Kill);
    assert_eq!(execution.result(), None);
    let execution = execution.step(Event::Reaped);
    assert_eq!(execution.result(), Some(failure(FailureKind::Timeout, "deadline exceeded", "y\ny")));
    assert_eq!(execution.process(), ProcessStatus::Collected);
}

#[test]
fn deadline_before_the_launch_ends_without_a_process() {
    let execution = Execution::start(command("tool", &[], None)).step(Event::DeadlineExpired);
    assert!(execution.is_done());
    assert_eq!(execution.process(), ProcessStatus::Absent);
    assert_eq!(execution.result(), Some(failure(FailureKind::Timeout, "deadline exceeded", "")));
}

#[test]
fn deadline_in_every_running_phase_leads_to_teardown() {
    let traces: Vec<Vec<Event>> = vec![
        vec![Event::Spawned],
        vec![Event::Spawned, Event::InputReady],
        vec![Event::Spawned, Event::InputReady, Event::OutputClosed],
        vec![Event::Spawned, Event::InputReady, Event::OutputClosed, Event::WriterDone],
    ];
    for trace in traces {
        let execution = feed(Execution::start(command("tool", &[], Some("in"))), trace);
        assert_eq!(execution.process(), ProcessStatus::Running);
        let execution = execution.step(Event::DeadlineExpired);
        assert_eq!(execution.action(), Action::Kill);
        let execution = execution.step(Event::Reaped);
        assert_eq!(
            execution.result(),
            Some(failure(FailureKind::Timeout, "deadline exceeded", "")),
        );
    }
}

#[test]
fn deadline_while_reading_errors_ends_at_once() {
    let execution = feed(
        Execution::start(command("tool", &[], None)),
        vec![
            Event::Spawned,
            Event::InputReady,
            Event::OutputClosed,
            Event::Exited(Some(1)),
            Event::DeadlineExpired,
        ],
    );
    assert!(execution.is_done());
    assert_eq!(execution.result(), Some(failure(FailureKind::Timeout, "deadline exceeded", "")));
}

#[test]
fn failed_teardown_gives_the_process_up_and_keeps_the_first_failure() {
    let execution = feed(
        Execution::start(command("tool", &[], None)),
        vec![
            Event::Spawned,
            Event::InputReady,
            Event::DeadlineExpired,
            Event::IoFailed("operation not permitted".to_string()),
        ],
    );
    assert!(execution.is_done());
    assert_eq!(execution.process(), ProcessStatus::Abandoned);
    assert_eq!(execution.result(), Some(failure(FailureKind::Timeout, "deadline exceeded", "")));
}

#[test]
fn reports_that_answer_nothing_are_ignored() {
    let execution = Execution::start(command("tool", &[], None));
    let execution = feed(
        execution,
        vec![
            Event::Line("early".to_string()),
            Event::OutputClosed,
            Event::Exited(Some(0)),
            Event::Reaped,
            Event::IoFailed("early".to_string()),
        ],
    );
    assert_eq!(execution.phase(), Phase::Spawning);
    assert_eq!(execution.output(), "");
    let execution = feed(execution, vec![Event::Spawned, Event::InputReady]);
    let execution = feed(
        execution,
        vec![Event::Spawned, Event::WriterDone, Event::Exited(Some(0)), Event::ErrorMissing],
    );
    assert_eq!(execution.phase(), Phase::Draining);
}

#[test]
fn a_result_that_stands_does_not_change() {
    let execution = feed(
        Execution::start(command("echo", &["hello"], None)),
        vec![
            Event::Spawned,
            Event::InputReady,
            Event::Line("hello".to_string()),
            Event::OutputClosed,
            Event::Exited(Some(0)),
        ],
    );
    let execution = feed(
        execution,
        vec![
            Event::Line("more".to_string()),
            Event::DeadlineExpired,
            Event::IoFailed("late".to_string()),
            Event::Exited(Some(1)),
        ],
    );
    assert_eq!(execution.action(), Action::Finish);
    assert_eq!(execution.result(), Some(StageResult::Success { output: "hello".to_string() }));
}

#[test]
fn the_same_reports_give_the_same_result() {
    let trace = || {
        vec![
            Event::Spawned,
            Event::InputReady,
            Event::Line("proof".to_string()),
            Event::OutputClosed,
            Event::WriterDone,
            Event::Exited(Some(0)),
        ]
    };
    let stage = command("podman", &["run", "-i", "--rm", "prover"], Some("{}"));
    let first = feed(Execution::start(stage.clone()), trace());
    let second = feed(Execution::start(stage.clone()), trace());
    assert_eq!(first.result(), Some(StageResult::Success { output: "proof".to_string() }));
    assert_eq!(first.result(), second.result());
}

#[test]
fn decode_reads_text_and_refuses_what_is_not() {
    assert_eq!(decode("héllo — ok".as_bytes().to_vec()), Some("héllo — ok".to_string()));
    assert_eq!(decode(vec![0xe2, 0x82, 0xac]), Some("€".to_string()));
    assert_eq!(decode(Vec::new()), Some(String::new()));
    assert_eq!(decode(vec![0xc3, 0x28]), None);
    assert_eq!(decode(vec![0xe2, 0x82]), None);
    assert_eq!(decode(vec![0xed, 0xa0, 0x80]), None);
}
