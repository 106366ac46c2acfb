use cyclone::error::{ChildStream, QualificationCheckError};
use cyclone::frames::LineReader;
use cyclone::lang_server::DecodeError;
use cyclone::protocol::{
    FunctionResult, Message, OutputStream, QualificationCheckResultSuccess,
};
use cyclone::qualification_check::{
    child_send_function_request, child_shutdown, command_for, execute, read_request, ws_close,
    ws_send, Aborted, DeliveryPending, Frame, Inbound, ProcessStep, Pulled,
    QualificationCheckServerExecutionClosing, QualificationCheckServerExecutionStarted,
    RequestPending, SendOutcome, ShutdownReport, Signal, SpawnFailure, SpawnOutcome,
    SpawnPending, TX_TIMEOUT_SECS,
};
use cyclone::schema::{Key, SchemaError};

const REQUEST: &str = "{\"executionId\":\"e1\",\"handler\":\"check\",\"codeBase64\":\"Zm9v\"}";

const OUTPUT_A: &str = "{\"protocol\":\"output\",\"executionId\":\"e1\",\"stream\":\"stdout\",\
                        \"level\":\"info\",\"message\":\"A\"}";

const OUTPUT_B: &str = "{\"protocol\":\"output\",\"executionId\":\"e1\",\"stream\":\"stderr\",\
                        \"level\":\"warn\",\"group\":\"g\",\"message\":\"B\",\"data\":[1]}";

const SUCCESS: &str = "{\"protocol\":\"result\",\"status\":\"success\",\"executionId\":\"e1\",\
                       \"qualified\":true,\"message\":\"ok\"}";

fn awaiting_request() -> RequestPending {
    let (pending, _) = execute("/usr/local/bin/lang-js".to_string(), false).start();
    pending.acknowledged(SendOutcome::Sent).expect("the greeting was sent")
}

fn awaiting_spawn() -> SpawnPending {
    let (pending, _) = awaiting_request()
        .received(Inbound::Text(REQUEST.to_string()))
        .expect("a request");
    pending
}

fn awaiting_delivery() -> DeliveryPending<u32> {
    let (pending, _) = awaiting_spawn()
        .spawned(SpawnOutcome::Spawned { worker: 7u32, stdin: true, stdout: true })
        .expect("a worker");
    pending
}

fn started() -> QualificationCheckServerExecutionStarted<u32> {
    awaiting_delivery().delivered(SendOutcome::Sent).expect("the request was delivered")
}

fn closing() -> QualificationCheckServerExecutionClosing<u32> {
    match started().process_at(Pulled::End, 0) {
        ProcessStep::Finished(closing) => closing,
        other => panic!("expected the end of the phase, got {:?}", other),
    }
}

fn forward(
    started: QualificationCheckServerExecutionStarted<u32>,
    line: &str,
    seconds: i64,
    frames: &mut Vec<Frame>,
) -> QualificationCheckServerExecutionStarted<u32> {
    match started.process_at(Pulled::Line(line.as_bytes().to_vec()), seconds) {
        ProcessStep::Forward(pending, frame) => {
            frames.push(frame);
            pending.forwarded(SendOutcome::Sent).expect("the message was sent")
        }
        other => panic!("expected a message, got {:?}", other),
    }
}

fn output(stream: &str, level: &str, group: Option<&str>, message: &str, timestamp: u64) -> OutputStream {
    OutputStream {
        execution_id: "e1".to_string(),
        stream: stream.to_string(),
        level: level.to_string(),
        group: group.map(|g| g.to_string()),
        message: message.to_string(),
        data: None,
        timestamp,
    }
}

fn aborted_with(step: ProcessStep<u32>) -> QualificationCheckError {
    match step {
        ProcessStep::Aborted(Aborted { error, .. }) => error,
        other => panic!("expected an aborted phase, got {:?}", other),
    }
}

fn report(
    finished: SendOutcome,
    closed: Result<(), String>,
    shutdown: Result<(), String>,
) -> ShutdownReport {
    closing().finish(finished, closed, shutdown)
}

fn send_failed() -> SendOutcome {
    SendOutcome::Failed("broken pipe".to_string())
}

fn close_failed() -> Result<(), String> {
    Err("close refused".to_string())
}

fn shutdown_failed() -> Result<(), String> {
    Err("exited with 1".to_string())
}

fn send_error() -> QualificationCheckError {
    QualificationCheckError::WSSendIO("broken pipe".to_string())
}

fn close_error() -> QualificationCheckError {
    QualificationCheckError::WSClose("close refused".to_string())
}

fn shutdown_error() -> QualificationCheckError {
    QualificationCheckError::ChildShutdown("exited with 1".to_string())
}

#[test]
fn the_deadline_of_a_send_is_two_seconds() {
    assert_eq!(TX_TIMEOUT_SECS, 2);
}

#[test]
fn an_execution_begins_with_start() {
    let (_, frame) = execute("/bin/worker".to_string(), false).start();
    assert_eq!(frame.message, Message::Start);
    assert_eq!(frame.text, "{\"protocol\":\"start\"}");
    assert_eq!(frame.deadline_secs, 2);
}

#[test]
fn a_greeting_that_does_not_arrive_ends_the_execution() {
    let (pending, _) = execute("/bin/worker".to_string(), false).start();
    assert_eq!(
        pending.acknowledged(SendOutcome::TimedOut).unwrap_err(),
        QualificationCheckError::SendTimeout
    );
    let (pending, _) = execute("/bin/worker".to_string(), false).start();
    assert_eq!(
        pending.acknowledged(SendOutcome::Failed("reset".to_string())).unwrap_err(),
        QualificationCheckError::WSSendIO("reset".to_string())
    );
}

#[test]
fn send_outcomes_map_to_errors() {
    assert_eq!(ws_send(SendOutcome::Sent), Ok(()));
    assert_eq!(ws_send(SendOutcome::TimedOut), Err(QualificationCheckError::SendTimeout));
    assert_eq!(
        ws_send(SendOutcome::Failed("x".to_string())),
        Err(QualificationCheckError::WSSendIO("x".to_string()))
    );
    assert_eq!(child_send_function_request(SendOutcome::Sent), Ok(()));
    assert_eq!(
        child_send_function_request(SendOutcome::TimedOut),
        Err(QualificationCheckError::SendTimeout)
    );
    assert_eq!(
        child_send_function_request(SendOutcome::Failed("x".to_string())),
        Err(QualificationCheckError::ChildSendIO("x".to_string()))
    );
    assert_eq!(ws_close(Ok(())), Ok(()));
    assert_eq!(
        ws_close(Err("x".to_string())),
        Err(QualificationCheckError::WSClose("x".to_string()))
    );
    assert_eq!(child_shutdown(Ok(())), Ok(()));
    assert_eq!(
        child_shutdown(Err("x".to_string())),
        Err(QualificationCheckError::ChildShutdown("x".to_string()))
    );
}

#[test]
fn only_a_text_frame_holds_a_request() {
    let request = read_request(Inbound::Text(REQUEST.to_string())).expect("a request");
    assert_eq!(request.execution_id, "e1");
    assert_eq!(
        read_request(Inbound::Other("Binary([0, 1])".to_string())),
        Err(QualificationCheckError::UnexpectedMessageType("Binary([0, 1])".to_string()))
    );
    assert_eq!(
        read_request(Inbound::Failed("connection reset".to_string())),
        Err(QualificationCheckError::WSRecvIO("connection reset".to_string()))
    );
    assert_eq!(read_request(Inbound::Closed), Err(QualificationCheckError::WSRecvClosed));
    assert_eq!(
        read_request(Inbound::Text("{\"handler\":\"h\"}".to_string())),
        Err(QualificationCheckError::JSONDeserialize(DecodeError::Schema(
            SchemaError::Missing(Key::ExecutionId)
        )))
    );
    assert!(matches!(
        read_request(Inbound::Text("{".to_string())),
        Err(QualificationCheckError::JSONDeserialize(DecodeError::Syntax(_)))
    ));
}

#[test]
fn a_caller_that_hangs_up_ends_the_execution() {
    assert_eq!(
        awaiting_request().received(Inbound::Closed).unwrap_err(),
        QualificationCheckError::WSRecvClosed
    );
    assert_eq!(
        awaiting_request().received(Inbound::Other("Ping([])".to_string())).unwrap_err(),
        QualificationCheckError::UnexpectedMessageType("Ping([])".to_string())
    );
}

#[test]
fn the_worker_is_started_for_a_qualification_check() {
    let (_, command) = awaiting_request()
        .received(Inbound::Text(REQUEST.to_string()))
        .expect("a request");
    assert_eq!(command.program, "/usr/local/bin/lang-js");
    assert_eq!(command.args, vec!["qualificationcheck".to_string()]);
    assert!(command.env.is_empty());
}

#[test]
fn debugging_sets_two_entries_of_the_environment() {
    let plain = command_for(&"/bin/w".to_string(), false);
    assert_eq!(plain.program, "/bin/w");
    assert_eq!(plain.args, vec!["qualificationcheck".to_string()]);
    assert_eq!(plain.env, Vec::<(String, String)>::new());
    let debugging = command_for(&"/bin/w".to_string(), true);
    assert_eq!(debugging.args, vec!["qualificationcheck".to_string()]);
    assert_eq!(
        debugging.env,
        vec![
            ("DEBUG".to_string(), "*".to_string()),
            ("DEBUG_DEPTH".to_string(), "5".to_string()),
        ]
    );
    let (pending, _) = execute("/bin/w".to_string(), true).start();
    let (_, command) = pending
        .acknowledged(SendOutcome::Sent)
        .expect("the greeting was sent")
        .received(Inbound::Text(REQUEST.to_string()))
        .expect("a request");
    assert_eq!(command, debugging);
}

#[test]
fn a_worker_that_does_not_start_leaves_nothing_behind() {
    match awaiting_spawn().spawned(SpawnOutcome::<u32>::Failed("No such file or directory".to_string())) {
        Err(SpawnFailure::Refused(error)) => assert_eq!(
            error,
            QualificationCheckError::ChildSpawn(
                "No such file or directory".to_string(),
                "/usr/local/bin/lang-js".to_string()
            )
        ),
        other => panic!("expected a refusal, got {:?}", other),
    }
}

#[test]
fn a_worker_without_input_is_torn_down() {
    match awaiting_spawn().spawned(SpawnOutcome::Spawned { worker: 7u32, stdin: false, stdout: true }) {
        Err(SpawnFailure::Aborted(aborted)) => {
            assert_eq!(aborted.error, QualificationCheckError::ChildIO(ChildStream::Stdin));
            let teardown = aborted.closing.teardown();
            assert_eq!(teardown.finish.message, Message::Finish);
        }
        other => panic!("expected an aborted phase, got {:?}", other),
    }
}

#[test]
fn the_request_is_delivered_as_one_compact_line() {
    let (pending, _) = awaiting_request()
        .received(Inbound::Text(
            "{\n  \"executionId\": \"e1\",\n  \"handler\": \"check \u{e9}\"\n}".to_string(),
        ))
        .expect("a request");
    let (_, delivery) = pending
        .spawned(SpawnOutcome::Spawned { worker: 7u32, stdin: true, stdout: true })
        .expect("a worker");
    assert_eq!(
        delivery.frame,
        "{\"executionId\":\"e1\",\"handler\":\"check \u{e9}\"}\n".as_bytes().to_vec()
    );
    assert_eq!(delivery.frame.iter().filter(|byte| **byte == b'\n').count(), 1);
    assert_eq!(delivery.frame.last(), Some(&b'\n'));
    assert_eq!(delivery.deadline_secs, 2);
}

#[test]
fn a_request_that_does_not_reach_the_worker_aborts() {
    assert_eq!(
        awaiting_delivery().delivered(SendOutcome::TimedOut).unwrap_err().error,
        QualificationCheckError::SendTimeout
    );
    assert_eq!(
        awaiting_delivery()
            .delivered(SendOutcome::Failed("broken pipe".to_string()))
            .unwrap_err()
            .error,
        QualificationCheckError::ChildSendIO("broken pipe".to_string())
    );
}

#[test]
fn a_worker_without_output_is_torn_down_after_the_request() {
    let (pending, _) = awaiting_spawn()
        .spawned(SpawnOutcome::Spawned { worker: 7u32, stdin: true, stdout: false })
        .expect("a worker");
    assert_eq!(
        pending.delivered(SendOutcome::Sent).unwrap_err().error,
        QualificationCheckError::ChildIO(ChildStream::Stdout)
    );
    let (pending, _) = awaiting_spawn()
        .spawned(SpawnOutcome::Spawned { worker: 7u32, stdin: true, stdout: false })
        .expect("a worker");
    assert_eq!(
        pending.delivered(SendOutcome::TimedOut).unwrap_err().error,
        QualificationCheckError::SendTimeout
    );
}

#[test]
fn records_are_forwarded_in_the_order_of_the_worker() {
    let mut frames: Vec<Frame> = Vec::new();
    let (pending, greeting) = execute("/bin/worker".to_string(), false).start();
    frames.push(greeting);
    let (pending, _) = pending
        .acknowledged(SendOutcome::Sent)
        .expect("the greeting was sent")
        .received(Inbound::Text(REQUEST.to_string()))
        .expect("a request");
    let (pending, _) = pending
        .spawned(SpawnOutcome::Spawned { worker: 7u32, stdin: true, stdout: true })
        .expect("a worker");
    let started = pending.delivered(SendOutcome::Sent).expect("the request was delivered");
    let started = forward(started, OUTPUT_A, 100, &mut frames);
    let started = forward(started, OUTPUT_B, 101, &mut frames);
    let started = forward(started, SUCCESS, 102, &mut frames);
    let closing = match started.process_at(Pulled::End, 103) {
        ProcessStep::Finished(closing) => closing,
        other => panic!("expected the end of the phase, got {:?}", other),
    };
    frames.push(closing.teardown().finish);
    let report = closing.finish(SendOutcome::Sent, Ok(()), Ok(()));
    assert_eq!(report, ShutdownReport { result: Ok(()), warnings: vec![] });

    let mut b = output("stderr", "warn", Some("g"), "B", 101);
    b.data = Some(cyclone::json::Json::List(vec![cyclone::json::Json::unsigned(1)]));
    let messages: Vec<&Message> = frames.iter().map(|frame| &frame.message).collect();
    assert_eq!(
        messages,
        vec![
            &Message::Start,
            &Message::OutputStream(output("stdout", "info", None, "A", 100)),
            &Message::OutputStream(b),
            &Message::Result(FunctionResult::Success(QualificationCheckResultSuccess {
                execution_id: "e1".to_string(),
                qualified: true,
                title: None,
                link: None,
                sub_checks: None,
                message: Some("ok".to_string()),
                timestamp: 102,
            })),
            &Message::Finish,
        ]
    );
    let texts: Vec<&str> = frames.iter().map(|frame| frame.text.as_str()).collect();
    assert_eq!(
        texts,
        vec![
            "{\"protocol\":\"start\"}",
            "{\"protocol\":\"outputStream\",\"executionId\":\"e1\",\"stream\":\"stdout\",\
             \"level\":\"info\",\"group\":null,\"message\":\"A\",\"data\":null,\"timestamp\":100}",
            "{\"protocol\":\"outputStream\",\"executionId\":\"e1\",\"stream\":\"stderr\",\
             \"level\":\"warn\",\"group\":\"g\",\"message\":\"B\",\"data\":[1],\"timestamp\":101}",
            "{\"protocol\":\"result\",\"status\":\"success\",\"executionId\":\"e1\",\
             \"qualified\":true,\"title\":null,\"link\":null,\"subChecks\":null,\
             \"message\":\"ok\",\"timestamp\":102}",
            "{\"protocol\":\"finish\"}",
        ]
    );
    for frame in &frames {
        assert_eq!(frame.deadline_secs, 2);
    }
}

#[test]
fn the_stream_ends_with_finish_without_a_result() {
    let mut frames: Vec<Frame> = Vec::new();
    let started = forward(started(), OUTPUT_A, 5, &mut frames);
    match started.process_at(Pulled::End, 6) {
        ProcessStep::Finished(closing) => {
            let teardown = closing.teardown();
            assert_eq!(teardown.finish.message, Message::Finish);
            assert_eq!(teardown.finish.text, "{\"protocol\":\"finish\"}");
        }
        other => panic!("expected the end of the phase, got {:?}", other),
    }
    assert_eq!(frames.len(), 1);
    assert!(matches!(
        started_then_end(),
        ProcessStep::Finished(_)
    ));
}

fn started_then_end() -> ProcessStep<u32> {
    started().process_at(Pulled::End, 0)
}

#[test]
fn a_clock_before_the_epoch_gives_timestamp_zero() {
    let mut frames: Vec<Frame> = Vec::new();
    forward(started(), OUTPUT_A, -1_000, &mut frames);
    forward(started(), SUCCESS, i64::MIN, &mut frames);
    assert_eq!(frames[0].message, Message::OutputStream(output("stdout", "info", None, "A", 0)));
    assert!(frames[0].text.ends_with("\"timestamp\":0}"));
    match &frames[1].message {
        Message::Result(FunctionResult::Success(success)) => assert_eq!(success.timestamp, 0),
        other => panic!("expected a verdict, got {:?}", other),
    }
}

#[test]
fn a_record_is_stamped_with_the_present() {
    match started().process(Pulled::Line(OUTPUT_A.as_bytes().to_vec())) {
        ProcessStep::Forward(_, frame) => match frame.message {
            Message::OutputStream(output) => assert!(output.timestamp > 1_577_836_800),
            other => panic!("expected output, got {:?}", other),
        },
        other => panic!("expected a message, got {:?}", other),
    }
    assert!(matches!(started().process(Pulled::End), ProcessStep::Finished(_)));
}

#[test]
fn a_line_that_is_no_record_aborts_after_what_was_forwarded() {
    let mut frames: Vec<Frame> = Vec::new();
    let started = forward(started(), OUTPUT_A, 1, &mut frames);
    let error = aborted_with(started.process_at(Pulled::Line(b"{\"protocol\":\"noise\"}".to_vec()), 2));
    assert_eq!(
        error,
        QualificationCheckError::JSONDeserialize(DecodeError::Schema(SchemaError::Invalid(
            Key::Protocol
        )))
    );
    assert_eq!(frames.len(), 1);
    assert_eq!(frames[0].message, Message::OutputStream(output("stdout", "info", None, "A", 1)));
    assert!(matches!(
        aborted_with(started_line("not json")),
        QualificationCheckError::JSONDeserialize(DecodeError::Syntax(_))
    ));
}

fn started_line(line: &str) -> ProcessStep<u32> {
    started().process_at(Pulled::Line(line.as_bytes().to_vec()), 0)
}

#[test]
fn a_read_failure_aborts() {
    assert_eq!(
        aborted_with(started().process_at(Pulled::Failed("io".to_string()), 0)),
        QualificationCheckError::ChildRecvIO("io".to_string())
    );
}

#[test]
fn a_message_that_does_not_arrive_aborts() {
    match started_line(OUTPUT_A) {
        ProcessStep::Forward(pending, _) => assert_eq!(
            pending.forwarded(SendOutcome::Failed("reset".to_string())).unwrap_err().error,
            QualificationCheckError::WSSendIO("reset".to_string())
        ),
        other => panic!("expected a message, got {:?}", other),
    }
    match started_line(OUTPUT_A) {
        ProcessStep::Forward(pending, _) => assert_eq!(
            pending.forwarded(SendOutcome::TimedOut).unwrap_err().error,
            QualificationCheckError::SendTimeout
        ),
        other => panic!("expected a message, got {:?}", other),
    }
}

#[test]
fn an_aborted_phase_is_still_torn_down() {
    let aborted = match started().process_at(Pulled::Failed("io".to_string()), 0) {
        ProcessStep::Aborted(aborted) => aborted,
        other => panic!("expected an aborted phase, got {:?}", other),
    };
    let teardown = aborted.closing.teardown();
    assert_eq!(teardown.finish.message, Message::Finish);
    let report = aborted.closing.finish(SendOutcome::Sent, Ok(()), shutdown_failed());
    assert_eq!(report.result, Err(shutdown_error()));
    assert!(report.warnings.is_empty());
}

#[test]
fn the_teardown_asks_the_worker_politely_and_waits() {
    let teardown = closing().teardown();
    assert_eq!(teardown.finish.message, Message::Finish);
    assert_eq!(teardown.finish.text, "{\"protocol\":\"finish\"}");
    assert_eq!(teardown.finish.deadline_secs, 2);
    assert_eq!(teardown.signal, Signal::Terminate);
    assert_eq!(teardown.grace_secs, None);
}

#[test]
fn a_clean_teardown_is_a_success() {
    assert_eq!(
        report(SendOutcome::Sent, Ok(()), Ok(())),
        ShutdownReport { result: Ok(()), warnings: vec![] }
    );
}

#[test]
fn a_single_failure_is_the_error() {
    assert_eq!(
        report(send_failed(), Ok(()), Ok(())),
        ShutdownReport { result: Err(send_error()), warnings: vec![] }
    );
    assert_eq!(
        report(SendOutcome::TimedOut, Ok(()), Ok(())),
        ShutdownReport { result: Err(QualificationCheckError::SendTimeout), warnings: vec![] }
    );
    assert_eq!(
        report(SendOutcome::Sent, close_failed(), Ok(())),
        ShutdownReport { result: Err(close_error()), warnings: vec![] }
    );
    assert_eq!(
        report(SendOutcome::Sent, Ok(()), shutdown_failed()),
        ShutdownReport { result: Err(shutdown_error()), warnings: vec![] }
    );
}

#[test]
fn of_two_failures_the_weightier_is_the_error() {
    assert_eq!(
        report(SendOutcome::Sent, close_failed(), shutdown_failed()),
        ShutdownReport { result: Err(close_error()), warnings: vec![shutdown_error()] }
    );
    assert_eq!(
        report(send_failed(), Ok(()), shutdown_failed()),
        ShutdownReport { result: Err(send_error()), warnings: vec![shutdown_error()] }
    );
    assert_eq!(
        report(send_failed(), close_failed(), Ok(())),
        ShutdownReport { result: Err(send_error()), warnings: vec![close_error()] }
    );
}

#[test]
fn of_three_failures_the_send_is_the_error_and_two_are_warnings() {
    let report = report(send_failed(), close_failed(), shutdown_failed());
    assert_eq!(report.result, Err(send_error()));
    assert_eq!(report.warnings.len(), 2);
    assert_eq!(report.warnings, vec![close_error(), shutdown_error()]);
}

#[test]
fn the_worker_moves_with_the_phases() {
    let (pending, _) = awaiting_spawn()
        .spawned(SpawnOutcome::Spawned { worker: "lang-js#1".to_string(), stdin: true, stdout: true })
        .expect("a worker");
    assert_eq!(pending.worker(), "lang-js#1");
    let mut started = pending.delivered(SendOutcome::Sent).expect("the request was delivered");
    assert_eq!(started.worker(), "lang-js#1");
    started.worker_mut().push_str(" (reading)");
    let pending = match started.process_at(Pulled::Line(OUTPUT_A.as_bytes().to_vec()), 1) {
        ProcessStep::Forward(pending, _) => pending,
        other => panic!("expected a message, got {:?}", other),
    };
    assert_eq!(pending.worker(), "lang-js#1 (reading)");
    let started = pending.forwarded(SendOutcome::Sent).expect("the message was sent");
    let mut closing = match started.process_at(Pulled::End, 2) {
        ProcessStep::Finished(closing) => closing,
        other => panic!("expected the end of the phase, got {:?}", other),
    };
    assert_eq!(closing.worker(), "lang-js#1 (reading)");
    closing.worker_mut().push_str(" (terminated)");
    assert_eq!(closing.worker(), "lang-js#1 (reading) (terminated)");
    assert_eq!(
        closing.finish(SendOutcome::Sent, Ok(()), Ok(())),
        ShutdownReport { result: Ok(()), warnings: vec![] }
    );
}

#[test]
fn an_aborted_phase_keeps_the_worker_for_the_teardown() {
    match awaiting_spawn().spawned(SpawnOutcome::Spawned { worker: 41u8, stdin: false, stdout: true }) {
        Err(SpawnFailure::Aborted(aborted)) => assert_eq!(*aborted.closing.worker(), 41),
        other => panic!("expected an aborted phase, got {:?}", other),
    }
    let aborted = awaiting_delivery().delivered(SendOutcome::TimedOut).unwrap_err();
    assert_eq!(*aborted.closing.worker(), 7);
    match started().process_at(Pulled::Failed("io".to_string()), 0) {
        ProcessStep::Aborted(aborted) => assert_eq!(*aborted.closing.worker(), 7),
        other => panic!("expected an aborted phase, got {:?}", other),
    }
    match started_line(OUTPUT_A) {
        ProcessStep::Forward(pending, _) => assert_eq!(
            *pending.forwarded(SendOutcome::TimedOut).unwrap_err().closing.worker(),
            7
        ),
        other => panic!("expected a message, got {:?}", other),
    }
}

#[test]
fn a_line_that_is_no_text_aborts() {
    assert!(matches!(
        aborted_with(started().process_at(Pulled::Line(vec![0xff, 0xfe, b'{']), 0)),
        QualificationCheckError::JSONDeserialize(DecodeError::Syntax(_))
    ));
}

#[test]
fn the_output_is_pulled_line_by_line() {
    let mut reader = LineReader::new();
    assert_eq!(Pulled::from_reader(&mut reader, false), None);
    reader.feed(b"{\"a\":");
    assert_eq!(Pulled::from_reader(&mut reader, false), None);
    reader.feed(b"1}\n{\"b\":2}\n{\"c\"");
    assert_eq!(
        Pulled::from_reader(&mut reader, false),
        Some(Pulled::Line(b"{\"a\":1}".to_vec()))
    );
    assert_eq!(
        Pulled::from_reader(&mut reader, false),
        Some(Pulled::Line(b"{\"b\":2}".to_vec()))
    );
    assert_eq!(Pulled::from_reader(&mut reader, false), None);
    reader.feed(b":3}");
    assert_eq!(
        Pulled::from_reader(&mut reader, true),
        Some(Pulled::Line(b"{\"c\":3}".to_vec()))
    );
    assert_eq!(Pulled::from_reader(&mut reader, true), Some(Pulled::End));
    assert_eq!(Pulled::from_reader(&mut reader, true), Some(Pulled::End));
}

#[test]
fn a_line_that_is_whole_comes_before_the_end() {
    let mut reader = LineReader::new();
    reader.feed(b"first\nsecond\n");
    assert_eq!(Pulled::from_reader(&mut reader, true), Some(Pulled::Line(b"first".to_vec())));
    assert_eq!(Pulled::from_reader(&mut reader, true), Some(Pulled::Line(b"second".to_vec())));
    assert_eq!(Pulled::from_reader(&mut reader, true), Some(Pulled::End));
}
