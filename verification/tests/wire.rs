use cyclone::json::Json;
use cyclone::lang_server::{
    DecodeError, LangServerFailure, LangServerFailureError, LangServerOutput,
    LangServerQualificationCheckMessage, LangServerResult, LangServerSuccess,
};
use cyclone::protocol::{
    FunctionResult, FunctionResultFailure, FunctionResultFailureError, Message, OutputStream,
    QualificationCheckResultSuccess, QualificationSubCheck, QualificationSubCheckStatus,
};
use cyclone::request::QualificationCheckRequest;
use cyclone::schema::{Key, SchemaError};

fn read(line: &str) -> Result<LangServerQualificationCheckMessage, DecodeError> {
    LangServerQualificationCheckMessage::deserialize_from_str(line)
}

fn schema_error(line: &str) -> SchemaError {
    match read(line) {
        Err(DecodeError::Schema(e)) => e,
        other => panic!("expected a schema error, got {:?}", other),
    }
}

fn verdict() -> QualificationCheckResultSuccess {
    QualificationCheckResultSuccess {
        execution_id: "e1".to_string(),
        qualified: true,
        title: Some("T".to_string()),
        link: None,
        sub_checks: Some(vec![
            QualificationSubCheck {
                description: "disk".to_string(),
                status: QualificationSubCheckStatus::Warning,
            },
            QualificationSubCheck {
                description: "net".to_string(),
                status: QualificationSubCheckStatus::Success,
            },
        ]),
        message: Some("fine".to_string()),
        timestamp: 7,
    }
}

#[test]
fn start_and_finish_are_bare_tags() {
    assert_eq!(Message::Start.serialize_to_string(), "{\"protocol\":\"start\"}");
    assert_eq!(Message::Finish.serialize_to_string(), "{\"protocol\":\"finish\"}");
}

#[test]
fn output_stream_is_written_in_camel_case() {
    let message = Message::OutputStream(OutputStream {
        execution_id: "e1".to_string(),
        stream: "stdout".to_string(),
        level: "info".to_string(),
        group: None,
        message: "hello".to_string(),
        data: None,
        timestamp: 42,
    });
    assert_eq!(
        message.serialize_to_string(),
        "{\"protocol\":\"outputStream\",\"executionId\":\"e1\",\"stream\":\"stdout\",\
         \"level\":\"info\",\"group\":null,\"message\":\"hello\",\"data\":null,\"timestamp\":42}"
    );
}

#[test]
fn output_stream_carries_group_and_payload() {
    let payload = Json::Object(vec![
        ("n".to_string(), Json::unsigned(3)),
        ("tags".to_string(), Json::List(vec![Json::Bool(false), Json::Null])),
    ]);
    let message = Message::OutputStream(OutputStream {
        execution_id: "e1".to_string(),
        stream: "stderr".to_string(),
        level: "warn".to_string(),
        group: Some("g".to_string()),
        message: "a \"quoted\" line\n".to_string(),
        data: Some(payload),
        timestamp: 0,
    });
    assert_eq!(
        message.serialize_to_string(),
        "{\"protocol\":\"outputStream\",\"executionId\":\"e1\",\"stream\":\"stderr\",\
         \"level\":\"warn\",\"group\":\"g\",\"message\":\"a \\\"quoted\\\" line\\n\",\
         \"data\":{\"n\":3,\"tags\":[false,null]},\"timestamp\":0}"
    );
}

#[test]
fn successful_result_is_tagged_twice() {
    let message = Message::Result(FunctionResult::Success(verdict()));
    assert_eq!(
        message.serialize_to_string(),
        "{\"protocol\":\"result\",\"status\":\"success\",\"executionId\":\"e1\",\
         \"qualified\":true,\"title\":\"T\",\"link\":null,\
         \"subChecks\":[{\"description\":\"disk\",\"status\":\"warning\"},\
         {\"description\":\"net\",\"status\":\"success\"}],\
         \"message\":\"fine\",\"timestamp\":7}"
    );
}

#[test]
fn failed_result_holds_the_error() {
    let result = FunctionResult::Failure(FunctionResultFailure {
        execution_id: "e1".to_string(),
        error: FunctionResultFailureError {
            kind: "K".to_string(),
            message: "M".to_string(),
        },
        timestamp: 9,
    });
    assert_eq!(
        result.serialize_to_string(),
        "{\"status\":\"failure\",\"executionId\":\"e1\",\
         \"error\":{\"kind\":\"K\",\"message\":\"M\"},\"timestamp\":9}"
    );
    assert_eq!(
        Message::Result(result).serialize_to_string(),
        "{\"protocol\":\"result\",\"status\":\"failure\",\"executionId\":\"e1\",\
         \"error\":{\"kind\":\"K\",\"message\":\"M\"},\"timestamp\":9}"
    );
}

#[test]
fn a_timestamp_is_written_as_a_number() {
    let message = Message::OutputStream(OutputStream {
        execution_id: String::new(),
        stream: String::new(),
        level: String::new(),
        group: None,
        message: String::new(),
        data: None,
        timestamp: u64::MAX,
    });
    assert!(message
        .serialize_to_string()
        .ends_with("\"timestamp\":18446744073709551615}"));
}

#[test]
fn sub_check_status_names() {
    assert_eq!(QualificationSubCheckStatus::Success.as_str(), "success");
    assert_eq!(QualificationSubCheckStatus::Warning.as_str(), "warning");
    assert_eq!(QualificationSubCheckStatus::Failure.as_str(), "failure");
    assert_eq!(QualificationSubCheckStatus::Unknown.as_str(), "unknown");
    for status in [
        QualificationSubCheckStatus::Success,
        QualificationSubCheckStatus::Warning,
        QualificationSubCheckStatus::Failure,
        QualificationSubCheckStatus::Unknown,
    ] {
        assert_eq!(
            QualificationSubCheckStatus::from_tag(&status.as_str().to_string()),
            Some(status)
        );
    }
    assert_eq!(QualificationSubCheckStatus::from_tag(&"Success".to_string()), None);
}

#[test]
fn key_names() {
    assert_eq!(Key::Protocol.as_str(), "protocol");
    assert_eq!(Key::Status.as_str(), "status");
    assert_eq!(Key::ExecutionId.as_str(), "executionId");
    assert_eq!(Key::Stream.as_str(), "stream");
    assert_eq!(Key::Level.as_str(), "level");
    assert_eq!(Key::Group.as_str(), "group");
    assert_eq!(Key::Message.as_str(), "message");
    assert_eq!(Key::Data.as_str(), "data");
    assert_eq!(Key::Timestamp.as_str(), "timestamp");
    assert_eq!(Key::Qualified.as_str(), "qualified");
    assert_eq!(Key::Title.as_str(), "title");
    assert_eq!(Key::Link.as_str(), "link");
    assert_eq!(Key::SubChecks.as_str(), "subChecks");
    assert_eq!(Key::Description.as_str(), "description");
    assert_eq!(Key::Error.as_str(), "error");
    assert_eq!(Key::Kind.as_str(), "kind");
}

#[test]
fn worker_output_is_read() {
    let record = read(
        "{\"protocol\":\"output\",\"executionId\":\"e1\",\"stream\":\"stdout\",\
         \"level\":\"info\",\"group\":\"g\",\"message\":\"m\",\"data\":{\"k\":[1,2.5,\"x\"]}}",
    )
    .expect("a record");
    let expected_payload = Json::Object(vec![(
        "k".to_string(),
        Json::List(vec![
            Json::Number(serde_json::Number::from(1u64)),
            Json::Number(serde_json::Number::from_f64(2.5).expect("a finite number")),
            Json::Text("x".to_string()),
        ]),
    )]);
    assert_eq!(
        record,
        LangServerQualificationCheckMessage::Output(LangServerOutput {
            execution_id: "e1".to_string(),
            stream: "stdout".to_string(),
            level: "info".to_string(),
            group: Some("g".to_string()),
            message: "m".to_string(),
            data: Some(expected_payload),
        })
    );
}

#[test]
fn optional_members_may_be_missing_or_null() {
    let missing = read(
        "{\"protocol\":\"output\",\"executionId\":\"e1\",\"stream\":\"s\",\"level\":\"l\",\
         \"message\":\"m\"}",
    )
    .expect("a record");
    let null = read(
        "{\"protocol\":\"output\",\"executionId\":\"e1\",\"stream\":\"s\",\"level\":\"l\",\
         \"group\":null,\"message\":\"m\",\"data\":null}",
    )
    .expect("a record");
    let expected = LangServerQualificationCheckMessage::Output(LangServerOutput {
        execution_id: "e1".to_string(),
        stream: "s".to_string(),
        level: "l".to_string(),
        group: None,
        message: "m".to_string(),
        data: None,
    });
    assert_eq!(missing, expected);
    assert_eq!(null, expected);
}

#[test]
fn unknown_members_are_passed_over() {
    let record = read(
        "{\"extra\":1,\"protocol\":\"result\",\"status\":\"success\",\"executionId\":\"e\",\
         \"qualified\":false,\"timestamp\":99}",
    )
    .expect("a record");
    assert_eq!(
        record,
        LangServerQualificationCheckMessage::Result(LangServerResult::Success(
            LangServerSuccess {
                execution_id: "e".to_string(),
                qualified: false,
                title: None,
                link: None,
                sub_checks: None,
                message: None,
            }
        ))
    );
}

#[test]
fn a_later_member_replaces_an_earlier_one() {
    let doc = Json::Object(vec![
        ("level".to_string(), Json::Text("first".to_string())),
        ("level".to_string(), Json::Text("second".to_string())),
    ]);
    assert_eq!(doc.get("level"), Some(&Json::Text("second".to_string())));
    assert_eq!(doc.get("other"), None);
    assert_eq!(Json::Null.get("level"), None);
}

#[test]
fn worker_success_is_read_with_sub_checks() {
    let record = read(
        "{\"protocol\":\"result\",\"status\":\"success\",\"executionId\":\"e1\",\
         \"qualified\":true,\"title\":\"T\",\"link\":\"http://x\",\"message\":\"ok\",\
         \"subChecks\":[{\"description\":\"a\",\"status\":\"failure\"},\
         {\"description\":\"b\",\"status\":\"unknown\"}]}",
    )
    .expect("a record");
    assert_eq!(
        record,
        LangServerQualificationCheckMessage::Result(LangServerResult::Success(
            LangServerSuccess {
                execution_id: "e1".to_string(),
                qualified: true,
                title: Some("T".to_string()),
                link: Some("http://x".to_string()),
                sub_checks: Some(vec![
                    QualificationSubCheck {
                        description: "a".to_string(),
                        status: QualificationSubCheckStatus::Failure,
                    },
                    QualificationSubCheck {
                        description: "b".to_string(),
                        status: QualificationSubCheckStatus::Unknown,
                    },
                ]),
                message: Some("ok".to_string()),
            }
        ))
    );
}

#[test]
fn worker_failure_defaults_the_execution_id() {
    let record = read(
        "{\"protocol\":\"result\",\"status\":\"failure\",\
         \"error\":{\"kind\":\"UserCodeException\",\"message\":\"boom\"}}",
    )
    .expect("a record");
    assert_eq!(
        record,
        LangServerQualificationCheckMessage::Result(LangServerResult::Failure(
            LangServerFailure {
                execution_id: String::new(),
                error: LangServerFailureError {
                    kind: "UserCodeException".to_string(),
                    message: "boom".to_string(),
                },
            }
        ))
    );
    let named = read(
        "{\"protocol\":\"result\",\"status\":\"failure\",\"executionId\":\"e9\",\
         \"error\":{\"kind\":\"k\",\"message\":\"m\"}}",
    )
    .expect("a record");
    match named {
        LangServerQualificationCheckMessage::Result(LangServerResult::Failure(failure)) => {
            assert_eq!(failure.execution_id, "e9")
        }
        other => panic!("expected a failure, got {:?}", other),
    }
}

#[test]
fn text_that_is_no_json_is_a_syntax_error() {
    match read("{\"protocol\":") {
        Err(DecodeError::Syntax(why)) => assert!(!why.is_empty()),
        other => panic!("expected a syntax error, got {:?}", other),
    }
    match read("") {
        Err(DecodeError::Syntax(_)) => {}
        other => panic!("expected a syntax error, got {:?}", other),
    }
}

#[test]
fn documents_that_do_not_fit_are_schema_errors() {
    assert_eq!(schema_error("[1,2]"), SchemaError::NotAnObject);
    assert_eq!(schema_error("\"output\""), SchemaError::NotAnObject);
    assert_eq!(schema_error("{}"), SchemaError::Missing(Key::Protocol));
    assert_eq!(schema_error("{\"protocol\":7}"), SchemaError::Invalid(Key::Protocol));
    assert_eq!(
        schema_error("{\"protocol\":\"heartbeat\"}"),
        SchemaError::Invalid(Key::Protocol)
    );
    assert_eq!(
        schema_error("{\"protocol\":\"output\"}"),
        SchemaError::Missing(Key::ExecutionId)
    );
    assert_eq!(
        schema_error("{\"protocol\":\"output\",\"executionId\":\"e\",\"stream\":null}"),
        SchemaError::Invalid(Key::Stream)
    );
    assert_eq!(
        schema_error("{\"protocol\":\"output\",\"executionId\":\"e\",\"stream\":\"s\"}"),
        SchemaError::Missing(Key::Level)
    );
    assert_eq!(
        schema_error(
            "{\"protocol\":\"output\",\"executionId\":\"e\",\"stream\":\"s\",\"level\":\"l\",\
             \"group\":5,\"message\":\"m\"}"
        ),
        SchemaError::Invalid(Key::Group)
    );
    assert_eq!(
        schema_error(
            "{\"protocol\":\"output\",\"executionId\":\"e\",\"stream\":\"s\",\"level\":\"l\"}"
        ),
        SchemaError::Missing(Key::Message)
    );
    assert_eq!(
        schema_error("{\"protocol\":\"result\"}"),
        SchemaError::Missing(Key::Status)
    );
    assert_eq!(
        schema_error("{\"protocol\":\"result\",\"status\":\"maybe\"}"),
        SchemaError::Invalid(Key::Status)
    );
    assert_eq!(
        schema_error("{\"protocol\":\"result\",\"status\":\"success\",\"executionId\":\"e\"}"),
        SchemaError::Missing(Key::Qualified)
    );
    assert_eq!(
        schema_error(
            "{\"protocol\":\"result\",\"status\":\"success\",\"executionId\":\"e\",\
             \"qualified\":\"yes\"}"
        ),
        SchemaError::Invalid(Key::Qualified)
    );
    assert_eq!(
        schema_error(
            "{\"protocol\":\"result\",\"status\":\"success\",\"executionId\":\"e\",\
             \"qualified\":true,\"subChecks\":{}}"
        ),
        SchemaError::Invalid(Key::SubChecks)
    );
    assert_eq!(
        schema_error(
            "{\"protocol\":\"result\",\"status\":\"success\",\"executionId\":\"e\",\
             \"qualified\":true,\"subChecks\":[3]}"
        ),
        SchemaError::NotAnObject
    );
    assert_eq!(
        schema_error(
            "{\"protocol\":\"result\",\"status\":\"success\",\"executionId\":\"e\",\
             \"qualified\":true,\"subChecks\":[{\"description\":\"d\",\"status\":\"odd\"}]}"
        ),
        SchemaError::Invalid(Key::Status)
    );
    assert_eq!(
        schema_error(
            "{\"protocol\":\"result\",\"status\":\"success\",\"executionId\":\"e\",\
             \"qualified\":true,\"subChecks\":[{\"description\":\"d\",\"status\":\"success\"},\
             {\"status\":\"success\"}]}"
        ),
        SchemaError::Missing(Key::Description)
    );
    assert_eq!(
        schema_error("{\"protocol\":\"result\",\"status\":\"failure\"}"),
        SchemaError::Missing(Key::Error)
    );
    assert_eq!(
        schema_error("{\"protocol\":\"result\",\"status\":\"failure\",\"error\":\"bad\"}"),
        SchemaError::Invalid(Key::Error)
    );
    assert_eq!(
        schema_error(
            "{\"protocol\":\"result\",\"status\":\"failure\",\"error\":{\"kind\":\"k\"}}"
        ),
        SchemaError::Missing(Key::Message)
    );
    assert_eq!(
        schema_error(
            "{\"protocol\":\"result\",\"status\":\"failure\",\"executionId\":null,\
             \"error\":{\"kind\":\"k\",\"message\":\"m\"}}"
        ),
        SchemaError::Invalid(Key::ExecutionId)
    );
}

#[test]
fn translation_keeps_every_member_and_sets_the_timestamp() {
    let output = LangServerOutput {
        execution_id: "e1".to_string(),
        stream: "stdout".to_string(),
        level: "info".to_string(),
        group: Some("g".to_string()),
        message: "m".to_string(),
        data: Some(Json::Bool(true)),
    };
    assert_eq!(
        OutputStream::from_lang_server(output, 1234),
        OutputStream {
            execution_id: "e1".to_string(),
            stream: "stdout".to_string(),
            level: "info".to_string(),
            group: Some("g".to_string()),
            message: "m".to_string(),
            data: Some(Json::Bool(true)),
            timestamp: 1234,
        }
    );
    let failure = LangServerResult::Failure(LangServerFailure {
        execution_id: "e2".to_string(),
        error: LangServerFailureError {
            kind: "k".to_string(),
            message: "m".to_string(),
        },
    });
    assert_eq!(
        FunctionResult::from_lang_server(failure, 5),
        FunctionResult::Failure(FunctionResultFailure {
            execution_id: "e2".to_string(),
            error: FunctionResultFailureError {
                kind: "k".to_string(),
                message: "m".to_string(),
            },
            timestamp: 5,
        })
    );
}

#[test]
fn a_written_verdict_reads_back_without_its_timestamp() {
    let text = FunctionResult::Success(verdict()).serialize_to_string();
    let doc_text = Message::Result(FunctionResult::Success(verdict())).serialize_to_string();
    assert!(text.contains("\"timestamp\":7"));
    let record = read(&doc_text).expect("a record");
    let read_back = match record {
        LangServerQualificationCheckMessage::Result(result) => result,
        other => panic!("expected a result, got {:?}", other),
    };
    let original = verdict();
    assert_eq!(
        read_back,
        LangServerResult::Success(LangServerSuccess {
            execution_id: original.execution_id,
            qualified: original.qualified,
            title: original.title,
            link: original.link,
            sub_checks: original.sub_checks,
            message: original.message,
        })
    );
    let again = FunctionResult::from_lang_server(read_back, 1000);
    assert_eq!(
        again,
        FunctionResult::Success(QualificationCheckResultSuccess {
            timestamp: 1000,
            ..verdict()
        })
    );
}

#[test]
fn a_request_is_an_object_with_an_execution_id() {
    let request = QualificationCheckRequest::deserialize_from_str(
        "{ \"executionId\" : \"e7\",\n  \"handler\" : \"check\", \"component\" : { \"n\" : [1, 2] } }",
    )
    .expect("a request");
    assert_eq!(request.execution_id, "e7");
    assert_eq!(
        request.serialize_to_string(),
        "{\"executionId\":\"e7\",\"handler\":\"check\",\"component\":{\"n\":[1,2]}}"
    );
}

#[test]
fn a_request_without_an_execution_id_is_refused() {
    assert_eq!(
        QualificationCheckRequest::deserialize_from_str("{\"handler\":\"h\"}"),
        Err(DecodeError::Schema(SchemaError::Missing(Key::ExecutionId)))
    );
    assert_eq!(
        QualificationCheckRequest::deserialize_from_str("{\"executionId\":12}"),
        Err(DecodeError::Schema(SchemaError::Invalid(Key::ExecutionId)))
    );
    assert_eq!(
        QualificationCheckRequest::deserialize_from_str("null"),
        Err(DecodeError::Schema(SchemaError::NotAnObject))
    );
    assert!(matches!(
        QualificationCheckRequest::deserialize_from_str("not json"),
        Err(DecodeError::Syntax(_))
    ));
    assert_eq!(
        QualificationCheckRequest::from_document(Json::List(vec![])),
        Err(SchemaError::NotAnObject)
    );
}

#[test]
fn a_copy_of_a_document_equals_it() {
    let doc = Json::Object(vec![
        ("a".to_string(), Json::List(vec![Json::Null, Json::Bool(true), Json::unsigned(8)])),
        ("b".to_string(), Json::Object(vec![("c".to_string(), Json::Text("d".to_string()))])),
    ]);
    assert_eq!(doc.copy(), doc);
    assert_eq!(Json::text("x"), Json::Text("x".to_string()));
    assert_eq!(Json::optional_text(&None), Json::Null);
    assert_eq!(Json::optional_text(&Some("y".to_string())), Json::Text("y".to_string()));
    assert_eq!(Json::Bool(true).as_bool(), Some(true));
    assert_eq!(Json::Null.as_bool(), None);
    assert!(Json::Null.is_null());
    assert!(!Json::Bool(false).is_null());
    assert_eq!(Json::Text("t".to_string()).as_text(), Some(&"t".to_string()));
    assert_eq!(Json::List(vec![Json::Null]).as_list(), Some(&vec![Json::Null]));
}
