use cyclone::clock::{timestamp, timestamp_at};
use cyclone::error::{ChildStream, QualificationCheckError};
use cyclone::lang_server::DecodeError;
use cyclone::schema::{Key, SchemaError};

#[test]
fn a_clock_before_the_epoch_stamps_zero() {
    assert_eq!(timestamp_at(-1), 0);
    assert_eq!(timestamp_at(i64::MIN), 0);
    assert_eq!(timestamp_at(-86_400), 0);
}

#[test]
fn a_clock_after_the_epoch_stamps_its_reading() {
    assert_eq!(timestamp_at(0), 0);
    assert_eq!(timestamp_at(1), 1);
    assert_eq!(timestamp_at(1_700_000_000), 1_700_000_000);
    assert_eq!(timestamp_at(i64::MAX), 9_223_372_036_854_775_807);
}

#[test]
fn the_present_is_after_the_year_2020() {
    let stamp = timestamp();
    assert!(stamp > 1_577_836_800);
    assert!(stamp <= i64::MAX as u64);
}

#[test]
fn every_error_describes_itself() {
    assert_eq!(
        QualificationCheckError::ChildIO(ChildStream::Stdin).message(),
        "failed to consume the stdin stream for the child process"
    );
    assert_eq!(
        QualificationCheckError::ChildIO(ChildStream::Stdout).message(),
        "failed to consume the stdout stream for the child process"
    );
    assert_eq!(
        QualificationCheckError::ChildRecvIO("x".to_string()).message(),
        "failed to receive child process message"
    );
    assert_eq!(
        QualificationCheckError::ChildSendIO("x".to_string()).message(),
        "failed to send child process message"
    );
    assert_eq!(
        QualificationCheckError::ChildSpawn("no such file".to_string(), "/bin/lang-js".to_string())
            .message(),
        "failed to spawn child process; program=/bin/lang-js"
    );
    assert_eq!(
        QualificationCheckError::ChildShutdown("exited with 3".to_string()).message(),
        "exited with 3"
    );
    assert_eq!(
        QualificationCheckError::JSONDeserialize(DecodeError::Schema(SchemaError::Missing(
            Key::Protocol
        )))
        .message(),
        "failed to deserialize json message"
    );
    assert_eq!(QualificationCheckError::SendTimeout.message(), "send timeout");
    assert_eq!(
        QualificationCheckError::WSClose("x".to_string()).message(),
        "failed to close websocket"
    );
    assert_eq!(
        QualificationCheckError::WSRecvClosed.message(),
        "failed to receive websocket message--stream is closed"
    );
    assert_eq!(
        QualificationCheckError::WSRecvIO("x".to_string()).message(),
        "failed to receive websocket message"
    );
    assert_eq!(
        QualificationCheckError::WSSendIO("x".to_string()).message(),
        "failed to send websocket message"
    );
    assert_eq!(
        QualificationCheckError::UnexpectedMessageType("Binary([1, 2])".to_string()).message(),
        "unexpected websocket message type: Binary([1, 2])"
    );
}

#[test]
fn pipes_have_names() {
    assert_eq!(ChildStream::Stdin.as_str(), "stdin");
    assert_eq!(ChildStream::Stdout.as_str(), "stdout");
}
