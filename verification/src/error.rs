//! What can go wrong in an execution.
use crate::lang_server::{DecodeError, DecodeErrorView};
use vstd::prelude::*;
use vstd::string::StringExecFns;

verus! {

/// One of the two pipes of the worker.
#[derive(Clone, Copy, Debug, PartialEq, Eq, Structural)]
pub enum ChildStream {
    Stdin,
    Stdout,
}

impl ChildStream {
    /// The name of the pipe.
    pub open spec fn name(self) -> Seq<char> {
        match self {
            ChildStream::Stdin => "stdin"@,
            ChildStream::Stdout => "stdout"@,
        }
    }

    /// The name of the pipe.
    pub fn as_str(self) -> (name: &'static str)
        ensures
            name@ == self.name(),
    {
        match self {
            ChildStream::Stdin => "stdin",
            ChildStream::Stdout => "stdout",
        }
    }
}

/// An error of an execution. Where an operation outside this crate failed,
/// the string is that operation's own description of the failure.
#[derive(Debug, PartialEq, Eq)]
pub enum QualificationCheckError {
    /// The worker was started without the pipe that the bridge needs.
    ChildIO(ChildStream),
    /// Reading the worker's output failed.
    ChildRecvIO(String),
    /// Writing to the worker's input, or closing it, failed.
    ChildSendIO(String),
    /// The worker could not be started: the failure, then the program that
    /// was tried.
    ChildSpawn(String, String),
    /// The worker did not terminate cleanly.
    ChildShutdown(String),
    /// A frame could not be read as the message that was expected.
    JSONDeserialize(DecodeError),
    /// A send took longer than its deadline allows.
    SendTimeout,
    /// The close handshake with the caller failed.
    WSClose(String),
    /// The caller closed the connection where a message was expected.
    WSRecvClosed,
    /// Receiving from the caller failed.
    WSRecvIO(String),
    /// Sending to the caller failed.
    WSSendIO(String),
    /// The caller sent a frame that is not text; the string describes it.
    UnexpectedMessageType(String),
}

/// [`QualificationCheckError`] as the mathematical value that contracts speak of.
pub enum QualificationCheckErrorView {
    ChildIO(ChildStream),
    ChildRecvIO(Seq<char>),
    ChildSendIO(Seq<char>),
    ChildSpawn(Seq<char>, Seq<char>),
    ChildShutdown(Seq<char>),
    JSONDeserialize(DecodeErrorView),
    SendTimeout,
    WSClose(Seq<char>),
    WSRecvClosed,
    WSRecvIO(Seq<char>),
    WSSendIO(Seq<char>),
    UnexpectedMessageType(Seq<char>),
}

impl View for QualificationCheckError {
    type V = QualificationCheckErrorView;

    open spec fn view(&self) -> QualificationCheckErrorView {
        match self {
            QualificationCheckError::ChildIO(stream) => QualificationCheckErrorView::ChildIO(
                *stream,
            ),
            QualificationCheckError::ChildRecvIO(why) => QualificationCheckErrorView::ChildRecvIO(
                why@,
            ),
            QualificationCheckError::ChildSendIO(why) => QualificationCheckErrorView::ChildSendIO(
                why@,
            ),
            QualificationCheckError::ChildSpawn(why, program) => {
                QualificationCheckErrorView::ChildSpawn(why@, program@)
            },
            QualificationCheckError::ChildShutdown(why) => {
                QualificationCheckErrorView::ChildShutdown(why@)
            },
            QualificationCheckError::JSONDeserialize(why) => {
                QualificationCheckErrorView::JSONDeserialize(why@)
            },
            QualificationCheckError::SendTimeout => QualificationCheckErrorView::SendTimeout,
            QualificationCheckError::WSClose(why) => QualificationCheckErrorView::WSClose(why@),
            QualificationCheckError::WSRecvClosed => QualificationCheckErrorView::WSRecvClosed,
            QualificationCheckError::WSRecvIO(why) => QualificationCheckErrorView::WSRecvIO(why@),
            QualificationCheckError::WSSendIO(why) => QualificationCheckErrorView::WSSendIO(why@),
            QualificationCheckError::UnexpectedMessageType(frame) => {
                QualificationCheckErrorView::UnexpectedMessageType(frame@)
            },
        }
    }
}

impl DeepView for QualificationCheckError {
    type V = QualificationCheckErrorView;

    open spec fn deep_view(&self) -> QualificationCheckErrorView {
        self@
    }
}

impl QualificationCheckErrorView {
    /// The text that describes an error to a reader.
    pub open spec fn message(self) -> Seq<char> {
        match self {
            QualificationCheckErrorView::ChildIO(stream) => "failed to consume the "@
                + stream.name() + " stream for the child process"@,
            QualificationCheckErrorView::ChildRecvIO(_) => "failed to receive child process message"@,
            QualificationCheckErrorView::ChildSendIO(_) => "failed to send child process message"@,
            QualificationCheckErrorView::ChildSpawn(_, program) => "failed to spawn child process; program="@
                + program,
            QualificationCheckErrorView::ChildShutdown(why) => why,
            QualificationCheckErrorView::JSONDeserialize(_) => "failed to deserialize json message"@,
            QualificationCheckErrorView::SendTimeout => "send timeout"@,
            QualificationCheckErrorView::WSClose(_) => "failed to close websocket"@,
            QualificationCheckErrorView::WSRecvClosed => "failed to receive websocket message--stream is closed"@,
            QualificationCheckErrorView::WSRecvIO(_) => "failed to receive websocket message"@,
            QualificationCheckErrorView::WSSendIO(_) => "failed to send websocket message"@,
            QualificationCheckErrorView::UnexpectedMessageType(frame) => "unexpected websocket message type: "@
                + frame,
        }
    }
}

impl QualificationCheckError {
    /// The text that describes this error to a reader.
    pub fn message(&self) -> (text: String)
        ensures
            text@ == self@.message(),
    {
        match self {
            QualificationCheckError::ChildIO(stream) => {
                let mut text = String::from_str("failed to consume the ");
                text.append(stream.as_str());
                text.append(" stream for the child process");
                text
            },
            QualificationCheckError::ChildRecvIO(_) => String::from_str(
                "failed to receive child process message",
            ),
            QualificationCheckError::ChildSendIO(_) => String::from_str(
                "failed to send child process message",
            ),
            QualificationCheckError::ChildSpawn(_, program) => {
                let mut text = String::from_str("failed to spawn child process; program=");
                text.append(program.as_str());
                text
            },
            QualificationCheckError::ChildShutdown(why) => why.clone(),
            QualificationCheckError::JSONDeserialize(_) => String::from_str(
                "failed to deserialize json message",
            ),
            QualificationCheckError::SendTimeout => String::from_str("send timeout"),
            QualificationCheckError::WSClose(_) => String::from_str("failed to close websocket"),
            QualificationCheckError::WSRecvClosed => String::from_str(
                "failed to receive websocket message--stream is closed",
            ),
            QualificationCheckError::WSRecvIO(_) => String::from_str(
                "failed to receive websocket message",
            ),
            QualificationCheckError::WSSendIO(_) => String::from_str(
                "failed to send websocket message",
            ),
            QualificationCheckError::UnexpectedMessageType(frame) => {
                let mut text = String::from_str("unexpected websocket message type: ");
                text.append(frame.as_str());
                text
            },
        }
    }
}

} // verus!
