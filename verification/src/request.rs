//! The request that starts an execution.
use crate::frames::{frame, framed};
use crate::json::{parse, parsed, render, rendered, Json, JsonView};
use crate::lang_server::{DecodeError, DecodeErrorView};
use crate::schema::{read_required_text, required_text, Key, SchemaError};
use vstd::prelude::*;
use vstd::string::StringSliceAdditionalSpecFns;

verus! {

/// A request for one qualification check.
///
/// The bridge reads the name of the execution and nothing else: what the
/// function needs is the worker's business, and the document is handed to it
/// as the caller wrote it.
#[derive(Debug, PartialEq, Eq)]
pub struct QualificationCheckRequest {
    pub execution_id: String,
    pub document: Json,
}

/// [`QualificationCheckRequest`] as the mathematical value that contracts speak of.
pub struct QualificationCheckRequestView {
    pub execution_id: Seq<char>,
    pub document: JsonView,
}

impl View for QualificationCheckRequest {
    type V = QualificationCheckRequestView;

    open spec fn view(&self) -> QualificationCheckRequestView {
        QualificationCheckRequestView {
            execution_id: self.execution_id@,
            document: self.document@,
        }
    }
}

impl QualificationCheckRequestView {
    /// The request that a document holds: an object whose `executionId` is a
    /// string.
    pub open spec fn of_document(doc: JsonView) -> Result<
        QualificationCheckRequestView,
        SchemaError,
    > {
        if !(doc is Object) {
            Err(SchemaError::NotAnObject)
        } else {
            match required_text(doc, Key::ExecutionId) {
                Err(e) => Err(e),
                Ok(execution_id) => Ok(
                    QualificationCheckRequestView { execution_id, document: doc },
                ),
            }
        }
    }

    /// The request that a text frame of the caller holds.
    pub open spec fn of_text(text: Seq<char>) -> Result<
        QualificationCheckRequestView,
        DecodeErrorView,
    > {
        match parsed(vstd::utf8::encode_utf8(text)) {
            Err(why) => Err(DecodeErrorView::Syntax(why)),
            Ok(doc) => match Self::of_document(doc) {
                Ok(request) => Ok(request),
                Err(e) => Err(DecodeErrorView::Schema(e)),
            },
        }
    }

    /// The line that carries a request to the worker: its document in compact
    /// JSON text.
    pub open spec fn line(self) -> Seq<char> {
        rendered(self.document)
    }

    /// The frame that carries a request to the worker: the bytes of its line,
    /// and the line end.
    pub open spec fn frame(self) -> Seq<u8> {
        framed(vstd::utf8::encode_utf8(self.line()))
    }
}

impl QualificationCheckRequest {
    /// Reads the request that `doc` holds.
    pub fn from_document(doc: Json) -> (r: Result<QualificationCheckRequest, SchemaError>)
        ensures
            match r {
                Ok(request) => QualificationCheckRequestView::of_document(doc@) == Ok::<
                    QualificationCheckRequestView,
                    SchemaError,
                >(request@),
                Err(e) => QualificationCheckRequestView::of_document(doc@) == Err::<
                    QualificationCheckRequestView,
                    SchemaError,
                >(e),
            },
    {
        match &doc {
            Json::Object(_) => {},
            _ => {
                return Err(SchemaError::NotAnObject);
            },
        }
        let execution_id = read_required_text(&doc, Key::ExecutionId)?;
        Ok(QualificationCheckRequest { execution_id, document: doc })
    }

    /// Reads the request that a text frame of the caller holds.
    pub fn deserialize_from_str(text: &str) -> (r: Result<QualificationCheckRequest, DecodeError>)
        ensures
            match r {
                Ok(request) => QualificationCheckRequestView::of_text(text@) == Ok::<
                    QualificationCheckRequestView,
                    DecodeErrorView,
                >(request@),
                Err(e) => QualificationCheckRequestView::of_text(text@) == Err::<
                    QualificationCheckRequestView,
                    DecodeErrorView,
                >(e@),
            },
    {
        match parse(text.as_bytes()) {
            Err(why) => Err(DecodeError::Syntax(why)),
            Ok(doc) => match Self::from_document(doc) {
                Ok(request) => Ok(request),
                Err(e) => Err(DecodeError::Schema(e)),
            },
        }
    }

    /// The line that carries this request to the worker.
    pub fn serialize_to_string(&self) -> (line: String)
        ensures
            line@ == self@.line(),
    {
        render(&self.document)
    }

    /// The frame that carries this request to the worker.
    pub fn to_frame(&self) -> (bytes: Vec<u8>)
        ensures
            bytes@ == self@.frame(),
    {
        let line = self.serialize_to_string();
        frame(line.as_str())
    }
}

} // verus!
