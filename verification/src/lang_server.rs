//! The records that the worker writes, and their translation into messages
//! for the caller.
//!
//! The worker writes one JSON object per line. Its member `protocol` is
//! `output` for a piece of output and `result` for the terminal record, which
//! carries a `status` of `success` or `failure`. The worker knows no clock of
//! the bridge: a record has no timestamp, and one is given to it when it is
//! translated.
use crate::json::{parse, parsed, Json, JsonView};
use crate::protocol::{
    sub_check_documents, sub_checks_document, text_is, text_or_null, FunctionResult, FunctionResultFailure, FunctionResultFailureError,
    FunctionResultFailureErrorView, FunctionResultFailureView, FunctionResultView, Message,
    MessageView, OutputStream, OutputStreamView, QualificationCheckResultSuccess,
    QualificationCheckResultSuccessView, QualificationSubCheck, QualificationSubCheckStatus,
    QualificationSubCheckView,
};
use crate::schema::{
    defaulted_text, optional_text, optional_value, read_defaulted_text, read_optional_text,
    keyed, lemma_member_of_keyed, lemma_members_of_keyed, read_optional_value, read_required_flag, read_required_text,
    required_flag, required_text, Key, SchemaError,
};
use vstd::prelude::*;
use vstd::string::StringSliceAdditionalSpecFns;

verus! {

/// Why a frame could not be read.
#[derive(Debug, PartialEq, Eq)]
pub enum DecodeError {
    /// The frame is no JSON document; the string is what `serde_json` says
    /// of it.
    Syntax(String),
    /// The frame is a JSON document that does not fit the schema.
    Schema(SchemaError),
}

/// [`DecodeError`] as the mathematical value that contracts speak of.
pub enum DecodeErrorView {
    Syntax(Seq<char>),
    Schema(SchemaError),
}

impl View for DecodeError {
    type V = DecodeErrorView;

    open spec fn view(&self) -> DecodeErrorView {
        match self {
            DecodeError::Syntax(why) => DecodeErrorView::Syntax(why@),
            DecodeError::Schema(e) => DecodeErrorView::Schema(*e),
        }
    }
}

/// A piece of output, as the worker writes it.
#[derive(Debug, PartialEq, Eq)]
pub struct LangServerOutput {
    pub execution_id: String,
    pub stream: String,
    pub level: String,
    pub group: Option<String>,
    pub message: String,
    pub data: Option<Json>,
}

/// [`LangServerOutput`] as the mathematical value that contracts speak of.
pub struct LangServerOutputView {
    pub execution_id: Seq<char>,
    pub stream: Seq<char>,
    pub level: Seq<char>,
    pub group: Option<Seq<char>>,
    pub message: Seq<char>,
    pub data: Option<JsonView>,
}

impl View for LangServerOutput {
    type V = LangServerOutputView;

    open spec fn view(&self) -> LangServerOutputView {
        LangServerOutputView {
            execution_id: self.execution_id@,
            stream: self.stream@,
            level: self.level@,
            group: self.group.deep_view(),
            message: self.message@,
            data: self.data.deep_view(),
        }
    }
}

/// A verdict, as the worker writes it.
#[derive(Debug, PartialEq, Eq)]
pub struct LangServerSuccess {
    pub execution_id: String,
    pub qualified: bool,
    pub title: Option<String>,
    pub link: Option<String>,
    pub sub_checks: Option<Vec<QualificationSubCheck>>,
    pub message: Option<String>,
}

/// [`LangServerSuccess`] as the mathematical value that contracts speak of.
pub struct LangServerSuccessView {
    pub execution_id: Seq<char>,
    pub qualified: bool,
    pub title: Option<Seq<char>>,
    pub link: Option<Seq<char>>,
    pub sub_checks: Option<Seq<QualificationSubCheckView>>,
    pub message: Option<Seq<char>>,
}

impl View for LangServerSuccess {
    type V = LangServerSuccessView;

    open spec fn view(&self) -> LangServerSuccessView {
        LangServerSuccessView {
            execution_id: self.execution_id@,
            qualified: self.qualified,
            title: self.title.deep_view(),
            link: self.link.deep_view(),
            sub_checks: self.sub_checks.deep_view(),
            message: self.message.deep_view(),
        }
    }
}

/// What went wrong, as the worker writes it.
#[derive(Debug, PartialEq, Eq)]
pub struct LangServerFailureError {
    pub kind: String,
    pub message: String,
}

/// [`LangServerFailureError`] as the mathematical value that contracts speak of.
pub struct LangServerFailureErrorView {
    pub kind: Seq<char>,
    pub message: Seq<char>,
}

impl View for LangServerFailureError {
    type V = LangServerFailureErrorView;

    open spec fn view(&self) -> LangServerFailureErrorView {
        LangServerFailureErrorView { kind: self.kind@, message: self.message@ }
    }
}

/// The report of a failed function, as the worker writes it.
#[derive(Debug, PartialEq, Eq)]
pub struct LangServerFailure {
    /// Empty where the worker named no execution.
    pub execution_id: String,
    pub error: LangServerFailureError,
}

/// [`LangServerFailure`] as the mathematical value that contracts speak of.
pub struct LangServerFailureView {
    pub execution_id: Seq<char>,
    pub error: LangServerFailureErrorView,
}

impl View for LangServerFailure {
    type V = LangServerFailureView;

    open spec fn view(&self) -> LangServerFailureView {
        LangServerFailureView { execution_id: self.execution_id@, error: self.error@ }
    }
}

/// The terminal record, as the worker writes it.
#[derive(Debug, PartialEq, Eq)]
pub enum LangServerResult {
    Success(LangServerSuccess),
    Failure(LangServerFailure),
}

/// [`LangServerResult`] as the mathematical value that contracts speak of.
pub enum LangServerResultView {
    Success(LangServerSuccessView),
    Failure(LangServerFailureView),
}

impl View for LangServerResult {
    type V = LangServerResultView;

    open spec fn view(&self) -> LangServerResultView {
        match self {
            LangServerResult::Success(success) => LangServerResultView::Success(success@),
            LangServerResult::Failure(failure) => LangServerResultView::Failure(failure@),
        }
    }
}

/// One record of the worker.
#[derive(Debug, PartialEq, Eq)]
pub enum LangServerQualificationCheckMessage {
    Output(LangServerOutput),
    Result(LangServerResult),
}

/// [`LangServerQualificationCheckMessage`] as the mathematical value that contracts speak of.
pub enum LangServerQualificationCheckMessageView {
    Output(LangServerOutputView),
    Result(LangServerResultView),
}

impl View for LangServerQualificationCheckMessage {
    type V = LangServerQualificationCheckMessageView;

    open spec fn view(&self) -> LangServerQualificationCheckMessageView {
        match self {
            LangServerQualificationCheckMessage::Output(output) => {
                LangServerQualificationCheckMessageView::Output(output@)
            },
            LangServerQualificationCheckMessage::Result(result) => {
                LangServerQualificationCheckMessageView::Result(result@)
            },
        }
    }
}

/// The sub-check that a document holds: an object whose `description` is a
/// string and whose `status` is one of the four status names.
pub open spec fn sub_check_of(doc: JsonView) -> Result<QualificationSubCheckView, SchemaError> {
    let description = required_text(doc, Key::Description);
    let status = required_text(doc, Key::Status);
    if !(doc is Object) {
        Err(SchemaError::NotAnObject)
    } else if description is Err {
        Err(description->Err_0)
    } else if status is Err {
        Err(status->Err_0)
    } else {
        match QualificationSubCheckStatus::of_tag(status->Ok_0) {
            Some(status) => Ok(
                QualificationSubCheckView { description: description->Ok_0, status },
            ),
            None => Err(SchemaError::Invalid(Key::Status)),
        }
    }
}

/// The sub-checks that a list of documents holds, in order; the error of the
/// first document that holds none.
pub open spec fn sub_checks_of(items: Seq<JsonView>) -> Result<
    Seq<QualificationSubCheckView>,
    SchemaError,
>
    decreases items.len(),
{
    if items.len() == 0 {
        Ok(Seq::empty())
    } else {
        match sub_checks_of(items.drop_last()) {
            Err(e) => Err(e),
            Ok(checks) => match sub_check_of(items.last()) {
                Err(e) => Err(e),
                Ok(check) => Ok(checks.push(check)),
            },
        }
    }
}

/// The sub-checks that `doc` may hold under `subChecks`: a missing member and
/// `null` both stand for none.
pub open spec fn optional_sub_checks(doc: JsonView) -> Result<
    Option<Seq<QualificationSubCheckView>>,
    SchemaError,
> {
    match doc.member(Key::SubChecks.name()) {
        None => Ok(None),
        Some(JsonView::Null) => Ok(None),
        Some(JsonView::List(items)) => match sub_checks_of(items) {
            Ok(checks) => Ok(Some(checks)),
            Err(e) => Err(e),
        },
        Some(_) => Err(SchemaError::Invalid(Key::SubChecks)),
    }
}

impl LangServerOutputView {
    /// The output that an object holds. A member is read in the order in
    /// which the schema lists it, and the first that does not fit is
    /// reported.
    pub open spec fn of_document(doc: JsonView) -> Result<LangServerOutputView, SchemaError> {
        let execution_id = required_text(doc, Key::ExecutionId);
        let stream = required_text(doc, Key::Stream);
        let level = required_text(doc, Key::Level);
        let group = optional_text(doc, Key::Group);
        let message = required_text(doc, Key::Message);
        if execution_id is Err {
            Err(execution_id->Err_0)
        } else if stream is Err {
            Err(stream->Err_0)
        } else if level is Err {
            Err(level->Err_0)
        } else if group is Err {
            Err(group->Err_0)
        } else if message is Err {
            Err(message->Err_0)
        } else {
            Ok(
                LangServerOutputView {
                    execution_id: execution_id->Ok_0,
                    stream: stream->Ok_0,
                    level: level->Ok_0,
                    group: group->Ok_0,
                    message: message->Ok_0,
                    data: optional_value(doc, Key::Data),
                },
            )
        }
    }

    /// This output as a message for the caller, translated at `timestamp`.
    pub open spec fn stamped(self, timestamp: u64) -> OutputStreamView {
        OutputStreamView {
            execution_id: self.execution_id,
            stream: self.stream,
            level: self.level,
            group: self.group,
            message: self.message,
            data: self.data,
            timestamp,
        }
    }
}

impl LangServerSuccessView {
    /// The verdict that an object holds.
    pub open spec fn of_document(doc: JsonView) -> Result<LangServerSuccessView, SchemaError> {
        let execution_id = required_text(doc, Key::ExecutionId);
        let qualified = required_flag(doc, Key::Qualified);
        let title = optional_text(doc, Key::Title);
        let link = optional_text(doc, Key::Link);
        let sub_checks = optional_sub_checks(doc);
        let message = optional_text(doc, Key::Message);
        if execution_id is Err {
            Err(execution_id->Err_0)
        } else if qualified is Err {
            Err(qualified->Err_0)
        } else if title is Err {
            Err(title->Err_0)
        } else if link is Err {
            Err(link->Err_0)
        } else if sub_checks is Err {
            Err(sub_checks->Err_0)
        } else if message is Err {
            Err(message->Err_0)
        } else {
            Ok(
                LangServerSuccessView {
                    execution_id: execution_id->Ok_0,
                    qualified: qualified->Ok_0,
                    title: title->Ok_0,
                    link: link->Ok_0,
                    sub_checks: sub_checks->Ok_0,
                    message: message->Ok_0,
                },
            )
        }
    }

    /// This verdict as the caller's, translated at `timestamp`.
    pub open spec fn stamped(self, timestamp: u64) -> QualificationCheckResultSuccessView {
        QualificationCheckResultSuccessView {
            execution_id: self.execution_id,
            qualified: self.qualified,
            title: self.title,
            link: self.link,
            sub_checks: self.sub_checks,
            message: self.message,
            timestamp,
        }
    }
}

impl LangServerFailureErrorView {
    /// The error that `doc` must hold under `error`: an object whose `kind`
    /// and `message` are strings.
    pub open spec fn of_document(doc: JsonView) -> Result<LangServerFailureErrorView, SchemaError> {
        match doc.member(Key::Error.name()) {
            None => Err(SchemaError::Missing(Key::Error)),
            Some(error) => {
                let kind = required_text(error, Key::Kind);
                let message = required_text(error, Key::Message);
                if !(error is Object) {
                    Err(SchemaError::Invalid(Key::Error))
                } else if kind is Err {
                    Err(kind->Err_0)
                } else if message is Err {
                    Err(message->Err_0)
                } else {
                    Ok(LangServerFailureErrorView { kind: kind->Ok_0, message: message->Ok_0 })
                }
            },
        }
    }
}

impl LangServerFailureView {
    /// The report that an object holds. The execution's name may be missing,
    /// and is then empty.
    pub open spec fn of_document(doc: JsonView) -> Result<LangServerFailureView, SchemaError> {
        let execution_id = defaulted_text(doc, Key::ExecutionId);
        let error = LangServerFailureErrorView::of_document(doc);
        if execution_id is Err {
            Err(execution_id->Err_0)
        } else if error is Err {
            Err(error->Err_0)
        } else {
            Ok(LangServerFailureView { execution_id: execution_id->Ok_0, error: error->Ok_0 })
        }
    }

    /// This report as the caller's, translated at `timestamp`.
    pub open spec fn stamped(self, timestamp: u64) -> FunctionResultFailureView {
        FunctionResultFailureView {
            execution_id: self.execution_id,
            error: FunctionResultFailureErrorView {
                kind: self.error.kind,
                message: self.error.message,
            },
            timestamp,
        }
    }
}

impl LangServerResultView {
    /// The terminal record that a document holds: an object whose `status`
    /// says which of the two it is.
    pub open spec fn of_document(doc: JsonView) -> Result<LangServerResultView, SchemaError> {
        if !(doc is Object) {
            Err(SchemaError::NotAnObject)
        } else {
            match required_text(doc, Key::Status) {
                Err(e) => Err(e),
                Ok(status) => if status == "success"@ {
                    match LangServerSuccessView::of_document(doc) {
                        Ok(success) => Ok(LangServerResultView::Success(success)),
                        Err(e) => Err(e),
                    }
                } else if status == "failure"@ {
                    match LangServerFailureView::of_document(doc) {
                        Ok(failure) => Ok(LangServerResultView::Failure(failure)),
                        Err(e) => Err(e),
                    }
                } else {
                    Err(SchemaError::Invalid(Key::Status))
                },
            }
        }
    }

    /// This record as the caller's, translated at `timestamp`.
    pub open spec fn stamped(self, timestamp: u64) -> FunctionResultView {
        match self {
            LangServerResultView::Success(success) => FunctionResultView::Success(
                success.stamped(timestamp),
            ),
            LangServerResultView::Failure(failure) => FunctionResultView::Failure(
                failure.stamped(timestamp),
            ),
        }
    }
}

impl LangServerQualificationCheckMessageView {
    /// The record that a document holds: an object whose `protocol` says
    /// which of the two it is.
    pub open spec fn of_document(doc: JsonView) -> Result<
        LangServerQualificationCheckMessageView,
        SchemaError,
    > {
        if !(doc is Object) {
            Err(SchemaError::NotAnObject)
        } else {
            match required_text(doc, Key::Protocol) {
                Err(e) => Err(e),
                Ok(protocol) => if protocol == "output"@ {
                    match LangServerOutputView::of_document(doc) {
                        Ok(output) => Ok(LangServerQualificationCheckMessageView::Output(output)),
                        Err(e) => Err(e),
                    }
                } else if protocol == "result"@ {
                    match LangServerResultView::of_document(doc) {
                        Ok(result) => Ok(LangServerQualificationCheckMessageView::Result(result)),
                        Err(e) => Err(e),
                    }
                } else {
                    Err(SchemaError::Invalid(Key::Protocol))
                },
            }
        }
    }

    /// The record that a line of the worker holds.
    pub open spec fn of_line(line: Seq<u8>) -> Result<
        LangServerQualificationCheckMessageView,
        DecodeErrorView,
    > {
        match parsed(line) {
            Err(why) => Err(DecodeErrorView::Syntax(why)),
            Ok(doc) => match Self::of_document(doc) {
                Ok(record) => Ok(record),
                Err(e) => Err(DecodeErrorView::Schema(e)),
            },
        }
    }

    /// This record as a message for the caller, translated at `timestamp`.
    pub open spec fn stamped(self, timestamp: u64) -> MessageView {
        match self {
            LangServerQualificationCheckMessageView::Output(output) => MessageView::OutputStream(
                output.stamped(timestamp),
            ),
            LangServerQualificationCheckMessageView::Result(result) => MessageView::Result(
                result.stamped(timestamp),
            ),
        }
    }
}

/// An error among the first documents of a list is the error of the list.
proof fn lemma_sub_checks_error(items: Seq<JsonView>, upto: int)
    requires
        0 <= upto <= items.len(),
        sub_checks_of(items.take(upto)) is Err,
    ensures
        sub_checks_of(items) == sub_checks_of(items.take(upto)),
    decreases items.len(),
{
    if upto == items.len() {
        assert(items.take(upto) =~= items);
    } else {
        assert(items.drop_last().take(upto) =~= items.take(upto));
        lemma_sub_checks_error(items.drop_last(), upto);
    }
}

/// Reads the sub-check that `doc` holds.
pub fn read_sub_check(doc: &Json) -> (r: Result<QualificationSubCheck, SchemaError>)
    ensures
        match r {
            Ok(check) => sub_check_of(doc@) == Ok::<QualificationSubCheckView, SchemaError>(
                check@,
            ),
            Err(e) => sub_check_of(doc@) == Err::<QualificationSubCheckView, SchemaError>(e),
        },
{
    match doc {
        Json::Object(_) => {},
        _ => {
            return Err(SchemaError::NotAnObject);
        },
    }
    let description = read_required_text(doc, Key::Description)?;
    let tag = read_required_text(doc, Key::Status)?;
    match QualificationSubCheckStatus::from_tag(&tag) {
        Some(status) => Ok(QualificationSubCheck { description, status }),
        None => Err(SchemaError::Invalid(Key::Status)),
    }
}

/// Reads the sub-checks that `doc` may hold under `subChecks`.
pub fn read_optional_sub_checks(doc: &Json) -> (r: Result<
    Option<Vec<QualificationSubCheck>>,
    SchemaError,
>)
    ensures
        match r {
            Ok(checks) => optional_sub_checks(doc@) == Ok::<
                Option<Seq<QualificationSubCheckView>>,
                SchemaError,
            >(checks.deep_view()),
            Err(e) => optional_sub_checks(doc@) == Err::<
                Option<Seq<QualificationSubCheckView>>,
                SchemaError,
            >(e),
        },
{
    match doc.get(Key::SubChecks.as_str()) {
        None => Ok(None),
        Some(value) => {
            if value.is_null() {
                return Ok(None);
            }
            match value.as_list() {
                None => Err(SchemaError::Invalid(Key::SubChecks)),
                Some(items) => {
                    let ghost all = items.deep_view();
                    let mut checks: Vec<QualificationSubCheck> = Vec::new();
                    let mut i: usize = 0;
                    assert(all.take(0) =~= Seq::<JsonView>::empty());
                    assert(checks.deep_view() =~= Seq::<QualificationSubCheckView>::empty());
                    while i < items.len()
                        invariant
                            i <= items.len(),
                            all == items.deep_view(),
                            doc@.member(Key::SubChecks.name()) == Some(JsonView::List(all)),
                            sub_checks_of(all.take(i as int)) == Ok::<
                                Seq<QualificationSubCheckView>,
                                SchemaError,
                            >(checks.deep_view()),
                        decreases items.len() - i,
                    {
                        let ghost before = checks.deep_view();
                        proof {
                            assert(all.take(i + 1).drop_last() =~= all.take(i as int));
                            assert(all.take(i + 1).last() == items[i as int]@);
                        }
                        match read_sub_check(&items[i]) {
                            Ok(check) => {
                                checks.push(check);
                                assert(checks.deep_view() =~= before.push(check@));
                            },
                            Err(e) => {
                                proof {
                                    lemma_sub_checks_error(all, i + 1);
                                }
                                return Err(e);
                            },
                        }
                        i += 1;
                    }
                    assert(all.take(i as int) =~= all);
                    Ok(Some(checks))
                },
            }
        },
    }
}

impl LangServerOutput {
    /// Reads the output that `doc` holds.
    pub fn from_document(doc: &Json) -> (r: Result<LangServerOutput, SchemaError>)
        ensures
            match r {
                Ok(output) => LangServerOutputView::of_document(doc@) == Ok::<
                    LangServerOutputView,
                    SchemaError,
                >(output@),
                Err(e) => LangServerOutputView::of_document(doc@) == Err::<
                    LangServerOutputView,
                    SchemaError,
                >(e),
            },
    {
        let execution_id = read_required_text(doc, Key::ExecutionId)?;
        let stream = read_required_text(doc, Key::Stream)?;
        let level = read_required_text(doc, Key::Level)?;
        let group = read_optional_text(doc, Key::Group)?;
        let message = read_required_text(doc, Key::Message)?;
        let data = read_optional_value(doc, Key::Data);
        Ok(LangServerOutput { execution_id, stream, level, group, message, data })
    }
}

impl LangServerSuccess {
    /// Reads the verdict that `doc` holds.
    pub fn from_document(doc: &Json) -> (r: Result<LangServerSuccess, SchemaError>)
        ensures
            match r {
                Ok(success) => LangServerSuccessView::of_document(doc@) == Ok::<
                    LangServerSuccessView,
                    SchemaError,
                >(success@),
                Err(e) => LangServerSuccessView::of_document(doc@) == Err::<
                    LangServerSuccessView,
                    SchemaError,
                >(e),
            },
    {
        let execution_id = read_required_text(doc, Key::ExecutionId)?;
        let qualified = read_required_flag(doc, Key::Qualified)?;
        let title = read_optional_text(doc, Key::Title)?;
        let link = read_optional_text(doc, Key::Link)?;
        let sub_checks = read_optional_sub_checks(doc)?;
        let message = read_optional_text(doc, Key::Message)?;
        Ok(LangServerSuccess { execution_id, qualified, title, link, sub_checks, message })
    }
}

impl LangServerFailureError {
    /// Reads the error that `doc` holds under `error`.
    pub fn from_document(doc: &Json) -> (r: Result<LangServerFailureError, SchemaError>)
        ensures
            match r {
                Ok(error) => LangServerFailureErrorView::of_document(doc@) == Ok::<
                    LangServerFailureErrorView,
                    SchemaError,
                >(error@),
                Err(e) => LangServerFailureErrorView::of_document(doc@) == Err::<
                    LangServerFailureErrorView,
                    SchemaError,
                >(e),
            },
    {
        match doc.get(Key::Error.as_str()) {
            None => Err(SchemaError::Missing(Key::Error)),
            Some(error) => {
                match error {
                    Json::Object(_) => {},
                    _ => {
                        return Err(SchemaError::Invalid(Key::Error));
                    },
                }
                let kind = read_required_text(error, Key::Kind)?;
                let message = read_required_text(error, Key::Message)?;
                Ok(LangServerFailureError { kind, message })
            },
        }
    }
}

impl LangServerFailure {
    /// Reads the report that `doc` holds.
    pub fn from_document(doc: &Json) -> (r: Result<LangServerFailure, SchemaError>)
        ensures
            match r {
                Ok(failure) => LangServerFailureView::of_document(doc@) == Ok::<
                    LangServerFailureView,
                    SchemaError,
                >(failure@),
                Err(e) => LangServerFailureView::of_document(doc@) == Err::<
                    LangServerFailureView,
                    SchemaError,
                >(e),
            },
    {
        let execution_id = read_defaulted_text(doc, Key::ExecutionId)?;
        let error = LangServerFailureError::from_document(doc)?;
        Ok(LangServerFailure { execution_id, error })
    }
}

impl LangServerResult {
    /// Reads the terminal record that `doc` holds.
    pub fn from_document(doc: &Json) -> (r: Result<LangServerResult, SchemaError>)
        ensures
            match r {
                Ok(result) => LangServerResultView::of_document(doc@) == Ok::<
                    LangServerResultView,
                    SchemaError,
                >(result@),
                Err(e) => LangServerResultView::of_document(doc@) == Err::<
                    LangServerResultView,
                    SchemaError,
                >(e),
            },
    {
        match doc {
            Json::Object(_) => {},
            _ => {
                return Err(SchemaError::NotAnObject);
            },
        }
        let status = read_required_text(doc, Key::Status)?;
        if text_is(&status, "success") {
            let success = LangServerSuccess::from_document(doc)?;
            Ok(LangServerResult::Success(success))
        } else if text_is(&status, "failure") {
            let failure = LangServerFailure::from_document(doc)?;
            Ok(LangServerResult::Failure(failure))
        } else {
            Err(SchemaError::Invalid(Key::Status))
        }
    }
}

impl LangServerQualificationCheckMessage {
    /// Reads the record that `doc` holds.
    pub fn from_document(doc: &Json) -> (r: Result<
        LangServerQualificationCheckMessage,
        SchemaError,
    >)
        ensures
            match r {
                Ok(record) => LangServerQualificationCheckMessageView::of_document(doc@) == Ok::<
                    LangServerQualificationCheckMessageView,
                    SchemaError,
                >(record@),
                Err(e) => LangServerQualificationCheckMessageView::of_document(doc@) == Err::<
                    LangServerQualificationCheckMessageView,
                    SchemaError,
                >(e),
            },
    {
        match doc {
            Json::Object(_) => {},
            _ => {
                return Err(SchemaError::NotAnObject);
            },
        }
        let protocol = read_required_text(doc, Key::Protocol)?;
        if text_is(&protocol, "output") {
            let output = LangServerOutput::from_document(doc)?;
            Ok(LangServerQualificationCheckMessage::Output(output))
        } else if text_is(&protocol, "result") {
            let result = LangServerResult::from_document(doc)?;
            Ok(LangServerQualificationCheckMessage::Result(result))
        } else {
            Err(SchemaError::Invalid(Key::Protocol))
        }
    }

    /// Reads the record that one line of the worker holds.
    pub fn deserialize_from_slice(line: &[u8]) -> (r: Result<
        LangServerQualificationCheckMessage,
        DecodeError,
    >)
        ensures
            match r {
                Ok(record) => LangServerQualificationCheckMessageView::of_line(line@) == Ok::<
                    LangServerQualificationCheckMessageView,
                    DecodeErrorView,
                >(record@),
                Err(e) => LangServerQualificationCheckMessageView::of_line(line@) == Err::<
                    LangServerQualificationCheckMessageView,
                    DecodeErrorView,
                >(e@),
            },
    {
        match parse(line) {
            Err(why) => Err(DecodeError::Syntax(why)),
            Ok(doc) => match Self::from_document(&doc) {
                Ok(record) => Ok(record),
                Err(e) => Err(DecodeError::Schema(e)),
            },
        }
    }

    /// Reads the record that one line of the worker holds, from its text.
    pub fn deserialize_from_str(line: &str) -> (r: Result<
        LangServerQualificationCheckMessage,
        DecodeError,
    >)
        ensures
            match r {
                Ok(record) => LangServerQualificationCheckMessageView::of_line(line.spec_bytes())
                    == Ok::<LangServerQualificationCheckMessageView, DecodeErrorView>(record@),
                Err(e) => LangServerQualificationCheckMessageView::of_line(line.spec_bytes())
                    == Err::<LangServerQualificationCheckMessageView, DecodeErrorView>(e@),
            },
    {
        Self::deserialize_from_slice(line.as_bytes())
    }
}

impl OutputStream {
    /// The message for the caller that carries `value`, translated at
    /// `timestamp`. Every member of the record is kept as it is.
    pub fn from_lang_server(value: LangServerOutput, timestamp: u64) -> (output: OutputStream)
        ensures
            output@ == value@.stamped(timestamp),
    {
        OutputStream {
            execution_id: value.execution_id,
            stream: value.stream,
            level: value.level,
            group: value.group,
            message: value.message,
            data: value.data,
            timestamp,
        }
    }
}

impl FunctionResult {
    /// The result for the caller that carries `value`, translated at
    /// `timestamp`. Every member of the record is kept as it is.
    pub fn from_lang_server(value: LangServerResult, timestamp: u64) -> (result: FunctionResult)
        ensures
            result@ == value@.stamped(timestamp),
    {
        match value {
            LangServerResult::Success(success) => FunctionResult::Success(
                QualificationCheckResultSuccess {
                    execution_id: success.execution_id,
                    qualified: success.qualified,
                    title: success.title,
                    link: success.link,
                    sub_checks: success.sub_checks,
                    message: success.message,
                    timestamp,
                },
            ),
            LangServerResult::Failure(failure) => FunctionResult::Failure(
                FunctionResultFailure {
                    execution_id: failure.execution_id,
                    error: FunctionResultFailureError {
                        kind: failure.error.kind,
                        message: failure.error.message,
                    },
                    timestamp,
                },
            ),
        }
    }
}

impl Message {
    /// The message for the caller that carries `record`, translated at
    /// `timestamp`: output becomes `OutputStream`, the terminal record
    /// becomes `Result`.
    pub fn from_lang_server(record: LangServerQualificationCheckMessage, timestamp: u64) -> (message:
        Message)
        ensures
            message@ == record@.stamped(timestamp),
    {
        match record {
            LangServerQualificationCheckMessage::Output(output) => Message::OutputStream(
                OutputStream::from_lang_server(output, timestamp),
            ),
            LangServerQualificationCheckMessage::Result(result) => Message::Result(
                FunctionResult::from_lang_server(result, timestamp),
            ),
        }
    }
}

/// A list of sub-checks that is written and read back is the list it was.
pub proof fn lemma_sub_checks_round_trip(checks: Seq<QualificationSubCheckView>)
    ensures
        sub_checks_of(sub_check_documents(checks)) == Ok::<
            Seq<QualificationSubCheckView>,
            SchemaError,
        >(checks),
    decreases checks.len(),
{
    let docs = sub_check_documents(checks);
    if checks.len() == 0 {
        assert(checks =~= Seq::empty());
    } else {
        let check = checks.last();
        let keys = seq![Key::Description, Key::Status];
        let values = seq![JsonView::Text(check.description), JsonView::Text(check.status.tag())];
        assert(check.document()->Object_0 =~= keyed(keys, values));
        lemma_member_of_keyed(keys, values, 0);
        lemma_member_of_keyed(keys, values, 1);
        check.status.lemma_tag_round_trip();
        assert(sub_check_of(docs.last()) == Ok::<QualificationSubCheckView, SchemaError>(check));
        assert(docs.drop_last() =~= sub_check_documents(checks.drop_last()));
        lemma_sub_checks_round_trip(checks.drop_last());
        assert(checks.drop_last().push(check) =~= checks);
    }
}

impl QualificationCheckResultSuccessView {
    /// The same verdict without its timestamp, as the worker holds it.
    pub open spec fn record(self) -> LangServerSuccessView {
        LangServerSuccessView {
            execution_id: self.execution_id,
            qualified: self.qualified,
            title: self.title,
            link: self.link,
            sub_checks: self.sub_checks,
            message: self.message,
        }
    }
}

impl FunctionResultFailureView {
    /// The same report without its timestamp, as the worker holds it.
    pub open spec fn record(self) -> LangServerFailureView {
        LangServerFailureView {
            execution_id: self.execution_id,
            error: LangServerFailureErrorView {
                kind: self.error.kind,
                message: self.error.message,
            },
        }
    }
}

impl FunctionResultView {
    /// The same result without its timestamp, as the worker holds it.
    pub open spec fn record(self) -> LangServerResultView {
        match self {
            FunctionResultView::Success(success) => LangServerResultView::Success(
                success.record(),
            ),
            FunctionResultView::Failure(failure) => LangServerResultView::Failure(
                failure.record(),
            ),
        }
    }

    /// The second at which the result was translated.
    pub open spec fn timestamp(self) -> u64 {
        match self {
            FunctionResultView::Success(success) => success.timestamp,
            FunctionResultView::Failure(failure) => failure.timestamp,
        }
    }
}

/// A result that is written for the caller and read back as a record of the
/// worker keeps every member but the timestamp, on its own and inside a
/// message. Translated again at `timestamp`, it carries that timestamp and no
/// other; translated at the second of the first translation, it is the result
/// it was.
pub proof fn lemma_result_round_trip(result: FunctionResultView, timestamp: u64)
    ensures
        LangServerResultView::of_document(result.document()) == Ok::<
            LangServerResultView,
            SchemaError,
        >(result.record()),
        LangServerQualificationCheckMessageView::of_document(
            MessageView::Result(result).document(),
        ) == Ok::<LangServerQualificationCheckMessageView, SchemaError>(
            LangServerQualificationCheckMessageView::Result(result.record()),
        ),
        result.record().stamped(timestamp).timestamp() == timestamp,
        result.record().stamped(timestamp).record() == result.record(),
        result.record().stamped(result.timestamp()) == result,
{
    let message = MessageView::Result(result);
    reveal_strlit("success");
    reveal_strlit("failure");
    reveal_strlit("result");
    reveal_strlit("output");
    assert("failure"@[0] != "success"@[0]);
    assert("result"@[0] != "output"@[0]);
    match result {
        FunctionResultView::Success(success) => {
            let keys = seq![
                Key::Status,
                Key::ExecutionId,
                Key::Qualified,
                Key::Title,
                Key::Link,
                Key::SubChecks,
                Key::Message,
                Key::Timestamp,
            ];
            let values = seq![
                JsonView::Text("success"@),
                JsonView::Text(success.execution_id),
                JsonView::Bool(success.qualified),
                text_or_null(success.title),
                text_or_null(success.link),
                sub_checks_document(success.sub_checks),
                text_or_null(success.message),
                JsonView::Number(crate::json::unsigned(success.timestamp)),
            ];
            assert(result.members() =~= keyed(keys, values));
            let tagged_keys = seq![Key::Protocol] + keys;
            let tagged_values = seq![JsonView::Text("result"@)] + values;
            assert(message.document()->Object_0 =~= keyed(tagged_keys, tagged_values));
            lemma_members_of_keyed(keys, values);
            lemma_members_of_keyed(tagged_keys, tagged_values);
            assert(tagged_keys[0] == Key::Protocol && tagged_keys[1] == Key::Status);
            assert(tagged_keys[2] == Key::ExecutionId && tagged_keys[3] == Key::Qualified);
            assert(tagged_keys[4] == Key::Title && tagged_keys[5] == Key::Link);
            assert(tagged_keys[6] == Key::SubChecks && tagged_keys[7] == Key::Message);
            if success.sub_checks is Some {
                lemma_sub_checks_round_trip(success.sub_checks->Some_0);
            }
            lemma_success_members_read(result.document(), success);
            lemma_success_members_read(message.document(), success);
        },
        FunctionResultView::Failure(failure) => {
            let keys = seq![Key::Status, Key::ExecutionId, Key::Error, Key::Timestamp];
            let values = seq![
                JsonView::Text("failure"@),
                JsonView::Text(failure.execution_id),
                failure.error.document(),
                JsonView::Number(crate::json::unsigned(failure.timestamp)),
            ];
            let error_keys = seq![Key::Kind, Key::Message];
            let error_values = seq![
                JsonView::Text(failure.error.kind),
                JsonView::Text(failure.error.message),
            ];
            assert(result.members() =~= keyed(keys, values));
            let tagged_keys = seq![Key::Protocol] + keys;
            let tagged_values = seq![JsonView::Text("result"@)] + values;
            assert(message.document()->Object_0 =~= keyed(tagged_keys, tagged_values));
            assert(failure.error.document()->Object_0 =~= keyed(error_keys, error_values));
            lemma_members_of_keyed(keys, values);
            lemma_members_of_keyed(tagged_keys, tagged_values);
            lemma_members_of_keyed(error_keys, error_values);
            assert(tagged_keys[0] == Key::Protocol && tagged_keys[1] == Key::Status);
            assert(tagged_keys[2] == Key::ExecutionId && tagged_keys[3] == Key::Error);
            lemma_failure_members_read(result.document(), failure);
            lemma_failure_members_read(message.document(), failure);
        },
    }
}

/// An object that holds the members of a verdict, each under its key, reads
/// as that verdict.
proof fn lemma_success_members_read(doc: JsonView, success: QualificationCheckResultSuccessView)
    requires
        doc.member(Key::ExecutionId.name()) == Some(JsonView::Text(success.execution_id)),
        doc.member(Key::Qualified.name()) == Some(JsonView::Bool(success.qualified)),
        doc.member(Key::Title.name()) == Some(text_or_null(success.title)),
        doc.member(Key::Link.name()) == Some(text_or_null(success.link)),
        doc.member(Key::SubChecks.name()) == Some(sub_checks_document(success.sub_checks)),
        doc.member(Key::Message.name()) == Some(text_or_null(success.message)),
        success.sub_checks is Some ==> sub_checks_of(
            sub_check_documents(success.sub_checks->Some_0),
        ) == Ok::<Seq<QualificationSubCheckView>, SchemaError>(success.sub_checks->Some_0),
    ensures
        LangServerSuccessView::of_document(doc) == Ok::<LangServerSuccessView, SchemaError>(
            success.record(),
        ),
{
}

/// An object that holds the members of a failure report, each under its key,
/// reads as that report.
proof fn lemma_failure_members_read(doc: JsonView, failure: FunctionResultFailureView)
    requires
        doc.member(Key::ExecutionId.name()) == Some(JsonView::Text(failure.execution_id)),
        doc.member(Key::Error.name()) == Some(failure.error.document()),
        failure.error.document().member(Key::Kind.name()) == Some(
            JsonView::Text(failure.error.kind),
        ),
        failure.error.document().member(Key::Message.name()) == Some(
            JsonView::Text(failure.error.message),
        ),
    ensures
        LangServerFailureView::of_document(doc) == Ok::<LangServerFailureView, SchemaError>(
            failure.record(),
        ),
{
}

} // verus!
