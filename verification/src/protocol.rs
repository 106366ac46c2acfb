//! The envelope exchanged with the caller, and the JSON document of each
//! message.
//!
//! A caller sees one JSON object per frame. Its member `protocol` tells the
//! four messages apart: `start`, `outputStream`, `result`, `finish`. A result
//! carries a second tag, `status`, which is `success` or `failure`.
use crate::json::{lemma_list_view, lemma_object_view, render, rendered, Json, JsonView};
use crate::schema::Key;
use vstd::prelude::*;
use vstd::string::StringExecFns;

verus! {

/// How one part of a qualification turned out.
#[derive(Clone, Copy, Debug, PartialEq, Eq, Structural)]
pub enum QualificationSubCheckStatus {
    Success,
    Warning,
    Failure,
    Unknown,
}

impl QualificationSubCheckStatus {
    /// The status as it stands in a document.
    pub open spec fn tag(self) -> Seq<char> {
        match self {
            QualificationSubCheckStatus::Success => "success"@,
            QualificationSubCheckStatus::Warning => "warning"@,
            QualificationSubCheckStatus::Failure => "failure"@,
            QualificationSubCheckStatus::Unknown => "unknown"@,
        }
    }

    /// The status that a document's string stands for.
    pub open spec fn of_tag(tag: Seq<char>) -> Option<QualificationSubCheckStatus> {
        if tag == "success"@ {
            Some(QualificationSubCheckStatus::Success)
        } else if tag == "warning"@ {
            Some(QualificationSubCheckStatus::Warning)
        } else if tag == "failure"@ {
            Some(QualificationSubCheckStatus::Failure)
        } else if tag == "unknown"@ {
            Some(QualificationSubCheckStatus::Unknown)
        } else {
            None
        }
    }

    /// The status as it stands in a document.
    pub fn as_str(self) -> (tag: &'static str)
        ensures
            tag@ == self.tag(),
    {
        match self {
            QualificationSubCheckStatus::Success => "success",
            QualificationSubCheckStatus::Warning => "warning",
            QualificationSubCheckStatus::Failure => "failure",
            QualificationSubCheckStatus::Unknown => "unknown",
        }
    }

    /// The status that `tag` stands for, if it stands for one.
    pub fn from_tag(tag: &String) -> (status: Option<QualificationSubCheckStatus>)
        ensures
            status == Self::of_tag(tag@),
    {
        if text_is(tag, "success") {
            Some(QualificationSubCheckStatus::Success)
        } else if text_is(tag, "warning") {
            Some(QualificationSubCheckStatus::Warning)
        } else if text_is(tag, "failure") {
            Some(QualificationSubCheckStatus::Failure)
        } else if text_is(tag, "unknown") {
            Some(QualificationSubCheckStatus::Unknown)
        } else {
            None
        }
    }

    /// Reading a written status gives it back.
    pub proof fn lemma_tag_round_trip(self)
        ensures
            Self::of_tag(self.tag()) == Some(self),
    {
        reveal_strlit("success");
        reveal_strlit("warning");
        reveal_strlit("failure");
        reveal_strlit("unknown");
        assert("success"@[0] == 's');
        assert("warning"@[0] == 'w');
        assert("failure"@[0] == 'f');
        assert("unknown"@[0] == 'u');
    }
}

/// Whether `text` reads `literal`.
pub(crate) fn text_is(text: &String, literal: &str) -> (same: bool)
    ensures
        same == (text@ == literal@),
{
    let wanted = String::from_str(literal);
    *text == wanted
}

/// One part of a qualification: what was checked, and how it turned out.
#[derive(Debug, PartialEq, Eq)]
pub struct QualificationSubCheck {
    pub description: String,
    pub status: QualificationSubCheckStatus,
}

/// [`QualificationSubCheck`] as the mathematical value that contracts speak of.
pub struct QualificationSubCheckView {
    pub description: Seq<char>,
    pub status: QualificationSubCheckStatus,
}

impl View for QualificationSubCheck {
    type V = QualificationSubCheckView;

    open spec fn view(&self) -> QualificationSubCheckView {
        QualificationSubCheckView { description: self.description@, status: self.status }
    }
}

impl DeepView for QualificationSubCheck {
    type V = QualificationSubCheckView;

    open spec fn deep_view(&self) -> QualificationSubCheckView {
        self@
    }
}

impl QualificationSubCheckView {
    /// The document of a sub-check: an object with `description` and `status`.
    pub open spec fn document(self) -> JsonView {
        JsonView::Object(
            seq![
                (Key::Description.name(), JsonView::Text(self.description)),
                (Key::Status.name(), JsonView::Text(self.status.tag())),
            ],
        )
    }
}

/// The documents of a list of sub-checks, in order.
pub open spec fn sub_check_documents(checks: Seq<QualificationSubCheckView>) -> Seq<JsonView> {
    Seq::new(checks.len(), |i: int| checks[i].document())
}

/// The document of an optional list of sub-checks: a list, or `null`.
pub open spec fn sub_checks_document(checks: Option<Seq<QualificationSubCheckView>>) -> JsonView {
    match checks {
        Some(checks) => JsonView::List(sub_check_documents(checks)),
        None => JsonView::Null,
    }
}

/// The document of an optional string: the string, or `null`.
pub open spec fn text_or_null(text: Option<Seq<char>>) -> JsonView {
    match text {
        Some(s) => JsonView::Text(s),
        None => JsonView::Null,
    }
}

/// The document of an optional payload: the payload, or `null`.
pub open spec fn value_or_null(value: Option<JsonView>) -> JsonView {
    match value {
        Some(v) => v,
        None => JsonView::Null,
    }
}

/// A member of an object under construction.
fn member(key: Key, value: Json) -> (m: (String, Json))
    ensures
        m.deep_view() == (key.name(), value@),
{
    (String::from_str(key.as_str()), value)
}

impl QualificationSubCheck {
    /// The document of this sub-check.
    pub fn to_document(&self) -> (doc: Json)
        ensures
            doc@ == self@.document(),
    {
        let mut members: Vec<(String, Json)> = Vec::new();
        members.push(member(Key::Description, Json::Text(self.description.clone())));
        members.push(member(Key::Status, Json::text(self.status.as_str())));
        proof {
            lemma_object_view(members);
            assert(members.deep_view() =~= self@.document()->Object_0);
        }
        Json::Object(members)
    }
}

/// The document of an optional list of sub-checks.
pub fn sub_checks_to_document(checks: &Option<Vec<QualificationSubCheck>>) -> (doc: Json)
    ensures
        doc@ == sub_checks_document(checks.deep_view()),
{
    match checks {
        None => Json::Null,
        Some(checks) => {
            let mut docs: Vec<Json> = Vec::new();
            let mut i: usize = 0;
            while i < checks.len()
                invariant
                    i <= checks.len(),
                    docs.len() == i,
                    forall|j: int| 0 <= j < i ==> (#[trigger] docs[j])@ == checks[j]@.document(),
                decreases checks.len() - i,
            {
                docs.push(checks[i].to_document());
                i += 1;
            }
            proof {
                lemma_list_view(docs);
                assert(docs.deep_view() =~= sub_check_documents(checks.deep_view()));
            }
            Json::List(docs)
        },
    }
}

/// One piece of output that the worker produced while it ran.
#[derive(Debug, PartialEq, Eq)]
pub struct OutputStream {
    pub execution_id: String,
    pub stream: String,
    pub level: String,
    pub group: Option<String>,
    pub message: String,
    pub data: Option<Json>,
    /// Seconds since the epoch at which the bridge translated the record.
    pub timestamp: u64,
}

/// [`OutputStream`] as the mathematical value that contracts speak of.
pub struct OutputStreamView {
    pub execution_id: Seq<char>,
    pub stream: Seq<char>,
    pub level: Seq<char>,
    pub group: Option<Seq<char>>,
    pub message: Seq<char>,
    pub data: Option<JsonView>,
    pub timestamp: u64,
}

impl View for OutputStream {
    type V = OutputStreamView;

    open spec fn view(&self) -> OutputStreamView {
        OutputStreamView {
            execution_id: self.execution_id@,
            stream: self.stream@,
            level: self.level@,
            group: self.group.deep_view(),
            message: self.message@,
            data: self.data.deep_view(),
            timestamp: self.timestamp,
        }
    }
}

/// The verdict of a qualification check that ran to its end.
#[derive(Debug, PartialEq, Eq)]
pub struct QualificationCheckResultSuccess {
    pub execution_id: String,
    pub qualified: bool,
    pub title: Option<String>,
    pub link: Option<String>,
    pub sub_checks: Option<Vec<QualificationSubCheck>>,
    pub message: Option<String>,
    /// Seconds since the epoch at which the bridge translated the record.
    pub timestamp: u64,
}

/// [`QualificationCheckResultSuccess`] as the mathematical value that contracts speak of.
pub struct QualificationCheckResultSuccessView {
    pub execution_id: Seq<char>,
    pub qualified: bool,
    pub title: Option<Seq<char>>,
    pub link: Option<Seq<char>>,
    pub sub_checks: Option<Seq<QualificationSubCheckView>>,
    pub message: Option<Seq<char>>,
    pub timestamp: u64,
}

impl View for QualificationCheckResultSuccess {
    type V = QualificationCheckResultSuccessView;

    open spec fn view(&self) -> QualificationCheckResultSuccessView {
        QualificationCheckResultSuccessView {
            execution_id: self.execution_id@,
            qualified: self.qualified,
            title: self.title.deep_view(),
            link: self.link.deep_view(),
            sub_checks: self.sub_checks.deep_view(),
            message: self.message.deep_view(),
            timestamp: self.timestamp,
        }
    }
}

/// What went wrong in a function that failed.
#[derive(Debug, PartialEq, Eq)]
pub struct FunctionResultFailureError {
    pub kind: String,
    pub message: String,
}

/// [`FunctionResultFailureError`] as the mathematical value that contracts speak of.
pub struct FunctionResultFailureErrorView {
    pub kind: Seq<char>,
    pub message: Seq<char>,
}

impl View for FunctionResultFailureError {
    type V = FunctionResultFailureErrorView;

    open spec fn view(&self) -> FunctionResultFailureErrorView {
        FunctionResultFailureErrorView { kind: self.kind@, message: self.message@ }
    }
}

/// The report of a function that failed.
#[derive(Debug, PartialEq, Eq)]
pub struct FunctionResultFailure {
    pub execution_id: String,
    pub error: FunctionResultFailureError,
    /// Seconds since the epoch at which the bridge translated the record.
    pub timestamp: u64,
}

/// [`FunctionResultFailure`] as the mathematical value that contracts speak of.
pub struct FunctionResultFailureView {
    pub execution_id: Seq<char>,
    pub error: FunctionResultFailureErrorView,
    pub timestamp: u64,
}

impl View for FunctionResultFailure {
    type V = FunctionResultFailureView;

    open spec fn view(&self) -> FunctionResultFailureView {
        FunctionResultFailureView {
            execution_id: self.execution_id@,
            error: self.error@,
            timestamp: self.timestamp,
        }
    }
}

/// The terminal record of an execution.
#[derive(Debug, PartialEq, Eq)]
pub enum FunctionResult {
    Success(QualificationCheckResultSuccess),
    Failure(FunctionResultFailure),
}

/// [`FunctionResult`] as the mathematical value that contracts speak of.
pub enum FunctionResultView {
    Success(QualificationCheckResultSuccessView),
    Failure(FunctionResultFailureView),
}

impl View for FunctionResult {
    type V = FunctionResultView;

    open spec fn view(&self) -> FunctionResultView {
        match self {
            FunctionResult::Success(success) => FunctionResultView::Success(success@),
            FunctionResult::Failure(failure) => FunctionResultView::Failure(failure@),
        }
    }
}

/// A message to the caller.
#[derive(Debug, PartialEq, Eq)]
pub enum Message {
    /// The bridge has taken the connection and waits for the request.
    Start,
    /// Output of the worker, in the order in which the worker wrote it.
    OutputStream(OutputStream),
    /// The worker's terminal record.
    Result(FunctionResult),
    /// Nothing follows.
    Finish,
}

/// [`Message`] as the mathematical value that contracts speak of.
pub enum MessageView {
    Start,
    OutputStream(OutputStreamView),
    Result(FunctionResultView),
    Finish,
}

impl View for Message {
    type V = MessageView;

    open spec fn view(&self) -> MessageView {
        match self {
            Message::Start => MessageView::Start,
            Message::OutputStream(output) => MessageView::OutputStream(output@),
            Message::Result(result) => MessageView::Result(result@),
            Message::Finish => MessageView::Finish,
        }
    }
}

impl OutputStreamView {
    /// The members that an `outputStream` message has after its tag.
    pub open spec fn members(self) -> Seq<(Seq<char>, JsonView)> {
        seq![
            (Key::ExecutionId.name(), JsonView::Text(self.execution_id)),
            (Key::Stream.name(), JsonView::Text(self.stream)),
            (Key::Level.name(), JsonView::Text(self.level)),
            (Key::Group.name(), text_or_null(self.group)),
            (Key::Message.name(), JsonView::Text(self.message)),
            (Key::Data.name(), value_or_null(self.data)),
            (Key::Timestamp.name(), JsonView::Number(crate::json::unsigned(self.timestamp))),
        ]
    }
}

impl QualificationCheckResultSuccessView {
    /// The members that a successful result has after its tags.
    pub open spec fn members(self) -> Seq<(Seq<char>, JsonView)> {
        seq![
            (Key::ExecutionId.name(), JsonView::Text(self.execution_id)),
            (Key::Qualified.name(), JsonView::Bool(self.qualified)),
            (Key::Title.name(), text_or_null(self.title)),
            (Key::Link.name(), text_or_null(self.link)),
            (Key::SubChecks.name(), sub_checks_document(self.sub_checks)),
            (Key::Message.name(), text_or_null(self.message)),
            (Key::Timestamp.name(), JsonView::Number(crate::json::unsigned(self.timestamp))),
        ]
    }
}

impl FunctionResultFailureErrorView {
    /// The document of an error: an object with `kind` and `message`.
    pub open spec fn document(self) -> JsonView {
        JsonView::Object(
            seq![
                (Key::Kind.name(), JsonView::Text(self.kind)),
                (Key::Message.name(), JsonView::Text(self.message)),
            ],
        )
    }
}

impl FunctionResultFailureView {
    /// The members that a failed result has after its tags.
    pub open spec fn members(self) -> Seq<(Seq<char>, JsonView)> {
        seq![
            (Key::ExecutionId.name(), JsonView::Text(self.execution_id)),
            (Key::Error.name(), self.error.document()),
            (Key::Timestamp.name(), JsonView::Number(crate::json::unsigned(self.timestamp))),
        ]
    }
}

impl FunctionResultView {
    /// The members of a result: the tag `status`, then those of the variant.
    pub open spec fn members(self) -> Seq<(Seq<char>, JsonView)> {
        match self {
            FunctionResultView::Success(success) => seq![
                (Key::Status.name(), JsonView::Text("success"@)),
            ] + success.members(),
            FunctionResultView::Failure(failure) => seq![
                (Key::Status.name(), JsonView::Text("failure"@)),
            ] + failure.members(),
        }
    }

    /// The document of a result on its own, as the worker's side reads it.
    pub open spec fn document(self) -> JsonView {
        JsonView::Object(self.members())
    }
}

impl MessageView {
    /// The document of a message: an object whose first member is the tag
    /// `protocol`, followed by the members of the message's body.
    pub open spec fn document(self) -> JsonView {
        match self {
            MessageView::Start => JsonView::Object(
                seq![(Key::Protocol.name(), JsonView::Text("start"@))],
            ),
            MessageView::OutputStream(output) => JsonView::Object(
                seq![(Key::Protocol.name(), JsonView::Text("outputStream"@))] + output.members(),
            ),
            MessageView::Result(result) => JsonView::Object(
                seq![(Key::Protocol.name(), JsonView::Text("result"@))] + result.members(),
            ),
            MessageView::Finish => JsonView::Object(
                seq![(Key::Protocol.name(), JsonView::Text("finish"@))],
            ),
        }
    }

    /// The frame that carries a message: its document in compact JSON text.
    pub open spec fn frame(self) -> Seq<char> {
        rendered(self.document())
    }
}

impl OutputStream {
    /// Appends the members of this output to an object under construction.
    fn push_members(&self, members: &mut Vec<(String, Json)>)
        ensures
            final(members).deep_view() == old(members).deep_view() + self@.members(),
    {
        let ghost before = members.deep_view();
        members.push(member(Key::ExecutionId, Json::Text(self.execution_id.clone())));
        members.push(member(Key::Stream, Json::Text(self.stream.clone())));
        members.push(member(Key::Level, Json::Text(self.level.clone())));
        members.push(member(Key::Group, Json::optional_text(&self.group)));
        members.push(member(Key::Message, Json::Text(self.message.clone())));
        let data = match &self.data {
            Some(data) => data.copy(),
            None => Json::Null,
        };
        members.push(member(Key::Data, data));
        members.push(member(Key::Timestamp, Json::unsigned(self.timestamp)));
        assert(members.deep_view() =~= before + self@.members());
    }
}

impl QualificationCheckResultSuccess {
    /// Appends the members of this verdict to an object under construction.
    fn push_members(&self, members: &mut Vec<(String, Json)>)
        ensures
            final(members).deep_view() == old(members).deep_view() + self@.members(),
    {
        let ghost before = members.deep_view();
        members.push(member(Key::ExecutionId, Json::Text(self.execution_id.clone())));
        members.push(member(Key::Qualified, Json::Bool(self.qualified)));
        members.push(member(Key::Title, Json::optional_text(&self.title)));
        members.push(member(Key::Link, Json::optional_text(&self.link)));
        members.push(member(Key::SubChecks, sub_checks_to_document(&self.sub_checks)));
        members.push(member(Key::Message, Json::optional_text(&self.message)));
        members.push(member(Key::Timestamp, Json::unsigned(self.timestamp)));
        assert(members.deep_view() =~= before + self@.members());
    }
}

impl FunctionResultFailureError {
    /// The document of this error.
    pub fn to_document(&self) -> (doc: Json)
        ensures
            doc@ == self@.document(),
    {
        let mut members: Vec<(String, Json)> = Vec::new();
        members.push(member(Key::Kind, Json::Text(self.kind.clone())));
        members.push(member(Key::Message, Json::Text(self.message.clone())));
        proof {
            lemma_object_view(members);
            assert(members.deep_view() =~= self@.document()->Object_0);
        }
        Json::Object(members)
    }
}

impl FunctionResultFailure {
    /// Appends the members of this report to an object under construction.
    fn push_members(&self, members: &mut Vec<(String, Json)>)
        ensures
            final(members).deep_view() == old(members).deep_view() + self@.members(),
    {
        let ghost before = members.deep_view();
        members.push(member(Key::ExecutionId, Json::Text(self.execution_id.clone())));
        members.push(member(Key::Error, self.error.to_document()));
        members.push(member(Key::Timestamp, Json::unsigned(self.timestamp)));
        assert(members.deep_view() =~= before + self@.members());
    }
}

impl FunctionResult {
    /// Appends the members of this result to an object under construction.
    fn push_members(&self, members: &mut Vec<(String, Json)>)
        ensures
            final(members).deep_view() == old(members).deep_view() + self@.members(),
    {
        let ghost before = members.deep_view();
        match self {
            FunctionResult::Success(success) => {
                members.push(member(Key::Status, Json::text("success")));
                success.push_members(members);
                assert(members.deep_view() =~= before + self@.members());
            },
            FunctionResult::Failure(failure) => {
                members.push(member(Key::Status, Json::text("failure")));
                failure.push_members(members);
                assert(members.deep_view() =~= before + self@.members());
            },
        }
    }

    /// The document of this result on its own.
    pub fn to_document(&self) -> (doc: Json)
        ensures
            doc@ == self@.document(),
    {
        let mut members: Vec<(String, Json)> = Vec::new();
        self.push_members(&mut members);
        proof {
            lemma_object_view(members);
            assert(members.deep_view() =~= self@.members());
        }
        Json::Object(members)
    }

    /// This result in compact JSON text.
    pub fn serialize_to_string(&self) -> (text: String)
        ensures
            text@ == rendered(self@.document()),
    {
        render(&self.to_document())
    }
}

impl Message {
    /// The document of this message.
    pub fn to_document(&self) -> (doc: Json)
        ensures
            doc@ == self@.document(),
    {
        let mut members: Vec<(String, Json)> = Vec::new();
        match self {
            Message::Start => {
                members.push(member(Key::Protocol, Json::text("start")));
            },
            Message::OutputStream(output) => {
                members.push(member(Key::Protocol, Json::text("outputStream")));
                output.push_members(&mut members);
            },
            Message::Result(result) => {
                members.push(member(Key::Protocol, Json::text("result")));
                result.push_members(&mut members);
            },
            Message::Finish => {
                members.push(member(Key::Protocol, Json::text("finish")));
            },
        }
        proof {
            lemma_object_view(members);
            assert(members.deep_view() =~= self@.document()->Object_0);
        }
        Json::Object(members)
    }

    /// The frame that carries this message: its document in compact JSON text.
    pub fn serialize_to_string(&self) -> (text: String)
        ensures
            text@ == self@.frame(),
    {
        render(&self.to_document())
    }
}

} // verus!
