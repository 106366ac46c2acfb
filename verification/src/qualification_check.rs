//! One execution of a qualification check, from the caller's connection to
//! the worker's exit.
//!
//! An execution passes through three phases. Unstarted: the bridge greets the
//! caller with `Start`, reads one request, starts the worker and hands it the
//! request. Started: the bridge pulls the worker's records one at a time and
//! forwards each to the caller before it pulls the next. Closing: the bridge
//! sends `Finish`, closes the connection and terminates the worker, all three
//! whatever became of the others, and reports the first failure in that order.
//!
//! This module decides; it performs nothing. Each phase is a value. A step
//! consumes the value together with the outcome of the operation that was
//! asked for last, and gives the next value together with what is to be done
//! next. The driver performs the operation and comes back with its outcome.
//! The connection stays with the driver. The worker, once there is one, is
//! owned by the phase: whatever the driver holds it by moves from each phase
//! into the next, and is given up when the last one ends. Because every step
//! consumes the value it is called on, an execution cannot be driven from two
//! phases at once, nor a phase be entered twice, nor a worker be reached but
//! through the phase that is live.
//!
//! [`step`] is the whole protocol as one function on plain values, and what
//! each executable step returns is stated against it.
use crate::clock::{clamped, now, timestamp_at};
use crate::error::{ChildStream, QualificationCheckError, QualificationCheckErrorView};
use crate::frames::{first_line_end, has_line_end, LineReader};
use crate::lang_server::{
    LangServerQualificationCheckMessage, LangServerQualificationCheckMessageView,
};
use crate::protocol::{Message, MessageView};
use crate::request::{QualificationCheckRequest, QualificationCheckRequestView};
use vstd::prelude::*;
use vstd::string::StringExecFns;

verus! {

/// The seconds that one send may take, to the caller or to the worker.
pub const TX_TIMEOUT_SECS: u64 = 2;

/// How a send ended.
#[derive(Debug, PartialEq, Eq)]
pub enum SendOutcome {
    Sent,
    /// The deadline passed first.
    TimedOut,
    /// The channel reported a failure, described by the string.
    Failed(String),
}

/// [`SendOutcome`] as the mathematical value that contracts speak of.
pub enum SendOutcomeView {
    Sent,
    TimedOut,
    Failed(Seq<char>),
}

impl View for SendOutcome {
    type V = SendOutcomeView;

    open spec fn view(&self) -> SendOutcomeView {
        match self {
            SendOutcome::Sent => SendOutcomeView::Sent,
            SendOutcome::TimedOut => SendOutcomeView::TimedOut,
            SendOutcome::Failed(why) => SendOutcomeView::Failed(why@),
        }
    }
}

/// What came in from the caller where one message was awaited.
#[derive(Debug, PartialEq, Eq)]
pub enum Inbound {
    /// A text frame.
    Text(String),
    /// A frame of another kind, described by the string.
    Other(String),
    /// The connection reported a failure, described by the string.
    Failed(String),
    /// The caller closed the connection.
    Closed,
}

/// [`Inbound`] as the mathematical value that contracts speak of.
pub enum InboundView {
    Text(Seq<char>),
    Other(Seq<char>),
    Failed(Seq<char>),
    Closed,
}

impl View for Inbound {
    type V = InboundView;

    open spec fn view(&self) -> InboundView {
        match self {
            Inbound::Text(text) => InboundView::Text(text@),
            Inbound::Other(frame) => InboundView::Other(frame@),
            Inbound::Failed(why) => InboundView::Failed(why@),
            Inbound::Closed => InboundView::Closed,
        }
    }
}

/// How starting the worker ended. `W` is whatever the driver holds a running
/// worker by: this crate carries it from phase to phase and never looks at
/// it.
#[derive(Debug, PartialEq, Eq)]
pub enum SpawnOutcome<W> {
    /// The worker runs; the flags say which of its pipes the bridge holds.
    Spawned { worker: W, stdin: bool, stdout: bool },
    /// The worker could not be started, for the reason in the string.
    Failed(String),
}

/// [`SpawnOutcome`] as the mathematical value that contracts speak of.
pub enum SpawnOutcomeView {
    Spawned { stdin: bool, stdout: bool },
    Failed(Seq<char>),
}

impl<W> View for SpawnOutcome<W> {
    type V = SpawnOutcomeView;

    open spec fn view(&self) -> SpawnOutcomeView {
        match self {
            SpawnOutcome::Spawned { worker, stdin, stdout } => SpawnOutcomeView::Spawned {
                stdin: *stdin,
                stdout: *stdout,
            },
            SpawnOutcome::Failed(why) => SpawnOutcomeView::Failed(why@),
        }
    }
}

/// What the worker's output gave where the next record was awaited.
#[derive(Debug, PartialEq, Eq)]
pub enum Pulled {
    /// One line, without its end.
    Line(Vec<u8>),
    /// Reading failed, for the reason in the string.
    Failed(String),
    /// The worker closed its output.
    End,
}

/// [`Pulled`] as the mathematical value that contracts speak of.
pub enum PulledView {
    Line(Seq<u8>),
    Failed(Seq<char>),
    End,
}

impl View for Pulled {
    type V = PulledView;

    open spec fn view(&self) -> PulledView {
        match self {
            Pulled::Line(line) => PulledView::Line(line@),
            Pulled::Failed(why) => PulledView::Failed(why@),
            Pulled::End => PulledView::End,
        }
    }
}

impl Pulled {
    /// What the worker's output gives next, as far as `reader` holds it. A
    /// line that is whole is handed out. When the pipe has `ended`, bytes
    /// that no line end follows are the last line, and after them comes the
    /// end. Otherwise the next line is not there yet, and more is to be read
    /// from the pipe.
    pub fn from_reader(reader: &mut LineReader, ended: bool) -> (next: Option<Pulled>)
        ensures
            match next {
                Some(Pulled::Line(line)) => if has_line_end(old(reader)@) {
                    &&& first_line_end(old(reader)@, line@.len() as int)
                    &&& line@ == old(reader)@.take(line@.len() as int)
                    &&& final(reader)@ == old(reader)@.skip(line@.len() as int + 1)
                } else {
                    &&& ended
                    &&& line@.len() > 0
                    &&& line@ == old(reader)@
                    &&& final(reader)@ == Seq::<u8>::empty()
                },
                Some(Pulled::End) => {
                    &&& ended
                    &&& old(reader)@.len() == 0
                    &&& final(reader)@ == old(reader)@
                },
                Some(Pulled::Failed(_)) => false,
                None => {
                    &&& !ended
                    &&& !has_line_end(old(reader)@)
                    &&& final(reader)@ == old(reader)@
                },
            },
    {
        match reader.next_line() {
            Some(line) => Some(Pulled::Line(line)),
            None => if ended {
                match reader.take_rest() {
                    Some(line) => Some(Pulled::Line(line)),
                    None => Some(Pulled::End),
                }
            } else {
                None
            },
        }
    }
}

/// The failure that an operation without a result reported, if it reported
/// one.
pub open spec fn failure_of(outcome: Result<(), String>) -> Option<Seq<char>> {
    match outcome {
        Ok(_) => None,
        Err(why) => Some(why@),
    }
}

/// The signal that asks the worker to stop.
#[derive(Clone, Copy, Debug, PartialEq, Eq, Structural)]
pub enum Signal {
    /// The polite request to terminate, which a process may handle.
    Terminate,
}

/// How to start the worker. Its input and output are to be piped to the
/// bridge.
#[derive(Debug, PartialEq, Eq)]
pub struct WorkerCommand {
    pub program: String,
    pub args: Vec<String>,
    pub env: Vec<(String, String)>,
}

/// [`WorkerCommand`] as the mathematical value that contracts speak of.
pub struct WorkerCommandView {
    pub program: Seq<char>,
    pub args: Seq<Seq<char>>,
    pub env: Seq<(Seq<char>, Seq<char>)>,
}

impl View for WorkerCommand {
    type V = WorkerCommandView;

    open spec fn view(&self) -> WorkerCommandView {
        WorkerCommandView {
            program: self.program@,
            args: self.args.deep_view(),
            env: self.env.deep_view(),
        }
    }
}

/// The argument that tells the worker to run a qualification check.
pub const QUALIFICATION_CHECK: &'static str = "qualificationcheck";

/// The entry of the environment that makes the worker log, and its value.
pub const DEBUG: (&'static str, &'static str) = ("DEBUG", "*");

/// The entry of the environment that bounds the depth to which the worker
/// logs a value, and its value.
pub const DEBUG_DEPTH: (&'static str, &'static str) = ("DEBUG_DEPTH", "5");

/// The command for the worker at `program`: the one argument that names the
/// kind of check and, where `debugging` is set, the two entries of the
/// environment that make the worker talk.
pub open spec fn worker_command(program: Seq<char>, debugging: bool) -> WorkerCommandView {
    WorkerCommandView {
        program,
        args: seq![QUALIFICATION_CHECK@],
        env: if debugging {
            seq![(DEBUG.0@, DEBUG.1@), (DEBUG_DEPTH.0@, DEBUG_DEPTH.1@)]
        } else {
            Seq::empty()
        },
    }
}

/// A message on its way to the caller.
#[derive(Debug, PartialEq, Eq)]
pub struct Frame {
    /// The message.
    pub message: Message,
    /// The text frame that carries it.
    pub text: String,
    /// The seconds that the send may take.
    pub deadline_secs: u64,
}

impl Frame {
    /// The text is the message's frame, and the deadline is the one deadline
    /// of all sends.
    pub open spec fn well_formed(&self) -> bool {
        &&& self.text@ == self.message@.frame()
        &&& self.deadline_secs == TX_TIMEOUT_SECS
    }

    /// The frame for `message`.
    pub fn new(message: Message) -> (frame: Frame)
        ensures
            frame.message == message,
            frame.well_formed(),
    {
        let text = message.serialize_to_string();
        Frame { message, text, deadline_secs: TX_TIMEOUT_SECS }
    }
}

/// The request on its way to the worker: one frame to write, after which the
/// worker's input is to be closed.
#[derive(Debug, PartialEq, Eq)]
pub struct Delivery {
    /// The frame: the request's line and the line end.
    pub frame: Vec<u8>,
    /// The seconds that the write may take, and again the close.
    pub deadline_secs: u64,
}

/// What is to be done at the end of an execution. The three operations are
/// independent: each is to be tried whatever became of the others.
#[derive(Debug, PartialEq, Eq)]
pub struct Teardown {
    /// The last message to the caller.
    pub finish: Frame,
    /// The signal for the worker.
    pub signal: Signal,
    /// The seconds to wait for the worker's exit; without a number, as long
    /// as it takes.
    pub grace_secs: Option<u64>,
}

/// Where an execution stands.
pub enum Phase {
    /// Nothing has happened. The worker is at the path, and the flag says
    /// whether it is to be started for debugging.
    Unstarted(Seq<char>, bool),
    /// `Start` is on its way to the caller.
    AcknowledgementPending(Seq<char>, bool),
    /// The caller's request is awaited.
    RequestPending(Seq<char>, bool),
    /// The worker at the path is being started, for the request.
    SpawnPending(Seq<char>, QualificationCheckRequestView),
    /// The request is on its way to the worker. The flag says whether the
    /// bridge holds the worker's output.
    DeliveryPending(bool),
    /// The next record of the worker is awaited.
    Started,
    /// A message is on its way to the caller.
    ForwardPending,
    /// The execution is being torn down.
    Closing,
    /// The execution was torn down.
    Finished,
    /// The execution ended before there was a worker.
    Refused,
}

/// The outcome of the operation that was asked for last.
pub enum Event {
    /// The caller has connected.
    Begun,
    /// `Start` was sent.
    Acknowledged(SendOutcomeView),
    /// The caller's connection gave a message.
    Received(InboundView),
    /// The worker was started.
    Spawned(SpawnOutcomeView),
    /// The request was written to the worker and the worker's input closed.
    Delivered(SendOutcomeView),
    /// The worker's output gave a record, while the clock read the given
    /// second.
    Pulled(PulledView, i64),
    /// A message was sent to the caller.
    Forwarded(SendOutcomeView),
    /// The three operations of the teardown were tried: the send of `Finish`,
    /// the close of the connection, the termination of the worker.
    TornDown(SendOutcomeView, Option<Seq<char>>, Option<Seq<char>>),
}

/// An operation that the bridge asks for.
pub enum Command {
    /// Send a message to the caller, within the deadline.
    Send(MessageView),
    /// Receive one message from the caller.
    Receive,
    /// Start the worker.
    Spawn(WorkerCommandView),
    /// Write the frame to the worker and close its input, each within the
    /// deadline.
    Deliver(Seq<u8>),
    /// Read the next record of the worker.
    Pull,
    /// Close the connection to the caller.
    Close,
    /// Signal the worker and wait for its exit.
    Terminate(Signal, Option<u64>),
}

/// What one step comes to.
pub struct Step {
    /// Where the execution stands now.
    pub next: Phase,
    /// What is to be done now, in this order.
    pub commands: Seq<Command>,
    /// The error that ends the phase, if the step ends it with one.
    pub error: Option<QualificationCheckErrorView>,
    /// Failures that are reported beside the error, not in its place.
    pub warnings: Seq<QualificationCheckErrorView>,
}

/// The three operations of the teardown.
pub open spec fn teardown_commands() -> Seq<Command> {
    seq![
        Command::Send(MessageView::Finish),
        Command::Close,
        Command::Terminate(Signal::Terminate, None),
    ]
}

impl Step {
    /// The execution goes on to `next`, and `command` is to be done.
    pub open spec fn command(next: Phase, command: Command) -> Step {
        Step { next, commands: seq![command], error: None, warnings: Seq::empty() }
    }

    /// The execution ends with `error` before there is a worker: nothing is
    /// left to be done.
    pub open spec fn refused(error: QualificationCheckErrorView) -> Step {
        Step {
            next: Phase::Refused,
            commands: Seq::empty(),
            error: Some(error),
            warnings: Seq::empty(),
        }
    }

    /// The phase ends with `error` while there is a worker: the execution is
    /// to be torn down.
    pub open spec fn aborted(error: QualificationCheckErrorView) -> Step {
        Step {
            next: Phase::Closing,
            commands: teardown_commands(),
            error: Some(error),
            warnings: Seq::empty(),
        }
    }

    /// The worker has closed its output: the execution is to be torn down.
    pub open spec fn closing() -> Step {
        Step {
            next: Phase::Closing,
            commands: teardown_commands(),
            error: None,
            warnings: Seq::empty(),
        }
    }

    /// The teardown is over; `errors` holds what failed, the weightiest
    /// first. The first is the error of the execution, the others are
    /// warnings.
    pub open spec fn finished(errors: Seq<QualificationCheckErrorView>) -> Step {
        Step {
            next: Phase::Finished,
            commands: Seq::empty(),
            error: if errors.len() > 0 {
                Some(errors[0])
            } else {
                None
            },
            warnings: if errors.len() > 0 {
                errors.subrange(1, errors.len() as int)
            } else {
                Seq::empty()
            },
        }
    }

    /// The event answers nothing that was asked for: nothing changes.
    pub open spec fn ignored(phase: Phase) -> Step {
        Step { next: phase, commands: Seq::empty(), error: None, warnings: Seq::empty() }
    }
}

/// The error of a send to the caller that did not succeed.
pub open spec fn transport_send_error(outcome: SendOutcomeView) -> Option<
    QualificationCheckErrorView,
> {
    match outcome {
        SendOutcomeView::Sent => None,
        SendOutcomeView::TimedOut => Some(QualificationCheckErrorView::SendTimeout),
        SendOutcomeView::Failed(why) => Some(QualificationCheckErrorView::WSSendIO(why)),
    }
}

/// The error of a send to the worker that did not succeed.
pub open spec fn worker_send_error(outcome: SendOutcomeView) -> Option<
    QualificationCheckErrorView,
> {
    match outcome {
        SendOutcomeView::Sent => None,
        SendOutcomeView::TimedOut => Some(QualificationCheckErrorView::SendTimeout),
        SendOutcomeView::Failed(why) => Some(QualificationCheckErrorView::ChildSendIO(why)),
    }
}

/// The request that the caller's connection gave, or the error of a
/// connection that gave none.
pub open spec fn request_of(inbound: InboundView) -> Result<
    QualificationCheckRequestView,
    QualificationCheckErrorView,
> {
    match inbound {
        InboundView::Text(text) => match QualificationCheckRequestView::of_text(text) {
            Ok(request) => Ok(request),
            Err(e) => Err(QualificationCheckErrorView::JSONDeserialize(e)),
        },
        InboundView::Other(frame) => Err(QualificationCheckErrorView::UnexpectedMessageType(frame)),
        InboundView::Failed(why) => Err(QualificationCheckErrorView::WSRecvIO(why)),
        InboundView::Closed => Err(QualificationCheckErrorView::WSRecvClosed),
    }
}

/// The one element of a present value, and none of an absent one.
pub open spec fn present<T>(value: Option<T>) -> Seq<T> {
    match value {
        Some(v) => seq![v],
        None => Seq::empty(),
    }
}

/// The failures of a teardown, the weightiest first: that of the send of
/// `Finish`, that of the close of the connection, that of the termination of
/// the worker.
pub open spec fn teardown_errors(
    finished: SendOutcomeView,
    closed: Option<Seq<char>>,
    shutdown: Option<Seq<char>>,
) -> Seq<QualificationCheckErrorView> {
    present(transport_send_error(finished)) + present(
        match closed {
            Some(why) => Some(QualificationCheckErrorView::WSClose(why)),
            None => None,
        },
    ) + present(
        match shutdown {
            Some(why) => Some(QualificationCheckErrorView::ChildShutdown(why)),
            None => None,
        },
    )
}

/// The protocol: what the execution in `phase` makes of `event`.
pub open spec fn step(phase: Phase, event: Event) -> Step {
    match (phase, event) {
        (Phase::Unstarted(program, debugging), Event::Begun) => Step::command(
            Phase::AcknowledgementPending(program, debugging),
            Command::Send(MessageView::Start),
        ),
        (Phase::AcknowledgementPending(program, debugging), Event::Acknowledged(outcome)) => {
            match transport_send_error(outcome) {
                Some(error) => Step::refused(error),
                None => Step::command(Phase::RequestPending(program, debugging), Command::Receive),
            }
        },
        (Phase::RequestPending(program, debugging), Event::Received(inbound)) => {
            match request_of(inbound) {
                Err(error) => Step::refused(error),
                Ok(request) => Step::command(
                    Phase::SpawnPending(program, request),
                    Command::Spawn(worker_command(program, debugging)),
                ),
            }
        },
        (Phase::SpawnPending(program, request), Event::Spawned(outcome)) => match outcome {
            SpawnOutcomeView::Failed(why) => Step::refused(
                QualificationCheckErrorView::ChildSpawn(why, program),
            ),
            SpawnOutcomeView::Spawned { stdin, stdout } => if stdin {
                Step::command(Phase::DeliveryPending(stdout), Command::Deliver(request.frame()))
            } else {
                Step::aborted(QualificationCheckErrorView::ChildIO(ChildStream::Stdin))
            },
        },
        (Phase::DeliveryPending(output_piped), Event::Delivered(outcome)) => {
            match worker_send_error(outcome) {
                Some(error) => Step::aborted(error),
                None => if output_piped {
                    Step::command(Phase::Started, Command::Pull)
                } else {
                    Step::aborted(QualificationCheckErrorView::ChildIO(ChildStream::Stdout))
                },
            }
        },
        (Phase::Started, Event::Pulled(pulled, seconds)) => match pulled {
            PulledView::End => Step::closing(),
            PulledView::Failed(why) => Step::aborted(QualificationCheckErrorView::ChildRecvIO(why)),
            PulledView::Line(line) => match LangServerQualificationCheckMessageView::of_line(line) {
                Err(e) => Step::aborted(QualificationCheckErrorView::JSONDeserialize(e)),
                Ok(record) => Step::command(
                    Phase::ForwardPending,
                    Command::Send(record.stamped(clamped(seconds))),
                ),
            },
        },
        (Phase::ForwardPending, Event::Forwarded(outcome)) => match transport_send_error(outcome) {
            Some(error) => Step::aborted(error),
            None => Step::command(Phase::Started, Command::Pull),
        },
        (Phase::Closing, Event::TornDown(finished, closed, shutdown)) => Step::finished(
            teardown_errors(finished, closed, shutdown),
        ),
        _ => Step::ignored(phase),
    }
}

/// The error of a send to the caller that did not succeed.
pub fn ws_send(outcome: SendOutcome) -> (r: Result<(), QualificationCheckError>)
    ensures
        r.err().deep_view() == transport_send_error(outcome@),
{
    match outcome {
        SendOutcome::Sent => Ok(()),
        SendOutcome::TimedOut => Err(QualificationCheckError::SendTimeout),
        SendOutcome::Failed(why) => Err(QualificationCheckError::WSSendIO(why)),
    }
}

/// The error of a close of the connection that did not succeed.
pub fn ws_close(outcome: Result<(), String>) -> (r: Result<(), QualificationCheckError>)
    ensures
        r.err().deep_view() == match failure_of(outcome) {
            Some(why) => Some(QualificationCheckErrorView::WSClose(why)),
            None => None,
        },
{
    match outcome {
        Ok(_) => Ok(()),
        Err(why) => Err(QualificationCheckError::WSClose(why)),
    }
}

/// The error of a termination of the worker that did not succeed.
pub fn child_shutdown(outcome: Result<(), String>) -> (r: Result<(), QualificationCheckError>)
    ensures
        r.err().deep_view() == match failure_of(outcome) {
            Some(why) => Some(QualificationCheckErrorView::ChildShutdown(why)),
            None => None,
        },
{
    match outcome {
        Ok(_) => Ok(()),
        Err(why) => Err(QualificationCheckError::ChildShutdown(why)),
    }
}

/// The error of a send of the request to the worker that did not succeed.
pub fn child_send_function_request(outcome: SendOutcome) -> (r: Result<
    (),
    QualificationCheckError,
>)
    ensures
        r.err().deep_view() == worker_send_error(outcome@),
{
    match outcome {
        SendOutcome::Sent => Ok(()),
        SendOutcome::TimedOut => Err(QualificationCheckError::SendTimeout),
        SendOutcome::Failed(why) => Err(QualificationCheckError::ChildSendIO(why)),
    }
}

/// The request that the caller's connection gave.
pub fn read_request(inbound: Inbound) -> (r: Result<
    QualificationCheckRequest,
    QualificationCheckError,
>)
    ensures
        match r {
            Ok(request) => request_of(inbound@) == Ok::<
                QualificationCheckRequestView,
                QualificationCheckErrorView,
            >(request@),
            Err(error) => request_of(inbound@) == Err::<
                QualificationCheckRequestView,
                QualificationCheckErrorView,
            >(error@),
        },
{
    match inbound {
        Inbound::Text(text) => match QualificationCheckRequest::deserialize_from_str(
            text.as_str(),
        ) {
            Ok(request) => Ok(request),
            Err(e) => Err(QualificationCheckError::JSONDeserialize(e)),
        },
        Inbound::Other(frame) => Err(QualificationCheckError::UnexpectedMessageType(frame)),
        Inbound::Failed(why) => Err(QualificationCheckError::WSRecvIO(why)),
        Inbound::Closed => Err(QualificationCheckError::WSRecvClosed),
    }
}

/// An execution that has not begun.
#[derive(Debug)]
pub struct QualificationCheckExecution {
    lang_server_path: String,
    lang_server_debugging: bool,
}

impl QualificationCheckExecution {
    /// The path of the worker.
    pub closed spec fn program(&self) -> Seq<char> {
        self.lang_server_path@
    }

    /// Whether the worker is to be started for debugging.
    pub closed spec fn debugging(&self) -> bool {
        self.lang_server_debugging
    }
}

impl View for QualificationCheckExecution {
    type V = Phase;

    open spec fn view(&self) -> Phase {
        Phase::Unstarted(self.program(), self.debugging())
    }
}

/// An execution for the worker at `lang_server_path`, which is started for
/// debugging where `lang_server_debugging` is set.
pub fn execute(lang_server_path: String, lang_server_debugging: bool) -> (execution:
    QualificationCheckExecution)
    ensures
        execution@ == Phase::Unstarted(lang_server_path@, lang_server_debugging),
{
    QualificationCheckExecution { lang_server_path, lang_server_debugging }
}

/// An execution whose `Start` is on its way to the caller.
#[derive(Debug)]
pub struct AcknowledgementPending {
    lang_server_path: String,
    lang_server_debugging: bool,
}

impl AcknowledgementPending {
    /// The path of the worker.
    pub closed spec fn program(&self) -> Seq<char> {
        self.lang_server_path@
    }

    /// Whether the worker is to be started for debugging.
    pub closed spec fn debugging(&self) -> bool {
        self.lang_server_debugging
    }
}

impl View for AcknowledgementPending {
    type V = Phase;

    open spec fn view(&self) -> Phase {
        Phase::AcknowledgementPending(self.program(), self.debugging())
    }
}

/// An execution that awaits the caller's request.
#[derive(Debug)]
pub struct RequestPending {
    lang_server_path: String,
    lang_server_debugging: bool,
}

impl RequestPending {
    /// The path of the worker.
    pub closed spec fn program(&self) -> Seq<char> {
        self.lang_server_path@
    }

    /// Whether the worker is to be started for debugging.
    pub closed spec fn debugging(&self) -> bool {
        self.lang_server_debugging
    }
}

impl View for RequestPending {
    type V = Phase;

    open spec fn view(&self) -> Phase {
        Phase::RequestPending(self.program(), self.debugging())
    }
}

/// An execution whose worker is being started.
#[derive(Debug)]
pub struct SpawnPending {
    lang_server_path: String,
    request: QualificationCheckRequest,
}

impl SpawnPending {
    /// The path of the worker.
    pub closed spec fn program(&self) -> Seq<char> {
        self.lang_server_path@
    }

    /// The request that the worker is started for.
    pub closed spec fn request(&self) -> QualificationCheckRequestView {
        self.request@
    }
}

impl View for SpawnPending {
    type V = Phase;

    open spec fn view(&self) -> Phase {
        Phase::SpawnPending(self.program(), self.request())
    }
}

/// An execution whose request is on its way to the worker. From here on the
/// execution owns the worker: the handle moves with the phase, and is given
/// up with the last one.
#[derive(Debug)]
pub struct DeliveryPending<W> {
    worker: W,
    output_piped: bool,
}

impl<W> View for DeliveryPending<W> {
    type V = Phase;

    open spec fn view(&self) -> Phase {
        Phase::DeliveryPending(self.output_piped())
    }
}

impl<W> DeliveryPending<W> {
    /// Whether the bridge holds the worker's output.
    pub closed spec fn output_piped(&self) -> bool {
        self.output_piped
    }

    /// The handle of the worker that this execution owns.
    pub closed spec fn handle(&self) -> W {
        self.worker
    }

    /// The worker that this execution owns.
    pub fn worker(&self) -> (worker: &W)
        ensures
            *worker == self.handle(),
    {
        &self.worker
    }

    /// The worker that this execution owns, for the driver to work on. The
    /// execution stands where it stood.
    pub fn worker_mut(&mut self) -> (worker: &mut W)
        ensures
            *worker == old(self).handle(),
            final(self).handle() == *final(worker),
            final(self)@ == old(self)@,
    {
        &mut self.worker
    }
}

/// An execution whose worker has the request: its records are awaited.
#[derive(Debug)]
pub struct QualificationCheckServerExecutionStarted<W> {
    worker: W,
}

impl<W> View for QualificationCheckServerExecutionStarted<W> {
    type V = Phase;

    open spec fn view(&self) -> Phase {
        Phase::Started
    }
}

impl<W> QualificationCheckServerExecutionStarted<W> {
    /// The handle of the worker that this execution owns.
    pub closed spec fn handle(&self) -> W {
        self.worker
    }

    /// The worker that this execution owns.
    pub fn worker(&self) -> (worker: &W)
        ensures
            *worker == self.handle(),
    {
        &self.worker
    }

    /// The worker that this execution owns, for the driver to work on. The
    /// execution stands where it stood.
    pub fn worker_mut(&mut self) -> (worker: &mut W)
        ensures
            *worker == old(self).handle(),
            final(self).handle() == *final(worker),
            final(self)@ == old(self)@,
    {
        &mut self.worker
    }
}

/// An execution with a message on its way to the caller.
#[derive(Debug)]
pub struct ForwardPending<W> {
    worker: W,
}

impl<W> View for ForwardPending<W> {
    type V = Phase;

    open spec fn view(&self) -> Phase {
        Phase::ForwardPending
    }
}

impl<W> ForwardPending<W> {
    /// The handle of the worker that this execution owns.
    pub closed spec fn handle(&self) -> W {
        self.worker
    }

    /// The worker that this execution owns.
    pub fn worker(&self) -> (worker: &W)
        ensures
            *worker == self.handle(),
    {
        &self.worker
    }

    /// The worker that this execution owns, for the driver to work on. The
    /// execution stands where it stood.
    pub fn worker_mut(&mut self) -> (worker: &mut W)
        ensures
            *worker == old(self).handle(),
            final(self).handle() == *final(worker),
            final(self)@ == old(self)@,
    {
        &mut self.worker
    }
}

/// An execution that is to be torn down.
#[derive(Debug)]
pub struct QualificationCheckServerExecutionClosing<W> {
    worker: W,
}

impl<W> View for QualificationCheckServerExecutionClosing<W> {
    type V = Phase;

    open spec fn view(&self) -> Phase {
        Phase::Closing
    }
}

impl<W> QualificationCheckServerExecutionClosing<W> {
    /// The handle of the worker that this execution owns.
    pub closed spec fn handle(&self) -> W {
        self.worker
    }

    /// The worker that this execution owns.
    pub fn worker(&self) -> (worker: &W)
        ensures
            *worker == self.handle(),
    {
        &self.worker
    }

    /// The worker that this execution owns, for the driver to work on. The
    /// execution stands where it stood.
    pub fn worker_mut(&mut self) -> (worker: &mut W)
        ensures
            *worker == old(self).handle(),
            final(self).handle() == *final(worker),
            final(self)@ == old(self)@,
    {
        &mut self.worker
    }
}

/// A phase that ended with an error while there was a worker. The execution
/// is still to be torn down.
#[derive(Debug)]
pub struct Aborted<W> {
    pub error: QualificationCheckError,
    pub closing: QualificationCheckServerExecutionClosing<W>,
}

impl<W> Aborted<W> {
    /// This value reports `step`, taken by an execution that owned `worker`.
    pub open spec fn is_step(&self, step: Step, worker: W) -> bool {
        &&& step == Step::aborted(self.error@)
        &&& self.closing@ == Phase::Closing
        &&& self.closing.handle() == worker
    }

    fn new(error: QualificationCheckError, worker: W) -> (aborted: Aborted<W>)
        ensures
            aborted.error == error,
            aborted.is_step(Step::aborted(error@), worker),
    {
        Aborted { error, closing: QualificationCheckServerExecutionClosing { worker } }
    }
}

/// Why the worker is not at work after it was to be started.
#[derive(Debug)]
pub enum SpawnFailure<W> {
    /// There is no worker, and nothing to tear down.
    Refused(QualificationCheckError),
    /// There is a worker that the bridge cannot talk to.
    Aborted(Aborted<W>),
}

/// What the Started phase makes of one pull.
#[derive(Debug)]
pub enum ProcessStep<W> {
    /// A record came: the frame is to be sent to the caller.
    Forward(ForwardPending<W>, Frame),
    /// The worker closed its output: the phase is over.
    Finished(QualificationCheckServerExecutionClosing<W>),
    /// The phase ended with an error.
    Aborted(Aborted<W>),
}

impl<W> ProcessStep<W> {
    /// This value reports `step`, taken by an execution that owned `worker`.
    pub open spec fn is_step(&self, step: Step, worker: W) -> bool {
        match self {
            ProcessStep::Forward(pending, frame) => {
                &&& step == Step::command(pending@, Command::Send(frame.message@))
                &&& frame.well_formed()
                &&& pending.handle() == worker
            },
            ProcessStep::Finished(closing) => {
                &&& step == Step::closing()
                &&& closing@ == Phase::Closing
                &&& closing.handle() == worker
            },
            ProcessStep::Aborted(aborted) => aborted.is_step(step, worker),
        }
    }
}

/// How an execution ended.
#[derive(Debug, PartialEq, Eq)]
pub struct ShutdownReport {
    /// The weightiest failure of the teardown, if any operation failed.
    pub result: Result<(), QualificationCheckError>,
    /// The other failures of the teardown, the weightier first.
    pub warnings: Vec<QualificationCheckError>,
}

impl ShutdownReport {
    /// This report closes `step`.
    pub open spec fn is_step(&self, step: Step) -> bool {
        &&& step.next == Phase::Finished
        &&& step.commands == Seq::<Command>::empty()
        &&& step.error == self.result.err().deep_view()
        &&& step.warnings == self.warnings.deep_view()
    }
}

/// The command that starts the worker at `program`.
pub fn command_for(program: &String, debugging: bool) -> (command: WorkerCommand)
    ensures
        command@ == worker_command(program@, debugging),
{
    let mut args: Vec<String> = Vec::new();
    args.push(String::from_str(QUALIFICATION_CHECK));
    let mut env: Vec<(String, String)> = Vec::new();
    if debugging {
        env.push((String::from_str(DEBUG.0), String::from_str(DEBUG.1)));
        env.push((String::from_str(DEBUG_DEPTH.0), String::from_str(DEBUG_DEPTH.1)));
    }
    let command = WorkerCommand { program: program.clone(), args, env };
    assert(command.args.deep_view() =~= worker_command(program@, debugging).args);
    assert(command.env.deep_view() =~= worker_command(program@, debugging).env);
    command
}

impl QualificationCheckExecution {
    /// Begins the execution: `Start` is to be sent to the caller.
    pub fn start(self) -> (r: (AcknowledgementPending, Frame))
        ensures
            step(self@, Event::Begun) == Step::command(r.0@, Command::Send(r.1.message@)),
            r.1.message@ == MessageView::Start,
            r.1.well_formed(),
    {
        let pending = AcknowledgementPending {
            lang_server_path: self.lang_server_path,
            lang_server_debugging: self.lang_server_debugging,
        };
        (pending, Frame::new(Message::Start))
    }
}

impl AcknowledgementPending {
    /// `Start` was sent, with `outcome`: where it reached the caller, one
    /// message is to be received.
    pub fn acknowledged(self, outcome: SendOutcome) -> (r: Result<
        RequestPending,
        QualificationCheckError,
    >)
        ensures
            match r {
                Ok(next) => step(self@, Event::Acknowledged(outcome@)) == Step::command(
                    next@,
                    Command::Receive,
                ),
                Err(error) => step(self@, Event::Acknowledged(outcome@)) == Step::refused(error@),
            },
    {
        match ws_send(outcome) {
            Err(error) => Err(error),
            Ok(_) => Ok(
                RequestPending {
                    lang_server_path: self.lang_server_path,
                    lang_server_debugging: self.lang_server_debugging,
                },
            ),
        }
    }
}

impl RequestPending {
    /// The caller's connection gave `inbound`: where that is a request, the
    /// worker is to be started.
    pub fn received(self, inbound: Inbound) -> (r: Result<
        (SpawnPending, WorkerCommand),
        QualificationCheckError,
    >)
        ensures
            match r {
                Ok((next, command)) => step(self@, Event::Received(inbound@)) == Step::command(
                    next@,
                    Command::Spawn(command@),
                ),
                Err(error) => step(self@, Event::Received(inbound@)) == Step::refused(error@),
            },
    {
        match read_request(inbound) {
            Err(error) => Err(error),
            Ok(request) => {
                let command = command_for(&self.lang_server_path, self.lang_server_debugging);
                Ok((SpawnPending { lang_server_path: self.lang_server_path, request }, command))
            },
        }
    }
}

impl SpawnPending {
    /// The worker was started, with `outcome`: where it runs and the bridge
    /// holds its input, the request is to be delivered. Where it does not
    /// run, the execution ends and there is no worker; where it runs without
    /// an input, the execution is to be torn down.
    pub fn spawned<W>(self, outcome: SpawnOutcome<W>) -> (r: Result<
        (DeliveryPending<W>, Delivery),
        SpawnFailure<W>,
    >)
        ensures
            match r {
                Ok((next, delivery)) => {
                    &&& step(self@, Event::Spawned(outcome@)) == Step::command(
                        next@,
                        Command::Deliver(delivery.frame@),
                    )
                    &&& delivery.deadline_secs == TX_TIMEOUT_SECS
                    &&& outcome matches SpawnOutcome::Spawned { worker, .. }
                    &&& next.handle() == worker
                },
                Err(SpawnFailure::Refused(error)) => step(self@, Event::Spawned(outcome@))
                    == Step::refused(error@),
                Err(SpawnFailure::Aborted(aborted)) => {
                    &&& outcome matches SpawnOutcome::Spawned { worker, .. }
                    &&& aborted.is_step(step(self@, Event::Spawned(outcome@)), worker)
                },
            },
    {
        match outcome {
            SpawnOutcome::Failed(why) => Err(
                SpawnFailure::Refused(QualificationCheckError::ChildSpawn(why, self.lang_server_path)),
            ),
            SpawnOutcome::Spawned { worker, stdin, stdout } => {
                if !stdin {
                    return Err(
                        SpawnFailure::Aborted(
                            Aborted::new(
                                QualificationCheckError::ChildIO(ChildStream::Stdin),
                                worker,
                            ),
                        ),
                    );
                }
                let frame = self.request.to_frame();
                Ok(
                    (
                        DeliveryPending { worker, output_piped: stdout },
                        Delivery { frame, deadline_secs: TX_TIMEOUT_SECS },
                    ),
                )
            },
        }
    }
}

impl<W> DeliveryPending<W> {
    /// The request was delivered, with `outcome`: where the worker has it and
    /// the bridge holds the worker's output, the first record is to be
    /// pulled.
    pub fn delivered(self, outcome: SendOutcome) -> (r: Result<
        QualificationCheckServerExecutionStarted<W>,
        Aborted<W>,
    >)
        ensures
            match r {
                Ok(started) => {
                    &&& step(self@, Event::Delivered(outcome@)) == Step::command(
                        started@,
                        Command::Pull,
                    )
                    &&& started.handle() == self.handle()
                },
                Err(aborted) => aborted.is_step(
                    step(self@, Event::Delivered(outcome@)),
                    self.handle(),
                ),
            },
    {
        match child_send_function_request(outcome) {
            Err(error) => Err(Aborted::new(error, self.worker)),
            Ok(_) => if self.output_piped {
                Ok(QualificationCheckServerExecutionStarted { worker: self.worker })
            } else {
                Err(
                    Aborted::new(
                        QualificationCheckError::ChildIO(ChildStream::Stdout),
                        self.worker,
                    ),
                )
            },
        }
    }
}

impl<W> QualificationCheckServerExecutionStarted<W> {
    /// The worker's output gave `pulled` while the clock read `seconds`. A
    /// record is translated at that second and is to be forwarded; the end of
    /// the output ends the phase, whether or not a result was among the
    /// records.
    pub fn process_at(self, pulled: Pulled, seconds: i64) -> (r: ProcessStep<W>)
        ensures
            r.is_step(step(self@, Event::Pulled(pulled@, seconds)), self.handle()),
    {
        match pulled {
            Pulled::End => ProcessStep::Finished(
                QualificationCheckServerExecutionClosing { worker: self.worker },
            ),
            Pulled::Failed(why) => ProcessStep::Aborted(
                Aborted::new(QualificationCheckError::ChildRecvIO(why), self.worker),
            ),
            Pulled::Line(line) => match LangServerQualificationCheckMessage::deserialize_from_slice(
                line.as_slice(),
            ) {
                Err(e) => ProcessStep::Aborted(
                    Aborted::new(QualificationCheckError::JSONDeserialize(e), self.worker),
                ),
                Ok(record) => {
                    let message = Message::from_lang_server(record, timestamp_at(seconds));
                    ProcessStep::Forward(
                        ForwardPending { worker: self.worker },
                        Frame::new(message),
                    )
                },
            },
        }
    }

    /// The worker's output gave `pulled`: what [`Self::process_at`] makes of
    /// it at the second that the system clock reads now.
    pub fn process(self, pulled: Pulled) -> (r: ProcessStep<W>)
        ensures
            exists|seconds: i64|
                r.is_step(step(self@, Event::Pulled(pulled@, seconds)), self.handle()),
    {
        let seconds = now();
        let ghost worker = self.handle();
        let r = self.process_at(pulled, seconds);
        assert(r.is_step(step(Phase::Started, Event::Pulled(pulled@, seconds)), worker));
        r
    }
}

impl<W> ForwardPending<W> {
    /// The message was sent, with `outcome`: where it reached the caller, the
    /// next record is to be pulled.
    pub fn forwarded(self, outcome: SendOutcome) -> (r: Result<
        QualificationCheckServerExecutionStarted<W>,
        Aborted<W>,
    >)
        ensures
            match r {
                Ok(started) => {
                    &&& step(self@, Event::Forwarded(outcome@)) == Step::command(
                        started@,
                        Command::Pull,
                    )
                    &&& started.handle() == self.handle()
                },
                Err(aborted) => aborted.is_step(
                    step(self@, Event::Forwarded(outcome@)),
                    self.handle(),
                ),
            },
    {
        match ws_send(outcome) {
            Err(error) => Err(Aborted::new(error, self.worker)),
            Ok(_) => Ok(QualificationCheckServerExecutionStarted { worker: self.worker }),
        }
    }
}

impl<W> QualificationCheckServerExecutionClosing<W> {
    /// The three operations of the teardown: `Finish` for the caller, the
    /// close of the connection, and the signal for the worker, for whose exit
    /// the bridge waits as long as it takes.
    pub fn teardown(&self) -> (teardown: Teardown)
        ensures
            teardown.finish.message@ == MessageView::Finish,
            teardown.finish.well_formed(),
            teardown_commands() == seq![
                Command::Send(teardown.finish.message@),
                Command::Close,
                Command::Terminate(teardown.signal, teardown.grace_secs),
            ],
    {
        Teardown { finish: Frame::new(Message::Finish), signal: Signal::Terminate, grace_secs: None }
    }

    /// The three operations of the teardown were tried, with these outcomes.
    /// Of those that failed, the first in the order send, close, termination
    /// is the error of the execution; each other one is a warning. The
    /// execution is over, and the worker's handle is given up with it.
    pub fn finish(
        self,
        finished: SendOutcome,
        closed: Result<(), String>,
        shutdown: Result<(), String>,
    ) -> (report: ShutdownReport)
        ensures
            report.is_step(
                step(self@, Event::TornDown(finished@, failure_of(closed), failure_of(shutdown))),
            ),
    {
        let ghost errors = teardown_errors(finished@, failure_of(closed), failure_of(shutdown));
        let mut failures: Vec<QualificationCheckError> = Vec::new();
        match ws_send(finished) {
            Err(error) => {
                failures.push(error);
            },
            Ok(_) => {},
        }
        match ws_close(closed) {
            Err(error) => {
                failures.push(error);
            },
            Ok(_) => {},
        }
        match child_shutdown(shutdown) {
            Err(error) => {
                failures.push(error);
            },
            Ok(_) => {},
        }
        assert(failures.deep_view() =~= errors);
        if failures.len() == 0 {
            ShutdownReport { result: Ok(()), warnings: failures }
        } else {
            let first = failures.remove(0);
            assert(failures.deep_view() =~= errors.subrange(1, errors.len() as int));
            ShutdownReport { result: Err(first), warnings: failures }
        }
    }
}

} // verus!
