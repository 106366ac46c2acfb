//! What the caller sees of an execution, taken as a whole.
//!
//! A single step says little about the stream of messages. This module runs
//! the protocol over a sequence of events and proves what holds of the stream
//! from the first message to the last.
use crate::error::QualificationCheckErrorView;
use crate::lang_server::LangServerQualificationCheckMessageView;
use crate::protocol::MessageView;
use crate::qualification_check::{
    step, teardown_commands, worker_command, Command, Event, InboundView, Phase, PulledView,
    SendOutcomeView, SpawnOutcomeView, Step,
};
use crate::request::QualificationCheckRequestView;
use vstd::prelude::*;

verus! {

/// The commands that an execution in `phase` gives while `events` come in,
/// one after the other.
pub open spec fn run(phase: Phase, events: Seq<Event>) -> Seq<Command>
    decreases events.len(),
{
    if events.len() == 0 {
        Seq::empty()
    } else {
        let taken = step(phase, events.first());
        taken.commands + run(taken.next, events.drop_first())
    }
}

/// Where an execution that was in `phase` stands after `events`.
pub open spec fn phase_after(phase: Phase, events: Seq<Event>) -> Phase
    decreases events.len(),
{
    if events.len() == 0 {
        phase
    } else {
        phase_after(step(phase, events.first()).next, events.drop_first())
    }
}

/// The messages that `commands` send to the caller, in order.
pub open spec fn sent(commands: Seq<Command>) -> Seq<MessageView>
    decreases commands.len(),
{
    if commands.len() == 0 {
        Seq::empty()
    } else {
        match commands.last() {
            Command::Send(message) => sent(commands.drop_last()).push(message),
            _ => sent(commands.drop_last()),
        }
    }
}

/// The stream of messages that the caller is sent while `events` come in.
pub open spec fn transcript(phase: Phase, events: Seq<Event>) -> Seq<MessageView> {
    sent(run(phase, events))
}

/// A stream in which `Start` stands at the head and nowhere else, and
/// `Finish` nowhere but at the end. What stands between the two is therefore
/// output and results.
pub open spec fn ordered(stream: Seq<MessageView>) -> bool {
    &&& forall|i: int| 0 <= i < stream.len() ==> (#[trigger] stream[i] is Start <==> i == 0)
    &&& forall|i: int|
        0 <= i < stream.len() && #[trigger] stream[i] is Finish ==> i == stream.len() - 1
}

/// A stream that was begun, finished, and is whole: `Start` first, `Finish`
/// last.
pub open spec fn complete(stream: Seq<MessageView>) -> bool {
    &&& stream.len() >= 2
    &&& stream.first() is Start
    &&& stream.last() is Finish
}

/// What the stream so far must look like for an execution in `phase`.
spec fn fits(phase: Phase, stream: Seq<MessageView>) -> bool {
    match phase {
        Phase::Unstarted(_, _) => stream.len() == 0,
        Phase::AcknowledgementPending(_, _)
        | Phase::RequestPending(_, _)
        | Phase::SpawnPending(_, _)
        | Phase::DeliveryPending(_)
        | Phase::Refused => stream.len() == 1 && stream[0] is Start,
        Phase::Started | Phase::ForwardPending => {
            &&& stream.len() >= 1
            &&& forall|i: int| 0 <= i < stream.len() ==> (#[trigger] stream[i] is Start <==> i == 0)
            &&& forall|i: int| 0 <= i < stream.len() ==> !(#[trigger] stream[i] is Finish)
        },
        Phase::Closing | Phase::Finished => ordered(stream) && complete(stream),
    }
}

proof fn lemma_sent_concat(a: Seq<Command>, b: Seq<Command>)
    ensures
        sent(a + b) == sent(a) + sent(b),
    decreases b.len(),
{
    if b.len() == 0 {
        assert(a + b =~= a);
        assert(sent(a) + sent(b) =~= sent(a));
    } else {
        assert((a + b).drop_last() =~= a + b.drop_last());
        assert((a + b).last() == b.last());
        lemma_sent_concat(a, b.drop_last());
        match b.last() {
            Command::Send(message) => {
                assert(sent(a + b) =~= sent(a) + sent(b));
            },
            _ => {},
        }
    }
}

proof fn lemma_sent_one(command: Command)
    ensures
        sent(seq![command]) == match command {
            Command::Send(message) => seq![message],
            _ => Seq::<MessageView>::empty(),
        },
{
    let commands = seq![command];
    assert(commands.drop_last() =~= Seq::<Command>::empty());
    assert(sent(commands.drop_last()) =~= Seq::<MessageView>::empty());
    match command {
        Command::Send(message) => {
            assert(Seq::<MessageView>::empty().push(message) =~= seq![message]);
        },
        _ => {},
    }
}

proof fn lemma_sent_teardown()
    ensures
        sent(teardown_commands()) == seq![MessageView::Finish],
{
    let a = seq![Command::Send(MessageView::Finish)];
    let b = seq![Command::Close];
    let c = seq![Command::Terminate(crate::qualification_check::Signal::Terminate, None)];
    assert(teardown_commands() =~= a + b + c);
    lemma_sent_one(a[0]);
    lemma_sent_one(b[0]);
    lemma_sent_one(c[0]);
    lemma_sent_concat(a, b);
    lemma_sent_concat(a + b, c);
    assert(sent(a) + sent(b) + sent(c) =~= seq![MessageView::Finish]);
}

proof fn lemma_sent_nothing()
    ensures
        sent(Seq::<Command>::empty()) == Seq::<MessageView>::empty(),
{
}

/// A step keeps the stream in the shape that the phase asks for.
proof fn lemma_step_fits(phase: Phase, event: Event, stream: Seq<MessageView>)
    requires
        fits(phase, stream),
    ensures
        fits(step(phase, event).next, stream + sent(step(phase, event).commands)),
{
    let taken = step(phase, event);
    let after = stream + sent(taken.commands);
    lemma_sent_teardown();
    lemma_sent_nothing();
    if taken.commands.len() == 1 {
        lemma_sent_one(taken.commands[0]);
        assert(taken.commands =~= seq![taken.commands[0]]);
    }
    if taken.commands.len() == 0 {
        assert(taken.commands =~= Seq::<Command>::empty());
        assert(after =~= stream);
    }
    match taken.next {
        Phase::Closing => {
            if !(phase is Closing) {
                assert(taken.commands == teardown_commands());
                assert(after =~= stream.push(MessageView::Finish));
                assert(after.last() is Finish);
                assert(after.first() == stream[0]);
                assert forall|i: int| 0 <= i < after.len() implies (#[trigger] after[i] is Start
                    <==> i == 0) by {
                    if i < stream.len() {
                        assert(after[i] == stream[i]);
                    }
                }
                assert forall|i: int|
                    0 <= i < after.len() && #[trigger] after[i] is Finish implies i == after.len()
                    - 1 by {
                    if i < stream.len() {
                        assert(after[i] == stream[i]);
                    }
                }
            }
        },
        Phase::ForwardPending => {
            if phase is Started {
                let message = taken.commands[0]->Send_0;
                assert(after =~= stream.push(message));
                assert forall|i: int| 0 <= i < after.len() implies (#[trigger] after[i] is Start
                    <==> i == 0) by {
                    if i < stream.len() {
                        assert(after[i] == stream[i]);
                    }
                }
                assert forall|i: int| 0 <= i < after.len() implies !(#[trigger] after[i]
                    is Finish) by {
                    if i < stream.len() {
                        assert(after[i] == stream[i]);
                    }
                }
            }
        },
        Phase::AcknowledgementPending(_, _) => {
            if phase is Unstarted {
                assert(after =~= seq![MessageView::Start]);
            }
        },
        _ => {},
    }
}

/// Every run keeps the stream in the shape that the phase asks for.
proof fn lemma_run_fits(phase: Phase, events: Seq<Event>, stream: Seq<MessageView>)
    requires
        fits(phase, stream),
    ensures
        fits(phase_after(phase, events), stream + transcript(phase, events)),
    decreases events.len(),
{
    if events.len() == 0 {
        assert(stream + transcript(phase, events) =~= stream);
    } else {
        let taken = step(phase, events.first());
        let rest = events.drop_first();
        lemma_step_fits(phase, events.first(), stream);
        lemma_run_fits(taken.next, rest, stream + sent(taken.commands));
        lemma_sent_concat(taken.commands, run(taken.next, rest));
        assert(stream + transcript(phase, events) =~= stream + sent(taken.commands) + transcript(
            taken.next,
            rest,
        ));
    }
}

/// Whatever comes in, in whatever order and with whatever outcome, the stream
/// that the caller is sent begins with `Start`, holds `Start` nowhere else,
/// and holds `Finish` nowhere but at its end: all that stands between the two
/// is output and results. An execution that reaches its teardown has sent a
/// stream that ends with `Finish`.
pub proof fn lemma_stream_is_ordered(program: Seq<char>, debugging: bool, events: Seq<Event>)
    ensures
        ordered(transcript(Phase::Unstarted(program, debugging), events)),
        phase_after(Phase::Unstarted(program, debugging), events) is Closing || phase_after(
            Phase::Unstarted(program, debugging),
            events,
        ) is Finished ==> complete(transcript(Phase::Unstarted(program, debugging), events)),
{
    let begin = Phase::Unstarted(program, debugging);
    let stream = transcript(begin, events);
    lemma_run_fits(begin, events, Seq::empty());
    assert(Seq::<MessageView>::empty() + stream =~= stream);
}

/// The events of an exchange in which the worker writes `lines`, each pulled
/// at the second beside it and each forwarded to the caller with success.
pub open spec fn exchange(lines: Seq<(Seq<u8>, i64)>) -> Seq<Event>
    decreases lines.len(),
{
    if lines.len() == 0 {
        Seq::empty()
    } else {
        seq![
            Event::Pulled(PulledView::Line(lines.first().0), lines.first().1),
            Event::Forwarded(SendOutcomeView::Sent),
        ] + exchange(lines.drop_first())
    }
}

/// The events of an execution in which nothing fails: the caller sends
/// `request`, the worker starts with both pipes, takes the request, writes
/// `lines` and closes its output.
pub open spec fn session(request: Seq<char>, lines: Seq<(Seq<u8>, i64)>, end: i64) -> Seq<
    Event,
> {
    seq![
        Event::Begun,
        Event::Acknowledged(SendOutcomeView::Sent),
        Event::Received(InboundView::Text(request)),
        Event::Spawned(SpawnOutcomeView::Spawned { stdin: true, stdout: true }),
        Event::Delivered(SendOutcomeView::Sent),
    ] + exchange(lines) + seq![Event::Pulled(PulledView::End, end)]
}

/// The record that a readable line holds.
pub open spec fn record(line: Seq<u8>) -> LangServerQualificationCheckMessageView {
    LangServerQualificationCheckMessageView::of_line(line)->Ok_0
}

/// The message that the caller is sent for a line of the worker that was
/// pulled at `seconds`.
pub open spec fn translation(line: Seq<u8>, seconds: i64) -> MessageView {
    record(line).stamped(crate::clock::clamped(seconds))
}

/// The messages that the caller is sent for `lines`, in the order of the
/// lines.
pub open spec fn translations(lines: Seq<(Seq<u8>, i64)>) -> Seq<MessageView> {
    Seq::new(lines.len(), |i: int| translation(lines[i].0, lines[i].1))
}

/// Every line holds a record.
pub open spec fn readable(lines: Seq<(Seq<u8>, i64)>) -> bool {
    forall|i: int|
        0 <= i < lines.len() ==> LangServerQualificationCheckMessageView::of_line(
            (#[trigger] lines[i]).0,
        ) is Ok
}

proof fn lemma_run_concat(phase: Phase, first: Seq<Event>, second: Seq<Event>)
    ensures
        run(phase, first + second) == run(phase, first) + run(
            phase_after(phase, first),
            second,
        ),
        phase_after(phase, first + second) == phase_after(phase_after(phase, first), second),
    decreases first.len(),
{
    if first.len() == 0 {
        assert(first + second =~= second);
        assert(run(phase, first) + run(phase, second) =~= run(phase, second));
    } else {
        let taken = step(phase, first.first());
        assert((first + second).first() == first.first());
        assert((first + second).drop_first() =~= first.drop_first() + second);
        lemma_run_concat(taken.next, first.drop_first(), second);
        assert(run(phase, first + second) =~= run(phase, first) + run(
            phase_after(phase, first),
            second,
        ));
    }
}

proof fn lemma_exchange(lines: Seq<(Seq<u8>, i64)>)
    requires
        readable(lines),
    ensures
        transcript(Phase::Started, exchange(lines)) == translations(lines),
        phase_after(Phase::Started, exchange(lines)) == Phase::Started,
    decreases lines.len(),
{
    if lines.len() == 0 {
        assert(translations(lines) =~= Seq::<MessageView>::empty());
    } else {
        let head = lines.first();
        let tail = lines.drop_first();
        let pulled = Event::Pulled(PulledView::Line(head.0), head.1);
        let forwarded = Event::Forwarded(SendOutcomeView::Sent);
        let pair = seq![pulled, forwarded];
        let message = translation(head.0, head.1);
        assert(lines[0] == head);
        assert(step(Phase::Started, pulled) == Step::command(
            Phase::ForwardPending,
            Command::Send(message),
        ));
        assert(step(Phase::ForwardPending, forwarded) == Step::command(
            Phase::Started,
            Command::Pull,
        ));
        assert(pair.drop_first() =~= seq![forwarded]);
        assert(pair.drop_first().drop_first() =~= Seq::<Event>::empty());
        assert(run(Phase::Started, pair.drop_first().drop_first()) =~= Seq::<Command>::empty());
        assert(run(Phase::ForwardPending, pair.drop_first()) =~= seq![Command::Pull]);
        assert(run(Phase::Started, pair) =~= seq![Command::Send(message), Command::Pull]);
        assert(phase_after(Phase::Started, pair.drop_first().drop_first()) == Phase::Started);
        assert(phase_after(Phase::ForwardPending, pair.drop_first()) == Phase::Started);
        assert(phase_after(Phase::Started, pair) == Phase::Started);
        lemma_run_concat(Phase::Started, pair, exchange(tail));
        assert forall|i: int| 0 <= i < tail.len() implies LangServerQualificationCheckMessageView::of_line(
            (#[trigger] tail[i]).0,
        ) is Ok by {
            assert(tail[i] == lines[i + 1]);
        }
        lemma_exchange(tail);
        lemma_sent_concat(run(Phase::Started, pair), run(Phase::Started, exchange(tail)));
        lemma_sent_one(Command::Send(message));
        lemma_sent_one(Command::Pull);
        lemma_sent_concat(seq![Command::Send(message)], seq![Command::Pull]);
        assert(seq![Command::Send(message), Command::Pull] =~= seq![Command::Send(message)]
            + seq![Command::Pull]);
        assert(sent(run(Phase::Started, pair)) =~= seq![message]);
        assert(translations(lines) =~= seq![message] + translations(tail)) by {
            assert forall|i: int| 0 <= i < lines.len() implies translations(lines)[i] == (seq![
                message,
            ] + translations(tail))[i] by {
                if i > 0 {
                    assert(tail[i - 1] == lines[i]);
                }
            }
        }
    }
}

/// Where nothing fails, the caller is sent `Start`, then one message for
/// each line that the worker wrote, in the order in which the worker wrote
/// them and translated at the second at which each was pulled, then `Finish`:
/// these and no others. The stream holds a result exactly where the worker
/// wrote one. It ends with `Finish` when the worker closes its output,
/// whether or not a result was among the lines.
pub proof fn lemma_session_stream(
    program: Seq<char>,
    debugging: bool,
    request: Seq<char>,
    lines: Seq<(Seq<u8>, i64)>,
    end: i64,
)
    requires
        QualificationCheckRequestView::of_text(request) is Ok,
        readable(lines),
    ensures
        transcript(Phase::Unstarted(program, debugging), session(request, lines, end)) == seq![
            MessageView::Start,
        ] + translations(lines) + seq![MessageView::Finish],
        phase_after(Phase::Unstarted(program, debugging), session(request, lines, end))
            == Phase::Closing,
        forall|i: int|
            0 <= i < lines.len() ==> (#[trigger] translations(lines)[i] is Result <==> record(
                lines[i].0,
            ) is Result),
{
    let begin = Phase::Unstarted(program, debugging);
    let opening = seq![
        Event::Begun,
        Event::Acknowledged(SendOutcomeView::Sent),
        Event::Received(InboundView::Text(request)),
        Event::Spawned(SpawnOutcomeView::Spawned { stdin: true, stdout: true }),
        Event::Delivered(SendOutcomeView::Sent),
    ];
    let ending = seq![Event::Pulled(PulledView::End, end)];
    lemma_opening(program, debugging, request);
    lemma_exchange(lines);
    lemma_run_one(Phase::Started, ending[0]);
    lemma_run_concat(begin, opening, exchange(lines));
    lemma_run_concat(begin, opening + exchange(lines), ending);
    lemma_sent_concat(run(begin, opening), run(Phase::Started, exchange(lines)));
    lemma_sent_concat(run(begin, opening + exchange(lines)), run(Phase::Started, ending));
    lemma_sent_teardown();
}

/// At most one of `lines` holds a result.
pub open spec fn at_most_one_result(lines: Seq<(Seq<u8>, i64)>) -> bool {
    forall|i: int, j: int|
        0 <= i < j < lines.len() ==> !(record(#[trigger] lines[i].0) is Result && record(
            #[trigger] lines[j].0,
        ) is Result)
}

/// Where nothing fails and the worker writes at most one result, the caller
/// is sent at most one.
pub proof fn lemma_at_most_one_result(
    program: Seq<char>,
    debugging: bool,
    request: Seq<char>,
    lines: Seq<(Seq<u8>, i64)>,
    end: i64,
)
    requires
        QualificationCheckRequestView::of_text(request) is Ok,
        readable(lines),
        at_most_one_result(lines),
    ensures
        ({
            let stream = transcript(
                Phase::Unstarted(program, debugging),
                session(request, lines, end),
            );
            forall|i: int, j: int|
                0 <= i < j < stream.len() ==> !(#[trigger] stream[i] is Result
                    && #[trigger] stream[j] is Result)
        }),
{
    let stream = transcript(Phase::Unstarted(program, debugging), session(request, lines, end));
    lemma_session_stream(program, debugging, request, lines, end);
    assert forall|i: int, j: int| 0 <= i < j < stream.len() implies !(#[trigger] stream[i]
        is Result && #[trigger] stream[j] is Result) by {
        if stream[i] is Result && stream[j] is Result {
            assert(stream[i] == translations(lines)[i - 1]);
            assert(stream[j] == translations(lines)[j - 1]);
            assert(record(lines[i - 1].0) is Result);
            assert(record(lines[j - 1].0) is Result);
        }
    }
}

/// The opening of an execution in which nothing fails asks for `Start`, one
/// message of the caller, the worker, and the delivery of the request, and
/// then for the first record.
proof fn lemma_opening(program: Seq<char>, debugging: bool, request: Seq<char>)
    requires
        QualificationCheckRequestView::of_text(request) is Ok,
    ensures
        ({
            let opening = seq![
                Event::Begun,
                Event::Acknowledged(SendOutcomeView::Sent),
                Event::Received(InboundView::Text(request)),
                Event::Spawned(SpawnOutcomeView::Spawned { stdin: true, stdout: true }),
                Event::Delivered(SendOutcomeView::Sent),
            ];
            &&& transcript(Phase::Unstarted(program, debugging), opening) == seq![
                MessageView::Start,
            ]
            &&& phase_after(Phase::Unstarted(program, debugging), opening) == Phase::Started
        }),
{
    let parsed = QualificationCheckRequestView::of_text(request)->Ok_0;
    let e0 = Event::Begun;
    let e1 = Event::Acknowledged(SendOutcomeView::Sent);
    let e2 = Event::Received(InboundView::Text(request));
    let e3 = Event::Spawned(SpawnOutcomeView::Spawned { stdin: true, stdout: true });
    let e4 = Event::Delivered(SendOutcomeView::Sent);
    let p0 = Phase::Unstarted(program, debugging);
    let p1 = Phase::AcknowledgementPending(program, debugging);
    let p2 = Phase::RequestPending(program, debugging);
    let p3 = Phase::SpawnPending(program, parsed);
    let p4 = Phase::DeliveryPending(true);
    let opening = seq![e0, e1, e2, e3, e4];
    let c0 = Command::Send(MessageView::Start);
    let c1 = Command::Receive;
    let c2 = Command::Spawn(worker_command(program, debugging));
    let c3 = Command::Deliver(parsed.frame());
    let c4 = Command::Pull;
    assert(step(p0, e0) == Step::command(p1, c0));
    assert(step(p1, e1) == Step::command(p2, c1));
    assert(step(p2, e2) == Step::command(p3, c2));
    assert(step(p3, e3) == Step::command(p4, c3));
    assert(step(p4, e4) == Step::command(Phase::Started, c4));
    lemma_run_one(p4, e4);
    lemma_run_cons(p3, e3, seq![e4]);
    lemma_run_cons(p2, e2, seq![e3, e4]);
    lemma_run_cons(p1, e1, seq![e2, e3, e4]);
    lemma_run_cons(p0, e0, seq![e1, e2, e3, e4]);
    assert(seq![e3] + seq![e4] =~= seq![e3, e4]);
    assert(seq![e2] + seq![e3, e4] =~= seq![e2, e3, e4]);
    assert(seq![e1] + seq![e2, e3, e4] =~= seq![e1, e2, e3, e4]);
    assert(seq![e0] + seq![e1, e2, e3, e4] =~= opening);
    assert(run(p0, opening) =~= seq![c0, c1, c2, c3, c4]);
    lemma_sent_one(c0);
    lemma_sent_one(c1);
    lemma_sent_one(c2);
    lemma_sent_one(c3);
    lemma_sent_one(c4);
    lemma_sent_concat(seq![c0], seq![c1]);
    lemma_sent_concat(seq![c0] + seq![c1], seq![c2]);
    lemma_sent_concat(seq![c0] + seq![c1] + seq![c2], seq![c3]);
    lemma_sent_concat(seq![c0] + seq![c1] + seq![c2] + seq![c3], seq![c4]);
    assert(seq![c0, c1, c2, c3, c4] =~= seq![c0] + seq![c1] + seq![c2] + seq![c3] + seq![c4]);
    assert(sent(seq![c0, c1, c2, c3, c4]) =~= seq![MessageView::Start]);
}

proof fn lemma_run_one(phase: Phase, event: Event)
    ensures
        run(phase, seq![event]) == step(phase, event).commands,
        phase_after(phase, seq![event]) == step(phase, event).next,
{
    let events = seq![event];
    assert(events.drop_first() =~= Seq::<Event>::empty());
    assert(run(step(phase, event).next, events.drop_first()) =~= Seq::<Command>::empty());
    assert(run(phase, events) =~= step(phase, event).commands);
    assert(phase_after(step(phase, event).next, events.drop_first()) == step(phase, event).next);
}

proof fn lemma_run_cons(phase: Phase, event: Event, rest: Seq<Event>)
    ensures
        run(phase, seq![event] + rest) == step(phase, event).commands + run(
            step(phase, event).next,
            rest,
        ),
        phase_after(phase, seq![event] + rest) == phase_after(step(phase, event).next, rest),
{
    let events = seq![event] + rest;
    assert(events.first() == event);
    assert(events.drop_first() =~= rest);
}

/// An execution that has ended asks for nothing more, whatever comes in.
pub proof fn lemma_ended_is_final(phase: Phase, events: Seq<Event>)
    requires
        phase is Refused || phase is Finished,
    ensures
        run(phase, events) == Seq::<Command>::empty(),
        phase_after(phase, events) == phase,
    decreases events.len(),
{
    if events.len() > 0 {
        lemma_ended_is_final(phase, events.drop_first());
        assert(run(phase, events) =~= Seq::<Command>::empty());
    }
}

/// Where the worker cannot be started, the execution ends with that error and
/// there is no worker. Up to then it has asked for `Start`, for one message of
/// the caller and for the worker to be started; it asks for nothing after,
/// whatever comes in: nothing is written to a worker, nothing more is sent to
/// the caller, and there is nothing to terminate.
pub proof fn lemma_spawn_failure_is_final(
    program: Seq<char>,
    debugging: bool,
    request: Seq<char>,
    why: Seq<char>,
    later: Seq<Event>,
)
    requires
        QualificationCheckRequestView::of_text(request) is Ok,
    ensures
        ({
            let parsed = QualificationCheckRequestView::of_text(request)->Ok_0;
            let events = seq![
                Event::Begun,
                Event::Acknowledged(SendOutcomeView::Sent),
                Event::Received(InboundView::Text(request)),
                Event::Spawned(SpawnOutcomeView::Failed(why)),
            ];
            &&& step(Phase::SpawnPending(program, parsed), events[3]) == Step::refused(
                QualificationCheckErrorView::ChildSpawn(why, program),
            )
            &&& run(Phase::Unstarted(program, debugging), events + later) == seq![
                Command::Send(MessageView::Start),
                Command::Receive,
                Command::Spawn(worker_command(program, debugging)),
            ]
            &&& phase_after(Phase::Unstarted(program, debugging), events + later) == Phase::Refused
        }),
{
    let parsed = QualificationCheckRequestView::of_text(request)->Ok_0;
    let e0 = Event::Begun;
    let e1 = Event::Acknowledged(SendOutcomeView::Sent);
    let e2 = Event::Received(InboundView::Text(request));
    let e3 = Event::Spawned(SpawnOutcomeView::Failed(why));
    let p0 = Phase::Unstarted(program, debugging);
    let p1 = Phase::AcknowledgementPending(program, debugging);
    let p2 = Phase::RequestPending(program, debugging);
    let p3 = Phase::SpawnPending(program, parsed);
    let events = seq![e0, e1, e2, e3];
    let c0 = Command::Send(MessageView::Start);
    let c1 = Command::Receive;
    let c2 = Command::Spawn(worker_command(program, debugging));
    assert(step(p0, e0) == Step::command(p1, c0));
    assert(step(p1, e1) == Step::command(p2, c1));
    assert(step(p2, e2) == Step::command(p3, c2));
    assert(step(p3, e3) == Step::refused(QualificationCheckErrorView::ChildSpawn(why, program)));
    lemma_ended_is_final(Phase::Refused, later);
    lemma_run_cons(p3, e3, later);
    lemma_run_cons(p2, e2, seq![e3] + later);
    lemma_run_cons(p1, e1, seq![e2] + (seq![e3] + later));
    lemma_run_cons(p0, e0, seq![e1] + (seq![e2] + (seq![e3] + later)));
    assert(seq![e0] + (seq![e1] + (seq![e2] + (seq![e3] + later))) =~= events + later);
    assert(run(p0, events + later) =~= seq![c0, c1, c2]);
}

} // verus!
