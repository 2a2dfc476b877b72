//! Whole lives of sessions: what holds of every sequence of operations.

use vstd::prelude::*;
use crate::connection::{
    malformed_correlation_reason, Event, Incoming, Phase, SessionState, StepView,
};
use crate::correlation::{lemma_uuid_text_has_no_paren, uuid_text, uuid_value_of};
use crate::json::json_text_of;
use crate::query::ConnectionDetails;
use crate::socket_message::{
    body_read_back, lemma_build_then_parse, message_of, parse_spec, MessageView,
};

verus! {

/// One operation on a session.
pub enum Op {
    /// A read starts.
    Begin,
    /// A read brought something.
    Receive(Incoming),
    /// The application sends a value.
    Send(serde_json::Value),
    /// Nothing arrived in time.
    TimeOut,
    /// The session is closed with a reason.
    Close(Seq<char>),
}

/// The operation is allowed in the state: none is once the session is
/// over, and only a session that has been announced reads.
pub open spec fn enabled(state: SessionState, op: Op) -> bool {
    match op {
        Op::Begin | Op::Send(_) | Op::Close(_) => !state.is_ended(),
        Op::Receive(_) | Op::TimeOut => state.is_active(),
    }
}

/// The state after an operation, and the step it answers with; the frame
/// of a sent value counts as a step that writes it.
pub open spec fn apply(state: SessionState, op: Op) -> (SessionState, StepView) {
    match op {
        Op::Begin => state.begin(),
        Op::Receive(incoming) => state.receive(incoming),
        Op::Send(value) => (state.send(value).0, StepView::Write(state.send(value).1)),
        Op::TimeOut => state.timed_out(),
        Op::Close(reason) => state.close(reason),
    }
}

/// The state after a sequence of operations.
pub open spec fn state_after(state: SessionState, ops: Seq<Op>) -> SessionState
    decreases ops.len(),
{
    if ops.len() == 0 {
        state
    } else {
        apply(state_after(state, ops.drop_last()), ops.last()).0
    }
}

/// The step that the operation at index `at` answers with.
pub open spec fn step_at(state: SessionState, ops: Seq<Op>, at: int) -> StepView {
    apply(state_after(state, ops.take(at)), ops[at]).1
}

/// Each operation of the sequence is allowed where it stands.
pub open spec fn valid(state: SessionState, ops: Seq<Op>) -> bool {
    forall|at: int| 0 <= at < ops.len() ==> enabled(state_after(state, ops.take(at)), #[trigger] ops[at])
}

/// No read has started among the first `n` operations.
pub open spec fn no_begin_before(ops: Seq<Op>, n: int) -> bool {
    forall|j: int| 0 <= j < n ==> !(#[trigger] ops[j] is Begin)
}

/// The value of the last send in the sequence, if there is a send.
pub open spec fn last_sent(ops: Seq<Op>) -> Option<serde_json::Value>
    decreases ops.len(),
{
    if ops.len() == 0 {
        None
    } else {
        match ops.last() {
            Op::Send(value) => Some(value),
            _ => last_sent(ops.drop_last()),
        }
    }
}

/// Until the first read starts, a session waits to be announced or is
/// over; from then on it never waits to be announced again.
pub proof fn lemma_phase_after(details: ConnectionDetails, ops: Seq<Op>, n: int)
    requires
        0 <= n <= ops.len(),
    ensures
        no_begin_before(ops, n) ==> state_after(SessionState::fresh(details), ops.take(n)).phase
            == Phase::AwaitingConnectDelivery(details) || state_after(
            SessionState::fresh(details),
            ops.take(n),
        ).phase is Ended,
        !no_begin_before(ops, n) ==> !(state_after(
            SessionState::fresh(details),
            ops.take(n),
        ).phase is AwaitingConnectDelivery),
    decreases n,
{
    if n > 0 {
        lemma_phase_after(details, ops, n - 1);
        assert(ops.take(n).drop_last() =~= ops.take(n - 1));
        assert(ops.take(n).last() == ops[n - 1]);
        if no_begin_before(ops, n) {
            assert(no_begin_before(ops, n - 1));
        } else if no_begin_before(ops, n - 1) {
            assert(ops[n - 1] is Begin);
        }
    }
}

/// The first read of a session announces it, with the details it was
/// opened with, and nothing else ever announces it; and no update comes
/// before a read has started, so none comes before the announcement.
pub proof fn lemma_connect_first_and_once(details: ConnectionDetails, ops: Seq<Op>, at: int)
    requires
        valid(SessionState::fresh(details), ops),
        0 <= at < ops.len(),
    ensures
        ops[at] is Begin && no_begin_before(ops, at) ==> step_at(
            SessionState::fresh(details),
            ops,
            at,
        ) == StepView::Deliver(Event::Connect(details)),
        step_at(SessionState::fresh(details), ops, at) matches StepView::Deliver(
            Event::Connect(announced),
        ) ==> announced == details && ops[at] is Begin && no_begin_before(ops, at),
        step_at(SessionState::fresh(details), ops, at) matches StepView::Deliver(Event::Update(_))
            ==> !no_begin_before(ops, at),
{
    lemma_phase_after(details, ops, at);
    assert(enabled(state_after(SessionState::fresh(details), ops.take(at)), ops[at]));
}

/// The value that a session keeps is the one that was sent last.
pub proof fn lemma_keeps_last_sent(state: SessionState, ops: Seq<Op>)
    ensures
        state_after(state, ops).last_value == match last_sent(ops) {
            Some(value) => Some(value),
            None => state.last_value,
        },
    decreases ops.len(),
{
    if ops.len() > 0 {
        lemma_keeps_last_sent(state, ops.drop_last());
    }
}

/// A `sync` message on a session on which nothing was sent asks for no
/// frame to be written and delivers nothing: the next frame is read, and
/// the session is as it was.
pub proof fn lemma_sync_before_any_send(details: ConnectionDetails, ops: Seq<Op>, frame: String)
    requires
        last_sent(ops) is None,
        parse_spec(frame@) matches Ok(layout) && message_of(frame@, layout).prefix == "sync"@,
    ensures
        apply(
            state_after(SessionState::fresh(details), ops),
            Op::Receive(Incoming::Text(frame)),
        ) == (state_after(SessionState::fresh(details), ops), StepView::Read),
{
    lemma_keeps_last_sent(SessionState::fresh(details), ops);
}

/// A `sync` message on a session whose last send was of `value` asks for
/// one frame to be written, the `model` frame of that value, and delivers
/// nothing; the session is as it was.
pub proof fn lemma_sync_after_send(
    state: SessionState,
    ops: Seq<Op>,
    value: serde_json::Value,
    frame: String,
)
    requires
        last_sent(ops) == Some(value),
        parse_spec(frame@) matches Ok(layout) && message_of(frame@, layout).prefix == "sync"@,
    ensures
        apply(state_after(state, ops), Op::Receive(Incoming::Text(frame))) == (
            state_after(state, ops),
            StepView::Write(state_after(state, ops).model_frame(value)),
        ),
{
    lemma_keeps_last_sent(state, ops);
}

/// An `event` message whose context is no identifier closes the session,
/// and delivers nothing.
pub proof fn lemma_event_with_malformed_context(state: SessionState, frame: String)
    requires
        parse_spec(frame@) matches Ok(layout) && message_of(frame@, layout).prefix == "event"@ && (
        message_of(frame@, layout).context matches Some(context) && uuid_value_of(context) is None),
    ensures
        state.receive(Incoming::Text(frame)) == (
            state.ended(),
            StepView::Close(malformed_correlation_reason()),
        ),
{
    reveal_strlit("sync");
    reveal_strlit("event");
    assert("sync"@ != "event"@) by {
        assert("sync"@.len() == 4);
        assert("event"@.len() == 5);
    }
}

/// Every frame that carries a value to the client is a message of the
/// grammar: its prefix is `model`, its context is the correlation
/// identifier's text where the session has one, and its body is the value's
/// JSON text.
pub proof fn lemma_model_frame_reads_back(state: SessionState, value: serde_json::Value)
    ensures
        parse_spec(state.model_frame(value)) matches Ok(layout) && message_of(
            state.model_frame(value),
            layout,
        ) == (MessageView {
            prefix: "model"@,
            context: match state.correlation_id {
                Some(id) => Some(uuid_text(id)),
                None => None,
            },
            body: body_read_back(Some(json_text_of(value))),
        }),
{
    reveal_strlit("model");
    match state.correlation_id {
        Some(id) => {
            lemma_uuid_text_has_no_paren(id);
        },
        None => {},
    }
    lemma_build_then_parse("model"@, state.context_text(), Some(json_text_of(value)));
}

/// Once a session is over it stays over, and nothing is allowed on it.
pub proof fn lemma_ended_is_final(state: SessionState, op: Op)
    requires
        state.is_ended(),
    ensures
        !enabled(state, op),
        apply(state, op).0.is_ended(),
{
}

/// When nothing arrives in time the session is over.
pub proof fn lemma_timed_out_is_over(state: SessionState, op: Op)
    ensures
        state.timed_out().0.is_ended(),
        !enabled(state.timed_out().0, op),
{
}

} // verus!
