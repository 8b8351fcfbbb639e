//! The course of a single call: who may make it, when it is answered and what is counted.
use crate::metrics::Label;
use crate::metrics::Rpc;
use crate::status::RpcStatus;
use crate::status::RpcStatusCode;
use vstd::prelude::*;

verus! {

/// How far a call has come.
#[derive(Clone, Copy, PartialEq, Eq, Structural, Debug)]
pub enum CallState {
    /// It has come in.
    Arrived,
    /// Its caller may make it, and it is being carried out.
    Running,
    /// Its response is on the way to the caller.
    Sending,
    /// Nothing more happens to it.
    Closed,
}

/// What happens to a call.
#[derive(Debug, PartialEq, Eq)]
pub enum CallEvent {
    /// The common name of the caller was held against the names that are allowed.
    Checked { allowed: bool },
    /// What the call asks for could not be handed on.
    Rejected { message: String },
    /// There is a response, or there will be none.
    Resolved { ok: bool },
    /// The response has reached the caller, or has failed to.
    Delivered { ok: bool },
    /// A whole stream of responses has reached the caller, or has broken off.
    Streamed { ok: bool },
}

/// What is to be done about a call.
#[derive(Debug, PartialEq, Eq)]
pub enum CallAction {
    /// Nothing.
    Nothing,
    /// Carry out what it asks for.
    Submit,
    /// Send the response.
    Send,
    /// End it with a status.
    Fail(RpcStatus),
    /// Record how long it took.
    Observe(Label),
    /// Count it as failed.
    CountFailure(Label),
}

/// Whether `event` can happen to a call in the state `state`.
pub open spec fn call_enabled(state: CallState, event: CallEvent) -> bool {
    match event {
        CallEvent::Checked { allowed: _ } => state == CallState::Arrived,
        CallEvent::Rejected { message: _ } => state == CallState::Running,
        CallEvent::Resolved { ok: _ } => state == CallState::Running,
        CallEvent::Delivered { ok: _ } => state == CallState::Sending,
        CallEvent::Streamed { ok: _ } => state == CallState::Running,
    }
}

/// The state that `event` brings a call to.
pub open spec fn call_next(event: CallEvent) -> CallState {
    match event {
        CallEvent::Checked { allowed } => if allowed {
            CallState::Running
        } else {
            CallState::Closed
        },
        CallEvent::Resolved { ok } => if ok {
            CallState::Sending
        } else {
            CallState::Closed
        },
        _ => CallState::Closed,
    }
}

/// What is to be done when `event` happens to a call that is counted under `label`.
pub open spec fn call_action(label: Label, event: CallEvent) -> CallAction {
    match event {
        CallEvent::Checked { allowed: true } => CallAction::Submit,
        CallEvent::Checked { allowed: false } => CallAction::Nothing,
        CallEvent::Rejected { message } => CallAction::Fail(
            RpcStatus { status: RpcStatusCode::ResourceExhausted, details: Some(message) },
        ),
        CallEvent::Resolved { ok: true } => CallAction::Send,
        CallEvent::Delivered { ok: true } => CallAction::Observe(label),
        CallEvent::Streamed { ok: true } => CallAction::Observe(label),
        CallEvent::Resolved { ok: false } => CallAction::CountFailure(label),
        CallEvent::Delivered { ok: false } => CallAction::CountFailure(label),
        CallEvent::Streamed { ok: false } => CallAction::CountFailure(label),
    }
}

/// A call that is counted under `label`.
#[derive(Debug, PartialEq, Eq)]
pub struct Call {
    pub label: Label,
    pub state: CallState,
}

impl Call {
    /// A call that has just come in.
    pub fn new(rpc: Rpc) -> (call: Call)
        ensures
            call == (Call { label: rpc.label_view(), state: CallState::Arrived }),
    {
        Call { label: rpc.label(), state: CallState::Arrived }
    }

    /// Takes note of `event` and says what is to be done about it.
    pub fn on_event(&mut self, event: CallEvent) -> (action: CallAction)
        requires
            call_enabled(old(self).state, event),
        ensures
            final(self).label == old(self).label,
            final(self).state == call_next(event),
            action == call_action(old(self).label, event),
    {
        match event {
            CallEvent::Checked { allowed } => {
                if allowed {
                    self.state = CallState::Running;
                    CallAction::Submit
                } else {
                    self.state = CallState::Closed;
                    CallAction::Nothing
                }
            },
            CallEvent::Rejected { message } => {
                self.state = CallState::Closed;
                CallAction::Fail(RpcStatus::new(RpcStatusCode::ResourceExhausted, Some(message)))
            },
            CallEvent::Resolved { ok } => {
                if ok {
                    self.state = CallState::Sending;
                    CallAction::Send
                } else {
                    self.state = CallState::Closed;
                    CallAction::CountFailure(self.label)
                }
            },
            CallEvent::Delivered { ok } | CallEvent::Streamed { ok } => {
                self.state = CallState::Closed;
                if ok {
                    CallAction::Observe(self.label)
                } else {
                    CallAction::CountFailure(self.label)
                }
            },
        }
    }
}

/// Whether `events` can happen, one after the other, to a call in the state `state`.
pub open spec fn call_run(state: CallState, events: Seq<CallEvent>) -> bool
    decreases events.len(),
{
    events.len() > 0 ==> call_enabled(state, events[0]) && call_run(
        call_next(events[0]),
        events.drop_first(),
    )
}

/// The state that `events` bring a call to from the state `state`.
pub open spec fn call_end(state: CallState, events: Seq<CallEvent>) -> CallState {
    if events.len() == 0 {
        state
    } else {
        call_next(events.last())
    }
}

/// What is to be done, event by event, about a call that is counted under `label`.
pub open spec fn call_actions(label: Label, events: Seq<CallEvent>) -> Seq<CallAction> {
    events.map_values(|event: CallEvent| call_action(label, event))
}

/// Whether `action` leaves a trace in the metrics.
pub open spec fn is_counted(action: CallAction) -> bool {
    action is Observe || action is CountFailure
}

/// A caller that is not allowed gets nothing done and nothing sent: the check is all that happens
/// to its call, and nothing is done about it.
pub proof fn law_disallowed_caller_gets_nothing(label: Label, events: Seq<CallEvent>)
    requires
        call_run(CallState::Arrived, events),
        events.len() > 0,
        events[0] == (CallEvent::Checked { allowed: false }),
    ensures
        call_actions(label, events) == seq![CallAction::Nothing],
{
    reveal_with_fuel(call_run, 3);
    assert(events.len() == 1);
    assert(call_actions(label, events) =~= seq![CallAction::Nothing]);
}

/// Whatever is done about a call is done for a caller that was found to be allowed: the first thing
/// that happens to a call is the check, and all else follows only where it came out well.
pub proof fn law_only_allowed_callers_are_served(label: Label, events: Seq<CallEvent>)
    requires
        call_run(CallState::Arrived, events),
        exists|i: int|
            0 <= i < events.len() && #[trigger] call_actions(label, events)[i]
                != CallAction::Nothing,
    ensures
        events[0] == (CallEvent::Checked { allowed: true }),
{
    let i = choose|i: int|
        0 <= i < events.len() && #[trigger] call_actions(label, events)[i] != CallAction::Nothing;
    assert(call_enabled(CallState::Arrived, events[0]));
    if events[0] == (CallEvent::Checked { allowed: false }) {
        law_disallowed_caller_gets_nothing(label, events);
        assert(call_actions(label, events).len() == 1);
        assert(call_actions(label, events)[i] == CallAction::Nothing);
    }
}

/// A call that was carried out leaves exactly one trace in the metrics, its duration or a failure,
/// and that when nothing more happens to it. A call that was not carried out, because its caller
/// was not allowed or what it asks for could not be handed on, leaves none.
pub proof fn law_one_trace_per_call(label: Label, events: Seq<CallEvent>)
    requires
        call_run(CallState::Arrived, events),
        call_end(CallState::Arrived, events) == CallState::Closed,
    ensures
        forall|i: int|
            0 <= i < events.len() - 1 ==> !is_counted(#[trigger] call_actions(label, events)[i]),
        is_counted(call_actions(label, events).last()) <==> {
            ||| events.last() is Resolved
            ||| events.last() is Delivered
            ||| events.last() is Streamed
        },
{
    reveal_with_fuel(call_run, 5);
    assert(events.len() > 0);
    assert(1 <= events.len() <= 3);
    if events.len() > 1 {
        assert(events.drop_first()[0] == events[1]);
        if events.len() > 2 {
            assert(events.drop_first().drop_first()[0] == events[2]);
        }
    }
}

/// A response is sent at most once, and only after the call was carried out.
pub proof fn law_response_is_sent_once(label: Label, events: Seq<CallEvent>, i: int, j: int)
    requires
        call_run(CallState::Arrived, events),
        0 <= i < events.len(),
        0 <= j < events.len(),
        call_actions(label, events)[i] == CallAction::Send,
        call_actions(label, events)[j] == CallAction::Send,
    ensures
        i == j,
        i == 1,
        call_actions(label, events)[0] == CallAction::Submit,
{
    reveal_with_fuel(call_run, 5);
    assert(events.len() <= 3);
    if events.len() > 1 {
        assert(events.drop_first()[0] == events[1]);
        if events.len() > 2 {
            assert(events.drop_first().drop_first()[0] == events[2]);
        }
    }
}

/// How far a command that came in a batch has come.
#[derive(Clone, Copy, PartialEq, Eq, Structural, Debug)]
pub enum BatchedState {
    Running,
    Sending,
    Closed,
}

/// What happens to a command that came in a batch.
#[derive(Clone, Copy, PartialEq, Eq, Structural, Debug)]
pub enum BatchedEvent {
    /// There is a response, or there will be none.
    Resolved { ok: bool },
    /// The response was queued for the next reply, or could not be.
    Queued { ok: bool },
}

/// What is to be done about a command that came in a batch.
#[derive(Clone, Copy, PartialEq, Eq, Structural, Debug)]
pub enum BatchedAction {
    Nothing,
    /// Queue the response together with the id of the command, and wake up who sends replies.
    Queue { id: u64 },
    Observe(Label),
    CountFailure(Label),
}

/// A command that came in a batch under the id `id`, and is counted under `label`.
#[derive(Debug, PartialEq, Eq)]
pub struct BatchedCall {
    pub id: u64,
    pub label: Label,
    pub state: BatchedState,
}

/// Whether `event` can happen to a command in the state `state`.
pub open spec fn batched_enabled(state: BatchedState, event: BatchedEvent) -> bool {
    match event {
        BatchedEvent::Resolved { ok: _ } => state == BatchedState::Running,
        BatchedEvent::Queued { ok: _ } => state == BatchedState::Sending,
    }
}

/// The state that `event` brings a command to.
pub open spec fn batched_next(event: BatchedEvent) -> BatchedState {
    match event {
        BatchedEvent::Resolved { ok: true } => BatchedState::Sending,
        _ => BatchedState::Closed,
    }
}

/// What is to be done when `event` happens to the command with the id `id`, which is counted under
/// `label`. One whose response cannot be queued has nobody left to answer to, and is not counted.
pub open spec fn batched_action(id: u64, label: Label, event: BatchedEvent) -> BatchedAction {
    match event {
        BatchedEvent::Resolved { ok: true } => BatchedAction::Queue { id },
        BatchedEvent::Resolved { ok: false } => BatchedAction::CountFailure(label),
        BatchedEvent::Queued { ok: true } => BatchedAction::Observe(label),
        BatchedEvent::Queued { ok: false } => BatchedAction::Nothing,
    }
}

impl BatchedCall {
    pub fn new(id: u64, label: Label) -> (call: BatchedCall)
        ensures
            call == (BatchedCall { id, label, state: BatchedState::Running }),
    {
        BatchedCall { id, label, state: BatchedState::Running }
    }

    /// Takes note of `event` and says what is to be done about it.
    pub fn on_event(&mut self, event: BatchedEvent) -> (action: BatchedAction)
        requires
            batched_enabled(old(self).state, event),
        ensures
            final(self).id == old(self).id,
            final(self).label == old(self).label,
            final(self).state == batched_next(event),
            action == batched_action(old(self).id, old(self).label, event),
    {
        match event {
            BatchedEvent::Resolved { ok } => {
                if ok {
                    self.state = BatchedState::Sending;
                    BatchedAction::Queue { id: self.id }
                } else {
                    self.state = BatchedState::Closed;
                    BatchedAction::CountFailure(self.label)
                }
            },
            BatchedEvent::Queued { ok } => {
                self.state = BatchedState::Closed;
                if ok {
                    BatchedAction::Observe(self.label)
                } else {
                    BatchedAction::Nothing
                }
            },
        }
    }
}

/// Whether `events` can happen, one after the other, to a command in the state `state`.
pub open spec fn batched_run(state: BatchedState, events: Seq<BatchedEvent>) -> bool
    decreases events.len(),
{
    events.len() > 0 ==> batched_enabled(state, events[0]) && batched_run(
        batched_next(events[0]),
        events.drop_first(),
    )
}

/// What is to be done, event by event, about the command with the id `id`.
pub open spec fn batched_actions(id: u64, label: Label, events: Seq<BatchedEvent>) -> Seq<
    BatchedAction,
> {
    events.map_values(|event: BatchedEvent| batched_action(id, label, event))
}

/// A command that came in a batch is answered once, under its own id, if it has a response, and is
/// otherwise counted as failed and not answered at all. Its duration is recorded only after its
/// response was queued.
pub proof fn law_batched_command_is_answered_once(
    id: u64,
    label: Label,
    events: Seq<BatchedEvent>,
)
    requires
        batched_run(BatchedState::Running, events),
        events.len() > 0,
    ensures
        events[0] == (BatchedEvent::Resolved { ok: false }) ==> batched_actions(id, label, events)
            == seq![BatchedAction::CountFailure(label)],
        events[0] != (BatchedEvent::Resolved { ok: false }) ==> {
            ||| batched_actions(id, label, events) == seq![BatchedAction::Queue { id }]
            ||| batched_actions(id, label, events) == seq![
                BatchedAction::Queue { id },
                BatchedAction::Observe(label),
            ]
            ||| batched_actions(id, label, events) == seq![
                BatchedAction::Queue { id },
                BatchedAction::Nothing,
            ]
        },
{
    reveal_with_fuel(batched_run, 4);
    assert(1 <= events.len() <= 2);
    let actions = batched_actions(id, label, events);
    if events.len() == 1 {
        assert(actions =~= seq![batched_action(id, label, events[0])]);
    } else {
        assert(events.drop_first()[0] == events[1]);
        assert(actions =~= seq![
            batched_action(id, label, events[0]),
            batched_action(id, label, events[1]),
        ]);
    }
}

/// What becomes of a request that was handed on together with a callback.
#[derive(Debug, PartialEq, Eq)]
pub enum Submission<E> {
    /// It was not taken, and the refusal is its answer.
    Settled(E),
    /// It was taken, and the callback will bring the answer.
    Waiting,
}

/// What becomes of a request, given whether it was taken.
pub fn submission<E>(taken: Result<(), E>) -> (s: Submission<E>)
    ensures
        s == match taken {
            Ok(_) => Submission::<E>::Waiting,
            Err(e) => Submission::Settled(e),
        },
{
    match taken {
        Ok(_) => Submission::Waiting,
        Err(e) => Submission::Settled(e),
    }
}

} // verus!
