//! What is done about calls, event by event.
use crate::call::submission;
use crate::call::BatchedAction;
use crate::call::BatchedCall;
use crate::call::BatchedEvent;
use crate::call::BatchedState;
use crate::call::Call;
use crate::call::CallAction;
use crate::call::CallEvent;
use crate::call::CallState;
use crate::call::Submission;
use crate::metrics::Label;
use crate::status::RpcStatusCode;
use vstd::prelude::*;

verus! {

/// The check of the caller decides: the call of one that is allowed is carried out, and about that
/// of any other nothing is done, now or later.
pub proof fn law_check_decides(call: &mut Call, allowed: bool, action: CallAction)
    requires
        call_ensures(Call::on_event, (call, CallEvent::Checked { allowed }), action),
    ensures
        final(call).label == old(call).label,
        allowed ==> action is Submit && final(call).state is Running,
        !allowed ==> action is Nothing && final(call).state is Closed,
{
}

/// A call that could not be handed on ends with a status that says so, in the words of whoever did
/// not take it.
pub proof fn law_rejected_call_fails(call: &mut Call, message: String, action: CallAction)
    requires
        call_ensures(Call::on_event, (call, CallEvent::Rejected { message }), action),
    ensures
        final(call).label == old(call).label,
        final(call).state is Closed,
        ({
            &&& action matches CallAction::Fail(status)
            &&& status.status == RpcStatusCode::ResourceExhausted
            &&& status.details matches Some(details)
            &&& details == message
        }),
{
}

/// A response is sent if there is one. Otherwise the call is counted as failed, under its own
/// label, and that is the end of it.
pub proof fn law_response_is_sent_or_missed(call: &mut Call, ok: bool, action: CallAction)
    requires
        call_ensures(Call::on_event, (call, CallEvent::Resolved { ok }), action),
    ensures
        final(call).label == old(call).label,
        ok ==> action is Send && final(call).state is Sending,
        !ok ==> final(call).state is Closed && (action matches CallAction::CountFailure(label)
            && label == old(call).label),
{
}

/// When all responses have reached the caller, the duration of the call is recorded. If they have
/// not, the call is counted as failed. Both are done under its own label, and end it.
pub proof fn law_delivery_ends_the_call(
    call: &mut Call,
    event: CallEvent,
    ok: bool,
    action: CallAction,
)
    requires
        call_ensures(Call::on_event, (call, event), action),
        event == (CallEvent::Delivered { ok }) || event == (CallEvent::Streamed { ok }),
    ensures
        final(call).label == old(call).label,
        final(call).state is Closed,
        ok ==> (action matches CallAction::Observe(label) && label == old(call).label),
        !ok ==> (action matches CallAction::CountFailure(label) && label == old(call).label),
{
}

/// A call is first checked, then handed on or not, and at last delivered where there is a response:
/// each of this can happen in just that state.
pub proof fn law_events_come_in_order(call: &mut Call, allowed: bool, ok: bool, message: String)
    ensures
        old(call).state is Arrived ==> call_requires(
            Call::on_event,
            (call, CallEvent::Checked { allowed }),
        ),
        old(call).state is Running ==> call_requires(
            Call::on_event,
            (call, CallEvent::Rejected { message }),
        ),
        old(call).state is Running ==> call_requires(
            Call::on_event,
            (call, CallEvent::Resolved { ok }),
        ),
        old(call).state is Running ==> call_requires(
            Call::on_event,
            (call, CallEvent::Streamed { ok }),
        ),
        old(call).state is Sending ==> call_requires(
            Call::on_event,
            (call, CallEvent::Delivered { ok }),
        ),
{
}

/// A command of a batch is carried out from the start, under the id and the label that it was
/// given.
pub proof fn law_batched_call_keeps_its_id(id: u64, label: Label, call: BatchedCall)
    requires
        call_ensures(BatchedCall::new, (id, label), call),
    ensures
        call.id == id,
        call.label == label,
        call.state is Running,
{
}

/// The response to a command of a batch is queued under the id of that command. Where there is
/// none, the command is counted as failed, under its own label, and that is the end of it.
pub proof fn law_batched_response_is_queued_under_its_id(
    call: &mut BatchedCall,
    ok: bool,
    action: BatchedAction,
)
    requires
        call_ensures(BatchedCall::on_event, (call, BatchedEvent::Resolved { ok }), action),
    ensures
        final(call).id == old(call).id,
        final(call).label == old(call).label,
        ok ==> final(call).state is Sending && (action matches BatchedAction::Queue { id } && id
            == old(call).id),
        !ok ==> final(call).state is Closed && (action matches BatchedAction::CountFailure(label)
            && label == old(call).label),
{
}

/// When the response was queued, the duration of the command is recorded under its own label. If it
/// could not be, there is nobody left to answer to, and nothing is done.
pub proof fn law_queued_command_is_recorded(
    call: &mut BatchedCall,
    ok: bool,
    action: BatchedAction,
)
    requires
        call_ensures(BatchedCall::on_event, (call, BatchedEvent::Queued { ok }), action),
    ensures
        final(call).id == old(call).id,
        final(call).label == old(call).label,
        final(call).state is Closed,
        ok ==> (action matches BatchedAction::Observe(label) && label == old(call).label),
        !ok ==> action is Nothing,
{
}

/// A command of a batch is carried out before its response is queued.
pub proof fn law_batched_events_come_in_order(call: &mut BatchedCall, ok: bool)
    ensures
        old(call).state is Running ==> call_requires(
            BatchedCall::on_event,
            (call, BatchedEvent::Resolved { ok }),
        ),
        old(call).state is Sending ==> call_requires(
            BatchedCall::on_event,
            (call, BatchedEvent::Queued { ok }),
        ),
{
}

/// A request that was not taken is answered by the refusal, and one that was is answered later.
pub proof fn law_refusal_is_the_answer<E>(taken: Result<(), E>, s: Submission<E>)
    requires
        call_ensures(submission::<E>, (taken,), s),
    ensures
        s is Waiting <==> taken is Ok,
        taken matches Err(refusal) ==> (s matches Submission::Settled(e) && e == refusal),
{
}

} // verus!
