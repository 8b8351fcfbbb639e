//! What goes through streams of messages, how they end, and how tasks are woken up.
use crate::notify::Polled;
use crate::notify::TaskSlot;
use crate::raft::RaftStream;
use crate::raft::SnapshotCall;
use crate::status::RpcStatus;
use crate::status::RpcStatusCode;
use crate::stream::coprocessor_stream_item;
use crate::stream::WriteFlags;
use vstd::prelude::*;

verus! {

/// A stream of messages opens exactly for those who are allowed to ask for it, with nothing on it,
/// and so does a call that brings a snapshot.
pub proof fn law_streams_open_for_the_allowed<M>(
    allowed: bool,
    stream: Option<RaftStream<M>>,
    snapshot: Option<SnapshotCall>,
)
    requires
        call_ensures(RaftStream::<M>::open, (allowed,), stream),
        call_ensures(SnapshotCall::open, (allowed,), snapshot),
    ensures
        stream is Some <==> allowed,
        snapshot is Some <==> allowed,
        stream matches Some(opened) ==> opened.queue@.len() == 0 && !opened.sending
            && opened.outcome is None,
{
}

/// All messages that come in at a time are queued, in the order in which they come, and counted.
pub proof fn law_received_messages_are_queued<M>(
    stream: &mut RaftStream<M>,
    msgs: Vec<M>,
    received: usize,
)
    requires
        call_ensures(RaftStream::<M>::receive, (stream, msgs), received),
        stream.outcome is None,
    ensures
        received == msgs@.len(),
        final(stream).queue@.len() == msgs@.len(),
        forall|i: int| 0 <= i < msgs@.len() ==> #[trigger] final(stream).queue@[i] == msgs@[i],
        final(stream).sending == old(stream).sending,
        final(stream).outcome is None,
{
}

/// The message that is passed on next is the first one that waits, and the others go on waiting in
/// the same order. If none waits, none is passed on.
pub proof fn law_first_message_is_taken<M>(stream: &mut RaftStream<M>, msg: Option<M>)
    requires
        call_ensures(RaftStream::<M>::take, (stream,), msg),
        stream.outcome is None,
        !stream.sending,
    ensures
        msg is Some <==> old(stream).queue@.len() > 0,
        final(stream).sending <==> msg is Some,
        final(stream).outcome is None,
        msg matches Some(taken) ==> {
            &&& taken == old(stream).queue@[0]
            &&& final(stream).queue@.len() + 1 == old(stream).queue@.len()
            &&& forall|i: int|
                0 <= i < final(stream).queue@.len() ==> #[trigger] final(stream).queue@[i] == old(
                    stream,
                ).queue@[i + 1]
        },
        msg is None ==> final(stream).queue@.len() == 0,
{
}

/// After a message was passed on the stream goes on with those that wait. One that could not be
/// passed on ends the stream with the reason, and none that waits is passed on after it.
pub proof fn law_failure_to_pass_on_ends_the_stream<M>(
    stream: &mut RaftStream<M>,
    result: Result<(), String>,
)
    requires
        call_ensures(RaftStream::<M>::sent, (stream, result), ()),
        stream.outcome is None,
    ensures
        !final(stream).sending,
        result is Ok
            ==> final(stream).queue@ == old(stream).queue@ && final(stream).outcome is None,
        result matches Err(reason) ==> {
            &&& final(stream).queue@.len() == 0
            &&& final(stream).outcome matches Some(Err(message))
            &&& message@ == reason@
        },
{
}

/// A stream that brings no more messages, or breaks off, has ended in just that way.
pub proof fn law_end_is_kept<M>(stream: &mut RaftStream<M>, result: Result<(), String>)
    requires
        call_ensures(RaftStream::<M>::end, (stream, result), ()),
    ensures
        final(stream).queue@ == old(stream).queue@,
        final(stream).sending == old(stream).sending,
        result is Ok ==> (final(stream).outcome matches Some(outcome) && outcome is Ok),
        result matches Err(reason) ==> {
            &&& final(stream).outcome matches Some(Err(message))
            &&& message@ == reason@
        },
{
}

/// The call that brought a stream never ends well. It ends with the reason if the stream ended with
/// one, and without any details otherwise.
pub proof fn law_status_tells_the_reason<M>(stream: RaftStream<M>, status: RpcStatus)
    requires
        call_ensures(RaftStream::<M>::status, (stream,), status),
        stream.outcome is Some,
    ensures
        status.status == RpcStatusCode::Unknown,
        status.details is Some <==> stream.outcome->0 is Err,
        stream.outcome matches Some(Err(reason)) ==> status.details->0@ == reason@,
{
}

/// Until a stream has ended, messages come in and the end can come while none waits and none is
/// being passed on, one that waits can be taken while none is being passed on, and what became of
/// one that was taken can be told. After the end the status can be told.
pub proof fn law_stream_goes_on_until_it_ends<M>(
    stream: &mut RaftStream<M>,
    msgs: Vec<M>,
    result: Result<(), String>,
)
    ensures
        old(stream).outcome is None && !old(stream).sending && old(stream).queue@.len() == 0
            ==> call_requires(RaftStream::<M>::receive, (stream, msgs)) && call_requires(
            RaftStream::<M>::end,
            (stream, result),
        ),
        old(stream).outcome is None && !old(stream).sending ==> call_requires(
            RaftStream::<M>::take,
            (stream,),
        ),
        old(stream).outcome is None && old(stream).sending ==> call_requires(
            RaftStream::<M>::sent,
            (stream, result),
        ),
        old(stream).outcome is Some ==> call_requires(RaftStream::<M>::status, (*old(stream),)),
{
}

/// A call that brings a snapshot ends at once exactly if the order to take it over could not be
/// given, with a status that says why.
pub proof fn law_refused_snapshot_tells_why(
    call: SnapshotCall,
    scheduled: Result<(), String>,
    status: Option<RpcStatus>,
)
    requires
        call_ensures(SnapshotCall::refusal, (call, scheduled), status),
    ensures
        status is Some <==> scheduled is Err,
        scheduled matches Err(reason) ==> {
            &&& status matches Some(told)
            &&& told.status == RpcStatusCode::ResourceExhausted
            &&& told.details == Some(reason)
        },
{
}

/// A response of a stream of the coprocessor goes out as it is, and may be held back.
pub proof fn law_stream_item_is_the_response<T>(response: T, item: (T, WriteFlags))
    requires
        call_ensures(coprocessor_stream_item::<T>, (response,), item),
    ensures
        item.0 == response,
        item.1.buffer_hint,
{
}

/// A status has the code and the details that it was made of. That of a call that is not offered
/// has none, and that of a stream that breaks off has the text of the error.
pub proof fn law_status_is_what_it_was_made_of(
    code: RpcStatusCode,
    details: Option<String>,
    message: String,
    made: RpcStatus,
    unoffered: RpcStatus,
    broken: RpcStatus,
)
    requires
        call_ensures(RpcStatus::new, (code, details), made),
        call_ensures(RpcStatus::unimplemented, (), unoffered),
        call_ensures(RpcStatus::broken_stream, (message,), broken),
    ensures
        made.status == code,
        made.details == details,
        unoffered.status == RpcStatusCode::Unimplemented,
        unoffered.details is None,
        broken.status == RpcStatusCode::Unknown,
        broken.details == Some(message),
{
}

/// A notification polls the task exactly if it is there, and on it alone. The task stays, as the
/// poll has left it, exactly if the poll found it not ready.
pub proof fn law_notification_polls_the_task<S, P: FnOnce(&mut S) -> Polled>(
    slot: &mut TaskSlot<S>,
    poll: P,
    polled: Option<Polled>,
)
    requires
        call_ensures(TaskSlot::<S>::notify::<P>, (slot, poll), polled),
    ensures
        polled is Some <==> old(slot).task is Some,
        final(slot).task is Some <==> polled == Some(Polled::NotReady),
        old(slot).task matches Some(task) ==> exists|m: &mut S|
            *m == task && #[trigger] call_ensures(poll, (m,), polled->0) && (polled == Some(
                Polled::NotReady,
            ) ==> final(slot).task == Some(*final(m))),
{
}

/// A slot starts with the task that it was made for.
pub proof fn law_slot_holds_its_task<S>(task: S, slot: TaskSlot<S>)
    requires
        call_ensures(TaskSlot::<S>::new, (task,), slot),
    ensures
        slot.task == Some(task),
{
}

} // verus!
