//! How the commands of a batch are taken up, step by step, and how responses go into replies.
use crate::batch::BatchCommandsResponse;
use crate::batch::BatchRespCollector;
use crate::batch::BatchSession;
use crate::batch::Phase;
use crate::batch::Step;
use crate::command::RequestCmd;
use crate::command::Wire;
use crate::request::GetRequest;
use crate::request::RawGetRequest;
use crate::service::BatchStream;
use crate::service::Service;
use crate::stream::WriteFlags;
use vstd::prelude::*;

verus! {

/// A session starts with all commands of its batch, each under its own id and in the order in which
/// the batch has them. Reads are gathered exactly if the service says so and the batch has more
/// than two commands.
pub proof fn law_session_starts_with_the_whole_batch<L, W: Wire>(
    stream: &BatchStream<L>,
    request_ids: Vec<u64>,
    requests: Vec<Option<RequestCmd<W>>>,
    session: BatchSession<W>,
)
    requires
        call_ensures(BatchStream::<L>::receive::<W>, (stream, request_ids, requests), session)
            || call_ensures(
            BatchSession::<W>::new,
            (stream.enable_req_batch, request_ids, requests),
            session,
        ),
        request_ids@.len() == requests@.len(),
    ensures
        session.phase is Taking,
        session.batching <==> stream.enable_req_batch && requests@.len() > 2,
        session.pending@.len() == requests@.len(),
        forall|i: int|
            0 <= i < requests@.len() ==> (#[trigger] session.pending@[i]).0 == request_ids@[i]
                && session.pending@[i].1 == requests@[i],
{
}

/// Where a batch has more ids than commands, or more commands than ids, those beyond the shorter of
/// the two lists are left out.
pub proof fn law_session_leaves_out_what_has_no_partner<W: Wire>(
    enable_req_batch: bool,
    request_ids: Vec<u64>,
    requests: Vec<Option<RequestCmd<W>>>,
    session: BatchSession<W>,
)
    requires
        call_ensures(BatchSession::<W>::new, (enable_req_batch, request_ids, requests), session),
    ensures
        session.pending@.len() <= request_ids@.len(),
        session.pending@.len() <= requests@.len(),
        session.pending@.len() == request_ids@.len() || session.pending@.len() == requests@.len(),
        session.batching <==> enable_req_batch && requests@.len() > 2,
        forall|i: int|
            0 <= i < session.pending@.len() ==> (#[trigger] session.pending@[i]).0
                == request_ids@[i] && session.pending@[i].1 == requests@[i],
{
}

/// A session that is ready for the next command takes the first one that is left and no other. A
/// command is started at once, as it is and under its own id, unless it is a read and reads are
/// gathered: then the session holds it back under its own id, and has those reads sent off first
/// that were gathered before, if there are enough of them.
pub proof fn law_poll_takes_the_first_command<W: Wire>(session: &mut BatchSession<W>, step: Step<W>)
    requires
        call_ensures(BatchSession::<W>::poll, (session,), step),
        session.phase is Taking,
        session.pending@.len() > 0,
    ensures
        final(session).batching == old(session).batching,
        final(session).pending@.len() + 1 == old(session).pending@.len(),
        forall|i: int|
            0 <= i < final(session).pending@.len()
                ==> #[trigger] final(session).pending@[i] == old(session).pending@[i + 1],
        ({
            let (first, cmd) = old(session).pending@[0];
            let gathered = old(session).batching && (cmd matches Some(RequestCmd::Get(_)) || cmd
                matches Some(RequestCmd::RawGet(_)));
            &&& !gathered ==> {
                &&& step matches Step::Start { id, cmd: started }
                &&& id == first
                &&& started == cmd
                &&& final(session).phase is Taking
            }
            &&& gathered ==> step is CommitIfEnough
            &&& old(session).batching ==> (cmd matches Some(RequestCmd::Get(read)) ==> {
                &&& final(session).phase matches Phase::HeldGet { id, request }
                &&& id == first
                &&& request == read
            })
            &&& old(session).batching ==> (cmd matches Some(RequestCmd::RawGet(read)) ==> {
                &&& final(session).phase matches Phase::HeldRawGet { id, request }
                &&& id == first
                &&& request == read
            })
        }),
{
}

/// A session that has no commands left has the gathered reads sent off if it gathers reads, and
/// then releases their snapshot. Otherwise, and after that, nothing more happens.
pub proof fn law_poll_ends_the_batch<W: Wire>(session: &mut BatchSession<W>, step: Step<W>)
    requires
        call_ensures(BatchSession::<W>::poll, (session,), step),
        session.phase is Taking && session.pending@.len() == 0 || session.phase is Committed
            || session.phase is Closed,
    ensures
        final(session).batching == old(session).batching,
        final(session).pending@ == old(session).pending@,
        old(session).phase is Taking && old(session).batching
            ==> step is Commit && final(session).phase is Committed,
        old(session).phase is Taking && !old(session).batching
            ==> step is Finished && final(session).phase is Closed,
        old(session).phase is Committed
            ==> step is ReleaseSnapshot && final(session).phase is Closed,
        old(session).phase is Closed ==> step is Finished && final(session).phase is Closed,
{
}

/// A session that holds a read asks whether it can be gathered, and keeps the read and its id.
pub proof fn law_poll_asks_about_the_read<W: Wire>(session: &mut BatchSession<W>, step: Step<W>)
    requires
        call_ensures(BatchSession::<W>::poll, (session,), step),
    ensures
        old(session).phase matches Phase::HeldGet { id: held_id, request: held } ==> {
            &&& step is AskGet
            &&& final(session).phase matches Phase::AskedGet { id, request }
            &&& id == held_id
            &&& request == held
            &&& final(session).batching == old(session).batching
            &&& final(session).pending@ == old(session).pending@
        },
        old(session).phase matches Phase::HeldRawGet { id: held_id, request: held } ==> {
            &&& step is AskRawGet
            &&& final(session).phase matches Phase::AskedRawGet { id, request }
            &&& id == held_id
            &&& request == held
            &&& final(session).batching == old(session).batching
            &&& final(session).pending@ == old(session).pending@
        },
{
}

/// Once it is known whether the read that a session holds can be gathered, it is gathered or
/// started by itself, under its own id either way, and the session is ready for the next command.
pub proof fn law_answer_settles_the_read<W: Wire>(
    session: &mut BatchSession<W>,
    can_batch: bool,
    step: Step<W>,
)
    requires
        call_ensures(BatchSession::<W>::answer, (session, can_batch), step),
        session.phase is AskedGet || session.phase is AskedRawGet,
    ensures
        final(session).phase is Taking,
        final(session).batching == old(session).batching,
        final(session).pending@ == old(session).pending@,
        old(session).phase matches Phase::AskedGet { id: held_id, request: held } ==> {
            &&& can_batch ==> {
                &&& step matches Step::JoinGet { id, request }
                &&& id == held_id
                &&& request == held
            }
            &&& !can_batch ==> {
                &&& step matches Step::Start { id, cmd: Some(RequestCmd::Get(request)) }
                &&& id == held_id
                &&& request == held
            }
        },
        old(session).phase matches Phase::AskedRawGet { id: held_id, request: held } ==> {
            &&& can_batch ==> {
                &&& step matches Step::JoinRawGet { id, request }
                &&& id == held_id
                &&& request == held
            }
            &&& !can_batch ==> {
                &&& step matches Step::Start { id, cmd: Some(RequestCmd::RawGet(request)) }
                &&& id == held_id
                &&& request == held
            }
        },
{
}

/// A session can take its next step at any time: by itself unless it has asked something, and by an
/// answer if it has.
pub proof fn law_session_always_goes_on<W: Wire>(session: &mut BatchSession<W>, can_batch: bool)
    ensures
        !(old(session).phase is AskedGet || old(session).phase is AskedRawGet) ==> call_requires(
            BatchSession::<W>::poll,
            (session,),
        ),
        old(session).phase is AskedGet || old(session).phase is AskedRawGet ==> call_requires(
            BatchSession::<W>::answer,
            (session, can_batch),
        ),
{
}

/// What a session shows while it asks is the read that it asks about, and otherwise nothing.
pub proof fn law_session_shows_what_it_asks_about<W: Wire>(
    session: BatchSession<W>,
    get: Option<&GetRequest<W::Context>>,
    raw_get: Option<&RawGetRequest<W::Context>>,
)
    requires
        call_ensures(BatchSession::<W>::asked_get, (&session,), get),
        call_ensures(BatchSession::<W>::asked_raw_get, (&session,), raw_get),
    ensures
        get is Some <==> session.phase is AskedGet,
        raw_get is Some <==> session.phase is AskedRawGet,
        session.phase matches Phase::AskedGet { id: _, request } ==> *get->0 == request,
        session.phase matches Phase::AskedRawGet { id: _, request } ==> *raw_get->0 == request,
{
}

/// A reply starts without responses and without a load.
pub proof fn law_reply_starts_empty<A>(reply: BatchCommandsResponse<A>)
    requires
        call_ensures(BatchCommandsResponse::<A>::new, (), reply),
    ensures
        reply.request_ids@.len() == 0,
        reply.responses@.len() == 0,
        reply.transport_layer_load == 0,
{
    assert(reply.pairs().len() == 0);
}

/// A response that is put into a reply stands there as the last one, under its own id, and those
/// before it stay where they are. It always finds room.
pub proof fn law_collected_response_comes_last<A>(
    collector: &mut BatchRespCollector,
    reply: &mut BatchCommandsResponse<A>,
    response: (u64, A),
    rest: Option<(u64, A)>,
)
    requires
        call_ensures(BatchRespCollector::collect::<A>, (collector, reply, response), rest),
    ensures
        rest is None,
        final(reply).request_ids@.len() == old(reply).request_ids@.len() + 1,
        final(reply).responses@.len() == old(reply).responses@.len() + 1,
        final(reply).request_ids@.last() == response.0,
        final(reply).responses@.last() == response.1,
        forall|i: int|
            0 <= i < old(reply).request_ids@.len() ==> #[trigger] final(reply).request_ids@[i]
                == old(reply).request_ids@[i],
        forall|i: int|
            0 <= i < old(reply).responses@.len()
                ==> #[trigger] final(reply).responses@[i] == old(reply).responses@[i],
        final(reply).transport_layer_load == old(reply).transport_layer_load,
{
}

/// A reply goes out with the responses and ids that were put into it and with the load that was
/// given, and is not to be held back.
pub proof fn law_message_is_the_reply_with_the_load<A>(
    reply: BatchCommandsResponse<A>,
    thread_load: usize,
    message: (BatchCommandsResponse<A>, WriteFlags),
)
    requires
        call_ensures(BatchCommandsResponse::<A>::into_message, (reply, thread_load), message),
    ensures
        message.0.request_ids == reply.request_ids,
        message.0.responses == reply.responses,
        message.0.transport_layer_load == thread_load,
        !message.1.buffer_hint,
{
}

/// What a stream of batches sends for a reply has the responses and ids that were put into it and
/// the load that was read off what the stream measures it with, and is not to be held back.
pub proof fn law_stream_tells_the_load_it_read<L, A, F: FnOnce(&L) -> usize>(
    stream: &BatchStream<L>,
    reply: BatchCommandsResponse<A>,
    read: F,
    message: (BatchCommandsResponse<A>, WriteFlags),
)
    requires
        call_ensures(BatchStream::<L>::message::<A, F>, (stream, reply, read), message),
    ensures
        message.0.request_ids == reply.request_ids,
        message.0.responses == reply.responses,
        !message.1.buffer_hint,
        exists|load: usize|
            #[trigger] call_ensures(read, (&*stream.thread_load,), load)
                && message.0.transport_layer_load == load,
{
}

/// A stream of batches opens exactly for those who are allowed to ask for it. It gathers reads as
/// the service says, measures the load of the threads that handle connections, wakes up whoever
/// sends replies at 8 responses, and lets no more than 128 into one reply.
pub proof fn law_stream_opens_for_the_allowed<T, S, G, C, N, L, M>(
    service: &Service<T, S, G, C, N, L, M>,
    allowed: bool,
    stream: Option<BatchStream<L>>,
)
    requires
        call_ensures(
            Service::<T, S, G, C, N, L, M>::open_batch_stream,
            (service, allowed),
            stream,
        ),
    ensures
        stream is Some <==> allowed,
        stream matches Some(opened) ==> {
            &&& opened.enable_req_batch == service.enable_req_batch
            &&& opened.notify_size == 8
            &&& opened.max_batch_size == 128
            &&& opened.thread_load == service.grpc_thread_load
        },
{
}

} // verus!
