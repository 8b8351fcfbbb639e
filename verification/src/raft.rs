//! Streams of messages between replicas: in which order the messages are passed on, and with which
//! status a stream ends.
use crate::status::RpcStatus;
use crate::status::RpcStatusCode;
use std::collections::VecDeque;
use vstd::prelude::*;

verus! {

/// A stream that brings messages of the type `M`.
///
/// Messages come in one or several at a time, and are passed on one by one. The first message that
/// cannot be passed on ends the stream, and so does an error of the stream itself.
pub struct RaftStream<M> {
    /// The messages that have come in and wait to be passed on.
    pub queue: VecDeque<M>,
    /// Whether a message is being passed on.
    pub sending: bool,
    /// How the stream has ended, if it has.
    pub outcome: Option<Result<(), String>>,
}

/// What happens on a stream.
pub ghost enum RaftEvent<M> {
    /// Messages come in.
    Received(Seq<M>),
    /// A message is taken from the queue to be passed on.
    Taken(M),
    /// The message was passed on, or could not be.
    Sent(Result<(), Seq<char>>),
    /// The stream brings no more messages, or breaks off.
    Ended(Result<(), Seq<char>>),
}

pub ghost struct RaftStreamView<M> {
    pub queue: Seq<M>,
    pub sending: bool,
    pub outcome: Option<Result<(), Seq<char>>>,
}

/// How something came out, with the text of an error.
pub open spec fn outcome_view(outcome: Result<(), String>) -> Result<(), Seq<char>> {
    match outcome {
        Ok(_) => Ok(()),
        Err(message) => Err(message@),
    }
}

impl<M> View for RaftStream<M> {
    type V = RaftStreamView<M>;

    open spec fn view(&self) -> RaftStreamView<M> {
        RaftStreamView {
            queue: self.queue@,
            sending: self.sending,
            outcome: match self.outcome {
                None => None,
                Some(outcome) => Some(outcome_view(outcome)),
            },
        }
    }
}

impl<M> RaftStreamView<M> {
    /// A stream on which nothing has happened yet.
    pub open spec fn new() -> RaftStreamView<M> {
        RaftStreamView { queue: Seq::empty(), sending: false, outcome: None }
    }

    /// Whether `event` can happen now.
    pub open spec fn enabled(self, event: RaftEvent<M>) -> bool {
        &&& self.outcome is None
        &&& match event {
            RaftEvent::Received(_) => self.queue.len() == 0 && !self.sending,
            RaftEvent::Taken(msg) => self.queue.len() > 0 && !self.sending && msg == self.queue[0],
            RaftEvent::Sent(_) => self.sending,
            RaftEvent::Ended(_) => self.queue.len() == 0 && !self.sending,
        }
    }

    /// What `event` makes of the stream.
    pub open spec fn after(self, event: RaftEvent<M>) -> RaftStreamView<M> {
        match event {
            RaftEvent::Received(msgs) => RaftStreamView { queue: msgs, ..self },
            RaftEvent::Taken(_) => RaftStreamView {
                queue: self.queue.drop_first(),
                sending: true,
                ..self
            },
            RaftEvent::Sent(Ok(_)) => RaftStreamView { sending: false, ..self },
            RaftEvent::Sent(Err(message)) => RaftStreamView {
                queue: Seq::empty(),
                sending: false,
                outcome: Some(Err(message)),
            },
            RaftEvent::Ended(outcome) => RaftStreamView { outcome: Some(outcome), ..self },
        }
    }
}

impl<M> RaftStream<M> {
    /// Opens a stream, unless the one who asks for it is not allowed to.
    pub fn open(allowed: bool) -> (stream: Option<RaftStream<M>>)
        ensures
            stream is Some <==> allowed,
            stream matches Some(s) ==> s@ == RaftStreamView::<M>::new(),
    {
        if !allowed {
            return None;
        }
        Some(RaftStream { queue: VecDeque::new(), sending: false, outcome: None })
    }

    /// Takes in messages, and says how many they are.
    pub fn receive(&mut self, msgs: Vec<M>) -> (received: usize)
        requires
            old(self)@.enabled(RaftEvent::Received(msgs@)),
        ensures
            final(self)@ == old(self)@.after(RaftEvent::Received(msgs@)),
            received == msgs@.len(),
    {
        let received: usize = msgs.len();
        let ghost before = self@;
        for msg in it: msgs.into_iter()
            invariant
                it.seq() == msgs@,
                self.queue@ == it.seq().take(it.index() as int),
                self.sending == before.sending,
                self@.outcome == before.outcome,
        {
            self.queue.push_back(msg);
        }
        assert(self.queue@ =~= msgs@);
        received
    }

    /// Takes the next message that is to be passed on, if there is one.
    pub fn take(&mut self) -> (msg: Option<M>)
        requires
            old(self)@.outcome is None,
            !old(self)@.sending,
        ensures
            match msg {
                Some(m) => old(self)@.enabled(RaftEvent::Taken(m)) && final(self)@ == old(
                    self,
                )@.after(RaftEvent::Taken(m)),
                None => old(self)@.queue.len() == 0 && final(self)@ == old(self)@,
            },
    {
        let msg = self.queue.pop_front();
        if msg.is_some() {
            self.sending = true;
            assert(self.queue@ =~= old(self).queue@.drop_first());
        }
        msg
    }

    /// Takes note of whether the message that was taken last could be passed on.
    pub fn sent(&mut self, result: Result<(), String>)
        requires
            old(self)@.enabled(RaftEvent::Sent(outcome_view(result))),
        ensures
            final(self)@ == old(self)@.after(RaftEvent::Sent(outcome_view(result))),
    {
        self.sending = false;
        if let Err(message) = result {
            self.queue.clear();
            self.outcome = Some(Err(message));
        }
    }

    /// Takes note of the end of the stream.
    pub fn end(&mut self, result: Result<(), String>)
        requires
            old(self)@.enabled(RaftEvent::Ended(outcome_view(result))),
        ensures
            final(self)@ == old(self)@.after(RaftEvent::Ended(outcome_view(result))),
    {
        self.outcome = Some(result);
    }

    /// The status with which the call ends that brought the stream. There is no response to such a
    /// call, so that its status is never a good one, but only after an error it says more.
    pub fn status(self) -> (status: RpcStatus)
        requires
            self@.outcome is Some,
        ensures
            status.status == RpcStatusCode::Unknown,
            match self@.outcome->0 {
                Ok(_) => status.details is None,
                Err(message) => status.details matches Some(details) && details@ == message,
            },
    {
        match self.outcome {
            Some(Err(message)) => RpcStatus::new(RpcStatusCode::Unknown, Some(message)),
            _ => RpcStatus::new(RpcStatusCode::Unknown, None),
        }
    }
}

/// The stream after the given events.
pub open spec fn stream_after<M>(events: Seq<RaftEvent<M>>) -> RaftStreamView<M>
    decreases events.len(),
{
    if events.len() == 0 {
        RaftStreamView::new()
    } else {
        stream_after(events.drop_last()).after(events.last())
    }
}

/// Whether the given events can happen on a new stream, one after the other.
pub open spec fn stream_runs<M>(events: Seq<RaftEvent<M>>) -> bool
    decreases events.len(),
{
    events.len() > 0 ==> stream_runs(events.drop_last()) && stream_after(
        events.drop_last(),
    ).enabled(events.last())
}

/// All messages that have come in.
pub open spec fn received<M>(events: Seq<RaftEvent<M>>) -> Seq<M>
    decreases events.len(),
{
    if events.len() == 0 {
        Seq::empty()
    } else {
        let before = received(events.drop_last());
        match events.last() {
            RaftEvent::Received(msgs) => before + msgs,
            _ => before,
        }
    }
}

/// All messages that were passed on or were attempted to be, in that order.
pub open spec fn passed_on<M>(events: Seq<RaftEvent<M>>) -> Seq<M>
    decreases events.len(),
{
    if events.len() == 0 {
        Seq::empty()
    } else {
        let before = passed_on(events.drop_last());
        match events.last() {
            RaftEvent::Taken(msg) => before.push(msg),
            _ => before,
        }
    }
}

/// Messages are passed on in the order in which they come in, each of them once and none left out.
/// While a stream lasts, those that were passed on and those that wait to be are all that have come
/// in. When it has ended without an error, all have been passed on. Only an error cuts them short.
pub proof fn law_messages_are_passed_on_in_order<M>(events: Seq<RaftEvent<M>>)
    requires
        stream_runs(events),
    ensures
        passed_on(events).is_prefix_of(received(events)),
        stream_after(events).outcome is None ==> received(events) == passed_on(events)
            + stream_after(events).queue,
        stream_after(events).outcome matches Some(Ok(_)) ==> received(events) == passed_on(events),
    decreases events.len(),
{
    if events.len() == 0 {
        assert(received(events) =~= passed_on(events) + stream_after(events).queue);
    } else {
        let before = events.drop_last();
        law_messages_are_passed_on_in_order(before);
        let stream = stream_after(before);
        assert(received(before) == passed_on(before) + stream.queue);
        match events.last() {
            RaftEvent::Taken(msg) => {
                assert(passed_on(before) + stream.queue =~= passed_on(before).push(msg)
                    + stream.queue.drop_first());
            },
            RaftEvent::Received(msgs) => {
                assert(received(before) + msgs =~= passed_on(before) + msgs);
            },
            _ => {
                assert(stream.queue.len() == 0 ==> received(before) =~= passed_on(before));
            },
        }
    }
}

/// After a stream has ended, by an error or otherwise, nothing more happens on it: the event that
/// ends it is the last one, and so nothing is passed on after a message that could not be.
pub proof fn law_nothing_follows_the_end<M>(events: Seq<RaftEvent<M>>, i: int)
    requires
        stream_runs(events),
        0 <= i < events.len(),
        match events[i] {
            RaftEvent::Sent(Err(_)) => true,
            RaftEvent::Ended(_) => true,
            _ => false,
        },
    ensures
        i == events.len() - 1,
        stream_after(events).outcome is Some,
    decreases events.len(),
{
    if i < events.len() - 1 {
        law_nothing_follows_the_end(events.drop_last(), i);
    }
}

/// A call that brings a snapshot.
#[derive(Debug, PartialEq, Eq)]
pub struct SnapshotCall {}

impl SnapshotCall {
    /// Lets a call in that brings a snapshot, unless its caller is not allowed to make it. One that
    /// is let in is to be scheduled, and about any other nothing is to be done.
    pub fn open(allowed: bool) -> (call: Option<SnapshotCall>)
        ensures
            call is Some <==> allowed,
    {
        if !allowed {
            return None;
        }
        Some(SnapshotCall {})
    }

    /// The status with which the call ends, given whether the order to take the snapshot over could
    /// be given. Where it could, whoever got the order has to end the call.
    pub fn refusal(self, scheduled: Result<(), String>) -> (status: Option<RpcStatus>)
        ensures
            status == match scheduled {
                Ok(_) => None,
                Err(message) => Some(
                    RpcStatus { status: RpcStatusCode::ResourceExhausted, details: Some(message) },
                ),
            },
    {
        match scheduled {
            Ok(_) => None,
            Err(message) => Some(RpcStatus::new(RpcStatusCode::ResourceExhausted, Some(message))),
        }
    }
}

} // verus!
