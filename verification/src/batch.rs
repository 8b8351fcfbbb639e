//! Batches of commands: in which order the commands of a batch are started, and how the responses
//! are put together.
use crate::command::RequestCmd;
use crate::command::Wire;
use crate::request::GetRequest;
use crate::request::RawGetRequest;
use crate::stream::WriteFlags;
use std::collections::VecDeque;
use vstd::prelude::*;

verus! {

/// The most responses that go into one reply.
pub const GRPC_MSG_MAX_BATCH_SIZE: usize = 128;

/// How many responses are queued before whoever sends replies is woken up.
pub const GRPC_MSG_NOTIFY_SIZE: usize = 8;

/// A batch of at most this many commands is too small for its reads to be gathered.
pub const SMALL_BATCH_SIZE: usize = 2;

/// What a session waits for.
#[derive(Debug, PartialEq, Eq)]
pub enum Phase<C> {
    /// Nothing: it goes on with the next command.
    Taking,
    /// Nothing: it holds a read, and goes on to ask whether that can be gathered with others.
    HeldGet { id: u64, request: GetRequest<C> },
    /// Nothing: the same with a raw read.
    HeldRawGet { id: u64, request: RawGetRequest<C> },
    /// Whether a read can be gathered with others.
    AskedGet { id: u64, request: GetRequest<C> },
    /// Whether a raw read can be gathered with others.
    AskedRawGet { id: u64, request: RawGetRequest<C> },
    /// Nothing: the gathered reads were sent off.
    Committed,
    /// Nothing more happens.
    Closed,
}

/// What is to be done next for a batch.
pub enum Step<W: Wire> {
    /// Send off the gathered reads if there are enough of them.
    CommitIfEnough,
    /// Find out whether the read that the session holds can be gathered with the others.
    AskGet,
    /// Find out whether the raw read that the session holds can be gathered with the others.
    AskRawGet,
    /// Gather a read with the others.
    JoinGet { id: u64, request: GetRequest<W::Context> },
    /// Gather a raw read with the others.
    JoinRawGet { id: u64, request: RawGetRequest<W::Context> },
    /// Start a command by itself.
    Start { id: u64, cmd: Option<RequestCmd<W>> },
    /// Send off the gathered reads.
    Commit,
    /// Release the snapshot that the gathered reads shared.
    ReleaseSnapshot,
    /// Nothing: all is done.
    Finished,
}

/// The way of the commands of one batch into the service.
///
/// With `batching`, reads are gathered so that they can be carried out together.
pub struct BatchSession<W: Wire> {
    pub batching: bool,
    pub pending: VecDeque<(u64, Option<RequestCmd<W>>)>,
    pub phase: Phase<W::Context>,
}

/// What a session is about to do.
pub ghost struct SessionView<W: Wire> {
    pub batching: bool,
    pub pending: Seq<(u64, Option<RequestCmd<W>>)>,
    pub phase: Phase<W::Context>,
}

/// Commands with their ids, as far as there are both.
pub open spec fn paired<T>(ids: Seq<u64>, items: Seq<T>) -> Seq<(u64, T)> {
    Seq::new(
        if ids.len() <= items.len() {
            ids.len()
        } else {
            items.len()
        },
        |i: int| (ids[i], items[i]),
    )
}

impl<W: Wire> SessionView<W> {
    /// Whether the session holds a read and waits to hear whether it can be gathered.
    pub open spec fn is_asking(self) -> bool {
        self.phase is AskedGet || self.phase is AskedRawGet
    }

    /// Whether the session holds a read, and has yet to ask whether it can be gathered.
    pub open spec fn is_holding(self) -> bool {
        self.phase is HeldGet || self.phase is HeldRawGet
    }

    /// The command that the session holds back, if there is one.
    pub open spec fn held(self) -> Seq<(u64, Option<RequestCmd<W>>)> {
        match self.phase {
            Phase::HeldGet { id, request } => seq![(id, Some(RequestCmd::Get(request)))],
            Phase::HeldRawGet { id, request } => seq![(id, Some(RequestCmd::RawGet(request)))],
            Phase::AskedGet { id, request } => seq![(id, Some(RequestCmd::Get(request)))],
            Phase::AskedRawGet { id, request } => seq![(id, Some(RequestCmd::RawGet(request)))],
            _ => Seq::empty(),
        }
    }

    /// A session has no commands left once it has sent off the gathered reads.
    pub open spec fn wf(self) -> bool {
        &&& (self.phase is Committed || self.phase is Closed) ==> self.pending.len() == 0
        &&& (self.is_holding() || self.is_asking() || self.phase is Committed) ==> self.batching
    }

    /// The most steps that a session can take before it takes another command.
    pub open spec fn steps_without_taking(self) -> int {
        match self.phase {
            Phase::Closed => 0,
            Phase::Committed => 1,
            Phase::Taking => 2,
            Phase::AskedGet { .. } | Phase::AskedRawGet { .. } => 3,
            Phase::HeldGet { .. } | Phase::HeldRawGet { .. } => 4,
        }
    }

    /// The step that a session takes when it is not asking anything, and where that leaves it.
    pub open spec fn polled(self) -> (SessionView<W>, Step<W>) {
        match self.phase {
            Phase::Taking => if self.pending.len() == 0 {
                if self.batching {
                    (SessionView { phase: Phase::Committed, ..self }, Step::Commit)
                } else {
                    (SessionView { phase: Phase::Closed, ..self }, Step::Finished)
                }
            } else {
                let (id, cmd) = self.pending[0];
                let rest = self.pending.drop_first();
                match cmd {
                    Some(RequestCmd::Get(request)) if self.batching => (
                        SessionView {
                            pending: rest,
                            phase: Phase::HeldGet { id, request },
                            ..self
                        },
                        Step::CommitIfEnough,
                    ),
                    Some(RequestCmd::RawGet(request)) if self.batching => (
                        SessionView {
                            pending: rest,
                            phase: Phase::HeldRawGet { id, request },
                            ..self
                        },
                        Step::CommitIfEnough,
                    ),
                    _ => (SessionView { pending: rest, ..self }, Step::Start { id, cmd }),
                }
            },
            Phase::HeldGet { id, request } => (
                SessionView { phase: Phase::AskedGet { id, request }, ..self },
                Step::AskGet,
            ),
            Phase::HeldRawGet { id, request } => (
                SessionView { phase: Phase::AskedRawGet { id, request }, ..self },
                Step::AskRawGet,
            ),
            Phase::Committed => (
                SessionView { phase: Phase::Closed, ..self },
                Step::ReleaseSnapshot,
            ),
            _ => (self, Step::Finished),
        }
    }

    /// The step that a session takes when it hears whether the read that it holds can be gathered,
    /// and where that leaves it.
    pub open spec fn answered(self, can_batch: bool) -> (SessionView<W>, Step<W>) {
        (
            SessionView { phase: Phase::Taking, ..self },
            match self.phase {
                Phase::AskedGet { id, request } => if can_batch {
                    Step::JoinGet { id, request }
                } else {
                    Step::Start { id, cmd: Some(RequestCmd::Get(request)) }
                },
                Phase::AskedRawGet { id, request } => if can_batch {
                    Step::JoinRawGet { id, request }
                } else {
                    Step::Start { id, cmd: Some(RequestCmd::RawGet(request)) }
                },
                _ => Step::Finished,
            },
        )
    }
}

impl<W: Wire> View for BatchSession<W> {
    type V = SessionView<W>;

    open spec fn view(&self) -> SessionView<W> {
        SessionView { batching: self.batching, pending: self.pending@, phase: self.phase }
    }
}

/// The session of a batch with the given commands that is about to take the first of them.
pub open spec fn new_session<W: Wire>(
    enable_req_batch: bool,
    request_ids: Seq<u64>,
    requests: Seq<Option<RequestCmd<W>>>,
) -> SessionView<W> {
    SessionView {
        batching: enable_req_batch && requests.len() > SMALL_BATCH_SIZE,
        pending: paired(request_ids, requests),
        phase: Phase::Taking,
    }
}

impl<W: Wire> BatchSession<W> {
    pub fn new(
        enable_req_batch: bool,
        request_ids: Vec<u64>,
        requests: Vec<Option<RequestCmd<W>>>,
    ) -> (session: BatchSession<W>)
        ensures
            session@ == new_session(enable_req_batch, request_ids@, requests@),
            session@.wf(),
    {
        let batching: bool = enable_req_batch && requests.len() > SMALL_BATCH_SIZE;
        let ghost whole = paired(request_ids@, requests@);
        let mut pending: VecDeque<(u64, Option<RequestCmd<W>>)> = VecDeque::new();
        for cmd in it: requests.into_iter()
            invariant
                it.seq() == requests@,
                whole == paired(request_ids@, requests@),
                pending@ == whole.take(
                    if it.index() <= whole.len() {
                        it.index() as int
                    } else {
                        whole.len() as int
                    },
                ),
        {
            let next: usize = pending.len();
            if next < request_ids.len() {
                pending.push_back((request_ids[next], cmd));
            }
        }
        assert(pending@ =~= whole);
        BatchSession { batching, pending, phase: Phase::Taking }
    }

    /// Takes the next step of a session that is not asking anything.
    pub fn poll(&mut self) -> (step: Step<W>)
        requires
            !old(self)@.is_asking(),
        ensures
            (final(self)@, step) == old(self)@.polled(),
    {
        let mut phase = Phase::Taking;
        std::mem::swap(&mut phase, &mut self.phase);
        match phase {
            Phase::Taking => match self.pending.pop_front() {
                None => {
                    assert(self.pending@ == old(self).pending@);
                    if self.batching {
                        self.phase = Phase::Committed;
                        Step::Commit
                    } else {
                        self.phase = Phase::Closed;
                        Step::Finished
                    }
                },
                Some((id, cmd)) => {
                    assert(self.pending@ =~= old(self).pending@.drop_first());
                    if self.batching {
                        match cmd {
                            Some(RequestCmd::Get(request)) => {
                                self.phase = Phase::HeldGet { id, request };
                                Step::CommitIfEnough
                            },
                            Some(RequestCmd::RawGet(request)) => {
                                self.phase = Phase::HeldRawGet { id, request };
                                Step::CommitIfEnough
                            },
                            other => Step::Start { id, cmd: other },
                        }
                    } else {
                        Step::Start { id, cmd }
                    }
                },
            },
            Phase::HeldGet { id, request } => {
                self.phase = Phase::AskedGet { id, request };
                Step::AskGet
            },
            Phase::HeldRawGet { id, request } => {
                self.phase = Phase::AskedRawGet { id, request };
                Step::AskRawGet
            },
            Phase::Committed => {
                self.phase = Phase::Closed;
                Step::ReleaseSnapshot
            },
            other => {
                self.phase = other;
                Step::Finished
            },
        }
    }

    /// The read that the session holds, if it asks whether that can be gathered.
    pub fn asked_get(&self) -> (request: Option<&GetRequest<W::Context>>)
        ensures
            match self@.phase {
                Phase::AskedGet { id: _, request: held } => request == Some(&held),
                _ => request is None,
            },
    {
        match &self.phase {
            Phase::AskedGet { id: _, request } => Some(request),
            _ => None,
        }
    }

    /// The raw read that the session holds, if it asks whether that can be gathered.
    pub fn asked_raw_get(&self) -> (request: Option<&RawGetRequest<W::Context>>)
        ensures
            match self@.phase {
                Phase::AskedRawGet { id: _, request: held } => request == Some(&held),
                _ => request is None,
            },
    {
        match &self.phase {
            Phase::AskedRawGet { id: _, request } => Some(request),
            _ => None,
        }
    }

    /// Takes the step that follows from the answer whether the read that the session holds can be
    /// gathered with the others.
    pub fn answer(&mut self, can_batch: bool) -> (step: Step<W>)
        requires
            old(self)@.is_asking(),
        ensures
            (final(self)@, step) == old(self)@.answered(can_batch),
    {
        let mut phase = Phase::Taking;
        std::mem::swap(&mut phase, &mut self.phase);
        match phase {
            Phase::AskedGet { id, request } => if can_batch {
                Step::JoinGet { id, request }
            } else {
                Step::Start { id, cmd: Some(RequestCmd::Get(request)) }
            },
            Phase::AskedRawGet { id, request } => if can_batch {
                Step::JoinRawGet { id, request }
            } else {
                Step::Start { id, cmd: Some(RequestCmd::RawGet(request)) }
            },
            _ => Step::Finished,
        }
    }
}

/// The steps that a session takes until nothing more happens. `accept` says whether a read can be
/// gathered that is held while the given number of commands is still pending.
pub open spec fn session_run<W: Wire>(
    session: SessionView<W>,
    accept: spec_fn(nat) -> bool,
) -> Seq<Step<W>>
    decreases session.pending.len(), session.steps_without_taking(),
{
    if session.phase is Closed {
        Seq::empty()
    } else {
        let (next, step) = if session.is_asking() {
            session.answered(accept(session.pending.len()))
        } else {
            session.polled()
        };
        seq![step] + session_run(next, accept)
    }
}

/// The command that a step starts or gathers, if it does that.
pub open spec fn dispatched_by<W: Wire>(step: Step<W>) -> Seq<(u64, Option<RequestCmd<W>>)> {
    match step {
        Step::JoinGet { id, request } => seq![(id, Some(RequestCmd::Get(request)))],
        Step::JoinRawGet { id, request } => seq![(id, Some(RequestCmd::RawGet(request)))],
        Step::Start { id, cmd } => seq![(id, cmd)],
        _ => Seq::empty(),
    }
}

/// The commands that steps start or gather, in that order.
pub open spec fn dispatched<W: Wire>(steps: Seq<Step<W>>) -> Seq<(u64, Option<RequestCmd<W>>)>
    decreases steps.len(),
{
    if steps.len() == 0 {
        Seq::empty()
    } else {
        dispatched_by(steps[0]) + dispatched(steps.drop_first())
    }
}

proof fn lemma_run_dispatches<W: Wire>(session: SessionView<W>, accept: spec_fn(nat) -> bool)
    requires
        session.wf(),
    ensures
        dispatched(session_run(session, accept)) == session.held() + session.pending,
    decreases session.pending.len(), session.steps_without_taking(),
{
    if session.phase is Closed {
        assert(session.held() + session.pending =~= Seq::empty());
    } else {
        let (next, step) = if session.is_asking() {
            session.answered(accept(session.pending.len()))
        } else {
            session.polled()
        };
        lemma_run_dispatches(next, accept);
        let run = session_run(session, accept);
        assert(run.drop_first() =~= session_run(next, accept));
        assert(dispatched(run) =~= session.held() + session.pending);
    }
}

/// Every command of a batch is taken up exactly once, under its own id and in the order in which
/// the batch has them, whatever reads can be gathered: by itself, or gathered with others.
pub proof fn law_every_command_is_taken_up_once<W: Wire>(
    enable_req_batch: bool,
    request_ids: Seq<u64>,
    requests: Seq<Option<RequestCmd<W>>>,
    accept: spec_fn(nat) -> bool,
)
    ensures
        dispatched(session_run(new_session(enable_req_batch, request_ids, requests), accept))
            == paired(request_ids, requests),
{
    let session = new_session(enable_req_batch, request_ids, requests);
    lemma_run_dispatches(session, accept);
    assert(session.held() + session.pending =~= paired(request_ids, requests));
}

/// Whether a step deals with a command of the batch.
pub open spec fn is_about_command<W: Wire>(step: Step<W>) -> bool {
    !(step is Commit || step is ReleaseSnapshot || step is Finished)
}

proof fn lemma_gathering_run<W: Wire>(session: SessionView<W>, accept: spec_fn(nat) -> bool)
    requires
        session.batching,
        session.phase is Taking || session.is_holding() || session.is_asking(),
    ensures
        ({
            let run = session_run(session, accept);
            &&& run.len() >= 2
            &&& run[run.len() - 2] == Step::<W>::Commit
            &&& run[run.len() - 1] == Step::<W>::ReleaseSnapshot
            &&& forall|i: int| 0 <= i < run.len() - 2 ==> is_about_command(#[trigger] run[i])
        }),
    decreases session.pending.len(), session.steps_without_taking(),
{
    let (next, step) = if session.is_asking() {
        session.answered(accept(session.pending.len()))
    } else {
        session.polled()
    };
    let run = session_run(session, accept);
    if next.phase is Committed {
        reveal_with_fuel(session_run, 3);
        assert(run =~= seq![Step::<W>::Commit, Step::<W>::ReleaseSnapshot]);
    } else {
        lemma_gathering_run(next, accept);
        let tail = session_run(next, accept);
        assert(run =~= seq![step] + tail);
        assert forall|i: int| 0 <= i < run.len() - 2 implies is_about_command(
            #[trigger] run[i],
        ) by {
            if i > 0 {
                assert(run[i] == tail[i - 1]);
            }
        }
    }
}

/// Where reads are gathered, those that were gathered are sent off once, after every command of the
/// batch has been taken up, and the snapshot that they shared is released right after that.
pub proof fn law_gathered_reads_are_sent_off_last<W: Wire>(
    request_ids: Seq<u64>,
    requests: Seq<Option<RequestCmd<W>>>,
    accept: spec_fn(nat) -> bool,
)
    requires
        requests.len() > SMALL_BATCH_SIZE,
    ensures
        ({
            let run = session_run(new_session(true, request_ids, requests), accept);
            &&& run.len() >= 2
            &&& run[run.len() - 2] == Step::<W>::Commit
            &&& run[run.len() - 1] == Step::<W>::ReleaseSnapshot
            &&& forall|i: int| 0 <= i < run.len() - 2 ==> is_about_command(#[trigger] run[i])
        }),
{
    lemma_gathering_run(new_session(true, request_ids, requests), accept);
}

/// The steps that deal with one command where reads are gathered. For a read they are three: the
/// reads gathered so far are sent off if there are enough of them, then the question is put whether
/// the read can be gathered, and then it is gathered or, where it cannot be, started by itself.
pub open spec fn steps_for<W: Wire>(
    id: u64,
    cmd: Option<RequestCmd<W>>,
    can_batch: bool,
) -> Seq<Step<W>> {
    match cmd {
        Some(RequestCmd::Get(request)) => seq![
            Step::CommitIfEnough,
            Step::AskGet,
            if can_batch {
                Step::JoinGet { id, request }
            } else {
                Step::Start { id, cmd }
            },
        ],
        Some(RequestCmd::RawGet(request)) => seq![
            Step::CommitIfEnough,
            Step::AskRawGet,
            if can_batch {
                Step::JoinRawGet { id, request }
            } else {
                Step::Start { id, cmd }
            },
        ],
        _ => seq![Step::Start { id, cmd }],
    }
}

/// The steps that deal with all of the given commands where reads are gathered, and the two that
/// come last. `accept` says whether a read can be gathered that is followed by the given number of
/// commands.
pub open spec fn gathering_steps<W: Wire>(
    commands: Seq<(u64, Option<RequestCmd<W>>)>,
    accept: spec_fn(nat) -> bool,
) -> Seq<Step<W>>
    decreases commands.len(),
{
    if commands.len() == 0 {
        seq![Step::Commit, Step::ReleaseSnapshot]
    } else {
        let rest = commands.drop_first();
        steps_for(commands[0].0, commands[0].1, accept(rest.len())) + gathering_steps(rest, accept)
    }
}

proof fn lemma_gathering_steps<W: Wire>(session: SessionView<W>, accept: spec_fn(nat) -> bool)
    requires
        session.batching,
        session.phase is Taking,
    ensures
        session_run(session, accept) == gathering_steps(session.pending, accept),
    decreases session.pending.len(),
{
    reveal_with_fuel(session_run, 4);
    let run = session_run(session, accept);
    if session.pending.len() == 0 {
        assert(run =~= seq![Step::<W>::Commit, Step::<W>::ReleaseSnapshot]);
    } else {
        let rest = session.pending.drop_first();
        let (id, cmd) = session.pending[0];
        let next = SessionView { pending: rest, ..session };
        lemma_gathering_steps(next, accept);
        assert(run =~= steps_for(id, cmd, accept(rest.len())) + session_run(next, accept));
    }
}

/// Where reads are gathered, the steps of a batch are those of its commands, one command after the
/// other, and then the two that come last. So for each read the reads gathered before are sent off,
/// if there are enough of them, before the question is put whether it can be gathered, whatever the
/// answer is.
pub proof fn law_reads_are_sent_off_before_the_question<W: Wire>(
    request_ids: Seq<u64>,
    requests: Seq<Option<RequestCmd<W>>>,
    accept: spec_fn(nat) -> bool,
)
    requires
        requests.len() > SMALL_BATCH_SIZE,
    ensures
        session_run(new_session(true, request_ids, requests), accept) == gathering_steps(
            paired(request_ids, requests),
            accept,
        ),
{
    lemma_gathering_steps(new_session(true, request_ids, requests), accept);
}

proof fn lemma_plain_run<W: Wire>(session: SessionView<W>, accept: spec_fn(nat) -> bool)
    requires
        !session.batching,
        session.phase is Taking,
    ensures
        session_run(session, accept).len() == session.pending.len() + 1,
        session_run(session, accept).last() == Step::<W>::Finished,
        forall|i: int|
            #![trigger session_run(session, accept)[i]]
            0 <= i < session.pending.len() ==> session_run(session, accept)[i] == (Step::<W>::Start {
                id: session.pending[i].0,
                cmd: session.pending[i].1,
            }),
    decreases session.pending.len(),
{
    let (next, step) = session.polled();
    let run = session_run(session, accept);
    if session.pending.len() == 0 {
        reveal_with_fuel(session_run, 2);
        assert(run =~= seq![Step::<W>::Finished]);
    } else {
        lemma_plain_run(next, accept);
        let tail = session_run(next, accept);
        assert(run =~= seq![step] + tail);
        assert forall|i: int| 0 <= i < session.pending.len() implies #[trigger] run[i] == (Step::<
            W,
        >::Start { id: session.pending[i].0, cmd: session.pending[i].1 }) by {
            if i > 0 {
                assert(run[i] == tail[i - 1]);
                assert(session.pending[i] == next.pending[i - 1]);
            }
        }
    }
}

/// Where gathering is off, or the batch is small, every command is started by itself and nothing
/// else is done.
pub proof fn law_small_batches_are_not_gathered<W: Wire>(
    enable_req_batch: bool,
    request_ids: Seq<u64>,
    requests: Seq<Option<RequestCmd<W>>>,
    accept: spec_fn(nat) -> bool,
)
    requires
        !enable_req_batch || requests.len() <= SMALL_BATCH_SIZE,
    ensures
        ({
            let session = new_session(enable_req_batch, request_ids, requests);
            let commands = paired(request_ids, requests);
            let run = session_run(session, accept);
            &&& run.len() == commands.len() + 1
            &&& run.last() == Step::<W>::Finished
            &&& forall|i: int|
                0 <= i < commands.len() ==> #[trigger] run[i] == (Step::<W>::Start {
                    id: commands[i].0,
                    cmd: commands[i].1,
                })
        }),
{
    lemma_plain_run(new_session(enable_req_batch, request_ids, requests), accept);
}

/// A reply to batches of commands: responses, each with the id of the command that it is for.
#[derive(Debug, PartialEq, Eq)]
pub struct BatchCommandsResponse<A> {
    pub request_ids: Vec<u64>,
    pub responses: Vec<A>,
    pub transport_layer_load: u64,
}

impl<A> BatchCommandsResponse<A> {
    /// Whether every response has its id.
    pub open spec fn wf(self) -> bool {
        self.request_ids@.len() == self.responses@.len()
    }

    /// The responses with their ids.
    pub open spec fn pairs(self) -> Seq<(u64, A)> {
        paired(self.request_ids@, self.responses@)
    }

    /// A reply without responses.
    pub fn new() -> (reply: BatchCommandsResponse<A>)
        ensures
            reply.wf(),
            reply.pairs() == Seq::<(u64, A)>::empty(),
            reply.transport_layer_load == 0,
    {
        let reply = BatchCommandsResponse {
            request_ids: Vec::new(),
            responses: Vec::new(),
            transport_layer_load: 0,
        };
        assert(reply.pairs() =~= Seq::<(u64, A)>::empty());
        reply
    }

    /// The reply as it goes out, with the load of the threads that handle connections. It is not
    /// worth while to hold it back for another one.
    pub fn into_message(self, thread_load: usize) -> (message: (
        BatchCommandsResponse<A>,
        WriteFlags,
    ))
        ensures
            is_message_of(self, thread_load, message),
    {
        let mut reply = self;
        reply.transport_layer_load = thread_load as u64;
        (reply, WriteFlags { buffer_hint: false })
    }
}

/// Whether `message` is what goes out for `reply` under the given load: the reply with that load,
/// and not to be held back.
pub open spec fn is_message_of<A>(
    reply: BatchCommandsResponse<A>,
    thread_load: usize,
    message: (BatchCommandsResponse<A>, WriteFlags),
) -> bool {
    &&& message.0 == (BatchCommandsResponse { transport_layer_load: thread_load as u64, ..reply })
    &&& !message.1.buffer_hint
}

/// Whether `after` is what becomes of the reply `before` when the response `e` is put into it.
pub open spec fn is_collected<A>(
    before: BatchCommandsResponse<A>,
    e: (u64, A),
    after: BatchCommandsResponse<A>,
) -> bool {
    &&& after.request_ids@ == before.request_ids@.push(e.0)
    &&& after.responses@ == before.responses@.push(e.1)
    &&& after.transport_layer_load == before.transport_layer_load
}

/// Puts responses into a reply.
pub struct BatchRespCollector;

impl BatchRespCollector {
    /// Puts a response into a reply, behind those that are there. The reply always has room for it,
    /// so that nothing is handed back.
    pub fn collect<A>(&mut self, v: &mut BatchCommandsResponse<A>, e: (u64, A)) -> (rest: Option<
        (u64, A),
    >)
        ensures
            is_collected(*old(v), e, *final(v)),
            old(v).wf() ==> final(v).wf() && final(v).pairs() == old(v).pairs().push(e),
            rest is None,
    {
        v.request_ids.push(e.0);
        v.responses.push(e.1);
        proof {
            if old(v).wf() {
                assert(v.pairs() =~= old(v).pairs().push(e));
            }
        }
        None
    }
}

/// Whether `replies` shows how a reply grows out of an empty one, response by response, when the
/// responses `collected` are put into it one after the other.
pub open spec fn grows_by<A>(
    replies: Seq<BatchCommandsResponse<A>>,
    collected: Seq<(u64, A)>,
) -> bool {
    &&& replies.len() == collected.len() + 1
    &&& replies[0].request_ids@.len() == 0
    &&& replies[0].responses@.len() == 0
    &&& forall|i: int|
        #![trigger collected[i]]
        0 <= i < collected.len() ==> is_collected(replies[i], collected[i], replies[i + 1])
}

/// A reply into which responses were put one after the other has exactly these responses, each
/// under its own id and in the order in which they were put in.
pub proof fn law_reply_keeps_responses<A>(
    replies: Seq<BatchCommandsResponse<A>>,
    collected: Seq<(u64, A)>,
)
    requires
        grows_by(replies, collected),
    ensures
        replies.last().wf(),
        replies.last().pairs() == collected,
    decreases collected.len(),
{
    if collected.len() == 0 {
        assert(replies.last().pairs() =~= collected);
    } else {
        let before = replies.drop_last();
        let sofar = collected.drop_last();
        assert forall|i: int| #![trigger sofar[i]] 0 <= i < sofar.len() implies is_collected(
            before[i],
            sofar[i],
            before[i + 1],
        ) by {
            assert(collected[i] == sofar[i]);
        }
        law_reply_keeps_responses(before, sofar);
        let n = collected.len() - 1;
        assert(is_collected(replies[n], collected[n], replies[n + 1]));
        assert(before.last() == replies[n]);
        assert(replies.last().pairs() =~= sofar.push(collected.last()));
        assert(sofar.push(collected.last()) =~= collected);
    }
}

} // verus!
