//! The service itself: what it holds, and how batches of commands enter it.
use crate::batch::grows_by;
use crate::batch::is_message_of;
use crate::batch::law_reply_keeps_responses;
use crate::batch::new_session;
use crate::batch::BatchCommandsResponse;
use crate::batch::BatchSession;
use crate::batch::GRPC_MSG_MAX_BATCH_SIZE;
use crate::batch::GRPC_MSG_NOTIFY_SIZE;
use crate::command::RequestCmd;
use crate::command::Wire;
use crate::stream::WriteFlags;
use std::sync::Arc;
use std::sync::Mutex;
use tokio_threadpool::ThreadPool;
use vstd::prelude::*;

verus! {

/// `tokio_threadpool::ThreadPool`, which is only carried along.
#[verifier::external_type_specification]
#[verifier::external_body]
pub struct ExThreadPool(ThreadPool);

/// `std::sync::Mutex`, which is only carried along.
#[verifier::external_type_specification]
#[verifier::external_body]
#[verifier::reject_recursive_types(T)]
pub struct ExMutex<T: ?Sized>(Mutex<T>);

/// How many workers a thread pool has.
pub uninterp spec fn pool_workers(pool: ThreadPool) -> nat;

/// What the names of the threads of a thread pool start with.
pub uninterp spec fn pool_name_prefix(pool: ThreadPool) -> Seq<char>;

/// The thread pool that a lock was put around.
pub uninterp spec fn locked_pool(lock: Mutex<ThreadPool>) -> ThreadPool;

/// Builds a thread pool by `tokio_threadpool::Builder`.
///
/// `Builder::pool_size` sets how many workers the pool has, `Builder::name_prefix` what the names
/// of its threads start with, and `Builder::build` makes a pool that keeps both for good.
///
/// `Builder::pool_size` panics on no workers at all, and on more than 2^15 of them.
/// `Builder::build` numbers them together with the 100 threads that a pool keeps for blocking work,
/// and relies on these numbers to stay below 2^15 as well.
#[verifier::external_body]
fn build_thread_pool(pool_size: usize, name_prefix: &str) -> (pool: ThreadPool)
    requires
        1 <= pool_size,
        pool_size + 100 <= 0x8000,
    ensures
        pool_workers(pool) == pool_size,
        pool_name_prefix(pool) == name_prefix@,
{
    tokio_threadpool::Builder::new().pool_size(pool_size).name_prefix(name_prefix).build()
}

/// Puts a thread pool behind a lock by `std::sync::Mutex::new`, which keeps the pool that it is
/// given.
#[verifier::external_body]
fn lock_thread_pool(pool: ThreadPool) -> (lock: Mutex<ThreadPool>)
    ensures
        locked_pool(lock) == pool,
{
    Mutex::new(pool)
}

/// The service that handles the calls of clients and of other replicas.
///
/// It hands on what they ask for to `G`, which collects garbage and observes locks, to `S`, the
/// storage, to `C`, the coprocessor, to `T`, the way to the replicas, and to `N`, which takes
/// snapshots. `L` measures the load of threads, and `M` knows whom to trust.
pub struct Service<T, S, G, C, N, L, M> {
    /// For requests related to garbage collection.
    pub gc_worker: G,
    /// For requests on data.
    pub storage: S,
    /// For requests to the coprocessor.
    pub cop: C,
    /// For messages between replicas.
    pub ch: T,
    /// For snapshots.
    pub snap_scheduler: N,
    /// Whether the reads of a batch are gathered.
    pub enable_req_batch: bool,
    pub timer_pool: Arc<Mutex<ThreadPool>>,
    pub grpc_thread_load: Arc<L>,
    pub readpool_normal_thread_load: Arc<L>,
    pub security_mgr: Arc<M>,
}

impl<T, S, G, C, N, L, M> Service<T, S, G, C, N, L, M> {
    /// A service with a timer pool of its own, which has a single worker.
    pub fn new(
        storage: S,
        gc_worker: G,
        cop: C,
        ch: T,
        snap_scheduler: N,
        grpc_thread_load: Arc<L>,
        readpool_normal_thread_load: Arc<L>,
        enable_req_batch: bool,
        security_mgr: Arc<M>,
    ) -> (service: Self)
        ensures
            service.gc_worker == gc_worker,
            service.storage == storage,
            service.cop == cop,
            service.ch == ch,
            service.snap_scheduler == snap_scheduler,
            service.enable_req_batch == enable_req_batch,
            pool_workers(locked_pool(*service.timer_pool)) == 1,
            pool_name_prefix(locked_pool(*service.timer_pool)) == "req_batch_timer_guard"@,
            service.grpc_thread_load == grpc_thread_load,
            service.readpool_normal_thread_load == readpool_normal_thread_load,
            service.security_mgr == security_mgr,
    {
        let pool = build_thread_pool(1, "req_batch_timer_guard");
        let timer_pool = Arc::new(lock_thread_pool(pool));
        Service {
            gc_worker,
            storage,
            cop,
            ch,
            snap_scheduler,
            enable_req_batch,
            timer_pool,
            grpc_thread_load,
            readpool_normal_thread_load,
            security_mgr,
        }
    }

    /// A stream of batches of commands, as this service sets it up.
    pub open spec fn batch_stream(self) -> BatchStream<L> {
        BatchStream {
            enable_req_batch: self.enable_req_batch,
            notify_size: GRPC_MSG_NOTIFY_SIZE,
            max_batch_size: GRPC_MSG_MAX_BATCH_SIZE,
            thread_load: self.grpc_thread_load,
        }
    }

    /// Opens a stream of batches of commands, unless the one who asks for it is not allowed to.
    pub fn open_batch_stream(&self, allowed: bool) -> (stream: Option<BatchStream<L>>)
        ensures
            stream == if allowed {
                Some(self.batch_stream())
            } else {
                None
            },
    {
        if !allowed {
            return None;
        }
        Some(
            BatchStream {
                enable_req_batch: self.enable_req_batch,
                notify_size: GRPC_MSG_NOTIFY_SIZE,
                max_batch_size: GRPC_MSG_MAX_BATCH_SIZE,
                thread_load: Arc::clone(&self.grpc_thread_load),
            },
        )
    }
}

impl<T: Clone, S: Clone, G: Clone, C: Clone, N: Clone, L, M> Clone for Service<
    T,
    S,
    G,
    C,
    N,
    L,
    M,
> {
    /// A service that works on clones of what this one works on, and shares the rest with it.
    fn clone(&self) -> (service: Self)
        ensures
            cloned(self.gc_worker, service.gc_worker),
            cloned(self.storage, service.storage),
            cloned(self.cop, service.cop),
            cloned(self.ch, service.ch),
            cloned(self.snap_scheduler, service.snap_scheduler),
            service.enable_req_batch == self.enable_req_batch,
            service.timer_pool == self.timer_pool,
            service.grpc_thread_load == self.grpc_thread_load,
            service.readpool_normal_thread_load == self.readpool_normal_thread_load,
            service.security_mgr == self.security_mgr,
    {
        Service {
            gc_worker: self.gc_worker.clone(),
            storage: self.storage.clone(),
            cop: self.cop.clone(),
            ch: self.ch.clone(),
            snap_scheduler: self.snap_scheduler.clone(),
            enable_req_batch: self.enable_req_batch,
            timer_pool: Arc::clone(&self.timer_pool),
            grpc_thread_load: Arc::clone(&self.grpc_thread_load),
            readpool_normal_thread_load: Arc::clone(&self.readpool_normal_thread_load),
            security_mgr: Arc::clone(&self.security_mgr),
        }
    }
}

/// A stream of batches of commands.
pub struct BatchStream<L> {
    /// Whether the reads of a batch are gathered.
    pub enable_req_batch: bool,
    /// How many responses are queued before whoever sends replies is woken up.
    pub notify_size: usize,
    /// The most responses that go into one reply.
    pub max_batch_size: usize,
    /// Measures the load that every reply tells.
    pub thread_load: Arc<L>,
}

impl<L> BatchStream<L> {
    /// The session of a batch that has come in.
    pub fn receive<W: Wire>(
        &self,
        request_ids: Vec<u64>,
        requests: Vec<Option<RequestCmd<W>>>,
    ) -> (session: BatchSession<W>)
        ensures
            session@ == new_session(self.enable_req_batch, request_ids@, requests@),
            session@.wf(),
    {
        BatchSession::new(self.enable_req_batch, request_ids, requests)
    }

    /// Whether `message` is what goes out for `reply`, where `read` reads the load off what this
    /// stream measures it with.
    pub open spec fn sends<A, F: FnOnce(&L) -> usize>(
        self,
        reply: BatchCommandsResponse<A>,
        read: F,
        message: (BatchCommandsResponse<A>, WriteFlags),
    ) -> bool {
        exists|load: usize|
            #[trigger] call_ensures(read, (&*self.thread_load,), load) && is_message_of(
                reply,
                load,
                message,
            )
    }

    /// What goes out for a reply. The load is read once, by `read`, when the reply is about to go
    /// out.
    pub fn message<A, F: FnOnce(&L) -> usize>(
        &self,
        reply: BatchCommandsResponse<A>,
        read: F,
    ) -> (message: (BatchCommandsResponse<A>, WriteFlags))
        requires
            call_requires(read, (&*self.thread_load,)),
        ensures
            self.sends(reply, read, message),
    {
        let load: usize = read(&*self.thread_load);
        reply.into_message(load)
    }
}

/// What goes out on a stream of batches for the responses `collected`, of which there are at least
/// one and no more than the stream lets into one reply: as many ids as responses, and at most as
/// many as the service lets into one reply; exactly these responses, each under its own id and in
/// the order in which they were put in; the load of the threads that handle connections, as it was
/// read when the reply was about to go out; and not to be held back.
pub proof fn law_replies_go_out_whole<T, S, G, C, N, L, M, A, F: FnOnce(&L) -> usize>(
    service: Service<T, S, G, C, N, L, M>,
    stream: BatchStream<L>,
    replies: Seq<BatchCommandsResponse<A>>,
    collected: Seq<(u64, A)>,
    read: F,
    message: (BatchCommandsResponse<A>, WriteFlags),
)
    requires
        stream == service.batch_stream(),
        grows_by(replies, collected),
        1 <= collected.len() <= stream.max_batch_size,
        stream.sends(replies.last(), read, message),
    ensures
        message.0.request_ids@.len() == message.0.responses@.len(),
        1 <= message.0.responses@.len() <= GRPC_MSG_MAX_BATCH_SIZE,
        message.0.pairs() == collected,
        exists|load: usize|
            #[trigger] call_ensures(read, (&*service.grpc_thread_load,), load)
                && message.0.transport_layer_load == load as u64,
        !message.1.buffer_hint,
{
    law_reply_keeps_responses(replies, collected);
    assert(message.0.pairs() =~= replies.last().pairs());
}

} // verus!
