//! What a service is made of, and what two services share.
use crate::service::locked_pool;
use crate::service::pool_name_prefix;
use crate::service::pool_workers;
use crate::service::Service;
use std::sync::Arc;
use vstd::prelude::*;

verus! {

/// A service works on just what it was given, and gathers reads as it was told to. Its timers run
/// on a single thread of its own.
pub proof fn law_service_works_on_what_it_was_given<T, S, G, C, N, L, M>(
    storage: S,
    gc_worker: G,
    cop: C,
    ch: T,
    snap_scheduler: N,
    grpc_thread_load: Arc<L>,
    readpool_normal_thread_load: Arc<L>,
    enable_req_batch: bool,
    security_mgr: Arc<M>,
    service: Service<T, S, G, C, N, L, M>,
)
    requires
        call_ensures(
            Service::<T, S, G, C, N, L, M>::new,
            (
                storage,
                gc_worker,
                cop,
                ch,
                snap_scheduler,
                grpc_thread_load,
                readpool_normal_thread_load,
                enable_req_batch,
                security_mgr,
            ),
            service,
        ),
    ensures
        service.storage == storage,
        service.gc_worker == gc_worker,
        service.cop == cop,
        service.ch == ch,
        service.snap_scheduler == snap_scheduler,
        service.grpc_thread_load == grpc_thread_load,
        service.readpool_normal_thread_load == readpool_normal_thread_load,
        service.enable_req_batch == enable_req_batch,
        service.security_mgr == security_mgr,
        pool_workers(locked_pool(*service.timer_pool)) == 1,
        pool_name_prefix(locked_pool(*service.timer_pool)) == "req_batch_timer_guard"@,
{
}

/// A clone of a service works on clones of what the service works on, each in its place, and shares
/// the timers, the loads and the knowledge of whom to trust.
pub proof fn law_clones_share_timers_and_loads<
    T: Clone,
    S: Clone,
    G: Clone,
    C: Clone,
    N: Clone,
    L,
    M,
>(
    service: Service<T, S, G, C, N, L, M>,
    clone: Service<T, S, G, C, N, L, M>,
)
    requires
        call_ensures(Service::<T, S, G, C, N, L, M>::clone, (&service,), clone),
    ensures
        cloned(service.storage, clone.storage),
        cloned(service.gc_worker, clone.gc_worker),
        cloned(service.cop, clone.cop),
        cloned(service.ch, clone.ch),
        cloned(service.snap_scheduler, clone.snap_scheduler),
        clone.enable_req_batch == service.enable_req_batch,
        clone.timer_pool == service.timer_pool,
        clone.grpc_thread_load == service.grpc_thread_load,
        clone.readpool_normal_thread_load == service.readpool_normal_thread_load,
        clone.security_mgr == service.security_mgr,
{
}

} // verus!
