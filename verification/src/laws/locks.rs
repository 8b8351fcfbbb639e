//! What the garbage collector is asked for, and what the client is told of its answer.
use crate::gc::CheckLockObserverRequest;
use crate::gc::CheckLockObserverResponse;
use crate::gc::GcCall;
use crate::gc::PhysicalScanLockRequest;
use crate::gc::PhysicalScanLockResponse;
use crate::gc::RegisterLockObserverRequest;
use crate::gc::RegisterLockObserverResponse;
use crate::gc::RemoveLockObserverRequest;
use crate::gc::RemoveLockObserverResponse;
use crate::gc::UnsafeDestroyRangeRequest;
use crate::gc::UnsafeDestroyRangeResponse;
use vstd::prelude::*;

verus! {

/// A request that registers an observer of locks starts to collect those up to the timestamp that
/// the client named.
pub proof fn law_register_starts_collecting<C>(
    request: RegisterLockObserverRequest,
    call: GcCall<C>,
)
    requires
        call_ensures(RegisterLockObserverRequest::into_call::<C>, (request,), call),
    ensures
        call matches GcCall::StartCollecting { max_ts } && max_ts.inner == request.max_ts,
{
}

/// A request that checks on an observer of locks asks for what was collected up to the timestamp
/// that the client named.
pub proof fn law_check_reads_collecting<C>(request: CheckLockObserverRequest, call: GcCall<C>)
    requires
        call_ensures(CheckLockObserverRequest::into_call::<C>, (request,), call),
    ensures
        call matches GcCall::GetCollectedLocks { max_ts } && max_ts.inner == request.max_ts,
{
}

/// A request that removes an observer of locks stops the collection of those up to the timestamp
/// that the client named.
pub proof fn law_remove_stops_collecting<C>(request: RemoveLockObserverRequest, call: GcCall<C>)
    requires
        call_ensures(RemoveLockObserverRequest::into_call::<C>, (request,), call),
    ensures
        call matches GcCall::StopCollecting { max_ts } && max_ts.inner == request.max_ts,
{
}

/// A scan for locks asks for those from the key on, up to the timestamp and in the number that the
/// client named.
pub proof fn law_physical_scan_covers_what_was_named<C>(
    request: PhysicalScanLockRequest<C>,
    call: GcCall<C>,
)
    requires
        call_ensures(PhysicalScanLockRequest::<C>::into_call, (request,), call),
    ensures
        ({
            &&& call matches GcCall::PhysicalScanLock { context, max_ts, start_key, limit }
            &&& context == request.context
            &&& max_ts.inner == request.max_ts
            &&& start_key.raw == request.start_key
            &&& limit == request.limit
        }),
{
}

/// Only a range that has both ends can be destroyed, and every one that has them can. What is
/// destroyed is the range that the client named.
pub proof fn law_only_bounded_ranges_are_destroyed<C>(
    request: UnsafeDestroyRangeRequest<C>,
    bounded: bool,
    call: GcCall<C>,
)
    requires
        call_ensures(UnsafeDestroyRangeRequest::<C>::is_bounded, (&request,), bounded),
        call_ensures(UnsafeDestroyRangeRequest::<C>::into_call, (request,), call),
    ensures
        bounded <==> request.start_key@.len() > 0 && request.end_key@.len() > 0,
        bounded ==> call_requires(UnsafeDestroyRangeRequest::<C>::into_call, (request,)),
        ({
            &&& call matches GcCall::UnsafeDestroyRange { context, start_key, end_key }
            &&& context == request.context
            &&& start_key.raw == request.start_key
            &&& end_key.raw == request.end_key
        }),
{
}

/// The response has the text of the failure if there was one, and no text on success.
pub proof fn law_register_lock_observer_response_tells_the_failure(
    result: Result<(), String>,
    resp: RegisterLockObserverResponse,
)
    requires
        call_ensures(RegisterLockObserverResponse::from_result, (result,), resp),
    ensures
        result is Ok ==> resp.error@.len() == 0,
        result matches Err(e) ==> resp.error@ == e@,
{
}

/// The response has the text of the failure if there was one, and no text on success.
pub proof fn law_remove_lock_observer_response_tells_the_failure(
    result: Result<(), String>,
    resp: RemoveLockObserverResponse,
)
    requires
        call_ensures(RemoveLockObserverResponse::from_result, (result,), resp),
    ensures
        result is Ok ==> resp.error@.len() == 0,
        result matches Err(e) ==> resp.error@ == e@,
{
}

/// The response has the text of the failure if there was one, and no text on success.
pub proof fn law_unsafe_destroy_range_response_tells_the_failure(
    result: Result<(), String>,
    resp: UnsafeDestroyRangeResponse,
)
    requires
        call_ensures(UnsafeDestroyRangeResponse::from_result, (result,), resp),
    ensures
        result is Ok ==> resp.error@.len() == 0,
        result matches Err(e) ==> resp.error@ == e@,
{
}

/// The response about an observer has as many locks as were collected, the same one at each place,
/// and says whether these are all. On a failure it has the text, no locks, and does not say that
/// they are all.
pub proof fn law_check_lock_observer_response_has_every_lock<L>(
    result: Result<(Vec<L>, bool), String>,
    resp: CheckLockObserverResponse<L>,
)
    requires
        call_ensures(CheckLockObserverResponse::<L>::from_result, (result,), resp),
    ensures
        result matches Ok((locks, is_clean)) ==> {
            &&& resp.error@.len() == 0
            &&& resp.is_clean == is_clean
            &&& resp.locks@.len() == locks@.len()
            &&& forall|i: int| 0 <= i < locks@.len() ==> #[trigger] resp.locks@[i] == locks@[i]
        },
        result matches Err(e) ==> resp.error@ == e@ && resp.locks@.len() == 0 && !resp.is_clean,
{
}

/// The response to a scan for locks has as many locks as were found, the same one at each place. On
/// a failure it has the text, and no locks.
pub proof fn law_physical_scan_lock_response_has_every_lock<L>(
    result: Result<Vec<L>, String>,
    resp: PhysicalScanLockResponse<L>,
)
    requires
        call_ensures(PhysicalScanLockResponse::<L>::from_result, (result,), resp),
    ensures
        result matches Ok(locks) ==> {
            &&& resp.error@.len() == 0
            &&& resp.locks@.len() == locks@.len()
            &&& forall|i: int| 0 <= i < locks@.len() ==> #[trigger] resp.locks@[i] == locks@[i]
        },
        result matches Err(e) ==> resp.error@ == e@ && resp.locks@.len() == 0,
{
}

} // verus!
