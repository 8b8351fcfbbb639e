//! What the client is told about transactions, answer by answer.
use crate::key::TimeStamp;
use crate::response::Reply;
use crate::txn::Action;
use crate::txn::BatchRollbackResponse;
use crate::txn::CheckSecondaryLocksResponse;
use crate::txn::CheckTxnStatusResponse;
use crate::txn::CleanupFailure;
use crate::txn::CleanupResponse;
use crate::txn::CommitResponse;
use crate::txn::KeyErrorsReply;
use crate::txn::Lock;
use crate::txn::MvccGetByKeyResponse;
use crate::txn::MvccGetByStartTsResponse;
use crate::txn::MvccInfo;
use crate::txn::PessimisticLockResponse;
use crate::txn::PessimisticRollbackResponse;
use crate::txn::PrewriteReply;
use crate::txn::PrewriteResponse;
use crate::txn::ResolveLockResponse;
use crate::txn::ScanLockResponse;
use crate::txn::SecondaryLocksStatus;
use crate::txn::TxnHeartBeatResponse;
use crate::txn::TxnStatus;
use vstd::prelude::*;

verus! {

/// The response to a prewrite has as many errors as the storage gave, the same one at each place,
/// and the least timestamp to commit at where there is one. It has neither beside a region error.
pub proof fn law_prewrite_response_has_every_error<R, K>(
    reply: PrewriteReply<K, R>,
    resp: PrewriteResponse<R, K>,
)
    requires
        call_ensures(PrewriteResponse::<R, K>::from_reply, (reply,), resp) || resp.answers(reply),
    ensures
        resp.region_error == reply.region_error,
        reply.region_error is Some ==> resp.errors@.len() == 0 && resp.min_commit_ts == 0,
        reply.region_error is None ==> resp.errors@.len() == reply.errors@.len(),
        forall|i: int| 0 <= i < resp.errors@.len()
            ==> #[trigger] resp.errors@[i] == reply.errors@[i],
        reply.region_error is None ==> (reply.min_commit_ts matches Some(ts) ==> resp.min_commit_ts
            == ts.inner),
        reply.min_commit_ts is None ==> resp.min_commit_ts == 0,
{
}

/// The response to a pessimistic lock has as many values as the storage gave, the same one at each
/// place, or exactly the one error, wherever it arose. It has neither beside a region error.
pub proof fn law_pessimistic_lock_response_has_values_or_the_error<R, K>(
    reply: Reply<Result<Vec<Vec<u8>>, K>, K, R>,
    resp: PessimisticLockResponse<R, K>,
)
    requires
        call_ensures(PessimisticLockResponse::<R, K>::from_reply, (reply,), resp)
            || resp.answers(reply),
    ensures
        resp.region_error == reply.region_error,
        reply.region_error is Some ==> resp.errors@.len() == 0 && resp.values@.len() == 0,
        reply.region_error is None ==> (reply.result matches Ok(Ok(values)) ==> {
            &&& resp.errors@.len() == 0
            &&& resp.values@.len() == values@.len()
            &&& forall|i: int| 0 <= i < values@.len() ==> #[trigger] resp.values@[i] == values@[i]
        }),
        reply.region_error is None ==> (reply.result matches Ok(Err(e)) ==> resp.values@.len() == 0
            && resp.errors@.len() == 1 && resp.errors@[0] == e),
        reply.region_error is None ==> (reply.result matches Err(e) ==> resp.values@.len() == 0
            && resp.errors@.len() == 1 && resp.errors@[0] == e),
{
}

/// The response to a pessimistic rollback has as many errors as the storage gave, the same one at
/// each place, and none beside a region error.
pub proof fn law_pessimistic_rollback_response_has_every_error<R, K>(
    reply: KeyErrorsReply<K, R>,
    resp: PessimisticRollbackResponse<R, K>,
)
    requires
        call_ensures(PessimisticRollbackResponse::<R, K>::from_reply, (reply,), resp)
            || resp.answers(reply),
    ensures
        resp.region_error == reply.region_error,
        reply.region_error is Some ==> resp.errors@.len() == 0,
        reply.region_error is None ==> resp.errors@.len() == reply.errors@.len(),
        forall|i: int| 0 <= i < resp.errors@.len()
            ==> #[trigger] resp.errors@[i] == reply.errors@[i],
{
}

/// The response to a rollback has the error if there was one, and none on success or beside a
/// region error.
pub proof fn law_batch_rollback_response_tells_the_failure<R, K>(
    reply: Reply<(), K, R>,
    resp: BatchRollbackResponse<R, K>,
)
    requires
        call_ensures(BatchRollbackResponse::<R, K>::from_reply, (reply,), resp)
            || resp.answers(reply),
    ensures
        resp.region_error == reply.region_error,
        reply.region_error is Some || reply.result is Ok ==> resp.error is None,
        reply.region_error is None ==> (reply.result matches Err(e) ==> resp.error == Some(e)),
{
}

/// The response to the resolution of locks has the error if there was one, and none on success or
/// beside a region error.
pub proof fn law_resolve_lock_response_tells_the_failure<R, K>(
    reply: Reply<(), K, R>,
    resp: ResolveLockResponse<R, K>,
)
    requires
        call_ensures(ResolveLockResponse::<R, K>::from_reply, (reply,), resp)
            || resp.answers(reply),
    ensures
        resp.region_error == reply.region_error,
        reply.region_error is Some || reply.result is Ok ==> resp.error is None,
        reply.region_error is None ==> (reply.result matches Err(e) ==> resp.error == Some(e)),
{
}

/// The response to a commit tells when the transaction was committed, or has the error.
pub proof fn law_commit_response_tells_when<R, K, L>(
    reply: Reply<TxnStatus<L>, K, R>,
    resp: CommitResponse<R, K>,
)
    requires
        call_ensures(CommitResponse::<R, K>::from_reply::<L>, (reply,), resp)
            || resp.answers(reply),
    ensures
        resp.region_error == reply.region_error,
        reply.region_error is Some || reply.result is Ok ==> resp.error is None,
        reply.region_error is None ==> (reply.result matches Err(e) ==> resp.error == Some(e)),
        reply.region_error is Some || reply.result is Err ==> resp.commit_version == 0,
        reply.region_error is None
            ==> (reply.result matches Ok(TxnStatus::Committed { commit_ts }) ==> resp.commit_version
            == commit_ts.inner),
{
}

/// The response to a heartbeat tells how long the lock will live, or has the error.
pub proof fn law_heart_beat_response_tells_the_ttl<R, K, L>(
    reply: Reply<TxnStatus<L>, K, R>,
    resp: TxnHeartBeatResponse<R, K>,
)
    requires
        call_ensures(TxnHeartBeatResponse::<R, K>::from_reply::<L>, (reply,), resp)
            || resp.answers(reply),
    ensures
        resp.region_error == reply.region_error,
        reply.region_error is Some || reply.result is Ok ==> resp.error is None,
        reply.region_error is None ==> (reply.result matches Err(e) ==> resp.error == Some(e)),
        reply.region_error is Some || reply.result is Err ==> resp.lock_ttl == 0,
        reply.region_error is None
            ==> (reply.result matches Ok(TxnStatus::Uncommitted { lock }) ==> resp.lock_ttl
            == lock.ttl),
{
}

/// An answer to a commit is expected unless it says, without a region error, that the transaction
/// is in any state but committed, and one to a heartbeat unless it says that it is in any but
/// alive.
pub proof fn law_only_impossible_states_are_unexpected<R, K, L>(reply: Reply<TxnStatus<L>, K, R>)
    ensures
        !CommitResponse::<R, K>::expects(reply) <==> reply.region_error is None && (reply.result
            matches Ok(status) && !(status is Committed)),
        !TxnHeartBeatResponse::<R, K>::expects(reply) <==> reply.region_error is None && (
        reply.result matches Ok(status) && !(status is Uncommitted)),
        CommitResponse::<R, K>::expects(reply) ==> call_requires(
            CommitResponse::<R, K>::from_reply::<L>,
            (reply,),
        ),
        TxnHeartBeatResponse::<R, K>::expects(reply) ==> call_requires(
            TxnHeartBeatResponse::<R, K>::from_reply::<L>,
            (reply,),
        ),
{
}

/// The response to a cleanup tells when the transaction was committed if that is why it failed, and
/// has the error if it failed otherwise. On success and beside a region error it has neither.
pub proof fn law_cleanup_response_tells_commit_or_failure<R, K>(
    reply: Reply<(), CleanupFailure<K>, R>,
    resp: CleanupResponse<R, K>,
)
    requires
        call_ensures(CleanupResponse::<R, K>::from_reply, (reply,), resp) || resp.answers(reply),
    ensures
        resp.region_error == reply.region_error,
        reply.region_error is Some || reply.result is Ok ==> resp.error is None
            && resp.commit_version == 0,
        reply.region_error is None ==> (reply.result matches Err(failure) ==> {
            &&& failure.committed matches Some(ts) ==> resp.commit_version == ts.inner
                && resp.error is None
            &&& failure.committed is None ==> resp.commit_version == 0 && resp.error == Some(
                failure.key_error,
            )
        }),
{
}

/// A reader that finds a live transaction is told that it need not wait for it exactly if that
/// transaction can only commit after the reader reads, or the reader reads at the end of the
/// timeline. It is told how long the lock will live, and all about the lock, either way.
pub proof fn law_reader_passes_later_commits<R, K, L>(
    caller_start_ts: TimeStamp,
    lock: Lock<L>,
    reply: Reply<TxnStatus<L>, K, R>,
    resp: CheckTxnStatusResponse<R, K, L>,
)
    requires
        reply.region_error is None,
        reply.result == Ok::<TxnStatus<L>, K>(TxnStatus::Uncommitted { lock }),
        call_ensures(
            CheckTxnStatusResponse::<R, K, L>::from_reply,
            (caller_start_ts, reply),
            resp,
        ) || resp.answers(caller_start_ts, reply),
    ensures
        resp.action == Action::MinCommitTsPushed <==> {
            ||| caller_start_ts.inner < lock.min_commit_ts.inner
            ||| caller_start_ts.inner == u64::MAX
        },
        resp.action == Action::MinCommitTsPushed || resp.action == Action::NoAction,
        resp.lock_ttl == lock.ttl,
        resp.lock_info == Some(lock.info),
        resp.commit_version == 0,
        resp.error is None,
        resp.region_error is None,
{
}

/// The later a live transaction can commit at the earliest, the less a reader has to wait for it:
/// one that need not wait for a transaction need not wait for one that commits no earlier.
pub proof fn law_pushing_further_keeps_pushed<R, K, L>(
    caller_start_ts: TimeStamp,
    lock: Lock<L>,
    later: Lock<L>,
    reply: Reply<TxnStatus<L>, K, R>,
    later_reply: Reply<TxnStatus<L>, K, R>,
    resp: CheckTxnStatusResponse<R, K, L>,
    later_resp: CheckTxnStatusResponse<R, K, L>,
)
    requires
        lock.min_commit_ts.inner <= later.min_commit_ts.inner,
        reply.region_error is None,
        later_reply.region_error is None,
        reply.result == Ok::<TxnStatus<L>, K>(TxnStatus::Uncommitted { lock }),
        later_reply.result == Ok::<TxnStatus<L>, K>(TxnStatus::Uncommitted { lock: later }),
        call_ensures(
            CheckTxnStatusResponse::<R, K, L>::from_reply,
            (caller_start_ts, reply),
            resp,
        ),
        call_ensures(
            CheckTxnStatusResponse::<R, K, L>::from_reply,
            (caller_start_ts, later_reply),
            later_resp,
        ),
        resp.action == Action::MinCommitTsPushed,
    ensures
        later_resp.action == Action::MinCommitTsPushed,
{
}

/// A reader that finds a transaction finished is told how: rolled back before, rolled back now for
/// one of two reasons, or committed and when. When the check failed it gets the error, and none of
/// all this beside a region error.
pub proof fn law_reader_learns_how_it_ended<R, K, L>(
    caller_start_ts: TimeStamp,
    reply: Reply<TxnStatus<L>, K, R>,
    resp: CheckTxnStatusResponse<R, K, L>,
)
    requires
        call_ensures(
            CheckTxnStatusResponse::<R, K, L>::from_reply,
            (caller_start_ts, reply),
            resp,
        ) || resp.answers(caller_start_ts, reply),
    ensures
        resp.region_error == reply.region_error,
        reply.region_error is Some || reply.result is Ok ==> resp.error is None,
        reply.region_error is None ==> (reply.result matches Err(e) ==> resp.error == Some(e)),
        reply.region_error is Some || reply.result is Err ==> resp.action == Action::NoAction
            && resp.commit_version == 0 && resp.lock_ttl == 0 && resp.lock_info is None,
        resp.action == Action::TtlExpireRollback <==> reply.region_error is None && (reply.result
            matches Ok(TxnStatus::TtlExpire)),
        resp.action == Action::LockNotExistRollback <==> reply.region_error is None && (reply.result
            matches Ok(TxnStatus::LockNotExist)),
        resp.action == Action::MinCommitTsPushed ==> (reply.result matches Ok(
            TxnStatus::Uncommitted { .. },
        )),
        reply.region_error is None ==> (reply.result matches Ok(TxnStatus::Committed { commit_ts })
            ==> resp.commit_version == commit_ts.inner),
        !(reply.result matches Ok(TxnStatus::Committed { .. })) ==> resp.commit_version == 0,
        !(reply.result matches Ok(TxnStatus::Uncommitted { .. })) ==> resp.lock_ttl == 0
            && resp.lock_info is None,
{
}

/// The response to a check of secondary locks has as many locks as the storage found, the same one
/// at each place, or tells when the transaction was committed, or neither if it was rolled back,
/// failed or came to the wrong region.
pub proof fn law_secondary_locks_response_has_every_lock<R, K, L>(
    reply: Reply<SecondaryLocksStatus<L>, K, R>,
    resp: CheckSecondaryLocksResponse<R, K, L>,
)
    requires
        call_ensures(CheckSecondaryLocksResponse::<R, K, L>::from_reply, (reply,), resp)
            || resp.answers(reply),
    ensures
        resp.region_error == reply.region_error,
        reply.region_error is Some || reply.result is Ok ==> resp.error is None,
        reply.region_error is None ==> (reply.result matches Err(e) ==> resp.error == Some(e)),
        reply.region_error is None ==> (reply.result matches Ok(SecondaryLocksStatus::Locked(locks))
            ==> {
            &&& resp.locks@.len() == locks@.len()
            &&& forall|i: int| 0 <= i < locks@.len() ==> #[trigger] resp.locks@[i] == locks@[i]
        }),
        reply.region_error is None ==> (reply.result matches Ok(SecondaryLocksStatus::Committed(ts))
            ==> resp.commit_ts == ts.inner),
        reply.region_error is Some || !(reply.result matches Ok(SecondaryLocksStatus::Locked(_)))
            ==> resp.locks@.len() == 0,
        reply.region_error is Some || !(reply.result matches Ok(SecondaryLocksStatus::Committed(_)))
            ==> resp.commit_ts == 0,
{
}

/// The response to a scan for locks has as many locks as the storage found, the same one at each
/// place. On a failure it has the error, and neither beside a region error.
pub proof fn law_scan_lock_response_has_every_lock<R, K, L>(
    reply: Reply<Vec<L>, K, R>,
    resp: ScanLockResponse<R, K, L>,
)
    requires
        call_ensures(ScanLockResponse::<R, K, L>::from_reply, (reply,), resp)
            || resp.answers(reply),
    ensures
        resp.region_error == reply.region_error,
        reply.region_error is Some || reply.result is Ok ==> resp.error is None,
        reply.region_error is None ==> (reply.result matches Err(e) ==> resp.error == Some(e)),
        reply.region_error is None ==> (reply.result matches Ok(locks) ==> {
            &&& resp.locks@.len() == locks@.len()
            &&& forall|i: int| 0 <= i < locks@.len() ==> #[trigger] resp.locks@[i] == locks@[i]
        }),
        reply.region_error is Some || reply.result is Err ==> resp.locks@.len() == 0,
{
}

/// The response about the versions of a key has these versions, or the text of the failure, and
/// neither beside a region error.
pub proof fn law_mvcc_by_key_response_has_the_versions<R, I>(
    reply: Reply<I, String, R>,
    resp: MvccGetByKeyResponse<R, I>,
)
    requires
        call_ensures(MvccGetByKeyResponse::<R, I>::from_reply, (reply,), resp)
            || resp.answers(reply),
    ensures
        resp.region_error == reply.region_error,
        reply.region_error is Some || reply.result is Ok ==> resp.error@.len() == 0,
        reply.region_error is None ==> (reply.result matches Err(e) ==> resp.error@ == e@),
        reply.region_error is None ==> (reply.result matches Ok(info) ==> resp.info == Some(info)),
        reply.region_error is Some || reply.result is Err ==> resp.info is None,
{
}

/// The response about what a transaction wrote has the key that was found and its versions, or says
/// that there are none, or has the text of the failure, and none of these beside a region error.
pub proof fn law_mvcc_by_start_ts_response_has_key_and_versions<R, I>(
    reply: Reply<Option<(Vec<u8>, I)>, String, R>,
    resp: MvccGetByStartTsResponse<R, I>,
)
    requires
        call_ensures(MvccGetByStartTsResponse::<R, I>::from_reply, (reply,), resp)
            || resp.answers(reply),
    ensures
        resp.region_error == reply.region_error,
        reply.region_error is Some || reply.result is Ok ==> resp.error@.len() == 0,
        reply.region_error is None ==> (reply.result matches Err(e) ==> resp.error@ == e@),
        reply.region_error is None
            ==> (reply.result matches Ok(Some((key, info))) ==> resp.key@ == key@
            && resp.info == Some(MvccInfo::Of(info))),
        !(reply.result matches Ok(Some(_))) ==> resp.key@.len() == 0,
        reply.region_error is None ==> (reply.result matches Ok(None) ==> resp.info == Some(
            MvccInfo::<I>::Empty,
        )),
        reply.region_error is Some ==> resp.key@.len() == 0,
        reply.region_error is Some || reply.result is Err ==> resp.info is None,
{
}

} // verus!
