//! Responses to transactional commands, and how each of them follows from what the storage
//! answered.
//!
//! `R` is a region error, `K` a key error, `L` a description of a lock and `I` the versions of a
//! key, as they go to the client.
use crate::key::TimeStamp;
use crate::response::Reply;
use vstd::prelude::*;

verus! {

/// A lock that a transaction holds on its primary key.
#[derive(Debug, PartialEq, Eq)]
pub struct Lock<L> {
    pub ttl: u64,
    pub min_commit_ts: TimeStamp,
    pub info: L,
}

/// The state that a command found a transaction in, or left it in.
#[derive(Debug, PartialEq, Eq)]
pub enum TxnStatus<L> {
    /// It was rolled back before.
    RolledBack,
    /// Its lock had outlived its time and was rolled back.
    TtlExpire,
    /// It had left no lock and was rolled back.
    LockNotExist,
    Committed { commit_ts: TimeStamp },
    Uncommitted { lock: Lock<L> },
}

/// The state of the secondary locks of a transaction.
#[derive(Debug, PartialEq, Eq)]
pub enum SecondaryLocksStatus<L> {
    Locked(Vec<L>),
    Committed(TimeStamp),
    RolledBack,
}

/// What a check of a transaction did to it.
#[derive(Clone, Copy, PartialEq, Eq, Structural, Debug)]
pub enum Action {
    NoAction,
    TtlExpireRollback,
    LockNotExistRollback,
    MinCommitTsPushed,
}

/// What the storage answered to a prewrite: the least timestamp to commit at, where the prewrite
/// went through, and the errors of the keys that could not be locked.
#[derive(Debug, PartialEq, Eq)]
pub struct PrewriteReply<K, R> {
    pub region_error: Option<R>,
    pub min_commit_ts: Option<TimeStamp>,
    pub errors: Vec<K>,
}

#[derive(Debug, PartialEq, Eq)]
pub struct PrewriteResponse<R, K> {
    pub region_error: Option<R>,
    pub errors: Vec<K>,
    pub min_commit_ts: u64,
}

impl<R, K> PrewriteResponse<R, K> {
    /// Whether this is the response that follows from `reply`.
    pub open spec fn answers(self, reply: PrewriteReply<K, R>) -> bool {
        &&& self.region_error == reply.region_error
        &&& self.errors@ == if reply.region_error is None {
            reply.errors@
        } else {
            Seq::empty()
        }
        &&& self.min_commit_ts == match (reply.region_error, reply.min_commit_ts) {
            (None, Some(ts)) => ts.inner,
            _ => 0,
        }
    }

    pub fn from_reply(reply: PrewriteReply<K, R>) -> (resp: Self)
        ensures
            resp.answers(reply),
    {
        let mut resp = PrewriteResponse {
            region_error: None,
            errors: Vec::new(),
            min_commit_ts: 0,
        };
        if let Some(err) = reply.region_error {
            resp.region_error = Some(err);
        } else {
            if let Some(ts) = reply.min_commit_ts {
                resp.min_commit_ts = ts.into_inner();
            }
            resp.errors = reply.errors;
        }
        resp
    }
}

#[derive(Debug, PartialEq, Eq)]
pub struct PessimisticLockResponse<R, K> {
    pub region_error: Option<R>,
    pub errors: Vec<K>,
    pub values: Vec<Vec<u8>>,
}

impl<R, K> PessimisticLockResponse<R, K> {
    /// Whether this is the response that follows from `reply`.
    pub open spec fn answers(self, reply: Reply<Result<Vec<Vec<u8>>, K>, K, R>) -> bool {
        &&& self.region_error == reply.region_error
        &&& match (reply.region_error, reply.result) {
            (None, Ok(Ok(values))) => self.values@ == values@ && self.errors@.len() == 0,
            (None, Ok(Err(e))) => self.values@.len() == 0 && self.errors@ == seq![e],
            (None, Err(e)) => self.values@.len() == 0 && self.errors@ == seq![e],
            _ => self.values@.len() == 0 && self.errors@.len() == 0,
        }
    }

    pub fn from_reply(reply: Reply<Result<Vec<Vec<u8>>, K>, K, R>) -> (resp: Self)
        ensures
            resp.answers(reply),
    {
        let mut resp = PessimisticLockResponse {
            region_error: None,
            errors: Vec::new(),
            values: Vec::new(),
        };
        if let Some(err) = reply.region_error {
            resp.region_error = Some(err);
        } else {
            match reply.result {
                Ok(Ok(values)) => {
                    resp.values = values;
                },
                Err(e) | Ok(Err(e)) => {
                    resp.errors.push(e);
                },
            }
        }
        resp
    }
}

/// What the storage answered to a command that fails key by key.
#[derive(Debug, PartialEq, Eq)]
pub struct KeyErrorsReply<K, R> {
    pub region_error: Option<R>,
    pub errors: Vec<K>,
}

#[derive(Debug, PartialEq, Eq)]
pub struct PessimisticRollbackResponse<R, K> {
    pub region_error: Option<R>,
    pub errors: Vec<K>,
}

impl<R, K> PessimisticRollbackResponse<R, K> {
    /// Whether this is the response that follows from `reply`.
    pub open spec fn answers(self, reply: KeyErrorsReply<K, R>) -> bool {
        &&& self.region_error == reply.region_error
        &&& self.errors@ == if reply.region_error is None {
            reply.errors@
        } else {
            Seq::empty()
        }
    }

    pub fn from_reply(reply: KeyErrorsReply<K, R>) -> (resp: Self)
        ensures
            resp.answers(reply),
    {
        let errors: Vec<K> = if reply.region_error.is_none() {
            reply.errors
        } else {
            Vec::new()
        };
        PessimisticRollbackResponse { region_error: reply.region_error, errors }
    }
}

impl<T, K, R> Reply<T, K, R> {
    fn into_failure(self) -> (parts: (Option<R>, Option<K>))
        ensures
            parts.0 == self.region_error,
            parts.1 == self.failure(),
    {
        let failure: Option<K> = match self.result {
            Err(e) if self.region_error.is_none() => Some(e),
            _ => None,
        };
        (self.region_error, failure)
    }
}

#[derive(Debug, PartialEq, Eq)]
pub struct BatchRollbackResponse<R, K> {
    pub region_error: Option<R>,
    pub error: Option<K>,
}

impl<R, K> BatchRollbackResponse<R, K> {
    /// Whether this is the response that follows from `reply`.
    pub open spec fn answers(self, reply: Reply<(), K, R>) -> bool {
        &&& self.region_error == reply.region_error
        &&& self.error == reply.failure()
    }

    pub fn from_reply(reply: Reply<(), K, R>) -> (resp: Self)
        ensures
            resp.answers(reply),
    {
        let (region_error, error) = reply.into_failure();
        BatchRollbackResponse { region_error, error }
    }
}

#[derive(Debug, PartialEq, Eq)]
pub struct ResolveLockResponse<R, K> {
    pub region_error: Option<R>,
    pub error: Option<K>,
}

impl<R, K> ResolveLockResponse<R, K> {
    /// Whether this is the response that follows from `reply`.
    pub open spec fn answers(self, reply: Reply<(), K, R>) -> bool {
        &&& self.region_error == reply.region_error
        &&& self.error == reply.failure()
    }

    pub fn from_reply(reply: Reply<(), K, R>) -> (resp: Self)
        ensures
            resp.answers(reply),
    {
        let (region_error, error) = reply.into_failure();
        ResolveLockResponse { region_error, error }
    }
}

#[derive(Debug, PartialEq, Eq)]
pub struct CommitResponse<R, K> {
    pub region_error: Option<R>,
    pub error: Option<K>,
    pub commit_version: u64,
}

impl<R, K> CommitResponse<R, K> {
    /// A commit that the storage carried out leaves the transaction committed.
    pub open spec fn expects<L>(reply: Reply<TxnStatus<L>, K, R>) -> bool {
        reply.region_error is None && reply.result is Ok ==> reply.result->Ok_0 is Committed
    }

    /// Whether this is the response that follows from `reply`.
    pub open spec fn answers<L>(self, reply: Reply<TxnStatus<L>, K, R>) -> bool {
        &&& self.region_error == reply.region_error
        &&& self.error == reply.failure()
        &&& self.commit_version == match (reply.region_error, reply.result) {
            (None, Ok(TxnStatus::Committed { commit_ts })) => commit_ts.inner,
            _ => 0,
        }
    }

    pub fn from_reply<L>(reply: Reply<TxnStatus<L>, K, R>) -> (resp: Self)
        requires
            Self::expects(reply),
        ensures
            resp.answers(reply),
    {
        let mut resp = CommitResponse { region_error: None, error: None, commit_version: 0 };
        if let Some(err) = reply.region_error {
            resp.region_error = Some(err);
        } else {
            match reply.result {
                Ok(TxnStatus::Committed { commit_ts }) => {
                    resp.commit_version = commit_ts.into_inner();
                },
                Ok(_) => {
                    assert(false);
                },
                Err(e) => {
                    resp.error = Some(e);
                },
            }
        }
        resp
    }
}

/// Why a transaction could not be cleaned up. Where that is because it is committed, `committed`
/// says when.
#[derive(Debug, PartialEq, Eq)]
pub struct CleanupFailure<K> {
    pub committed: Option<TimeStamp>,
    pub key_error: K,
}

#[derive(Debug, PartialEq, Eq)]
pub struct CleanupResponse<R, K> {
    pub region_error: Option<R>,
    pub error: Option<K>,
    pub commit_version: u64,
}

impl<R, K> CleanupResponse<R, K> {
    /// Whether this is the response that follows from `reply`.
    pub open spec fn answers(self, reply: Reply<(), CleanupFailure<K>, R>) -> bool {
        &&& self.region_error == reply.region_error
        &&& match reply.failure() {
            Some(CleanupFailure { committed: Some(ts), key_error: _ }) => self.error is None
                && self.commit_version == ts.inner,
            Some(CleanupFailure { committed: None, key_error }) => self.error == Some(key_error)
                && self.commit_version == 0,
            None => self.error is None && self.commit_version == 0,
        }
    }

    pub fn from_reply(reply: Reply<(), CleanupFailure<K>, R>) -> (resp: Self)
        ensures
            resp.answers(reply),
    {
        let (region_error, failure) = reply.into_failure();
        let mut resp = CleanupResponse { region_error, error: None, commit_version: 0 };
        if let Some(e) = failure {
            if let Some(ts) = e.committed {
                resp.commit_version = ts.into_inner();
            } else {
                resp.error = Some(e.key_error);
            }
        }
        resp
    }
}

#[derive(Debug, PartialEq, Eq)]
pub struct TxnHeartBeatResponse<R, K> {
    pub region_error: Option<R>,
    pub error: Option<K>,
    pub lock_ttl: u64,
}

impl<R, K> TxnHeartBeatResponse<R, K> {
    /// A heartbeat that the storage carried out finds the transaction alive.
    pub open spec fn expects<L>(reply: Reply<TxnStatus<L>, K, R>) -> bool {
        reply.region_error is None && reply.result is Ok ==> reply.result->Ok_0 is Uncommitted
    }

    /// Whether this is the response that follows from `reply`.
    pub open spec fn answers<L>(self, reply: Reply<TxnStatus<L>, K, R>) -> bool {
        &&& self.region_error == reply.region_error
        &&& self.error == reply.failure()
        &&& self.lock_ttl == match (reply.region_error, reply.result) {
            (None, Ok(TxnStatus::Uncommitted { lock })) => lock.ttl,
            _ => 0,
        }
    }

    pub fn from_reply<L>(reply: Reply<TxnStatus<L>, K, R>) -> (resp: Self)
        requires
            Self::expects(reply),
        ensures
            resp.answers(reply),
    {
        let mut resp = TxnHeartBeatResponse { region_error: None, error: None, lock_ttl: 0 };
        if let Some(err) = reply.region_error {
            resp.region_error = Some(err);
        } else {
            match reply.result {
                Ok(txn_status) => {
                    if let TxnStatus::Uncommitted { lock } = txn_status {
                        resp.lock_ttl = lock.ttl;
                    } else {
                        assert(false);
                    }
                },
                Err(e) => {
                    resp.error = Some(e);
                },
            }
        }
        resp
    }
}

#[derive(Debug, PartialEq, Eq)]
pub struct CheckTxnStatusResponse<R, K, L> {
    pub region_error: Option<R>,
    pub error: Option<K>,
    pub lock_ttl: u64,
    pub commit_version: u64,
    pub action: Action,
    pub lock_info: Option<L>,
}

/// Whether a reader at `caller_start_ts` need not wait for the transaction that holds `lock`.
///
/// It need not when the transaction can only commit after it. A reader at the end of the timeline
/// reads a single key outside of any transaction: it may pass over the lock, since what the lock
/// protects is not committed, and so counts as if the transaction had been pushed behind it.
pub open spec fn passes_over<L>(caller_start_ts: TimeStamp, lock: Lock<L>) -> bool {
    lock.min_commit_ts.inner > caller_start_ts.inner || caller_start_ts.inner == u64::MAX
}

impl<R, K, L> CheckTxnStatusResponse<R, K, L> {
    /// What the client is told was done to a transaction that was found in the state `status`.
    pub open spec fn action_on(caller_start_ts: TimeStamp, status: TxnStatus<L>) -> Action {
        match status {
            TxnStatus::RolledBack => Action::NoAction,
            TxnStatus::TtlExpire => Action::TtlExpireRollback,
            TxnStatus::LockNotExist => Action::LockNotExistRollback,
            TxnStatus::Committed { commit_ts: _ } => Action::NoAction,
            TxnStatus::Uncommitted { lock } => if passes_over(caller_start_ts, lock) {
                Action::MinCommitTsPushed
            } else {
                Action::NoAction
            },
        }
    }

    /// Whether this is the response that follows from `reply` for a caller that reads at
    /// `caller_start_ts`.
    pub open spec fn answers(
        self,
        caller_start_ts: TimeStamp,
        reply: Reply<TxnStatus<L>, K, R>,
    ) -> bool {
        &&& self.region_error == reply.region_error
        &&& self.error == reply.failure()
        &&& match (reply.region_error, reply.result) {
            (None, Ok(status)) => {
                &&& self.action == Self::action_on(caller_start_ts, status)
                &&& self.commit_version == match status {
                    TxnStatus::Committed { commit_ts } => commit_ts.inner,
                    _ => 0,
                }
                &&& match status {
                    TxnStatus::Uncommitted { lock } => self.lock_ttl == lock.ttl && self.lock_info
                        == Some(lock.info),
                    _ => self.lock_ttl == 0 && self.lock_info is None,
                }
            },
            _ => self.action == Action::NoAction && self.commit_version == 0 && self.lock_ttl == 0
                && self.lock_info is None,
        }
    }

    pub fn from_reply(caller_start_ts: TimeStamp, reply: Reply<TxnStatus<L>, K, R>) -> (resp: Self)
        ensures
            resp.answers(caller_start_ts, reply),
    {
        let mut resp = CheckTxnStatusResponse {
            region_error: None,
            error: None,
            lock_ttl: 0,
            commit_version: 0,
            action: Action::NoAction,
            lock_info: None,
        };
        if let Some(err) = reply.region_error {
            resp.region_error = Some(err);
        } else {
            match reply.result {
                Ok(txn_status) => match txn_status {
                    TxnStatus::RolledBack => {
                        resp.action = Action::NoAction;
                    },
                    TxnStatus::TtlExpire => {
                        resp.action = Action::TtlExpireRollback;
                    },
                    TxnStatus::LockNotExist => {
                        resp.action = Action::LockNotExistRollback;
                    },
                    TxnStatus::Committed { commit_ts } => {
                        resp.commit_version = commit_ts.into_inner();
                    },
                    TxnStatus::Uncommitted { lock } => {
                        if lock.min_commit_ts.into_inner() > caller_start_ts.into_inner()
                            || caller_start_ts.is_max() {
                            resp.action = Action::MinCommitTsPushed;
                        }
                        resp.lock_ttl = lock.ttl;
                        resp.lock_info = Some(lock.info);
                    },
                },
                Err(e) => {
                    resp.error = Some(e);
                },
            }
        }
        resp
    }
}

#[derive(Debug, PartialEq, Eq)]
pub struct CheckSecondaryLocksResponse<R, K, L> {
    pub region_error: Option<R>,
    pub error: Option<K>,
    pub locks: Vec<L>,
    pub commit_ts: u64,
}

impl<R, K, L> CheckSecondaryLocksResponse<R, K, L> {
    /// Whether this is the response that follows from `reply`.
    pub open spec fn answers(self, reply: Reply<SecondaryLocksStatus<L>, K, R>) -> bool {
        &&& self.region_error == reply.region_error
        &&& self.error == reply.failure()
        &&& match (reply.region_error, reply.result) {
            (None, Ok(SecondaryLocksStatus::Locked(locks))) => self.locks@ == locks@
                && self.commit_ts == 0,
            (None, Ok(SecondaryLocksStatus::Committed(ts))) => self.locks@.len() == 0
                && self.commit_ts == ts.inner,
            _ => self.locks@.len() == 0 && self.commit_ts == 0,
        }
    }

    pub fn from_reply(reply: Reply<SecondaryLocksStatus<L>, K, R>) -> (resp: Self)
        ensures
            resp.answers(reply),
    {
        let mut resp = CheckSecondaryLocksResponse {
            region_error: None,
            error: None,
            locks: Vec::new(),
            commit_ts: 0,
        };
        if let Some(err) = reply.region_error {
            resp.region_error = Some(err);
        } else {
            match reply.result {
                Ok(SecondaryLocksStatus::Locked(locks)) => {
                    resp.locks = locks;
                },
                Ok(SecondaryLocksStatus::Committed(ts)) => {
                    resp.commit_ts = ts.into_inner();
                },
                Ok(SecondaryLocksStatus::RolledBack) => {},
                Err(e) => {
                    resp.error = Some(e);
                },
            }
        }
        resp
    }
}

#[derive(Debug, PartialEq, Eq)]
pub struct ScanLockResponse<R, K, L> {
    pub region_error: Option<R>,
    pub error: Option<K>,
    pub locks: Vec<L>,
}

impl<R, K, L> ScanLockResponse<R, K, L> {
    /// Whether this is the response that follows from `reply`.
    pub open spec fn answers(self, reply: Reply<Vec<L>, K, R>) -> bool {
        &&& self.region_error == reply.region_error
        &&& self.error == reply.failure()
        &&& self.locks@ == match (reply.region_error, reply.result) {
            (None, Ok(locks)) => locks@,
            _ => Seq::empty(),
        }
    }

    pub fn from_reply(reply: Reply<Vec<L>, K, R>) -> (resp: Self)
        ensures
            resp.answers(reply),
    {
        let mut resp = ScanLockResponse { region_error: None, error: None, locks: Vec::new() };
        if let Some(err) = reply.region_error {
            resp.region_error = Some(err);
        } else {
            match reply.result {
                Ok(locks) => {
                    resp.locks = locks;
                },
                Err(e) => {
                    resp.error = Some(e);
                },
            }
        }
        resp
    }
}

#[derive(Debug, PartialEq, Eq)]
pub struct MvccGetByKeyResponse<R, I> {
    pub region_error: Option<R>,
    pub error: String,
    pub info: Option<I>,
}

impl<R, I> MvccGetByKeyResponse<R, I> {
    /// Whether this is the response that follows from `reply`.
    pub open spec fn answers(self, reply: Reply<I, String, R>) -> bool {
        &&& self.region_error == reply.region_error
        &&& self.error@ == reply.message()
        &&& self.info == match (reply.region_error, reply.result) {
            (None, Ok(info)) => Some(info),
            _ => None,
        }
    }

    pub fn from_reply(reply: Reply<I, String, R>) -> (resp: Self)
        ensures
            resp.answers(reply),
    {
        let mut resp = MvccGetByKeyResponse {
            region_error: None,
            error: String::new(),
            info: None,
        };
        if let Some(err) = reply.region_error {
            resp.region_error = Some(err);
        } else {
            match reply.result {
                Ok(info) => {
                    resp.info = Some(info);
                },
                Err(e) => {
                    resp.error = e;
                },
            }
        }
        resp
    }
}

/// The versions of a key: none at all, or those of a key that was found.
#[derive(Debug, PartialEq, Eq)]
pub enum MvccInfo<I> {
    Empty,
    Of(I),
}

#[derive(Debug, PartialEq, Eq)]
pub struct MvccGetByStartTsResponse<R, I> {
    pub region_error: Option<R>,
    pub error: String,
    pub key: Vec<u8>,
    pub info: Option<MvccInfo<I>>,
}

impl<R, I> MvccGetByStartTsResponse<R, I> {
    /// Whether this is the response that follows from `reply`.
    pub open spec fn answers(self, reply: Reply<Option<(Vec<u8>, I)>, String, R>) -> bool {
        &&& self.region_error == reply.region_error
        &&& self.error@ == reply.message()
        &&& match (reply.region_error, reply.result) {
            (None, Ok(Some((key, info)))) => self.key@ == key@ && self.info == Some(
                MvccInfo::Of(info),
            ),
            (None, Ok(None)) => self.key@.len() == 0 && self.info == Some(MvccInfo::<I>::Empty),
            _ => self.key@.len() == 0 && self.info is None,
        }
    }

    pub fn from_reply(reply: Reply<Option<(Vec<u8>, I)>, String, R>) -> (resp: Self)
        ensures
            resp.answers(reply),
    {
        let mut resp = MvccGetByStartTsResponse {
            region_error: None,
            error: String::new(),
            key: Vec::new(),
            info: None,
        };
        if let Some(err) = reply.region_error {
            resp.region_error = Some(err);
        } else {
            match reply.result {
                Ok(Some((key, info))) => {
                    resp.key = key;
                    resp.info = Some(MvccInfo::Of(info));
                },
                Ok(None) => {
                    resp.info = Some(MvccInfo::Empty);
                },
                Err(e) => {
                    resp.error = e;
                },
            }
        }
        resp
    }
}

/// A check of a live transaction by a reader at the end of the timeline always tells the reader
/// that it need not wait.
pub proof fn law_last_reader_never_waits<R, K, L>(
    caller_start_ts: TimeStamp,
    reply: Reply<TxnStatus<L>, K, R>,
    resp: CheckTxnStatusResponse<R, K, L>,
)
    requires
        caller_start_ts.inner == u64::MAX,
        reply.region_error is None,
        reply.result is Ok,
        reply.result->Ok_0 is Uncommitted,
        resp.answers(caller_start_ts, reply),
    ensures
        resp.action == Action::MinCommitTsPushed,
{
}

/// A region error comes alone in a response about the versions of a key, too: such a response
/// carries no text, no key and no versions beside it, and carries one only if the answer was one.
pub proof fn law_region_error_comes_alone_about_versions<R, I>(
    by_key: Reply<I, String, R>,
    by_key_resp: MvccGetByKeyResponse<R, I>,
    by_start_ts: Reply<Option<(Vec<u8>, I)>, String, R>,
    by_start_ts_resp: MvccGetByStartTsResponse<R, I>,
)
    requires
        by_key_resp.answers(by_key),
        by_start_ts_resp.answers(by_start_ts),
    ensures
        by_key_resp.region_error == by_key.region_error,
        by_key.region_error is Some ==> by_key_resp.error@.len() == 0 && by_key_resp.info is None,
        by_start_ts_resp.region_error == by_start_ts.region_error,
        by_start_ts.region_error is Some ==> by_start_ts_resp.error@.len() == 0
            && by_start_ts_resp.key@.len() == 0 && by_start_ts_resp.info is None,
{
}

} // verus!
