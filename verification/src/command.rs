//! The commands that a batch is made of: what each of them asks for, and how the answer becomes the
//! response.
use crate::key::TimeStamp;
use crate::metrics::Label;
use crate::metrics::Rpc;
use crate::request::BatchGetRequest;
use crate::request::DeleteRangeRequest;
use crate::request::GetRequest;
use crate::request::RawBatchDeleteRequest;
use crate::request::RawBatchGetRequest;
use crate::request::RawBatchPutRequest;
use crate::request::RawBatchScanRequest;
use crate::request::RawDeleteRangeRequest;
use crate::request::RawDeleteRequest;
use crate::request::RawGetRequest;
use crate::request::RawPutRequest;
use crate::request::RawScanRequest;
use crate::request::ScanRequest;
use crate::request::StorageCall;
use crate::response::BatchGetResponse;
use crate::response::DeleteRangeResponse;
use crate::response::GetResponse;
use crate::response::PairsReply;
use crate::response::RawBatchDeleteResponse;
use crate::response::RawBatchGetResponse;
use crate::response::RawBatchPutResponse;
use crate::response::RawBatchScanResponse;
use crate::response::RawDeleteRangeResponse;
use crate::response::RawDeleteResponse;
use crate::response::RawGetResponse;
use crate::response::RawPutResponse;
use crate::response::RawScanResponse;
use crate::response::Reply;
use crate::response::ScanResponse;
use crate::status::RpcStatus;
use crate::status::RpcStatusCode;
use crate::txn::Action;
use crate::txn::BatchRollbackResponse;
use crate::txn::CheckSecondaryLocksResponse;
use crate::txn::CheckTxnStatusResponse;
use crate::txn::CleanupFailure;
use crate::txn::CleanupResponse;
use crate::txn::CommitResponse;
use crate::txn::KeyErrorsReply;
use crate::txn::PessimisticLockResponse;
use crate::txn::PessimisticRollbackResponse;
use crate::txn::PrewriteReply;
use crate::txn::PrewriteResponse;
use crate::txn::ResolveLockResponse;
use crate::txn::ScanLockResponse;
use crate::txn::SecondaryLocksStatus;
use crate::txn::TxnHeartBeatResponse;
use crate::txn::TxnStatus;
use vstd::prelude::*;

verus! {

/// The parts of requests and responses that go through the service unread.
pub trait Wire {
    /// Where a request is meant to go.
    type Context;

    /// Why a request cannot be served where it came to.
    type RegionError;

    /// Why a command failed on a key.
    type KeyError;

    /// A key with its value, or with the reason why that could not be read.
    type KvPair;

    /// A description of a lock.
    type LockInfo;

    /// A request for a transactional command.
    type TxnRequest;

    /// A request to the coprocessor.
    type CopRequest;

    /// A response of the coprocessor.
    type CopResponse;
}

/// A request to check that batches of commands get through, and how long they take to.
#[derive(Clone, Copy, PartialEq, Eq, Structural, Debug)]
pub struct EmptyRequest {
    pub test_id: u64,
    /// In milliseconds.
    pub delay_time: u64,
}

#[derive(Clone, Copy, PartialEq, Eq, Structural, Debug)]
pub struct EmptyResponse {
    pub test_id: u64,
}

/// The shortest delay, in milliseconds, that is worth a timer.
///
/// A batched command is polled by whoever wakes it up. Were the delay too short, the timer might
/// do so right away, while the command is still being polled, and that would be a deadlock.
pub const MIN_DELAY_TIME: u64 = 10;

/// A command of a batch.
pub enum RequestCmd<W: Wire> {
    Get(GetRequest<W::Context>),
    Scan(ScanRequest<W::Context>),
    BatchGet(BatchGetRequest<W::Context>),
    DeleteRange(DeleteRangeRequest<W::Context>),
    RawGet(RawGetRequest<W::Context>),
    RawBatchGet(RawBatchGetRequest<W::Context>),
    RawPut(RawPutRequest<W::Context>),
    RawBatchPut(RawBatchPutRequest<W::Context>),
    RawDelete(RawDeleteRequest<W::Context>),
    RawBatchDelete(RawBatchDeleteRequest<W::Context>),
    RawScan(RawScanRequest<W::Context>),
    RawBatchScan(RawBatchScanRequest<W::Context>),
    RawDeleteRange(RawDeleteRangeRequest<W::Context>),
    Prewrite(W::TxnRequest),
    Commit(W::TxnRequest),
    Cleanup(W::TxnRequest),
    BatchRollback(W::TxnRequest),
    TxnHeartBeat(W::TxnRequest),
    CheckTxnStatus { caller_start_ts: u64, request: W::TxnRequest },
    CheckSecondaryLocks(W::TxnRequest),
    ScanLock(W::TxnRequest),
    ResolveLock(W::TxnRequest),
    PessimisticLock(W::TxnRequest),
    PessimisticRollback(W::TxnRequest),
    Coprocessor(W::CopRequest),
    Empty(EmptyRequest),
    Gc,
    Import,
    VerGet,
    VerBatchGet,
    VerMut,
    VerBatchMut,
    VerScan,
    VerDeleteRange,
}

/// The response to a command of a batch.
pub enum ResponseCmd<W: Wire> {
    Get(GetResponse<W::RegionError, W::KeyError>),
    Scan(ScanResponse<W::RegionError, W::KvPair>),
    BatchGet(BatchGetResponse<W::RegionError, W::KvPair>),
    DeleteRange(DeleteRangeResponse<W::RegionError>),
    RawGet(RawGetResponse<W::RegionError>),
    RawBatchGet(RawBatchGetResponse<W::RegionError, W::KvPair>),
    RawPut(RawPutResponse<W::RegionError>),
    RawBatchPut(RawBatchPutResponse<W::RegionError>),
    RawDelete(RawDeleteResponse<W::RegionError>),
    RawBatchDelete(RawBatchDeleteResponse<W::RegionError>),
    RawScan(RawScanResponse<W::RegionError, W::KvPair>),
    RawBatchScan(RawBatchScanResponse<W::RegionError, W::KvPair>),
    RawDeleteRange(RawDeleteRangeResponse<W::RegionError>),
    Prewrite(PrewriteResponse<W::RegionError, W::KeyError>),
    Commit(CommitResponse<W::RegionError, W::KeyError>),
    Cleanup(CleanupResponse<W::RegionError, W::KeyError>),
    BatchRollback(BatchRollbackResponse<W::RegionError, W::KeyError>),
    TxnHeartBeat(TxnHeartBeatResponse<W::RegionError, W::KeyError>),
    CheckTxnStatus(CheckTxnStatusResponse<W::RegionError, W::KeyError, W::LockInfo>),
    CheckSecondaryLocks(CheckSecondaryLocksResponse<W::RegionError, W::KeyError, W::LockInfo>),
    ScanLock(ScanLockResponse<W::RegionError, W::KeyError, W::LockInfo>),
    ResolveLock(ResolveLockResponse<W::RegionError, W::KeyError>),
    PessimisticLock(PessimisticLockResponse<W::RegionError, W::KeyError>),
    PessimisticRollback(PessimisticRollbackResponse<W::RegionError, W::KeyError>),
    Coprocessor(W::CopResponse),
    Empty(EmptyResponse),
    VerGet,
    VerBatchGet,
    VerMut,
    VerBatchMut,
    VerScan,
    VerDeleteRange,
}

/// Which command a request, an answer or a response belongs to.
#[derive(Clone, Copy, PartialEq, Eq, Structural, Debug)]
pub enum CmdKind {
    Get,
    Scan,
    BatchGet,
    DeleteRange,
    RawGet,
    RawBatchGet,
    RawPut,
    RawBatchPut,
    RawDelete,
    RawBatchDelete,
    RawScan,
    RawBatchScan,
    RawDeleteRange,
    Prewrite,
    Commit,
    Cleanup,
    BatchRollback,
    TxnHeartBeat,
    CheckTxnStatus,
    CheckSecondaryLocks,
    ScanLock,
    ResolveLock,
    PessimisticLock,
    PessimisticRollback,
    Coprocessor,
    Empty,
    Gc,
    Import,
    VerGet,
    VerBatchGet,
    VerMut,
    VerBatchMut,
    VerScan,
    VerDeleteRange,
}

/// A transactional command, apart from its request.
#[derive(Clone, Copy, PartialEq, Eq, Structural, Debug)]
pub enum TxnKind {
    Prewrite,
    Commit,
    Cleanup,
    BatchRollback,
    TxnHeartBeat,
    CheckTxnStatus,
    CheckSecondaryLocks,
    ScanLock,
    ResolveLock,
    PessimisticLock,
    PessimisticRollback,
}

/// What is to be done for a command.
pub enum Work<W: Wire> {
    /// Make a call of the storage, and complete its reply.
    Storage(StorageCall<W::Context>),
    /// Hand a transactional command to the storage, and complete its reply.
    Txn { kind: TxnKind, request: W::TxnRequest },
    /// Hand the request to the coprocessor, and complete its response.
    Coprocessor { peer: Option<String>, request: W::CopRequest },
    /// Wait, and complete the response.
    Delay { millis: u64, response: EmptyResponse },
    /// Nothing: this is the response. There is none to speak of where there was no command.
    Ready(Option<ResponseCmd<W>>),
    /// Nothing: there will be no response, for this reason.
    Fail(RpcStatus),
}

/// What came back for a command.
pub enum CmdReply<W: Wire> {
    Get(Reply<Option<Vec<u8>>, W::KeyError, W::RegionError>),
    Scan(PairsReply<W::KvPair, W::RegionError>),
    BatchGet(PairsReply<W::KvPair, W::RegionError>),
    DeleteRange(Reply<(), String, W::RegionError>),
    RawGet(Reply<Option<Vec<u8>>, String, W::RegionError>),
    RawBatchGet(PairsReply<W::KvPair, W::RegionError>),
    RawPut(Reply<(), String, W::RegionError>),
    RawBatchPut(Reply<(), String, W::RegionError>),
    RawDelete(Reply<(), String, W::RegionError>),
    RawBatchDelete(Reply<(), String, W::RegionError>),
    RawScan(PairsReply<W::KvPair, W::RegionError>),
    RawBatchScan(PairsReply<W::KvPair, W::RegionError>),
    RawDeleteRange(Reply<(), String, W::RegionError>),
    Prewrite(PrewriteReply<W::KeyError, W::RegionError>),
    Commit(Reply<TxnStatus<W::LockInfo>, W::KeyError, W::RegionError>),
    Cleanup(Reply<(), CleanupFailure<W::KeyError>, W::RegionError>),
    BatchRollback(Reply<(), W::KeyError, W::RegionError>),
    TxnHeartBeat(Reply<TxnStatus<W::LockInfo>, W::KeyError, W::RegionError>),
    CheckTxnStatus(Reply<TxnStatus<W::LockInfo>, W::KeyError, W::RegionError>),
    CheckSecondaryLocks(Reply<SecondaryLocksStatus<W::LockInfo>, W::KeyError, W::RegionError>),
    ScanLock(Reply<Vec<W::LockInfo>, W::KeyError, W::RegionError>),
    ResolveLock(Reply<(), W::KeyError, W::RegionError>),
    PessimisticLock(Reply<Result<Vec<Vec<u8>>, W::KeyError>, W::KeyError, W::RegionError>),
    PessimisticRollback(KeyErrorsReply<W::KeyError, W::RegionError>),
    Coprocessor(W::CopResponse),
    Empty(EmptyResponse),
}

impl<W: Wire> RequestCmd<W> {
    pub open spec fn kind(self) -> CmdKind {
        match self {
            RequestCmd::Get(_) => CmdKind::Get,
            RequestCmd::Scan(_) => CmdKind::Scan,
            RequestCmd::BatchGet(_) => CmdKind::BatchGet,
            RequestCmd::DeleteRange(_) => CmdKind::DeleteRange,
            RequestCmd::RawGet(_) => CmdKind::RawGet,
            RequestCmd::RawBatchGet(_) => CmdKind::RawBatchGet,
            RequestCmd::RawPut(_) => CmdKind::RawPut,
            RequestCmd::RawBatchPut(_) => CmdKind::RawBatchPut,
            RequestCmd::RawDelete(_) => CmdKind::RawDelete,
            RequestCmd::RawBatchDelete(_) => CmdKind::RawBatchDelete,
            RequestCmd::RawScan(_) => CmdKind::RawScan,
            RequestCmd::RawBatchScan(_) => CmdKind::RawBatchScan,
            RequestCmd::RawDeleteRange(_) => CmdKind::RawDeleteRange,
            RequestCmd::Prewrite(_) => CmdKind::Prewrite,
            RequestCmd::Commit(_) => CmdKind::Commit,
            RequestCmd::Cleanup(_) => CmdKind::Cleanup,
            RequestCmd::BatchRollback(_) => CmdKind::BatchRollback,
            RequestCmd::TxnHeartBeat(_) => CmdKind::TxnHeartBeat,
            RequestCmd::CheckTxnStatus { .. } => CmdKind::CheckTxnStatus,
            RequestCmd::CheckSecondaryLocks(_) => CmdKind::CheckSecondaryLocks,
            RequestCmd::ScanLock(_) => CmdKind::ScanLock,
            RequestCmd::ResolveLock(_) => CmdKind::ResolveLock,
            RequestCmd::PessimisticLock(_) => CmdKind::PessimisticLock,
            RequestCmd::PessimisticRollback(_) => CmdKind::PessimisticRollback,
            RequestCmd::Coprocessor(_) => CmdKind::Coprocessor,
            RequestCmd::Empty(_) => CmdKind::Empty,
            RequestCmd::Gc => CmdKind::Gc,
            RequestCmd::Import => CmdKind::Import,
            RequestCmd::VerGet => CmdKind::VerGet,
            RequestCmd::VerBatchGet => CmdKind::VerBatchGet,
            RequestCmd::VerMut => CmdKind::VerMut,
            RequestCmd::VerBatchMut => CmdKind::VerBatchMut,
            RequestCmd::VerScan => CmdKind::VerScan,
            RequestCmd::VerDeleteRange => CmdKind::VerDeleteRange,
        }
    }
}

/// What a command is counted under. What is no command at all is counted as invalid, as is one that
/// only checks that batches get through.
pub open spec fn label_of<W: Wire>(cmd: Option<RequestCmd<W>>) -> Label {
    match cmd {
        None => Label::Invalid,
        Some(RequestCmd::Get(_)) => Label::KvGet,
        Some(RequestCmd::Scan(_)) => Label::KvScan,
        Some(RequestCmd::BatchGet(_)) => Label::KvBatchGet,
        Some(RequestCmd::DeleteRange(_)) => Label::KvDeleteRange,
        Some(RequestCmd::RawGet(_)) => Label::RawGet,
        Some(RequestCmd::RawBatchGet(_)) => Label::RawBatchGet,
        Some(RequestCmd::RawPut(_)) => Label::RawPut,
        Some(RequestCmd::RawBatchPut(_)) => Label::RawBatchPut,
        Some(RequestCmd::RawDelete(_)) => Label::RawDelete,
        Some(RequestCmd::RawBatchDelete(_)) => Label::RawBatchDelete,
        Some(RequestCmd::RawScan(_)) => Label::RawScan,
        Some(RequestCmd::RawBatchScan(_)) => Label::RawBatchScan,
        Some(RequestCmd::RawDeleteRange(_)) => Label::RawDeleteRange,
        Some(RequestCmd::Prewrite(_)) => Label::KvPrewrite,
        Some(RequestCmd::Commit(_)) => Label::KvCommit,
        Some(RequestCmd::Cleanup(_)) => Label::KvCleanup,
        Some(RequestCmd::BatchRollback(_)) => Label::KvBatchRollback,
        Some(RequestCmd::TxnHeartBeat(_)) => Label::KvTxnHeartBeat,
        Some(RequestCmd::CheckTxnStatus { .. }) => Label::KvCheckTxnStatus,
        Some(RequestCmd::CheckSecondaryLocks(_)) => Label::KvCheckSecondaryLocks,
        Some(RequestCmd::ScanLock(_)) => Label::KvScanLock,
        Some(RequestCmd::ResolveLock(_)) => Label::KvResolveLock,
        Some(RequestCmd::PessimisticLock(_)) => Label::KvPessimisticLock,
        Some(RequestCmd::PessimisticRollback(_)) => Label::KvPessimisticRollback,
        Some(RequestCmd::Coprocessor(_)) => Label::Coprocessor,
        Some(RequestCmd::Empty(_)) => Label::Invalid,
        Some(RequestCmd::Gc) => Label::KvGc,
        Some(RequestCmd::Import) => Label::Invalid,
        Some(RequestCmd::VerGet) => Label::VerGet,
        Some(RequestCmd::VerBatchGet) => Label::VerBatchGet,
        Some(RequestCmd::VerMut) => Label::VerMut,
        Some(RequestCmd::VerBatchMut) => Label::VerBatchMut,
        Some(RequestCmd::VerScan) => Label::VerScan,
        Some(RequestCmd::VerDeleteRange) => Label::VerDeleteRange,
    }
}

/// What a command is counted under.
pub fn command_label<W: Wire>(cmd: &Option<RequestCmd<W>>) -> (label: Label)
    requires
        !(cmd matches Some(RequestCmd::Import)),
    ensures
        label == label_of(*cmd),
{
    match cmd {
        None => Label::Invalid,
        Some(RequestCmd::Get(_)) => Label::KvGet,
        Some(RequestCmd::Scan(_)) => Label::KvScan,
        Some(RequestCmd::BatchGet(_)) => Label::KvBatchGet,
        Some(RequestCmd::DeleteRange(_)) => Label::KvDeleteRange,
        Some(RequestCmd::RawGet(_)) => Label::RawGet,
        Some(RequestCmd::RawBatchGet(_)) => Label::RawBatchGet,
        Some(RequestCmd::RawPut(_)) => Label::RawPut,
        Some(RequestCmd::RawBatchPut(_)) => Label::RawBatchPut,
        Some(RequestCmd::RawDelete(_)) => Label::RawDelete,
        Some(RequestCmd::RawBatchDelete(_)) => Label::RawBatchDelete,
        Some(RequestCmd::RawScan(_)) => Label::RawScan,
        Some(RequestCmd::RawBatchScan(_)) => Label::RawBatchScan,
        Some(RequestCmd::RawDeleteRange(_)) => Label::RawDeleteRange,
        Some(RequestCmd::Prewrite(_)) => Label::KvPrewrite,
        Some(RequestCmd::Commit(_)) => Label::KvCommit,
        Some(RequestCmd::Cleanup(_)) => Label::KvCleanup,
        Some(RequestCmd::BatchRollback(_)) => Label::KvBatchRollback,
        Some(RequestCmd::TxnHeartBeat(_)) => Label::KvTxnHeartBeat,
        Some(RequestCmd::CheckTxnStatus { .. }) => Label::KvCheckTxnStatus,
        Some(RequestCmd::CheckSecondaryLocks(_)) => Label::KvCheckSecondaryLocks,
        Some(RequestCmd::ScanLock(_)) => Label::KvScanLock,
        Some(RequestCmd::ResolveLock(_)) => Label::KvResolveLock,
        Some(RequestCmd::PessimisticLock(_)) => Label::KvPessimisticLock,
        Some(RequestCmd::PessimisticRollback(_)) => Label::KvPessimisticRollback,
        Some(RequestCmd::Coprocessor(_)) => Label::Coprocessor,
        Some(RequestCmd::Empty(_)) => Label::Invalid,
        Some(RequestCmd::Gc) => Label::KvGc,
        Some(RequestCmd::Import) => Label::Invalid,
        Some(RequestCmd::VerGet) => Label::VerGet,
        Some(RequestCmd::VerBatchGet) => Label::VerBatchGet,
        Some(RequestCmd::VerMut) => Label::VerMut,
        Some(RequestCmd::VerBatchMut) => Label::VerBatchMut,
        Some(RequestCmd::VerScan) => Label::VerScan,
        Some(RequestCmd::VerDeleteRange) => Label::VerDeleteRange,
    }
}

/// When the caller of a command reads, as far as the command tells: a check of a transaction does.
pub open spec fn caller_start_ts_of<W: Wire>(cmd: Option<RequestCmd<W>>) -> TimeStamp {
    match cmd {
        Some(RequestCmd::CheckTxnStatus { caller_start_ts, request: _ }) => TimeStamp {
            inner: caller_start_ts,
        },
        _ => TimeStamp { inner: 0 },
    }
}

/// When the caller of a command reads, as far as the command tells.
pub fn caller_start_ts<W: Wire>(cmd: &Option<RequestCmd<W>>) -> (ts: TimeStamp)
    ensures
        ts == caller_start_ts_of(*cmd),
{
    match cmd {
        Some(RequestCmd::CheckTxnStatus { caller_start_ts, request: _ }) => TimeStamp::new(
            *caller_start_ts,
        ),
        _ => TimeStamp::new(0),
    }
}

/// Whether `work` is what is to be done for the command `cmd` of the client at `peer`.
pub open spec fn serves<W: Wire>(
    peer: Seq<char>,
    cmd: Option<RequestCmd<W>>,
    work: Work<W>,
) -> bool {
    match cmd {
        None => work == Work::<W>::Ready(None),
        Some(RequestCmd::Get(request)) => work matches Work::Storage(call)
            && request.asks(call),
        Some(RequestCmd::Scan(request)) => work matches Work::Storage(call)
            && request.asks(call),
        Some(RequestCmd::BatchGet(request)) => work matches Work::Storage(call)
            && request.asks(call),
        Some(RequestCmd::DeleteRange(request)) => work matches Work::Storage(call)
            && request.asks(call),
        Some(RequestCmd::RawGet(request)) => work matches Work::Storage(call)
            && request.asks(call),
        Some(RequestCmd::RawBatchGet(request)) => work matches Work::Storage(call)
            && request.asks(call),
        Some(RequestCmd::RawPut(request)) => work matches Work::Storage(call)
            && request.asks(call),
        Some(RequestCmd::RawBatchPut(request)) => work matches Work::Storage(call)
            && request.asks(call),
        Some(RequestCmd::RawDelete(request)) => work matches Work::Storage(call)
            && request.asks(call),
        Some(RequestCmd::RawBatchDelete(request)) => work matches Work::Storage(call)
            && request.asks(call),
        Some(RequestCmd::RawScan(request)) => work matches Work::Storage(call)
            && request.asks(call),
        Some(RequestCmd::RawBatchScan(request)) => work matches Work::Storage(call)
            && request.asks(call),
        Some(RequestCmd::RawDeleteRange(request)) => work matches Work::Storage(call)
            && request.asks(call),
        Some(RequestCmd::Prewrite(request)) => work == (Work::<W>::Txn {
            kind: TxnKind::Prewrite,
            request,
        }),
        Some(RequestCmd::Commit(request)) => work == (Work::<W>::Txn {
            kind: TxnKind::Commit,
            request,
        }),
        Some(RequestCmd::Cleanup(request)) => work == (Work::<W>::Txn {
            kind: TxnKind::Cleanup,
            request,
        }),
        Some(RequestCmd::BatchRollback(request)) => work == (Work::<W>::Txn {
            kind: TxnKind::BatchRollback,
            request,
        }),
        Some(RequestCmd::TxnHeartBeat(request)) => work == (Work::<W>::Txn {
            kind: TxnKind::TxnHeartBeat,
            request,
        }),
        Some(RequestCmd::CheckTxnStatus { caller_start_ts: _, request }) => work == (Work::<W>::Txn {
            kind: TxnKind::CheckTxnStatus,
            request,
        }),
        Some(RequestCmd::CheckSecondaryLocks(request)) => work == (Work::<W>::Txn {
            kind: TxnKind::CheckSecondaryLocks,
            request,
        }),
        Some(RequestCmd::ScanLock(request)) => work == (Work::<W>::Txn {
            kind: TxnKind::ScanLock,
            request,
        }),
        Some(RequestCmd::ResolveLock(request)) => work == (Work::<W>::Txn {
            kind: TxnKind::ResolveLock,
            request,
        }),
        Some(RequestCmd::PessimisticLock(request)) => work == (Work::<W>::Txn {
            kind: TxnKind::PessimisticLock,
            request,
        }),
        Some(RequestCmd::PessimisticRollback(request)) => work == (Work::<W>::Txn {
            kind: TxnKind::PessimisticRollback,
            request,
        }),
        Some(RequestCmd::Coprocessor(request)) => work matches Work::Coprocessor {
            peer: Some(name),
            request: handed_on,
        } && name@ == peer && handed_on == request,
        Some(RequestCmd::Empty(request)) => {
            let response = EmptyResponse { test_id: request.test_id };
            if request.delay_time < MIN_DELAY_TIME {
                work == Work::<W>::Ready(Some(ResponseCmd::Empty(response)))
            } else {
                work == (Work::<W>::Delay { millis: request.delay_time, response })
            }
        },
        Some(RequestCmd::Gc) => work == Work::<W>::Fail(
            RpcStatus { status: RpcStatusCode::Unimplemented, details: None },
        ),
        Some(RequestCmd::Import) => false,
        Some(RequestCmd::VerGet) => work == Work::<W>::Ready(Some(ResponseCmd::VerGet)),
        Some(RequestCmd::VerBatchGet) => work == Work::<W>::Ready(Some(ResponseCmd::VerBatchGet)),
        Some(RequestCmd::VerMut) => work == Work::<W>::Ready(Some(ResponseCmd::VerMut)),
        Some(RequestCmd::VerBatchMut) => work == Work::<W>::Ready(Some(ResponseCmd::VerBatchMut)),
        Some(RequestCmd::VerScan) => work == Work::<W>::Ready(Some(ResponseCmd::VerScan)),
        Some(RequestCmd::VerDeleteRange) => work == Work::<W>::Ready(
            Some(ResponseCmd::VerDeleteRange),
        ),
    }
}

/// What is to be done for the command `cmd` of the client at `peer`. Importing data is not
/// something that a batch may ask for.
pub fn begin_command<W: Wire>(peer: &str, cmd: Option<RequestCmd<W>>) -> (work: Work<W>)
    requires
        !(cmd matches Some(RequestCmd::Import)),
    ensures
        serves(peer@, cmd, work),
{
    match cmd {
        None => Work::Ready(None),
        Some(RequestCmd::Get(request)) => Work::Storage(request.into_call()),
        Some(RequestCmd::Scan(request)) => Work::Storage(request.into_call()),
        Some(RequestCmd::BatchGet(request)) => Work::Storage(request.into_call()),
        Some(RequestCmd::DeleteRange(request)) => Work::Storage(request.into_call()),
        Some(RequestCmd::RawGet(request)) => Work::Storage(request.into_call()),
        Some(RequestCmd::RawBatchGet(request)) => Work::Storage(request.into_call()),
        Some(RequestCmd::RawPut(request)) => Work::Storage(request.into_call()),
        Some(RequestCmd::RawBatchPut(request)) => Work::Storage(request.into_call()),
        Some(RequestCmd::RawDelete(request)) => Work::Storage(request.into_call()),
        Some(RequestCmd::RawBatchDelete(request)) => Work::Storage(request.into_call()),
        Some(RequestCmd::RawScan(request)) => Work::Storage(request.into_call()),
        Some(RequestCmd::RawBatchScan(request)) => Work::Storage(request.into_call()),
        Some(RequestCmd::RawDeleteRange(request)) => Work::Storage(request.into_call()),
        Some(RequestCmd::Prewrite(request)) => Work::Txn { kind: TxnKind::Prewrite, request },
        Some(RequestCmd::Commit(request)) => Work::Txn { kind: TxnKind::Commit, request },
        Some(RequestCmd::Cleanup(request)) => Work::Txn { kind: TxnKind::Cleanup, request },
        Some(RequestCmd::BatchRollback(request)) => Work::Txn {
            kind: TxnKind::BatchRollback,
            request,
        },
        Some(RequestCmd::TxnHeartBeat(request)) => Work::Txn {
            kind: TxnKind::TxnHeartBeat,
            request,
        },
        Some(RequestCmd::CheckTxnStatus { caller_start_ts: _, request }) => Work::Txn {
            kind: TxnKind::CheckTxnStatus,
            request,
        },
        Some(RequestCmd::CheckSecondaryLocks(request)) => Work::Txn {
            kind: TxnKind::CheckSecondaryLocks,
            request,
        },
        Some(RequestCmd::ScanLock(request)) => Work::Txn { kind: TxnKind::ScanLock, request },
        Some(RequestCmd::ResolveLock(request)) => Work::Txn { kind: TxnKind::ResolveLock, request },
        Some(RequestCmd::PessimisticLock(request)) => Work::Txn {
            kind: TxnKind::PessimisticLock,
            request,
        },
        Some(RequestCmd::PessimisticRollback(request)) => Work::Txn {
            kind: TxnKind::PessimisticRollback,
            request,
        },
        Some(RequestCmd::Coprocessor(request)) => Work::Coprocessor {
            peer: Some(peer.to_owned()),
            request,
        },
        Some(RequestCmd::Empty(request)) => handle_empty(request),
        Some(RequestCmd::Gc) => Work::Fail(RpcStatus::unimplemented()),
        Some(RequestCmd::Import) => {
            assert(false);
            Work::Ready(None)
        },
        Some(RequestCmd::VerGet) => Work::Ready(Some(ResponseCmd::VerGet)),
        Some(RequestCmd::VerBatchGet) => Work::Ready(Some(ResponseCmd::VerBatchGet)),
        Some(RequestCmd::VerMut) => Work::Ready(Some(ResponseCmd::VerMut)),
        Some(RequestCmd::VerBatchMut) => Work::Ready(Some(ResponseCmd::VerBatchMut)),
        Some(RequestCmd::VerScan) => Work::Ready(Some(ResponseCmd::VerScan)),
        Some(RequestCmd::VerDeleteRange) => Work::Ready(Some(ResponseCmd::VerDeleteRange)),
    }
}

/// What is to be done for a command that only checks that batches get through: to answer at once,
/// or where the delay is worth a timer, after that delay.
pub fn handle_empty<W: Wire>(request: EmptyRequest) -> (work: Work<W>)
    ensures
        request.delay_time < MIN_DELAY_TIME ==> work == Work::<W>::Ready(
            Some(ResponseCmd::Empty(EmptyResponse { test_id: request.test_id })),
        ),
        request.delay_time >= MIN_DELAY_TIME ==> work == (Work::<W>::Delay {
            millis: request.delay_time,
            response: EmptyResponse { test_id: request.test_id },
        }),
{
    let response = EmptyResponse { test_id: request.test_id };
    if request.delay_time < MIN_DELAY_TIME {
        Work::Ready(Some(ResponseCmd::Empty(response)))
    } else {
        Work::Delay { millis: request.delay_time, response }
    }
}

impl<W: Wire> CmdReply<W> {
    pub open spec fn kind(self) -> CmdKind {
        match self {
            CmdReply::Get(_) => CmdKind::Get,
            CmdReply::Scan(_) => CmdKind::Scan,
            CmdReply::BatchGet(_) => CmdKind::BatchGet,
            CmdReply::DeleteRange(_) => CmdKind::DeleteRange,
            CmdReply::RawGet(_) => CmdKind::RawGet,
            CmdReply::RawBatchGet(_) => CmdKind::RawBatchGet,
            CmdReply::RawPut(_) => CmdKind::RawPut,
            CmdReply::RawBatchPut(_) => CmdKind::RawBatchPut,
            CmdReply::RawDelete(_) => CmdKind::RawDelete,
            CmdReply::RawBatchDelete(_) => CmdKind::RawBatchDelete,
            CmdReply::RawScan(_) => CmdKind::RawScan,
            CmdReply::RawBatchScan(_) => CmdKind::RawBatchScan,
            CmdReply::RawDeleteRange(_) => CmdKind::RawDeleteRange,
            CmdReply::Prewrite(_) => CmdKind::Prewrite,
            CmdReply::Commit(_) => CmdKind::Commit,
            CmdReply::Cleanup(_) => CmdKind::Cleanup,
            CmdReply::BatchRollback(_) => CmdKind::BatchRollback,
            CmdReply::TxnHeartBeat(_) => CmdKind::TxnHeartBeat,
            CmdReply::CheckTxnStatus(_) => CmdKind::CheckTxnStatus,
            CmdReply::CheckSecondaryLocks(_) => CmdKind::CheckSecondaryLocks,
            CmdReply::ScanLock(_) => CmdKind::ScanLock,
            CmdReply::ResolveLock(_) => CmdKind::ResolveLock,
            CmdReply::PessimisticLock(_) => CmdKind::PessimisticLock,
            CmdReply::PessimisticRollback(_) => CmdKind::PessimisticRollback,
            CmdReply::Coprocessor(_) => CmdKind::Coprocessor,
            CmdReply::Empty(_) => CmdKind::Empty,
        }
    }

    /// The command that this is a reply to.
    pub fn command_kind(&self) -> (kind: CmdKind)
        ensures
            kind == self.kind(),
    {
        match self {
            CmdReply::Get(_) => CmdKind::Get,
            CmdReply::Scan(_) => CmdKind::Scan,
            CmdReply::BatchGet(_) => CmdKind::BatchGet,
            CmdReply::DeleteRange(_) => CmdKind::DeleteRange,
            CmdReply::RawGet(_) => CmdKind::RawGet,
            CmdReply::RawBatchGet(_) => CmdKind::RawBatchGet,
            CmdReply::RawPut(_) => CmdKind::RawPut,
            CmdReply::RawBatchPut(_) => CmdKind::RawBatchPut,
            CmdReply::RawDelete(_) => CmdKind::RawDelete,
            CmdReply::RawBatchDelete(_) => CmdKind::RawBatchDelete,
            CmdReply::RawScan(_) => CmdKind::RawScan,
            CmdReply::RawBatchScan(_) => CmdKind::RawBatchScan,
            CmdReply::RawDeleteRange(_) => CmdKind::RawDeleteRange,
            CmdReply::Prewrite(_) => CmdKind::Prewrite,
            CmdReply::Commit(_) => CmdKind::Commit,
            CmdReply::Cleanup(_) => CmdKind::Cleanup,
            CmdReply::BatchRollback(_) => CmdKind::BatchRollback,
            CmdReply::TxnHeartBeat(_) => CmdKind::TxnHeartBeat,
            CmdReply::CheckTxnStatus(_) => CmdKind::CheckTxnStatus,
            CmdReply::CheckSecondaryLocks(_) => CmdKind::CheckSecondaryLocks,
            CmdReply::ScanLock(_) => CmdKind::ScanLock,
            CmdReply::ResolveLock(_) => CmdKind::ResolveLock,
            CmdReply::PessimisticLock(_) => CmdKind::PessimisticLock,
            CmdReply::PessimisticRollback(_) => CmdKind::PessimisticRollback,
            CmdReply::Coprocessor(_) => CmdKind::Coprocessor,
            CmdReply::Empty(_) => CmdKind::Empty,
        }
    }

    /// The region error that the answer comes down to, if it is one.
    pub open spec fn region_error(self) -> Option<W::RegionError> {
        match self {
            CmdReply::Get(reply) => reply.region_error,
            CmdReply::Scan(reply) => reply.region_error,
            CmdReply::BatchGet(reply) => reply.region_error,
            CmdReply::DeleteRange(reply) => reply.region_error,
            CmdReply::RawGet(reply) => reply.region_error,
            CmdReply::RawBatchGet(reply) => reply.region_error,
            CmdReply::RawPut(reply) => reply.region_error,
            CmdReply::RawBatchPut(reply) => reply.region_error,
            CmdReply::RawDelete(reply) => reply.region_error,
            CmdReply::RawBatchDelete(reply) => reply.region_error,
            CmdReply::RawScan(reply) => reply.region_error,
            CmdReply::RawBatchScan(reply) => reply.region_error,
            CmdReply::RawDeleteRange(reply) => reply.region_error,
            CmdReply::Prewrite(reply) => reply.region_error,
            CmdReply::Commit(reply) => reply.region_error,
            CmdReply::Cleanup(reply) => reply.region_error,
            CmdReply::BatchRollback(reply) => reply.region_error,
            CmdReply::TxnHeartBeat(reply) => reply.region_error,
            CmdReply::CheckTxnStatus(reply) => reply.region_error,
            CmdReply::CheckSecondaryLocks(reply) => reply.region_error,
            CmdReply::ScanLock(reply) => reply.region_error,
            CmdReply::ResolveLock(reply) => reply.region_error,
            CmdReply::PessimisticLock(reply) => reply.region_error,
            CmdReply::PessimisticRollback(reply) => reply.region_error,
            CmdReply::Coprocessor(_) => None,
            CmdReply::Empty(_) => None,
        }
    }

    /// A command that changes the state of a transaction or keeps it alive, and that the storage
    /// carried out, leaves the transaction in the state that the command is about.
    pub open spec fn is_sound(self) -> bool {
        match self {
            CmdReply::Commit(reply) => CommitResponse::expects(reply),
            CmdReply::TxnHeartBeat(reply) => TxnHeartBeatResponse::expects(reply),
            _ => true,
        }
    }

    /// Whether the storage left the transaction in the state that the command is about.
    pub fn check(&self) -> (r: bool)
        ensures
            r == self.is_sound(),
    {
        match self {
            CmdReply::Commit(reply) => match (&reply.region_error, &reply.result) {
                (None, Ok(TxnStatus::Committed { .. })) => true,
                (None, Ok(_)) => false,
                _ => true,
            },
            CmdReply::TxnHeartBeat(reply) => match (&reply.region_error, &reply.result) {
                (None, Ok(TxnStatus::Uncommitted { .. })) => true,
                (None, Ok(_)) => false,
                _ => true,
            },
            _ => true,
        }
    }
}

impl<W: Wire> ResponseCmd<W> {
    pub open spec fn kind(self) -> CmdKind {
        match self {
            ResponseCmd::Get(_) => CmdKind::Get,
            ResponseCmd::Scan(_) => CmdKind::Scan,
            ResponseCmd::BatchGet(_) => CmdKind::BatchGet,
            ResponseCmd::DeleteRange(_) => CmdKind::DeleteRange,
            ResponseCmd::RawGet(_) => CmdKind::RawGet,
            ResponseCmd::RawBatchGet(_) => CmdKind::RawBatchGet,
            ResponseCmd::RawPut(_) => CmdKind::RawPut,
            ResponseCmd::RawBatchPut(_) => CmdKind::RawBatchPut,
            ResponseCmd::RawDelete(_) => CmdKind::RawDelete,
            ResponseCmd::RawBatchDelete(_) => CmdKind::RawBatchDelete,
            ResponseCmd::RawScan(_) => CmdKind::RawScan,
            ResponseCmd::RawBatchScan(_) => CmdKind::RawBatchScan,
            ResponseCmd::RawDeleteRange(_) => CmdKind::RawDeleteRange,
            ResponseCmd::Prewrite(_) => CmdKind::Prewrite,
            ResponseCmd::Commit(_) => CmdKind::Commit,
            ResponseCmd::Cleanup(_) => CmdKind::Cleanup,
            ResponseCmd::BatchRollback(_) => CmdKind::BatchRollback,
            ResponseCmd::TxnHeartBeat(_) => CmdKind::TxnHeartBeat,
            ResponseCmd::CheckTxnStatus(_) => CmdKind::CheckTxnStatus,
            ResponseCmd::CheckSecondaryLocks(_) => CmdKind::CheckSecondaryLocks,
            ResponseCmd::ScanLock(_) => CmdKind::ScanLock,
            ResponseCmd::ResolveLock(_) => CmdKind::ResolveLock,
            ResponseCmd::PessimisticLock(_) => CmdKind::PessimisticLock,
            ResponseCmd::PessimisticRollback(_) => CmdKind::PessimisticRollback,
            ResponseCmd::Coprocessor(_) => CmdKind::Coprocessor,
            ResponseCmd::Empty(_) => CmdKind::Empty,
            ResponseCmd::VerGet => CmdKind::VerGet,
            ResponseCmd::VerBatchGet => CmdKind::VerBatchGet,
            ResponseCmd::VerMut => CmdKind::VerMut,
            ResponseCmd::VerBatchMut => CmdKind::VerBatchMut,
            ResponseCmd::VerScan => CmdKind::VerScan,
            ResponseCmd::VerDeleteRange => CmdKind::VerDeleteRange,
        }
    }

    /// The command that this is a response to.
    pub fn command_kind(&self) -> (kind: CmdKind)
        ensures
            kind == self.kind(),
    {
        match self {
            ResponseCmd::Get(_) => CmdKind::Get,
            ResponseCmd::Scan(_) => CmdKind::Scan,
            ResponseCmd::BatchGet(_) => CmdKind::BatchGet,
            ResponseCmd::DeleteRange(_) => CmdKind::DeleteRange,
            ResponseCmd::RawGet(_) => CmdKind::RawGet,
            ResponseCmd::RawBatchGet(_) => CmdKind::RawBatchGet,
            ResponseCmd::RawPut(_) => CmdKind::RawPut,
            ResponseCmd::RawBatchPut(_) => CmdKind::RawBatchPut,
            ResponseCmd::RawDelete(_) => CmdKind::RawDelete,
            ResponseCmd::RawBatchDelete(_) => CmdKind::RawBatchDelete,
            ResponseCmd::RawScan(_) => CmdKind::RawScan,
            ResponseCmd::RawBatchScan(_) => CmdKind::RawBatchScan,
            ResponseCmd::RawDeleteRange(_) => CmdKind::RawDeleteRange,
            ResponseCmd::Prewrite(_) => CmdKind::Prewrite,
            ResponseCmd::Commit(_) => CmdKind::Commit,
            ResponseCmd::Cleanup(_) => CmdKind::Cleanup,
            ResponseCmd::BatchRollback(_) => CmdKind::BatchRollback,
            ResponseCmd::TxnHeartBeat(_) => CmdKind::TxnHeartBeat,
            ResponseCmd::CheckTxnStatus(_) => CmdKind::CheckTxnStatus,
            ResponseCmd::CheckSecondaryLocks(_) => CmdKind::CheckSecondaryLocks,
            ResponseCmd::ScanLock(_) => CmdKind::ScanLock,
            ResponseCmd::ResolveLock(_) => CmdKind::ResolveLock,
            ResponseCmd::PessimisticLock(_) => CmdKind::PessimisticLock,
            ResponseCmd::PessimisticRollback(_) => CmdKind::PessimisticRollback,
            ResponseCmd::Coprocessor(_) => CmdKind::Coprocessor,
            ResponseCmd::Empty(_) => CmdKind::Empty,
            ResponseCmd::VerGet => CmdKind::VerGet,
            ResponseCmd::VerBatchGet => CmdKind::VerBatchGet,
            ResponseCmd::VerMut => CmdKind::VerMut,
            ResponseCmd::VerBatchMut => CmdKind::VerBatchMut,
            ResponseCmd::VerScan => CmdKind::VerScan,
            ResponseCmd::VerDeleteRange => CmdKind::VerDeleteRange,
        }
    }

    /// Whether this is the response that follows from `reply` for a caller that reads at
    /// `caller_start_ts`, which matters only to a check of a transaction.
    pub open spec fn answers(self, caller_start_ts: TimeStamp, reply: CmdReply<W>) -> bool {
        match reply {
            CmdReply::Get(reply) => self matches ResponseCmd::Get(resp)
                && resp.answers(reply),
            CmdReply::Scan(reply) => self matches ResponseCmd::Scan(resp)
                && resp.answers(reply),
            CmdReply::BatchGet(reply) => self matches ResponseCmd::BatchGet(resp)
                && resp.answers(reply),
            CmdReply::DeleteRange(reply) => self matches ResponseCmd::DeleteRange(resp)
                && resp.answers(reply),
            CmdReply::RawGet(reply) => self matches ResponseCmd::RawGet(resp)
                && resp.answers(reply),
            CmdReply::RawBatchGet(reply) => self matches ResponseCmd::RawBatchGet(resp)
                && resp.answers(reply),
            CmdReply::RawPut(reply) => self matches ResponseCmd::RawPut(resp)
                && resp.answers(reply),
            CmdReply::RawBatchPut(reply) => self matches ResponseCmd::RawBatchPut(resp)
                && resp.answers(reply),
            CmdReply::RawDelete(reply) => self matches ResponseCmd::RawDelete(resp)
                && resp.answers(reply),
            CmdReply::RawBatchDelete(reply) => self matches ResponseCmd::RawBatchDelete(resp)
                && resp.answers(reply),
            CmdReply::RawScan(reply) => self matches ResponseCmd::RawScan(resp)
                && resp.answers(reply),
            CmdReply::RawBatchScan(reply) => self matches ResponseCmd::RawBatchScan(resp)
                && resp.answers(reply),
            CmdReply::RawDeleteRange(reply) => self matches ResponseCmd::RawDeleteRange(resp)
                && resp.answers(reply),
            CmdReply::Prewrite(reply) => self matches ResponseCmd::Prewrite(resp)
                && resp.answers(reply),
            CmdReply::Commit(reply) => self matches ResponseCmd::Commit(resp)
                && resp.answers(reply),
            CmdReply::Cleanup(reply) => self matches ResponseCmd::Cleanup(resp)
                && resp.answers(reply),
            CmdReply::BatchRollback(reply) => self matches ResponseCmd::BatchRollback(resp)
                && resp.answers(reply),
            CmdReply::TxnHeartBeat(reply) => self matches ResponseCmd::TxnHeartBeat(resp)
                && resp.answers(reply),
            CmdReply::CheckTxnStatus(reply) => self
                matches ResponseCmd::CheckTxnStatus(resp) && resp.answers(caller_start_ts, reply),
            CmdReply::CheckSecondaryLocks(reply) => self
                matches ResponseCmd::CheckSecondaryLocks(resp) && resp.answers(reply),
            CmdReply::ScanLock(reply) => self matches ResponseCmd::ScanLock(resp)
                && resp.answers(reply),
            CmdReply::ResolveLock(reply) => self matches ResponseCmd::ResolveLock(resp)
                && resp.answers(reply),
            CmdReply::PessimisticLock(reply) => self matches ResponseCmd::PessimisticLock(resp)
                && resp.answers(reply),
            CmdReply::PessimisticRollback(reply) => self
                matches ResponseCmd::PessimisticRollback(resp) && resp.answers(reply),
            CmdReply::Coprocessor(resp) => self == ResponseCmd::<W>::Coprocessor(resp),
            CmdReply::Empty(resp) => self == ResponseCmd::<W>::Empty(resp),
        }
    }

    /// The region error that the response carries, if it carries one.
    pub open spec fn region_error(self) -> Option<W::RegionError> {
        match self {
            ResponseCmd::Get(resp) => resp.region_error,
            ResponseCmd::Scan(resp) => resp.region_error,
            ResponseCmd::BatchGet(resp) => resp.region_error,
            ResponseCmd::DeleteRange(resp) => resp.region_error,
            ResponseCmd::RawGet(resp) => resp.region_error,
            ResponseCmd::RawBatchGet(resp) => resp.region_error,
            ResponseCmd::RawPut(resp) => resp.region_error,
            ResponseCmd::RawBatchPut(resp) => resp.region_error,
            ResponseCmd::RawDelete(resp) => resp.region_error,
            ResponseCmd::RawBatchDelete(resp) => resp.region_error,
            ResponseCmd::RawScan(resp) => resp.region_error,
            ResponseCmd::RawBatchScan(resp) => resp.region_error,
            ResponseCmd::RawDeleteRange(resp) => resp.region_error,
            ResponseCmd::Prewrite(resp) => resp.region_error,
            ResponseCmd::Commit(resp) => resp.region_error,
            ResponseCmd::Cleanup(resp) => resp.region_error,
            ResponseCmd::BatchRollback(resp) => resp.region_error,
            ResponseCmd::TxnHeartBeat(resp) => resp.region_error,
            ResponseCmd::CheckTxnStatus(resp) => resp.region_error,
            ResponseCmd::CheckSecondaryLocks(resp) => resp.region_error,
            ResponseCmd::ScanLock(resp) => resp.region_error,
            ResponseCmd::ResolveLock(resp) => resp.region_error,
            ResponseCmd::PessimisticLock(resp) => resp.region_error,
            ResponseCmd::PessimisticRollback(resp) => resp.region_error,
            ResponseCmd::Coprocessor(_) => None,
            ResponseCmd::Empty(_) => None,
            ResponseCmd::VerGet => None,
            ResponseCmd::VerBatchGet => None,
            ResponseCmd::VerMut => None,
            ResponseCmd::VerBatchMut => None,
            ResponseCmd::VerScan => None,
            ResponseCmd::VerDeleteRange => None,
        }
    }

    /// Whether the response carries nothing, apart from what may be a region error.
    pub open spec fn is_bare(self) -> bool {
        match self {
            ResponseCmd::Get(resp) => resp.value@.len() == 0 && !resp.not_found
                && resp.error is None,
            ResponseCmd::Scan(resp) => resp.pairs@.len() == 0,
            ResponseCmd::BatchGet(resp) => resp.pairs@.len() == 0,
            ResponseCmd::DeleteRange(resp) => resp.error@.len() == 0,
            ResponseCmd::RawGet(resp) => resp.value@.len() == 0 && !resp.not_found
                && resp.error@.len() == 0,
            ResponseCmd::RawBatchGet(resp) => resp.pairs@.len() == 0,
            ResponseCmd::RawPut(resp) => resp.error@.len() == 0,
            ResponseCmd::RawBatchPut(resp) => resp.error@.len() == 0,
            ResponseCmd::RawDelete(resp) => resp.error@.len() == 0,
            ResponseCmd::RawBatchDelete(resp) => resp.error@.len() == 0,
            ResponseCmd::RawScan(resp) => resp.kvs@.len() == 0,
            ResponseCmd::RawBatchScan(resp) => resp.kvs@.len() == 0,
            ResponseCmd::RawDeleteRange(resp) => resp.error@.len() == 0,
            ResponseCmd::Prewrite(resp) => resp.errors@.len() == 0 && resp.min_commit_ts == 0,
            ResponseCmd::Commit(resp) => resp.error is None && resp.commit_version == 0,
            ResponseCmd::Cleanup(resp) => resp.error is None && resp.commit_version == 0,
            ResponseCmd::BatchRollback(resp) => resp.error is None,
            ResponseCmd::TxnHeartBeat(resp) => resp.error is None && resp.lock_ttl == 0,
            ResponseCmd::CheckTxnStatus(resp) => resp.error is None && resp.lock_ttl == 0
                && resp.commit_version == 0 && resp.action == Action::NoAction
                && resp.lock_info is None,
            ResponseCmd::CheckSecondaryLocks(resp) => resp.error is None && resp.locks@.len() == 0
                && resp.commit_ts == 0,
            ResponseCmd::ScanLock(resp) => resp.error is None && resp.locks@.len() == 0,
            ResponseCmd::ResolveLock(resp) => resp.error is None,
            ResponseCmd::PessimisticLock(resp) => resp.errors@.len() == 0
                && resp.values@.len() == 0,
            ResponseCmd::PessimisticRollback(resp) => resp.errors@.len() == 0,
            ResponseCmd::Coprocessor(_) => false,
            ResponseCmd::Empty(_) => false,
            ResponseCmd::VerGet => true,
            ResponseCmd::VerBatchGet => true,
            ResponseCmd::VerMut => true,
            ResponseCmd::VerBatchMut => true,
            ResponseCmd::VerScan => true,
            ResponseCmd::VerDeleteRange => true,
        }
    }
}

/// The response that follows from what came back for a command of a caller that reads at
/// `caller_start_ts`.
pub fn complete_command<W: Wire>(caller_start_ts: TimeStamp, reply: CmdReply<W>) -> (resp:
    ResponseCmd<W>)
    requires
        reply.is_sound(),
    ensures
        resp.answers(caller_start_ts, reply),
{
    match reply {
        CmdReply::Get(reply) => ResponseCmd::Get(GetResponse::from_reply(reply)),
        CmdReply::Scan(reply) => ResponseCmd::Scan(ScanResponse::from_reply(reply)),
        CmdReply::BatchGet(reply) => ResponseCmd::BatchGet(BatchGetResponse::from_reply(reply)),
        CmdReply::DeleteRange(reply) => ResponseCmd::DeleteRange(
            DeleteRangeResponse::from_reply(reply),
        ),
        CmdReply::RawGet(reply) => ResponseCmd::RawGet(RawGetResponse::from_reply(reply)),
        CmdReply::RawBatchGet(reply) => ResponseCmd::RawBatchGet(
            RawBatchGetResponse::from_reply(reply),
        ),
        CmdReply::RawPut(reply) => ResponseCmd::RawPut(RawPutResponse::from_reply(reply)),
        CmdReply::RawBatchPut(reply) => ResponseCmd::RawBatchPut(
            RawBatchPutResponse::from_reply(reply),
        ),
        CmdReply::RawDelete(reply) => ResponseCmd::RawDelete(RawDeleteResponse::from_reply(reply)),
        CmdReply::RawBatchDelete(reply) => ResponseCmd::RawBatchDelete(
            RawBatchDeleteResponse::from_reply(reply),
        ),
        CmdReply::RawScan(reply) => ResponseCmd::RawScan(RawScanResponse::from_reply(reply)),
        CmdReply::RawBatchScan(reply) => ResponseCmd::RawBatchScan(
            RawBatchScanResponse::from_reply(reply),
        ),
        CmdReply::RawDeleteRange(reply) => ResponseCmd::RawDeleteRange(
            RawDeleteRangeResponse::from_reply(reply),
        ),
        CmdReply::Prewrite(reply) => ResponseCmd::Prewrite(PrewriteResponse::from_reply(reply)),
        CmdReply::Commit(reply) => ResponseCmd::Commit(CommitResponse::from_reply(reply)),
        CmdReply::Cleanup(reply) => ResponseCmd::Cleanup(CleanupResponse::from_reply(reply)),
        CmdReply::BatchRollback(reply) => ResponseCmd::BatchRollback(
            BatchRollbackResponse::from_reply(reply),
        ),
        CmdReply::TxnHeartBeat(reply) => ResponseCmd::TxnHeartBeat(
            TxnHeartBeatResponse::from_reply(reply),
        ),
        CmdReply::CheckTxnStatus(reply) => ResponseCmd::CheckTxnStatus(
            CheckTxnStatusResponse::from_reply(caller_start_ts, reply),
        ),
        CmdReply::CheckSecondaryLocks(reply) => ResponseCmd::CheckSecondaryLocks(
            CheckSecondaryLocksResponse::from_reply(reply),
        ),
        CmdReply::ScanLock(reply) => ResponseCmd::ScanLock(ScanLockResponse::from_reply(reply)),
        CmdReply::ResolveLock(reply) => ResponseCmd::ResolveLock(
            ResolveLockResponse::from_reply(reply),
        ),
        CmdReply::PessimisticLock(reply) => ResponseCmd::PessimisticLock(
            PessimisticLockResponse::from_reply(reply),
        ),
        CmdReply::PessimisticRollback(reply) => ResponseCmd::PessimisticRollback(
            PessimisticRollbackResponse::from_reply(reply),
        ),
        CmdReply::Coprocessor(resp) => ResponseCmd::Coprocessor(resp),
        CmdReply::Empty(resp) => ResponseCmd::Empty(resp),
    }
}

impl<W: Wire> Work<W> {
    /// The command that the work is done for, where that can be told from the work.
    pub open spec fn kind(self) -> Option<CmdKind> {
        match self {
            Work::Storage(call) => Some(
                match call {
                    StorageCall::Get { .. } => CmdKind::Get,
                    StorageCall::Scan { .. } => CmdKind::Scan,
                    StorageCall::BatchGet { .. } => CmdKind::BatchGet,
                    StorageCall::DeleteRange { .. } => CmdKind::DeleteRange,
                    StorageCall::RawGet { .. } => CmdKind::RawGet,
                    StorageCall::RawBatchGet { .. } => CmdKind::RawBatchGet,
                    StorageCall::RawPut { .. } => CmdKind::RawPut,
                    StorageCall::RawBatchPut { .. } => CmdKind::RawBatchPut,
                    StorageCall::RawDelete { .. } => CmdKind::RawDelete,
                    StorageCall::RawBatchDelete { .. } => CmdKind::RawBatchDelete,
                    StorageCall::RawScan { .. } => CmdKind::RawScan,
                    StorageCall::RawBatchScan { .. } => CmdKind::RawBatchScan,
                    StorageCall::RawDeleteRange { .. } => CmdKind::RawDeleteRange,
                },
            ),
            Work::Txn { kind, request: _ } => Some(
                match kind {
                    TxnKind::Prewrite => CmdKind::Prewrite,
                    TxnKind::Commit => CmdKind::Commit,
                    TxnKind::Cleanup => CmdKind::Cleanup,
                    TxnKind::BatchRollback => CmdKind::BatchRollback,
                    TxnKind::TxnHeartBeat => CmdKind::TxnHeartBeat,
                    TxnKind::CheckTxnStatus => CmdKind::CheckTxnStatus,
                    TxnKind::CheckSecondaryLocks => CmdKind::CheckSecondaryLocks,
                    TxnKind::ScanLock => CmdKind::ScanLock,
                    TxnKind::ResolveLock => CmdKind::ResolveLock,
                    TxnKind::PessimisticLock => CmdKind::PessimisticLock,
                    TxnKind::PessimisticRollback => CmdKind::PessimisticRollback,
                },
            ),
            Work::Coprocessor { .. } => Some(CmdKind::Coprocessor),
            Work::Delay { .. } => Some(CmdKind::Empty),
            Work::Ready(Some(resp)) => Some(resp.kind()),
            Work::Ready(None) => None,
            Work::Fail(_) => None,
        }
    }

    /// The command that the work is done for, where that can be told from the work.
    pub fn command_kind(&self) -> (kind: Option<CmdKind>)
        ensures
            kind == self.kind(),
    {
        match self {
            Work::Storage(call) => Some(
                match call {
                    StorageCall::Get { .. } => CmdKind::Get,
                    StorageCall::Scan { .. } => CmdKind::Scan,
                    StorageCall::BatchGet { .. } => CmdKind::BatchGet,
                    StorageCall::DeleteRange { .. } => CmdKind::DeleteRange,
                    StorageCall::RawGet { .. } => CmdKind::RawGet,
                    StorageCall::RawBatchGet { .. } => CmdKind::RawBatchGet,
                    StorageCall::RawPut { .. } => CmdKind::RawPut,
                    StorageCall::RawBatchPut { .. } => CmdKind::RawBatchPut,
                    StorageCall::RawDelete { .. } => CmdKind::RawDelete,
                    StorageCall::RawBatchDelete { .. } => CmdKind::RawBatchDelete,
                    StorageCall::RawScan { .. } => CmdKind::RawScan,
                    StorageCall::RawBatchScan { .. } => CmdKind::RawBatchScan,
                    StorageCall::RawDeleteRange { .. } => CmdKind::RawDeleteRange,
                },
            ),
            Work::Txn { kind, request: _ } => Some(
                match kind {
                    TxnKind::Prewrite => CmdKind::Prewrite,
                    TxnKind::Commit => CmdKind::Commit,
                    TxnKind::Cleanup => CmdKind::Cleanup,
                    TxnKind::BatchRollback => CmdKind::BatchRollback,
                    TxnKind::TxnHeartBeat => CmdKind::TxnHeartBeat,
                    TxnKind::CheckTxnStatus => CmdKind::CheckTxnStatus,
                    TxnKind::CheckSecondaryLocks => CmdKind::CheckSecondaryLocks,
                    TxnKind::ScanLock => CmdKind::ScanLock,
                    TxnKind::ResolveLock => CmdKind::ResolveLock,
                    TxnKind::PessimisticLock => CmdKind::PessimisticLock,
                    TxnKind::PessimisticRollback => CmdKind::PessimisticRollback,
                },
            ),
            Work::Coprocessor { .. } => Some(CmdKind::Coprocessor),
            Work::Delay { .. } => Some(CmdKind::Empty),
            Work::Ready(Some(resp)) => Some(resp.command_kind()),
            Work::Ready(None) => None,
            Work::Fail(_) => None,
        }
    }
}

/// The client gets the response that belongs to its command: the work that serves a command is work
/// for that command, and the response that follows from a reply to that work is a response to that
/// command.
pub proof fn law_response_fits_command<W: Wire>(
    peer: Seq<char>,
    cmd: RequestCmd<W>,
    work: Work<W>,
    reply: CmdReply<W>,
    resp: ResponseCmd<W>,
)
    requires
        serves(peer, Some(cmd), work),
        work.kind() == Some(reply.kind()),
        resp.answers(caller_start_ts_of(Some(cmd)), reply),
    ensures
        resp.kind() == cmd.kind(),
{
}

/// A command that is answered without further work is answered by a response to that command.
pub proof fn law_ready_response_fits_command<W: Wire>(
    peer: Seq<char>,
    cmd: RequestCmd<W>,
    resp: ResponseCmd<W>,
)
    requires
        serves(peer, Some(cmd), Work::Ready(Some(resp))),
    ensures
        resp.kind() == cmd.kind(),
{
}

/// A region error comes alone: a response to an answer that comes down to a region error carries
/// that error and nothing else, and no other response carries one.
pub proof fn law_region_error_comes_alone<W: Wire>(
    caller_start_ts: TimeStamp,
    reply: CmdReply<W>,
    resp: ResponseCmd<W>,
)
    requires
        resp.answers(caller_start_ts, reply),
    ensures
        resp.region_error() == reply.region_error(),
        reply.region_error() is Some ==> resp.is_bare(),
{
}

/// The call by which a command can also be made outside of a batch, if there is a counted one.
pub open spec fn call_of(kind: CmdKind) -> Option<Rpc> {
    match kind {
        CmdKind::Get => Some(Rpc::KvGet),
        CmdKind::Scan => Some(Rpc::KvScan),
        CmdKind::BatchGet => Some(Rpc::KvBatchGet),
        CmdKind::DeleteRange => Some(Rpc::KvDeleteRange),
        CmdKind::RawGet => Some(Rpc::RawGet),
        CmdKind::RawBatchGet => Some(Rpc::RawBatchGet),
        CmdKind::RawPut => Some(Rpc::RawPut),
        CmdKind::RawBatchPut => Some(Rpc::RawBatchPut),
        CmdKind::RawDelete => Some(Rpc::RawDelete),
        CmdKind::RawBatchDelete => Some(Rpc::RawBatchDelete),
        CmdKind::RawScan => Some(Rpc::RawScan),
        CmdKind::RawBatchScan => Some(Rpc::RawBatchScan),
        CmdKind::RawDeleteRange => Some(Rpc::RawDeleteRange),
        CmdKind::Prewrite => Some(Rpc::KvPrewrite),
        CmdKind::Commit => Some(Rpc::KvCommit),
        CmdKind::Cleanup => Some(Rpc::KvCleanup),
        CmdKind::BatchRollback => Some(Rpc::KvBatchRollback),
        CmdKind::TxnHeartBeat => Some(Rpc::KvTxnHeartBeat),
        CmdKind::CheckTxnStatus => Some(Rpc::KvCheckTxnStatus),
        CmdKind::CheckSecondaryLocks => Some(Rpc::KvCheckSecondaryLocks),
        CmdKind::ScanLock => Some(Rpc::KvScanLock),
        CmdKind::ResolveLock => Some(Rpc::KvResolveLock),
        CmdKind::PessimisticLock => Some(Rpc::KvPessimisticLock),
        CmdKind::PessimisticRollback => Some(Rpc::KvPessimisticRollback),
        CmdKind::Coprocessor => Some(Rpc::Coprocessor),
        _ => None,
    }
}

/// A command is counted under the same label whether it comes in a batch or by itself.
pub proof fn law_commands_are_counted_alike<W: Wire>(cmd: RequestCmd<W>)
    ensures
        call_of(cmd.kind()) matches Some(rpc) ==> label_of(Some(cmd)) == rpc.label_view(),
{
}

} // verus!
