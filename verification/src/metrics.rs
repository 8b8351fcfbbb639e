//! What calls are counted under.
use vstd::prelude::*;

verus! {

#[derive(Clone, Copy, PartialEq, Eq, Structural, Debug)]
pub enum Label {
    Invalid,
    KvGet,
    KvScan,
    KvPrewrite,
    KvPessimisticLock,
    KvPessimisticRollback,
    KvCommit,
    KvCleanup,
    KvBatchGet,
    KvBatchRollback,
    KvTxnHeartBeat,
    KvCheckTxnStatus,
    KvCheckSecondaryLocks,
    KvScanLock,
    KvResolveLock,
    KvGc,
    KvDeleteRange,
    MvccGetByKey,
    MvccGetByStartTs,
    RawGet,
    RawBatchGet,
    RawScan,
    RawBatchScan,
    RawPut,
    RawBatchPut,
    RawDelete,
    RawBatchDelete,
    RawDeleteRange,
    VerGet,
    VerBatchGet,
    VerMut,
    VerBatchMut,
    VerScan,
    VerDeleteRange,
    Coprocessor,
    CoprocessorStream,
    RegisterLockObserver,
    CheckLockObserver,
    RemoveLockObserver,
    PhysicalScanLock,
    SplitRegion,
    ReadIndex,
}

/// The calls that are counted.
#[derive(Clone, Copy, PartialEq, Eq, Structural, Debug)]
pub enum Rpc {
    KvGet,
    KvScan,
    KvPrewrite,
    KvPessimisticLock,
    KvPessimisticRollback,
    KvCommit,
    KvCleanup,
    KvBatchGet,
    KvBatchRollback,
    KvTxnHeartBeat,
    KvCheckTxnStatus,
    KvCheckSecondaryLocks,
    KvScanLock,
    KvResolveLock,
    KvDeleteRange,
    MvccGetByKey,
    MvccGetByStartTs,
    RawGet,
    RawBatchGet,
    RawScan,
    RawBatchScan,
    RawPut,
    RawBatchPut,
    RawDelete,
    RawBatchDelete,
    RawDeleteRange,
    Coprocessor,
    CoprocessorStream,
    RegisterLockObserver,
    CheckLockObserver,
    RemoveLockObserver,
    PhysicalScanLock,
    UnsafeDestroyRange,
    SplitRegion,
    ReadIndex,
}

impl Rpc {
    /// What a call is counted under: its own name, but for the destruction of a range, which is
    /// counted as a scan for locks.
    pub open spec fn label_view(self) -> Label {
        match self {
            Rpc::KvGet => Label::KvGet,
            Rpc::KvScan => Label::KvScan,
            Rpc::KvPrewrite => Label::KvPrewrite,
            Rpc::KvPessimisticLock => Label::KvPessimisticLock,
            Rpc::KvPessimisticRollback => Label::KvPessimisticRollback,
            Rpc::KvCommit => Label::KvCommit,
            Rpc::KvCleanup => Label::KvCleanup,
            Rpc::KvBatchGet => Label::KvBatchGet,
            Rpc::KvBatchRollback => Label::KvBatchRollback,
            Rpc::KvTxnHeartBeat => Label::KvTxnHeartBeat,
            Rpc::KvCheckTxnStatus => Label::KvCheckTxnStatus,
            Rpc::KvCheckSecondaryLocks => Label::KvCheckSecondaryLocks,
            Rpc::KvScanLock => Label::KvScanLock,
            Rpc::KvResolveLock => Label::KvResolveLock,
            Rpc::KvDeleteRange => Label::KvDeleteRange,
            Rpc::MvccGetByKey => Label::MvccGetByKey,
            Rpc::MvccGetByStartTs => Label::MvccGetByStartTs,
            Rpc::RawGet => Label::RawGet,
            Rpc::RawBatchGet => Label::RawBatchGet,
            Rpc::RawScan => Label::RawScan,
            Rpc::RawBatchScan => Label::RawBatchScan,
            Rpc::RawPut => Label::RawPut,
            Rpc::RawBatchPut => Label::RawBatchPut,
            Rpc::RawDelete => Label::RawDelete,
            Rpc::RawBatchDelete => Label::RawBatchDelete,
            Rpc::RawDeleteRange => Label::RawDeleteRange,
            Rpc::Coprocessor => Label::Coprocessor,
            Rpc::CoprocessorStream => Label::CoprocessorStream,
            Rpc::RegisterLockObserver => Label::RegisterLockObserver,
            Rpc::CheckLockObserver => Label::CheckLockObserver,
            Rpc::RemoveLockObserver => Label::RemoveLockObserver,
            Rpc::PhysicalScanLock => Label::PhysicalScanLock,
            Rpc::UnsafeDestroyRange => Label::PhysicalScanLock,
            Rpc::SplitRegion => Label::SplitRegion,
            Rpc::ReadIndex => Label::ReadIndex,
        }
    }

    /// What a call is counted under.
    pub fn label(self) -> (label: Label)
        ensures
            label == self.label_view(),
    {
        match self {
            Rpc::KvGet => Label::KvGet,
            Rpc::KvScan => Label::KvScan,
            Rpc::KvPrewrite => Label::KvPrewrite,
            Rpc::KvPessimisticLock => Label::KvPessimisticLock,
            Rpc::KvPessimisticRollback => Label::KvPessimisticRollback,
            Rpc::KvCommit => Label::KvCommit,
            Rpc::KvCleanup => Label::KvCleanup,
            Rpc::KvBatchGet => Label::KvBatchGet,
            Rpc::KvBatchRollback => Label::KvBatchRollback,
            Rpc::KvTxnHeartBeat => Label::KvTxnHeartBeat,
            Rpc::KvCheckTxnStatus => Label::KvCheckTxnStatus,
            Rpc::KvCheckSecondaryLocks => Label::KvCheckSecondaryLocks,
            Rpc::KvScanLock => Label::KvScanLock,
            Rpc::KvResolveLock => Label::KvResolveLock,
            Rpc::KvDeleteRange => Label::KvDeleteRange,
            Rpc::MvccGetByKey => Label::MvccGetByKey,
            Rpc::MvccGetByStartTs => Label::MvccGetByStartTs,
            Rpc::RawGet => Label::RawGet,
            Rpc::RawBatchGet => Label::RawBatchGet,
            Rpc::RawScan => Label::RawScan,
            Rpc::RawBatchScan => Label::RawBatchScan,
            Rpc::RawPut => Label::RawPut,
            Rpc::RawBatchPut => Label::RawBatchPut,
            Rpc::RawDelete => Label::RawDelete,
            Rpc::RawBatchDelete => Label::RawBatchDelete,
            Rpc::RawDeleteRange => Label::RawDeleteRange,
            Rpc::Coprocessor => Label::Coprocessor,
            Rpc::CoprocessorStream => Label::CoprocessorStream,
            Rpc::RegisterLockObserver => Label::RegisterLockObserver,
            Rpc::CheckLockObserver => Label::CheckLockObserver,
            Rpc::RemoveLockObserver => Label::RemoveLockObserver,
            Rpc::PhysicalScanLock => Label::PhysicalScanLock,
            Rpc::UnsafeDestroyRange => Label::PhysicalScanLock,
            Rpc::SplitRegion => Label::SplitRegion,
            Rpc::ReadIndex => Label::ReadIndex,
        }
    }
}

} // verus!
