//! What calls and commands are counted under.
use crate::call::Call;
use crate::call::CallState;
use crate::command::command_label;
use crate::command::RequestCmd;
use crate::command::Wire;
use crate::metrics::Label;
use crate::metrics::Rpc;
use vstd::prelude::*;

verus! {

/// A call is counted under its own name when it has come in. Only the destruction of a range is
/// not: it is counted as a scan for locks.
pub proof fn law_calls_are_counted_under_their_name(rpc: Rpc, label: Label, call: Call)
    requires
        call_ensures(Rpc::label, (rpc,), label),
        call_ensures(Call::new, (rpc,), call),
    ensures
        call.label == label,
        call.state == CallState::Arrived,
        label is KvGet <==> rpc is KvGet,
        label is KvScan <==> rpc is KvScan,
        label is KvPrewrite <==> rpc is KvPrewrite,
        label is KvPessimisticLock <==> rpc is KvPessimisticLock,
        label is KvPessimisticRollback <==> rpc is KvPessimisticRollback,
        label is KvCommit <==> rpc is KvCommit,
        label is KvCleanup <==> rpc is KvCleanup,
        label is KvBatchGet <==> rpc is KvBatchGet,
        label is KvBatchRollback <==> rpc is KvBatchRollback,
        label is KvTxnHeartBeat <==> rpc is KvTxnHeartBeat,
        label is KvCheckTxnStatus <==> rpc is KvCheckTxnStatus,
        label is KvCheckSecondaryLocks <==> rpc is KvCheckSecondaryLocks,
        label is KvScanLock <==> rpc is KvScanLock,
        label is KvResolveLock <==> rpc is KvResolveLock,
        label is KvDeleteRange <==> rpc is KvDeleteRange,
        label is MvccGetByKey <==> rpc is MvccGetByKey,
        label is MvccGetByStartTs <==> rpc is MvccGetByStartTs,
        label is RawGet <==> rpc is RawGet,
        label is RawBatchGet <==> rpc is RawBatchGet,
        label is RawScan <==> rpc is RawScan,
        label is RawBatchScan <==> rpc is RawBatchScan,
        label is RawPut <==> rpc is RawPut,
        label is RawBatchPut <==> rpc is RawBatchPut,
        label is RawDelete <==> rpc is RawDelete,
        label is RawBatchDelete <==> rpc is RawBatchDelete,
        label is RawDeleteRange <==> rpc is RawDeleteRange,
        label is Coprocessor <==> rpc is Coprocessor,
        label is CoprocessorStream <==> rpc is CoprocessorStream,
        label is RegisterLockObserver <==> rpc is RegisterLockObserver,
        label is CheckLockObserver <==> rpc is CheckLockObserver,
        label is RemoveLockObserver <==> rpc is RemoveLockObserver,
        label is PhysicalScanLock <==> rpc is PhysicalScanLock || rpc is UnsafeDestroyRange,
        label is SplitRegion <==> rpc is SplitRegion,
        label is ReadIndex <==> rpc is ReadIndex,
        !(label is Invalid),
        !(label is KvGc),
{
}

/// A command of a batch is counted under its own name. What is no command at all is counted as
/// invalid, as is one that only checks that batches get through.
pub proof fn law_commands_are_counted_under_their_name<W: Wire>(
    cmd: Option<RequestCmd<W>>,
    label: Label,
)
    requires
        call_ensures(command_label::<W>, (&cmd,), label),
        !(cmd matches Some(RequestCmd::Import)),
    ensures
        label is KvGet <==> (cmd matches Some(RequestCmd::Get(_))),
        label is KvScan <==> (cmd matches Some(RequestCmd::Scan(_))),
        label is KvBatchGet <==> (cmd matches Some(RequestCmd::BatchGet(_))),
        label is KvDeleteRange <==> (cmd matches Some(RequestCmd::DeleteRange(_))),
        label is RawGet <==> (cmd matches Some(RequestCmd::RawGet(_))),
        label is RawBatchGet <==> (cmd matches Some(RequestCmd::RawBatchGet(_))),
        label is RawPut <==> (cmd matches Some(RequestCmd::RawPut(_))),
        label is RawBatchPut <==> (cmd matches Some(RequestCmd::RawBatchPut(_))),
        label is RawDelete <==> (cmd matches Some(RequestCmd::RawDelete(_))),
        label is RawBatchDelete <==> (cmd matches Some(RequestCmd::RawBatchDelete(_))),
        label is RawScan <==> (cmd matches Some(RequestCmd::RawScan(_))),
        label is RawBatchScan <==> (cmd matches Some(RequestCmd::RawBatchScan(_))),
        label is RawDeleteRange <==> (cmd matches Some(RequestCmd::RawDeleteRange(_))),
        label is KvPrewrite <==> (cmd matches Some(RequestCmd::Prewrite(_))),
        label is KvCommit <==> (cmd matches Some(RequestCmd::Commit(_))),
        label is KvCleanup <==> (cmd matches Some(RequestCmd::Cleanup(_))),
        label is KvBatchRollback <==> (cmd matches Some(RequestCmd::BatchRollback(_))),
        label is KvTxnHeartBeat <==> (cmd matches Some(RequestCmd::TxnHeartBeat(_))),
        label is KvCheckTxnStatus <==> (cmd matches Some(RequestCmd::CheckTxnStatus { .. })),
        label is KvCheckSecondaryLocks <==> (cmd matches Some(RequestCmd::CheckSecondaryLocks(_))),
        label is KvScanLock <==> (cmd matches Some(RequestCmd::ScanLock(_))),
        label is KvResolveLock <==> (cmd matches Some(RequestCmd::ResolveLock(_))),
        label is KvPessimisticLock <==> (cmd matches Some(RequestCmd::PessimisticLock(_))),
        label is KvPessimisticRollback <==> (cmd matches Some(RequestCmd::PessimisticRollback(_))),
        label is Coprocessor <==> (cmd matches Some(RequestCmd::Coprocessor(_))),
        label is KvGc <==> (cmd matches Some(RequestCmd::Gc)),
        label is VerGet <==> (cmd matches Some(RequestCmd::VerGet)),
        label is VerBatchGet <==> (cmd matches Some(RequestCmd::VerBatchGet)),
        label is VerMut <==> (cmd matches Some(RequestCmd::VerMut)),
        label is VerBatchMut <==> (cmd matches Some(RequestCmd::VerBatchMut)),
        label is VerScan <==> (cmd matches Some(RequestCmd::VerScan)),
        label is VerDeleteRange <==> (cmd matches Some(RequestCmd::VerDeleteRange)),
        label is Invalid <==> cmd is None || (cmd matches Some(RequestCmd::Empty(_))),
{
}

} // verus!
