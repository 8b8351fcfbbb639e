//! What is done for the commands of a batch, and what is made of what comes back.
use crate::command::begin_command;
use crate::command::caller_start_ts;
use crate::command::command_label;
use crate::command::complete_command;
use crate::command::handle_empty;
use crate::command::CmdKind;
use crate::command::CmdReply;
use crate::command::EmptyRequest;
use crate::command::RequestCmd;
use crate::command::ResponseCmd;
use crate::command::TxnKind;
use crate::command::Wire;
use crate::command::Work;
use crate::key::TimeStamp;
use crate::request::BatchGetRequest;
use crate::request::DeleteRangeRequest;
use crate::request::GetRequest;
use crate::request::RawBatchDeleteRequest;
use crate::request::RawBatchGetRequest;
use crate::request::RawBatchPutRequest;
use crate::request::RawBatchScanRequest;
use crate::request::RawDeleteRangeRequest;
use crate::request::RawDeleteRequest;
use crate::request::RawGetRequest;
use crate::request::RawPutRequest;
use crate::request::RawScanRequest;
use crate::request::ScanRequest;
use crate::request::StorageCall;
use crate::status::RpcStatusCode;
use vstd::prelude::*;

verus! {

/// Every command is handed on, to the storage or to the coprocessor, but for those that only check
/// that batches get through, that this service does not offer, or that have no data behind them:
/// none is answered, delayed or failed before anything was done for it.
pub proof fn law_commands_are_handed_on<W: Wire>(peer: &str, cmd: RequestCmd<W>, work: Work<W>)
    requires
        call_ensures(begin_command::<W>, (peer, Some(cmd)), work),
        !(cmd is Empty || cmd is Gc || cmd is Import),
        !(cmd is VerGet || cmd is VerBatchGet || cmd is VerMut || cmd is VerBatchMut),
        !(cmd is VerScan || cmd is VerDeleteRange),
    ensures
        work is Storage || work is Txn || work is Coprocessor,
        work is Coprocessor <==> cmd is Coprocessor,
{
}

/// A transactional command is handed to the storage as what it is, together with the very request
/// that came in.
pub proof fn law_transactional_commands_keep_their_request<W: Wire>(
    peer: &str,
    cmd: RequestCmd<W>,
    work: Work<W>,
)
    requires
        call_ensures(begin_command::<W>, (peer, Some(cmd)), work),
    ensures
        cmd matches RequestCmd::Prewrite(asked) ==> (work matches Work::Txn { kind, request }
            && kind is Prewrite && request == asked),
        cmd matches RequestCmd::Commit(asked) ==> (work matches Work::Txn { kind, request }
            && kind is Commit && request == asked),
        cmd matches RequestCmd::Cleanup(asked) ==> (work matches Work::Txn { kind, request }
            && kind is Cleanup && request == asked),
        cmd matches RequestCmd::BatchRollback(asked) ==> (work matches Work::Txn { kind, request }
            && kind is BatchRollback && request == asked),
        cmd matches RequestCmd::TxnHeartBeat(asked) ==> (work matches Work::Txn { kind, request }
            && kind is TxnHeartBeat && request == asked),
        cmd matches RequestCmd::CheckTxnStatus { caller_start_ts: _, request: asked }
            ==> (work matches Work::Txn { kind, request }
            && kind is CheckTxnStatus && request == asked),
        cmd matches RequestCmd::CheckSecondaryLocks(asked)
            ==> (work matches Work::Txn { kind, request }
            && kind is CheckSecondaryLocks && request == asked),
        cmd matches RequestCmd::ScanLock(asked) ==> (work matches Work::Txn { kind, request }
            && kind is ScanLock && request == asked),
        cmd matches RequestCmd::ResolveLock(asked) ==> (work matches Work::Txn { kind, request }
            && kind is ResolveLock && request == asked),
        cmd matches RequestCmd::PessimisticLock(asked) ==> (work matches Work::Txn { kind, request }
            && kind is PessimisticLock && request == asked),
        cmd matches RequestCmd::PessimisticRollback(asked)
            ==> (work matches Work::Txn { kind, request }
            && kind is PessimisticRollback && request == asked),
{
}

/// The work tells which transactional command it is for: two commands that are handed on as the same
/// work are the same command with the same request. Checks of a transaction are left aside, since
/// when their caller reads is no part of the work.
pub proof fn law_transactional_commands_are_told_apart<W: Wire>(
    peer: &str,
    cmd: RequestCmd<W>,
    other: RequestCmd<W>,
    work: Work<W>,
)
    requires
        call_ensures(begin_command::<W>, (peer, Some(cmd)), work),
        call_ensures(begin_command::<W>, (peer, Some(other)), work),
        work is Txn,
        !(cmd is CheckTxnStatus || cmd is Import),
        !(other is CheckTxnStatus || other is Import),
    ensures
        cmd == other,
{
}

/// A read that comes in a batch asks the storage for just what the client named.
pub proof fn law_get_command_asks_for_what_was_named<W: Wire>(
    peer: &str,
    request: GetRequest<W::Context>,
    work: Work<W>,
)
    requires
        call_ensures(begin_command::<W>, (peer, Some(RequestCmd::Get(request))), work),
    ensures
        ({
            &&& work matches Work::Storage(StorageCall::Get { context, key, start_ts })
            &&& context == request.context
            &&& key.raw == request.key
            &&& start_ts.inner == request.version
        }),
{
}

/// A scan that comes in a batch asks the storage for just what the client named.
pub proof fn law_scan_command_asks_for_what_was_named<W: Wire>(
    peer: &str,
    request: ScanRequest<W::Context>,
    work: Work<W>,
)
    requires
        call_ensures(begin_command::<W>, (peer, Some(RequestCmd::Scan(request))), work),
    ensures
        ({
            &&& work matches Work::Storage(StorageCall::Scan {
                context,
                start_key,
                end_key,
                limit,
                sample_step,
                start_ts,
                key_only,
                reverse,
            })
            &&& context == request.context
            &&& start_key.raw == request.start_key
            &&& end_key is Some <==> request.end_key@.len() > 0
            &&& end_key is Some ==> end_key->0.raw == request.end_key
            &&& limit == request.limit
            &&& sample_step == request.sample_step
            &&& start_ts.inner == request.version
            &&& key_only == request.key_only
            &&& reverse == request.reverse
        }),
{
}

/// A read of several keys that comes in a batch asks the storage for just what the client named.
pub proof fn law_batch_get_command_asks_for_what_was_named<W: Wire>(
    peer: &str,
    request: BatchGetRequest<W::Context>,
    work: Work<W>,
)
    requires
        call_ensures(begin_command::<W>, (peer, Some(RequestCmd::BatchGet(request))), work),
    ensures
        ({
            &&& work matches Work::Storage(StorageCall::BatchGet { context, keys, start_ts })
            &&& context == request.context
            &&& keys@.len() == request.keys@.len()
            &&& forall|i: int|
                0 <= i < keys@.len() ==> (#[trigger] keys@[i]).raw == request.keys@[i]
            &&& start_ts.inner == request.version
        }),
{
}

/// A deletion of a range that comes in a batch asks the storage for just what the client named.
pub proof fn law_delete_range_command_asks_for_what_was_named<W: Wire>(
    peer: &str,
    request: DeleteRangeRequest<W::Context>,
    work: Work<W>,
)
    requires
        call_ensures(begin_command::<W>, (peer, Some(RequestCmd::DeleteRange(request))), work),
    ensures
        ({
            &&& work matches Work::Storage(StorageCall::DeleteRange {
                context,
                start_key,
                end_key,
                notify_only,
            })
            &&& context == request.context
            &&& start_key.raw == request.start_key
            &&& end_key.raw == request.end_key
            &&& notify_only == request.notify_only
        }),
{
}

/// A raw read that comes in a batch asks the storage for just what the client named.
pub proof fn law_raw_get_command_asks_for_what_was_named<W: Wire>(
    peer: &str,
    request: RawGetRequest<W::Context>,
    work: Work<W>,
)
    requires
        call_ensures(begin_command::<W>, (peer, Some(RequestCmd::RawGet(request))), work),
    ensures
        ({
            &&& work matches Work::Storage(StorageCall::RawGet { context, cf, key })
            &&& context == request.context
            &&& cf == request.cf
            &&& key == request.key
        }),
{
}

/// A raw read of several keys that comes in a batch asks the storage for just what the client
/// named.
pub proof fn law_raw_batch_get_command_asks_for_what_was_named<W: Wire>(
    peer: &str,
    request: RawBatchGetRequest<W::Context>,
    work: Work<W>,
)
    requires
        call_ensures(begin_command::<W>, (peer, Some(RequestCmd::RawBatchGet(request))), work),
    ensures
        ({
            &&& work matches Work::Storage(StorageCall::RawBatchGet { context, cf, keys })
            &&& context == request.context
            &&& cf == request.cf
            &&& keys@.len() == request.keys@.len()
            &&& forall|i: int| 0 <= i < keys@.len() ==> #[trigger] keys@[i] == request.keys@[i]
        }),
{
}

/// A raw write that comes in a batch asks the storage for just what the client named.
pub proof fn law_raw_put_command_asks_for_what_was_named<W: Wire>(
    peer: &str,
    request: RawPutRequest<W::Context>,
    work: Work<W>,
)
    requires
        call_ensures(begin_command::<W>, (peer, Some(RequestCmd::RawPut(request))), work),
    ensures
        ({
            &&& work matches Work::Storage(StorageCall::RawPut { context, cf, key, value })
            &&& context == request.context
            &&& cf == request.cf
            &&& key == request.key
            &&& value == request.value
        }),
{
}

/// A raw write of several pairs that comes in a batch asks the storage for just what the client
/// named.
pub proof fn law_raw_batch_put_command_asks_for_what_was_named<W: Wire>(
    peer: &str,
    request: RawBatchPutRequest<W::Context>,
    work: Work<W>,
)
    requires
        call_ensures(begin_command::<W>, (peer, Some(RequestCmd::RawBatchPut(request))), work),
    ensures
        ({
            &&& work matches Work::Storage(StorageCall::RawBatchPut { context, cf, pairs })
            &&& context == request.context
            &&& cf == request.cf
            &&& pairs@.len() == request.pairs@.len()
            &&& forall|i: int|
                0 <= i < pairs@.len() ==> (#[trigger] pairs@[i]).0 == request.pairs@[i].key
                    && pairs@[i].1 == request.pairs@[i].value
        }),
{
}

/// A raw deletion that comes in a batch asks the storage for just what the client named.
pub proof fn law_raw_delete_command_asks_for_what_was_named<W: Wire>(
    peer: &str,
    request: RawDeleteRequest<W::Context>,
    work: Work<W>,
)
    requires
        call_ensures(begin_command::<W>, (peer, Some(RequestCmd::RawDelete(request))), work),
    ensures
        ({
            &&& work matches Work::Storage(StorageCall::RawDelete { context, cf, key })
            &&& context == request.context
            &&& cf == request.cf
            &&& key == request.key
        }),
{
}

/// A raw deletion of several keys that comes in a batch asks the storage for just what the client
/// named.
pub proof fn law_raw_batch_delete_command_asks_for_what_was_named<W: Wire>(
    peer: &str,
    request: RawBatchDeleteRequest<W::Context>,
    work: Work<W>,
)
    requires
        call_ensures(begin_command::<W>, (peer, Some(RequestCmd::RawBatchDelete(request))), work),
    ensures
        ({
            &&& work matches Work::Storage(StorageCall::RawBatchDelete { context, cf, keys })
            &&& context == request.context
            &&& cf == request.cf
            &&& keys@.len() == request.keys@.len()
            &&& forall|i: int| 0 <= i < keys@.len() ==> #[trigger] keys@[i] == request.keys@[i]
        }),
{
}

/// A raw scan that comes in a batch asks the storage for just what the client named.
pub proof fn law_raw_scan_command_asks_for_what_was_named<W: Wire>(
    peer: &str,
    request: RawScanRequest<W::Context>,
    work: Work<W>,
)
    requires
        call_ensures(begin_command::<W>, (peer, Some(RequestCmd::RawScan(request))), work),
    ensures
        ({
            &&& work matches Work::Storage(StorageCall::RawScan {
                context,
                cf,
                start_key,
                end_key,
                limit,
                key_only,
                reverse,
            })
            &&& context == request.context
            &&& cf == request.cf
            &&& start_key == request.start_key
            &&& end_key is Some <==> request.end_key@.len() > 0
            &&& end_key is Some ==> end_key->0 == request.end_key
            &&& limit == request.limit
            &&& key_only == request.key_only
            &&& reverse == request.reverse
        }),
{
}

/// A raw scan of several ranges that comes in a batch asks the storage for just what the client
/// named.
pub proof fn law_raw_batch_scan_command_asks_for_what_was_named<W: Wire>(
    peer: &str,
    request: RawBatchScanRequest<W::Context>,
    work: Work<W>,
)
    requires
        call_ensures(begin_command::<W>, (peer, Some(RequestCmd::RawBatchScan(request))), work),
    ensures
        ({
            &&& work matches Work::Storage(StorageCall::RawBatchScan {
                context,
                cf,
                ranges,
                each_limit,
                key_only,
                reverse,
            })
            &&& context == request.context
            &&& cf == request.cf
            &&& ranges@.len() == request.ranges@.len()
            &&& forall|i: int|
                0 <= i < ranges@.len() ==> #[trigger] ranges@[i] == request.ranges@[i]
            &&& each_limit == request.each_limit
            &&& key_only == request.key_only
            &&& reverse == request.reverse
        }),
{
}

/// A raw deletion of a range that comes in a batch asks the storage for just what the client named.
pub proof fn law_raw_delete_range_command_asks_for_what_was_named<W: Wire>(
    peer: &str,
    request: RawDeleteRangeRequest<W::Context>,
    work: Work<W>,
)
    requires
        call_ensures(begin_command::<W>, (peer, Some(RequestCmd::RawDeleteRange(request))), work),
    ensures
        ({
            &&& work matches Work::Storage(StorageCall::RawDeleteRange {
                context,
                cf,
                start_key,
                end_key,
            })
            &&& context == request.context
            &&& cf == request.cf
            &&& start_key == request.start_key
            &&& end_key == request.end_key
        }),
{
}

/// A request to the coprocessor is handed on as it came in, and so is the name of the client.
pub proof fn law_coprocessor_learns_who_asks<W: Wire>(
    peer: &str,
    asked: W::CopRequest,
    work: Work<W>,
)
    requires
        call_ensures(begin_command::<W>, (peer, Some(RequestCmd::Coprocessor(asked))), work),
    ensures
        ({
            &&& work matches Work::Coprocessor { peer: Some(name), request }
            &&& name@ == peer@
            &&& request == asked
        }),
{
}

/// A check that batches get through is answered under its own id, at once where it asks for less
/// than 10 milliseconds, and otherwise after as long as it asks for. It makes no difference whether
/// it comes in a batch or not.
pub proof fn law_checks_are_answered_after_their_delay<W: Wire>(
    peer: &str,
    request: EmptyRequest,
    work: Work<W>,
)
    requires
        call_ensures(begin_command::<W>, (peer, Some(RequestCmd::Empty(request))), work)
            || call_ensures(handle_empty::<W>, (request,), work),
    ensures
        work is Delay <==> request.delay_time >= 10,
        work is Ready <==> request.delay_time < 10,
        work matches Work::Delay { millis, response } ==> millis == request.delay_time
            && response.test_id == request.test_id,
        work matches Work::Ready(answer) ==> (answer matches Some(ResponseCmd::Empty(response))
            && response.test_id == request.test_id),
{
}

/// What is no command at all is answered by nothing, and a command that this service does not offer
/// ends with a status that says just that.
pub proof fn law_no_command_no_response<W: Wire>(
    peer: &str,
    nothing: Work<W>,
    unoffered: Work<W>,
)
    requires
        call_ensures(begin_command::<W>, (peer, None), nothing),
        call_ensures(begin_command::<W>, (peer, Some(RequestCmd::Gc)), unoffered),
    ensures
        nothing matches Work::Ready(resp) && resp is None,
        unoffered matches Work::Fail(status) && status.status == RpcStatusCode::Unimplemented
            && status.details is None,
{
}

/// A command that has no data behind it is answered at once by the empty response to that command.
pub proof fn law_commands_without_data_are_answered_at_once<W: Wire>(
    peer: &str,
    cmd: RequestCmd<W>,
    work: Work<W>,
)
    requires
        call_ensures(begin_command::<W>, (peer, Some(cmd)), work),
    ensures
        cmd is VerGet ==> (work matches Work::Ready(Some(resp)) && resp is VerGet),
        cmd is VerBatchGet ==> (work matches Work::Ready(Some(resp)) && resp is VerBatchGet),
        cmd is VerMut ==> (work matches Work::Ready(Some(resp)) && resp is VerMut),
        cmd is VerBatchMut ==> (work matches Work::Ready(Some(resp)) && resp is VerBatchMut),
        cmd is VerScan ==> (work matches Work::Ready(Some(resp)) && resp is VerScan),
        cmd is VerDeleteRange ==> (work matches Work::Ready(Some(resp)) && resp is VerDeleteRange),
{
}

/// Any command may come in a batch but one to import data.
pub proof fn law_all_but_imports_are_served<W: Wire>(peer: &str, cmd: Option<RequestCmd<W>>)
    requires
        !(cmd matches Some(RequestCmd::Import)),
    ensures
        call_requires(begin_command::<W>, (peer, cmd)),
        call_requires(command_label::<W>, (&cmd,)),
{
}

/// Only a check of a transaction tells when its caller reads.
pub proof fn law_only_checks_tell_when_their_caller_reads<W: Wire>(
    cmd: Option<RequestCmd<W>>,
    ts: TimeStamp,
)
    requires
        call_ensures(caller_start_ts::<W>, (&cmd,), ts),
    ensures
        cmd matches Some(RequestCmd::CheckTxnStatus { caller_start_ts: told, request: _ })
            ==> ts.inner == told,
        !(cmd matches Some(RequestCmd::CheckTxnStatus { .. })) ==> ts.inner == 0,
{
}

/// What came back for a command becomes the response to that very command, and to no other. The
/// responses of the coprocessor go out as they came back.
pub proof fn law_replies_become_their_responses<W: Wire>(
    caller_start_ts: TimeStamp,
    answer: CmdReply<W>,
    done: ResponseCmd<W>,
)
    requires
        call_ensures(complete_command::<W>, (caller_start_ts, answer), done),
    ensures
        answer matches CmdReply::Get(reply) ==> (done matches ResponseCmd::Get(resp)
            && resp.answers(reply)),
        answer matches CmdReply::Scan(reply) ==> (done matches ResponseCmd::Scan(resp)
            && resp.answers(reply)),
        answer matches CmdReply::BatchGet(reply) ==> (done matches ResponseCmd::BatchGet(resp)
            && resp.answers(reply)),
        answer matches CmdReply::DeleteRange(reply) ==> (done matches ResponseCmd::DeleteRange(resp)
            && resp.answers(reply)),
        answer matches CmdReply::RawGet(reply) ==> (done matches ResponseCmd::RawGet(resp)
            && resp.answers(reply)),
        answer matches CmdReply::RawBatchGet(reply) ==> (done matches ResponseCmd::RawBatchGet(resp)
            && resp.answers(reply)),
        answer matches CmdReply::RawPut(reply) ==> (done matches ResponseCmd::RawPut(resp)
            && resp.answers(reply)),
        answer matches CmdReply::RawBatchPut(reply) ==> (done matches ResponseCmd::RawBatchPut(resp)
            && resp.answers(reply)),
        answer matches CmdReply::RawDelete(reply) ==> (done matches ResponseCmd::RawDelete(resp)
            && resp.answers(reply)),
        answer matches CmdReply::RawBatchDelete(reply)
            ==> (done matches ResponseCmd::RawBatchDelete(resp)
            && resp.answers(reply)),
        answer matches CmdReply::RawScan(reply) ==> (done matches ResponseCmd::RawScan(resp)
            && resp.answers(reply)),
        answer matches CmdReply::RawBatchScan(reply)
            ==> (done matches ResponseCmd::RawBatchScan(resp)
            && resp.answers(reply)),
        answer matches CmdReply::RawDeleteRange(reply)
            ==> (done matches ResponseCmd::RawDeleteRange(resp)
            && resp.answers(reply)),
        answer matches CmdReply::Prewrite(reply) ==> (done matches ResponseCmd::Prewrite(resp)
            && resp.answers(reply)),
        answer matches CmdReply::Commit(reply) ==> (done matches ResponseCmd::Commit(resp)
            && resp.answers(reply)),
        answer matches CmdReply::Cleanup(reply) ==> (done matches ResponseCmd::Cleanup(resp)
            && resp.answers(reply)),
        answer matches CmdReply::BatchRollback(reply)
            ==> (done matches ResponseCmd::BatchRollback(resp)
            && resp.answers(reply)),
        answer matches CmdReply::TxnHeartBeat(reply)
            ==> (done matches ResponseCmd::TxnHeartBeat(resp)
            && resp.answers(reply)),
        answer matches CmdReply::CheckTxnStatus(reply)
            ==> (done matches ResponseCmd::CheckTxnStatus(resp)
            && resp.answers(caller_start_ts, reply)),
        answer matches CmdReply::CheckSecondaryLocks(reply)
            ==> (done matches ResponseCmd::CheckSecondaryLocks(resp)
            && resp.answers(reply)),
        answer matches CmdReply::ScanLock(reply) ==> (done matches ResponseCmd::ScanLock(resp)
            && resp.answers(reply)),
        answer matches CmdReply::ResolveLock(reply) ==> (done matches ResponseCmd::ResolveLock(resp)
            && resp.answers(reply)),
        answer matches CmdReply::PessimisticLock(reply)
            ==> (done matches ResponseCmd::PessimisticLock(resp)
            && resp.answers(reply)),
        answer matches CmdReply::PessimisticRollback(reply)
            ==> (done matches ResponseCmd::PessimisticRollback(resp)
            && resp.answers(reply)),
        answer matches CmdReply::Coprocessor(reply) ==> (done matches ResponseCmd::Coprocessor(resp)
            && resp == reply),
        answer matches CmdReply::Empty(reply) ==> (done matches ResponseCmd::Empty(resp)
            && resp == reply),
{
}

/// Every reply can be completed, and is found sound, unless it says that a transaction was
/// committed or kept alive and that it is in another state all the same.
pub proof fn law_only_contradictions_are_unsound<W: Wire>(
    caller_start_ts: TimeStamp,
    answer: CmdReply<W>,
    sound: bool,
)
    requires
        call_ensures(CmdReply::<W>::check, (&answer,), sound),
    ensures
        !sound <==> {
            ||| answer matches CmdReply::Commit(reply) && reply.region_error is None
                && (reply.result matches Ok(status) && !(status is Committed))
            ||| answer matches CmdReply::TxnHeartBeat(reply) && reply.region_error is None
                && (reply.result matches Ok(status) && !(status is Uncommitted))
        },
        sound ==> call_requires(complete_command::<W>, (caller_start_ts, answer)),
{
}

/// A reply is a reply to the command whose name it has.
pub proof fn law_replies_name_their_command<W: Wire>(it: CmdReply<W>, kind: CmdKind)
    requires
        call_ensures(CmdReply::<W>::command_kind, (&it,), kind),
    ensures
        kind is Get <==> it is Get,
        kind is Scan <==> it is Scan,
        kind is BatchGet <==> it is BatchGet,
        kind is DeleteRange <==> it is DeleteRange,
        kind is RawGet <==> it is RawGet,
        kind is RawBatchGet <==> it is RawBatchGet,
        kind is RawPut <==> it is RawPut,
        kind is RawBatchPut <==> it is RawBatchPut,
        kind is RawDelete <==> it is RawDelete,
        kind is RawBatchDelete <==> it is RawBatchDelete,
        kind is RawScan <==> it is RawScan,
        kind is RawBatchScan <==> it is RawBatchScan,
        kind is RawDeleteRange <==> it is RawDeleteRange,
        kind is Prewrite <==> it is Prewrite,
        kind is Commit <==> it is Commit,
        kind is Cleanup <==> it is Cleanup,
        kind is BatchRollback <==> it is BatchRollback,
        kind is TxnHeartBeat <==> it is TxnHeartBeat,
        kind is CheckTxnStatus <==> it is CheckTxnStatus,
        kind is CheckSecondaryLocks <==> it is CheckSecondaryLocks,
        kind is ScanLock <==> it is ScanLock,
        kind is ResolveLock <==> it is ResolveLock,
        kind is PessimisticLock <==> it is PessimisticLock,
        kind is PessimisticRollback <==> it is PessimisticRollback,
        kind is Coprocessor <==> it is Coprocessor,
        kind is Empty <==> it is Empty,
{
}

/// A response is a response to the command whose name it has.
pub proof fn law_responses_name_their_command<W: Wire>(it: ResponseCmd<W>, kind: CmdKind)
    requires
        call_ensures(ResponseCmd::<W>::command_kind, (&it,), kind),
    ensures
        kind is Get <==> it is Get,
        kind is Scan <==> it is Scan,
        kind is BatchGet <==> it is BatchGet,
        kind is DeleteRange <==> it is DeleteRange,
        kind is RawGet <==> it is RawGet,
        kind is RawBatchGet <==> it is RawBatchGet,
        kind is RawPut <==> it is RawPut,
        kind is RawBatchPut <==> it is RawBatchPut,
        kind is RawDelete <==> it is RawDelete,
        kind is RawBatchDelete <==> it is RawBatchDelete,
        kind is RawScan <==> it is RawScan,
        kind is RawBatchScan <==> it is RawBatchScan,
        kind is RawDeleteRange <==> it is RawDeleteRange,
        kind is Prewrite <==> it is Prewrite,
        kind is Commit <==> it is Commit,
        kind is Cleanup <==> it is Cleanup,
        kind is BatchRollback <==> it is BatchRollback,
        kind is TxnHeartBeat <==> it is TxnHeartBeat,
        kind is CheckTxnStatus <==> it is CheckTxnStatus,
        kind is CheckSecondaryLocks <==> it is CheckSecondaryLocks,
        kind is ScanLock <==> it is ScanLock,
        kind is ResolveLock <==> it is ResolveLock,
        kind is PessimisticLock <==> it is PessimisticLock,
        kind is PessimisticRollback <==> it is PessimisticRollback,
        kind is Coprocessor <==> it is Coprocessor,
        kind is Empty <==> it is Empty,
        kind is VerGet <==> it is VerGet,
        kind is VerBatchGet <==> it is VerBatchGet,
        kind is VerMut <==> it is VerMut,
        kind is VerBatchMut <==> it is VerBatchMut,
        kind is VerScan <==> it is VerScan,
        kind is VerDeleteRange <==> it is VerDeleteRange,
{
}

/// Work is done for the command that the call, the transactional command or the response belongs
/// to, and for none where there is no response.
pub proof fn law_work_names_its_command<W: Wire>(work: Work<W>, kind: Option<CmdKind>)
    requires
        call_ensures(Work::<W>::command_kind, (&work,), kind),
    ensures
        (work matches Work::Storage(StorageCall::Get { .. })) ==> kind == Some(CmdKind::Get),
        (work matches Work::Storage(StorageCall::Scan { .. })) ==> kind == Some(CmdKind::Scan),
        (work matches Work::Storage(StorageCall::BatchGet { .. }))
            ==> kind == Some(CmdKind::BatchGet),
        (work matches Work::Storage(StorageCall::DeleteRange { .. }))
            ==> kind == Some(CmdKind::DeleteRange),
        (work matches Work::Storage(StorageCall::RawGet { .. })) ==> kind == Some(CmdKind::RawGet),
        (work matches Work::Storage(StorageCall::RawBatchGet { .. }))
            ==> kind == Some(CmdKind::RawBatchGet),
        (work matches Work::Storage(StorageCall::RawPut { .. })) ==> kind == Some(CmdKind::RawPut),
        (work matches Work::Storage(StorageCall::RawBatchPut { .. }))
            ==> kind == Some(CmdKind::RawBatchPut),
        (work matches Work::Storage(StorageCall::RawDelete { .. }))
            ==> kind == Some(CmdKind::RawDelete),
        (work matches Work::Storage(StorageCall::RawBatchDelete { .. }))
            ==> kind == Some(CmdKind::RawBatchDelete),
        (work matches Work::Storage(StorageCall::RawScan { .. }))
            ==> kind == Some(CmdKind::RawScan),
        (work matches Work::Storage(StorageCall::RawBatchScan { .. }))
            ==> kind == Some(CmdKind::RawBatchScan),
        (work matches Work::Storage(StorageCall::RawDeleteRange { .. }))
            ==> kind == Some(CmdKind::RawDeleteRange),
        (work matches Work::Txn { kind: TxnKind::Prewrite, .. })
            ==> kind == Some(CmdKind::Prewrite),
        (work matches Work::Txn { kind: TxnKind::Commit, .. }) ==> kind == Some(CmdKind::Commit),
        (work matches Work::Txn { kind: TxnKind::Cleanup, .. }) ==> kind == Some(CmdKind::Cleanup),
        (work matches Work::Txn { kind: TxnKind::BatchRollback, .. })
            ==> kind == Some(CmdKind::BatchRollback),
        (work matches Work::Txn { kind: TxnKind::TxnHeartBeat, .. })
            ==> kind == Some(CmdKind::TxnHeartBeat),
        (work matches Work::Txn { kind: TxnKind::CheckTxnStatus, .. })
            ==> kind == Some(CmdKind::CheckTxnStatus),
        (work matches Work::Txn { kind: TxnKind::CheckSecondaryLocks, .. })
            ==> kind == Some(CmdKind::CheckSecondaryLocks),
        (work matches Work::Txn { kind: TxnKind::ScanLock, .. })
            ==> kind == Some(CmdKind::ScanLock),
        (work matches Work::Txn { kind: TxnKind::ResolveLock, .. })
            ==> kind == Some(CmdKind::ResolveLock),
        (work matches Work::Txn { kind: TxnKind::PessimisticLock, .. })
            ==> kind == Some(CmdKind::PessimisticLock),
        (work matches Work::Txn { kind: TxnKind::PessimisticRollback, .. })
            ==> kind == Some(CmdKind::PessimisticRollback),
        work is Coprocessor ==> kind == Some(CmdKind::Coprocessor),
        work is Delay ==> kind == Some(CmdKind::Empty),
        (work matches Work::Ready(Some(ResponseCmd::Get(_)))) ==> kind == Some(CmdKind::Get),
        (work matches Work::Ready(Some(ResponseCmd::Scan(_)))) ==> kind == Some(CmdKind::Scan),
        (work matches Work::Ready(Some(ResponseCmd::BatchGet(_))))
            ==> kind == Some(CmdKind::BatchGet),
        (work matches Work::Ready(Some(ResponseCmd::DeleteRange(_))))
            ==> kind == Some(CmdKind::DeleteRange),
        (work matches Work::Ready(Some(ResponseCmd::RawGet(_)))) ==> kind == Some(CmdKind::RawGet),
        (work matches Work::Ready(Some(ResponseCmd::RawBatchGet(_))))
            ==> kind == Some(CmdKind::RawBatchGet),
        (work matches Work::Ready(Some(ResponseCmd::RawPut(_)))) ==> kind == Some(CmdKind::RawPut),
        (work matches Work::Ready(Some(ResponseCmd::RawBatchPut(_))))
            ==> kind == Some(CmdKind::RawBatchPut),
        (work matches Work::Ready(Some(ResponseCmd::RawDelete(_))))
            ==> kind == Some(CmdKind::RawDelete),
        (work matches Work::Ready(Some(ResponseCmd::RawBatchDelete(_))))
            ==> kind == Some(CmdKind::RawBatchDelete),
        (work matches Work::Ready(Some(ResponseCmd::RawScan(_))))
            ==> kind == Some(CmdKind::RawScan),
        (work matches Work::Ready(Some(ResponseCmd::RawBatchScan(_))))
            ==> kind == Some(CmdKind::RawBatchScan),
        (work matches Work::Ready(Some(ResponseCmd::RawDeleteRange(_))))
            ==> kind == Some(CmdKind::RawDeleteRange),
        (work matches Work::Ready(Some(ResponseCmd::Prewrite(_))))
            ==> kind == Some(CmdKind::Prewrite),
        (work matches Work::Ready(Some(ResponseCmd::Commit(_)))) ==> kind == Some(CmdKind::Commit),
        (work matches Work::Ready(Some(ResponseCmd::Cleanup(_))))
            ==> kind == Some(CmdKind::Cleanup),
        (work matches Work::Ready(Some(ResponseCmd::BatchRollback(_))))
            ==> kind == Some(CmdKind::BatchRollback),
        (work matches Work::Ready(Some(ResponseCmd::TxnHeartBeat(_))))
            ==> kind == Some(CmdKind::TxnHeartBeat),
        (work matches Work::Ready(Some(ResponseCmd::CheckTxnStatus(_))))
            ==> kind == Some(CmdKind::CheckTxnStatus),
        (work matches Work::Ready(Some(ResponseCmd::CheckSecondaryLocks(_))))
            ==> kind == Some(CmdKind::CheckSecondaryLocks),
        (work matches Work::Ready(Some(ResponseCmd::ScanLock(_))))
            ==> kind == Some(CmdKind::ScanLock),
        (work matches Work::Ready(Some(ResponseCmd::ResolveLock(_))))
            ==> kind == Some(CmdKind::ResolveLock),
        (work matches Work::Ready(Some(ResponseCmd::PessimisticLock(_))))
            ==> kind == Some(CmdKind::PessimisticLock),
        (work matches Work::Ready(Some(ResponseCmd::PessimisticRollback(_))))
            ==> kind == Some(CmdKind::PessimisticRollback),
        (work matches Work::Ready(Some(ResponseCmd::Coprocessor(_))))
            ==> kind == Some(CmdKind::Coprocessor),
        (work matches Work::Ready(Some(ResponseCmd::Empty(_)))) ==> kind == Some(CmdKind::Empty),
        (work matches Work::Ready(Some(ResponseCmd::VerGet))) ==> kind == Some(CmdKind::VerGet),
        (work matches Work::Ready(Some(ResponseCmd::VerBatchGet)))
            ==> kind == Some(CmdKind::VerBatchGet),
        (work matches Work::Ready(Some(ResponseCmd::VerMut))) ==> kind == Some(CmdKind::VerMut),
        (work matches Work::Ready(Some(ResponseCmd::VerBatchMut)))
            ==> kind == Some(CmdKind::VerBatchMut),
        (work matches Work::Ready(Some(ResponseCmd::VerScan))) ==> kind == Some(CmdKind::VerScan),
        (work matches Work::Ready(Some(ResponseCmd::VerDeleteRange)))
            ==> kind == Some(CmdKind::VerDeleteRange),
        (work matches Work::Ready(None)) ==> kind is None,
        work is Fail ==> kind is None,
{
}

} // verus!
