//! What the storage is asked for, request by request.
use crate::key::keys_from_raw;
use crate::key::Key;
use crate::key::TimeStamp;
use crate::request::BatchGetRequest;
use crate::request::DeleteRangeRequest;
use crate::request::GetRequest;
use crate::request::RawBatchDeleteRequest;
use crate::request::RawBatchGetRequest;
use crate::request::RawBatchPutRequest;
use crate::request::RawBatchScanRequest;
use crate::request::RawDeleteRangeRequest;
use crate::request::RawDeleteRequest;
use crate::request::RawGetRequest;
use crate::request::RawPutRequest;
use crate::request::RawScanRequest;
use crate::request::ScanRequest;
use crate::request::StorageCall;
use vstd::prelude::*;

verus! {

/// A read asks for the key that the client named, at the version that it named, where it meant the
/// request to go.
pub proof fn law_get_reads_its_key_at_its_version<C>(request: GetRequest<C>, call: StorageCall<C>)
    requires
        call_ensures(GetRequest::<C>::into_call, (request,), call) || request.asks(call),
    ensures
        ({
            &&& call matches StorageCall::Get { context, key, start_ts }
            &&& context == request.context
            &&& key.raw == request.key
            &&& start_ts.inner == request.version
        }),
{
}

/// A scan asks for the range, the direction, the bounds and the version that the client named. The
/// range has an end exactly if the client gave a key for it, and that key is the end.
pub proof fn law_scan_covers_its_range<C>(request: ScanRequest<C>, call: StorageCall<C>)
    requires
        call_ensures(ScanRequest::<C>::into_call, (request,), call) || request.asks(call),
    ensures
        ({
            &&& call matches StorageCall::Scan {
                context,
                start_key,
                end_key,
                limit,
                sample_step,
                start_ts,
                key_only,
                reverse,
            }
            &&& context == request.context
            &&& start_key.raw == request.start_key
            &&& end_key is Some <==> request.end_key@.len() > 0
            &&& end_key is Some ==> end_key->0.raw == request.end_key
            &&& limit == request.limit
            &&& sample_step == request.sample_step
            &&& start_ts.inner == request.version
            &&& key_only == request.key_only
            &&& reverse == request.reverse
        }),
{
}

/// A read of several keys asks for as many keys as the client named, the same one at each place, at
/// the version that it named.
pub proof fn law_batch_get_reads_every_key<C>(request: BatchGetRequest<C>, call: StorageCall<C>)
    requires
        call_ensures(BatchGetRequest::<C>::into_call, (request,), call) || request.asks(call),
    ensures
        ({
            &&& call matches StorageCall::BatchGet { context, keys, start_ts }
            &&& context == request.context
            &&& keys@.len() == request.keys@.len()
            &&& forall|i: int|
                0 <= i < keys@.len() ==> (#[trigger] keys@[i]).raw == request.keys@[i]
            &&& start_ts.inner == request.version
        }),
{
}

/// A deletion of a range asks for the range that the client named, and only notifies exactly if the
/// client said so.
pub proof fn law_delete_range_deletes_its_range<C>(
    request: DeleteRangeRequest<C>,
    call: StorageCall<C>,
)
    requires
        call_ensures(DeleteRangeRequest::<C>::into_call, (request,), call) || request.asks(call),
    ensures
        ({
            &&& call matches StorageCall::DeleteRange { context, start_key, end_key, notify_only }
            &&& context == request.context
            &&& start_key.raw == request.start_key
            &&& end_key.raw == request.end_key
            &&& notify_only == request.notify_only
        }),
{
}

/// A raw read asks for the key and the column family that the client named.
pub proof fn law_raw_get_reads_its_key<C>(request: RawGetRequest<C>, call: StorageCall<C>)
    requires
        call_ensures(RawGetRequest::<C>::into_call, (request,), call) || request.asks(call),
    ensures
        ({
            &&& call matches StorageCall::RawGet { context, cf, key }
            &&& context == request.context
            &&& cf == request.cf
            &&& key == request.key
        }),
{
}

/// A raw read of several keys asks for as many keys as the client named, the same one at each
/// place.
pub proof fn law_raw_batch_get_reads_every_key<C>(
    request: RawBatchGetRequest<C>,
    call: StorageCall<C>,
)
    requires
        call_ensures(RawBatchGetRequest::<C>::into_call, (request,), call) || request.asks(call),
    ensures
        ({
            &&& call matches StorageCall::RawBatchGet { context, cf, keys }
            &&& context == request.context
            &&& cf == request.cf
            &&& keys@.len() == request.keys@.len()
            &&& forall|i: int| 0 <= i < keys@.len() ==> #[trigger] keys@[i] == request.keys@[i]
        }),
{
}

/// A raw write asks to write the value that the client gave to the key that it named.
pub proof fn law_raw_put_writes_its_pair<C>(request: RawPutRequest<C>, call: StorageCall<C>)
    requires
        call_ensures(RawPutRequest::<C>::into_call, (request,), call) || request.asks(call),
    ensures
        ({
            &&& call matches StorageCall::RawPut { context, cf, key, value }
            &&& context == request.context
            &&& cf == request.cf
            &&& key == request.key
            &&& value == request.value
        }),
{
}

/// A raw write of several pairs asks for as many writes as the client gave pairs, at each place of
/// that value to that key.
pub proof fn law_raw_batch_put_writes_every_pair<C>(
    request: RawBatchPutRequest<C>,
    call: StorageCall<C>,
)
    requires
        call_ensures(RawBatchPutRequest::<C>::into_call, (request,), call) || request.asks(call),
    ensures
        ({
            &&& call matches StorageCall::RawBatchPut { context, cf, pairs }
            &&& context == request.context
            &&& cf == request.cf
            &&& pairs@.len() == request.pairs@.len()
            &&& forall|i: int|
                0 <= i < pairs@.len() ==> (#[trigger] pairs@[i]).0 == request.pairs@[i].key
                    && pairs@[i].1 == request.pairs@[i].value
        }),
{
}

/// A raw deletion asks for the key and the column family that the client named.
pub proof fn law_raw_delete_deletes_its_key<C>(request: RawDeleteRequest<C>, call: StorageCall<C>)
    requires
        call_ensures(RawDeleteRequest::<C>::into_call, (request,), call) || request.asks(call),
    ensures
        ({
            &&& call matches StorageCall::RawDelete { context, cf, key }
            &&& context == request.context
            &&& cf == request.cf
            &&& key == request.key
        }),
{
}

/// A raw deletion of several keys asks for as many keys as the client named, the same one at each
/// place.
pub proof fn law_raw_batch_delete_deletes_every_key<C>(
    request: RawBatchDeleteRequest<C>,
    call: StorageCall<C>,
)
    requires
        call_ensures(RawBatchDeleteRequest::<C>::into_call, (request,), call) || request.asks(call),
    ensures
        ({
            &&& call matches StorageCall::RawBatchDelete { context, cf, keys }
            &&& context == request.context
            &&& cf == request.cf
            &&& keys@.len() == request.keys@.len()
            &&& forall|i: int| 0 <= i < keys@.len() ==> #[trigger] keys@[i] == request.keys@[i]
        }),
{
}

/// A raw scan asks for the range, the direction and the bound that the client named. The range has
/// an end exactly if the client gave a key for it, and that key is the end.
pub proof fn law_raw_scan_covers_its_range<C>(request: RawScanRequest<C>, call: StorageCall<C>)
    requires
        call_ensures(RawScanRequest::<C>::into_call, (request,), call) || request.asks(call),
    ensures
        ({
            &&& call matches StorageCall::RawScan {
                context,
                cf,
                start_key,
                end_key,
                limit,
                key_only,
                reverse,
            }
            &&& context == request.context
            &&& cf == request.cf
            &&& start_key == request.start_key
            &&& end_key is Some <==> request.end_key@.len() > 0
            &&& end_key is Some ==> end_key->0 == request.end_key
            &&& limit == request.limit
            &&& key_only == request.key_only
            &&& reverse == request.reverse
        }),
{
}

/// A raw scan of several ranges asks for as many ranges as the client named, the same one at each
/// place, in the direction and up to the bound that it named.
pub proof fn law_raw_batch_scan_covers_every_range<C>(
    request: RawBatchScanRequest<C>,
    call: StorageCall<C>,
)
    requires
        call_ensures(RawBatchScanRequest::<C>::into_call, (request,), call) || request.asks(call),
    ensures
        ({
            &&& call matches StorageCall::RawBatchScan {
                context,
                cf,
                ranges,
                each_limit,
                key_only,
                reverse,
            }
            &&& context == request.context
            &&& cf == request.cf
            &&& ranges@.len() == request.ranges@.len()
            &&& forall|i: int|
                0 <= i < ranges@.len() ==> #[trigger] ranges@[i] == request.ranges@[i]
            &&& each_limit == request.each_limit
            &&& key_only == request.key_only
            &&& reverse == request.reverse
        }),
{
}

/// A raw deletion of a range asks for the range and the column family that the client named.
pub proof fn law_raw_delete_range_deletes_its_range<C>(
    request: RawDeleteRangeRequest<C>,
    call: StorageCall<C>,
)
    requires
        call_ensures(RawDeleteRangeRequest::<C>::into_call, (request,), call) || request.asks(call),
    ensures
        ({
            &&& call matches StorageCall::RawDeleteRange { context, cf, start_key, end_key }
            &&& context == request.context
            &&& cf == request.cf
            &&& start_key == request.start_key
            &&& end_key == request.end_key
        }),
{
}

/// Two scans that differ in their direction alone ask for two calls that differ in their direction
/// alone, each in that of its request.
pub proof fn law_scan_keeps_its_direction<C>(
    forward: ScanRequest<C>,
    backward: ScanRequest<C>,
    forward_call: StorageCall<C>,
    backward_call: StorageCall<C>,
)
    requires
        !forward.reverse,
        backward == (ScanRequest { reverse: true, ..forward }),
        call_ensures(ScanRequest::<C>::into_call, (forward,), forward_call),
        call_ensures(ScanRequest::<C>::into_call, (backward,), backward_call),
    ensures
        ({
            &&& forward_call matches StorageCall::Scan {
                context,
                start_key,
                end_key,
                limit,
                sample_step,
                start_ts,
                key_only,
                reverse,
            }
            &&& !reverse
            &&& backward_call == (StorageCall::Scan {
                context,
                start_key,
                end_key,
                limit,
                sample_step,
                start_ts,
                key_only,
                reverse: true,
            })
        }),
{
}

/// Two raw scans that differ in their direction alone ask for two calls that differ in their
/// direction alone, each in that of its request.
pub proof fn law_raw_scan_keeps_its_direction<C>(
    forward: RawScanRequest<C>,
    backward: RawScanRequest<C>,
    forward_call: StorageCall<C>,
    backward_call: StorageCall<C>,
)
    requires
        !forward.reverse,
        backward == (RawScanRequest { reverse: true, ..forward }),
        call_ensures(RawScanRequest::<C>::into_call, (forward,), forward_call),
        call_ensures(RawScanRequest::<C>::into_call, (backward,), backward_call),
    ensures
        ({
            &&& forward_call matches StorageCall::RawScan {
                context,
                cf,
                start_key,
                end_key,
                limit,
                key_only,
                reverse,
            }
            &&& !reverse
            &&& backward_call == (StorageCall::RawScan {
                context,
                cf,
                start_key,
                end_key,
                limit,
                key_only,
                reverse: true,
            })
        }),
{
}

/// A deletion that only notifies and one that deletes the same range ask for two calls that differ
/// in just that.
pub proof fn law_notifying_is_not_deleting<C>(
    deleting: DeleteRangeRequest<C>,
    notifying: DeleteRangeRequest<C>,
    deleting_call: StorageCall<C>,
    notifying_call: StorageCall<C>,
)
    requires
        !deleting.notify_only,
        notifying == (DeleteRangeRequest { notify_only: true, ..deleting }),
        call_ensures(DeleteRangeRequest::<C>::into_call, (deleting,), deleting_call),
        call_ensures(DeleteRangeRequest::<C>::into_call, (notifying,), notifying_call),
    ensures
        ({
            &&& deleting_call matches StorageCall::DeleteRange {
                context,
                start_key,
                end_key,
                notify_only,
            }
            &&& !notify_only
            &&& notifying_call == (StorageCall::DeleteRange {
                context,
                start_key,
                end_key,
                notify_only: true,
            })
        }),
{
}

/// A timestamp is the number that it was made of, and is the last one exactly if that number is the
/// largest.
pub proof fn law_timestamp_is_its_number(number: u64, ts: TimeStamp, back: u64, last: bool)
    requires
        call_ensures(TimeStamp::new, (number,), ts),
        call_ensures(TimeStamp::into_inner, (ts,), back),
        call_ensures(TimeStamp::is_max, (ts,), last),
    ensures
        ts.inner == number,
        back == number,
        last <==> number == u64::MAX,
{
}

/// User keys are the byte strings that they were made of, at each place.
pub proof fn law_keys_are_their_bytes(raw: Vec<u8>, key: Key, raws: Vec<Vec<u8>>, keys: Vec<Key>)
    requires
        call_ensures(Key::from_raw, (raw,), key),
        call_ensures(keys_from_raw, (raws,), keys),
    ensures
        key.raw == raw,
        keys@.len() == raws@.len(),
        forall|i: int| 0 <= i < keys@.len() ==> (#[trigger] keys@[i]).raw == raws@[i],
{
}

} // verus!
