//! What the client is told about data, answer by answer.
use crate::response::BatchGetResponse;
use crate::response::DeleteRangeResponse;
use crate::response::GetResponse;
use crate::response::PairsReply;
use crate::response::RawBatchDeleteResponse;
use crate::response::RawBatchGetResponse;
use crate::response::RawBatchPutResponse;
use crate::response::RawBatchScanResponse;
use crate::response::RawDeleteRangeResponse;
use crate::response::RawDeleteResponse;
use crate::response::RawGetResponse;
use crate::response::RawPutResponse;
use crate::response::RawScanResponse;
use crate::response::Reply;
use crate::response::ScanResponse;
use vstd::prelude::*;

verus! {

/// The response to a read has the value that was found, or says that there is none, or has the
/// error: one of the three, and none beside a region error.
pub proof fn law_get_response_has_what_was_found<R, K>(
    reply: Reply<Option<Vec<u8>>, K, R>,
    resp: GetResponse<R, K>,
)
    requires
        call_ensures(GetResponse::<R, K>::from_reply, (reply,), resp) || resp.answers(reply),
    ensures
        resp.region_error == reply.region_error,
        reply.region_error is Some ==> resp.error is None && resp.value@.len() == 0
            && !resp.not_found,
        reply.region_error is None && reply.result is Ok ==> resp.error is None && (resp.not_found
            <==> reply.result->Ok_0 is None),
        reply.region_error is None ==> (reply.result matches Ok(Some(v)) ==> resp.value@ == v@),
        !(reply.result matches Ok(Some(_))) ==> resp.value@.len() == 0,
        reply.region_error is None ==> (reply.result matches Err(e) ==> resp.error == Some(e)
            && !resp.not_found),
{
}

/// The response to a raw read has the value that was found, or says that there is none, or has the
/// text of the error: one of the three, and none beside a region error.
pub proof fn law_raw_get_response_has_what_was_found<R>(
    reply: Reply<Option<Vec<u8>>, String, R>,
    resp: RawGetResponse<R>,
)
    requires
        call_ensures(RawGetResponse::<R>::from_reply, (reply,), resp) || resp.answers(reply),
    ensures
        resp.region_error == reply.region_error,
        reply.region_error is Some ==> resp.error@.len() == 0 && resp.value@.len() == 0
            && !resp.not_found,
        reply.region_error is None && reply.result is Ok
            ==> resp.error@.len() == 0 && (resp.not_found
            <==> reply.result->Ok_0 is None),
        reply.region_error is None ==> (reply.result matches Ok(Some(v)) ==> resp.value@ == v@),
        !(reply.result matches Ok(Some(_))) ==> resp.value@.len() == 0,
        reply.region_error is None ==> (reply.result matches Err(e) ==> resp.error@ == e@
            && !resp.not_found),
{
}

/// The response has as many pairs as the storage gave, the same one at each place, and none beside
/// a region error.
pub proof fn law_scan_response_has_every_pair<R, P>(
    reply: PairsReply<P, R>,
    resp: ScanResponse<R, P>,
)
    requires
        call_ensures(ScanResponse::<R, P>::from_reply, (reply,), resp) || resp.answers(reply),
    ensures
        resp.region_error == reply.region_error,
        reply.region_error is Some ==> resp.pairs@.len() == 0,
        reply.region_error is None ==> resp.pairs@.len() == reply.pairs@.len(),
        forall|i: int| 0 <= i < resp.pairs@.len() ==> #[trigger] resp.pairs@[i] == reply.pairs@[i],
{
}

/// The response has as many pairs as the storage gave, the same one at each place, and none beside
/// a region error.
pub proof fn law_batch_get_response_has_every_pair<R, P>(
    reply: PairsReply<P, R>,
    resp: BatchGetResponse<R, P>,
)
    requires
        call_ensures(BatchGetResponse::<R, P>::from_reply, (reply,), resp) || resp.answers(reply),
    ensures
        resp.region_error == reply.region_error,
        reply.region_error is Some ==> resp.pairs@.len() == 0,
        reply.region_error is None ==> resp.pairs@.len() == reply.pairs@.len(),
        forall|i: int| 0 <= i < resp.pairs@.len() ==> #[trigger] resp.pairs@[i] == reply.pairs@[i],
{
}

/// The response has as many pairs as the storage gave, the same one at each place, and none beside
/// a region error.
pub proof fn law_raw_batch_get_response_has_every_pair<R, P>(
    reply: PairsReply<P, R>,
    resp: RawBatchGetResponse<R, P>,
)
    requires
        call_ensures(RawBatchGetResponse::<R, P>::from_reply, (reply,), resp)
            || resp.answers(reply),
    ensures
        resp.region_error == reply.region_error,
        reply.region_error is Some ==> resp.pairs@.len() == 0,
        reply.region_error is None ==> resp.pairs@.len() == reply.pairs@.len(),
        forall|i: int| 0 <= i < resp.pairs@.len() ==> #[trigger] resp.pairs@[i] == reply.pairs@[i],
{
}

/// The response has as many pairs as the storage gave, the same one at each place, and none beside
/// a region error.
pub proof fn law_raw_scan_response_has_every_pair<R, P>(
    reply: PairsReply<P, R>,
    resp: RawScanResponse<R, P>,
)
    requires
        call_ensures(RawScanResponse::<R, P>::from_reply, (reply,), resp) || resp.answers(reply),
    ensures
        resp.region_error == reply.region_error,
        reply.region_error is Some ==> resp.kvs@.len() == 0,
        reply.region_error is None ==> resp.kvs@.len() == reply.pairs@.len(),
        forall|i: int| 0 <= i < resp.kvs@.len() ==> #[trigger] resp.kvs@[i] == reply.pairs@[i],
{
}

/// The response has as many pairs as the storage gave, the same one at each place, and none beside
/// a region error.
pub proof fn law_raw_batch_scan_response_has_every_pair<R, P>(
    reply: PairsReply<P, R>,
    resp: RawBatchScanResponse<R, P>,
)
    requires
        call_ensures(RawBatchScanResponse::<R, P>::from_reply, (reply,), resp)
            || resp.answers(reply),
    ensures
        resp.region_error == reply.region_error,
        reply.region_error is Some ==> resp.kvs@.len() == 0,
        reply.region_error is None ==> resp.kvs@.len() == reply.pairs@.len(),
        forall|i: int| 0 <= i < resp.kvs@.len() ==> #[trigger] resp.kvs@[i] == reply.pairs@[i],
{
}

/// The response has the text of the failure if there was one, and no text on success or beside a
/// region error.
pub proof fn law_delete_range_response_tells_the_failure<R>(
    reply: Reply<(), String, R>,
    resp: DeleteRangeResponse<R>,
)
    requires
        call_ensures(DeleteRangeResponse::<R>::from_reply, (reply,), resp) || resp.answers(reply),
    ensures
        resp.region_error == reply.region_error,
        reply.region_error is Some || reply.result is Ok ==> resp.error@.len() == 0,
        reply.region_error is None ==> (reply.result matches Err(e) ==> resp.error@ == e@),
{
}

/// The response has the text of the failure if there was one, and no text on success or beside a
/// region error.
pub proof fn law_raw_put_response_tells_the_failure<R>(
    reply: Reply<(), String, R>,
    resp: RawPutResponse<R>,
)
    requires
        call_ensures(RawPutResponse::<R>::from_reply, (reply,), resp) || resp.answers(reply),
    ensures
        resp.region_error == reply.region_error,
        reply.region_error is Some || reply.result is Ok ==> resp.error@.len() == 0,
        reply.region_error is None ==> (reply.result matches Err(e) ==> resp.error@ == e@),
{
}

/// The response has the text of the failure if there was one, and no text on success or beside a
/// region error.
pub proof fn law_raw_batch_put_response_tells_the_failure<R>(
    reply: Reply<(), String, R>,
    resp: RawBatchPutResponse<R>,
)
    requires
        call_ensures(RawBatchPutResponse::<R>::from_reply, (reply,), resp) || resp.answers(reply),
    ensures
        resp.region_error == reply.region_error,
        reply.region_error is Some || reply.result is Ok ==> resp.error@.len() == 0,
        reply.region_error is None ==> (reply.result matches Err(e) ==> resp.error@ == e@),
{
}

/// The response has the text of the failure if there was one, and no text on success or beside a
/// region error.
pub proof fn law_raw_delete_response_tells_the_failure<R>(
    reply: Reply<(), String, R>,
    resp: RawDeleteResponse<R>,
)
    requires
        call_ensures(RawDeleteResponse::<R>::from_reply, (reply,), resp) || resp.answers(reply),
    ensures
        resp.region_error == reply.region_error,
        reply.region_error is Some || reply.result is Ok ==> resp.error@.len() == 0,
        reply.region_error is None ==> (reply.result matches Err(e) ==> resp.error@ == e@),
{
}

/// The response has the text of the failure if there was one, and no text on success or beside a
/// region error.
pub proof fn law_raw_batch_delete_response_tells_the_failure<R>(
    reply: Reply<(), String, R>,
    resp: RawBatchDeleteResponse<R>,
)
    requires
        call_ensures(RawBatchDeleteResponse::<R>::from_reply, (reply,), resp)
            || resp.answers(reply),
    ensures
        resp.region_error == reply.region_error,
        reply.region_error is Some || reply.result is Ok ==> resp.error@.len() == 0,
        reply.region_error is None ==> (reply.result matches Err(e) ==> resp.error@ == e@),
{
}

/// The response has the text of the failure if there was one, and no text on success or beside a
/// region error.
pub proof fn law_raw_delete_range_response_tells_the_failure<R>(
    reply: Reply<(), String, R>,
    resp: RawDeleteRangeResponse<R>,
)
    requires
        call_ensures(RawDeleteRangeResponse::<R>::from_reply, (reply,), resp)
            || resp.answers(reply),
    ensures
        resp.region_error == reply.region_error,
        reply.region_error is Some || reply.result is Ok ==> resp.error@.len() == 0,
        reply.region_error is None ==> (reply.result matches Err(e) ==> resp.error@ == e@),
{
}

} // verus!
