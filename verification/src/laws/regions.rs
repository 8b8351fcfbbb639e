//! What regions are asked for, and what the client is told of their answers.
use crate::bytes::bytes_le;
use crate::bytes::contents;
use crate::bytes::is_ascending;
use crate::bytes::sort_bytes;
use crate::region::encodes;
use crate::region::CmdType;
use crate::region::RaftCmdRequest;
use crate::region::ReadIndexReply;
use crate::region::ReadIndexRequest;
use crate::region::ReadIndexResponse;
use crate::region::RegionFailure;
use crate::region::SplitRegion;
use crate::region::SplitRegionReply;
use crate::region::SplitRegionRequest;
use crate::region::SplitRegionResponse;
use vstd::prelude::*;

verus! {

/// Whether `a` and `b` have the same first `n` bytes.
pub open spec fn agree_up_to(a: Seq<u8>, b: Seq<u8>, n: int) -> bool {
    &&& n <= a.len()
    &&& n <= b.len()
    &&& forall|i: int| 0 <= i < n ==> #[trigger] a[i] == b[i]
}

/// Whether `a` is `b`, or what `b` starts with, or has the smaller byte at the first place at which
/// the two differ.
pub open spec fn comes_no_later(a: Seq<u8>, b: Seq<u8>) -> bool {
    ||| agree_up_to(a, b, a.len() as int)
    ||| exists|n: int|
        #[trigger] agree_up_to(a, b, n) && 0 <= n < a.len() && n < b.len() && a[n] < b[n]
}

/// Byte strings are ordered by the first byte at which they differ, and a shorter one comes before
/// one that starts with it.
pub proof fn law_bytes_are_ordered_by_their_first_difference(a: Seq<u8>, b: Seq<u8>)
    ensures
        bytes_le(a, b) <==> comes_no_later(a, b),
    decreases a.len(),
{
    if a.len() > 0 && b.len() > 0 && a[0] == b[0] {
        let a1 = a.drop_first();
        let b1 = b.drop_first();
        law_bytes_are_ordered_by_their_first_difference(a1, b1);
        assert forall|n: int| agree_up_to(a1, b1, n) implies #[trigger] agree_up_to(
            a,
            b,
            n + 1,
        ) by {
            assert forall|i: int| 0 <= i < n + 1 implies #[trigger] a[i] == b[i] by {
                if i > 0 {
                    assert(a1[i - 1] == b1[i - 1]);
                }
            }
        }
        assert forall|n: int| agree_up_to(a, b, n) && n > 0 implies #[trigger] agree_up_to(
            a1,
            b1,
            n - 1,
        ) by {
            assert forall|i: int| 0 <= i < n - 1 implies #[trigger] a1[i] == b1[i] by {
                assert(a[i + 1] == b[i + 1]);
            }
        }
        if bytes_le(a, b) {
            if agree_up_to(a1, b1, a1.len() as int) {
                assert(agree_up_to(a, b, a1.len() as int + 1));
            } else {
                let n = choose|n: int|
                    #[trigger] agree_up_to(a1, b1, n) && 0 <= n < a1.len() && n < b1.len() && a1[n]
                        < b1[n];
                assert(agree_up_to(a, b, n + 1));
            }
        }
        if comes_no_later(a, b) {
            if agree_up_to(a, b, a.len() as int) {
                assert(agree_up_to(a1, b1, a.len() as int - 1));
            } else {
                let n = choose|n: int|
                    #[trigger] agree_up_to(a, b, n) && 0 <= n < a.len() && n < b.len() && a[n]
                        < b[n];
                assert(n > 0);
                assert(agree_up_to(a1, b1, n - 1));
            }
        }
    } else if a.len() > 0 && b.len() > 0 {
        if a[0] < b[0] {
            assert(agree_up_to(a, b, 0));
        }
        if comes_no_later(a, b) && !agree_up_to(a, b, a.len() as int) {
            let n = choose|n: int|
                #[trigger] agree_up_to(a, b, n) && 0 <= n < a.len() && n < b.len() && a[n] < b[n];
            assert(n == 0);
        }
    } else if a.len() == 0 {
        assert(agree_up_to(a, b, 0));
    }
}

/// Whether `a` and `b` hold the same byte strings, each as often.
pub open spec fn hold_the_same(a: Seq<Vec<u8>>, b: Seq<Vec<u8>>) -> bool {
    a.map_values(|key: Vec<u8>| key@).to_multiset() == b.map_values(
        |key: Vec<u8>| key@,
    ).to_multiset()
}

proof fn lemma_contents_are_bytes(keys: Seq<Vec<u8>>)
    ensures
        contents(keys) == keys.map_values(|key: Vec<u8>| key@),
{
    assert(contents(keys) =~= keys.map_values(|key: Vec<u8>| key@));
}

proof fn lemma_ascending_keys(keys: Seq<Vec<u8>>)
    requires
        is_ascending(contents(keys)),
    ensures
        forall|i: int, j: int|
            0 <= i <= j < keys.len() ==> comes_no_later(
                (#[trigger] keys[i])@,
                (#[trigger] keys[j])@,
            ),
{
    assert forall|i: int, j: int| 0 <= i <= j < keys.len() implies comes_no_later(
        (#[trigger] keys[i])@,
        (#[trigger] keys[j])@,
    ) by {
        assert(bytes_le(contents(keys)[i], contents(keys)[j]));
        law_bytes_are_ordered_by_their_first_difference(keys[i]@, keys[j]@);
    }
}

/// Sorting keeps every byte string as often as it is there, and puts each before those that come
/// later than it.
pub proof fn law_sorting_puts_in_order(keys: Vec<Vec<u8>>, sorted: Vec<Vec<u8>>)
    requires
        call_ensures(sort_bytes, (keys,), sorted),
    ensures
        hold_the_same(keys@, sorted@),
        forall|i: int, j: int|
            0 <= i <= j < sorted@.len() ==> comes_no_later(
                (#[trigger] sorted@[i])@,
                (#[trigger] sorted@[j])@,
            ),
{
    lemma_contents_are_bytes(keys@);
    lemma_contents_are_bytes(sorted@);
    lemma_ascending_keys(sorted@);
}

/// The order to split goes to the region and the epoch that the client named. It has the encoded
/// form of the one key that the client gave, or of each of the keys in the list where it gave no
/// single one, as often as the list has it, and none besides, the lesser before the greater.
pub proof fn law_split_order_has_every_key<E, F: Fn(Vec<u8>) -> Vec<u8>>(
    request: SplitRegionRequest<E>,
    encode: F,
    order: SplitRegion<E>,
)
    requires
        call_ensures(SplitRegionRequest::<E>::into_order::<F>, (request, encode), order)
            || request.asks(encode, order),
    ensures
        order.region_id == request.region_id,
        order.region_epoch == request.region_epoch,
        request.split_key@.len() > 0 ==> order.split_keys@.len() == 1,
        request.split_key@.len() == 0 ==> order.split_keys@.len() == request.split_keys@.len(),
        forall|i: int, j: int|
            0 <= i <= j < order.split_keys@.len() ==> comes_no_later(
                (#[trigger] order.split_keys@[i])@,
                (#[trigger] order.split_keys@[j])@,
            ),
        exists|encoded: Seq<Vec<u8>>|
            {
                &&& #[trigger] hold_the_same(encoded, order.split_keys@)
                &&& request.split_key@.len() > 0 ==> call_ensures(
                    encode,
                    (request.split_key,),
                    encoded[0],
                )
                &&& request.split_key@.len() == 0 ==> forall|i: int|
                    0 <= i < encoded.len() ==> call_ensures(
                        encode,
                        (request.split_keys@[i],),
                        #[trigger] encoded[i],
                    )
            },
{
    broadcast use vstd::seq_lib::group_to_multiset_ensures;

    let keys = order.split_keys@;
    let points = request.split_points();
    let encoded = choose|encoded: Seq<Vec<u8>>|
        encodes(encode, points, encoded) && #[trigger] contents(encoded).to_multiset() == contents(
            keys,
        ).to_multiset();
    assert(contents(encoded).to_multiset().len() == contents(encoded).len());
    assert(contents(keys).to_multiset().len() == contents(keys).len());
    lemma_contents_are_bytes(encoded);
    lemma_contents_are_bytes(keys);
    lemma_ascending_keys(keys);
    assert(hold_the_same(encoded, keys));
    if request.split_key@.len() > 0 {
        assert(points[0] == request.split_key);
        assert(call_ensures(encode, (points[0],), encoded[0]));
    }
}

/// A region can be told to split wherever every key that it is to split at can be encoded.
pub proof fn law_any_encodable_split_is_ordered<E, F: Fn(Vec<u8>) -> Vec<u8>>(
    request: SplitRegionRequest<E>,
    encode: F,
)
    requires
        request.split_key@.len() > 0 ==> call_requires(encode, (request.split_key,)),
        request.split_key@.len() == 0 ==> forall|i: int|
            0 <= i < request.split_keys@.len() ==> call_requires(
                encode,
                (#[trigger] request.split_keys@[i],),
            ),
    ensures
        call_requires(SplitRegionRequest::<E>::into_order::<F>, (request, encode)),
{
}

/// The client learns of every region after a split, in the order in which the split left them, and
/// of the left and the right one exactly if there are two. It gets the error that the region
/// reported if there was one, and an error that shows the answer if there are fewer than two
/// regions.
pub proof fn law_split_response_has_every_region<R, G: Clone>(
    reply: SplitRegionReply<R, G>,
    resp: SplitRegionResponse<R, G>,
)
    requires
        call_ensures(SplitRegionResponse::<R, G>::from_reply, (reply,), resp) || resp.answers(
            reply,
        ),
    ensures
        reply.header_error matches Some(err) ==> (resp.region_error matches Some(
            RegionFailure::Reported(told),
        ) && told == err),
        reply.header_error is None && reply.regions@.len() < 2 ==> (resp.region_error matches Some(
            RegionFailure::Internal(text),
        ) && text@ == "Internal Error: invalid response: "@ + reply.rendered@),
        reply.header_error is None && reply.regions@.len() >= 2 ==> resp.region_error is None
            && resp.regions@.len() == reply.regions@.len(),
        resp.region_error is Some ==> resp.regions@.len() == 0,
        forall|i: int|
            0 <= i < resp.regions@.len() ==> #[trigger] resp.regions@[i] == reply.regions@[i],
        resp.left is Some <==> resp.regions@.len() == 2,
        resp.right is Some <==> resp.regions@.len() == 2,
        resp.left matches Some(left) ==> cloned(reply.regions@[0], left),
        resp.right matches Some(right) ==> cloned(reply.regions@[1], right),
{
}

/// The command for the read index asks a quorum of the replicas, for that one thing, and goes where
/// the client meant it to.
pub proof fn law_read_index_asks_a_quorum<P, E>(
    request: ReadIndexRequest<P, E>,
    cmd: RaftCmdRequest<P, E>,
)
    requires
        call_ensures(ReadIndexRequest::<P, E>::into_command, (request,), cmd),
    ensures
        cmd.header.region_id == request.context.region_id,
        cmd.header.peer == request.context.peer,
        cmd.header.region_epoch == request.context.region_epoch,
        cmd.header.term == request.context.term,
        cmd.header.sync_log == request.context.sync_log,
        cmd.header.read_quorum,
        cmd.requests@.len() == 1,
        cmd.requests@[0] == CmdType::ReadIndex,
{
}

/// The client gets the read index if there is just one. It gets the error that the region reported
/// if there was one, and an error that shows the answer if there is any other number of read
/// indexes.
pub proof fn law_read_index_response_has_the_only_index<R>(
    reply: ReadIndexReply<R>,
    resp: ReadIndexResponse<R>,
)
    requires
        call_ensures(ReadIndexResponse::<R>::from_reply, (reply,), resp) || resp.answers(reply),
    ensures
        reply.header_error matches Some(err) ==> (resp.region_error matches Some(
            RegionFailure::Reported(told),
        ) && told == err),
        reply.header_error is None && reply.read_indexes@.len() != 1 ==> (
        resp.region_error matches Some(RegionFailure::Internal(text)) && text@
            == "Internal Error: invalid response: "@ + reply.rendered@),
        reply.header_error is None && reply.read_indexes@.len() == 1 ==> resp.region_error is None
            && resp.read_index == reply.read_indexes@[0],
        resp.region_error is Some ==> resp.read_index == 0,
{
}

} // verus!
