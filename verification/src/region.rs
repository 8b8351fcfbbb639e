//! Requests that go to the replicas of a region: splitting it and asking for its read index.
//!
//! `E` is the epoch of a region, `P` a peer and `G` the description of a region, all of which are
//! handed on unread. `R` is a region error as it goes to the client.
use crate::bytes::contents;
use crate::bytes::is_ascending;
use crate::bytes::sort_bytes;
use vstd::prelude::*;

verus! {

/// Why a region did not do what it was asked to.
#[derive(Debug, PartialEq, Eq)]
pub enum RegionFailure<R> {
    /// The region said so.
    Reported(R),
    /// The region answered in a way that makes no sense. The text shows the answer.
    Internal(String),
}

/// The text about an answer that makes no sense, where `rendered` shows the answer.
pub open spec fn invalid_response_text(rendered: Seq<char>) -> Seq<char> {
    "Internal Error: invalid response: "@ + rendered
}

fn invalid_response<R>(rendered: &String) -> (failure: RegionFailure<R>)
    ensures
        failure matches RegionFailure::Internal(text) && text@ == invalid_response_text(rendered@),
{
    let mut text = "Internal Error: invalid response: ".to_owned();
    text.append(rendered.as_str());
    RegionFailure::Internal(text)
}

/// Splits a region at one key, or at several where `split_key` is empty.
#[derive(Debug, PartialEq, Eq)]
pub struct SplitRegionRequest<E> {
    pub region_id: u64,
    pub region_epoch: E,
    pub split_key: Vec<u8>,
    pub split_keys: Vec<Vec<u8>>,
}

/// The order to a region to split itself at the given encoded keys.
#[derive(Debug, PartialEq, Eq)]
pub struct SplitRegion<E> {
    pub region_id: u64,
    pub region_epoch: E,
    pub split_keys: Vec<Vec<u8>>,
}

impl<E> SplitRegionRequest<E> {
    /// The user keys to split at.
    pub open spec fn split_points(self) -> Seq<Vec<u8>> {
        if self.split_key@.len() > 0 {
            seq![self.split_key]
        } else {
            self.split_keys@
        }
    }

    /// Whether `order` is what this request asks of the region: the encoded split points, each as
    /// often as it was given, in ascending order.
    pub open spec fn asks<F: Fn(Vec<u8>) -> Vec<u8>>(
        self,
        encode: F,
        order: SplitRegion<E>,
    ) -> bool {
        &&& order.region_id == self.region_id
        &&& order.region_epoch == self.region_epoch
        &&& is_ascending(contents(order.split_keys@))
        &&& exists|encoded: Seq<Vec<u8>>|
            encodes(encode, self.split_points(), encoded) && #[trigger] contents(
                encoded,
            ).to_multiset() == contents(order.split_keys@).to_multiset()
    }

    /// The order that the region gets. `encode` turns a user key into an encoded key.
    pub fn into_order<F: Fn(Vec<u8>) -> Vec<u8>>(self, encode: F) -> (order: SplitRegion<E>)
        requires
            forall|i: int|
                0 <= i < self.split_points().len() ==> call_requires(
                    encode,
                    (#[trigger] self.split_points()[i],),
                ),
        ensures
            self.asks(encode, order),
    {
        let ghost points = self.split_points();
        let raw_keys: Vec<Vec<u8>> = if self.split_key.len() > 0 {
            let mut one: Vec<Vec<u8>> = Vec::new();
            one.push(self.split_key);
            one
        } else {
            self.split_keys
        };
        assert(raw_keys@ =~= points);
        let mut encoded: Vec<Vec<u8>> = Vec::new();
        for raw in it: raw_keys.into_iter()
            invariant
                it.seq() == points,
                encoded@.len() == it.index(),
                forall|i: int|
                    0 <= i < points.len() ==> call_requires(encode, (#[trigger] points[i],)),
                forall|i: int|
                    0 <= i < encoded@.len() ==> call_ensures(
                        encode,
                        (points[i],),
                        #[trigger] encoded@[i],
                    ),
        {
            assert(raw == points[it.index() as int]);
            encoded.push(encode(raw));
        }
        let ghost unsorted = encoded@;
        let split_keys = sort_bytes(encoded);
        assert(encodes(encode, points, unsorted));
        assert(contents(unsorted).to_multiset() == contents(split_keys@).to_multiset());
        SplitRegion { region_id: self.region_id, region_epoch: self.region_epoch, split_keys }
    }
}

/// Whether `encoded` holds, at each place, what `encode` may make of the key at that place.
pub open spec fn encodes<F: Fn(Vec<u8>) -> Vec<u8>>(
    encode: F,
    raw_keys: Seq<Vec<u8>>,
    encoded: Seq<Vec<u8>>,
) -> bool {
    &&& encoded.len() == raw_keys.len()
    &&& forall|i: int|
        0 <= i < encoded.len() ==> call_ensures(encode, (raw_keys[i],), #[trigger] encoded[i])
}

/// What a region answered to the order to split: the error in the header, if there is one, the
/// regions after the split, and a text that shows the rest of the answer.
#[derive(Debug, PartialEq, Eq)]
pub struct SplitRegionReply<R, G> {
    pub header_error: Option<R>,
    pub regions: Vec<G>,
    pub rendered: String,
}

#[derive(Debug, PartialEq, Eq)]
pub struct SplitRegionResponse<R, G> {
    pub region_error: Option<RegionFailure<R>>,
    pub left: Option<G>,
    pub right: Option<G>,
    pub regions: Vec<G>,
}

impl<R, G: Clone> SplitRegionResponse<R, G> {
    /// Whether this is the response that follows from `reply`. The two regions that a split at one
    /// key leaves are also told apart as the left and the right one.
    pub open spec fn answers(self, reply: SplitRegionReply<R, G>) -> bool {
        match reply.header_error {
            Some(err) => {
                &&& self.region_error == Some(RegionFailure::Reported(err))
                &&& self.left is None
                &&& self.right is None
                &&& self.regions@.len() == 0
            },
            None => if reply.regions@.len() < 2 {
                &&& self.region_error matches Some(RegionFailure::Internal(text))
                &&& text@ == invalid_response_text(reply.rendered@)
                &&& self.left is None
                &&& self.right is None
                &&& self.regions@.len() == 0
            } else {
                &&& self.region_error is None
                &&& self.regions@ == reply.regions@
                &&& if reply.regions@.len() == 2 {
                    &&& self.left matches Some(left)
                    &&& cloned(reply.regions@[0], left)
                    &&& self.right matches Some(right)
                    &&& cloned(reply.regions@[1], right)
                } else {
                    &&& self.left is None
                    &&& self.right is None
                }
            },
        }
    }

    pub fn from_reply(reply: SplitRegionReply<R, G>) -> (resp: Self)
        ensures
            resp.answers(reply),
    {
        let mut resp = SplitRegionResponse {
            region_error: None,
            left: None,
            right: None,
            regions: Vec::new(),
        };
        if let Some(err) = reply.header_error {
            resp.region_error = Some(RegionFailure::Reported(err));
        } else {
            let regions: Vec<G> = reply.regions;
            if regions.len() < 2 {
                resp.region_error = Some(invalid_response(&reply.rendered));
            } else {
                if regions.len() == 2 {
                    resp.left = Some(regions[0].clone());
                    resp.right = Some(regions[1].clone());
                }
                resp.regions = regions;
            }
        }
        resp
    }
}

/// The context of a request for the read index.
#[derive(Debug, PartialEq, Eq)]
pub struct ReadIndexContext<P, E> {
    pub region_id: u64,
    pub peer: P,
    pub region_epoch: E,
    pub term: u64,
    pub sync_log: bool,
}

#[derive(Debug, PartialEq, Eq)]
pub struct ReadIndexRequest<P, E> {
    pub context: ReadIndexContext<P, E>,
}

/// The kind of a command to the replicas of a region.
#[derive(Clone, Copy, PartialEq, Eq, Structural, Debug)]
pub enum CmdType {
    ReadIndex,
}

#[derive(Debug, PartialEq, Eq)]
pub struct RaftRequestHeader<P, E> {
    pub region_id: u64,
    pub peer: P,
    pub region_epoch: E,
    pub term: u64,
    pub sync_log: bool,
    pub read_quorum: bool,
}

/// A command to the replicas of a region.
#[derive(Debug, PartialEq, Eq)]
pub struct RaftCmdRequest<P, E> {
    pub header: RaftRequestHeader<P, E>,
    pub requests: Vec<CmdType>,
}

impl<P, E> ReadIndexRequest<P, E> {
    /// The command that asks a quorum of the replicas for the read index.
    pub fn into_command(self) -> (cmd: RaftCmdRequest<P, E>)
        ensures
            cmd.header == (RaftRequestHeader {
                region_id: self.context.region_id,
                peer: self.context.peer,
                region_epoch: self.context.region_epoch,
                term: self.context.term,
                sync_log: self.context.sync_log,
                read_quorum: true,
            }),
            cmd.requests@ == seq![CmdType::ReadIndex],
    {
        let context = self.context;
        let mut requests: Vec<CmdType> = Vec::new();
        requests.push(CmdType::ReadIndex);
        RaftCmdRequest {
            header: RaftRequestHeader {
                region_id: context.region_id,
                peer: context.peer,
                region_epoch: context.region_epoch,
                term: context.term,
                sync_log: context.sync_log,
                read_quorum: true,
            },
            requests,
        }
    }
}

/// What the replicas of a region answered to a request for the read index: the error in the
/// header, if there is one, the read index in each of the responses, and a text that shows these
/// responses.
#[derive(Debug, PartialEq, Eq)]
pub struct ReadIndexReply<R> {
    pub header_error: Option<R>,
    pub read_indexes: Vec<u64>,
    pub rendered: String,
}

#[derive(Debug, PartialEq, Eq)]
pub struct ReadIndexResponse<R> {
    pub region_error: Option<RegionFailure<R>>,
    pub read_index: u64,
}

impl<R> ReadIndexResponse<R> {
    /// Whether this is the response that follows from `reply`.
    pub open spec fn answers(self, reply: ReadIndexReply<R>) -> bool {
        match reply.header_error {
            Some(err) => {
                &&& self.region_error == Some(RegionFailure::Reported(err))
                &&& self.read_index == 0
            },
            None => if reply.read_indexes@.len() != 1 {
                &&& self.region_error matches Some(RegionFailure::Internal(text))
                &&& text@ == invalid_response_text(reply.rendered@)
                &&& self.read_index == 0
            } else {
                &&& self.region_error is None
                &&& self.read_index == reply.read_indexes@[0]
            },
        }
    }

    pub fn from_reply(reply: ReadIndexReply<R>) -> (resp: Self)
        ensures
            resp.answers(reply),
    {
        let mut resp = ReadIndexResponse { region_error: None, read_index: 0 };
        if let Some(err) = reply.header_error {
            resp.region_error = Some(RegionFailure::Reported(err));
        } else if reply.read_indexes.len() != 1 {
            resp.region_error = Some(invalid_response(&reply.rendered));
        } else {
            resp.read_index = reply.read_indexes[0];
        }
        resp
    }
}

/// The order of the keys in a request to split does not matter: where encoding is a function,
/// given here by `encoded_of`, two requests that name the same keys, each as often, make the region
/// split at the same keys in the same order.
pub proof fn law_split_order_does_not_matter<E, F: Fn(Vec<u8>) -> Vec<u8>>(
    encode: F,
    encoded_of: spec_fn(Seq<u8>) -> Seq<u8>,
    request1: SplitRegionRequest<E>,
    request2: SplitRegionRequest<E>,
    order1: SplitRegion<E>,
    order2: SplitRegion<E>,
)
    requires
        forall|raw: Vec<u8>, out: Vec<u8>|
            call_ensures(encode, (raw,), out) ==> #[trigger] out@ == encoded_of(#[trigger] raw@),
        contents(request1.split_points()).to_multiset() == contents(
            request2.split_points(),
        ).to_multiset(),
        request1.asks(encode, order1),
        request2.asks(encode, order2),
    ensures
        contents(order1.split_keys@) == contents(order2.split_keys@),
{
    let points1 = request1.split_points();
    let points2 = request2.split_points();
    let encoded1 = choose|encoded: Seq<Vec<u8>>|
        encodes(encode, points1, encoded) && #[trigger] contents(encoded).to_multiset()
            == contents(order1.split_keys@).to_multiset();
    let encoded2 = choose|encoded: Seq<Vec<u8>>|
        encodes(encode, points2, encoded) && #[trigger] contents(encoded).to_multiset()
            == contents(order2.split_keys@).to_multiset();
    lemma_encoded_contents(encode, encoded_of, points1, encoded1);
    lemma_encoded_contents(encode, encoded_of, points2, encoded2);
    lemma_map_keeps_permutation(contents(points1), contents(points2), encoded_of);
    crate::bytes::law_ascending_order_is_unique(
        contents(order1.split_keys@),
        contents(order2.split_keys@),
    );
}

proof fn lemma_encoded_contents<F: Fn(Vec<u8>) -> Vec<u8>>(
    encode: F,
    encoded_of: spec_fn(Seq<u8>) -> Seq<u8>,
    points: Seq<Vec<u8>>,
    encoded: Seq<Vec<u8>>,
)
    requires
        forall|raw: Vec<u8>, out: Vec<u8>|
            call_ensures(encode, (raw,), out) ==> #[trigger] out@ == encoded_of(#[trigger] raw@),
        encodes(encode, points, encoded),
    ensures
        contents(encoded) == contents(points).map_values(encoded_of),
{
    assert forall|i: int| 0 <= i < encoded.len() implies #[trigger] contents(encoded)[i]
        == contents(points).map_values(encoded_of)[i] by {
        let out = encoded[i];
        let raw = points[i];
        assert(call_ensures(encode, (raw,), out));
        assert(out@ == encoded_of(raw@));
    }
    assert(contents(encoded) =~= contents(points).map_values(encoded_of));
}

/// Mapping two lists that hold the same entries, each as often, gives two lists that do so too.
proof fn lemma_map_keeps_permutation(
    s: Seq<Seq<u8>>,
    t: Seq<Seq<u8>>,
    f: spec_fn(Seq<u8>) -> Seq<u8>,
)
    requires
        s.to_multiset() == t.to_multiset(),
    ensures
        s.map_values(f).to_multiset() == t.map_values(f).to_multiset(),
    decreases s.len(),
{
    broadcast use vstd::seq_lib::group_to_multiset_ensures;

    assert(s.len() == s.to_multiset().len() && t.len() == t.to_multiset().len());
    if s.len() == 0 {
        assert(s =~= t);
    } else {
        let x = s.last();
        let s0 = s.drop_last();
        assert(s =~= s0.push(x));
        assert(s.to_multiset().contains(x));
        assert(t.contains(x));
        let j = choose|j: int| 0 <= j < t.len() && t[j] == x;
        let t0 = t.remove(j);
        assert(t =~= t0.insert(j, x));
        assert(t0.to_multiset() =~= t.to_multiset().remove(x));
        assert(s0.to_multiset() =~= s.to_multiset().remove(x));
        lemma_map_keeps_permutation(s0, t0, f);
        assert(s.map_values(f) =~= s0.map_values(f).push(f(x)));
        assert(t.map_values(f) =~= t0.map_values(f).insert(j, f(x)));
        assert(t.map_values(f).to_multiset() =~= t0.map_values(f).to_multiset().insert(f(x)));
    }
}

} // verus!
