//! Keys and timestamps of transactional data.
use vstd::prelude::*;

verus! {

/// A moment of the transaction timeline.
#[derive(Clone, Copy, PartialEq, Eq, Structural, Debug)]
pub struct TimeStamp {
    pub inner: u64,
}

impl TimeStamp {
    pub fn new(inner: u64) -> (ts: TimeStamp)
        ensures
            ts.inner == inner,
    {
        TimeStamp { inner }
    }

    pub fn into_inner(self) -> (inner: u64)
        ensures
            inner == self.inner,
    {
        self.inner
    }

    /// Whether this is the last moment of the timeline.
    pub fn is_max(self) -> (r: bool)
        ensures
            r == (self.inner == u64::MAX),
    {
        self.inner == u64::MAX
    }
}

/// A user key of transactional data, as the client wrote it.
///
/// Transactional commands name their keys by this type, so that whoever hands the command to the
/// storage knows which byte strings have to be encoded first. Raw commands name theirs by plain
/// byte vectors, which the storage takes as they are.
#[derive(Debug, PartialEq, Eq)]
pub struct Key {
    pub raw: Vec<u8>,
}

impl Key {
    pub fn from_raw(raw: Vec<u8>) -> (key: Key)
        ensures
            key == (Key { raw }),
    {
        Key { raw }
    }
}

/// The user keys that `raws` stand for, in the same order.
pub open spec fn keys_of(raws: Seq<Vec<u8>>) -> Seq<Key> {
    raws.map_values(|raw: Vec<u8>| Key { raw })
}

/// The user keys that `raws` stand for, in the same order.
pub fn keys_from_raw(raws: Vec<Vec<u8>>) -> (keys: Vec<Key>)
    ensures
        keys@ == keys_of(raws@),
{
    let mut keys: Vec<Key> = Vec::new();
    for raw in it: raws.into_iter()
        invariant
            it.seq() == raws@,
            keys@ == keys_of(it.seq().take(it.index() as int)),
    {
        keys.push(Key::from_raw(raw));
    }
    keys
}

} // verus!
