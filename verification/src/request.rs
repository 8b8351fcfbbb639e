//! Data requests, and the storage call that each of them asks for.
//!
//! `C` is the context of a request: which region, peer and term it is meant for. It is handed to
//! the storage unread.
use crate::key::keys_from_raw;
use crate::key::Key;
use crate::key::TimeStamp;
use vstd::prelude::*;

verus! {

/// Reads one key at a version.
#[derive(Debug, PartialEq, Eq)]
pub struct GetRequest<C> {
    pub context: C,
    pub key: Vec<u8>,
    pub version: u64,
}

/// Reads the keys of a range at a version. An empty end key means that the range has no end.
#[derive(Debug, PartialEq, Eq)]
pub struct ScanRequest<C> {
    pub context: C,
    pub start_key: Vec<u8>,
    pub end_key: Vec<u8>,
    pub limit: u32,
    pub sample_step: u32,
    pub version: u64,
    pub key_only: bool,
    pub reverse: bool,
}

/// Reads several keys at a version.
#[derive(Debug, PartialEq, Eq)]
pub struct BatchGetRequest<C> {
    pub context: C,
    pub keys: Vec<Vec<u8>>,
    pub version: u64,
}

/// Deletes all versions of the keys of a range.
#[derive(Debug, PartialEq, Eq)]
pub struct DeleteRangeRequest<C> {
    pub context: C,
    pub start_key: Vec<u8>,
    pub end_key: Vec<u8>,
    pub notify_only: bool,
}

#[derive(Debug, PartialEq, Eq)]
pub struct RawGetRequest<C> {
    pub context: C,
    pub cf: String,
    pub key: Vec<u8>,
}

#[derive(Debug, PartialEq, Eq)]
pub struct RawBatchGetRequest<C> {
    pub context: C,
    pub cf: String,
    pub keys: Vec<Vec<u8>>,
}

#[derive(Debug, PartialEq, Eq)]
pub struct RawPutRequest<C> {
    pub context: C,
    pub cf: String,
    pub key: Vec<u8>,
    pub value: Vec<u8>,
}

/// A key and the value to write to it.
#[derive(Debug, PartialEq, Eq)]
pub struct KvPair {
    pub key: Vec<u8>,
    pub value: Vec<u8>,
}

#[derive(Debug, PartialEq, Eq)]
pub struct RawBatchPutRequest<C> {
    pub context: C,
    pub cf: String,
    pub pairs: Vec<KvPair>,
}

#[derive(Debug, PartialEq, Eq)]
pub struct RawDeleteRequest<C> {
    pub context: C,
    pub cf: String,
    pub key: Vec<u8>,
}

#[derive(Debug, PartialEq, Eq)]
pub struct RawBatchDeleteRequest<C> {
    pub context: C,
    pub cf: String,
    pub keys: Vec<Vec<u8>>,
}

/// Reads the keys of a range. An empty end key means that the range has no end.
#[derive(Debug, PartialEq, Eq)]
pub struct RawScanRequest<C> {
    pub context: C,
    pub cf: String,
    pub start_key: Vec<u8>,
    pub end_key: Vec<u8>,
    pub limit: u32,
    pub key_only: bool,
    pub reverse: bool,
}

#[derive(Debug, PartialEq, Eq)]
pub struct KeyRange {
    pub start_key: Vec<u8>,
    pub end_key: Vec<u8>,
}

/// Reads the keys of several ranges, at most `each_limit` of each.
#[derive(Debug, PartialEq, Eq)]
pub struct RawBatchScanRequest<C> {
    pub context: C,
    pub cf: String,
    pub ranges: Vec<KeyRange>,
    pub each_limit: u32,
    pub key_only: bool,
    pub reverse: bool,
}

#[derive(Debug, PartialEq, Eq)]
pub struct RawDeleteRangeRequest<C> {
    pub context: C,
    pub cf: String,
    pub start_key: Vec<u8>,
    pub end_key: Vec<u8>,
}

/// A call of the storage, with all of its arguments.
#[derive(Debug, PartialEq, Eq)]
pub enum StorageCall<C> {
    Get { context: C, key: Key, start_ts: TimeStamp },
    Scan {
        context: C,
        start_key: Key,
        end_key: Option<Key>,
        limit: usize,
        sample_step: usize,
        start_ts: TimeStamp,
        key_only: bool,
        reverse: bool,
    },
    BatchGet { context: C, keys: Vec<Key>, start_ts: TimeStamp },
    DeleteRange { context: C, start_key: Key, end_key: Key, notify_only: bool },
    RawGet { context: C, cf: String, key: Vec<u8> },
    RawBatchGet { context: C, cf: String, keys: Vec<Vec<u8>> },
    RawPut { context: C, cf: String, key: Vec<u8>, value: Vec<u8> },
    RawBatchPut { context: C, cf: String, pairs: Vec<(Vec<u8>, Vec<u8>)> },
    RawDelete { context: C, cf: String, key: Vec<u8> },
    RawBatchDelete { context: C, cf: String, keys: Vec<Vec<u8>> },
    RawScan {
        context: C,
        cf: String,
        start_key: Vec<u8>,
        end_key: Option<Vec<u8>>,
        limit: usize,
        key_only: bool,
        reverse: bool,
    },
    RawBatchScan {
        context: C,
        cf: String,
        ranges: Vec<KeyRange>,
        each_limit: usize,
        key_only: bool,
        reverse: bool,
    },
    RawDeleteRange { context: C, cf: String, start_key: Vec<u8>, end_key: Vec<u8> },
}

impl<C> GetRequest<C> {
    /// Whether `call` is what this request asks of the storage.
    pub open spec fn asks(self, call: StorageCall<C>) -> bool {
        call == (StorageCall::Get {
            context: self.context,
            key: Key { raw: self.key },
            start_ts: TimeStamp { inner: self.version },
        })
    }

    pub fn into_call(self) -> (call: StorageCall<C>)
        ensures
            self.asks(call),
    {
        StorageCall::Get {
            context: self.context,
            key: Key::from_raw(self.key),
            start_ts: TimeStamp::new(self.version),
        }
    }
}

impl<C> ScanRequest<C> {
    /// Whether `call` is what this request asks of the storage.
    pub open spec fn asks(self, call: StorageCall<C>) -> bool {
        call == (StorageCall::Scan {
            context: self.context,
            start_key: Key { raw: self.start_key },
            end_key: if self.end_key@.len() == 0 {
                None
            } else {
                Some(Key { raw: self.end_key })
            },
            limit: self.limit as usize,
            sample_step: self.sample_step as usize,
            start_ts: TimeStamp { inner: self.version },
            key_only: self.key_only,
            reverse: self.reverse,
        })
    }

    pub fn into_call(self) -> (call: StorageCall<C>)
        ensures
            self.asks(call),
    {
        let end_key: Option<Key> = if self.end_key.len() == 0 {
            None
        } else {
            Some(Key::from_raw(self.end_key))
        };
        StorageCall::Scan {
            context: self.context,
            start_key: Key::from_raw(self.start_key),
            end_key,
            limit: self.limit as usize,
            sample_step: self.sample_step as usize,
            start_ts: TimeStamp::new(self.version),
            key_only: self.key_only,
            reverse: self.reverse,
        }
    }
}

impl<C> BatchGetRequest<C> {
    /// Whether `call` is what this request asks of the storage.
    pub open spec fn asks(self, call: StorageCall<C>) -> bool {
        call matches StorageCall::BatchGet { context, keys, start_ts } && context
            == self.context && keys@ == crate::key::keys_of(self.keys@) && start_ts.inner
            == self.version
    }

    pub fn into_call(self) -> (call: StorageCall<C>)
        ensures
            self.asks(call),
    {
        StorageCall::BatchGet {
            context: self.context,
            keys: keys_from_raw(self.keys),
            start_ts: TimeStamp::new(self.version),
        }
    }
}

impl<C> DeleteRangeRequest<C> {
    /// Whether `call` is what this request asks of the storage.
    pub open spec fn asks(self, call: StorageCall<C>) -> bool {
        call == (StorageCall::DeleteRange {
            context: self.context,
            start_key: Key { raw: self.start_key },
            end_key: Key { raw: self.end_key },
            notify_only: self.notify_only,
        })
    }

    pub fn into_call(self) -> (call: StorageCall<C>)
        ensures
            self.asks(call),
    {
        StorageCall::DeleteRange {
            context: self.context,
            start_key: Key::from_raw(self.start_key),
            end_key: Key::from_raw(self.end_key),
            notify_only: self.notify_only,
        }
    }
}

impl<C> RawGetRequest<C> {
    /// Whether `call` is what this request asks of the storage.
    pub open spec fn asks(self, call: StorageCall<C>) -> bool {
        call == (StorageCall::RawGet { context: self.context, cf: self.cf, key: self.key })
    }

    pub fn into_call(self) -> (call: StorageCall<C>)
        ensures
            self.asks(call),
    {
        StorageCall::RawGet { context: self.context, cf: self.cf, key: self.key }
    }
}

impl<C> RawBatchGetRequest<C> {
    /// Whether `call` is what this request asks of the storage.
    pub open spec fn asks(self, call: StorageCall<C>) -> bool {
        call == (StorageCall::RawBatchGet {
            context: self.context,
            cf: self.cf,
            keys: self.keys,
        })
    }

    pub fn into_call(self) -> (call: StorageCall<C>)
        ensures
            self.asks(call),
    {
        StorageCall::RawBatchGet { context: self.context, cf: self.cf, keys: self.keys }
    }
}

impl<C> RawPutRequest<C> {
    /// Whether `call` is what this request asks of the storage.
    pub open spec fn asks(self, call: StorageCall<C>) -> bool {
        call == (StorageCall::RawPut {
            context: self.context,
            cf: self.cf,
            key: self.key,
            value: self.value,
        })
    }

    pub fn into_call(self) -> (call: StorageCall<C>)
        ensures
            self.asks(call),
    {
        StorageCall::RawPut {
            context: self.context,
            cf: self.cf,
            key: self.key,
            value: self.value,
        }
    }
}

/// The pairs of `pairs` as tuples, in the same order.
pub open spec fn tuples_of(pairs: Seq<KvPair>) -> Seq<(Vec<u8>, Vec<u8>)> {
    pairs.map_values(|pair: KvPair| (pair.key, pair.value))
}

impl<C> RawBatchPutRequest<C> {
    /// Whether `call` is what this request asks of the storage.
    pub open spec fn asks(self, call: StorageCall<C>) -> bool {
        call matches StorageCall::RawBatchPut { context, cf, pairs } && context
            == self.context && cf == self.cf && pairs@ == tuples_of(self.pairs@)
    }

    pub fn into_call(self) -> (call: StorageCall<C>)
        ensures
            self.asks(call),
    {
        let ghost given = self.pairs@;
        let mut pairs: Vec<(Vec<u8>, Vec<u8>)> = Vec::new();
        for pair in it: self.pairs.into_iter()
            invariant
                it.seq() == given,
                pairs@ == tuples_of(it.seq().take(it.index() as int)),
        {
            pairs.push((pair.key, pair.value));
        }
        assert(pairs@ =~= tuples_of(given));
        StorageCall::RawBatchPut { context: self.context, cf: self.cf, pairs }
    }
}

impl<C> RawDeleteRequest<C> {
    /// Whether `call` is what this request asks of the storage.
    pub open spec fn asks(self, call: StorageCall<C>) -> bool {
        call == (StorageCall::RawDelete {
            context: self.context,
            cf: self.cf,
            key: self.key,
        })
    }

    pub fn into_call(self) -> (call: StorageCall<C>)
        ensures
            self.asks(call),
    {
        StorageCall::RawDelete { context: self.context, cf: self.cf, key: self.key }
    }
}

impl<C> RawBatchDeleteRequest<C> {
    /// Whether `call` is what this request asks of the storage.
    pub open spec fn asks(self, call: StorageCall<C>) -> bool {
        call == (StorageCall::RawBatchDelete {
            context: self.context,
            cf: self.cf,
            keys: self.keys,
        })
    }

    pub fn into_call(self) -> (call: StorageCall<C>)
        ensures
            self.asks(call),
    {
        StorageCall::RawBatchDelete { context: self.context, cf: self.cf, keys: self.keys }
    }
}

impl<C> RawScanRequest<C> {
    /// Whether `call` is what this request asks of the storage.
    pub open spec fn asks(self, call: StorageCall<C>) -> bool {
        call == (StorageCall::RawScan {
            context: self.context,
            cf: self.cf,
            start_key: self.start_key,
            end_key: if self.end_key@.len() == 0 {
                None
            } else {
                Some(self.end_key)
            },
            limit: self.limit as usize,
            key_only: self.key_only,
            reverse: self.reverse,
        })
    }

    pub fn into_call(self) -> (call: StorageCall<C>)
        ensures
            self.asks(call),
    {
        let end_key: Option<Vec<u8>> = if self.end_key.len() == 0 {
            None
        } else {
            Some(self.end_key)
        };
        StorageCall::RawScan {
            context: self.context,
            cf: self.cf,
            start_key: self.start_key,
            end_key,
            limit: self.limit as usize,
            key_only: self.key_only,
            reverse: self.reverse,
        }
    }
}

impl<C> RawBatchScanRequest<C> {
    /// Whether `call` is what this request asks of the storage.
    pub open spec fn asks(self, call: StorageCall<C>) -> bool {
        call == (StorageCall::RawBatchScan {
            context: self.context,
            cf: self.cf,
            ranges: self.ranges,
            each_limit: self.each_limit as usize,
            key_only: self.key_only,
            reverse: self.reverse,
        })
    }

    pub fn into_call(self) -> (call: StorageCall<C>)
        ensures
            self.asks(call),
    {
        StorageCall::RawBatchScan {
            context: self.context,
            cf: self.cf,
            ranges: self.ranges,
            each_limit: self.each_limit as usize,
            key_only: self.key_only,
            reverse: self.reverse,
        }
    }
}

impl<C> RawDeleteRangeRequest<C> {
    /// Whether `call` is what this request asks of the storage.
    pub open spec fn asks(self, call: StorageCall<C>) -> bool {
        call == (StorageCall::RawDeleteRange {
            context: self.context,
            cf: self.cf,
            start_key: self.start_key,
            end_key: self.end_key,
        })
    }

    pub fn into_call(self) -> (call: StorageCall<C>)
        ensures
            self.asks(call),
    {
        StorageCall::RawDeleteRange {
            context: self.context,
            cf: self.cf,
            start_key: self.start_key,
            end_key: self.end_key,
        }
    }
}

} // verus!
