//! Data responses, and how each of them follows from what the storage answered.
//!
//! `R` is a region error, `K` a key error and `P` a key-value pair as they go to the client. A
//! region error says that the request came to the wrong place, or at the wrong time, so a response
//! that carries one carries nothing else.
use vstd::prelude::*;

verus! {

/// What the storage answered to a call.
///
/// `region_error` is the region error that the answer comes down to, if it is one. `result` is the
/// answer itself, with an error already in the form in which the client gets it.
#[derive(Debug, PartialEq, Eq)]
pub struct Reply<T, E, R> {
    pub region_error: Option<R>,
    pub result: Result<T, E>,
}

impl<T, R> Reply<T, String, R> {
    /// The error text that the client gets: that of the failure, and none on success or beside a
    /// region error.
    pub open spec fn message(self) -> Seq<char> {
        match (self.region_error, self.result) {
            (None, Err(message)) => message@,
            _ => Seq::empty(),
        }
    }
}

impl<T, K, R> Reply<T, K, R> {
    /// The failure that the client gets: none on success or beside a region error.
    pub open spec fn failure(self) -> Option<K> {
        match (self.region_error, self.result) {
            (None, Err(error)) => Some(error),
            _ => None,
        }
    }
}

/// What the storage answered to a read of several keys: the pairs as they go to the client, among
/// them those that stand for a failure.
#[derive(Debug, PartialEq, Eq)]
pub struct PairsReply<P, R> {
    pub region_error: Option<R>,
    pub pairs: Vec<P>,
}

impl<P, R> PairsReply<P, R> {
    /// The pairs that the client gets: all of them, and none beside a region error.
    pub open spec fn delivered(self) -> Seq<P> {
        if self.region_error is None {
            self.pairs@
        } else {
            Seq::empty()
        }
    }

    fn into_parts(self) -> (parts: (Option<R>, Vec<P>))
        ensures
            parts.0 == self.region_error,
            parts.1@ == self.delivered(),
    {
        let pairs: Vec<P> = if self.region_error.is_none() {
            self.pairs
        } else {
            Vec::new()
        };
        (self.region_error, pairs)
    }
}

impl<T, R> Reply<T, String, R> {
    fn into_message(self) -> (parts: (Option<R>, String))
        ensures
            parts.0 == self.region_error,
            parts.1@ == self.message(),
    {
        let message: String = match self.result {
            Err(message) if self.region_error.is_none() => message,
            _ => String::new(),
        };
        (self.region_error, message)
    }
}

/// The value of a key.
#[derive(Debug, PartialEq, Eq)]
pub struct GetResponse<R, K> {
    pub region_error: Option<R>,
    pub error: Option<K>,
    pub value: Vec<u8>,
    pub not_found: bool,
}

impl<R, K> GetResponse<R, K> {
    /// Whether this is the response that follows from `reply`.
    pub open spec fn answers(self, reply: Reply<Option<Vec<u8>>, K, R>) -> bool {
        &&& self.region_error == reply.region_error
        &&& self.error == reply.failure()
        &&& match (reply.region_error, reply.result) {
            (None, Ok(Some(value))) => self.value@ == value@ && !self.not_found,
            (None, Ok(None)) => self.value@.len() == 0 && self.not_found,
            _ => self.value@.len() == 0 && !self.not_found,
        }
    }

    pub fn from_reply(reply: Reply<Option<Vec<u8>>, K, R>) -> (resp: Self)
        ensures
            resp.answers(reply),
    {
        let mut resp = GetResponse {
            region_error: None,
            error: None,
            value: Vec::new(),
            not_found: false,
        };
        if let Some(err) = reply.region_error {
            resp.region_error = Some(err);
        } else {
            match reply.result {
                Ok(Some(value)) => {
                    resp.value = value;
                },
                Ok(None) => {
                    resp.not_found = true;
                },
                Err(e) => {
                    resp.error = Some(e);
                },
            }
        }
        resp
    }
}

/// The value of a raw key.
#[derive(Debug, PartialEq, Eq)]
pub struct RawGetResponse<R> {
    pub region_error: Option<R>,
    pub error: String,
    pub value: Vec<u8>,
    pub not_found: bool,
}

impl<R> RawGetResponse<R> {
    /// Whether this is the response that follows from `reply`.
    pub open spec fn answers(self, reply: Reply<Option<Vec<u8>>, String, R>) -> bool {
        &&& self.region_error == reply.region_error
        &&& self.error@ == reply.message()
        &&& match (reply.region_error, reply.result) {
            (None, Ok(Some(value))) => self.value@ == value@ && !self.not_found,
            (None, Ok(None)) => self.value@.len() == 0 && self.not_found,
            _ => self.value@.len() == 0 && !self.not_found,
        }
    }

    pub fn from_reply(reply: Reply<Option<Vec<u8>>, String, R>) -> (resp: Self)
        ensures
            resp.answers(reply),
    {
        let mut resp = RawGetResponse {
            region_error: None,
            error: String::new(),
            value: Vec::new(),
            not_found: false,
        };
        if let Some(err) = reply.region_error {
            resp.region_error = Some(err);
        } else {
            match reply.result {
                Ok(Some(value)) => {
                    resp.value = value;
                },
                Ok(None) => {
                    resp.not_found = true;
                },
                Err(e) => {
                    resp.error = e;
                },
            }
        }
        resp
    }
}

/// The pairs of a range.
#[derive(Debug, PartialEq, Eq)]
pub struct ScanResponse<R, P> {
    pub region_error: Option<R>,
    pub pairs: Vec<P>,
}

impl<R, P> ScanResponse<R, P> {
    /// Whether this is the response that follows from `reply`.
    pub open spec fn answers(self, reply: PairsReply<P, R>) -> bool {
        &&& self.region_error == reply.region_error
        &&& self.pairs@ == reply.delivered()
    }

    pub fn from_reply(reply: PairsReply<P, R>) -> (resp: Self)
        ensures
            resp.answers(reply),
    {
        let (region_error, pairs) = reply.into_parts();
        ScanResponse { region_error, pairs }
    }
}

/// The pairs of several keys.
#[derive(Debug, PartialEq, Eq)]
pub struct BatchGetResponse<R, P> {
    pub region_error: Option<R>,
    pub pairs: Vec<P>,
}

impl<R, P> BatchGetResponse<R, P> {
    /// Whether this is the response that follows from `reply`.
    pub open spec fn answers(self, reply: PairsReply<P, R>) -> bool {
        &&& self.region_error == reply.region_error
        &&& self.pairs@ == reply.delivered()
    }

    pub fn from_reply(reply: PairsReply<P, R>) -> (resp: Self)
        ensures
            resp.answers(reply),
    {
        let (region_error, pairs) = reply.into_parts();
        BatchGetResponse { region_error, pairs }
    }
}

/// The pairs of several raw keys.
#[derive(Debug, PartialEq, Eq)]
pub struct RawBatchGetResponse<R, P> {
    pub region_error: Option<R>,
    pub pairs: Vec<P>,
}

impl<R, P> RawBatchGetResponse<R, P> {
    /// Whether this is the response that follows from `reply`.
    pub open spec fn answers(self, reply: PairsReply<P, R>) -> bool {
        &&& self.region_error == reply.region_error
        &&& self.pairs@ == reply.delivered()
    }

    pub fn from_reply(reply: PairsReply<P, R>) -> (resp: Self)
        ensures
            resp.answers(reply),
    {
        let (region_error, pairs) = reply.into_parts();
        RawBatchGetResponse { region_error, pairs }
    }
}

/// The pairs of a raw range.
#[derive(Debug, PartialEq, Eq)]
pub struct RawScanResponse<R, P> {
    pub region_error: Option<R>,
    pub kvs: Vec<P>,
}

impl<R, P> RawScanResponse<R, P> {
    /// Whether this is the response that follows from `reply`.
    pub open spec fn answers(self, reply: PairsReply<P, R>) -> bool {
        &&& self.region_error == reply.region_error
        &&& self.kvs@ == reply.delivered()
    }

    pub fn from_reply(reply: PairsReply<P, R>) -> (resp: Self)
        ensures
            resp.answers(reply),
    {
        let (region_error, kvs) = reply.into_parts();
        RawScanResponse { region_error, kvs }
    }
}

/// The pairs of several raw ranges.
#[derive(Debug, PartialEq, Eq)]
pub struct RawBatchScanResponse<R, P> {
    pub region_error: Option<R>,
    pub kvs: Vec<P>,
}

impl<R, P> RawBatchScanResponse<R, P> {
    /// Whether this is the response that follows from `reply`.
    pub open spec fn answers(self, reply: PairsReply<P, R>) -> bool {
        &&& self.region_error == reply.region_error
        &&& self.kvs@ == reply.delivered()
    }

    pub fn from_reply(reply: PairsReply<P, R>) -> (resp: Self)
        ensures
            resp.answers(reply),
    {
        let (region_error, kvs) = reply.into_parts();
        RawBatchScanResponse { region_error, kvs }
    }
}

/// How the deletion of a range went.
#[derive(Debug, PartialEq, Eq)]
pub struct DeleteRangeResponse<R> {
    pub region_error: Option<R>,
    pub error: String,
}

impl<R> DeleteRangeResponse<R> {
    /// Whether this is the response that follows from `reply`.
    pub open spec fn answers(self, reply: Reply<(), String, R>) -> bool {
        &&& self.region_error == reply.region_error
        &&& self.error@ == reply.message()
    }

    pub fn from_reply(reply: Reply<(), String, R>) -> (resp: Self)
        ensures
            resp.answers(reply),
    {
        let (region_error, error) = reply.into_message();
        DeleteRangeResponse { region_error, error }
    }
}

/// How a raw write went.
#[derive(Debug, PartialEq, Eq)]
pub struct RawPutResponse<R> {
    pub region_error: Option<R>,
    pub error: String,
}

impl<R> RawPutResponse<R> {
    /// Whether this is the response that follows from `reply`.
    pub open spec fn answers(self, reply: Reply<(), String, R>) -> bool {
        &&& self.region_error == reply.region_error
        &&& self.error@ == reply.message()
    }

    pub fn from_reply(reply: Reply<(), String, R>) -> (resp: Self)
        ensures
            resp.answers(reply),
    {
        let (region_error, error) = reply.into_message();
        RawPutResponse { region_error, error }
    }
}

/// How several raw writes went.
#[derive(Debug, PartialEq, Eq)]
pub struct RawBatchPutResponse<R> {
    pub region_error: Option<R>,
    pub error: String,
}

impl<R> RawBatchPutResponse<R> {
    /// Whether this is the response that follows from `reply`.
    pub open spec fn answers(self, reply: Reply<(), String, R>) -> bool {
        &&& self.region_error == reply.region_error
        &&& self.error@ == reply.message()
    }

    pub fn from_reply(reply: Reply<(), String, R>) -> (resp: Self)
        ensures
            resp.answers(reply),
    {
        let (region_error, error) = reply.into_message();
        RawBatchPutResponse { region_error, error }
    }
}

/// How a raw deletion went.
#[derive(Debug, PartialEq, Eq)]
pub struct RawDeleteResponse<R> {
    pub region_error: Option<R>,
    pub error: String,
}

impl<R> RawDeleteResponse<R> {
    /// Whether this is the response that follows from `reply`.
    pub open spec fn answers(self, reply: Reply<(), String, R>) -> bool {
        &&& self.region_error == reply.region_error
        &&& self.error@ == reply.message()
    }

    pub fn from_reply(reply: Reply<(), String, R>) -> (resp: Self)
        ensures
            resp.answers(reply),
    {
        let (region_error, error) = reply.into_message();
        RawDeleteResponse { region_error, error }
    }
}

/// How several raw deletions went.
#[derive(Debug, PartialEq, Eq)]
pub struct RawBatchDeleteResponse<R> {
    pub region_error: Option<R>,
    pub error: String,
}

impl<R> RawBatchDeleteResponse<R> {
    /// Whether this is the response that follows from `reply`.
    pub open spec fn answers(self, reply: Reply<(), String, R>) -> bool {
        &&& self.region_error == reply.region_error
        &&& self.error@ == reply.message()
    }

    pub fn from_reply(reply: Reply<(), String, R>) -> (resp: Self)
        ensures
            resp.answers(reply),
    {
        let (region_error, error) = reply.into_message();
        RawBatchDeleteResponse { region_error, error }
    }
}

/// How the deletion of a raw range went.
#[derive(Debug, PartialEq, Eq)]
pub struct RawDeleteRangeResponse<R> {
    pub region_error: Option<R>,
    pub error: String,
}

impl<R> RawDeleteRangeResponse<R> {
    /// Whether this is the response that follows from `reply`.
    pub open spec fn answers(self, reply: Reply<(), String, R>) -> bool {
        &&& self.region_error == reply.region_error
        &&& self.error@ == reply.message()
    }

    pub fn from_reply(reply: Reply<(), String, R>) -> (resp: Self)
        ensures
            resp.answers(reply),
    {
        let (region_error, error) = reply.into_message();
        RawDeleteRangeResponse { region_error, error }
    }
}

} // verus!
