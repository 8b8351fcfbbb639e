//! Requests that go to the garbage collector: observing locks, scanning for them and destroying
//! ranges.
//!
//! `C` is the context of a request, which is handed on unread. `L` describes a lock as it goes to
//! the client. A failure is told to the client as a text in an otherwise empty response.
use crate::key::Key;
use crate::key::TimeStamp;
use vstd::prelude::*;

verus! {

#[derive(Debug, PartialEq, Eq)]
pub struct RegisterLockObserverRequest {
    pub max_ts: u64,
}

#[derive(Debug, PartialEq, Eq)]
pub struct CheckLockObserverRequest {
    pub max_ts: u64,
}

#[derive(Debug, PartialEq, Eq)]
pub struct RemoveLockObserverRequest {
    pub max_ts: u64,
}

#[derive(Debug, PartialEq, Eq)]
pub struct PhysicalScanLockRequest<C> {
    pub context: C,
    pub max_ts: u64,
    pub start_key: Vec<u8>,
    pub limit: u32,
}

#[derive(Debug, PartialEq, Eq)]
pub struct UnsafeDestroyRangeRequest<C> {
    pub context: C,
    pub start_key: Vec<u8>,
    pub end_key: Vec<u8>,
}

/// A call of the garbage collector, with all of its arguments.
#[derive(Debug, PartialEq, Eq)]
pub enum GcCall<C> {
    StartCollecting { max_ts: TimeStamp },
    GetCollectedLocks { max_ts: TimeStamp },
    StopCollecting { max_ts: TimeStamp },
    PhysicalScanLock { context: C, max_ts: TimeStamp, start_key: Key, limit: usize },
    UnsafeDestroyRange { context: C, start_key: Key, end_key: Key },
}

impl RegisterLockObserverRequest {
    pub fn into_call<C>(self) -> (call: GcCall<C>)
        ensures
            call == (GcCall::<C>::StartCollecting { max_ts: TimeStamp { inner: self.max_ts } }),
    {
        GcCall::StartCollecting { max_ts: TimeStamp::new(self.max_ts) }
    }
}

impl CheckLockObserverRequest {
    pub fn into_call<C>(self) -> (call: GcCall<C>)
        ensures
            call == (GcCall::<C>::GetCollectedLocks { max_ts: TimeStamp { inner: self.max_ts } }),
    {
        GcCall::GetCollectedLocks { max_ts: TimeStamp::new(self.max_ts) }
    }
}

impl RemoveLockObserverRequest {
    pub fn into_call<C>(self) -> (call: GcCall<C>)
        ensures
            call == (GcCall::<C>::StopCollecting { max_ts: TimeStamp { inner: self.max_ts } }),
    {
        GcCall::StopCollecting { max_ts: TimeStamp::new(self.max_ts) }
    }
}

impl<C> PhysicalScanLockRequest<C> {
    pub fn into_call(self) -> (call: GcCall<C>)
        ensures
            call == (GcCall::PhysicalScanLock {
                context: self.context,
                max_ts: TimeStamp { inner: self.max_ts },
                start_key: Key { raw: self.start_key },
                limit: self.limit as usize,
            }),
    {
        GcCall::PhysicalScanLock {
            context: self.context,
            max_ts: TimeStamp::new(self.max_ts),
            start_key: Key::from_raw(self.start_key),
            limit: self.limit as usize,
        }
    }
}

impl<C> UnsafeDestroyRangeRequest<C> {
    /// Whether the range has both ends.
    pub open spec fn bounded(self) -> bool {
        self.start_key@.len() > 0 && self.end_key@.len() > 0
    }

    /// Whether the range has both ends. Destroying a range is a very dangerous operation, so one
    /// that reaches to an end of the key space is out of the question.
    pub fn is_bounded(&self) -> (r: bool)
        ensures
            r == self.bounded(),
    {
        self.start_key.len() > 0 && self.end_key.len() > 0
    }

    pub fn into_call(self) -> (call: GcCall<C>)
        requires
            self.bounded(),
        ensures
            call == (GcCall::UnsafeDestroyRange {
                context: self.context,
                start_key: Key { raw: self.start_key },
                end_key: Key { raw: self.end_key },
            }),
            call matches GcCall::UnsafeDestroyRange { context: _, start_key, end_key }
                && start_key.raw@.len() > 0 && end_key.raw@.len() > 0,
    {
        GcCall::UnsafeDestroyRange {
            context: self.context,
            start_key: Key::from_raw(self.start_key),
            end_key: Key::from_raw(self.end_key),
        }
    }
}

/// The text of a failure, and none on success.
pub open spec fn failure_text<T>(result: Result<T, String>) -> Seq<char> {
    match result {
        Ok(_) => Seq::empty(),
        Err(message) => message@,
    }
}

fn into_failure_text(result: Result<(), String>) -> (error: String)
    ensures
        error@ == failure_text(result),
{
    match result {
        Ok(_) => String::new(),
        Err(message) => message,
    }
}

#[derive(Debug, PartialEq, Eq)]
pub struct RegisterLockObserverResponse {
    pub error: String,
}

impl RegisterLockObserverResponse {
    pub fn from_result(result: Result<(), String>) -> (resp: Self)
        ensures
            resp.error@ == failure_text(result),
    {
        RegisterLockObserverResponse { error: into_failure_text(result) }
    }
}

#[derive(Debug, PartialEq, Eq)]
pub struct CheckLockObserverResponse<L> {
    pub error: String,
    pub is_clean: bool,
    pub locks: Vec<L>,
}

impl<L> CheckLockObserverResponse<L> {
    pub fn from_result(result: Result<(Vec<L>, bool), String>) -> (resp: Self)
        ensures
            resp.error@ == failure_text(result),
            match result {
                Ok((locks, is_clean)) => resp.locks@ == locks@ && resp.is_clean == is_clean,
                Err(_) => resp.locks@.len() == 0 && !resp.is_clean,
            },
    {
        match result {
            Ok((locks, is_clean)) => CheckLockObserverResponse {
                error: String::new(),
                is_clean,
                locks,
            },
            Err(e) => CheckLockObserverResponse { error: e, is_clean: false, locks: Vec::new() },
        }
    }
}

#[derive(Debug, PartialEq, Eq)]
pub struct RemoveLockObserverResponse {
    pub error: String,
}

impl RemoveLockObserverResponse {
    pub fn from_result(result: Result<(), String>) -> (resp: Self)
        ensures
            resp.error@ == failure_text(result),
    {
        RemoveLockObserverResponse { error: into_failure_text(result) }
    }
}

#[derive(Debug, PartialEq, Eq)]
pub struct PhysicalScanLockResponse<L> {
    pub error: String,
    pub locks: Vec<L>,
}

impl<L> PhysicalScanLockResponse<L> {
    pub fn from_result(result: Result<Vec<L>, String>) -> (resp: Self)
        ensures
            resp.error@ == failure_text(result),
            match result {
                Ok(locks) => resp.locks@ == locks@,
                Err(_) => resp.locks@.len() == 0,
            },
    {
        match result {
            Ok(locks) => PhysicalScanLockResponse { error: String::new(), locks },
            Err(e) => PhysicalScanLockResponse { error: e, locks: Vec::new() },
        }
    }
}

/// How the destruction of a range went. It is not bound to a region, so there is no region error.
#[derive(Debug, PartialEq, Eq)]
pub struct UnsafeDestroyRangeResponse {
    pub error: String,
}

impl UnsafeDestroyRangeResponse {
    pub fn from_result(result: Result<(), String>) -> (resp: Self)
        ensures
            resp.error@ == failure_text(result),
    {
        UnsafeDestroyRangeResponse { error: into_failure_text(result) }
    }
}

} // verus!
