//! The status with which a call ends that is not answered by a response.
use vstd::prelude::*;

verus! {

#[derive(Clone, Copy, PartialEq, Eq, Structural, Debug)]
pub enum RpcStatusCode {
    Unknown,
    ResourceExhausted,
    Unimplemented,
}

#[derive(Debug, PartialEq, Eq)]
pub struct RpcStatus {
    pub status: RpcStatusCode,
    pub details: Option<String>,
}

impl RpcStatus {
    pub fn new(status: RpcStatusCode, details: Option<String>) -> (r: RpcStatus)
        ensures
            r == (RpcStatus { status, details }),
    {
        RpcStatus { status, details }
    }

    /// The status of a call that this service does not offer.
    pub fn unimplemented() -> (r: RpcStatus)
        ensures
            r == (RpcStatus { status: RpcStatusCode::Unimplemented, details: None }),
    {
        RpcStatus::new(RpcStatusCode::Unimplemented, None)
    }

    /// The status of a stream of responses that breaks off with the given error.
    pub fn broken_stream(message: String) -> (r: RpcStatus)
        ensures
            r == (RpcStatus { status: RpcStatusCode::Unknown, details: Some(message) }),
    {
        RpcStatus::new(RpcStatusCode::Unknown, Some(message))
    }
}

} // verus!
