//! The items of streams of responses.
use vstd::prelude::*;

verus! {

/// How an item of a stream is written to the connection.
#[derive(Clone, Copy, PartialEq, Eq, Structural, Debug)]
pub struct WriteFlags {
    /// Whether the item may be held back so as to go out together with the next one.
    pub buffer_hint: bool,
}

/// A response of a stream of the coprocessor, as it goes out. More of them follow soon, so that it
/// may be held back.
pub fn coprocessor_stream_item<T>(response: T) -> (item: (T, WriteFlags))
    ensures
        item == (response, WriteFlags { buffer_hint: true }),
{
    (response, WriteFlags { buffer_hint: true })
}

} // verus!
