//! What a crawl hands back to the client.

use vstd::prelude::*;

verus! {

/// The part of an answer that describes the answer itself; it says nothing yet.
#[derive(Debug, Clone, Copy, PartialEq, Eq, Structural)]
pub struct MetaResponseData {}

/// An answer: what was asked for, and what there is to say about it.
#[derive(Debug)]
pub struct GenericResponseStruct<D, M> {
    pub data: D,
    pub meta: M,
}

/// How long an answer took and when it was given.
#[derive(Debug)]
pub struct TimeMeta {
    /// The time the request took, as text.
    pub time_taken: String,
    /// The moment of the answer, as text.
    pub times_tamp: String,
}

/// The answer that carries `data` and tells how long it took and when it
/// was given.
pub fn basic_response<D>(data: D, time_taken: String, times_tamp: String) -> (response:
    GenericResponseStruct<D, TimeMeta>)
    ensures
        response.data == data,
        response.meta.time_taken == time_taken,
        response.meta.times_tamp == times_tamp,
{
    GenericResponseStruct { data, meta: TimeMeta { time_taken, times_tamp } }
}

} // verus!
