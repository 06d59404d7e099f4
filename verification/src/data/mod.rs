//! The lenient view of a request, and the builder of replies to it.

pub mod question;
pub mod request;
pub mod response;

pub use self::question::{DnsQuestion, DnsQuestionIterator, DnsQuestionNameIter, QType};
pub use self::request::{DnsRequest, QueryType, ResponseCode};
pub use self::response::{DnsResponseBuilderAfterHeader, DnsResponseBuilderNoHeader};

use vstd::prelude::*;

verus! {

/// Why a buffer cannot be taken as a request.
#[derive(Debug, PartialEq, Structural, Eq, Clone, Copy)]
pub enum Error {
    /// The buffer ends before the question section does; `additional` more
    /// bytes are needed before another attempt.
    EndOfSlice { additional: usize },
}

/// Splits a slice in two at `mid`; `None` where the slice is shorter than
/// `mid`.
pub(crate) fn try_split_at<'a>(slice: &'a [u8], mid: usize) -> (r: Option<(&'a [u8], &'a [u8])>)
    ensures
        mid > slice@.len() ==> r is None,
        mid <= slice@.len() ==> r is Some && r->Some_0.0@ == slice@.subrange(0, mid as int)
            && r->Some_0.1@ == slice@.subrange(mid as int, slice@.len() as int),
{
    if mid > slice.len() {
        None
    } else {
        Some(slice.split_at(mid))
    }
}

} // verus!
