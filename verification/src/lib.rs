//! Decoding and encoding of DNS messages directly on byte buffers.
//!
//! * [`common`] holds the wire-format decoders: the header, domain names,
//!   type and class tables, questions and resource records.
//! * [`request`] walks a whole message against the counts of its header.
//! * [`retry`] proves what more bytes do to the outcome of a parse.
//! * [`data`] holds the lenient request view and the reply builder.
//! * [`utils`] converts between integers and big-endian bytes.

pub mod common;
pub mod data;
pub mod request;
pub mod retry;
pub mod utils;

pub use data::Error as RequestError;

use vstd::prelude::*;
use crate::data::request::{lemma_nothing_missing, missing, section_end, u16_at};
use crate::data::DnsRequest;

verus! {

/// Takes a buffer as a request, if it holds a whole header and all the
/// questions that the header counts. Where it does not, `additional` says
/// how many bytes are missing: of the twelve bytes of the header, or of the
/// first question that ends outside the buffer.
pub fn parse_request(data: &[u8]) -> (r: Result<DnsRequest<'_>, RequestError>)
    ensures
        data@.len() < 12 ==> r == Err::<DnsRequest<'_>, RequestError>(
            RequestError::EndOfSlice { additional: (12 - data@.len()) as usize },
        ),
        data@.len() >= 12 ==> match missing(data@, 12, u16_at(data@, 4) as nat) {
            Some(m) => r == Err::<DnsRequest<'_>, RequestError>(
                RequestError::EndOfSlice { additional: m as usize },
            ),
            None => r is Ok && r->Ok_0.data@ == data@ && r->Ok_0.question_range.start == 12
                && r->Ok_0.question_range.end == section_end(data@, 12, u16_at(data@, 4) as nat)
                && 12 <= r->Ok_0.question_range.end <= data@.len(),
        },
{
    if data.len() < 12 {
        return Err(RequestError::EndOfSlice { additional: 12 - data.len() });
    }
    match DnsRequest::missing_bytes(data) {
        Some(additional) => Err(RequestError::EndOfSlice { additional }),
        None => {
            proof {
                lemma_nothing_missing(data@, 12, u16_at(data@, 4) as nat);
            }
            Ok(DnsRequest::new(data))
        },
    }
}

} // verus!
