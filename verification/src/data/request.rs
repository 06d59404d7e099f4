//! A request as it comes from a client, read leniently: a field that the
//! buffer is too short for reads as its default.

use core::ops::Range;
use vstd::prelude::*;
use vstd::std_specs::convert::FromSpecImpl;
use crate::common::header::{
    field_opcode, field_response_code, flag_authoritative, flag_recursion_available,
    flag_recursion_desired, flag_response, flag_truncated,
};
use crate::data::question::{name_length, DnsQuestion, DnsQuestionIterator};
use crate::data::response::DnsResponseBuilderNoHeader;
use crate::utils::{be16, to_u16};

verus! {

/// The big-endian 16-bit number at `offset`; 0 where the buffer does not
/// hold both of its bytes.
pub open spec fn u16_at(data: Seq<u8>, offset: int) -> u16 {
    if 0 <= offset && offset + 2 <= data.len() {
        be16(data[offset], data[offset + 1])
    } else {
        0
    }
}

/// The byte at `offset`; 0 where the buffer does not hold it.
pub open spec fn byte_at(data: Seq<u8>, offset: int) -> u8 {
    if 0 <= offset < data.len() {
        data[offset]
    } else {
        0
    }
}

/// Whether all bits of `mask` are set in the byte at `offset`; a byte that
/// the buffer does not hold counts as 0.
pub open spec fn bits_at(data: Seq<u8>, offset: int, mask: u8) -> bool {
    byte_at(data, offset) & mask == mask
}

/// The number of bytes that the question at `start` takes: the labels of
/// its name, and five bytes for the zero byte, the type and the class.
pub open spec fn question_len(data: Seq<u8>, start: int) -> int {
    name_length(data.subrange(start, data.len() as int)) + 5
}

/// Where `count` questions end that lie one after the other from `start`.
pub open spec fn section_end(data: Seq<u8>, start: int, count: nat) -> int
    decreases count,
{
    if count == 0 {
        start
    } else {
        section_end(data, start + question_len(data, start), (count - 1) as nat)
    }
}

/// Whether `count` questions can be walked from `start`: each starts inside
/// the buffer or at its end, and ends at a place that a `usize` can hold.
pub open spec fn walkable(data: Seq<u8>, start: int, count: nat) -> bool
    decreases count,
{
    count == 0 || (0 <= start <= data.len() && start + question_len(data, start) <= usize::MAX
        && walkable(data, start + question_len(data, start), (count - 1) as nat))
}

/// The number of bytes that the buffer lacks for `count` questions from
/// `start`, by the first question that starts or ends outside the buffer;
/// `None` where the buffer holds them all.
pub open spec fn missing(data: Seq<u8>, start: int, count: nat) -> Option<int>
    decreases count,
{
    if start > data.len() {
        Some(start - data.len())
    } else if count == 0 {
        None
    } else {
        missing(data, start + question_len(data, start), (count - 1) as nat)
    }
}

/// A buffer that lacks nothing for its questions can be walked, and the
/// questions end inside it.
pub proof fn lemma_nothing_missing(data: Seq<u8>, start: int, count: nat)
    requires
        0 <= start,
        data.len() <= usize::MAX,
        missing(data, start, count) is None,
    ensures
        walkable(data, start, count),
        start <= section_end(data, start, count) <= data.len(),
    decreases count,
{
    if count > 0 {
        let next = start + question_len(data, start);
        crate::data::question::lemma_name_scan_bounds(data.subrange(start, data.len() as int), 0);
        lemma_nothing_missing(data, next, (count - 1) as nat);
    }
}

/// A request of a client, over the buffer that it came in.
pub struct DnsRequest<'a> {
    /// The whole message.
    pub data: &'a [u8],
    /// The range of the question section in the message.
    pub question_range: Range<usize>,
}

impl<'a> DnsRequest<'a> {
    /// Takes a buffer as a request, and finds the end of its question
    /// section by walking as many questions as the header counts.
    pub fn new(data: &'a [u8]) -> (r: Self)
        requires
            walkable(data@, 12, u16_at(data@, 4) as nat),
        ensures
            r.data@ == data@,
            r.question_range.start == 12,
            r.question_range.end == section_end(data@, 12, u16_at(data@, 4) as nat),
            r.question_range.end >= 12,
    {
        let mut result = DnsRequest { data, question_range: (0..0) };

        let start: usize = 12;
        let mut end: usize = start;
        let count: u16 = result.question_count();
        let mut walked: u16 = 0;
        while walked < count
            invariant
                walked <= count,
                12 <= end,
                walkable(data@, end as int, (count - walked) as nat),
                section_end(data@, end as int, (count - walked) as nat) == section_end(
                    data@,
                    12,
                    count as nat,
                ),
            decreases count - walked,
        {
            end += DnsQuestionIterator::calculate_len(&data[end..data.len()]);
            walked += 1;
        }
        result.question_range = start..end;
        result
    }

    /// The number of bytes that `data` lacks for the questions that its
    /// header counts, by the first question that ends outside the buffer;
    /// `None` where it holds them all.
    pub fn missing_bytes(data: &[u8]) -> (r: Option<usize>)
        requires
            data@.len() >= 12,
        ensures
            match missing(data@, 12, u16_at(data@, 4) as nat) {
                Some(m) => r == Some(m as usize) && 1 <= m <= 5,
                None => r is None,
            },
    {
        let count: u16 = match to_u16(&data[4..6]) {
            Some(count) => count,
            None => 0,
        };
        let mut start: usize = 12;
        let mut walked: u16 = 0;
        while walked < count
            invariant
                walked <= count,
                count == u16_at(data@, 4),
                12 <= start <= data@.len(),
                missing(data@, start as int, (count - walked) as nat) == missing(
                    data@,
                    12,
                    count as nat,
                ),
            decreases count - walked,
        {
            let rest: &[u8] = &data[start..data.len()];
            let name_len: usize = DnsQuestionIterator::calculate_name_length(rest);
            let behind: usize = rest.len() - name_len;
            if behind < 5 {
                assert(rest@ == data@.subrange(start as int, data@.len() as int));
                assert(missing(
                    data@,
                    start + question_len(data@, start as int),
                    ((count - walked) as nat - 1) as nat,
                ) == Some(5 - behind as int));
                assert(missing(data@, start as int, (count - walked) as nat) == Some(
                    5 - behind as int,
                ));
                return Some(5 - behind);
            }
            assert(rest@ == data@.subrange(start as int, data@.len() as int));
            assert(missing(data@, start as int, (count - walked) as nat) == missing(
                data@,
                start + question_len(data@, start as int),
                ((count - walked) as nat - 1) as nat,
            ));
            start += name_len + 5;
            walked += 1;
        }
        None
    }

    fn get_u16(&self, offset: usize) -> (r: u16)
        requires
            offset + 2 <= usize::MAX,
        ensures
            r == u16_at(self.data@, offset as int),
    {
        if offset + 2 > self.data.len() {
            return 0;
        }
        match to_u16(&self.data[offset..offset + 2]) {
            Some(val) => val,
            None => 0,
        }
    }

    fn is_bit_set(&self, offset: usize, mask: u8) -> (r: bool)
        ensures
            r == bits_at(self.data@, offset as int, mask),
    {
        let byte: u8 = if offset < self.data.len() {
            self.data[offset]
        } else {
            0
        };
        byte & mask == mask
    }

    /// The identifier that the client gave the request.
    pub fn identification(&self) -> (r: u16)
        ensures
            r == u16_at(self.data@, 0),
    {
        self.get_u16(0)
    }

    /// Whether the message is a query.
    pub fn is_query(&self) -> (r: bool)
        ensures
            r == !flag_response(byte_at(self.data@, 2)),
    {
        let ghost b: u8 = byte_at(self.data@, 2);
        assert((b & 0b1000_0000 == 0b1000_0000) == (b >= 128)) by (bit_vector);
        !self.is_bit_set(2, 0b1000_0000)
    }

    /// Whether the message is a reply.
    pub fn is_reply(&self) -> (r: bool)
        ensures
            r == flag_response(byte_at(self.data@, 2)),
    {
        let ghost b: u8 = byte_at(self.data@, 2);
        assert((b & 0b1000_0000 == 0b1000_0000) == (b >= 128)) by (bit_vector);
        self.is_bit_set(2, 0b1000_0000)
    }

    /// The kind of query: bits 3 to 6 of the third byte. The default where
    /// the buffer has no third byte.
    pub fn query_type(&self) -> (r: QueryType)
        ensures
            r == (if self.data@.len() > 2 {
                QueryType::from_code(field_opcode(self.data@[2]))
            } else {
                QueryType::Unknown(255)
            }),
    {
        if self.data.len() > 2 {
            let high: u8 = self.data[2];
            assert((high >> 3) & 0xF == high / 8 % 16) by (bit_vector);
            let bits: u8 = (high >> 3) & 0xF;
            QueryType::from(bits)
        } else {
            QueryType::default()
        }
    }

    /// Whether the answer comes from an authority for the name.
    pub fn is_authoritative_answer(&self) -> (r: bool)
        ensures
            r == flag_authoritative(byte_at(self.data@, 2)),
    {
        let ghost b: u8 = byte_at(self.data@, 2);
        assert((b & 0b0000_0100 == 0b0000_0100) == (b / 4 % 2 == 1)) by (bit_vector);
        self.is_bit_set(2, 0b0000_0100)
    }

    /// Whether the answer comes from a cache.
    pub fn is_cache_answer(&self) -> (r: bool)
        ensures
            r == !flag_authoritative(byte_at(self.data@, 2)),
    {
        let ghost b: u8 = byte_at(self.data@, 2);
        assert((b & 0b0000_0100 == 0b0000_0100) == (b / 4 % 2 == 1)) by (bit_vector);
        !self.is_bit_set(2, 0b0000_0100)
    }

    /// Whether the message was truncated.
    pub fn is_truncated(&self) -> (r: bool)
        ensures
            r == flag_truncated(byte_at(self.data@, 2)),
    {
        let ghost b: u8 = byte_at(self.data@, 2);
        assert((b & 0b0000_0010 == 0b0000_0010) == (b / 2 % 2 == 1)) by (bit_vector);
        self.is_bit_set(2, 0b0000_0010)
    }

    /// Whether the client asks for recursion.
    pub fn recursion_desired(&self) -> (r: bool)
        ensures
            r == flag_recursion_desired(byte_at(self.data@, 2)),
    {
        let ghost b: u8 = byte_at(self.data@, 2);
        assert((b & 0b0000_0001 == 0b0000_0001) == (b % 2 == 1)) by (bit_vector);
        self.is_bit_set(2, 0b0000_0001)
    }

    /// Whether the server offers recursion.
    pub fn recursion_available(&self) -> (r: bool)
        ensures
            r == flag_recursion_available(byte_at(self.data@, 3)),
    {
        let ghost b: u8 = byte_at(self.data@, 3);
        assert((b & 0b1000_0000 == 0b1000_0000) == (b >= 128)) by (bit_vector);
        self.is_bit_set(3, 0b1000_0000)
    }

    /// The response code: the low four bits of the fourth byte. The default
    /// where the buffer has no fourth byte.
    pub fn response_code(&self) -> (r: ResponseCode)
        ensures
            r == (if self.data@.len() > 3 {
                ResponseCode::from_code(field_response_code(self.data@[3]))
            } else {
                ResponseCode::Unassigned(255)
            }),
    {
        if self.data.len() > 3 {
            let low: u8 = self.data[3];
            assert(low & 0xF == low % 16) by (bit_vector);
            ResponseCode::from(low & 0xF)
        } else {
            ResponseCode::default()
        }
    }

    /// The number of questions that the header counts.
    pub fn question_count(&self) -> (r: u16)
        ensures
            r == u16_at(self.data@, 4),
    {
        self.get_u16(4)
    }

    /// The number of answers that the header counts.
    pub fn answer_count(&self) -> (r: u16)
        ensures
            r == u16_at(self.data@, 6),
    {
        self.get_u16(6)
    }

    /// The number of authority records that the header counts.
    pub fn authority_count(&self) -> (r: u16)
        ensures
            r == u16_at(self.data@, 8),
    {
        self.get_u16(8)
    }

    /// The number of additional records that the header counts.
    pub fn additional_count(&self) -> (r: u16)
        ensures
            r == u16_at(self.data@, 10),
    {
        self.get_u16(10)
    }

    /// The questions of the request, from the first.
    pub fn questions(&self) -> (r: DnsQuestionIterator<'a>)
        requires
            self.question_range.start <= self.question_range.end <= self.data@.len(),
        ensures
            r.0@ == self.data@.subrange(
                self.question_range.start as int,
                self.question_range.end as int,
            ),
    {
        DnsQuestionIterator(&self.data[self.question_range.start..self.question_range.end])
    }

    /// Starts a reply to `question`, which is written behind what `writer`
    /// holds already.
    pub fn build_reply_to(self, writer: Vec<u8>, question: DnsQuestion<'a>) -> (r:
        DnsResponseBuilderNoHeader<'a>)
        ensures
            r.written() == writer@,
            r.identification() == u16_at(self.data@, 0),
            r.question() == question,
    {
        DnsResponseBuilderNoHeader::new(self, question, writer)
    }
}

/// The kind of query of a message.
#[derive(Debug, Copy, Clone, PartialEq, Structural, Eq)]
pub enum QueryType {
    Query,
    InverseQuery,
    Status,
    Unassigned,
    Notify,
    Update,
    DnsStatefulOperation,
    Unknown(u8),
}

impl Default for QueryType {
    fn default() -> (r: Self)
        ensures
            r == QueryType::Unknown(255),
    {
        QueryType::Unknown(u8::MAX)
    }
}

impl From<u8> for QueryType {
    fn from(val: u8) -> (r: QueryType) {
        match val {
            0 => QueryType::Query,
            1 => QueryType::InverseQuery,
            2 => QueryType::Status,
            3 => QueryType::Unassigned,
            4 => QueryType::Notify,
            5 => QueryType::Update,
            6 => QueryType::DnsStatefulOperation,
            x => QueryType::Unknown(x),
        }
    }
}

impl FromSpecImpl<u8> for QueryType {
    open spec fn obeys_from_spec() -> bool {
        true
    }

    open spec fn from_spec(val: u8) -> Self {
        QueryType::from_code(val)
    }
}

impl QueryType {
    /// The kind of query that the number `val` stands for.
    pub open spec fn from_code(val: u8) -> Self {
        match val {
            0 => QueryType::Query,
            1 => QueryType::InverseQuery,
            2 => QueryType::Status,
            3 => QueryType::Unassigned,
            4 => QueryType::Notify,
            5 => QueryType::Update,
            6 => QueryType::DnsStatefulOperation,
            x => QueryType::Unknown(x),
        }
    }
}

/// How a query fared.
#[derive(Debug, Copy, Clone, PartialEq, Structural, Eq)]
pub enum ResponseCode {
    NoError,
    FormErr,
    ServFail,
    NXDomain,
    NotImp,
    Refused,
    YXDomain,
    YXRRSet,
    NXRRSet,
    NotAuth,
    NotZone,
    DSOTYPENI,
    Unassigned(u8),
}

impl Default for ResponseCode {
    fn default() -> (r: Self)
        ensures
            r == ResponseCode::Unassigned(255),
    {
        ResponseCode::Unassigned(u8::MAX)
    }
}

impl From<u8> for ResponseCode {
    fn from(val: u8) -> (r: ResponseCode) {
        match val {
            0 => ResponseCode::NoError,
            1 => ResponseCode::FormErr,
            2 => ResponseCode::ServFail,
            3 => ResponseCode::NXDomain,
            4 => ResponseCode::NotImp,
            5 => ResponseCode::Refused,
            6 => ResponseCode::YXDomain,
            7 => ResponseCode::YXRRSet,
            8 => ResponseCode::NXRRSet,
            9 => ResponseCode::NotAuth,
            10 => ResponseCode::NotZone,
            11 => ResponseCode::DSOTYPENI,
            x => ResponseCode::Unassigned(x),
        }
    }
}

impl FromSpecImpl<u8> for ResponseCode {
    open spec fn obeys_from_spec() -> bool {
        true
    }

    open spec fn from_spec(val: u8) -> Self {
        ResponseCode::from_code(val)
    }
}

impl ResponseCode {
    /// The response code that the number `val` stands for.
    pub open spec fn from_code(val: u8) -> Self {
        match val {
            0 => ResponseCode::NoError,
            1 => ResponseCode::FormErr,
            2 => ResponseCode::ServFail,
            3 => ResponseCode::NXDomain,
            4 => ResponseCode::NotImp,
            5 => ResponseCode::Refused,
            6 => ResponseCode::YXDomain,
            7 => ResponseCode::YXRRSet,
            8 => ResponseCode::NXRRSet,
            9 => ResponseCode::NotAuth,
            10 => ResponseCode::NotZone,
            11 => ResponseCode::DSOTYPENI,
            x => ResponseCode::Unassigned(x),
        }
    }
}

} // verus!
