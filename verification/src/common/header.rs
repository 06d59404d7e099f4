//! The fixed twelve-byte header of a DNS message.

use vstd::prelude::*;
use vstd::std_specs::convert::FromSpecImpl;
use crate::common::wire::read_u16;
use crate::utils::be16;

verus! {

/// DNS header: a read-only window over the first twelve bytes of a message.
///
/// The header is always present. It says which of the other sections follow,
/// whether the message is a query or a response, which kind of query, and
/// how the query fared. Every accessor is a total function of the bytes.
pub struct Header<'a>(pub &'a [u8; 12]);

/// Bit 7 of the third byte: set in a response.
pub open spec fn flag_response(b2: u8) -> bool {
    b2 >= 128
}

/// Bits 3 to 6 of the third byte: the opcode.
pub open spec fn field_opcode(b2: u8) -> u8 {
    (b2 / 8 % 16) as u8
}

/// Bit 2 of the third byte: authoritative answer.
pub open spec fn flag_authoritative(b2: u8) -> bool {
    b2 / 4 % 2 == 1
}

/// Bit 1 of the third byte: truncated.
pub open spec fn flag_truncated(b2: u8) -> bool {
    b2 / 2 % 2 == 1
}

/// Bit 0 of the third byte: recursion desired.
pub open spec fn flag_recursion_desired(b2: u8) -> bool {
    b2 % 2 == 1
}

/// Bit 7 of the fourth byte: recursion available.
pub open spec fn flag_recursion_available(b3: u8) -> bool {
    b3 >= 128
}

/// Bits 4 to 6 of the fourth byte: the Z field.
pub open spec fn field_z(b3: u8) -> u8 {
    (b3 / 16 % 8) as u8
}

/// Bits 0 to 3 of the fourth byte: the response code.
pub open spec fn field_response_code(b3: u8) -> u8 {
    (b3 % 16) as u8
}

/// 1 for a flag that is set, 0 for one that is not.
pub open spec fn bit(flag: bool) -> int {
    if flag {
        1
    } else {
        0
    }
}

/// The third header byte that carries the given flags and opcode.
pub open spec fn pack_high(
    response: bool,
    opcode: u8,
    authoritative: bool,
    truncated: bool,
    recursion_desired: bool,
) -> int {
    128 * bit(response) + 8 * opcode + 4 * bit(authoritative) + 2 * bit(truncated) + bit(
        recursion_desired,
    )
}

/// The fourth header byte that carries the given flag, Z field and response
/// code.
pub open spec fn pack_low(recursion_available: bool, z: u8, response_code: u8) -> int {
    128 * bit(recursion_available) + 16 * z + response_code
}

impl<'a> Header<'a> {
    /// Headers are always 12 bytes.
    pub const SIZE: usize = 12;

    /// The twelve bytes under the header.
    pub open spec fn bytes(&self) -> Seq<u8> {
        self.0@
    }

    /// The identifier: bytes 0 and 1, big-endian.
    pub open spec fn spec_id(&self) -> u16 {
        be16(self.bytes()[0], self.bytes()[1])
    }

    /// Whether the message is a response.
    pub open spec fn spec_is_response(&self) -> bool {
        flag_response(self.bytes()[2])
    }

    /// Whether the message is a query: it is one exactly when it is no response.
    pub open spec fn spec_is_query(&self) -> bool {
        !self.spec_is_response()
    }

    /// The kind of query.
    pub open spec fn spec_opcode(&self) -> Opcode {
        Opcode::from_code(field_opcode(self.bytes()[2]))
    }

    /// Whether the answer comes from an authority.
    pub open spec fn spec_is_authoritative_answer(&self) -> bool {
        flag_authoritative(self.bytes()[2])
    }

    /// Whether the message was truncated.
    pub open spec fn spec_is_truncated(&self) -> bool {
        flag_truncated(self.bytes()[2])
    }

    /// Whether recursion is asked for.
    pub open spec fn spec_is_recursion_desired(&self) -> bool {
        flag_recursion_desired(self.bytes()[2])
    }

    /// Whether recursion is offered.
    pub open spec fn spec_is_recursion_available(&self) -> bool {
        flag_recursion_available(self.bytes()[3])
    }

    /// The Z field.
    pub open spec fn spec_z(&self) -> u8 {
        field_z(self.bytes()[3])
    }

    /// How the query fared.
    pub open spec fn spec_response_code(&self) -> ResponseCode {
        ResponseCode::from_code(field_response_code(self.bytes()[3]))
    }

    /// The number of questions: bytes 4 and 5, big-endian.
    pub open spec fn spec_question_count(&self) -> u16 {
        be16(self.bytes()[4], self.bytes()[5])
    }

    /// The number of answers: bytes 6 and 7, big-endian.
    pub open spec fn spec_answer_count(&self) -> u16 {
        be16(self.bytes()[6], self.bytes()[7])
    }

    /// The number of authority records: bytes 8 and 9, big-endian.
    pub open spec fn spec_authority_count(&self) -> u16 {
        be16(self.bytes()[8], self.bytes()[9])
    }

    /// The number of additional records: bytes 10 and 11, big-endian.
    pub open spec fn spec_additional_count(&self) -> u16 {
        be16(self.bytes()[10], self.bytes()[11])
    }

    /// A 16 bit identifier assigned by the program that generates any kind
    /// of query. It is copied into the reply, so that the requester can match
    /// replies to outstanding queries.
    pub fn id(&self) -> (r: u16)
        ensures
            r == self.spec_id(),
    {
        read_u16(&self.0[0..2])
    }

    /// Clients send a query to the server.
    pub fn is_query(&self) -> (r: bool)
        ensures
            r == self.spec_is_query(),
            r != self.spec_is_response(),
    {
        !self.is_response()
    }

    /// The server responds with a response.
    pub fn is_response(&self) -> (r: bool)
        ensures
            r == self.spec_is_response(),
    {
        let b: u8 = self.0[2];
        assert((b & 0b1000_0000 > 0) == (b >= 128)) by (bit_vector);
        b & 0b1000_0000 > 0
    }

    /// A four bit field that specifies the kind of query in this message. It
    /// is set by the originator of a query and copied into the response.
    pub fn opcode(&self) -> (r: Opcode)
        ensures
            r == self.spec_opcode(),
    {
        let b: u8 = self.0[2];
        assert((b & 0b0111_1000) >> 3 == b / 8 % 16) by (bit_vector);
        let opcode: u8 = (b & 0b0111_1000) >> 3;
        Opcode::from(opcode)
    }

    /// Authoritative answer: valid in responses, says that the responding
    /// name server is an authority for the domain name in the question.
    pub fn is_authoritative_answer(&self) -> (r: bool)
        ensures
            r == self.spec_is_authoritative_answer(),
    {
        let b: u8 = self.0[2];
        assert(((b & 0b0000_0100) > 0) == (b / 4 % 2 == 1)) by (bit_vector);
        (b & 0b0000_0100) > 0
    }

    /// Says that this message was truncated because it was longer than the
    /// transmission channel permits.
    pub fn is_truncated(&self) -> (r: bool)
        ensures
            r == self.spec_is_truncated(),
    {
        let b: u8 = self.0[2];
        assert(((b & 0b0000_0010) > 0) == (b / 2 % 2 == 1)) by (bit_vector);
        (b & 0b0000_0010) > 0
    }

    /// Set by the sender of the request if the server should resolve the
    /// query recursively where it has no answer at hand.
    pub fn is_recursion_desired(&self) -> (r: bool)
        ensures
            r == self.spec_is_recursion_desired(),
    {
        let b: u8 = self.0[2];
        assert(((b & 0b0000_0001) > 0) == (b % 2 == 1)) by (bit_vector);
        (b & 0b0000_0001) > 0
    }

    /// Set by the server to say whether recursive queries are allowed.
    pub fn is_recursion_available(&self) -> (r: bool)
        ensures
            r == self.spec_is_recursion_available(),
    {
        let b: u8 = self.0[3];
        assert(((b & 0b1000_0000) > 0) == (b >= 128)) by (bit_vector);
        (b & 0b1000_0000) > 0
    }

    /// Originally reserved for later use, now used for DNSSEC queries.
    pub fn z(&self) -> (r: u8)
        ensures
            r == self.spec_z(),
            r < 8,
    {
        let b: u8 = self.0[3];
        assert((b & 0b0111_0000) >> 4 == b / 16 % 8) by (bit_vector);
        (b & 0b0111_0000) >> 4
    }

    /// Response code: set by the server to say whether the query succeeded,
    /// and if not, why.
    pub fn response_code(&self) -> (r: ResponseCode)
        ensures
            r == self.spec_response_code(),
    {
        let b: u8 = self.0[3];
        assert(b & 0b0000_1111 == b % 16) by (bit_vector);
        ResponseCode::from(b & 0b0000_1111)
    }

    /// The number of entries in the question section.
    pub fn question_count(&self) -> (r: u16)
        ensures
            r == self.spec_question_count(),
    {
        read_u16(&self.0[4..6])
    }

    /// The number of resource records in the answer section.
    pub fn answer_count(&self) -> (r: u16)
        ensures
            r == self.spec_answer_count(),
    {
        read_u16(&self.0[6..8])
    }

    /// The number of name server resource records in the authority records
    /// section.
    pub fn authority_count(&self) -> (r: u16)
        ensures
            r == self.spec_authority_count(),
    {
        read_u16(&self.0[8..10])
    }

    /// The number of resource records in the additional records section.
    pub fn additional_count(&self) -> (r: u16)
        ensures
            r == self.spec_additional_count(),
    {
        read_u16(&self.0[10..12])
    }
}

/// A four bit field that specifies the kind of query in this message.
#[derive(Debug, Eq, PartialEq, Structural, Copy, Clone)]
pub enum Opcode {
    /// a standard query (QUERY)
    Standard,
    /// an inverse query (IQUERY)
    Inverse,
    /// a server status request (STATUS)
    Status,
    /// reserved for future use
    Reserved(u8),
}

impl From<u8> for Opcode {
    fn from(u: u8) -> (r: Self) {
        match u {
            0 => Opcode::Standard,
            1 => Opcode::Inverse,
            2 => Opcode::Status,
            x => Opcode::Reserved(x),
        }
    }
}

impl FromSpecImpl<u8> for Opcode {
    open spec fn obeys_from_spec() -> bool {
        true
    }

    open spec fn from_spec(u: u8) -> Self {
        Opcode::from_code(u)
    }
}

impl Opcode {
    /// The opcode that the number `u` stands for.
    pub open spec fn from_code(u: u8) -> Self {
        if u == 0 {
            Opcode::Standard
        } else if u == 1 {
            Opcode::Inverse
        } else if u == 2 {
            Opcode::Status
        } else {
            Opcode::Reserved(u)
        }
    }

    /// The number that the opcode stands for.
    pub open spec fn code(self) -> u8 {
        match self {
            Opcode::Standard => 0,
            Opcode::Inverse => 1,
            Opcode::Status => 2,
            Opcode::Reserved(x) => x,
        }
    }
}

/// Response code: set by the server to say whether the query succeeded, and
/// if not, why.
#[derive(Debug, Eq, PartialEq, Structural, Copy, Clone)]
pub enum ResponseCode {
    /// No error condition
    NoError,
    /// Format error: the name server was unable to interpret the query.
    FormatError,
    /// Server failure: the name server was unable to process this query due
    /// to a problem with the name server.
    ServerFailure,
    /// Name error: meaningful only for responses from an authoritative name
    /// server, says that the domain name of the query does not exist.
    NameError,
    /// Not implemented: the name server does not support the requested kind
    /// of query.
    NotImplemented,
    /// Refused: the name server refuses to perform the operation for policy
    /// reasons.
    Refused,
    /// Reserved for future use.
    Reserved(u8),
}

impl From<u8> for ResponseCode {
    fn from(u: u8) -> (r: Self) {
        match u {
            0 => ResponseCode::NoError,
            1 => ResponseCode::FormatError,
            2 => ResponseCode::ServerFailure,
            3 => ResponseCode::NameError,
            4 => ResponseCode::NotImplemented,
            5 => ResponseCode::Refused,
            x => ResponseCode::Reserved(x),
        }
    }
}

impl FromSpecImpl<u8> for ResponseCode {
    open spec fn obeys_from_spec() -> bool {
        true
    }

    open spec fn from_spec(u: u8) -> Self {
        ResponseCode::from_code(u)
    }
}

impl ResponseCode {
    /// The response code that the number `u` stands for.
    pub open spec fn from_code(u: u8) -> Self {
        if u == 0 {
            ResponseCode::NoError
        } else if u == 1 {
            ResponseCode::FormatError
        } else if u == 2 {
            ResponseCode::ServerFailure
        } else if u == 3 {
            ResponseCode::NameError
        } else if u == 4 {
            ResponseCode::NotImplemented
        } else if u == 5 {
            ResponseCode::Refused
        } else {
            ResponseCode::Reserved(u)
        }
    }

    /// The number that the response code stands for.
    pub open spec fn code(self) -> u8 {
        match self {
            ResponseCode::NoError => 0,
            ResponseCode::FormatError => 1,
            ResponseCode::ServerFailure => 2,
            ResponseCode::NameError => 3,
            ResponseCode::NotImplemented => 4,
            ResponseCode::Refused => 5,
            ResponseCode::Reserved(x) => x,
        }
    }
}

/// A header is a query or a response, never both and never neither.
pub proof fn lemma_query_xor_response(h: Header)
    ensures
        h.spec_is_query() != h.spec_is_response(),
{
}

/// No opcode loses its number: the number of the opcode read from `u` is
/// `u`.
pub proof fn lemma_opcode_keeps_code(u: u8)
    ensures
        Opcode::from_code(u).code() == u,
{
}

/// No response code loses its number: the number of the response code read
/// from `u` is `u`.
pub proof fn lemma_response_code_keeps_code(u: u8)
    ensures
        ResponseCode::from_code(u).code() == u,
{
}

/// A header whose flag bytes were packed from given values yields those
/// values again, for each opcode and response code from 0 to 15 and each Z
/// from 0 to 7.
pub proof fn lemma_flags_round_trip(
    h: Header,
    response: bool,
    opcode: u8,
    authoritative: bool,
    truncated: bool,
    recursion_desired: bool,
    recursion_available: bool,
    z: u8,
    response_code: u8,
)
    requires
        opcode < 16,
        z < 8,
        response_code < 16,
        h.bytes()[2] == pack_high(response, opcode, authoritative, truncated, recursion_desired),
        h.bytes()[3] == pack_low(recursion_available, z, response_code),
    ensures
        h.spec_is_response() == response,
        h.spec_is_query() == !response,
        h.spec_opcode() == Opcode::from_code(opcode),
        h.spec_opcode().code() == opcode,
        h.spec_is_authoritative_answer() == authoritative,
        h.spec_is_truncated() == truncated,
        h.spec_is_recursion_desired() == recursion_desired,
        h.spec_is_recursion_available() == recursion_available,
        h.spec_z() == z,
        h.spec_response_code() == ResponseCode::from_code(response_code),
        h.spec_response_code().code() == response_code,
{
    lemma_opcode_keeps_code(opcode);
    lemma_response_code_keeps_code(response_code);
}

} // verus!
