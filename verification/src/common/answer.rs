//! One resource record: a name, a type with its data, and a class.

use core::ops::Range;
use vstd::prelude::*;
use crate::common::label::{lemma_parse_bounds, parse_spec, LabelSequence, Parsed};
use crate::common::question_class::QuestionClass;
use crate::common::question_type::QuestionType;
use crate::common::wire::{read_u16, read_u32};
use crate::utils::{be16, be32};

verus! {

/// Why a resource record could not be decoded.
#[derive(Debug)]
pub enum Error {
    /// The buffer ended before the record did; `additional` more bytes are
    /// needed before another attempt.
    EndOfSlice { additional: usize },
    /// The name of the record is invalid.
    InvalidLabelSequence,
    /// The data of the record cannot be used.
    Answer(AnswerError),
}

/// Why the data of a resource record cannot be used.
#[derive(Debug)]
pub enum AnswerError {
    /// The record says that its data has `parsed` bytes, and its type takes
    /// only one of the lengths in `expected`.
    InvalidTypeData { qtype: QuestionType, expected: &'static [usize], parsed: usize },
    /// The record has a type whose data this decoder does not read. The
    /// packet itself may be well-formed.
    UnimplementedConversion(QuestionType),
}

/// A decoding failure as plain values.
pub enum Failure {
    EndOfSlice { additional: usize },
    InvalidLabelSequence,
    InvalidTypeData { qtype: QuestionType, expected: Seq<usize>, parsed: usize },
    UnimplementedConversion(QuestionType),
}

impl Failure {
    /// The failure of a name, as a failure of what holds the name.
    pub open spec fn of_label(e: crate::common::label::Error) -> Failure {
        match e {
            crate::common::label::Error::EndOfSlice { additional } => Failure::EndOfSlice {
                additional,
            },
            crate::common::label::Error::InvalidLabelSequence => Failure::InvalidLabelSequence,
        }
    }
}

impl View for AnswerError {
    type V = Failure;

    open spec fn view(&self) -> Failure {
        match self {
            AnswerError::InvalidTypeData { qtype, expected, parsed } => Failure::InvalidTypeData {
                qtype: *qtype,
                expected: expected@,
                parsed: *parsed,
            },
            AnswerError::UnimplementedConversion(qtype) => Failure::UnimplementedConversion(
                *qtype,
            ),
        }
    }
}

impl View for Error {
    type V = Failure;

    open spec fn view(&self) -> Failure {
        match self {
            Error::EndOfSlice { additional } => Failure::EndOfSlice { additional: *additional },
            Error::InvalidLabelSequence => Failure::InvalidLabelSequence,
            Error::Answer(e) => e@,
        }
    }
}

impl Error {
    /// The failure of a name, as a failure of the record that holds the
    /// name.
    pub open spec fn of_label(e: crate::common::label::Error) -> Error {
        match e {
            crate::common::label::Error::EndOfSlice { additional } => Error::EndOfSlice {
                additional,
            },
            crate::common::label::Error::InvalidLabelSequence => Error::InvalidLabelSequence,
        }
    }
}

/// The data of an address record as plain values, and the place in the
/// stream after it.
pub struct Address {
    pub ttl: u32,
    pub ip: Seq<u8>,
    pub end: int,
}

/// What decoding the data of a record of type `code` at `start` gives.
///
/// Of an address record: four bytes of time to live and two bytes of length,
/// all big-endian; the length must be 4; then the four bytes of the address.
/// Where the buffer ends first, `additional` is the number of bytes that are
/// missing. The data of any other type is not read.
pub open spec fn payload_spec(code: u16, data: Seq<u8>, start: int) -> Result<Address, Failure> {
    if QuestionType::from_code(code) != QuestionType::A {
        Err(Failure::UnimplementedConversion(QuestionType::from_code(code)))
    } else if start + 6 > data.len() {
        Err(Failure::EndOfSlice { additional: (start + 6 - data.len()) as usize })
    } else if be16(data[start + 4], data[start + 5]) != 4 {
        Err(
            Failure::InvalidTypeData {
                qtype: QuestionType::A,
                expected: seq![4usize],
                parsed: be16(data[start + 4], data[start + 5]) as usize,
            },
        )
    } else if start + 10 > data.len() {
        Err(Failure::EndOfSlice { additional: (start + 10 - data.len()) as usize })
    } else {
        Ok(
            Address {
                ttl: be32(data[start], data[start + 1], data[start + 2], data[start + 3]),
                ip: data.subrange(start + 6, start + 10),
                end: start + 10,
            },
        )
    }
}

/// A resource record: a fact that a server returns.
pub struct Answer<'a> {
    /// The name that the record is about.
    pub label_sequence: LabelSequence<'a>,
    /// The type of the record, with its data.
    pub atype: AnswerType,
    /// The class of the record.
    pub class: QuestionClass,
}

/// A decoded record: its name, the code of its class, its data, and the
/// place in the stream after it.
pub struct AnswerSpan {
    pub name: Parsed,
    pub class_code: u16,
    pub address: Address,
}

/// What decoding a record at `start` gives: the name, then two bytes of
/// type and two bytes of class, both big-endian, then the data by type.
/// Where fewer than four bytes follow the name, `additional` is the number
/// of those that are missing.
pub open spec fn answer_spec(data: Seq<u8>, start: int) -> Result<AnswerSpan, Failure> {
    match parse_spec(data, start) {
        Err(e) => Err(Failure::of_label(e)),
        Ok(name) => {
            if name.next + 4 > data.len() {
                Err(Failure::EndOfSlice { additional: (name.next + 4 - data.len()) as usize })
            } else {
                match payload_spec(
                    be16(data[name.next], data[name.next + 1]),
                    data,
                    name.next + 4,
                ) {
                    Err(e) => Err(e),
                    Ok(address) => Ok(
                        AnswerSpan {
                            name,
                            class_code: be16(data[name.next + 2], data[name.next + 3]),
                            address,
                        },
                    ),
                }
            }
        },
    }
}

impl<'a> Answer<'a> {
    /// Whether this record is the one that `span` describes, in the buffer
    /// `data`.
    pub open spec fn matches_span(&self, data: Seq<u8>, span: AnswerSpan) -> bool {
        &&& self.label_sequence.buffer() == data
        &&& self.label_sequence.start() == span.name.start
        &&& self.label_sequence.end() == span.name.end
        &&& self.atype.matches_address(span.address)
        &&& self.class == QuestionClass::from_code(span.class_code)
    }

    /// Decodes the record that starts at `start`. Gives the record and the
    /// range of the bytes that it takes in the stream, which for a
    /// compressed name holds the pointer and not the name it leads to.
    pub fn parse(data: &'a [u8], start: usize) -> (r: Result<(Answer<'a>, Range<usize>), Error>)
        requires
            start - data@.len() < usize::MAX,
        ensures
            match answer_spec(data@, start as int) {
                Ok(span) => r is Ok && r->Ok_0.0.matches_span(data@, span) && r->Ok_0.1.start
                    == start && r->Ok_0.1.end == span.address.end,
                Err(e) => r is Err && r->Err_0@ == e,
            },
            r is Ok ==> start + 14 < r->Ok_0.1.end <= data@.len(),
    {
        proof {
            lemma_parse_bounds(data@, start as int);
        }
        let (label_sequence, offset) = match LabelSequence::parse(data, start) {
            Ok(parsed) => parsed,
            Err(e) => {
                return Err(Error::from(e));
            },
        };
        if data.len() - offset < 4 {
            return Err(Error::EndOfSlice { additional: 4 - (data.len() - offset) });
        }
        let type_num: u16 = read_u16(&data[offset..offset + 2]);
        let class_num: u16 = read_u16(&data[offset + 2..offset + 4]);

        match AnswerType::parse(type_num, data, offset + 4) {
            Ok((atype, end)) => Ok(
                (Answer { label_sequence, atype, class: QuestionClass::from(class_num) }, start..end),
            ),
            Err(e) => Err(e),
        }
    }
}

/// The type of a resource record, with the data of that type.
#[derive(Debug)]
pub enum AnswerType {
    /// An address record: the time in seconds that it may be kept, and an
    /// IPv4 address.
    A { ttl: u32, ip: [u8; 4] },
}

impl AnswerType {
    /// Whether this is the address record that `address` describes.
    pub open spec fn matches_address(&self, address: Address) -> bool {
        match self {
            AnswerType::A { ttl, ip } => *ttl == address.ttl && ip@ == address.ip,
        }
    }

    /// Decodes the data of a record of type `code`, which starts at `start`.
    /// Gives the data and the place in the buffer after it.
    pub fn parse(code: u16, data: &[u8], start: usize) -> (r: Result<(AnswerType, usize), Error>)
        requires
            start + 6 - data@.len() <= usize::MAX,
        ensures
            match payload_spec(code, data@, start as int) {
                Ok(address) => r is Ok && r->Ok_0.0.matches_address(address) && r->Ok_0.1
                    == address.end,
                Err(e) => r is Err && r->Err_0@ == e,
            },
    {
        match QuestionType::from(code) {
            QuestionType::A => {
                if start > data.len() {
                    return Err(Error::EndOfSlice { additional: (start - data.len()) + 6 });
                }
                if data.len() - start < 6 {
                    return Err(Error::EndOfSlice { additional: 6 - (data.len() - start) });
                }
                let ttl: u32 = read_u32(&data[start..start + 4]);
                let len: usize = read_u16(&data[start + 4..start + 6]) as usize;
                let start: usize = start + 6;
                if len != 4 {
                    let expected: &'static [usize] = &[4];
                    assert(expected@ =~= seq![4usize]);
                    return Err(
                        Error::Answer(
                            AnswerError::InvalidTypeData {
                                qtype: QuestionType::A,
                                expected,
                                parsed: len,
                            },
                        ),
                    );
                }
                if data.len() - start < len {
                    return Err(Error::EndOfSlice { additional: len - (data.len() - start) });
                }
                let ip: [u8; 4] = [data[start], data[start + 1], data[start + 2], data[start + 3]];
                assert(ip@ =~= data@.subrange(start as int, start + 4));
                Ok((AnswerType::A { ttl, ip }, start + len))
            },
            x => Err(Error::Answer(AnswerError::UnimplementedConversion(x))),
        }
    }
}

} // verus!
