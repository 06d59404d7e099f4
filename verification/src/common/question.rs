//! One entry of the question section: a name, a type and a class.

use core::ops::Range;
use vstd::prelude::*;
use crate::common::answer::Failure;
use crate::common::label::{lemma_parse_bounds, parse_spec, LabelSequence, Parsed};
use crate::common::question_class::QuestionClass;
use crate::common::question_type::QuestionType;
use crate::common::wire::read_u16;
use crate::utils::be16;

verus! {

/// Why a question could not be decoded.
#[derive(Debug, PartialEq, Structural, Eq, Clone, Copy)]
pub enum Error {
    /// The name of the question is invalid.
    InvalidLabelSequence,
    /// The buffer ended before the question did; `additional` more bytes
    /// are needed before another attempt.
    EndOfSlice { additional: usize },
}

impl View for Error {
    type V = Failure;

    open spec fn view(&self) -> Failure {
        match self {
            Error::EndOfSlice { additional } => Failure::EndOfSlice { additional: *additional },
            Error::InvalidLabelSequence => Failure::InvalidLabelSequence,
        }
    }
}

impl Error {
    /// The same failure, as a failure of the question that holds the name.
    pub open spec fn of_label(e: crate::common::label::Error) -> Error {
        match e {
            crate::common::label::Error::EndOfSlice { additional } => Error::EndOfSlice {
                additional,
            },
            crate::common::label::Error::InvalidLabelSequence => Error::InvalidLabelSequence,
        }
    }
}

/// A question: what a client asks about.
pub struct Question<'a> {
    /// The name that is asked about.
    pub label_sequence: LabelSequence<'a>,
    /// The type of record that is asked for.
    pub qtype: QuestionType,
    /// The class that is asked in.
    pub class: QuestionClass,
}

/// A decoded question: its name, the codes of its type and class, and the
/// place in the stream after it.
pub struct QuestionSpan {
    pub name: Parsed,
    pub type_code: u16,
    pub class_code: u16,
    pub end: int,
}

/// What decoding a question at `start` gives: the name, then two bytes of
/// type and two bytes of class, both big-endian. Where fewer than four bytes
/// follow the name, `additional` is the number of those that are missing.
pub open spec fn question_spec(data: Seq<u8>, start: int) -> Result<QuestionSpan, Error> {
    match parse_spec(data, start) {
        Err(e) => Err(Error::of_label(e)),
        Ok(name) => {
            if name.next + 4 > data.len() {
                Err(Error::EndOfSlice { additional: (name.next + 4 - data.len()) as usize })
            } else {
                Ok(
                    QuestionSpan {
                        name,
                        type_code: be16(data[name.next], data[name.next + 1]),
                        class_code: be16(data[name.next + 2], data[name.next + 3]),
                        end: name.next + 4,
                    },
                )
            }
        },
    }
}

impl<'a> Question<'a> {
    /// Whether this question is the one that `span` describes, in the
    /// buffer `data`.
    pub open spec fn matches_span(&self, data: Seq<u8>, span: QuestionSpan) -> bool {
        &&& self.label_sequence.buffer() == data
        &&& self.label_sequence.start() == span.name.start
        &&& self.label_sequence.end() == span.name.end
        &&& self.qtype == QuestionType::from_code(span.type_code)
        &&& self.class == QuestionClass::from_code(span.class_code)
    }

    /// Decodes the question that starts at `start`. Gives the question and
    /// the range of the bytes that it takes in the stream, which for a
    /// compressed name holds the pointer and not the name it leads to.
    pub fn parse(data: &'a [u8], start: usize) -> (r: Result<(Question<'a>, Range<usize>), Error>)
        requires
            start - data@.len() < usize::MAX,
        ensures
            match question_spec(data@, start as int) {
                Ok(span) => r is Ok && r->Ok_0.0.matches_span(data@, span) && r->Ok_0.1.start
                    == start && r->Ok_0.1.end == span.end,
                Err(e) => r == Err::<(Question<'a>, Range<usize>), Error>(e),
            },
            r is Ok ==> start + 4 < r->Ok_0.1.end <= data@.len(),
    {
        proof {
            lemma_parse_bounds(data@, start as int);
        }
        let (label_sequence, end_of_label_sequence) = match LabelSequence::parse(data, start) {
            Ok(parsed) => parsed,
            Err(e) => {
                return Err(Error::from(e));
            },
        };
        // The name is followed by two 16-bit numbers, four bytes in all.
        if data.len() - end_of_label_sequence < 4 {
            return Err(
                Error::EndOfSlice { additional: 4 - (data.len() - end_of_label_sequence) },
            );
        }
        let type_start: usize = end_of_label_sequence;
        let class_start: usize = type_start + 2;
        let end: usize = class_start + 2;

        let type_num: u16 = read_u16(&data[type_start..type_start + 2]);
        let class_num: u16 = read_u16(&data[class_start..class_start + 2]);

        Ok(
            (
                Question {
                    label_sequence,
                    qtype: QuestionType::from(type_num),
                    class: QuestionClass::from(class_num),
                },
                start..end,
            ),
        )
    }
}

} // verus!
