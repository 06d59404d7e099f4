//! A whole message: the header, and the question and answer sections that
//! the header counts.

use core::ops::Range;
use vstd::prelude::*;
use vstd::std_specs::convert::FromSpecImpl;
use crate::common::answer::{answer_spec, Answer, AnswerError, Failure};
use crate::common::header::Header;
use crate::common::label::lemma_parse_bounds;
use crate::common::question::{question_spec, Question};
use crate::utils::be16;

verus! {

/// Errors that can occur while parsing a request
#[derive(Debug)]
pub enum Error {
    /// Reached the end of the slice, but at least `additional` bytes were
    /// needed.
    ///
    /// The caller should gather `additional` bytes more and then try again.
    /// The next attempt could ask for even more bytes.
    EndOfSlice {
        /// The number of bytes to collect before parsing again.
        additional: usize,
    },
    /// One of the names in the request is invalid. This usually indicates a
    /// malformed packet.
    InvalidLabelSequence,
    /// The data of one of the records cannot be used.
    Answer(AnswerError),
}

impl View for Error {
    type V = Failure;

    open spec fn view(&self) -> Failure {
        match self {
            Error::EndOfSlice { additional } => Failure::EndOfSlice { additional: *additional },
            Error::InvalidLabelSequence => Failure::InvalidLabelSequence,
            Error::Answer(e) => e@,
        }
    }
}

impl From<crate::common::answer::Error> for Error {
    fn from(e: crate::common::answer::Error) -> (r: Error) {
        match e {
            crate::common::answer::Error::EndOfSlice { additional } => Error::EndOfSlice {
                additional,
            },
            crate::common::answer::Error::InvalidLabelSequence => Error::InvalidLabelSequence,
            crate::common::answer::Error::Answer(answer) => Error::Answer(answer),
        }
    }
}

impl FromSpecImpl<crate::common::answer::Error> for Error {
    open spec fn obeys_from_spec() -> bool {
        true
    }

    open spec fn from_spec(e: crate::common::answer::Error) -> Self {
        match e {
            crate::common::answer::Error::EndOfSlice { additional } => Error::EndOfSlice {
                additional,
            },
            crate::common::answer::Error::InvalidLabelSequence => Error::InvalidLabelSequence,
            crate::common::answer::Error::Answer(answer) => Error::Answer(answer),
        }
    }
}

impl From<crate::common::question::Error> for Error {
    fn from(e: crate::common::question::Error) -> (r: Error) {
        match e {
            crate::common::question::Error::EndOfSlice { additional } => Error::EndOfSlice {
                additional,
            },
            crate::common::question::Error::InvalidLabelSequence => Error::InvalidLabelSequence,
        }
    }
}

impl FromSpecImpl<crate::common::question::Error> for Error {
    open spec fn obeys_from_spec() -> bool {
        true
    }

    open spec fn from_spec(e: crate::common::question::Error) -> Self {
        match e {
            crate::common::question::Error::EndOfSlice { additional } => Error::EndOfSlice {
                additional,
            },
            crate::common::question::Error::InvalidLabelSequence => Error::InvalidLabelSequence,
        }
    }
}

/// `<[T]>::first_chunk` of std gives the first `N` items of a slice as an
/// array, and `None` where the slice is shorter. Trusted, as documented.
pub assume_specification<T, const N: usize>[ <[T]>::first_chunk::<N> ](s: &[T]) -> (r: Option<
    &[T; N],
>)
    ensures
        s@.len() >= N ==> r is Some && r->Some_0@ == s@.subrange(0, N as int),
        s@.len() < N ==> r is None,
;

/// The two sections that a request indexes.
pub enum Section {
    Questions,
    Answers,
}

/// Where the entry of `section` that starts at `start` ends, or why it
/// cannot be decoded.
pub open spec fn entry_end(section: Section, data: Seq<u8>, start: int) -> Result<int, Failure> {
    match section {
        Section::Questions => match question_spec(data, start) {
            Ok(span) => Ok(span.end),
            Err(e) => Err(e@),
        },
        Section::Answers => match answer_spec(data, start) {
            Ok(span) => Ok(span.address.end),
            Err(e) => Err(e),
        },
    }
}

/// Where `count` entries of `section` end, walked one after the other from
/// `start`; or the failure of the first entry that cannot be decoded.
pub open spec fn walk(section: Section, data: Seq<u8>, start: int, count: nat) -> Result<
    int,
    Failure,
>
    decreases count,
{
    if count == 0 {
        Ok(start)
    } else {
        match entry_end(section, data, start) {
            Ok(end) => walk(section, data, end, (count - 1) as nat),
            Err(e) => Err(e),
        }
    }
}

/// The number of entries of `section` that lie one after the other from
/// `start` and end exactly at `end`, if entries do so.
pub open spec fn entries_between(section: Section, data: Seq<u8>, start: int, end: int) -> Option<
    nat,
>
    decreases
        if start < end {
            end - start
        } else {
            0
        },
{
    if start == end {
        Some(0)
    } else if start > end {
        None
    } else {
        match entry_end(section, data, start) {
            Ok(next) => if next > start {
                match entries_between(section, data, next, end) {
                    Some(n) => Some(n + 1),
                    None => None,
                }
            } else {
                None
            },
            Err(_) => None,
        }
    }
}

/// The ranges of the two sections of a request.
pub struct Sections {
    pub questions_end: int,
    pub answers_end: int,
}

/// What parsing a whole message gives: the place where the questions end
/// and the place where the answers end. The questions start after the
/// twelve bytes of the header, and there are as many as bytes 4 and 5 say;
/// the answers start where the questions end, and there are as many as bytes
/// 6 and 7 say. A buffer shorter than the header is short by what is missing
/// of the twelve bytes. The first entry that cannot be decoded fails the
/// whole message, with its own failure.
pub open spec fn request_spec(data: Seq<u8>) -> Result<Sections, Failure> {
    if data.len() < 12 {
        Err(Failure::EndOfSlice { additional: (12 - data.len()) as usize })
    } else {
        match walk(Section::Questions, data, 12, be16(data[4], data[5]) as nat) {
            Err(e) => Err(e),
            Ok(questions_end) => match walk(
                Section::Answers,
                data,
                questions_end,
                be16(data[6], data[7]) as nat,
            ) {
                Err(e) => Err(e),
                Ok(answers_end) => Ok(Sections { questions_end, answers_end }),
            },
        }
    }
}

/// An entry that can be decoded inside the buffer ends after its start and
/// inside the buffer.
pub proof fn lemma_entry_bounds(section: Section, data: Seq<u8>, start: int)
    requires
        0 <= start <= data.len(),
    ensures
        entry_end(section, data, start) is Ok ==> start < entry_end(section, data, start)->Ok_0
            <= data.len(),
{
    lemma_parse_bounds(data, start);
}

/// A walk that succeeds from inside the buffer ends inside the buffer, and
/// exactly `count` entries lie between its start and its end.
pub proof fn lemma_walk_between(section: Section, data: Seq<u8>, start: int, count: nat)
    requires
        0 <= start <= data.len(),
        walk(section, data, start, count) is Ok,
    ensures
        start <= walk(section, data, start, count)->Ok_0 <= data.len(),
        entries_between(section, data, start, walk(section, data, start, count)->Ok_0) == Some(
            count,
        ),
    decreases count,
{
    if count > 0 {
        lemma_entry_bounds(section, data, start);
        let next = entry_end(section, data, start)->Ok_0;
        lemma_walk_between(section, data, next, (count - 1) as nat);
    }
}

/// Entries take at least one byte each: no more entries lie between two
/// places than there are bytes.
pub proof fn lemma_entries_fit(section: Section, data: Seq<u8>, start: int, end: int)
    requires
        entries_between(section, data, start, end) is Some,
    ensures
        entries_between(section, data, start, end)->Some_0 <= end - start,
    decreases
        if start < end {
            end - start
        } else {
            0
        },
{
    if start < end {
        let next = entry_end(section, data, start)->Ok_0;
        lemma_entries_fit(section, data, next, end);
    }
}

/// A client-to-server DNS request
pub struct Request<'a> {
    /// The header of the request
    pub header: Header<'a>,
    data: &'a [u8],
    question_range: Range<usize>,
    answer_range: Range<usize>,
}

impl<'a> Request<'a> {
    /// The buffer that the request lies in.
    pub closed spec fn buffer(&self) -> Seq<u8> {
        self.data@
    }

    /// The header of the request, for use in contracts.
    pub closed spec fn spec_header(&self) -> Header<'a> {
        self.header
    }

    /// Where the question section ends; it starts at 12.
    pub closed spec fn questions_end(&self) -> int {
        self.question_range.end as int
    }

    /// Where the answer section ends; it starts where the questions end.
    pub closed spec fn answers_end(&self) -> int {
        self.answer_range.end as int
    }

    /// What holds of every request that `parse` gives: the header lies over
    /// the first twelve bytes of the buffer, and the two sections lie one
    /// after the other behind it, inside the buffer, with as many entries as
    /// the header counts.
    pub closed spec fn wf(&self) -> bool {
        &&& self.data@.len() >= 12
        &&& self.header.bytes() == self.data@.subrange(0, 12)
        &&& self.question_range.start == 12
        &&& self.question_range.end == self.answer_range.start
        &&& 12 <= self.question_range.end <= self.answer_range.end <= self.data@.len()
        &&& entries_between(Section::Questions, self.data@, 12, self.question_range.end as int)
            == Some(self.header.spec_question_count() as nat)
        &&& entries_between(
            Section::Answers,
            self.data@,
            self.question_range.end as int,
            self.answer_range.end as int,
        ) == Some(self.header.spec_answer_count() as nat)
    }

    /// Attempt to parse a byte slice as a valid Request.
    #[verifier::loop_isolation(false)]
    pub fn parse(data: &'a [u8]) -> (r: Result<Self, Error>)
        ensures
            match request_spec(data@) {
                Ok(sections) => r is Ok && r->Ok_0.wf() && r->Ok_0.buffer() == data@
                    && r->Ok_0.spec_header().bytes() == data@.subrange(0, 12) && r->Ok_0.questions_end()
                    == sections.questions_end && r->Ok_0.answers_end() == sections.answers_end,
                Err(e) => r is Err && r->Err_0@ == e,
            },
            r is Ok ==> 12 <= r->Ok_0.questions_end() <= r->Ok_0.answers_end() <= data@.len(),
            data@.len() < 12 ==> r is Err && r->Err_0@ == (Failure::EndOfSlice {
                additional: (12 - data@.len()) as usize,
            }),
    {
        let header = match data.first_chunk::<12>() {
            Some(window) => Header(window),
            None => {
                return Err(Error::EndOfSlice { additional: Header::SIZE - data.len() });
            },
        };
        let question_count: u16 = header.question_count();
        let answer_count: u16 = header.answer_count();
        assert(header.bytes()[4] == data@[4] && header.bytes()[5] == data@[5]);
        assert(header.bytes()[6] == data@[6] && header.bytes()[7] == data@[7]);

        let mut question_range: Range<usize> = Header::SIZE..Header::SIZE;
        let mut walked: u16 = 0;
        while walked < question_count
            invariant
                walked <= question_count,
                question_range.start == 12,
                12 <= question_range.end <= data@.len(),
                walk(
                    Section::Questions,
                    data@,
                    question_range.end as int,
                    (question_count - walked) as nat,
                ) == walk(Section::Questions, data@, 12, question_count as nat),
            decreases question_count - walked,
        {
            match Question::parse(data, question_range.end) {
                Ok((_, range)) => {
                    question_range.end = range.end;
                },
                Err(e) => {
                    return Err(Error::from(e));
                },
            }
            walked += 1;
        }

        let mut answer_range: Range<usize> = question_range.end..question_range.end;
        let mut walked: u16 = 0;
        while walked < answer_count
            invariant
                walked <= answer_count,
                answer_range.start == question_range.end,
                question_range.end <= answer_range.end <= data@.len(),
                walk(
                    Section::Answers,
                    data@,
                    answer_range.end as int,
                    (answer_count - walked) as nat,
                ) == walk(Section::Answers, data@, question_range.end as int, answer_count as nat),
            decreases answer_count - walked,
        {
            match Answer::parse(data, answer_range.end) {
                Ok((_, range)) => {
                    answer_range.end = range.end;
                },
                Err(e) => {
                    return Err(Error::from(e));
                },
            }
            walked += 1;
        }
        proof {
            lemma_walk_between(Section::Questions, data@, 12, question_count as nat);
            lemma_walk_between(
                Section::Answers,
                data@,
                question_range.end as int,
                answer_count as nat,
            );
        }
        Ok(Self { header, data, question_range, answer_range })
    }

    /// Return an iterator that iterates the questions in this request.
    pub fn questions(&self) -> (r: QuestionIterator<'a>)
        requires
            self.wf(),
        ensures
            r.wf(),
            r.buffer() == self.buffer(),
            r.start() == 12,
            r.end() == self.questions_end(),
            r.remaining() == self.spec_header().spec_question_count(),
    {
        QuestionIterator { data: self.data, range: self.question_range.start..self.question_range.end }
    }

    /// Return an iterator that iterates the answers in this request.
    pub fn answers(&self) -> (r: AnswerIterator<'a>)
        requires
            self.wf(),
        ensures
            r.wf(),
            r.buffer() == self.buffer(),
            r.start() == self.questions_end(),
            r.end() == self.answers_end(),
            r.remaining() == self.spec_header().spec_answer_count(),
    {
        AnswerIterator { data: self.data, range: self.answer_range.start..self.answer_range.end }
    }
}

/// An iterator that iterates a list of questions.
pub struct QuestionIterator<'a> {
    data: &'a [u8],
    range: Range<usize>,
}

impl<'a> QuestionIterator<'a> {
    /// The buffer that the questions lie in.
    pub closed spec fn buffer(&self) -> Seq<u8> {
        self.data@
    }

    /// Where the next question starts.
    pub closed spec fn start(&self) -> int {
        self.range.start as int
    }

    /// Where the last question ends.
    pub closed spec fn end(&self) -> int {
        self.range.end as int
    }

    /// Whole questions lie between the start and the end, inside the buffer.
    pub open spec fn wf(&self) -> bool {
        &&& 0 <= self.start() <= self.end() <= self.buffer().len()
        &&& entries_between(Section::Questions, self.buffer(), self.start(), self.end()) is Some
    }

    /// The number of questions that are still to come.
    pub open spec fn remaining(&self) -> nat {
        entries_between(Section::Questions, self.buffer(), self.start(), self.end())->Some_0
    }

    /// The next question, decoded anew from the buffer; `None` after the
    /// last.
    pub fn next(&mut self) -> (r: Option<Result<Question<'a>, Error>>)
        requires
            old(self).wf(),
        ensures
            final(self).wf(),
            final(self).buffer() == old(self).buffer(),
            final(self).end() == old(self).end(),
            old(self).remaining() == 0 ==> r is None && final(self).start() == old(self).start(),
            old(self).remaining() > 0 ==> {
                &&& r matches Some(Ok(question))
                &&& question_spec(old(self).buffer(), old(self).start()) matches Ok(span)
                &&& question.matches_span(old(self).buffer(), span)
                &&& final(self).start() == span.end
                &&& final(self).remaining() == old(self).remaining() - 1
            },
    {
        if self.range.start == self.range.end {
            None
        } else {
            proof {
                lemma_entry_bounds(Section::Questions, self.data@, self.range.start as int);
            }
            Some(
                match Question::parse(self.data, self.range.start) {
                    Ok((question, range)) => {
                        self.range.start = range.end;
                        Ok(question)
                    },
                    Err(e) => Err(Error::from(e)),
                },
            )
        }
    }

    /// The number of questions that are still to come; uses the iterator up.
    pub fn count(self) -> (r: usize)
        requires
            self.wf(),
        ensures
            r == self.remaining(),
    {
        let mut it = self;
        let mut n: usize = 0;
        proof {
            lemma_entries_fit(Section::Questions, it.buffer(), it.start(), it.end());
        }
        loop
            invariant
                it.wf(),
                it.buffer() == self.buffer(),
                it.end() == self.end(),
                n + it.remaining() == self.remaining(),
                self.remaining() <= usize::MAX,
            decreases it.remaining(),
        {
            match it.next() {
                Some(_) => {
                    n += 1;
                },
                None => {
                    return n;
                },
            }
        }
    }
}

/// An iterator that iterates a list of answers.
pub struct AnswerIterator<'a> {
    data: &'a [u8],
    range: Range<usize>,
}

impl<'a> AnswerIterator<'a> {
    /// The buffer that the records lie in.
    pub closed spec fn buffer(&self) -> Seq<u8> {
        self.data@
    }

    /// Where the next record starts.
    pub closed spec fn start(&self) -> int {
        self.range.start as int
    }

    /// Where the last record ends.
    pub closed spec fn end(&self) -> int {
        self.range.end as int
    }

    /// Whole records lie between the start and the end, inside the buffer.
    pub open spec fn wf(&self) -> bool {
        &&& 0 <= self.start() <= self.end() <= self.buffer().len()
        &&& entries_between(Section::Answers, self.buffer(), self.start(), self.end()) is Some
    }

    /// The number of records that are still to come.
    pub open spec fn remaining(&self) -> nat {
        entries_between(Section::Answers, self.buffer(), self.start(), self.end())->Some_0
    }

    /// The next record, decoded anew from the buffer; `None` after the last.
    pub fn next(&mut self) -> (r: Option<Result<Answer<'a>, Error>>)
        requires
            old(self).wf(),
        ensures
            final(self).wf(),
            final(self).buffer() == old(self).buffer(),
            final(self).end() == old(self).end(),
            old(self).remaining() == 0 ==> r is None && final(self).start() == old(self).start(),
            old(self).remaining() > 0 ==> {
                &&& r matches Some(Ok(answer))
                &&& answer_spec(old(self).buffer(), old(self).start()) matches Ok(span)
                &&& answer.matches_span(old(self).buffer(), span)
                &&& final(self).start() == span.address.end
                &&& final(self).remaining() == old(self).remaining() - 1
            },
    {
        if self.range.start == self.range.end {
            None
        } else {
            proof {
                lemma_entry_bounds(Section::Answers, self.data@, self.range.start as int);
            }
            Some(
                match Answer::parse(self.data, self.range.start) {
                    Ok((answer, range)) => {
                        self.range.start = range.end;
                        Ok(answer)
                    },
                    Err(e) => Err(Error::from(e)),
                },
            )
        }
    }

    /// The number of records that are still to come; uses the iterator up.
    pub fn count(self) -> (r: usize)
        requires
            self.wf(),
        ensures
            r == self.remaining(),
    {
        let mut it = self;
        let mut n: usize = 0;
        proof {
            lemma_entries_fit(Section::Answers, it.buffer(), it.start(), it.end());
        }
        loop
            invariant
                it.wf(),
                it.buffer() == self.buffer(),
                it.end() == self.end(),
                n + it.remaining() == self.remaining(),
                self.remaining() <= usize::MAX,
            decreases it.remaining(),
        {
            match it.next() {
                Some(_) => {
                    n += 1;
                },
                None => {
                    return n;
                },
            }
        }
    }
}

} // verus!
