//! What a caller can rely on who collects more bytes and tries again.
//!
//! A failure for want of bytes is honest: with fewer bytes more than it asks
//! for, the same step fails again, and asks for exactly the rest. What was
//! decoded stays decoded when bytes are added behind it.

use vstd::prelude::*;
use crate::common::answer::{answer_spec, payload_spec, Failure};
use crate::common::label::{
    first_zero, is_pointer, lemma_first_zero, lemma_parse_bounds, lemma_scan_bounds, parse_spec,
    scan, Error, Scan,
};
use crate::common::question::question_spec;
use crate::request::{entry_end, lemma_entry_bounds, request_spec, walk, Section};

verus! {

/// What more bytes do to an outcome: a success stays, a want of bytes
/// shrinks by the bytes that came as long as some are still wanted, invalid
/// data of a record stays invalid. Nothing is said of an invalid name, which
/// more bytes may mend.
pub open spec fn carries_over<Value>(
    before: Result<Value, Failure>,
    after: Result<Value, Failure>,
    more: nat,
) -> bool {
    match before {
        Ok(value) => after == Ok::<Value, Failure>(value),
        Err(Failure::EndOfSlice { additional }) => more < additional ==> after == Err::<
            Value,
            Failure,
        >(Failure::EndOfSlice { additional: (additional - more) as usize }),
        Err(Failure::InvalidLabelSequence) => true,
        Err(e) => after == Err::<Value, Failure>(e),
    }
}

/// A scan that came to rest inside the buffer comes to rest at the same
/// place when bytes are added; one that went out of the buffer goes to the
/// same place as long as the added bytes do not reach it.
pub proof fn lemma_scan_with_more(data: Seq<u8>, more: Seq<u8>, pos: int)
    requires
        0 <= pos,
    ensures
        match scan(data, pos) {
            Scan::Exhausted { pos: p } => data.len() + more.len() <= p ==> scan(data + more, pos)
                == scan(data, pos),
            _ => scan(data + more, pos) == scan(data, pos),
        },
    decreases
        if pos < data.len() {
            data.len() - pos
        } else {
            0
        },
{
    if pos < data.len() {
        assert((data + more)[pos] == data[pos]);
        if !is_pointer(data[pos]) && data[pos] != 0 {
            lemma_scan_with_more(data, more, pos + 1 + data[pos] as int);
        }
    }
}

/// A zero byte that was found is found again when bytes are added.
pub proof fn lemma_first_zero_with_more(data: Seq<u8>, more: Seq<u8>, from: int)
    requires
        0 <= from,
        first_zero(data, from) is Some,
    ensures
        first_zero(data + more, from) == first_zero(data, from),
    decreases data.len() - from,
{
    assert((data + more)[from] == data[from]);
    if data[from] != 0 {
        lemma_first_zero_with_more(data, more, from + 1);
    }
}

/// A name that was decoded is decoded alike when bytes are added. A name
/// that wanted bytes wants the rest when fewer came.
pub proof fn lemma_name_with_more(data: Seq<u8>, more: Seq<u8>, start: int)
    requires
        0 <= start,
        start - data.len() < usize::MAX,
        data.len() + more.len() <= usize::MAX,
    ensures
        match parse_spec(data, start) {
            Ok(p) => parse_spec(data + more, start) == parse_spec(data, start),
            Err(Error::EndOfSlice { additional }) => more.len() < additional ==> parse_spec(
                data + more,
                start,
            ) == Err::<crate::common::label::Parsed, Error>(
                Error::EndOfSlice { additional: (additional - more.len()) as usize },
            ),
            Err(Error::InvalidLabelSequence) => true,
        },
{
    lemma_scan_bounds(data, start);
    lemma_scan_with_more(data, more, start);
    match scan(data, start) {
        Scan::Pointer { at } => {
            if at + 1 < data.len() {
                assert((data + more)[at + 1] == data[at + 1]);
                let target = data[at + 1] as int;
                if first_zero(data, target + 1) is Some {
                    lemma_first_zero_with_more(data, more, target + 1);
                }
            } else if more.len() == 0 {
                assert(data + more =~= data);
            }
        },
        _ => {},
    }
}

/// The end of an entry, or its failure, carries over to a longer buffer.
pub proof fn lemma_entry_with_more(section: Section, data: Seq<u8>, more: Seq<u8>, start: int)
    requires
        0 <= start <= data.len(),
        data.len() + more.len() <= usize::MAX,
    ensures
        carries_over(
            entry_end(section, data, start),
            entry_end(section, data + more, start),
            more.len(),
        ),
{
    lemma_parse_bounds(data, start);
    lemma_name_with_more(data, more, start);
    let longer = data + more;
    match parse_spec(data, start) {
        Ok(name) => {
            if name.next + 4 <= data.len() {
                assert(longer[name.next] == data[name.next]);
                assert(longer[name.next + 1] == data[name.next + 1]);
                assert(longer[name.next + 2] == data[name.next + 2]);
                assert(longer[name.next + 3] == data[name.next + 3]);
                match section {
                    Section::Questions => {},
                    Section::Answers => {
                        let at = name.next + 4;
                        if at + 6 <= data.len() {
                            assert(longer[at] == data[at]);
                            assert(longer[at + 1] == data[at + 1]);
                            assert(longer[at + 2] == data[at + 2]);
                            assert(longer[at + 3] == data[at + 3]);
                            assert(longer[at + 4] == data[at + 4]);
                            assert(longer[at + 5] == data[at + 5]);
                            if at + 10 <= data.len() {
                                assert(longer.subrange(at + 6, at + 10) =~= data.subrange(
                                    at + 6,
                                    at + 10,
                                ));
                            }
                        }
                    },
                }
            }
        },
        Err(_) => {},
    }
}

/// The end of a walk, or its failure, carries over to a longer buffer.
pub proof fn lemma_walk_with_more(
    section: Section,
    data: Seq<u8>,
    more: Seq<u8>,
    start: int,
    count: nat,
)
    requires
        0 <= start <= data.len(),
        data.len() + more.len() <= usize::MAX,
    ensures
        carries_over(
            walk(section, data, start, count),
            walk(section, data + more, start, count),
            more.len(),
        ),
    decreases count,
{
    if count > 0 {
        lemma_entry_with_more(section, data, more, start);
        lemma_entry_bounds(section, data, start);
        match entry_end(section, data, start) {
            Ok(end) => {
                lemma_walk_with_more(section, data, more, end, (count - 1) as nat);
            },
            Err(_) => {},
        }
    }
}

/// A message that was parsed is parsed alike when bytes are added behind
/// it. A message that failed for want of `additional` bytes fails again
/// when fewer came, for want of the rest. A message that failed for the data
/// of one of its records fails alike.
pub proof fn lemma_message_with_more(data: Seq<u8>, more: Seq<u8>)
    requires
        data.len() + more.len() <= usize::MAX,
    ensures
        carries_over(request_spec(data), request_spec(data + more), more.len()),
{
    let longer = data + more;
    if data.len() >= 12 {
        assert(longer[4] == data[4] && longer[5] == data[5]);
        assert(longer[6] == data[6] && longer[7] == data[7]);
        let questions = crate::utils::be16(data[4], data[5]) as nat;
        let answers = crate::utils::be16(data[6], data[7]) as nat;
        lemma_walk_with_more(Section::Questions, data, more, 12, questions);
        match walk(Section::Questions, data, 12, questions) {
            Ok(end) => {
                crate::request::lemma_walk_between(Section::Questions, data, 12, questions);
                lemma_walk_with_more(Section::Answers, data, more, end, answers);
            },
            Err(_) => {},
        }
    }
}

} // verus!
