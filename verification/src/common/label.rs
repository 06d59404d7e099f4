//! Domain names: sequences of length-prefixed labels, with compression
//! pointers.
//!
//! A name starts at a length byte. A length byte with its two highest bits
//! set is a compression pointer: together with the byte after it, it sends
//! the reader to another place in the message. Only that second byte is
//! taken as the place, so a pointer reaches the first 256 bytes of a message
//! and no further. This is a restriction of this decoder, kept on purpose.

use core::ops::Range;
use core::str::Utf8Error;
use vstd::prelude::*;
use vstd::std_specs::convert::FromSpecImpl;
use vstd::std_specs::cmp::PartialEqSpecImpl;
use vstd::string::StringSliceAdditionalSpecFns;
use vstd::utf8::valid_utf8;

verus! {

/// Why a name could not be decoded.
#[derive(Debug, PartialEq, Structural, Eq, Clone, Copy)]
pub enum Error {
    /// The buffer ended before the name did; `additional` more bytes are
    /// needed before another attempt.
    EndOfSlice { additional: usize },
    /// A compression pointer leads to a place after which the buffer holds
    /// no zero byte.
    InvalidLabelSequence,
}

impl From<Error> for crate::common::question::Error {
    fn from(e: Error) -> (r: crate::common::question::Error) {
        match e {
            Error::EndOfSlice { additional } => crate::common::question::Error::EndOfSlice {
                additional,
            },
            Error::InvalidLabelSequence => crate::common::question::Error::InvalidLabelSequence,
        }
    }
}

impl FromSpecImpl<Error> for crate::common::question::Error {
    open spec fn obeys_from_spec() -> bool {
        true
    }

    open spec fn from_spec(e: Error) -> Self {
        crate::common::question::Error::of_label(e)
    }
}

impl From<Error> for crate::common::answer::Error {
    fn from(e: Error) -> (r: crate::common::answer::Error) {
        match e {
            Error::EndOfSlice { additional } => crate::common::answer::Error::EndOfSlice {
                additional,
            },
            Error::InvalidLabelSequence => crate::common::answer::Error::InvalidLabelSequence,
        }
    }
}

impl FromSpecImpl<Error> for crate::common::answer::Error {
    open spec fn obeys_from_spec() -> bool {
        true
    }

    open spec fn from_spec(e: Error) -> Self {
        crate::common::answer::Error::of_label(e)
    }
}

/// `core::str::Utf8Error`, carried through as an opaque value.
#[verifier::external_type_specification]
#[verifier::external_body]
pub struct ExUtf8Error(Utf8Error);

/// `core::str::from_utf8` turns bytes into a string slice without copying.
/// Trusted: it succeeds exactly on valid UTF-8, and the string then has the
/// given bytes.
pub assume_specification<'a>[ core::str::from_utf8 ](v: &'a [u8]) -> (r: Result<&'a str, Utf8Error>)
    ensures
        r is Ok <==> valid_utf8(v@),
        r is Ok ==> r->Ok_0.spec_bytes() == v@,
;

/// Whether a length byte marks a compression pointer: its two highest bits
/// are set, so it is 192 or more.
pub open spec fn is_pointer(b: u8) -> bool {
    b >= 192
}

/// Where a scan over the labels of a name comes to rest.
pub enum Scan {
    /// At a zero length byte; `end` is the place after it.
    Terminated { end: int },
    /// At a compression pointer, whose first byte is at `at`.
    Pointer { at: int },
    /// Outside the buffer, at `pos`.
    Exhausted { pos: int },
}

/// Scans the labels from `pos` on: skips each label by its length byte until
/// it meets a zero length, a pointer or the end of the buffer.
pub open spec fn scan(data: Seq<u8>, pos: int) -> Scan
    decreases
        if pos < data.len() {
            data.len() - pos
        } else {
            0
        },
{
    if pos < 0 || pos >= data.len() {
        Scan::Exhausted { pos }
    } else if is_pointer(data[pos]) {
        Scan::Pointer { at: pos }
    } else if data[pos] == 0 {
        Scan::Terminated { end: pos + 1 }
    } else {
        scan(data, pos + 1 + data[pos] as int)
    }
}

/// The place of the first zero byte at or after `from`, if there is one.
pub open spec fn first_zero(data: Seq<u8>, from: int) -> Option<int>
    decreases data.len() - from,
{
    if from < 0 || from >= data.len() {
        None
    } else if data[from] == 0 {
        Some(from)
    } else {
        first_zero(data, from + 1)
    }
}

/// A decoded name: the range of its bytes, and the place in the stream after
/// the name as it was written there.
pub struct Parsed {
    pub start: int,
    pub end: int,
    pub next: int,
}

/// What decoding a name at `start` gives.
///
/// * A name that ends in a zero length byte lies at `start..end`, its zero
///   byte included, and the stream goes on at `end`.
/// * A name that ends in a pointer is the name that the pointer leads to:
///   it lies from the target to the first zero byte after the target's own
///   length byte, that zero byte included. The stream goes on after the two
///   bytes of the pointer. Without such a zero byte the name is invalid.
/// * Where the buffer ends first, `additional` says how far the scan went
///   beyond it; it is 1 where only the second byte of a pointer is missing.
pub open spec fn parse_spec(data: Seq<u8>, start: int) -> Result<Parsed, Error> {
    match scan(data, start) {
        Scan::Terminated { end } => Ok(Parsed { start, end, next: end }),
        Scan::Pointer { at } => {
            if at + 1 == data.len() {
                Err(Error::EndOfSlice { additional: 1 })
            } else {
                let target = data[at + 1] as int;
                match first_zero(data, target + 1) {
                    Some(z) => Ok(Parsed { start: target, end: z + 1, next: at + 2 }),
                    None => Err(Error::InvalidLabelSequence),
                }
            }
        },
        Scan::Exhausted { pos } => Err(
            Error::EndOfSlice { additional: (pos - data.len() + 1) as usize },
        ),
    }
}

/// A scan from inside the buffer comes to rest at or after its start, a
/// terminated one inside the buffer.
pub proof fn lemma_scan_bounds(data: Seq<u8>, pos: int)
    requires
        0 <= pos,
    ensures
        match scan(data, pos) {
            Scan::Terminated { end } => pos < end <= data.len() && data[end - 1] == 0,
            Scan::Pointer { at } => pos <= at < data.len() && is_pointer(data[at]),
            Scan::Exhausted { pos: p } => pos <= p && data.len() <= p && (p == pos || p
                <= data.len() + 255),
        },
    decreases
        if pos < data.len() {
            data.len() - pos
        } else {
            0
        },
{
    if pos < data.len() && !is_pointer(data[pos]) && data[pos] != 0 {
        lemma_scan_bounds(data, pos + 1 + data[pos] as int);
    }
}

/// The zero byte that `first_zero` finds is the first one from `from` on.
pub proof fn lemma_first_zero(data: Seq<u8>, from: int)
    requires
        0 <= from,
    ensures
        match first_zero(data, from) {
            Some(z) => from <= z < data.len() && data[z] == 0 && forall|i: int|
                from <= i < z ==> data[i] != 0,
            None => forall|i: int| from <= i < data.len() ==> data[i] != 0,
        },
    decreases data.len() - from,
{
    if from < data.len() && data[from] != 0 {
        lemma_first_zero(data, from + 1);
    }
}

/// A name that was decoded lies inside the buffer, and the stream goes on
/// after `start` and inside the buffer. Where the buffer was too short, at
/// least one more byte is asked for.
pub proof fn lemma_parse_bounds(data: Seq<u8>, start: int)
    requires
        0 <= start,
        start - data.len() < usize::MAX,
    ensures
        match parse_spec(data, start) {
            Ok(p) => 0 <= p.start < p.end <= data.len() && start < p.next <= data.len(),
            Err(Error::EndOfSlice { additional }) => 1 <= additional,
            Err(Error::InvalidLabelSequence) => true,
        },
{
    lemma_scan_bounds(data, start);
    match scan(data, start) {
        Scan::Pointer { at } => {
            if at + 1 < data.len() {
                lemma_first_zero(data, data[at + 1] as int + 1);
            }
        },
        _ => {},
    }
}

/// A pointer takes two bytes of the stream, however long the name is that
/// it leads to.
pub proof fn lemma_pointer_takes_two_bytes(data: Seq<u8>, start: int)
    requires
        0 <= start < data.len(),
        is_pointer(data[start]),
        parse_spec(data, start) is Ok,
    ensures
        parse_spec(data, start)->Ok_0.next == start + 2,
        parse_spec(data, start)->Ok_0.start == data[start + 1],
{
}

/// A domain name inside a message: the buffer and the range of the name's
/// bytes in it. Nothing is copied.
pub struct LabelSequence<'a> {
    data: &'a [u8],
    range: Range<usize>,
}

impl<'a> LabelSequence<'a> {
    /// The buffer that the name lies in.
    pub closed spec fn buffer(&self) -> Seq<u8> {
        self.data@
    }

    /// Where the name starts in the buffer.
    pub closed spec fn start(&self) -> int {
        self.range.start as int
    }

    /// Where the name ends in the buffer.
    pub closed spec fn end(&self) -> int {
        self.range.end as int
    }

    /// Decodes the name that starts at `start`. Gives the name and the
    /// place in the buffer after it.
    pub fn parse(data: &'a [u8], start: usize) -> (r: Result<(LabelSequence<'a>, usize), Error>)
        requires
            start - data@.len() < usize::MAX,
        ensures
            match parse_spec(data@, start as int) {
                Ok(p) => r is Ok && r->Ok_0.0.buffer() == data@ && r->Ok_0.0.start() == p.start
                    && r->Ok_0.0.end() == p.end && r->Ok_0.1 == p.next,
                Err(e) => r == Err::<(LabelSequence<'a>, usize), Error>(e),
            },
            r is Ok ==> start < r->Ok_0.1 <= data@.len(),
    {
        proof {
            lemma_parse_bounds(data@, start as int);
        }
        let mut index: usize = start;
        while index < data.len()
            invariant
                start <= index,
                index == start || index <= data@.len(),
                scan(data@, index as int) == scan(data@, start as int),
            decreases data.len() - index,
        {
            let part_len: u8 = data[index];
            assert(((part_len & 0xc0) == 0xc0) == (part_len >= 192)) by (bit_vector);
            if (part_len & 0xc0) == 0xc0 {
                // A length with its two highest bits set is a jump to
                // another place in the packet.
                if data.len() - index == 1 {
                    return Err(Error::EndOfSlice { additional: 1 });
                }
                let target: usize = data[index + 1] as usize;
                return match find_zero(data, target + 1) {
                    Some(zero) => Ok(
                        (LabelSequence { data, range: target..zero + 1 }, index + 2),
                    ),
                    None => Err(Error::InvalidLabelSequence),
                };
            }
            if part_len == 0 {
                return Ok((LabelSequence { data, range: start..index + 1 }, index + 1));
            }
            let step: usize = part_len as usize + 1;
            if step > data.len() - index {
                assert(scan(data@, index + step) == Scan::Exhausted { pos: index + step });
                return Err(Error::EndOfSlice { additional: step - (data.len() - index) + 1 });
            }
            index += step;
        }
        Err(Error::EndOfSlice { additional: index - data.len() + 1 })
    }

    /// The labels of the name, from its first. Each call starts anew.
    pub fn iter(&self) -> (r: LabelSequenceIterator<'a>)
        ensures
            r.buffer() == self.buffer(),
            r.offset() == self.start(),
    {
        LabelSequenceIterator { data: self.data, offset: self.range.start }
    }

    /// The labels of the name, from its first; uses the name up.
    pub fn into_iter(self) -> (r: LabelSequenceIterator<'a>)
        ensures
            r.buffer() == self.buffer(),
            r.offset() == self.start(),
    {
        self.iter()
    }
}

/// The place of the first zero byte of `data` at or after `from`.
fn find_zero(data: &[u8], from: usize) -> (r: Option<usize>)
    ensures
        r is Some == first_zero(data@, from as int) is Some,
        r is Some ==> r->Some_0 as int == first_zero(data@, from as int)->Some_0,
        r is Some ==> from <= r->Some_0 < data@.len(),
{
    let mut i: usize = from;
    while i < data.len()
        invariant
            from <= i,
            first_zero(data@, i as int) == first_zero(data@, from as int),
        decreases data.len() - i,
    {
        if data[i] == 0 {
            return Some(i);
        }
        i += 1;
    }
    None
}

/// The bytes of the label whose length byte is at `offset`: from `start` to
/// `end`, if there is such a label.
pub struct LabelSpan {
    pub start: int,
    pub end: int,
}

/// The label whose length byte is at `offset`. There is none where the
/// buffer has ended, where the length is zero, and where the buffer does not
/// hold the whole label and one byte more.
pub open spec fn label_at(data: Seq<u8>, offset: int) -> Option<LabelSpan> {
    if 0 <= offset < data.len() && data[offset] != 0 && (offset + 1 + data[offset]) < data.len() {
        Some(LabelSpan { start: offset + 1, end: offset + 1 + data[offset] })
    } else {
        None
    }
}

/// The labels from `offset` on, each as its bytes, up to the place where
/// `label_at` finds no label.
pub open spec fn labels_from(data: Seq<u8>, offset: int) -> Seq<Seq<u8>>
    decreases data.len() - offset,
{
    match label_at(data, offset) {
        Some(span) => seq![data.subrange(span.start, span.end)] + labels_from(data, span.end),
        None => Seq::empty(),
    }
}

/// The place where the walk over the labels from `offset` on comes to rest:
/// the first place at which `label_at` finds no label.
pub open spec fn labels_end(data: Seq<u8>, offset: int) -> int
    decreases data.len() - offset,
{
    match label_at(data, offset) {
        Some(span) => labels_end(data, span.end),
        None => offset,
    }
}

/// A name that ends in a zero length byte is walked label by label up to
/// that zero byte and no further, and its labels and their length bytes
/// fill the bytes before it.
pub proof fn lemma_terminated_name_is_walked_whole(data: Seq<u8>, start: int)
    requires
        0 <= start,
        scan(data, start) is Terminated,
    ensures
        labels_end(data, start) == scan(data, start)->end - 1,
        data[labels_end(data, start)] == 0,
        labels_from(data, start).flatten().len() + labels_from(data, start).len() == labels_end(
            data,
            start,
        ) - start,
    decreases data.len() - start,
{
    lemma_scan_bounds(data, start);
    if data[start] != 0 {
        let next = start + 1 + data[start] as int;
        lemma_scan_bounds(data, next);
        lemma_terminated_name_is_walked_whole(data, next);
        let head = seq![data.subrange(start + 1, next)];
        let tail = labels_from(data, next);
        assert(labels_from(data, start) == head + tail);
        vstd::seq_lib::lemma_flatten_concat(head, tail);
        assert(head.flatten() =~= data.subrange(start + 1, next)) by {
            assert(head.drop_first() =~= Seq::<Seq<u8>>::empty());
            assert(head.flatten() =~= head.first() + head.drop_first().flatten());
        }
    } else {
        assert(labels_from(data, start).flatten() =~= Seq::<u8>::empty());
    }
}

/// Walks the labels of a name.
pub struct LabelSequenceIterator<'a> {
    data: &'a [u8],
    offset: usize,
}

impl<'a> LabelSequenceIterator<'a> {
    /// The buffer that the name lies in.
    pub closed spec fn buffer(&self) -> Seq<u8> {
        self.data@
    }

    /// The place of the next length byte.
    pub closed spec fn offset(&self) -> int {
        self.offset as int
    }

    /// The labels that are still to come.
    pub open spec fn remaining(&self) -> Seq<Seq<u8>> {
        labels_from(self.buffer(), self.offset())
    }

    /// The next label, as text where its bytes are valid UTF-8 and as bytes
    /// where they are not. `None` at the end of the name, and from then on.
    pub fn next(&mut self) -> (r: Option<StrOrSlice<'a>>)
        ensures
            final(self).buffer() == old(self).buffer(),
            match label_at(old(self).buffer(), old(self).offset()) {
                Some(span) => r is Some && final(self).offset() == span.end && r->Some_0.bytes()
                    == old(self).buffer().subrange(span.start, span.end) && (r->Some_0 is Str
                    <==> valid_utf8(r->Some_0.bytes())),
                None => r is None && final(self).offset() == old(self).offset(),
            },
            r is Some ==> old(self).remaining() == seq![r->Some_0.bytes()]
                + final(self).remaining(),
            r is None ==> old(self).remaining() == Seq::<Seq<u8>>::empty(),
    {
        if self.offset >= self.data.len() {
            return None;
        }
        let len: u8 = self.data[self.offset];
        if len == 0 {
            return None;
        }
        let start: usize = self.offset + 1;
        if len as usize >= self.data.len() - start {
            return None;
        }
        let end: usize = start + len as usize;
        let slice: &'a [u8] = &self.data[start..end];
        self.offset = end;
        Some(
            match core::str::from_utf8(slice) {
                Ok(s) => StrOrSlice::Str(s),
                Err(e) => StrOrSlice::Slice(slice, e),
            },
        )
    }
}

/// A label: text, or the bytes that are no valid UTF-8 together with the
/// reason.
#[derive(Debug, PartialEq, Eq)]
pub enum StrOrSlice<'a> {
    Str(&'a str),
    Slice(&'a [u8], Utf8Error),
}

impl<'a> StrOrSlice<'a> {
    /// The bytes of the label.
    pub open spec fn bytes(&self) -> Seq<u8> {
        match self {
            StrOrSlice::Str(s) => s.spec_bytes(),
            StrOrSlice::Slice(slice, _) => slice@,
        }
    }
}

/// Whether two slices hold the same bytes.
fn same_bytes(a: &[u8], b: &[u8]) -> (r: bool)
    ensures
        r == (a@ == b@),
{
    if a.len() != b.len() {
        return false;
    }
    let mut i: usize = 0;
    while i < a.len()
        invariant
            a@.len() == b@.len(),
            i <= a@.len(),
            a@.subrange(0, i as int) == b@.subrange(0, i as int),
        decreases a@.len() - i,
    {
        if a[i] != b[i] {
            assert(a@[i as int] != b@[i as int]);
            return false;
        }
        i += 1;
        assert(a@.subrange(0, i as int) =~= a@.subrange(0, i - 1).push(a@[i - 1]));
        assert(b@.subrange(0, i as int) =~= b@.subrange(0, i - 1).push(b@[i - 1]));
    }
    assert(a@ =~= a@.subrange(0, i as int));
    assert(b@ =~= b@.subrange(0, i as int));
    true
}

impl<'a> PartialEq<str> for StrOrSlice<'a> {
    /// A label equals a text where it has the bytes of the text.
    fn eq(&self, other: &str) -> (r: bool) {
        match self {
            StrOrSlice::Str(s) => same_bytes(s.as_bytes(), other.as_bytes()),
            StrOrSlice::Slice(slice, _) => same_bytes(slice, other.as_bytes()),
        }
    }
}

impl<'a> PartialEqSpecImpl<str> for StrOrSlice<'a> {
    open spec fn obeys_eq_spec() -> bool {
        true
    }

    open spec fn eq_spec(&self, other: &str) -> bool {
        self.bytes() == other.spec_bytes()
    }
}

impl<'a> PartialEq<[u8]> for StrOrSlice<'a> {
    /// A label equals a slice where it has the bytes of the slice.
    fn eq(&self, other: &[u8]) -> (r: bool) {
        match self {
            StrOrSlice::Str(s) => same_bytes(s.as_bytes(), other),
            StrOrSlice::Slice(slice, _) => same_bytes(slice, other),
        }
    }
}

impl<'a> PartialEqSpecImpl<[u8]> for StrOrSlice<'a> {
    open spec fn obeys_eq_spec() -> bool {
        true
    }

    open spec fn eq_spec(&self, other: &[u8]) -> bool {
        self.bytes() == other@
    }
}

} // verus!
