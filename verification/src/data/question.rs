//! The questions of a request, read leniently: names without compression.

use vstd::prelude::*;
use vstd::std_specs::convert::FromSpecImpl;
use vstd::string::StringSliceAdditionalSpecFns;
use vstd::utf8::valid_utf8;
use crate::data::try_split_at;
use crate::utils::{be16, to_u16};

verus! {

/// The place of the zero byte that ends the name whose labels start at
/// `pos`, each label skipped by its length byte; `None` where the buffer
/// ends first.
pub open spec fn name_scan(s: Seq<u8>, pos: int) -> Option<int>
    decreases
        if pos < s.len() {
            s.len() - pos
        } else {
            0
        },
{
    if pos < 0 || pos >= s.len() {
        None
    } else if s[pos] == 0 {
        Some(pos)
    } else {
        name_scan(s, pos + s[pos] as int + 1)
    }
}

/// The number of bytes that the labels of the name at the start of `s`
/// take, without the zero byte that ends it; 0 where the buffer ends before
/// the name does.
pub open spec fn name_length(s: Seq<u8>) -> int {
    match name_scan(s, 0) {
        Some(p) => p,
        None => 0,
    }
}

/// A name that ends does so inside the buffer.
pub proof fn lemma_name_scan_bounds(s: Seq<u8>, pos: int)
    requires
        0 <= pos,
    ensures
        name_scan(s, pos) is Some ==> pos <= name_scan(s, pos)->Some_0 < s.len() && s[name_scan(
            s,
            pos,
        )->Some_0] == 0,
    decreases
        if pos < s.len() {
            s.len() - pos
        } else {
            0
        },
{
    if pos < s.len() && s[pos] != 0 {
        lemma_name_scan_bounds(s, pos + s[pos] as int + 1);
    }
}

/// A question at the start of a buffer: the bytes of its labels, the codes
/// of its type and class, and the bytes behind it.
pub struct QuestionHead {
    pub names: Seq<u8>,
    pub type_code: u16,
    pub class_code: u16,
    pub rest: Seq<u8>,
}

/// The question at the start of `s`: the labels of its name, a zero byte,
/// and two bytes each of type and class, big-endian. There is none where
/// `s` does not hold all of these.
pub open spec fn question_head(s: Seq<u8>) -> Option<QuestionHead> {
    let n = name_length(s);
    if n + 5 <= s.len() && s[n] == 0 {
        Some(
            QuestionHead {
                names: s.subrange(0, n),
                type_code: be16(s[n + 1], s[n + 2]),
                class_code: be16(s[n + 3], s[n + 4]),
                rest: s.subrange(n + 5, s.len() as int),
            },
        )
    } else {
        None
    }
}

/// Walks the questions that lie one after the other in a buffer.
pub struct DnsQuestionIterator<'a>(pub &'a [u8]);

impl<'a> DnsQuestionIterator<'a> {
    /// The number of bytes that the labels of the name at the start of
    /// `slice` take, without the zero byte that ends it; 0 where the slice
    /// ends before the name does.
    pub fn calculate_name_length(slice: &[u8]) -> (r: usize)
        ensures
            r == name_length(slice@),
            r < slice@.len() || r == 0,
    {
        proof {
            lemma_name_scan_bounds(slice@, 0);
        }
        let mut total_len: usize = 0;
        loop
            invariant
                total_len <= slice@.len(),
                name_scan(slice@, total_len as int) == name_scan(slice@, 0),
            decreases slice@.len() - total_len,
        {
            if total_len >= slice.len() {
                return 0;
            }
            let name_len: usize = slice[total_len] as usize;
            if name_len == 0 {
                return total_len;
            }
            if name_len + 1 > slice.len() - total_len {
                assert(name_scan(slice@, total_len + name_len + 1) is None);
                return 0;
            }
            total_len += name_len + 1;
        }
    }

    /// The number of bytes that the question at the start of `slice`
    /// takes: its name, the zero byte behind it, and two bytes each of type
    /// and class.
    pub fn calculate_len(slice: &[u8]) -> (r: usize)
        requires
            name_length(slice@) + 5 <= usize::MAX,
        ensures
            r == name_length(slice@) + 5,
    {
        // The name is followed by its zero byte, two bytes of type and two
        // bytes of class.
        Self::calculate_name_length(slice) + 1 + 2 + 2
    }

    /// The next question; `None` where the buffer does not hold a whole
    /// question, and then the iterator stays where it is.
    pub fn next(&mut self) -> (r: Option<DnsQuestion<'a>>)
        ensures
            match question_head(old(self).0@) {
                Some(head) => r is Some && r->Some_0.names@ == head.names && r->Some_0.qtype
                    == QType::from_code(head.type_code) && r->Some_0.qclass == head.class_code
                    && final(self).0@ == head.rest,
                None => r is None && final(self).0@ == old(self).0@,
            },
    {
        let name_len: usize = Self::calculate_name_length(self.0);
        let (names, remaining) = match try_split_at(self.0, name_len) {
            Some(parts) => parts,
            None => {
                return None;
            },
        };
        if remaining.len() == 0 {
            return None;
        }
        let zero: u8 = remaining[0];
        if zero != 0 {
            return None;
        }
        let remaining: &'a [u8] = &remaining[1..remaining.len()];
        let (qtype, remaining) = match try_split_at(remaining, 2) {
            Some(parts) => parts,
            None => {
                return None;
            },
        };
        let (qclass, remaining) = match try_split_at(remaining, 2) {
            Some(parts) => parts,
            None => {
                return None;
            },
        };
        let qtype: QType = match to_u16(qtype) {
            Some(code) => QType::from(code),
            None => {
                return None;
            },
        };
        let qclass: u16 = match to_u16(qclass) {
            Some(code) => code,
            None => {
                return None;
            },
        };
        assert(remaining@ =~= old(self).0@.subrange(name_len + 5, old(self).0@.len() as int));
        self.0 = remaining;
        Some(DnsQuestion { names, qtype, qclass })
    }
}

/// One question of a request.
pub struct DnsQuestion<'a> {
    /// The labels of the name, each behind its length byte, without the
    /// zero byte that ends the name.
    pub names: &'a [u8],
    /// The type of record that is asked for.
    pub qtype: QType,
    /// The code of the class that is asked in.
    pub qclass: u16,
}

impl<'a> DnsQuestion<'a> {
    /// The labels of the name as text, from the first.
    pub fn names(&self) -> (r: DnsQuestionNameIter<'a>)
        ensures
            r.0@ == self.names@,
    {
        DnsQuestionNameIter(self.names)
    }
}

/// A label at the start of a buffer, and the bytes behind it.
pub struct NameHead {
    pub label: Seq<u8>,
    pub rest: Seq<u8>,
}

/// The label at the start of `s`: a length byte and as many bytes as it
/// says. There is none where `s` is empty or shorter than that.
pub open spec fn name_head(s: Seq<u8>) -> Option<NameHead> {
    if s.len() > 0 && 1 + s[0] as int <= s.len() {
        Some(
            NameHead {
                label: s.subrange(1, 1 + s[0] as int),
                rest: s.subrange(1 + s[0] as int, s.len() as int),
            },
        )
    } else {
        None
    }
}

/// Walks the labels of the name of a question.
pub struct DnsQuestionNameIter<'a>(pub &'a [u8]);

impl<'a> DnsQuestionNameIter<'a> {
    /// The next label as text. `None` at the end of the name, and then the
    /// iterator stays where it is; `None` also for a label that is no valid
    /// UTF-8, which is passed over.
    pub fn next(&mut self) -> (r: Option<&'a str>)
        ensures
            match name_head(old(self).0@) {
                Some(head) => final(self).0@ == head.rest && (r is Some <==> valid_utf8(
                    head.label,
                )) && (r is Some ==> r->Some_0.spec_bytes() == head.label),
                None => r is None && final(self).0@ == old(self).0@,
            },
    {
        if self.0.len() == 0 {
            return None;
        }
        let len: u8 = self.0[0];
        let remaining: &'a [u8] = &self.0[1..self.0.len()];
        let (label, remaining) = match try_split_at(remaining, len as usize) {
            Some(parts) => parts,
            None => {
                return None;
            },
        };
        assert(label@ =~= old(self).0@.subrange(1, 1 + len as int));
        assert(remaining@ =~= old(self).0@.subrange(1 + len as int, old(self).0@.len() as int));
        self.0 = remaining;
        match core::str::from_utf8(label) {
            Ok(s) => Some(s),
            Err(_) => None,
        }
    }
}

/// The type of record that a question asks for.
#[derive(Copy, Clone, Debug, PartialEq, Structural)]
pub enum QType {
    A,
    NS,
    CName,
    SOA,
    WKS,
    PTR,
    MX,
    SRV,
    AAAA,
    Any,
    Unknown(u16),
}

impl From<u16> for QType {
    fn from(v: u16) -> (r: Self) {
        match v {
            1 => QType::A,
            2 => QType::NS,
            5 => QType::CName,
            6 => QType::SOA,
            11 => QType::WKS,
            12 => QType::PTR,
            15 => QType::MX,
            28 => QType::AAAA,
            33 => QType::SRV,
            x => QType::Unknown(x),
        }
    }
}

impl FromSpecImpl<u16> for QType {
    open spec fn obeys_from_spec() -> bool {
        true
    }

    open spec fn from_spec(v: u16) -> Self {
        QType::from_code(v)
    }
}

impl QType {
    /// The type that the wire code `v` stands for. No code stands for
    /// `Any`.
    pub open spec fn from_code(v: u16) -> Self {
        match v {
            1 => QType::A,
            2 => QType::NS,
            5 => QType::CName,
            6 => QType::SOA,
            11 => QType::WKS,
            12 => QType::PTR,
            15 => QType::MX,
            28 => QType::AAAA,
            33 => QType::SRV,
            x => QType::Unknown(x),
        }
    }

    /// The two bytes of the address type on the wire. Only the address type
    /// can be written.
    pub(crate) fn to_u16(self) -> (r: [u8; 2])
        requires
            self == QType::A,
        ensures
            r@ == seq![0u8, 1u8],
    {
        let r: [u8; 2] = [0, 1];
        assert(r@ =~= seq![0u8, 1u8]);
        r
    }
}

} // verus!
