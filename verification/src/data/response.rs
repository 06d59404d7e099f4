//! The builder of a reply: first the header, then the answers.
//!
//! The two steps are two types. The first step uses up the builder that has
//! no header yet and gives the builder that has one; only that one can
//! write the answers, which ends the reply.
//!
//! The flags of a reply are fixed: response, recursion desired, recursion
//! available. The count of additional records is written as 1, though no
//! additional record follows; a client that goes by the count will look for
//! one.

use vstd::prelude::*;
use crate::data::question::{DnsQuestion, QType};
use crate::data::request::{u16_at, DnsRequest};
use crate::utils::{be16_bytes, be32_bytes, from_u16, from_u32};

verus! {

/// The first four bytes of a reply to the request `id`: the identifier, and
/// the flags response, recursion desired and recursion available.
pub open spec fn reply_header(id: u16) -> Seq<u8> {
    be16_bytes(id) + seq![0x81u8, 0x80u8]
}

/// The four counts of a reply with `answers` answers: one question, the
/// answers, no authority record, one additional record. A number of answers
/// above 65535 is written without its higher bits.
pub open spec fn reply_counts(answers: nat) -> Seq<u8> {
    seq![0u8, 1u8] + be16_bytes((answers % 65536) as u16) + seq![0u8, 0u8] + seq![0u8, 1u8]
}

/// One address record: the labels of the name and its zero byte, the
/// address type, the class, a time to live of 0, a data length of 4, and the
/// four bytes of the address.
pub open spec fn address_record(names: Seq<u8>, qclass: u16, address: Seq<u8>) -> Seq<u8> {
    names + seq![0u8] + seq![0u8, 1u8] + be16_bytes(qclass) + be32_bytes(0) + seq![0u8, 4u8]
        + address
}

/// The address records of `addresses`, in their order, each under the same
/// name.
pub open spec fn address_records(names: Seq<u8>, qclass: u16, addresses: Seq<[u8; 4]>) -> Seq<u8>
    decreases addresses.len(),
{
    if addresses.len() == 0 {
        Seq::empty()
    } else {
        address_records(names, qclass, addresses.drop_last()) + address_record(
            names,
            qclass,
            addresses.last()@,
        )
    }
}

/// The whole reply to the request `id` and a question, with `addresses` as
/// its answers.
pub open spec fn reply_bytes(id: u16, names: Seq<u8>, qclass: u16, addresses: Seq<[u8; 4]>) -> Seq<
    u8,
> {
    reply_header(id) + reply_counts(addresses.len()) + address_records(names, qclass, addresses)
}

/// Appends `bytes` to `out`.
fn write_all(out: &mut Vec<u8>, bytes: &[u8])
    ensures
        final(out)@ == old(out)@ + bytes@,
{
    let mut i: usize = 0;
    while i < bytes.len()
        invariant
            i <= bytes@.len(),
            out@ == old(out)@ + bytes@.subrange(0, i as int),
        decreases bytes@.len() - i,
    {
        out.push(bytes[i]);
        i += 1;
        assert(out@ =~= old(out)@ + bytes@.subrange(0, i as int));
    }
    assert(bytes@.subrange(0, i as int) =~= bytes@);
}

struct DnsResponseBuilder<'a> {
    source: DnsRequest<'a>,
    source_question: DnsQuestion<'a>,
    writer: Vec<u8>,
}

/// A reply of which nothing is written yet.
pub struct DnsResponseBuilderNoHeader<'a>(DnsResponseBuilder<'a>);

impl<'a> DnsResponseBuilderNoHeader<'a> {
    /// What the sink holds.
    pub closed spec fn written(&self) -> Seq<u8> {
        self.0.writer@
    }

    /// The identifier of the request that is replied to.
    pub closed spec fn identification(&self) -> u16 {
        u16_at(self.0.source.data@, 0)
    }

    /// The question that is replied to.
    pub closed spec fn question(&self) -> DnsQuestion<'a> {
        self.0.source_question
    }

    pub(crate) fn new(source: DnsRequest<'a>, source_question: DnsQuestion<'a>, writer: Vec<u8>) -> (r:
        Self)
        ensures
            r.written() == writer@,
            r.identification() == u16_at(source.data@, 0),
            r.question() == source_question,
    {
        Self(DnsResponseBuilder { source, source_question, writer })
    }

    /// Writes the header of the reply: the identifier of the request,
    /// unchanged, and the two flag bytes.
    pub fn write_header(self) -> (r: DnsResponseBuilderAfterHeader<'a>)
        ensures
            r.written() == self.written() + reply_header(self.identification()),
            r.identification() == self.identification(),
            r.question() == self.question(),
    {
        let mut builder = self.0;
        let id: [u8; 2] = from_u16(builder.source.identification());
        write_all(&mut builder.writer, id.as_slice());

        let high: u8 = 0b1000_0001;  // reply and recursion desired
        let low: u8 = 0b1000_0000;  // recursion available
        let flags: [u8; 2] = [high, low];
        write_all(&mut builder.writer, flags.as_slice());
        assert(builder.writer@ =~= self.written() + reply_header(self.identification()));

        DnsResponseBuilderAfterHeader(builder)
    }
}

/// A reply of which the header is written.
pub struct DnsResponseBuilderAfterHeader<'a>(DnsResponseBuilder<'a>);

impl<'a> DnsResponseBuilderAfterHeader<'a> {
    /// What the sink holds.
    pub closed spec fn written(&self) -> Seq<u8> {
        self.0.writer@
    }

    /// The identifier of the request that is replied to.
    pub closed spec fn identification(&self) -> u16 {
        u16_at(self.0.source.data@, 0)
    }

    /// The question that is replied to.
    pub closed spec fn question(&self) -> DnsQuestion<'a> {
        self.0.source_question
    }

    /// Writes the counts and one address record for each of `addresses`,
    /// each under the name of the question, and gives the sink back: the
    /// reply is complete.
    pub fn send_ipv4_addresses(self, addresses: &[[u8; 4]]) -> (r: Vec<u8>)
        requires
            self.question().qtype == QType::A,
        ensures
            r@ == self.written() + reply_counts(addresses@.len()) + address_records(
                self.question().names@,
                self.question().qclass,
                addresses@,
            ),
    {
        let DnsResponseBuilder { writer, source, source_question } = self.0;
        let _ = source;
        let mut writer = writer;
        let ghost before = writer@;
        let ghost names = source_question.names@;
        let ghost qclass = source_question.qclass;

        let one: [u8; 2] = [0, 1];
        let none: [u8; 2] = [0, 0];
        assert(one@ =~= seq![0u8, 1u8] && none@ =~= seq![0u8, 0u8]);
        write_all(&mut writer, one.as_slice());  // We got 1 question
        let count: [u8; 2] = from_u16((addresses.len() % 65536) as u16);
        write_all(&mut writer, count.as_slice());
        write_all(&mut writer, none.as_slice());  // no authorities
        write_all(&mut writer, one.as_slice());  // 1 additional record is announced
        assert(writer@ =~= before + reply_counts(addresses@.len()));

        let ttl: u32 = 0;
        let mut i: usize = 0;
        while i < addresses.len()
            invariant
                i <= addresses@.len(),
                ttl == 0,
                source_question.qtype == QType::A,
                names == source_question.names@,
                qclass == source_question.qclass,
                writer@ == before + reply_counts(addresses@.len()) + address_records(
                    names,
                    qclass,
                    addresses@.subrange(0, i as int),
                ),
            decreases addresses@.len() - i,
        {
            let ghost so_far = writer@;
            let zero: [u8; 1] = [0];
            let size: [u8; 2] = [0, 4];
            let qtype: [u8; 2] = source_question.qtype.to_u16();
            let class: [u8; 2] = from_u16(source_question.qclass);
            let ttl_bytes: [u8; 4] = from_u32(ttl);
            assert(zero@ =~= seq![0u8] && size@ =~= seq![0u8, 4u8]);
            write_all(&mut writer, source_question.names);
            write_all(&mut writer, zero.as_slice());  // the 0 byte that ends the name
            write_all(&mut writer, qtype.as_slice());
            write_all(&mut writer, class.as_slice());
            write_all(&mut writer, ttl_bytes.as_slice());
            write_all(&mut writer, size.as_slice());  // size of ipv4
            write_all(&mut writer, addresses[i].as_slice());
            proof {
                let grown = addresses@.subrange(0, i + 1);
                assert(grown.drop_last() =~= addresses@.subrange(0, i as int));
                assert(grown.last() == addresses@[i as int]);
                assert(writer@ =~= so_far + address_record(names, qclass, addresses@[i as int]@));
            }
            i += 1;
        }
        assert(addresses@.subrange(0, i as int) =~= addresses@);
        writer
    }
}

/// In a reply with at least one and at most 65535 answers, the first two
/// bytes are the identifier of the request, bytes 6 and 7 are the number of
/// answers, and the last four bytes are the last address.
pub proof fn lemma_reply_shape(id: u16, names: Seq<u8>, qclass: u16, addresses: Seq<[u8; 4]>)
    requires
        1 <= addresses.len() <= 65535,
    ensures
        reply_bytes(id, names, qclass, addresses).subrange(0, 2) == be16_bytes(id),
        reply_bytes(id, names, qclass, addresses).subrange(6, 8) == be16_bytes(
            addresses.len() as u16,
        ),
        reply_bytes(id, names, qclass, addresses).subrange(
            reply_bytes(id, names, qclass, addresses).len() - 4,
            reply_bytes(id, names, qclass, addresses).len() as int,
        ) == addresses.last()@,
{
    let reply = reply_bytes(id, names, qclass, addresses);
    let record = address_record(names, qclass, addresses.last()@);
    assert(reply.subrange(0, 2) =~= be16_bytes(id));
    assert(reply.subrange(6, 8) =~= be16_bytes(addresses.len() as u16));
    assert(addresses.last()@.len() == 4);
    assert(record.subrange(record.len() - 4, record.len() as int) =~= addresses.last()@);
    assert(reply.subrange(reply.len() - 4, reply.len() as int) =~= addresses.last()@);
}

} // verus!
