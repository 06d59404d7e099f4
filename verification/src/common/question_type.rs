//! The table of question and record types.

use vstd::prelude::*;
use vstd::std_specs::convert::FromSpecImpl;

verus! {

/// A two octet code which specifies the type of the query: every code of a
/// record type, and some more general codes that match more than one type.
#[derive(Debug, Copy, Clone, Eq, PartialEq, Structural)]
pub enum QuestionType {
    /// A 32-bit IPv4 address of a host.
    A,
    /// Delegates a DNS zone to the given authoritative name servers.
    NS,
    /// Alias of one name to another: the lookup goes on with the new name.
    CNAME,
    /// Authoritative information about a DNS zone.
    SOA,
    /// Pointer to a canonical name; the lookup stops there. Used for reverse lookups.
    PTR,
    /// Host information; also the minimal answer to queries of type ANY.
    HINFO,
    /// Maps a domain name to the mail transfer agents of that domain.
    MX,
    /// Text, human-readable or machine-readable.
    TXT,
    /// The person responsible for the domain.
    RP,
    /// Location of the database servers of an AFS cell.
    AFSDB,
    /// Signature record of SIG(0) and TKEY.
    SIG,
    /// Key record of SIG(0) and TKEY.
    KEY,
    /// A 128-bit IPv6 address of a host.
    AAAA,
    /// A geographical location of a domain name.
    LOC,
    /// Generalized service location record.
    SRV,
    /// Rewrites domain names by regular expressions.
    NAPTR,
    /// Names a key management agent of the domain.
    KX,
    /// Stores a certificate.
    CERT,
    /// Alias for a name and all its subnames.
    DNAME,
    /// Lists of address ranges. Experimental.
    APL,
    /// Identifies the DNSSEC signing key of a delegated zone.
    DS,
    /// Fingerprint of an SSH public host key.
    SSHFP,
    /// Key record for use with IPsec.
    IPSECKEY,
    /// Signature of a record set secured by DNSSEC.
    RRSIG,
    /// Part of DNSSEC: proves that a name does not exist.
    NSEC,
    /// The key record of DNSSEC.
    DNSKEY,
    /// Used together with the FQDN option of DHCP.
    DHCID,
    /// Proof that a name does not exist, without zone walking.
    NSEC3,
    /// Parameter record for NSEC3.
    NSEC3PARAM,
    /// Associates a TLS server certificate or public key with the domain name.
    TLSA,
    /// Associates an S/MIME certificate with a domain name.
    SMIMEA,
    /// Separates the identifier and the locator role of IP addresses.
    HIP,
    /// Child copy of a DS record, for transfer to the parent.
    CDS,
    /// Child copy of a DNSKEY record, for transfer to the parent.
    CDNSKEY,
    /// Publishes an OpenPGP public key for an email address.
    OPENPGPKEY,
    /// Synchronizes a child zone with its parent zone.
    CSYNC,
    /// Message digest of a zone.
    ZONEMD,
    /// A 48-bit IEEE Extended Unique Identifier.
    EUI48,
    /// A 64-bit IEEE Extended Unique Identifier.
    EUI64,
    /// Keying material for TSIG.
    TKEY,
    /// Authenticates dynamic updates and responses.
    TSIG,
    /// Maps hostnames to URIs.
    URI,
    /// Constrains the certificate authorities that are acceptable for a domain.
    CAA,
    /// DNSSEC trust authority.
    TA,
    /// DNSSEC lookaside validation record.
    DLV,
    /// A type that the table does not hold, with its code.
    Unknown(u16),
}

impl QuestionType {
    /// The type that the wire code `val` stands for.
    pub open spec fn from_code(val: u16) -> Self {
        match val {
            1 => QuestionType::A,
            2 => QuestionType::NS,
            5 => QuestionType::CNAME,
            6 => QuestionType::SOA,
            12 => QuestionType::PTR,
            13 => QuestionType::HINFO,
            15 => QuestionType::MX,
            16 => QuestionType::TXT,
            17 => QuestionType::RP,
            18 => QuestionType::AFSDB,
            24 => QuestionType::SIG,
            25 => QuestionType::KEY,
            28 => QuestionType::AAAA,
            29 => QuestionType::LOC,
            33 => QuestionType::SRV,
            35 => QuestionType::NAPTR,
            36 => QuestionType::KX,
            37 => QuestionType::CERT,
            39 => QuestionType::DNAME,
            42 => QuestionType::APL,
            43 => QuestionType::DS,
            44 => QuestionType::SSHFP,
            45 => QuestionType::IPSECKEY,
            46 => QuestionType::RRSIG,
            47 => QuestionType::NSEC,
            48 => QuestionType::DNSKEY,
            49 => QuestionType::DHCID,
            50 => QuestionType::NSEC3,
            51 => QuestionType::NSEC3PARAM,
            52 => QuestionType::TLSA,
            53 => QuestionType::SMIMEA,
            55 => QuestionType::HIP,
            59 => QuestionType::CDS,
            60 => QuestionType::CDNSKEY,
            61 => QuestionType::OPENPGPKEY,
            62 => QuestionType::CSYNC,
            63 => QuestionType::ZONEMD,
            108 => QuestionType::EUI48,
            109 => QuestionType::EUI64,
            249 => QuestionType::TKEY,
            250 => QuestionType::TSIG,
            256 => QuestionType::URI,
            257 => QuestionType::CAA,
            32768 => QuestionType::TA,
            32769 => QuestionType::DLV,
            x => QuestionType::Unknown(x),
        }
    }

    /// Whether the table holds a type for the wire code `val`.
    pub open spec fn is_listed(val: u16) -> bool {
        val == 1 || val == 2 || val == 5 || val == 6 || val == 12 || val == 13 || val == 15
        || val == 16 || val == 17 || val == 18 || val == 24 || val == 25 || val == 28
        || val == 29 || val == 33 || val == 35 || val == 36 || val == 37 || val == 39
        || val == 42 || val == 43 || val == 44 || val == 45 || val == 46 || val == 47
        || val == 48 || val == 49 || val == 50 || val == 51 || val == 52 || val == 53
        || val == 55 || val == 59 || val == 60 || val == 61 || val == 62 || val == 63
        || val == 108 || val == 109 || val == 249 || val == 250 || val == 256 || val == 257
        || val == 32768 || val == 32769
    }

    /// The wire code that the type stands for.
    pub open spec fn code(self) -> u16 {
        match self {
            QuestionType::A => 1,
            QuestionType::NS => 2,
            QuestionType::CNAME => 5,
            QuestionType::SOA => 6,
            QuestionType::PTR => 12,
            QuestionType::HINFO => 13,
            QuestionType::MX => 15,
            QuestionType::TXT => 16,
            QuestionType::RP => 17,
            QuestionType::AFSDB => 18,
            QuestionType::SIG => 24,
            QuestionType::KEY => 25,
            QuestionType::AAAA => 28,
            QuestionType::LOC => 29,
            QuestionType::SRV => 33,
            QuestionType::NAPTR => 35,
            QuestionType::KX => 36,
            QuestionType::CERT => 37,
            QuestionType::DNAME => 39,
            QuestionType::APL => 42,
            QuestionType::DS => 43,
            QuestionType::SSHFP => 44,
            QuestionType::IPSECKEY => 45,
            QuestionType::RRSIG => 46,
            QuestionType::NSEC => 47,
            QuestionType::DNSKEY => 48,
            QuestionType::DHCID => 49,
            QuestionType::NSEC3 => 50,
            QuestionType::NSEC3PARAM => 51,
            QuestionType::TLSA => 52,
            QuestionType::SMIMEA => 53,
            QuestionType::HIP => 55,
            QuestionType::CDS => 59,
            QuestionType::CDNSKEY => 60,
            QuestionType::OPENPGPKEY => 61,
            QuestionType::CSYNC => 62,
            QuestionType::ZONEMD => 63,
            QuestionType::EUI48 => 108,
            QuestionType::EUI64 => 109,
            QuestionType::TKEY => 249,
            QuestionType::TSIG => 250,
            QuestionType::URI => 256,
            QuestionType::CAA => 257,
            QuestionType::TA => 32768,
            QuestionType::DLV => 32769,
            QuestionType::Unknown(x) => x,
        }
    }
}

impl From<u16> for QuestionType {
    fn from(val: u16) -> (r: Self) {
        match val {
            1 => QuestionType::A,
            2 => QuestionType::NS,
            5 => QuestionType::CNAME,
            6 => QuestionType::SOA,
            12 => QuestionType::PTR,
            13 => QuestionType::HINFO,
            15 => QuestionType::MX,
            16 => QuestionType::TXT,
            17 => QuestionType::RP,
            18 => QuestionType::AFSDB,
            24 => QuestionType::SIG,
            25 => QuestionType::KEY,
            28 => QuestionType::AAAA,
            29 => QuestionType::LOC,
            33 => QuestionType::SRV,
            35 => QuestionType::NAPTR,
            36 => QuestionType::KX,
            37 => QuestionType::CERT,
            39 => QuestionType::DNAME,
            42 => QuestionType::APL,
            43 => QuestionType::DS,
            44 => QuestionType::SSHFP,
            45 => QuestionType::IPSECKEY,
            46 => QuestionType::RRSIG,
            47 => QuestionType::NSEC,
            48 => QuestionType::DNSKEY,
            49 => QuestionType::DHCID,
            50 => QuestionType::NSEC3,
            51 => QuestionType::NSEC3PARAM,
            52 => QuestionType::TLSA,
            53 => QuestionType::SMIMEA,
            55 => QuestionType::HIP,
            59 => QuestionType::CDS,
            60 => QuestionType::CDNSKEY,
            61 => QuestionType::OPENPGPKEY,
            62 => QuestionType::CSYNC,
            63 => QuestionType::ZONEMD,
            108 => QuestionType::EUI48,
            109 => QuestionType::EUI64,
            249 => QuestionType::TKEY,
            250 => QuestionType::TSIG,
            256 => QuestionType::URI,
            257 => QuestionType::CAA,
            32768 => QuestionType::TA,
            32769 => QuestionType::DLV,
            x => QuestionType::Unknown(x),
        }
    }
}

impl FromSpecImpl<u16> for QuestionType {
    open spec fn obeys_from_spec() -> bool {
        true
    }

    open spec fn from_spec(val: u16) -> Self {
        QuestionType::from_code(val)
    }
}

/// No type loses its code: the code of the type read from `val` is `val`.
pub proof fn lemma_type_keeps_code(val: u16)
    ensures
        QuestionType::from_code(val).code() == val,
{
}

/// A code becomes `Unknown` exactly when the table does not hold it, and
/// `Unknown` then carries the code.
pub proof fn lemma_unknown_iff_not_listed(val: u16)
    ensures
        QuestionType::from_code(val) is Unknown <==> !QuestionType::is_listed(val),
        !QuestionType::is_listed(val) ==> QuestionType::from_code(val) == QuestionType::Unknown(
            val,
        ),
{
}

} // verus!
