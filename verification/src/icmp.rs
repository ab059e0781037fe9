//! The 8-byte ICMP common header: typed views of the raw type code for
//! ICMPv4 and ICMPv6, field accessors and mutators over the fixed big-endian
//! layout, and checksum validation and recomputation.

use vstd::prelude::*;
use vstd::pervasive::VecAdditionalExecFns;
use vstd::arithmetic::div_mod::lemma_fundamental_div_mod;
use crate::checksum::{
    checksum_spec, sum_words, Checksum, lemma_checksum_sensitive, lemma_sum_words_append,
};

verus! {

/// The semantic meaning of the 8-bit ICMP type code in an IPv4-ICMP message.
/// Codes with no named meaning are kept losslessly in `Unknown`.
#[derive(Copy, Clone, Debug, PartialEq, Eq, Structural)]
pub enum IcmpType4 {
    EchoReply,
    DestinationUnreachable,
    SourceQuench,
    Redirect,
    EchoRequest,
    TimeExceeded,
    ParameterProblem,
    TimestampRequest,
    TimestampReply,
    InformationRequest,
    InformationReply,
    AddressMaskRequest,
    AddressMaskReply,
    Unknown(u8),
}

/// The IPv4-ICMP classification table: which named variant each raw code
/// stands for, with `Unknown` keeping every other code.
pub open spec fn type4_from(raw: u8) -> IcmpType4 {
    match raw {
        0 => IcmpType4::EchoReply,
        3 => IcmpType4::DestinationUnreachable,
        4 => IcmpType4::SourceQuench,
        5 => IcmpType4::Redirect,
        8 => IcmpType4::EchoRequest,
        11 => IcmpType4::TimeExceeded,
        12 => IcmpType4::ParameterProblem,
        13 => IcmpType4::TimestampRequest,
        14 => IcmpType4::TimestampReply,
        15 => IcmpType4::InformationRequest,
        16 => IcmpType4::InformationReply,
        17 => IcmpType4::AddressMaskRequest,
        18 => IcmpType4::AddressMaskReply,
        _ => IcmpType4::Unknown(raw),
    }
}

/// The inverse of the IPv4-ICMP table: the raw code a variant stands for.
pub open spec fn type4_value(t: IcmpType4) -> u8 {
    match t {
        IcmpType4::EchoReply => 0,
        IcmpType4::DestinationUnreachable => 3,
        IcmpType4::SourceQuench => 4,
        IcmpType4::Redirect => 5,
        IcmpType4::EchoRequest => 8,
        IcmpType4::TimeExceeded => 11,
        IcmpType4::ParameterProblem => 12,
        IcmpType4::TimestampRequest => 13,
        IcmpType4::TimestampReply => 14,
        IcmpType4::InformationRequest => 15,
        IcmpType4::InformationReply => 16,
        IcmpType4::AddressMaskRequest => 17,
        IcmpType4::AddressMaskReply => 18,
        IcmpType4::Unknown(raw) => raw,
    }
}

impl IcmpType4 {
    /// Classifies a raw IPv4-ICMP type code; total over all 256 codes.
    pub fn new(raw: u8) -> (r: IcmpType4)
        ensures
            r == type4_from(raw),
    {
        match raw {
            0 => IcmpType4::EchoReply,
            3 => IcmpType4::DestinationUnreachable,
            4 => IcmpType4::SourceQuench,
            5 => IcmpType4::Redirect,
            8 => IcmpType4::EchoRequest,
            11 => IcmpType4::TimeExceeded,
            12 => IcmpType4::ParameterProblem,
            13 => IcmpType4::TimestampRequest,
            14 => IcmpType4::TimestampReply,
            15 => IcmpType4::InformationRequest,
            16 => IcmpType4::InformationReply,
            17 => IcmpType4::AddressMaskRequest,
            18 => IcmpType4::AddressMaskReply,
            _ => IcmpType4::Unknown(raw),
        }
    }

    /// The raw code this classification stands for; the exact inverse of `new`.
    pub fn value(&self) -> (r: u8)
        ensures
            r == type4_value(*self),
    {
        match self {
            IcmpType4::EchoReply => 0,
            IcmpType4::DestinationUnreachable => 3,
            IcmpType4::SourceQuench => 4,
            IcmpType4::Redirect => 5,
            IcmpType4::EchoRequest => 8,
            IcmpType4::TimeExceeded => 11,
            IcmpType4::ParameterProblem => 12,
            IcmpType4::TimestampRequest => 13,
            IcmpType4::TimestampReply => 14,
            IcmpType4::InformationRequest => 15,
            IcmpType4::InformationReply => 16,
            IcmpType4::AddressMaskRequest => 17,
            IcmpType4::AddressMaskReply => 18,
            IcmpType4::Unknown(raw) => *raw,
        }
    }
}

/// Classifying any IPv4-ICMP code and reading the code back returns the
/// original code, named variants and unknown codes alike.
pub proof fn lemma_type4_round_trip(v: u8)
    ensures
        type4_value(type4_from(v)) == v,
{
}

/// Every IPv4-ICMP code outside the named table is kept losslessly in
/// `Unknown`.
pub proof fn lemma_type4_unknown(v: u8)
    requires
        v != 0 && v != 3 && v != 4 && v != 5 && v != 8 && v != 11 && v != 12 && v != 13
            && v != 14 && v != 15 && v != 16 && v != 17 && v != 18,
    ensures
        type4_from(v) == IcmpType4::Unknown(v),
{
}

/// The semantic meaning of the 8-bit ICMP type code in an IPv6-ICMP message.
/// Its code space is independent of the IPv4 one; codes with no named
/// meaning are kept losslessly in `Unknown`.
#[derive(Copy, Clone, Debug, PartialEq, Eq, Structural)]
pub enum IcmpType6 {
    DestinationUnreachable,
    PacketTooBig,
    TimeExceeded,
    ParameterProblem,
    EchoRequest,
    EchoReply,
    MulticastListenerQuery,
    MulticastListenerReport,
    MulticastListenerDone,
    RouterSolicitation,
    RouterAdvertisement,
    NeighborSolicitation,
    NeighborAdvertisement,
    RedirectMessage,
    RouterRenumbering,
    IcmpNodeInformationQuery,
    IcmpNodeInformationResponse,
    InverseNeighborDiscoverySolicitation,
    InverseNeighborDiscoveryAdvertisement,
    MulticastListenerDiscovery,
    HomeAgentAddressDiscoveryRequest,
    HomeAgentAddressDiscoveryReply,
    MobilePrefixSolicitation,
    MobilePrefixAdvertisement,
    CertificationPathSolicitation,
    CertificationPathAdvertisement,
    MulticastRouterAdvertisement,
    MulticastRouterSolicitation,
    MulticastRouterTermination,
    RPLControlMessage,
    Unknown(u8),
}

/// The IPv6-ICMP classification table: which named variant each raw code
/// stands for, with `Unknown` keeping every other code.
pub open spec fn type6_from(raw: u8) -> IcmpType6 {
    match raw {
        1 => IcmpType6::DestinationUnreachable,
        2 => IcmpType6::PacketTooBig,
        3 => IcmpType6::TimeExceeded,
        4 => IcmpType6::ParameterProblem,
        128 => IcmpType6::EchoRequest,
        129 => IcmpType6::EchoReply,
        130 => IcmpType6::MulticastListenerQuery,
        131 => IcmpType6::MulticastListenerReport,
        132 => IcmpType6::MulticastListenerDone,
        133 => IcmpType6::RouterSolicitation,
        134 => IcmpType6::RouterAdvertisement,
        135 => IcmpType6::NeighborSolicitation,
        136 => IcmpType6::NeighborAdvertisement,
        137 => IcmpType6::RedirectMessage,
        138 => IcmpType6::RouterRenumbering,
        139 => IcmpType6::IcmpNodeInformationQuery,
        140 => IcmpType6::IcmpNodeInformationResponse,
        141 => IcmpType6::InverseNeighborDiscoverySolicitation,
        142 => IcmpType6::InverseNeighborDiscoveryAdvertisement,
        143 => IcmpType6::MulticastListenerDiscovery,
        144 => IcmpType6::HomeAgentAddressDiscoveryRequest,
        145 => IcmpType6::HomeAgentAddressDiscoveryReply,
        146 => IcmpType6::MobilePrefixSolicitation,
        147 => IcmpType6::MobilePrefixAdvertisement,
        148 => IcmpType6::CertificationPathSolicitation,
        149 => IcmpType6::CertificationPathAdvertisement,
        151 => IcmpType6::MulticastRouterAdvertisement,
        152 => IcmpType6::MulticastRouterSolicitation,
        153 => IcmpType6::MulticastRouterTermination,
        155 => IcmpType6::RPLControlMessage,
        _ => IcmpType6::Unknown(raw),
    }
}

/// The inverse of the IPv6-ICMP table: the raw code a variant stands for.
pub open spec fn type6_value(t: IcmpType6) -> u8 {
    match t {
        IcmpType6::DestinationUnreachable => 1,
        IcmpType6::PacketTooBig => 2,
        IcmpType6::TimeExceeded => 3,
        IcmpType6::ParameterProblem => 4,
        IcmpType6::EchoRequest => 128,
        IcmpType6::EchoReply => 129,
        IcmpType6::MulticastListenerQuery => 130,
        IcmpType6::MulticastListenerReport => 131,
        IcmpType6::MulticastListenerDone => 132,
        IcmpType6::RouterSolicitation => 133,
        IcmpType6::RouterAdvertisement => 134,
        IcmpType6::NeighborSolicitation => 135,
        IcmpType6::NeighborAdvertisement => 136,
        IcmpType6::RedirectMessage => 137,
        IcmpType6::RouterRenumbering => 138,
        IcmpType6::IcmpNodeInformationQuery => 139,
        IcmpType6::IcmpNodeInformationResponse => 140,
        IcmpType6::InverseNeighborDiscoverySolicitation => 141,
        IcmpType6::InverseNeighborDiscoveryAdvertisement => 142,
        IcmpType6::MulticastListenerDiscovery => 143,
        IcmpType6::HomeAgentAddressDiscoveryRequest => 144,
        IcmpType6::HomeAgentAddressDiscoveryReply => 145,
        IcmpType6::MobilePrefixSolicitation => 146,
        IcmpType6::MobilePrefixAdvertisement => 147,
        IcmpType6::CertificationPathSolicitation => 148,
        IcmpType6::CertificationPathAdvertisement => 149,
        IcmpType6::MulticastRouterAdvertisement => 151,
        IcmpType6::MulticastRouterSolicitation => 152,
        IcmpType6::MulticastRouterTermination => 153,
        IcmpType6::RPLControlMessage => 155,
        IcmpType6::Unknown(raw) => raw,
    }
}

impl IcmpType6 {
    /// Classifies a raw IPv6-ICMP type code; total over all 256 codes.
    pub fn new(raw: u8) -> (r: IcmpType6)
        ensures
            r == type6_from(raw),
    {
        match raw {
            1 => IcmpType6::DestinationUnreachable,
            2 => IcmpType6::PacketTooBig,
            3 => IcmpType6::TimeExceeded,
            4 => IcmpType6::ParameterProblem,
            128 => IcmpType6::EchoRequest,
            129 => IcmpType6::EchoReply,
            130 => IcmpType6::MulticastListenerQuery,
            131 => IcmpType6::MulticastListenerReport,
            132 => IcmpType6::MulticastListenerDone,
            133 => IcmpType6::RouterSolicitation,
            134 => IcmpType6::RouterAdvertisement,
            135 => IcmpType6::NeighborSolicitation,
            136 => IcmpType6::NeighborAdvertisement,
            137 => IcmpType6::RedirectMessage,
            138 => IcmpType6::RouterRenumbering,
            139 => IcmpType6::IcmpNodeInformationQuery,
            140 => IcmpType6::IcmpNodeInformationResponse,
            141 => IcmpType6::InverseNeighborDiscoverySolicitation,
            142 => IcmpType6::InverseNeighborDiscoveryAdvertisement,
            143 => IcmpType6::MulticastListenerDiscovery,
            144 => IcmpType6::HomeAgentAddressDiscoveryRequest,
            145 => IcmpType6::HomeAgentAddressDiscoveryReply,
            146 => IcmpType6::MobilePrefixSolicitation,
            147 => IcmpType6::MobilePrefixAdvertisement,
            148 => IcmpType6::CertificationPathSolicitation,
            149 => IcmpType6::CertificationPathAdvertisement,
            151 => IcmpType6::MulticastRouterAdvertisement,
            152 => IcmpType6::MulticastRouterSolicitation,
            153 => IcmpType6::MulticastRouterTermination,
            155 => IcmpType6::RPLControlMessage,
            _ => IcmpType6::Unknown(raw),
        }
    }

    /// The raw code this classification stands for; the exact inverse of `new`.
    pub fn value(&self) -> (r: u8)
        ensures
            r == type6_value(*self),
    {
        match self {
            IcmpType6::DestinationUnreachable => 1,
            IcmpType6::PacketTooBig => 2,
            IcmpType6::TimeExceeded => 3,
            IcmpType6::ParameterProblem => 4,
            IcmpType6::EchoRequest => 128,
            IcmpType6::EchoReply => 129,
            IcmpType6::MulticastListenerQuery => 130,
            IcmpType6::MulticastListenerReport => 131,
            IcmpType6::MulticastListenerDone => 132,
            IcmpType6::RouterSolicitation => 133,
            IcmpType6::RouterAdvertisement => 134,
            IcmpType6::NeighborSolicitation => 135,
            IcmpType6::NeighborAdvertisement => 136,
            IcmpType6::RedirectMessage => 137,
            IcmpType6::RouterRenumbering => 138,
            IcmpType6::IcmpNodeInformationQuery => 139,
            IcmpType6::IcmpNodeInformationResponse => 140,
            IcmpType6::InverseNeighborDiscoverySolicitation => 141,
            IcmpType6::InverseNeighborDiscoveryAdvertisement => 142,
            IcmpType6::MulticastListenerDiscovery => 143,
            IcmpType6::HomeAgentAddressDiscoveryRequest => 144,
            IcmpType6::HomeAgentAddressDiscoveryReply => 145,
            IcmpType6::MobilePrefixSolicitation => 146,
            IcmpType6::MobilePrefixAdvertisement => 147,
            IcmpType6::CertificationPathSolicitation => 148,
            IcmpType6::CertificationPathAdvertisement => 149,
            IcmpType6::MulticastRouterAdvertisement => 151,
            IcmpType6::MulticastRouterSolicitation => 152,
            IcmpType6::MulticastRouterTermination => 153,
            IcmpType6::RPLControlMessage => 155,
            IcmpType6::Unknown(raw) => *raw,
        }
    }
}

/// Classifying any IPv6-ICMP code and reading the code back returns the
/// original code, named variants and unknown codes alike.
pub proof fn lemma_type6_round_trip(v: u8)
    ensures
        type6_value(type6_from(v)) == v,
{
}

/// Every IPv6-ICMP code outside the named table is kept losslessly in
/// `Unknown`; in particular 150 and 154 have no named meaning.
pub proof fn lemma_type6_unknown(v: u8)
    requires
        !(1 <= v <= 4) && !(128 <= v <= 149) && !(151 <= v <= 153) && v != 155,
    ensures
        type6_from(v) == IcmpType6::Unknown(v),
{
}

/// The one failure this component knows: a buffer too short to hold the
/// 8-byte header.
#[derive(Copy, Clone, Debug, PartialEq, Eq, Structural)]
pub enum IcmpError {
    InsufficientLength,
}

/// The 16-bit value that two bytes spell in big-endian (network) order.
pub open spec fn spec_be16(hi: u8, lo: u8) -> u16 {
    (hi * 256 + lo) as u16
}

/// The raw ICMP type code: byte 0 of the header.
pub open spec fn type_of(s: Seq<u8>) -> u8 {
    s[0]
}

/// The raw ICMP subtype code: byte 1 of the header.
pub open spec fn code_of(s: Seq<u8>) -> u8 {
    s[1]
}

/// The stored checksum field: bytes 2-3 of the header, big-endian.
pub open spec fn checksum_of(s: Seq<u8>) -> u16 {
    spec_be16(s[2], s[3])
}

/// The identifier field: bytes 4-5 of the header, big-endian.
pub open spec fn id_of(s: Seq<u8>) -> u16 {
    spec_be16(s[4], s[5])
}

/// The sequence-number field: bytes 6-7 of the header, big-endian.
pub open spec fn seq_of(s: Seq<u8>) -> u16 {
    spec_be16(s[6], s[7])
}

/// The words of the header that enter its checksum: bytes 0-1 and bytes 4-7
/// as big-endian 16-bit words. The checksum field itself, bytes 2-3, is
/// deliberately left out, as the stored checksum must not checksum itself.
pub open spec fn header_words(s: Seq<u8>) -> Seq<u16> {
    seq![spec_be16(s[0], s[1]), id_of(s), seq_of(s)]
}

/// Reads the big-endian 16-bit word at byte offset `i`.
fn read_be16(b: &Vec<u8>, i: usize) -> (r: u16)
    requires
        i + 1 < b@.len(),
    ensures
        r == spec_be16(b@[i as int], b@[i as int + 1]),
{
    // Binding the length as a usize shows that i + 1 stays in usize range.
    let n = b.len();
    assert(i + 1 < n);
    (b[i] as u16) * 256 + (b[i + 1] as u16)
}

/// Writes `v` at byte offset `i` in big-endian order.
fn write_be16(b: &mut Vec<u8>, i: usize, v: u16)
    requires
        i + 1 < old(b)@.len(),
    ensures
        final(b)@ == old(b)@.update(i as int, (v / 256) as u8).update(i as int + 1, (v % 256) as u8),
        spec_be16((v / 256) as u8, (v % 256) as u8) == v,
{
    // Binding the length as a usize shows that i + 1 stays in usize range.
    let n = b.len();
    assert(i + 1 < n);
    proof {
        lemma_fundamental_div_mod(v as int, 256);
    }
    b.set(i, (v / 256) as u8);
    b.set(i + 1, (v % 256) as u8);
}

/// An 8-byte ICMP message header, carved off the front of a packet buffer.
/// The layout, big-endian throughout, is: type (byte 0), code (byte 1),
/// checksum (bytes 2-3), identifier (bytes 4-5), sequence number (bytes 6-7).
#[derive(Clone)]
pub struct IcmpHeader {
    bytes: Vec<u8>,
}

impl View for IcmpHeader {
    type V = Seq<u8>;

    /// The raw bytes of the header region.
    closed spec fn view(&self) -> Seq<u8> {
        self.bytes@
    }
}

impl IcmpHeader {
    /// A header always spans exactly 8 bytes.
    pub open spec fn wf(&self) -> bool {
        self@.len() == 8
    }

    /// Splits the first 8 bytes of `bytes` off as the header; the rest is
    /// handed back untouched as the message payload. Fails, with the one
    /// error this component has, exactly when fewer than 8 bytes are there.
    pub fn with_bytes(bytes: Vec<u8>) -> (r: Result<(IcmpHeader, Vec<u8>), IcmpError>)
        ensures
            bytes@.len() >= 8 ==> {
                &&& r is Ok
                &&& r->Ok_0.0.wf()
                &&& r->Ok_0.0@ == bytes@.subrange(0, 8)
                &&& r->Ok_0.1@ == bytes@.subrange(8, bytes@.len() as int)
            },
            bytes@.len() < 8 ==> r is Err && r->Err_0 == IcmpError::InsufficientLength,
    {
        let mut head = bytes;
        if head.len() < 8 {
            return Err(IcmpError::InsufficientLength);
        }
        let remaining = head.split_off(8);
        Ok((IcmpHeader { bytes: head }, remaining))
    }

    /// The width of the header region: 8 bytes.
    pub fn len() -> (r: usize)
        ensures
            r == 8,
    {
        8
    }

    /// The raw ICMP type code.
    pub fn icmp_type(&self) -> (r: u8)
        requires
            self.wf(),
        ensures
            r == type_of(self@),
    {
        self.bytes[0]
    }

    /// The raw ICMP subtype code.
    pub fn icmp_code(&self) -> (r: u8)
        requires
            self.wf(),
        ensures
            r == code_of(self@),
    {
        self.bytes[1]
    }

    /// The identifier field; meaningful for echo request and echo reply.
    pub fn id(&self) -> (r: u16)
        requires
            self.wf(),
        ensures
            r == id_of(self@),
    {
        read_be16(&self.bytes, 4)
    }

    /// The sequence-number field; meaningful for echo request and echo reply.
    pub fn seq(&self) -> (r: u16)
        requires
            self.wf(),
        ensures
            r == seq_of(self@),
    {
        read_be16(&self.bytes, 6)
    }

    /// The stored checksum field.
    fn checksum(&self) -> (r: u16)
        requires
            self.wf(),
        ensures
            r == checksum_of(self@),
    {
        read_be16(&self.bytes, 2)
    }

    /// The raw bytes of the header region, as they would go on the wire.
    pub fn as_bytes(&self) -> (r: &Vec<u8>)
        ensures
            r@ == self@,
    {
        &self.bytes
    }

    /// Writes the type code; every other field keeps its value.
    pub fn set_icmp_type(&mut self, icmp_type: u8)
        requires
            old(self).wf(),
        ensures
            final(self).wf(),
            final(self)@ == old(self)@.update(0, icmp_type),
            type_of(final(self)@) == icmp_type,
            code_of(final(self)@) == code_of(old(self)@),
            checksum_of(final(self)@) == checksum_of(old(self)@),
            id_of(final(self)@) == id_of(old(self)@),
            seq_of(final(self)@) == seq_of(old(self)@),
    {
        self.bytes.set(0, icmp_type);
    }

    /// Writes the subtype code; every other field keeps its value.
    pub fn set_icmp_code(&mut self, icmp_code: u8)
        requires
            old(self).wf(),
        ensures
            final(self).wf(),
            final(self)@ == old(self)@.update(1, icmp_code),
            code_of(final(self)@) == icmp_code,
            type_of(final(self)@) == type_of(old(self)@),
            checksum_of(final(self)@) == checksum_of(old(self)@),
            id_of(final(self)@) == id_of(old(self)@),
            seq_of(final(self)@) == seq_of(old(self)@),
    {
        self.bytes.set(1, icmp_code);
    }

    /// Writes the identifier field; every other field keeps its value.
    pub fn set_id(&mut self, id: u16)
        requires
            old(self).wf(),
        ensures
            final(self).wf(),
            final(self)@ == old(self)@.update(4, (id / 256) as u8).update(5, (id % 256) as u8),
            id_of(final(self)@) == id,
            type_of(final(self)@) == type_of(old(self)@),
            code_of(final(self)@) == code_of(old(self)@),
            checksum_of(final(self)@) == checksum_of(old(self)@),
            seq_of(final(self)@) == seq_of(old(self)@),
    {
        write_be16(&mut self.bytes, 4, id);
    }

    /// Writes the sequence-number field; every other field keeps its value.
    pub fn set_seq(&mut self, seq_no: u16)
        requires
            old(self).wf(),
        ensures
            final(self).wf(),
            final(self)@ == old(self)@.update(6, (seq_no / 256) as u8).update(7, (seq_no % 256) as u8),
            seq_of(final(self)@) == seq_no,
            type_of(final(self)@) == type_of(old(self)@),
            code_of(final(self)@) == code_of(old(self)@),
            checksum_of(final(self)@) == checksum_of(old(self)@),
            id_of(final(self)@) == id_of(old(self)@),
    {
        write_be16(&mut self.bytes, 6, seq_no);
    }

    /// Writes the checksum field; every other field keeps its value.
    fn set_checksum(&mut self, checksum: u16)
        requires
            old(self).wf(),
        ensures
            final(self).wf(),
            final(self)@ == old(self)@.update(2, (checksum / 256) as u8).update(
                3,
                (checksum % 256) as u8,
            ),
            checksum_of(final(self)@) == checksum,
            type_of(final(self)@) == type_of(old(self)@),
            code_of(final(self)@) == code_of(old(self)@),
            id_of(final(self)@) == id_of(old(self)@),
            seq_of(final(self)@) == seq_of(old(self)@),
    {
        write_be16(&mut self.bytes, 2, checksum);
    }

    /// The checksum the header should carry over the given payload words:
    /// the Internet checksum of bytes 0-1, bytes 4-7 and then `data`, in that
    /// order, with the stored checksum field left out.
    ///
    /// Valid only for ICMPv4. The true ICMPv6 checksum also covers an IP
    /// pseudo-header that this component has no access to; for ICMPv6 the
    /// caller must supply pseudo-header words itself or leave the checksum to
    /// the operating system.
    pub fn calculated_checksum(&self, data: &Vec<u16>) -> (r: u16)
        requires
            self.wf(),
        ensures
            r == checksum_spec(header_words(self@) + data@),
    {
        let mut c = Checksum::new();
        c.push(read_be16(&self.bytes, 0));
        c.push(read_be16(&self.bytes, 4));
        c.push(read_be16(&self.bytes, 6));
        c.push_words(data);
        proof {
            assert(c@ =~= header_words(self@) + data@);
        }
        c.finish()
    }

    /// Whether the stored checksum field matches the checksum of the header
    /// and the given payload words. Subject to the same ICMPv4-only
    /// restriction as `calculated_checksum`.
    pub fn checksum_valid(&self, data: &Vec<u16>) -> (r: bool)
        requires
            self.wf(),
        ensures
            r == (checksum_of(self@) == checksum_spec(header_words(self@) + data@)),
    {
        self.checksum() == self.calculated_checksum(data)
    }

    /// Computes the checksum over the current header fields and the given
    /// payload words and stores it in the checksum field, as when preparing
    /// an outgoing packet. Only the checksum field changes, so the stored
    /// value is valid for the header as it then stands. Subject to the same
    /// ICMPv4-only restriction as `calculated_checksum`.
    pub fn calculate_checksum(&mut self, data: &Vec<u16>)
        requires
            old(self).wf(),
        ensures
            final(self).wf(),
            checksum_of(final(self)@) == checksum_spec(header_words(old(self)@) + data@),
            header_words(final(self)@) == header_words(old(self)@),
            checksum_of(final(self)@) == checksum_spec(header_words(final(self)@) + data@),
            type_of(final(self)@) == type_of(old(self)@),
            code_of(final(self)@) == code_of(old(self)@),
            id_of(final(self)@) == id_of(old(self)@),
            seq_of(final(self)@) == seq_of(old(self)@),
            ({
                let c = checksum_spec(header_words(old(self)@) + data@);
                final(self)@ == old(self)@.update(2, (c / 256) as u8).update(3, (c % 256) as u8)
            }),
    {
        let checksum = self.calculated_checksum(data);
        self.set_checksum(checksum);
        proof {
            assert(header_words(final(self)@) =~= header_words(old(self)@));
        }
    }
}

proof fn lemma_sum_words_three(a: u16, b: u16, c: u16)
    ensures
        sum_words(seq![a, b, c]) == a + b + c,
{
    assert(seq![a, b, c].drop_last() =~= seq![a, b]);
    assert(seq![a, b].drop_last() =~= seq![a]);
    assert(seq![a].drop_last() =~= Seq::<u16>::empty());
    assert(sum_words(Seq::<u16>::empty()) == 0);
    assert(sum_words(seq![a]) == a);
    assert(sum_words(seq![a, b]) == a + b);
}

/// Tampering with any single header byte after the stored checksum was made
/// valid for some payload leaves the checksum invalid for that payload:
/// a one-byte change never escapes the checksum.
pub proof fn lemma_tamper_invalidates(s1: Seq<u8>, s2: Seq<u8>, i: int, data: Seq<u16>)
    requires
        s1.len() == 8,
        s2.len() == 8,
        0 <= i < 8,
        forall|j: int| 0 <= j < 8 && j != i ==> s1[j] == s2[j],
        s1[i] != s2[i],
        checksum_of(s1) == checksum_spec(header_words(s1) + data),
    ensures
        checksum_of(s2) != checksum_spec(header_words(s2) + data),
{
    if i == 2 || i == 3 {
        // The stored checksum itself changed; the words under the checksum
        // did not, since bytes 2-3 are excluded from them.
        assert(header_words(s1) =~= header_words(s2));
        assert(checksum_of(s1) != checksum_of(s2));
    } else {
        // A data byte changed: the stored checksum stands, but the sum under
        // the checksum moved by less than 0xFFFF, which the folding cannot
        // absorb.
        assert(checksum_of(s1) == checksum_of(s2));
        let h1 = header_words(s1);
        let h2 = header_words(s2);
        lemma_sum_words_append(h1, data);
        lemma_sum_words_append(h2, data);
        lemma_sum_words_three(spec_be16(s1[0], s1[1]), id_of(s1), seq_of(s1));
        lemma_sum_words_three(spec_be16(s2[0], s2[1]), id_of(s2), seq_of(s2));
        let d1 = sum_words(h1 + data);
        let d2 = sum_words(h2 + data);
        assert(d1 - d2 == sum_words(h1) - sum_words(h2));
        assert(sum_words(h1) != sum_words(h2) && -0xFFFF < sum_words(h1) - sum_words(h2)
            < 0xFFFF);
        lemma_checksum_sensitive(h1 + data, h2 + data);
    }
}

/// The text a header renders to when the identifier and sequence number are
/// shown; it depends only on the four field values.
pub uninterp spec fn echo_render_of(t: u8, c: u8, id: u16, sq: u16) -> Seq<char>;

/// The text a header renders to when the identifier and sequence number are
/// omitted; it depends only on the two field values.
pub uninterp spec fn plain_render_of(t: u8, c: u8) -> Seq<char>;

/// Relies on std's `format!`: renders the four given field values, and
/// nothing else, into text.
#[verifier::external_body]
fn render_echo(t: u8, c: u8, id: u16, sq: u16) -> (r: String)
    ensures
        r@ == echo_render_of(t, c, id, sq),
{
    format!("IcmpHeader {{ icmp_type: {}, icmp_code: {}, id: {}, seq: {} }}", t, c, id, sq)
}

/// Relies on std's `format!`: renders the two given field values, and
/// nothing else, into text.
#[verifier::external_body]
fn render_plain(t: u8, c: u8) -> (r: String)
    ensures
        r@ == plain_render_of(t, c),
{
    format!("IcmpHeader {{ icmp_type: {}, icmp_code: {} }}", t, c)
}

impl IcmpHeader {
    /// A diagnostic rendering of the header. The identifier and sequence
    /// number appear exactly when the type code is echo request (8) or echo
    /// reply (0) in the IPv4 encoding, the only message kinds where those
    /// fields carry meaning; every other rendering omits them.
    pub fn debug_string(&self) -> (r: String)
        requires
            self.wf(),
        ensures
            type_of(self@) == 8 || type_of(self@) == 0 ==> r@ == echo_render_of(
                type_of(self@),
                code_of(self@),
                id_of(self@),
                seq_of(self@),
            ),
            !(type_of(self@) == 8 || type_of(self@) == 0) ==> r@ == plain_render_of(
                type_of(self@),
                code_of(self@),
            ),
    {
        let t = self.icmp_type();
        if t == 8 || t == 0 {
            render_echo(t, self.icmp_code(), self.id(), self.seq())
        } else {
            render_plain(t, self.icmp_code())
        }
    }
}

} // verus!

