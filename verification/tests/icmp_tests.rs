use icmp_codec::checksum::{checksum_words, Checksum};
use icmp_codec::icmp::{IcmpError, IcmpHeader, IcmpType4, IcmpType6};

fn named_type4(v: u8) -> Option<IcmpType4> {
    match v {
        0 => Some(IcmpType4::EchoReply),
        3 => Some(IcmpType4::DestinationUnreachable),
        4 => Some(IcmpType4::SourceQuench),
        5 => Some(IcmpType4::Redirect),
        8 => Some(IcmpType4::EchoRequest),
        11 => Some(IcmpType4::TimeExceeded),
        12 => Some(IcmpType4::ParameterProblem),
        13 => Some(IcmpType4::TimestampRequest),
        14 => Some(IcmpType4::TimestampReply),
        15 => Some(IcmpType4::InformationRequest),
        16 => Some(IcmpType4::InformationReply),
        17 => Some(IcmpType4::AddressMaskRequest),
        18 => Some(IcmpType4::AddressMaskReply),
        _ => None,
    }
}

fn named_type6(v: u8) -> Option<IcmpType6> {
    match v {
        1 => Some(IcmpType6::DestinationUnreachable),
        2 => Some(IcmpType6::PacketTooBig),
        3 => Some(IcmpType6::TimeExceeded),
        4 => Some(IcmpType6::ParameterProblem),
        128 => Some(IcmpType6::EchoRequest),
        129 => Some(IcmpType6::EchoReply),
        130 => Some(IcmpType6::MulticastListenerQuery),
        131 => Some(IcmpType6::MulticastListenerReport),
        132 => Some(IcmpType6::MulticastListenerDone),
        133 => Some(IcmpType6::RouterSolicitation),
        134 => Some(IcmpType6::RouterAdvertisement),
        135 => Some(IcmpType6::NeighborSolicitation),
        136 => Some(IcmpType6::NeighborAdvertisement),
        137 => Some(IcmpType6::RedirectMessage),
        138 => Some(IcmpType6::RouterRenumbering),
        139 => Some(IcmpType6::IcmpNodeInformationQuery),
        140 => Some(IcmpType6::IcmpNodeInformationResponse),
        141 => Some(IcmpType6::InverseNeighborDiscoverySolicitation),
        142 => Some(IcmpType6::InverseNeighborDiscoveryAdvertisement),
        143 => Some(IcmpType6::MulticastListenerDiscovery),
        144 => Some(IcmpType6::HomeAgentAddressDiscoveryRequest),
        145 => Some(IcmpType6::HomeAgentAddressDiscoveryReply),
        146 => Some(IcmpType6::MobilePrefixSolicitation),
        147 => Some(IcmpType6::MobilePrefixAdvertisement),
        148 => Some(IcmpType6::CertificationPathSolicitation),
        149 => Some(IcmpType6::CertificationPathAdvertisement),
        151 => Some(IcmpType6::MulticastRouterAdvertisement),
        152 => Some(IcmpType6::MulticastRouterSolicitation),
        153 => Some(IcmpType6::MulticastRouterTermination),
        155 => Some(IcmpType6::RPLControlMessage),
        _ => None,
    }
}

#[test]
fn type4_round_trip_all_codes() {
    for v in 0..=255u8 {
        assert_eq!(IcmpType4::new(v).value(), v);
    }
}

#[test]
fn type6_round_trip_all_codes() {
    for v in 0..=255u8 {
        assert_eq!(IcmpType6::new(v).value(), v);
    }
}

#[test]
fn type4_classification_table() {
    for v in 0..=255u8 {
        match named_type4(v) {
            Some(t) => assert_eq!(IcmpType4::new(v), t),
            None => assert_eq!(IcmpType4::new(v), IcmpType4::Unknown(v)),
        }
    }
}

#[test]
fn type6_classification_table() {
    for v in 0..=255u8 {
        match named_type6(v) {
            Some(t) => assert_eq!(IcmpType6::new(v), t),
            None => assert_eq!(IcmpType6::new(v), IcmpType6::Unknown(v)),
        }
    }
    assert_eq!(IcmpType6::new(150), IcmpType6::Unknown(150));
    assert_eq!(IcmpType6::new(154), IcmpType6::Unknown(154));
}

#[test]
fn type_tables_are_independent() {
    assert_eq!(IcmpType4::new(3), IcmpType4::DestinationUnreachable);
    assert_eq!(IcmpType6::new(3), IcmpType6::TimeExceeded);
}

#[test]
fn checksum_of_empty_sequence_is_ffff() {
    let words: Vec<u16> = Vec::new();
    assert_eq!(checksum_words(&words), 0xFFFF);
}

#[test]
fn checksum_folds_carry_back_in() {
    // 0xFFFF + 1 overflows the 16-bit window; the carry comes back as +1,
    // so the folded sum is 1 and the checksum its complement.
    assert_eq!(checksum_words(&vec![0xFFFF, 1]), 0xFFFE);
    assert_eq!(checksum_words(&vec![0x8000, 0x8000]), 0xFFFE);
    assert_eq!(checksum_words(&vec![0x0800, 0x0001, 0x0001]), 0xF7FD);
}

#[test]
fn checksum_is_chunking_invariant() {
    let words: Vec<u16> = vec![0x1234, 0xF00F, 0x00FF, 0xAB01, 0xFFFF, 7];
    let one_pass = checksum_words(&words);

    let first: Vec<u16> = vec![0x1234, 0xF00F, 0x00FF];
    let second: Vec<u16> = vec![0xAB01, 0xFFFF, 7];
    let mut acc = Checksum::new();
    acc.push_words(&first);
    acc.push_words(&second);
    assert_eq!(acc.finish(), one_pass);

    let mut one_by_one = Checksum::new();
    for w in &words {
        one_by_one.push(*w);
    }
    assert_eq!(one_by_one.finish(), one_pass);
}

#[test]
fn known_vector_echo_request() {
    let bytes: Vec<u8> = vec![0x08, 0x00, 0x00, 0x00, 0x00, 0x01, 0x00, 0x01];
    let (mut header, payload) = IcmpHeader::with_bytes(bytes).unwrap();
    assert!(payload.is_empty());
    let empty: Vec<u16> = Vec::new();
    let computed = header.calculated_checksum(&empty);
    assert_eq!(computed, 0xF7FD);
    assert_ne!(computed, 0);
    assert!(!header.checksum_valid(&empty));
    header.calculate_checksum(&empty);
    assert_eq!(header.as_bytes()[2], 0xF7);
    assert_eq!(header.as_bytes()[3], 0xFD);
    assert!(header.checksum_valid(&empty));
}

#[test]
fn setters_store_exactly_and_leave_neighbours() {
    let bytes: Vec<u8> = vec![1, 2, 3, 4, 5, 6, 7, 8];
    let (mut header, _payload) = IcmpHeader::with_bytes(bytes).unwrap();
    assert_eq!(header.icmp_type(), 1);
    assert_eq!(header.icmp_code(), 2);
    assert_eq!(header.id(), 0x0506);
    assert_eq!(header.seq(), 0x0708);

    header.set_id(0xBEEF);
    assert_eq!(header.id(), 0xBEEF);
    assert_eq!(header.icmp_type(), 1);
    assert_eq!(header.icmp_code(), 2);
    assert_eq!(header.seq(), 0x0708);
    assert_eq!(&header.as_bytes()[2..4], &[3, 4]);

    header.set_seq(0x1234);
    assert_eq!(header.seq(), 0x1234);
    assert_eq!(header.id(), 0xBEEF);
    assert_eq!(header.icmp_type(), 1);
    assert_eq!(header.icmp_code(), 2);
    assert_eq!(&header.as_bytes()[2..4], &[3, 4]);

    header.set_icmp_type(8);
    assert_eq!(header.icmp_type(), 8);
    assert_eq!(header.icmp_code(), 2);
    assert_eq!(header.id(), 0xBEEF);
    assert_eq!(header.seq(), 0x1234);

    header.set_icmp_code(0);
    assert_eq!(header.icmp_code(), 0);
    assert_eq!(header.icmp_type(), 8);
    assert_eq!(header.id(), 0xBEEF);
    assert_eq!(header.seq(), 0x1234);
}

#[test]
fn with_bytes_rejects_short_buffers() {
    let bytes: Vec<u8> = vec![0; 7];
    match IcmpHeader::with_bytes(bytes) {
        Err(e) => assert_eq!(e, IcmpError::InsufficientLength),
        Ok(_) => panic!("a 7-byte buffer must be rejected"),
    }
    assert!(IcmpHeader::with_bytes(Vec::new()).is_err());
}

#[test]
fn with_bytes_splits_header_from_payload() {
    let bytes: Vec<u8> = vec![8, 0, 0, 0, 0, 1, 0, 1];
    let (header, payload) = IcmpHeader::with_bytes(bytes).unwrap();
    assert_eq!(header.as_bytes().len(), 8);
    assert_eq!(payload.len(), 0);

    let mut longer: Vec<u8> = vec![8, 0, 0, 0, 0, 1, 0, 1];
    longer.extend_from_slice(&[0xDE, 0xAD, 0xBE, 0xEF]);
    let (header, payload) = IcmpHeader::with_bytes(longer).unwrap();
    assert_eq!(header.as_bytes(), &vec![8, 0, 0, 0, 0, 1, 0, 1]);
    assert_eq!(payload, vec![0xDE, 0xAD, 0xBE, 0xEF]);
    assert_eq!(IcmpHeader::len(), 8);
}

#[test]
fn debug_string_shows_id_and_seq_only_for_echo_types() {
    let bytes: Vec<u8> = vec![8, 0, 0, 0, 0, 1, 0, 2];
    let (mut header, _) = IcmpHeader::with_bytes(bytes).unwrap();
    assert_eq!(
        header.debug_string(),
        "IcmpHeader { icmp_type: 8, icmp_code: 0, id: 1, seq: 2 }"
    );

    header.set_icmp_type(0);
    assert_eq!(
        header.debug_string(),
        "IcmpHeader { icmp_type: 0, icmp_code: 0, id: 1, seq: 2 }"
    );

    header.set_icmp_type(3);
    assert_eq!(header.debug_string(), "IcmpHeader { icmp_type: 3, icmp_code: 0 }");
}

#[test]
fn tampering_any_header_byte_invalidates_checksum() {
    let payload_words: Vec<u16> = vec![0x0102, 0xA0B0];
    for tampered in 0..8usize {
        let bytes: Vec<u8> = vec![8, 0, 0, 0, 0, 0x2A, 0x01, 0x07];
        let (mut header, _) = IcmpHeader::with_bytes(bytes).unwrap();
        header.calculate_checksum(&payload_words);
        assert!(header.checksum_valid(&payload_words));

        let mut raw = header.as_bytes().clone();
        raw[tampered] ^= 0x41;
        let (tampered_header, _) = IcmpHeader::with_bytes(raw).unwrap();
        assert!(!tampered_header.checksum_valid(&payload_words));
    }
}
