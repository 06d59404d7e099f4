use rdns::common::{Header, Opcode, ResponseCode};

fn packed(high: u8, low: u8) -> [u8; 12] {
    [0xab, 0xcd, high, low, 0x01, 0x02, 0x03, 0x04, 0x05, 0x06, 0x07, 0x08]
}

#[test]
fn query_and_response_are_complementary_for_every_flag_byte() {
    for high in 0..=255u8 {
        let bytes = packed(high, 0);
        let header = Header(&bytes);
        assert_ne!(header.is_query(), header.is_response());
        assert_eq!(high >= 128, header.is_response());
    }
}

#[test]
fn flags_round_trip_for_every_opcode_and_response_code() {
    for opcode in 0..16u8 {
        for rcode in 0..16u8 {
            for flags in 0..32u8 {
                let qr = flags & 1 != 0;
                let aa = flags & 2 != 0;
                let tc = flags & 4 != 0;
                let rd = flags & 8 != 0;
                let ra = flags & 16 != 0;
                let z = (opcode + rcode) % 8;
                let high = ((qr as u8) << 7) | (opcode << 3) | ((aa as u8) << 2) | ((tc as u8) << 1)
                    | (rd as u8);
                let low = ((ra as u8) << 7) | (z << 4) | rcode;
                let bytes = packed(high, low);
                let header = Header(&bytes);
                assert_eq!(qr, header.is_response());
                assert_eq!(!qr, header.is_query());
                assert_eq!(Opcode::from(opcode), header.opcode());
                assert_eq!(aa, header.is_authoritative_answer());
                assert_eq!(tc, header.is_truncated());
                assert_eq!(rd, header.is_recursion_desired());
                assert_eq!(ra, header.is_recursion_available());
                assert_eq!(z, header.z());
                assert_eq!(ResponseCode::from(rcode), header.response_code());
            }
        }
    }
}

#[test]
fn opcodes_by_number() {
    assert_eq!(Opcode::Standard, Opcode::from(0));
    assert_eq!(Opcode::Inverse, Opcode::from(1));
    assert_eq!(Opcode::Status, Opcode::from(2));
    assert_eq!(Opcode::Reserved(3), Opcode::from(3));
    assert_eq!(Opcode::Reserved(15), Opcode::from(15));
}

#[test]
fn response_codes_by_number() {
    assert_eq!(ResponseCode::NoError, ResponseCode::from(0));
    assert_eq!(ResponseCode::FormatError, ResponseCode::from(1));
    assert_eq!(ResponseCode::ServerFailure, ResponseCode::from(2));
    assert_eq!(ResponseCode::NameError, ResponseCode::from(3));
    assert_eq!(ResponseCode::NotImplemented, ResponseCode::from(4));
    assert_eq!(ResponseCode::Refused, ResponseCode::from(5));
    assert_eq!(ResponseCode::Reserved(6), ResponseCode::from(6));
    assert_eq!(ResponseCode::Reserved(15), ResponseCode::from(15));
}

#[test]
fn id_and_counts_are_big_endian() {
    let bytes = packed(0, 0);
    let header = Header(&bytes);
    assert_eq!(0xabcd, header.id());
    assert_eq!(0x0102, header.question_count());
    assert_eq!(0x0304, header.answer_count());
    assert_eq!(0x0506, header.authority_count());
    assert_eq!(0x0708, header.additional_count());
    assert_eq!(12, Header::SIZE);
}
