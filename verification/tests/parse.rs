use rdns::common::{AnswerType, Opcode, QuestionClass, QuestionType, StrOrSlice};
use rdns::request::Request;

/// A query for the address of google.com, as `dig` sends it.
const QUERY_PACKET: [u8; 28] = [
    0x9b, 0x1f, // id
    0x01, 0x20, // flags: recursion desired, z = 0b010
    0, 1, // question count
    0, 0, // answer count
    0, 0, // authority count
    0, 0, // additional count
    6, b'g', b'o', b'o', b'g', b'l', b'e', 3, b'c', b'o', b'm', 0, // name
    0, 1, // type A
    0, 1, // class IN
];

/// A response with one address of google.com; the name of the answer is a
/// pointer to the name of the question.
const RESPONSE_PACKET: [u8; 44] = [
    0x9b, 0x1f, // id
    0x81, 0x80, // flags: response, recursion desired, recursion available
    0, 1, // question count
    0, 1, // answer count
    0, 0, // authority count
    0, 0, // additional count
    6, b'g', b'o', b'o', b'g', b'l', b'e', 3, b'c', b'o', b'm', 0, // name
    0, 1, // type A
    0, 1, // class IN
    0xc0, 12, // name: pointer to offset 12
    0, 1, // type A
    0, 1, // class IN
    0, 0, 0, 201, // ttl
    0, 4, // data length
    172, 217, 168, 206, // address
];

#[test]
fn dig_request() {
    let input = &QUERY_PACKET;
    let request = Request::parse(input).expect("Could not parse query_packet.txt");

    assert!(request.header.is_query());
    assert_eq!(Opcode::Standard, request.header.opcode());
    assert!(request.header.is_recursion_desired());
    assert!(!request.header.is_recursion_available());
    assert_eq!(0b010, request.header.z());
    assert_eq!(1, request.header.question_count());

    let question = request.questions().next().unwrap().unwrap();
    let mut label_iter = question.label_sequence.iter();
    assert_eq!(Some(StrOrSlice::Str("google")), label_iter.next());
    assert_eq!(Some(StrOrSlice::Str("com")), label_iter.next());
    assert_eq!(None, label_iter.next());

    assert_eq!(QuestionType::A, question.qtype);
    assert_eq!(QuestionClass::Internet, question.class);

    assert_eq!(0, request.header.answer_count());
    assert_eq!(0, request.header.authority_count());
    assert_eq!(0, request.header.additional_count());
}

#[test]
fn google_response() {
    let input = &RESPONSE_PACKET;
    let request = Request::parse(input).expect("Could not parse response_packet.txt");

    assert!(request.header.is_response());
    assert_eq!(Opcode::Standard, request.header.opcode());
    assert!(request.header.is_recursion_desired());
    assert!(request.header.is_recursion_available());
    assert_eq!(0b000, request.header.z());
    assert_eq!(1, request.header.question_count());

    let question = request.questions().next().unwrap().unwrap();
    let mut label_iter = question.label_sequence.iter();
    assert_eq!(Some(StrOrSlice::Str("google")), label_iter.next());
    assert_eq!(Some(StrOrSlice::Str("com")), label_iter.next());
    assert_eq!(None, label_iter.next());

    assert_eq!(QuestionType::A, question.qtype);
    assert_eq!(QuestionClass::Internet, question.class);

    assert_eq!(1, request.header.answer_count());

    let answer = request.answers().next().unwrap().unwrap();
    let mut label_iter = answer.label_sequence.iter();
    assert_eq!(Some(StrOrSlice::Str("google")), label_iter.next());
    assert_eq!(Some(StrOrSlice::Str("com")), label_iter.next());
    assert_eq!(None, label_iter.next());
    let (ttl, ip) = match answer.atype {
        AnswerType::A { ttl, ip } => (ttl, ip),
    };

    assert_eq!(201, ttl);
    assert_eq!([172, 217, 168, 206], ip);

    assert_eq!(0, request.header.authority_count());
    assert_eq!(0, request.header.additional_count());
}
