use rdns::common::{Opcode, QuestionClass, QuestionType, StrOrSlice};
use rdns::request::Request;

#[test]
fn dig() {
    let input: &[u8] = &[
        0x9b, 0x1f, 0x01, 0x20, 0, 1, 0, 0, 0, 0, 0, 0, 6, b'g', b'o', b'o', b'g', b'l', b'e', 3,
        b'c', b'o', b'm', 0, 0, 1, 0, 1,
    ];
    let request = Request::parse(input).expect("Could not parse query_packet.txt");

    assert!(request.header.is_query());
    assert_eq!(Opcode::Standard, request.header.opcode());
    assert!(request.header.is_recursion_desired());
    assert!(!request.header.is_recursion_available());
    assert_eq!(0b010, request.header.z());
    assert_eq!(1, request.header.question_count());

    let question = request.questions().next().unwrap().unwrap();
    let mut label_iter = question.label_sequence.iter();
    assert_eq!(Some(StrOrSlice::Str("google")), label_iter.next());
    assert_eq!(Some(StrOrSlice::Str("com")), label_iter.next());
    assert_eq!(None, label_iter.next());

    assert_eq!(QuestionType::A, question.qtype);
    assert_eq!(QuestionClass::Internet, question.class);
}
