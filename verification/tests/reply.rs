use rdns::data::{DnsQuestionIterator, DnsRequest, QType, QueryType, ResponseCode};
use rdns::{parse_request, RequestError};

const QUERY: [u8; 28] = [
    41, 115, 1, 0, 0, 1, 0, 0, 0, 0, 0, 0, 6, 103, 111, 111, 103, 108, 101, 3, 99, 111, 109, 0, 0,
    1, 0, 1,
];

#[test]
fn reply_with_one_address() {
    let request = parse_request(&QUERY).ok().unwrap();
    let question = request.questions().next().unwrap();
    assert_eq!(QType::A, question.qtype);
    let reply = request
        .build_reply_to(Vec::new(), question)
        .write_header()
        .send_ipv4_addresses(&[[127, 0, 0, 1]]);
    let expected: Vec<u8> = vec![
        41, 115, // id of the request
        0x81, 0x80, // flags
        0, 1, // one question
        0, 1, // one answer
        0, 0, // no authority record
        0, 1, // one additional record
        6, 103, 111, 111, 103, 108, 101, 3, 99, 111, 109, 0, // name
        0, 1, // type A
        0, 1, // class
        0, 0, 0, 0, // ttl
        0, 4, // data length
        127, 0, 0, 1, // address
    ];
    assert_eq!(expected, reply);
    assert_eq!(&[41, 115], &reply[..2]);
    assert_eq!(&[0, 1], &reply[6..8]);
    assert_eq!(&[127, 0, 0, 1], &reply[reply.len() - 4..]);
}

#[test]
fn reply_with_several_addresses_repeats_the_name() {
    let request = parse_request(&QUERY).ok().unwrap();
    let question = request.questions().next().unwrap();
    let reply = request
        .build_reply_to(Vec::new(), question)
        .write_header()
        .send_ipv4_addresses(&[[10, 0, 0, 1], [10, 0, 0, 2], [10, 0, 0, 3]]);
    assert_eq!(12 + 3 * 26, reply.len());
    assert_eq!(&[0, 3], &reply[6..8]);
    for (i, last) in [1u8, 2, 3].iter().enumerate() {
        let record = &reply[12 + i * 26..12 + (i + 1) * 26];
        assert_eq!(&QUERY[12..24], &record[..12]);
        assert_eq!(&[0, 1, 0, 1, 0, 0, 0, 0, 0, 4, 10, 0, 0, *last], &record[12..]);
    }
}

#[test]
fn reply_without_addresses_and_behind_other_bytes() {
    let request = parse_request(&QUERY).ok().unwrap();
    let question = request.questions().next().unwrap();
    let reply =
        request.build_reply_to(vec![9, 9], question).write_header().send_ipv4_addresses(&[]);
    assert_eq!(vec![9, 9, 41, 115, 0x81, 0x80, 0, 1, 0, 0, 0, 0, 0, 1], reply);
}

#[test]
fn request_needs_its_header_and_its_questions() {
    for len in 0..12 {
        assert_eq!(
            Some(RequestError::EndOfSlice { additional: 12 - len }),
            parse_request(&QUERY[..len]).err()
        );
    }
    assert_eq!(
        Some(RequestError::EndOfSlice { additional: 5 }),
        parse_request(&QUERY[..12]).err()
    );
    // A name that does not end inside the buffer counts as an empty one.
    assert_eq!(12..17, parse_request(&QUERY[..20]).ok().unwrap().question_range);
    assert!(parse_request(&QUERY[..20]).ok().unwrap().questions().next().is_none());
    assert_eq!(
        Some(RequestError::EndOfSlice { additional: 1 }),
        parse_request(&QUERY[..27]).err()
    );
    let request = parse_request(&QUERY).ok().unwrap();
    assert_eq!(12..28, request.question_range);
    assert_eq!(None, DnsRequest::missing_bytes(&QUERY));
    assert_eq!(Some(3), DnsRequest::missing_bytes(&QUERY[..25]));
}

#[test]
fn fields_of_a_short_buffer_read_as_their_defaults() {
    let request = DnsRequest::new(&[]);
    assert_eq!(12..12, request.question_range);
    assert_eq!(0, request.identification());
    assert!(request.is_query());
    assert!(!request.is_reply());
    assert_eq!(QueryType::Unknown(255), request.query_type());
    assert!(!request.is_authoritative_answer());
    assert!(request.is_cache_answer());
    assert!(!request.is_truncated());
    assert!(!request.recursion_desired());
    assert!(!request.recursion_available());
    assert_eq!(ResponseCode::Unassigned(255), request.response_code());
    assert_eq!(0, request.question_count());
    assert_eq!(0, request.answer_count());
    assert_eq!(0, request.authority_count());
    assert_eq!(0, request.additional_count());
}

#[test]
fn fields_of_a_response() {
    let data = [0xbe, 0xef, 0x95, 0x83, 0, 0, 0, 2, 0, 3, 0, 4];
    let request = DnsRequest::new(&data);
    assert_eq!(0xbeef, request.identification());
    assert!(request.is_reply());
    assert!(!request.is_query());
    assert_eq!(QueryType::Status, request.query_type());
    assert!(request.is_authoritative_answer());
    assert!(!request.is_cache_answer());
    assert!(!request.is_truncated());
    assert!(request.recursion_desired());
    assert!(request.recursion_available());
    assert_eq!(ResponseCode::NXDomain, request.response_code());
    assert_eq!(0, request.question_count());
    assert_eq!(2, request.answer_count());
    assert_eq!(3, request.authority_count());
    assert_eq!(4, request.additional_count());
}

#[test]
fn query_types_and_response_codes_by_number() {
    assert_eq!(QueryType::Query, QueryType::from(0));
    assert_eq!(QueryType::InverseQuery, QueryType::from(1));
    assert_eq!(QueryType::Unassigned, QueryType::from(3));
    assert_eq!(QueryType::Notify, QueryType::from(4));
    assert_eq!(QueryType::Update, QueryType::from(5));
    assert_eq!(QueryType::DnsStatefulOperation, QueryType::from(6));
    assert_eq!(QueryType::Unknown(7), QueryType::from(7));
    assert_eq!(QueryType::Unknown(255), QueryType::default());
    assert_eq!(ResponseCode::FormErr, ResponseCode::from(1));
    assert_eq!(ResponseCode::ServFail, ResponseCode::from(2));
    assert_eq!(ResponseCode::NotImp, ResponseCode::from(4));
    assert_eq!(ResponseCode::Refused, ResponseCode::from(5));
    assert_eq!(ResponseCode::YXDomain, ResponseCode::from(6));
    assert_eq!(ResponseCode::DSOTYPENI, ResponseCode::from(11));
    assert_eq!(ResponseCode::Unassigned(12), ResponseCode::from(12));
    assert_eq!(ResponseCode::Unassigned(255), ResponseCode::default());
}

#[test]
fn question_types_by_code() {
    assert_eq!(QType::A, QType::from(1));
    assert_eq!(QType::NS, QType::from(2));
    assert_eq!(QType::CName, QType::from(5));
    assert_eq!(QType::SOA, QType::from(6));
    assert_eq!(QType::WKS, QType::from(11));
    assert_eq!(QType::PTR, QType::from(12));
    assert_eq!(QType::MX, QType::from(15));
    assert_eq!(QType::AAAA, QType::from(28));
    assert_eq!(QType::SRV, QType::from(33));
    assert_eq!(QType::Unknown(255), QType::from(255));
}

#[test]
fn lengths_of_names_and_questions() {
    assert_eq!(11, DnsQuestionIterator::calculate_name_length(&QUERY[12..]));
    assert_eq!(16, DnsQuestionIterator::calculate_len(&QUERY[12..]));
    assert_eq!(0, DnsQuestionIterator::calculate_name_length(&[0]));
    assert_eq!(5, DnsQuestionIterator::calculate_len(&[0]));
    // The name does not end inside the buffer.
    assert_eq!(0, DnsQuestionIterator::calculate_name_length(&[3, b'a', b'b']));
    assert_eq!(0, DnsQuestionIterator::calculate_name_length(&[1, b'a']));
    assert_eq!(0, DnsQuestionIterator::calculate_name_length(&[]));
}

#[test]
fn questions_one_after_the_other() {
    let data = [1, b'a', 0, 0, 1, 0, 1, 1, b'b', 1, b'c', 0, 0, 28, 0, 3, 7];
    let mut questions = DnsQuestionIterator(&data);
    let first = questions.next().unwrap();
    assert_eq!(&[1, b'a'], first.names);
    assert_eq!(QType::A, first.qtype);
    assert_eq!(1, first.qclass);
    let second = questions.next().unwrap();
    assert_eq!(&[1, b'b', 1, b'c'], second.names);
    assert_eq!(QType::AAAA, second.qtype);
    assert_eq!(3, second.qclass);
    let mut names = second.names();
    assert_eq!(Some("b"), names.next());
    assert_eq!(Some("c"), names.next());
    assert_eq!(None, names.next());
    // One byte is left, which is no question.
    assert!(questions.next().is_none());
    assert_eq!(&[7], questions.0);
}

#[test]
fn name_that_is_no_text_is_passed_over() {
    let data = [2, 0xff, 0xfe, 1, b'a', 0, 0, 1, 0, 1];
    let question = DnsQuestionIterator(&data).next().unwrap();
    let mut names = question.names();
    assert_eq!(None, names.next());
    assert_eq!(Some("a"), names.next());
    assert_eq!(None, names.next());
}
