use rdns::data::{DnsRequest, QType, QueryType, ResponseCode};

#[test]
fn test_incoming_query() {
    let query = &[
        41, 115, // identification
        1, 0, // flags
        0, 1, // question count
        0, 0, // answer count
        0, 0, // authority count
        0, 0, // additional count
        6, 103, 111, 111, 103, 108, 101, 3, 99, 111, 109, 0, // question 1 names
        0, 1, // question 1 qtype
        0, 1, // question 1 qclass
    ];
    assert_eq!(28, query.len());

    let req = DnsRequest::new(query);

    assert_eq!(rdns::utils::to_u16(&[41, 115]).unwrap(), req.identification());
    assert_eq!(12..28, req.question_range);

    assert!(req.is_query());
    assert!(!req.is_reply());
    assert_eq!(QueryType::Query, req.query_type());
    assert!(!req.is_authoritative_answer());
    assert!(req.is_cache_answer());
    assert!(!req.is_truncated());
    assert_eq!(ResponseCode::NoError, req.response_code());
    assert_eq!(1, req.question_count());
    assert_eq!(0, req.answer_count());
    assert_eq!(0, req.authority_count());
    assert_eq!(0, req.additional_count());

    let mut questions = Vec::new();
    let mut iter = req.questions();
    while let Some(question) = iter.next() {
        questions.push(question);
    }
    assert_eq!(1, questions.len());
    let question = &questions[0];
    let mut names = Vec::new();
    let mut iter = question.names();
    while let Some(name) = iter.next() {
        names.push(name);
    }
    assert_eq!("google", names[0]);
    assert_eq!("com", names[1]);
    assert_eq!(QType::A, question.qtype);
    assert_eq!(1, question.qclass);
}
