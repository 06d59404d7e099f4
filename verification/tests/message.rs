use rdns::common::{AnswerError, AnswerType, QuestionClass, QuestionType};
use rdns::request::{Error, Request};

const HEADER: [u8; 12] = [0x12, 0x34, 0x01, 0x00, 0, 1, 0, 0, 0, 0, 0, 0];
const QUESTION: [u8; 16] =
    [6, b'g', b'o', b'o', b'g', b'l', b'e', 3, b'c', b'o', b'm', 0, 0, 1, 0, 1];

fn message(questions: u16, answers: u16, body: &[&[u8]]) -> Vec<u8> {
    let mut data = HEADER.to_vec();
    data[4] = (questions >> 8) as u8;
    data[5] = questions as u8;
    data[6] = (answers >> 8) as u8;
    data[7] = answers as u8;
    for part in body {
        data.extend_from_slice(part);
    }
    data
}

fn end_of_slice(result: Result<Request, Error>) -> usize {
    match result.err() {
        Some(Error::EndOfSlice { additional }) => additional,
        other => panic!("expected the end of the slice, got {:?}", other),
    }
}

#[test]
fn buffer_shorter_than_the_header() {
    let data = [0u8; 12];
    for len in 0..12 {
        assert_eq!(12 - len, end_of_slice(Request::parse(&data[..len])));
    }
    assert!(Request::parse(&data).is_ok());
}

#[test]
fn one_question_and_no_answer() {
    let data = message(1, 0, &[&QUESTION]);
    let request = Request::parse(&data).ok().unwrap();
    assert_eq!(0x1234, request.header.id());
    assert_eq!(1, request.questions().count());
    assert_eq!(0, request.answers().count());
    let mut questions = request.questions();
    let question = questions.next().unwrap().ok().unwrap();
    assert_eq!(QuestionType::A, question.qtype);
    assert_eq!(QuestionClass::Internet, question.class);
    assert!(questions.next().is_none());
    assert!(request.answers().next().is_none());
}

#[test]
fn counts_of_the_iterators_are_the_counts_of_the_header() {
    let answer: [u8; 16] = [0xc0, 12, 0, 1, 0, 1, 0, 0, 0, 9, 0, 4, 10, 0, 0, 7];
    let data = message(3, 2, &[&QUESTION, &QUESTION, &[0xc0, 12, 0, 15, 0, 255], &answer, &answer]);
    let request = Request::parse(&data).ok().unwrap();
    assert_eq!(3, request.questions().count());
    assert_eq!(2, request.answers().count());
    // The iterators start anew each time.
    assert_eq!(3, request.questions().count());

    let mut questions = request.questions();
    assert_eq!(QuestionType::A, questions.next().unwrap().ok().unwrap().qtype);
    assert_eq!(QuestionType::A, questions.next().unwrap().ok().unwrap().qtype);
    let third = questions.next().unwrap().ok().unwrap();
    assert_eq!(QuestionType::MX, third.qtype);
    assert_eq!(QuestionClass::Any, third.class);
    assert!(questions.next().is_none());

    let mut answers = request.answers();
    for _ in 0..2 {
        match answers.next().unwrap().ok().unwrap().atype {
            AnswerType::A { ttl, ip } => {
                assert_eq!(9, ttl);
                assert_eq!([10, 0, 0, 7], ip);
            }
        }
    }
    assert!(answers.next().is_none());
}

#[test]
fn bytes_behind_the_counted_entries_are_left_alone() {
    let data = message(1, 0, &[&QUESTION, &[1, 2, 3]]);
    let request = Request::parse(&data).ok().unwrap();
    assert_eq!(1, request.questions().count());
}

#[test]
fn missing_question_fails_the_message() {
    let data = message(2, 0, &[&QUESTION]);
    assert_eq!(1, end_of_slice(Request::parse(&data)));
    let data = message(1, 0, &[&QUESTION[..14]]);
    assert_eq!(2, end_of_slice(Request::parse(&data)));
}

#[test]
fn invalid_name_fails_the_message() {
    let data = message(1, 0, &[&[0xc0, 200, 0, 1, 0, 1]]);
    match Request::parse(&data).err() {
        Some(Error::InvalidLabelSequence) => {}
        other => panic!("expected an invalid name, got {:?}", other),
    }
}

#[test]
fn bad_answer_fails_the_message_with_its_own_failure() {
    let six: [u8; 18] = [0xc0, 12, 0, 1, 0, 1, 0, 0, 0, 9, 0, 6, 10, 0, 0, 7, 0, 0];
    let data = message(1, 1, &[&QUESTION, &six]);
    match Request::parse(&data).err() {
        Some(Error::Answer(AnswerError::InvalidTypeData { qtype, expected, parsed })) => {
            assert_eq!(QuestionType::A, qtype);
            assert_eq!(&[4usize][..], expected);
            assert_eq!(6, parsed);
        }
        other => panic!("expected invalid type data, got {:?}", other),
    }

    let text: [u8; 12] = [0xc0, 12, 0, 16, 0, 1, 0, 0, 0, 9, 0, 0];
    let data = message(1, 1, &[&QUESTION, &text]);
    match Request::parse(&data).err() {
        Some(Error::Answer(AnswerError::UnimplementedConversion(qtype))) => {
            assert_eq!(QuestionType::TXT, qtype)
        }
        other => panic!("expected an unimplemented conversion, got {:?}", other),
    }

    let short: [u8; 14] = [0xc0, 12, 0, 1, 0, 1, 0, 0, 0, 9, 0, 4, 10, 0];
    let data = message(1, 1, &[&QUESTION, &short]);
    assert_eq!(2, end_of_slice(Request::parse(&data)));
}

#[test]
fn short_and_malformed_buffers_give_an_answer() {
    // Every buffer of up to three bytes, and a walk of longer ones.
    for a in 0..=255u8 {
        let _ = Request::parse(&[a]);
        for b in [0u8, 1, 63, 64, 191, 192, 255] {
            let _ = Request::parse(&[a, b]);
            let _ = Request::parse(&[a, b, a]);
        }
    }
    let mut seed: u32 = 0x2545_f491;
    for len in 0..48usize {
        for _ in 0..200 {
            let mut data = Vec::with_capacity(len);
            for i in 0..len {
                seed ^= seed << 13;
                seed ^= seed >> 17;
                seed ^= seed << 5;
                let byte = (seed >> 11) as u8;
                // Small counts, so that the walk goes into the body.
                data.push(if (4..8).contains(&i) { byte % 3 } else { byte });
            }
            if let Ok(request) = Request::parse(&data) {
                assert_eq!(request.header.question_count() as usize, request.questions().count());
                assert_eq!(request.header.answer_count() as usize, request.answers().count());
            }
        }
    }
}

#[test]
fn want_of_bytes_shrinks_by_the_bytes_that_come() {
    let answer: [u8; 16] = [0xc0, 12, 0, 1, 0, 1, 0, 0, 0, 9, 0, 4, 10, 0, 0, 7];
    let data = message(2, 1, &[&QUESTION, &[0xc0, 12, 0, 1, 0, 1], &answer]);
    assert!(Request::parse(&data).is_ok());
    for len in 0..data.len() {
        let additional = end_of_slice(Request::parse(&data[..len]));
        assert!(additional >= 1);
        for more in 0..additional {
            assert_eq!(additional - more, end_of_slice(Request::parse(&data[..len + more])));
        }
    }
}

#[test]
fn parsed_message_stays_parsed_with_bytes_behind_it() {
    let answer: [u8; 16] = [0xc0, 12, 0, 1, 0, 1, 0, 0, 0, 9, 0, 4, 10, 0, 0, 7];
    let mut data = message(1, 1, &[&QUESTION, &answer]);
    for extra in 0..20u8 {
        let request = Request::parse(&data).ok().unwrap();
        assert_eq!(1, request.questions().count());
        assert_eq!(1, request.answers().count());
        data.push(extra);
    }
}
