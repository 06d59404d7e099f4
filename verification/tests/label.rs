use rdns::common::label::Error;
use rdns::common::{LabelSequence, StrOrSlice};

const GOOGLE: [u8; 12] = [6, b'g', b'o', b'o', b'g', b'l', b'e', 3, b'c', b'o', b'm', 0];

#[test]
fn google_com_has_two_labels() {
    let (name, next) = LabelSequence::parse(&GOOGLE, 0).unwrap();
    assert_eq!(12, next);
    let mut labels = name.iter();
    assert_eq!(Some(StrOrSlice::Str("google")), labels.next());
    assert_eq!(Some(StrOrSlice::Str("com")), labels.next());
    assert_eq!(None, labels.next());
    assert_eq!(None, labels.next());
}

#[test]
fn iteration_starts_anew() {
    let (name, _) = LabelSequence::parse(&GOOGLE, 0).unwrap();
    let mut first = name.iter();
    assert_eq!(Some(StrOrSlice::Str("google")), first.next());
    let mut second = name.iter();
    assert_eq!(Some(StrOrSlice::Str("google")), second.next());
    let mut third = name.into_iter();
    assert_eq!(Some(StrOrSlice::Str("google")), third.next());
    assert_eq!(Some(StrOrSlice::Str("com")), third.next());
}

#[test]
fn root_name_has_no_label() {
    let (name, next) = LabelSequence::parse(&[0, 7, 7], 0).unwrap();
    assert_eq!(1, next);
    assert_eq!(None, name.iter().next());
}

#[test]
fn name_in_the_middle_of_a_buffer() {
    let data = [9, 9, 1, b'a', 0, 9];
    let (name, next) = LabelSequence::parse(&data, 2).unwrap();
    assert_eq!(5, next);
    let mut labels = name.iter();
    assert_eq!(Some(StrOrSlice::Str("a")), labels.next());
    assert_eq!(None, labels.next());
}

#[test]
fn pointer_takes_two_bytes_and_leads_to_its_target() {
    let data = [3, b'c', b'o', b'm', 0, 3, b'w', b'w', b'w', 0xc0, 0, 0xff];
    let (name, next) = LabelSequence::parse(&data, 5).unwrap();
    assert_eq!(11, next);
    let mut labels = name.iter();
    assert_eq!(Some(StrOrSlice::Str("com")), labels.next());
    assert_eq!(None, labels.next());
}

#[test]
fn pointer_without_second_byte_needs_one_more() {
    assert_eq!(
        Some(Error::EndOfSlice { additional: 1 }),
        LabelSequence::parse(&[1, b'a', 0xc0], 0).err()
    );
}

#[test]
fn pointer_to_a_name_without_end_is_invalid() {
    let data = [3, b'c', b'o', b'm', 0xc0, 1];
    assert_eq!(Some(Error::InvalidLabelSequence), LabelSequence::parse(&data, 4).err());
    // The target lies behind the buffer.
    assert_eq!(Some(Error::InvalidLabelSequence), LabelSequence::parse(&[0xc0, 200], 0).err());
}

#[test]
fn short_buffer_says_how_far_the_scan_went() {
    // The label wants five bytes, two are there: the scan comes to rest at
    // 6, three behind the last byte, and the zero byte is one more.
    assert_eq!(
        Some(Error::EndOfSlice { additional: 4 }),
        LabelSequence::parse(&[5, b'a', b'b'], 0).err()
    );
    // All labels are whole, the zero byte is missing.
    assert_eq!(
        Some(Error::EndOfSlice { additional: 1 }),
        LabelSequence::parse(&[1, b'a'], 0).err()
    );
    assert_eq!(Some(Error::EndOfSlice { additional: 1 }), LabelSequence::parse(&[], 0).err());
    assert_eq!(Some(Error::EndOfSlice { additional: 3 }), LabelSequence::parse(&[0], 3).err());
}

#[test]
fn label_that_is_no_text_comes_as_bytes() {
    let data = [2, 0xff, 0xfe, 1, b'a', 0];
    let (name, _) = LabelSequence::parse(&data, 0).unwrap();
    let mut labels = name.iter();
    match labels.next() {
        Some(StrOrSlice::Slice(bytes, _)) => assert_eq!(&[0xff, 0xfe], bytes),
        other => panic!("expected bytes, got {:?}", other),
    }
    assert_eq!(Some(StrOrSlice::Str("a")), labels.next());
    assert_eq!(None, labels.next());
}

#[test]
fn label_that_runs_out_of_the_buffer_ends_the_name() {
    // The pointer leads to a length byte of 200; a zero byte follows, but
    // the buffer does not hold 200 bytes.
    let data = [200, 1, 0, 0xc0, 0];
    let (name, next) = LabelSequence::parse(&data, 3).unwrap();
    assert_eq!(5, next);
    assert_eq!(None, name.iter().next());
}

#[test]
fn labels_equal_text_and_bytes() {
    let (name, _) = LabelSequence::parse(&GOOGLE, 0).unwrap();
    let label = name.iter().next().unwrap();
    assert!(label == *"google");
    assert!(label != *"googl");
    assert!(label != *"com");
    assert!(label == b"google"[..]);
    assert!(label != b"elgoog"[..]);

    let data = [2, 0xff, 0xfe, 0];
    let (name, _) = LabelSequence::parse(&data, 0).unwrap();
    let label = name.iter().next().unwrap();
    assert!(label == [0xff, 0xfe][..]);
    assert!(label != [0xff][..]);
    assert!(label != *"ab");
}
