use rdns::utils::{from_u16, from_u32, to_u16};

#[test]
fn test_conversion() {
    for i in 0..=u16::max_value() {
        let buff = from_u16(i);
        let result = to_u16(&buff).unwrap();
        println!("{} -> {:?} -> {}", i, buff, result);
        assert_eq!(i, result);
    }
}

#[test]
fn from_u16_is_big_endian() {
    assert_eq!([0x12, 0x34], from_u16(0x1234));
    assert_eq!([0, 1], from_u16(1));
    assert_eq!([0xff, 0xff], from_u16(u16::MAX));
}

#[test]
fn from_u32_is_big_endian() {
    assert_eq!([0x12, 0x34, 0x56, 0x78], from_u32(0x1234_5678));
    assert_eq!([0, 0, 0, 201], from_u32(201));
    assert_eq!([0xff, 0xff, 0xff, 0xff], from_u32(u32::MAX));
}

#[test]
fn to_u16_reads_the_first_two_bytes() {
    assert_eq!(Some(0x1234), to_u16(&[0x12, 0x34]));
    assert_eq!(Some(0x1234), to_u16(&[0x12, 0x34, 0x56]));
    assert_eq!(Some(10611), to_u16(&[41, 115]));
}

#[test]
fn to_u16_needs_two_bytes() {
    assert_eq!(None, to_u16(&[]));
    assert_eq!(None, to_u16(&[7]));
}
