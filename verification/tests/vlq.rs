use midi_file::vlq::{decode_slice, encode_u32, from_bytes, to_bytes, VlqError};

fn check(vlq_bytes: &[u8], value: u32) {
    let encoded = encode_u32(value);
    assert_eq!(vlq_bytes, &encoded[..]);
    let decoded = decode_slice(&encoded).unwrap();
    assert_eq!(value, decoded);
}

fn check_error(vlq_bytes: &[u8], x: VlqError) {
    let result = decode_slice(vlq_bytes);
    let e = result.err().unwrap();
    assert_eq!(x, e);
}

#[test]
fn one_byte() {
    check(&[0x00], 0x00);
    check(&[0x40], 0x40);
    check(&[0x7f], 0x7f);
}

#[test]
fn two_bytes() {
    check(&[0x81, 0x00], 0x80);
    check(&[0xc0, 0x00], 0x2000);
    check(&[0xff, 0x7f], 0x3fff);
}

#[test]
fn three_bytes() {
    check(&[0x81, 0x80, 0x00], 0x4000);
    check(&[0xc0, 0x80, 0x00], 0x10_0000);
    check(&[0xff, 0xff, 0x7f], 0x1f_ffff);
}

#[test]
fn four_bytes() {
    check(&[0x81, 0x80, 0x80, 0x00], 0x20_0000);
    check(&[0xc0, 0x80, 0x80, 0x00], 0x0800_0000);
    check(&[0xff, 0xff, 0xff, 0x7f], 0x0fff_ffff);
}

#[test]
fn five_bytes() {
    check(&[0x81, 0x80, 0x80, 0x80, 0x00], 0x1000_0000);
    check(&[0x8f, 0xf8, 0x80, 0x80, 0x00], 0xff00_0000);
    check(&[0x8f, 0xff, 0xff, 0xff, 0x7f], 0xffff_ffff);
}

#[test]
fn incomplete_0xff() {
    check_error(&[0xff], VlqError::IncompleteNumber);
}

#[test]
fn incomplete_0x80() {
    check_error(&[0x80], VlqError::IncompleteNumber);
}

#[test]
fn vlq_overflow_u32() {
    check_error(&[0xff, 0xff, 0xff, 0xff, 0x7f], VlqError::Overflow);
    assert_eq!(
        Err(VlqError::Overflow),
        from_bytes(&[0xff, 0xff, 0xff, 0xff, 0x7f])
    );
}

#[test]
fn vlq_im_stupid_right_7() {
    let somebits: u32 = 0b1111_0000_1111_0000_1111_0000_1111_0000;
    let expected: u32 = 0b0000_0001_1110_0001_1110_0001_1110_0001;
    let actual = somebits >> 7;
    assert_eq!(expected, actual);
}

#[test]
fn vlq_im_stupid_left_7() {
    let somebits: u32 = 0b1111_0000_1111_0000_1111_0000_1111_0000;
    let expected: u32 = 0b0111_1000_0111_1000_0111_1000_0000_0000;
    let actual = somebits << 7;
    assert_eq!(expected, actual);
}

#[test]
fn to_single_byte() {
    assert_eq!(&[0x00], to_bytes(&[0x00]).as_slice());
    assert_eq!(&[0x40], to_bytes(&[0x40]).as_slice());
    assert_eq!(&[0x7f], to_bytes(&[0x7f]).as_slice());
}

#[test]
fn to_double_byte() {
    assert_eq!(&[0x81, 0x00], to_bytes(&[0x80]).as_slice());
    assert_eq!(&[0xc0, 0x00], to_bytes(&[0x2000]).as_slice());
    assert_eq!(&[0xff, 0x7f], to_bytes(&[0x3fff]).as_slice());
}

#[test]
fn to_triple_byte() {
    assert_eq!(&[0x81, 0x80, 0x00], to_bytes(&[0x4000]).as_slice());
    assert_eq!(&[0xc0, 0x80, 0x00], to_bytes(&[0x10_0000]).as_slice());
    assert_eq!(&[0xff, 0xff, 0x7f], to_bytes(&[0x1f_ffff]).as_slice());
}

#[test]
fn to_quadruple_byte() {
    assert_eq!(&[0x81, 0x80, 0x80, 0x00], to_bytes(&[0x20_0000]).as_slice());
    assert_eq!(
        &[0xc0, 0x80, 0x80, 0x00],
        to_bytes(&[0x0800_0000]).as_slice()
    );
    assert_eq!(
        &[0xff, 0xff, 0xff, 0x7f],
        to_bytes(&[0x0fff_ffff]).as_slice()
    );
}

#[test]
fn to_quintuple_byte() {
    assert_eq!(
        &[0x81, 0x80, 0x80, 0x80, 0x00],
        to_bytes(&[0x1000_0000]).as_slice()
    );
    assert_eq!(
        &[0x8f, 0xf8, 0x80, 0x80, 0x00],
        to_bytes(&[0xff00_0000]).as_slice()
    );
    assert_eq!(
        &[0x8f, 0xff, 0xff, 0xff, 0x7f],
        to_bytes(&[0xffff_ffff]).as_slice()
    );
}

#[test]
fn from_bytes_test() {
    assert_eq!(Ok(vec![0x7f]), from_bytes(&[0x7f]));
    assert_eq!(Ok(vec![0x2000]), from_bytes(&[0xc0, 0x00]));
    assert_eq!(Ok(vec![0x1f_ffff]), from_bytes(&[0xff, 0xff, 0x7f]));
    assert_eq!(Ok(vec![0x20_0000]), from_bytes(&[0x81, 0x80, 0x80, 0x00]));
    assert_eq!(
        Ok(vec![0xffff_ffff]),
        from_bytes(&[0x8f, 0xff, 0xff, 0xff, 0x7f])
    );
}

#[test]
fn to_bytes_multiple_values() {
    assert_eq!(&[0x40, 0x7f], to_bytes(&[0x40, 0x7f]).as_slice());
    assert_eq!(
        &[0x81, 0x80, 0x00, 0xc8, 0xe8, 0x56],
        to_bytes(&[0x4000, 0x12_3456]).as_slice()
    );
    assert_eq!(
        &[
            0xc0, 0x00, 0xc8, 0xe8, 0x56, 0xff, 0xff, 0xff, 0x7f, 0x00, 0xff, 0x7f, 0x81, 0x80,
            0x00,
        ],
        to_bytes(&[0x2000, 0x12_3456, 0x0fff_ffff, 0x00, 0x3fff, 0x4000]).as_slice()
    );
}

#[test]
fn from_bytes_multiple_values() {
    assert_eq!(
        Ok(vec![0x2000, 0x12_3456, 0x0fff_ffff, 0x00, 0x3fff, 0x4000]),
        from_bytes(&[
            0xc0, 0x00, 0xc8, 0xe8, 0x56, 0xff, 0xff, 0xff, 0x7f, 0x00, 0xff, 0x7f, 0x81, 0x80,
            0x00,
        ])
    );
}

#[test]
fn incomplete_byte_sequence() {
    assert_eq!(Err(VlqError::IncompleteNumber), from_bytes(&[0xff]));
}

#[test]
fn zero_incomplete_byte_sequence() {
    assert_eq!(Err(VlqError::IncompleteNumber), from_bytes(&[0x80]));
}

#[test]
fn chained_execution_is_identity() {
    let test = &[0xf2, 0xf6, 0x96, 0x9c, 0x3b, 0x39, 0x2e, 0x30, 0xb3, 0x24];
    assert_eq!(Ok(Vec::from(&test[..])), from_bytes(&to_bytes(test)));
}

#[test]
fn encoding_of_zero_is_one_zero_byte() {
    assert_eq!(vec![0x00u8], encode_u32(0));
}

#[test]
fn encoding_has_at_most_five_bytes() {
    for value in [0u32, 1, 127, 128, 16383, 16384, 0x0fff_ffff, 0x1000_0000, u32::MAX] {
        let encoded = encode_u32(value);
        assert!(!encoded.is_empty() && encoded.len() <= 5);
        assert_eq!(Ok(value), decode_slice(&encoded));
    }
}

#[test]
fn five_bytes_with_high_payload_bits_overflow() {
    assert_eq!(
        Err(VlqError::Overflow),
        decode_slice(&[0x90, 0x80, 0x80, 0x80, 0x00])
    );
    assert_eq!(
        Err(VlqError::Overflow),
        decode_slice(&[0xff, 0xff, 0xff, 0xff, 0xff])
    );
    assert_eq!(Ok(0xffff_ffff), decode_slice(&[0x8f, 0xff, 0xff, 0xff, 0x7f]));
}

#[test]
fn decoding_nothing_is_zero() {
    assert_eq!(Ok(0), decode_slice(&[]));
    assert_eq!(Err(VlqError::IncompleteNumber), from_bytes(&[]));
}

#[test]
fn row_that_ends_within_a_number_is_incomplete() {
    assert_eq!(Err(VlqError::IncompleteNumber), from_bytes(&[0x7f, 0x80]));
    assert_eq!(
        Err(VlqError::Overflow),
        from_bytes(&[0xff, 0xff, 0xff, 0xff, 0x7f, 0x80])
    );
}
