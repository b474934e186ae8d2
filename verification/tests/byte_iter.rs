use midi_file::byte_iter::ByteIter;
use midi_file::vlq::VlqError;
use midi_file::ErrorKind;

#[test]
fn byte_iter_test() {
    let bytes = [0x00u8, 0x01, 0x02, 0x03, 0x04, 0x10, 0x20, 0x30, 0x40];
    let mut iter = ByteIter::new(&bytes);
    assert!(iter.current().is_none());
    assert_eq!(0x00, iter.read().unwrap());
    assert_eq!(0x00, iter.current().unwrap());
    assert_eq!(0x01, iter.peek().unwrap());
    assert_eq!(0x02, iter.peek2().unwrap());
    assert_eq!(0x03, iter.peek3().unwrap());

    assert_eq!([0x01, 0x02], iter.read2().unwrap());
    assert_eq!(2, iter.position().unwrap());
    iter.set_size_limit(2);
    assert!(!iter.is_end());
    assert_eq!(0x03, iter.read().unwrap());
    assert_eq!(0x04, iter.read().unwrap());
    assert_eq!(0x04, iter.current().unwrap());
    assert!(iter.read().is_none());
    iter.clear_size_limit();
    assert_eq!(0x10, iter.read().unwrap());
}

#[test]
fn reading_past_the_end_gives_nothing() {
    let bytes = [0x07u8];
    let mut iter = ByteIter::new(&bytes);
    assert!(iter.position().is_none());
    assert!(iter.is_end());
    assert_eq!(Some(0x07), iter.read());
    assert!(!iter.is_end());
    assert_eq!(None, iter.peek());
    assert_eq!(None, iter.read());
    assert!(iter.is_end());
    assert_eq!(None, iter.current());
    assert_eq!(Some(1), iter.position());
    assert_eq!(None, iter.read());
    assert_eq!(Some(1), iter.position());
}

#[test]
fn read_or_die_reports_the_position() {
    let bytes = [0x01u8, 0x02];
    let mut iter = ByteIter::new(&bytes);
    assert_eq!(0x01, iter.read_or_die().unwrap());
    assert_eq!(0x02, iter.read_or_die().unwrap());
    let e = iter.read_or_die().err().unwrap();
    assert_eq!(ErrorKind::EndOfInput { position: 2 }, e.kind());
    assert_eq!("unexpected end of input", e.description());
}

#[test]
fn big_endian_numbers() {
    let bytes = [0x12u8, 0x34, 0x00, 0x00, 0x00, 0x06, 0xff];
    let mut iter = ByteIter::new(&bytes);
    assert_eq!(0x1234, iter.read_u16().unwrap());
    assert_eq!(6, iter.read_u32().unwrap());
    let e = iter.read_u16().err().unwrap();
    assert_eq!(ErrorKind::EndOfInput { position: 7 }, e.kind());
}

#[test]
fn tags() {
    let bytes = [0x4du8, 0x54, 0x68, 0x64, 0x4d, 0x54, 0x72, 0x6b, 0x00];
    let mut iter = ByteIter::new(&bytes);
    assert!(!iter.is_tag(b"MThd"));
    iter.expect_tag(b"MThd").unwrap();
    assert_eq!(Some(3), iter.position());
    assert_eq!(Some(0x4d), iter.read());
    assert!(iter.is_tag(b"MTrk"));
    assert!(!iter.is_tag(b"MThd"));

    let mut iter = ByteIter::new(&bytes);
    let e = iter.expect_tag(b"MTrk").err().unwrap();
    assert_eq!(ErrorKind::TagMismatch { position: 3 }, e.kind());

    let short = [0x4du8, 0x54];
    let mut iter = ByteIter::new(&short);
    let e = iter.expect_tag(b"MThd").err().unwrap();
    assert_eq!(ErrorKind::EndOfInput { position: 2 }, e.kind());
}

#[test]
fn read_expect_holds_the_byte_against_its_value() {
    let bytes = [0xffu8, 0x2f];
    let mut iter = ByteIter::new(&bytes);
    iter.read_expect(0xff).unwrap();
    let e = iter.read_expect(0x00).err().unwrap();
    assert_eq!(
        ErrorKind::UnexpectedByte {
            expected: 0x00,
            found: 0x2f,
            position: 1
        },
        e.kind()
    );
}

#[test]
fn read_n_reads_exactly() {
    let bytes = [1u8, 2, 3, 4];
    let mut iter = ByteIter::new(&bytes);
    assert_eq!(vec![1u8, 2, 3], iter.read_n(3).unwrap());
    assert_eq!(Vec::<u8>::new(), iter.read_n(0).unwrap());
    let e = iter.read_n(2).err().unwrap();
    assert_eq!(ErrorKind::EndOfInput { position: 4 }, e.kind());
}

#[test]
fn quantities_from_the_stream() {
    let bytes = [0x00u8, 0x8c, 0x00, 0xff, 0xff, 0xff, 0xff, 0x7f, 0x81];
    let mut iter = ByteIter::new(&bytes);
    assert_eq!(0, iter.read_vlq_u32().unwrap());
    assert_eq!(1536, iter.read_vlq_u32().unwrap());
    let e = iter.read_vlq_u32().err().unwrap();
    assert_eq!(
        ErrorKind::Vlq {
            error: VlqError::Overflow,
            position: 7
        },
        e.kind()
    );
    let e = iter.read_vlq_u32().err().unwrap();
    assert_eq!(ErrorKind::EndOfInput { position: 9 }, e.kind());
}

#[test]
fn quantity_of_more_than_five_bytes_is_refused() {
    let bytes = [0x80u8, 0x80, 0x80, 0x80, 0x80, 0x00];
    let mut iter = ByteIter::new(&bytes);
    let e = iter.read_vlq_u32().err().unwrap();
    assert_eq!(ErrorKind::VlqTooLong { position: 4 }, e.kind());
    assert_eq!(vec![0x00u8], iter.read_vlq_bytes().unwrap());
}

#[test]
fn the_limit_stops_reading_and_not_peeking() {
    let bytes = [9u8, 8, 7, 6];
    let mut iter = ByteIter::new(&bytes);
    assert_eq!(Some(9), iter.read());
    iter.set_size_limit(1);
    assert_eq!(Some(8), iter.read());
    assert!(iter.is_end());
    assert_eq!(None, iter.read());
    assert_eq!(Some(7), iter.peek());
    assert_eq!(7, iter.peek_or_die().unwrap());
    let e = iter.read_or_die().err().unwrap();
    assert_eq!(ErrorKind::EndOfInput { position: 1 }, e.kind());
    iter.clear_size_limit();
    assert_eq!(Some(7), iter.read());
}
