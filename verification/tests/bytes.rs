//! The bounds-checked cursor every read of a packet goes through.

use netsentry::decode::bytes::ByteReader;

#[test]
fn reads_fields_in_network_byte_order() {
    let mut reader = ByteReader::new(&[0x08, 0x00, 0xde, 0xad, 0xbe, 0xef, 0x2a]);

    assert_eq!(reader.u16(), Some(0x0800));
    assert_eq!(reader.u32(), Some(0xdead_beef));
    assert_eq!(reader.u8(), Some(0x2a));
    assert_eq!(reader.remaining(), 0);
}

#[test]
fn an_empty_reader_yields_none_for_everything() {
    let mut reader = ByteReader::new(&[]);

    assert_eq!(reader.u8(), None);
    assert_eq!(reader.u16(), None);
    assert_eq!(reader.u32(), None);
    assert_eq!(reader.array::<6>(), None);
    assert_eq!(reader.take(1), None);
    assert_eq!(reader.skip(1), None);
    assert_eq!(reader.remaining(), 0);
    assert!(!reader.has(1));
    assert_eq!(reader.clone().rest(), &[] as &[u8]);
}

#[test]
fn a_read_one_byte_short_fails_without_consuming() {
    let mut reader = ByteReader::new(&[0xff]);

    assert_eq!(reader.u16(), None, "two bytes were not available");
    // The failed read must not have moved the cursor.
    assert_eq!(reader.position(), 0);
    assert_eq!(reader.u8(), Some(0xff));
}

#[test]
fn every_prefix_of_a_packet_is_safe_to_read() {
    // Table-driven: for every possible truncation of a frame, run the same
    // sequence of reads. None of them may panic.
    let frame: Vec<u8> = (0..40u8).collect();

    for length in 0..=frame.len() {
        let prefix = frame.get(..length).unwrap_or(&[]);
        let mut reader = ByteReader::new(prefix);

        let _ = reader.array::<6>();
        let _ = reader.array::<6>();
        let _ = reader.u16();
        let _ = reader.u8();
        let _ = reader.u32();
        let _ = reader.take(9);
        let _ = reader.skip(3);
        assert!(reader.position() <= length);
        assert_eq!(reader.remaining(), length - reader.position());
    }
}

#[test]
fn oversized_requests_cannot_wrap_the_cursor() {
    let mut reader = ByteReader::new(&[1, 2, 3, 4]);

    assert_eq!(reader.take(usize::MAX), None);
    assert_eq!(reader.skip(usize::MAX), None);
    assert_eq!(reader.array::<64>(), None);
    assert_eq!(reader.position(), 0);
}

#[test]
fn take_and_rest_borrow_the_right_windows() {
    let mut reader = ByteReader::new(&[1, 2, 3, 4, 5]);

    assert_eq!(reader.take(2), Some(&[1, 2][..]));
    assert!(reader.has(3));
    assert!(!reader.has(4));
    assert_eq!(reader.rest(), &[3, 4, 5]);
}
