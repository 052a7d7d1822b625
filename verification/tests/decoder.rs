use bpfcap::frame::{decode_region, PacketIter, RECORD_HEADER_LEN};

/// Builds one framed record: a header declaring `hdrlen` and the
/// payload's length, zero padding up to `hdrlen`, then the payload.
fn record(sec: u32, usec: u32, hdrlen: u16, datalen: u32, payload: &[u8]) -> Vec<u8> {
    let mut out = Vec::new();
    out.extend_from_slice(&sec.to_le_bytes());
    out.extend_from_slice(&usec.to_le_bytes());
    out.extend_from_slice(&(payload.len() as u32).to_le_bytes());
    out.extend_from_slice(&datalen.to_le_bytes());
    out.extend_from_slice(&hdrlen.to_le_bytes());
    while out.len() < hdrlen as usize {
        out.push(0);
    }
    out.extend_from_slice(payload);
    out
}

#[test]
fn empty_region_yields_no_records() {
    let buf: Vec<u8> = Vec::new();
    let records = decode_region(&buf);
    assert_eq!(records.len(), 0);

    let mut it = PacketIter::new(&buf);
    assert!(it.next().is_none());
}

#[test]
fn single_record_decodes_exactly() {
    let payload = [0xaa, 0xbb, 0xcc, 0xdd, 0xee];
    let buf = record(7, 125_000, RECORD_HEADER_LEN as u16, 1500, &payload);
    assert_eq!(buf.len(), RECORD_HEADER_LEN + payload.len());

    let records = decode_region(&buf);
    assert_eq!(records.len(), 1);
    assert_eq!(records[0].capture, &payload);
    assert_eq!(records[0].capture.len(), payload.len());
    assert_eq!(records[0].original_length, 1500);
    assert_eq!(records[0].timestamp.tv_sec, 7);
    assert_eq!(records[0].timestamp.tv_usec, 125_000);
}

#[test]
fn region_shorter_than_header_stops_quietly() {
    let payload = [1, 2, 3];
    let buf = record(0, 0, RECORD_HEADER_LEN as u16, 3, &payload);
    let truncated = &buf[..RECORD_HEADER_LEN - 1];
    let records = decode_region(truncated);
    assert_eq!(records.len(), 0);
}

#[test]
fn truncated_declared_record_is_not_emitted() {
    let payload = [1, 2, 3, 4, 5, 6, 7, 8];
    let buf = record(0, 0, RECORD_HEADER_LEN as u16, 8, &payload);
    // drop the payload's tail: the declared extent no longer fits
    let truncated = &buf[..buf.len() - 3];
    let records = decode_region(truncated);
    assert_eq!(records.len(), 0);
}

#[test]
fn two_records_in_order_with_disjoint_slices() {
    let first_payload = [0x11, 0x22, 0x33];
    let second_payload = [0x44, 0x55, 0x66, 0x77];
    let mut buf = record(1, 10, RECORD_HEADER_LEN as u16, 3, &first_payload);
    buf.extend_from_slice(&record(2, 20, RECORD_HEADER_LEN as u16, 4, &second_payload));

    let records = decode_region(&buf);
    assert_eq!(records.len(), 2);
    assert_eq!(records[0].capture, &first_payload);
    assert_eq!(records[0].timestamp.tv_sec, 1);
    assert_eq!(records[1].capture, &second_payload);
    assert_eq!(records[1].timestamp.tv_sec, 2);

    // the two slices are distinct regions of the buffer
    let base = buf.as_ptr() as usize;
    let s0 = records[0].capture.as_ptr() as usize - base;
    let s1 = records[1].capture.as_ptr() as usize - base;
    assert_eq!(s0, RECORD_HEADER_LEN);
    assert_eq!(s1, 2 * RECORD_HEADER_LEN + first_payload.len());
    assert!(s0 + records[0].capture.len() <= s1);
}

#[test]
fn enlarged_header_length_moves_the_payload() {
    // a producer may pad the header: the declared length, not the
    // fixed layout size, locates the captured bytes
    let payload = [9, 8, 7];
    let buf = record(0, 0, 24, 3, &payload);
    let records = decode_region(&buf);
    assert_eq!(records.len(), 1);
    assert_eq!(records[0].capture, &payload);
}

#[test]
fn zero_advance_region_stops() {
    // a region of zeroes declares header length 0 and capture length 0:
    // no progress is possible, so the walk stops without records
    let buf = vec![0u8; 64];
    let records = decode_region(&buf);
    assert_eq!(records.len(), 0);
}

#[test]
fn iterator_is_single_pass_in_order() {
    let first_payload = [1u8];
    let second_payload = [2u8, 3u8];
    let mut buf = record(0, 0, RECORD_HEADER_LEN as u16, 1, &first_payload);
    buf.extend_from_slice(&record(0, 0, RECORD_HEADER_LEN as u16, 2, &second_payload));

    let mut it = PacketIter::new(&buf);
    let a = it.next().expect("first record");
    assert_eq!(a.capture, &first_payload);
    let b = it.next().expect("second record");
    assert_eq!(b.capture, &second_payload);
    assert!(it.next().is_none());
    assert!(it.next().is_none());
}

#[test]
fn trailing_slack_after_full_record_is_ignored() {
    let payload = [5u8, 6u8];
    let mut buf = record(3, 4, RECORD_HEADER_LEN as u16, 2, &payload);
    buf.extend_from_slice(&[0xff; 7]);  // less than one header of slack
    let records = decode_region(&buf);
    assert_eq!(records.len(), 1);
    assert_eq!(records[0].capture, &payload);
}
