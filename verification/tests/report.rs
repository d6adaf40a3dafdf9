use embedding::streams::{NeverReadable, StreamError, TimestampedWrites};
use embedding::text::u64_to_padded8;

#[test]
fn timestamps_are_zero_padded_to_eight_places() {
    assert_eq!(u64_to_padded8(0), b"00000000".to_vec());
    assert_eq!(u64_to_padded8(42), b"00000042".to_vec());
    assert_eq!(u64_to_padded8(12345678), b"12345678".to_vec());
    assert_eq!(u64_to_padded8(123456789), b"123456789".to_vec());
}

#[test]
fn the_log_records_time_and_quotes_payloads() {
    let mut log = TimestampedWrites::new();
    assert_eq!(log.check_write(), Ok(usize::MAX));
    log.write(0, bytes::Bytes::from(b"hello".to_vec())).unwrap();
    log.write(250, bytes::Bytes::from(b"line\n".to_vec())).unwrap();
    assert!(log.flush().is_ok());
    let report = String::from_utf8(log.report_bytes()).unwrap();
    // The quoted form escapes the embedded line break.
    assert_eq!(report, "00000000 \"hello\"\n00000250 \"line\\n\"\n");
}

#[test]
fn the_log_decodes_payloads_leniently() {
    let mut log = TimestampedWrites::new();
    log.write(1, bytes::Bytes::from(vec![0xff])).unwrap();
    let report = String::from_utf8(log.report_bytes()).unwrap();
    // An invalid byte is replaced, not refused.
    assert_eq!(report, "00000001 \"\u{fffd}\"\n");
}

#[test]
fn stdin_never_yields_bytes() {
    let mut stdin = NeverReadable;
    assert_eq!(stdin.read(16).err(), Some(StreamError::Trap));
}
