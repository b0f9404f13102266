use blackout::event::{frame_record, split_records, LogError};

#[test]
fn frames_read_back_in_order() {
    let mut log = Vec::new();
    log.extend(frame_record(b"first"));
    log.extend(frame_record(b""));
    log.extend(frame_record(&[9u8; 300]));
    let records = split_records(&log).unwrap();
    assert_eq!(records, vec![b"first".to_vec(), Vec::new(), vec![9u8; 300]]);
}

#[test]
fn frame_header_is_little_endian_length() {
    let f = frame_record(&[1u8; 258]);
    assert_eq!(&f[..4], &[2, 1, 0, 0]);
    assert_eq!(f.len(), 262);
}

#[test]
fn short_tail_ends_the_log() {
    let mut log = frame_record(b"ok");
    log.extend([5u8, 0]);
    assert_eq!(split_records(&log).unwrap(), vec![b"ok".to_vec()]);
    assert!(split_records(&[]).unwrap().is_empty());
}

#[test]
fn truncated_record_is_an_error() {
    let mut log = frame_record(b"ok");
    log.extend([10u8, 0, 0, 0, 1, 2]);
    assert_eq!(split_records(&log), Err(LogError::Truncated));
}
