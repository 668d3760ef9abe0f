use byteseek::bridge::HostNumber;
use byteseek::source::{materialize_range, SeekSpec, SeekableByteSource, SourceError};

fn floor_of(n: &HostNumber) -> u64 {
    match n {
        HostNumber::InRange { floor, .. } => *floor,
        _ => panic!("a planned endpoint is always in range"),
    }
}

/// One full read against an in-memory resource, through the library's own
/// read algorithm. Returns the number of bytes read.
fn read_step(cursor: &mut SeekableByteSource, content: &Vec<u8>, buf: &mut Vec<u8>) -> usize {
    cursor
        .read_from(content, buf)
        .expect("offsets within the safe bound")
}

#[test]
fn decomposed_read_matches_the_whole_read() {
    // The host side plans, materializes and commits as three calls; the
    // outcome is the same as the library's one-call read.
    let content: Vec<u8> = ten_bytes();
    let mut cursor = SeekableByteSource::new();
    assert_eq!(cursor.seek(SeekSpec::Absolute(6), 0), Ok(6));
    let mut buf = vec![0u8; 7];
    let (start, end) = cursor.plan_read(buf.len()).expect("within the safe bound");
    let data = materialize_range(&content, floor_of(&start), floor_of(&end));
    assert!(data.len() <= buf.len());
    assert!(cursor.position().checked_add(data.len() as u64).is_some());
    let n = cursor.commit_read(&data, &mut buf);
    assert_eq!(n, 4);
    assert_eq!(&buf[..4], &[6, 7, 8, 9]);
    assert_eq!(cursor.position(), 10);

    let mut other = SeekableByteSource::new();
    assert_eq!(other.seek(SeekSpec::Absolute(6), 0), Ok(6));
    let mut buf2 = vec![0u8; 7];
    assert_eq!(other.read_from(&content, &mut buf2), Ok(4));
    assert_eq!(buf, buf2);
    assert_eq!(other.position(), 10);
}

fn ten_bytes() -> Vec<u8> {
    (0u8..10).collect()
}

#[test]
fn sequential_reads_reproduce_the_resource() {
    let content = ten_bytes();
    let mut cursor = SeekableByteSource::new();
    let mut gathered: Vec<u8> = Vec::new();
    for buf_len in [3usize, 1, 4, 1, 5, 9] {
        let mut buf = vec![0u8; buf_len];
        let n = read_step(&mut cursor, &content, &mut buf);
        gathered.extend_from_slice(&buf[..n]);
    }
    assert_eq!(gathered, content);
    let mut buf = vec![0u8; 8];
    assert_eq!(read_step(&mut cursor, &content, &mut buf), 0);
}

#[test]
fn seek_then_read_returns_the_addressed_bytes() {
    let content = ten_bytes();
    let mut cursor = SeekableByteSource::new();
    assert_eq!(cursor.seek(SeekSpec::Absolute(2), 0), Ok(2));
    let mut buf = vec![0u8; 6];
    let n = read_step(&mut cursor, &content, &mut buf);
    assert_eq!(n, 6);
    assert_eq!(&buf[..], &[2, 3, 4, 5, 6, 7]);
}

#[test]
fn from_end_zero_lands_at_size_and_reads_nothing() {
    let content = ten_bytes();
    let mut cursor = SeekableByteSource::new();
    assert_eq!(cursor.seek(SeekSpec::FromEnd(0), content.len() as u64), Ok(10));
    assert_eq!(cursor.position(), 10);
    let mut buf = vec![0u8; 4];
    assert_eq!(read_step(&mut cursor, &content, &mut buf), 0);
}

#[test]
fn negative_relative_seek_is_refused_and_keeps_the_cursor() {
    let mut cursor = SeekableByteSource::new();
    assert_eq!(cursor.seek(SeekSpec::Absolute(3), 0), Ok(3));
    assert_eq!(
        cursor.seek(SeekSpec::FromCurrent(-5), 0),
        Err(SourceError::InvalidSeek)
    );
    assert_eq!(cursor.seek(SeekSpec::FromCurrent(0), 0), Ok(3));
}

#[test]
fn from_end_below_zero_is_refused() {
    let mut cursor = SeekableByteSource::new();
    assert_eq!(
        cursor.seek(SeekSpec::FromEnd(-11), 10),
        Err(SourceError::InvalidSeek)
    );
    assert_eq!(cursor.position(), 0);
}

#[test]
fn relative_seek_past_the_largest_offset_is_refused() {
    let mut cursor = SeekableByteSource::new();
    assert_eq!(cursor.seek(SeekSpec::Absolute(u64::MAX), 0), Ok(u64::MAX));
    assert_eq!(
        cursor.seek(SeekSpec::FromCurrent(1), 0),
        Err(SourceError::InvalidSeek)
    );
    assert_eq!(cursor.position(), u64::MAX);
}

#[test]
fn scenario_interleaved_seeks_and_reads() {
    let content = ten_bytes();
    let mut cursor = SeekableByteSource::new();
    assert_eq!(cursor.seek(SeekSpec::Absolute(3), 0), Ok(3));
    let mut buf = vec![0u8; 4];
    assert_eq!(read_step(&mut cursor, &content, &mut buf), 4);
    assert_eq!(&buf[..], &[3, 4, 5, 6]);
    assert_eq!(cursor.position(), 7);
    assert_eq!(cursor.seek(SeekSpec::FromEnd(-2), content.len() as u64), Ok(8));
    let mut buf = vec![0u8; 5];
    let n = read_step(&mut cursor, &content, &mut buf);
    assert_eq!(n, 2);
    assert_eq!(&buf[..2], &[8, 9]);
}

#[test]
fn scenario_seek_past_end_then_read_nothing() {
    let content = ten_bytes();
    let mut cursor = SeekableByteSource::new();
    assert_eq!(cursor.seek(SeekSpec::Absolute(15), 0), Ok(15));
    let mut buf = vec![0u8; 3];
    assert_eq!(read_step(&mut cursor, &content, &mut buf), 0);
    assert_eq!(cursor.position(), 15);
}

#[test]
fn read_past_the_safe_bound_is_a_precision_violation() {
    let mut cursor = SeekableByteSource::new();
    let bound = byteseek::bridge::MAX_SAFE_INTEGER;
    assert_eq!(cursor.seek(SeekSpec::Absolute(bound), 0), Ok(bound));
    assert_eq!(
        cursor.plan_read(1),
        Err(SourceError::PrecisionViolation)
    );
    assert_eq!(cursor.plan_read(0), Ok((
        HostNumber::InRange { floor: bound, exact: true },
        HostNumber::InRange { floor: bound, exact: true },
    )));
    assert_eq!(cursor.seek(SeekSpec::Absolute(u64::MAX), 0), Ok(u64::MAX));
    assert_eq!(
        cursor.plan_read(4),
        Err(SourceError::PrecisionViolation)
    );
    let mut buf = vec![0u8; 4];
    assert_eq!(
        cursor.read_from(&ten_bytes(), &mut buf),
        Err(SourceError::PrecisionViolation)
    );
    assert_eq!(cursor.position(), u64::MAX);
    assert_eq!(buf, vec![0u8; 4]);
}

#[test]
fn commit_read_touches_only_the_front_of_the_buffer() {
    let mut cursor = SeekableByteSource::new();
    let data = vec![1u8, 2];
    let mut buf = vec![9u8, 9, 9];
    let n = cursor.commit_read(&data, &mut buf);
    assert_eq!(n, 2);
    assert_eq!(buf, vec![1, 2, 9]);
    assert_eq!(cursor.position(), 2);
}

#[test]
fn materialize_range_clips_to_the_extent() {
    let content = ten_bytes();
    assert_eq!(materialize_range(&content, 0, 10), content);
    assert_eq!(materialize_range(&content, 3, 7), vec![3, 4, 5, 6]);
    assert_eq!(materialize_range(&content, 8, 13), vec![8, 9]);
    assert_eq!(materialize_range(&content, 10, 12), Vec::<u8>::new());
    assert_eq!(materialize_range(&content, 15, 18), Vec::<u8>::new());
    assert_eq!(materialize_range(&content, 7, 3), Vec::<u8>::new());
    assert_eq!(materialize_range(&content, 4, 4), Vec::<u8>::new());
    assert_eq!(materialize_range(&Vec::new(), 0, 5), Vec::<u8>::new());
}
