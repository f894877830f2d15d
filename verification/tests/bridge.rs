use avbridge::io::{IOContext, AVSEEK_SIZE, SEEK_CUR, SEEK_END, SEEK_SET, SENTINEL, SENTINEL_SEEK};
use avbridge::io::{i64_into_u64, u64_into_i64};
use avbridge::mem::MemoryStream;

#[test]
fn round_trip_write_then_read() {
    let payload: Vec<u8> = (0u8..200u8).collect();
    let mut writer = IOContext::from_writer(MemoryStream::new());
    assert!(writer.write_installed());
    assert!(!writer.read_installed());
    let mut written = 0usize;
    while written < payload.len() {
        let n = writer.call_write(&payload[written..]);
        assert!(n > 0);
        written += n as usize;
    }
    let storage = writer.close().into_data();
    assert_eq!(storage, payload);

    let mut reader = IOContext::from_reader(MemoryStream::from_data(storage));
    assert!(reader.read_installed());
    assert!(!reader.write_installed());
    let mut got: Vec<u8> = Vec::new();
    loop {
        let mut buf = vec![0u8; 16];
        let n = reader.call_read(&mut buf);
        if n == SENTINEL {
            break;
        }
        assert!(n > 0);
        got.extend_from_slice(&buf[..n as usize]);
    }
    assert_eq!(got, payload);
}

#[test]
fn failed_seek_probe_installs_no_seek_slot() {
    let mut ctx = IOContext::from_reader(MemoryStream::forward_only(vec![1, 2, 3]));
    assert!(!ctx.seek_installed());
    // A size report through the handle answers the failure sentinel.
    assert_eq!(ctx.call_seek(0, AVSEEK_SIZE), SENTINEL_SEEK);
    // So does any repositioning request.
    assert_eq!(ctx.call_seek(1, SEEK_SET), SENTINEL_SEEK);
    // Reading still works: the stream is forward-only, not empty.
    let mut buf = vec![0u8; 2];
    assert_eq!(ctx.call_read(&mut buf), 2);
    assert_eq!(&buf, &[1, 2]);
}

#[test]
fn successful_seek_probe_installs_seek_slot() {
    let mut ctx = IOContext::from_reader(MemoryStream::from_data(vec![1, 2, 3]));
    assert!(ctx.seek_installed());
    assert_eq!(ctx.call_seek(0, AVSEEK_SIZE), 3);
}

#[test]
fn bridge_buffer_takes_the_streams_declared_size() {
    // An in-memory stream declares the 4096-byte default.
    let reader = IOContext::from_reader(MemoryStream::from_data(vec![1]));
    assert_eq!(reader.buffer_len(), 4096);
    let writer = IOContext::from_writer(MemoryStream::new());
    assert_eq!(writer.buffer_len(), 4096);
}

#[test]
fn seek_then_read_returns_bytes_from_offset() {
    let data = vec![10u8, 20, 30, 40, 50];
    let mut ctx = IOContext::from_reader(MemoryStream::from_data(data));
    assert_eq!(ctx.call_seek(2, SEEK_SET), 2);
    let mut buf = vec![0u8; 3];
    assert_eq!(ctx.call_read(&mut buf), 3);
    assert_eq!(&buf, &[30, 40, 50]);
}

#[test]
fn relative_and_end_seeks_report_new_position() {
    let mut ctx = IOContext::from_reader(MemoryStream::from_data(vec![0u8; 100]));
    assert_eq!(ctx.call_seek(10, SEEK_SET), 10);
    assert_eq!(ctx.call_seek(5, SEEK_CUR), 15);
    assert_eq!(ctx.call_seek(-5, SEEK_CUR), 10);
    assert_eq!(ctx.call_seek(-20, SEEK_END), 80);
    assert_eq!(ctx.call_seek(0, SEEK_END), 100);
}

#[test]
fn invalid_seek_requests_report_sentinel() {
    let mut ctx = IOContext::from_reader(MemoryStream::from_data(vec![0u8; 10]));
    // Negative absolute offset cannot be represented.
    assert_eq!(ctx.call_seek(-1, SEEK_SET), SENTINEL_SEEK);
    // Resolving before the start of the stream fails.
    assert_eq!(ctx.call_seek(-11, SEEK_END), SENTINEL_SEEK);
    assert_eq!(ctx.call_seek(-1, SEEK_CUR), SENTINEL_SEEK);
    // An unknown request code fails.
    assert_eq!(ctx.call_seek(0, 77), SENTINEL_SEEK);
    // None of that moved the stream.
    let mut buf = vec![0u8; 1];
    assert_eq!(ctx.call_read(&mut buf), 1);
}

#[test]
fn read_at_end_of_stream_reports_sentinel() {
    let mut ctx = IOContext::from_reader(MemoryStream::from_data(vec![7u8]));
    let mut buf = vec![0u8; 4];
    assert_eq!(ctx.call_read(&mut buf), 1);
    assert_eq!(buf[0], 7);
    assert_eq!(ctx.call_read(&mut buf), SENTINEL);
}

#[test]
fn empty_write_reports_sentinel() {
    let mut ctx = IOContext::from_writer(MemoryStream::new());
    assert_eq!(ctx.call_write(&[]), SENTINEL);
}

#[test]
fn uninstalled_slots_report_sentinel() {
    // A writer handle has no read slot; its read callback cannot be reached.
    let mut writer = IOContext::from_writer(MemoryStream::new());
    let mut buf = vec![0u8; 4];
    assert_eq!(writer.call_read(&mut buf), SENTINEL);
    // A reader handle has no write slot.
    let mut reader = IOContext::from_reader(MemoryStream::from_data(vec![1]));
    assert_eq!(reader.call_write(&[1, 2]), SENTINEL);
}

#[test]
fn forward_only_writer_still_writes() {
    let mut ctx = IOContext::from_writer(MemoryStream::forward_only(Vec::new()));
    assert!(!ctx.seek_installed());
    assert_eq!(ctx.call_write(&[5, 6, 7]), 3);
    assert_eq!(ctx.close().into_data(), vec![5, 6, 7]);
}

#[test]
fn write_past_end_zero_fills_gap() {
    let mut stream = MemoryStream::new();
    let mut ctx = IOContext::from_writer(stream);
    assert_eq!(ctx.call_seek(4, SEEK_SET), 4);
    assert_eq!(ctx.call_write(&[9, 9]), 2);
    stream = ctx.close();
    assert_eq!(stream.into_data(), vec![0, 0, 0, 0, 9, 9]);
}

#[test]
fn overwrite_in_place_keeps_surroundings() {
    let mut ctx = IOContext::from_writer(MemoryStream::from_data(vec![1, 2, 3, 4, 5]));
    assert_eq!(ctx.call_seek(1, SEEK_SET), 1);
    assert_eq!(ctx.call_write(&[8, 8]), 2);
    assert_eq!(ctx.close().into_data(), vec![1, 8, 8, 4, 5]);
}

#[test]
fn close_hands_the_stream_back_once() {
    let mut ctx = IOContext::from_reader(MemoryStream::from_data(vec![1, 2, 3]));
    let mut buf = vec![0u8; 2];
    assert_eq!(ctx.call_read(&mut buf), 2);
    // Closing consumes the handle; the stream changes hands exactly once
    // and keeps its position.
    let stream = ctx.close();
    assert_eq!(stream.position(), 2);
    assert_eq!(stream.into_data(), vec![1, 2, 3]);
}

#[test]
fn u64_into_i64_boundaries() {
    assert_eq!(u64_into_i64(0), Some(0));
    assert_eq!(u64_into_i64(i64::MAX as u64), Some(i64::MAX));
    assert_eq!(u64_into_i64(i64::MAX as u64 + 1), None);
    assert_eq!(u64_into_i64(u64::MAX), None);
}

#[test]
fn i64_into_u64_boundaries() {
    assert_eq!(i64_into_u64(0), Some(0));
    assert_eq!(i64_into_u64(i64::MAX), Some(i64::MAX as u64));
    assert_eq!(i64_into_u64(-1), None);
    assert_eq!(i64_into_u64(i64::MIN), None);
}
