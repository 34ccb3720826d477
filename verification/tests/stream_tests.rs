use imp_sample::config::{chn_table, sensor_config, IMPPayloadType, SensorModel};
use imp_sample::stream::{
    c_str, c_str_len, decimal, fd_save_count, snap_path, stream_file_path_prefix, stream_path,
    stream_suffix, stream_suffix_of_code, stream_thread_arg, thread_save_count, thread_stream_path,
    unpack_thread_arg, ByteArrayWriter, FmtError, PackWriter, SnapStep, SnapshotWriter, NR_FRAMES_TO_SAVE,
    STREAM_PATH_CAP,
};

fn filled(text: &[u8], cap: usize) -> Vec<u8> {
    let mut v = text.to_vec();
    v.resize(cap, 0);
    v
}

#[test]
fn suffixes() {
    assert_eq!(stream_suffix(IMPPayloadType::PT_H264), b"h264\0".to_vec());
    assert_eq!(stream_suffix(IMPPayloadType::PT_H265), b"h265\0".to_vec());
    assert_eq!(stream_suffix(IMPPayloadType::PT_JPEG), b"jpeg\0".to_vec());
    assert_eq!(stream_suffix_of_code(1), b"h264\0".to_vec());
    assert_eq!(stream_suffix_of_code(0), b"jpeg\0".to_vec());
    assert_eq!(stream_suffix_of_code(7), b"none\0".to_vec());
    assert_eq!(stream_file_path_prefix(), b"/tmp\0".to_vec());
}

#[test]
fn thread_word_roundtrip() {
    let s = sensor_config(SensorModel::GC2053);
    let mut c = chn_table(&s)[2];
    let arg = stream_thread_arg(&c);
    assert_eq!(arg, (1 << 16) | 2);
    assert_eq!(unpack_thread_arg(arg), (2, 1));
    c.payload_type = IMPPayloadType::PT_JPEG;
    let arg = stream_thread_arg(&c);
    assert_eq!(arg, 5);
    assert_eq!(unpack_thread_arg(arg), (5, 0));
    assert_eq!(unpack_thread_arg((2 << 16) | 0xfffe), (0xfffe, 2));
    let top = ((0xffffu32 << 16) | 7) as i32;
    assert_eq!(unpack_thread_arg(top), (7, 0xffff));
}

#[test]
fn frames_to_save() {
    assert_eq!(thread_save_count(IMPPayloadType::PT_JPEG, NR_FRAMES_TO_SAVE), 4);
    assert_eq!(thread_save_count(IMPPayloadType::PT_H264, NR_FRAMES_TO_SAVE), 200);
    assert_eq!(thread_save_count(IMPPayloadType::PT_JPEG, 10), 1);
    assert_eq!(fd_save_count(IMPPayloadType::PT_JPEG, NR_FRAMES_TO_SAVE), 4);
    assert_eq!(fd_save_count(IMPPayloadType::PT_JPEG, 10), 10);
    assert_eq!(fd_save_count(IMPPayloadType::PT_H265, 10), 10);
}

#[test]
fn decimal_text() {
    assert_eq!(decimal(0), b"0".to_vec());
    assert_eq!(decimal(7), b"7".to_vec());
    assert_eq!(decimal(305), b"305".to_vec());
    assert_eq!(decimal(-42), b"-42".to_vec());
    assert_eq!(decimal(i32::MIN), i32::MIN.to_string().into_bytes());
    assert_eq!(decimal(i32::MAX), i32::MAX.to_string().into_bytes());
}

#[test]
fn writer_refuses_overflow() {
    let mut w = ByteArrayWriter::new(6);
    assert_eq!(w.write_str(&b"abcd".to_vec()), Ok(()));
    assert_eq!(w.position, 4);
    assert_eq!(w.write_str(&b"xyz".to_vec()), Err(FmtError));
    assert_eq!(w.position, 4);
    assert_eq!(w.buffer, b"abcd\0\0".to_vec());
    assert_eq!(w.write_str(&b"ef".to_vec()), Ok(()));
    assert_eq!(w.buffer, b"abcdef".to_vec());
    assert_eq!(w.write_str(&Vec::new()), Ok(()));
}

#[test]
fn fd_capture_path_keeps_terminators() {
    let p = stream_path(&stream_file_path_prefix(), 0, &stream_suffix(IMPPayloadType::PT_H264), STREAM_PATH_CAP).unwrap();
    assert_eq!(p, filled(b"/tmp\0/stream-0.h264\0", 128));
    // As a C string this path is only the directory.
    assert_eq!(c_str(&p), b"/tmp".to_vec());
}

#[test]
fn stream_path_too_long() {
    let long = vec![b'a'; 120];
    assert_eq!(stream_path(&long, 12, &b"h264".to_vec(), 128), Err(FmtError));
    assert!(stream_path(&long, 1, &Vec::new(), 130).is_ok());
}

#[test]
fn thread_path_as_c_formats_it() {
    let p = thread_stream_path(&stream_file_path_prefix(), 3, &stream_suffix(IMPPayloadType::PT_JPEG));
    assert_eq!(p, filled(b"/tmp/stream-3.jpeg\0", 64));
}

#[test]
fn c_strings() {
    assert_eq!(c_str_len(&b"ab\0cd\0".to_vec()), 2);
    assert_eq!(c_str_len(&b"abc".to_vec()), 3);
    assert_eq!(c_str_len(&Vec::new()), 0);
    assert_eq!(c_str(&b"\0x".to_vec()), Vec::<u8>::new());
}

#[test]
fn snapshot_paths() {
    assert_eq!(snap_path(&b"/tmp/stream-3.jpeg".to_vec(), 2).unwrap(), filled(b"/tmp/stream-3.jpeg_2", 128));
    assert_eq!(snap_path(&vec![b'x'; 127], 5), Err(FmtError));
    assert!(snap_path(&vec![b'x'; 126], 5).is_ok());
}

#[test]
fn packs_written_in_order() {
    let mut w = PackWriter::new(2);
    assert_eq!(w.next_pack(), Some(0));
    assert_eq!(w.on_written(100, 100), Ok(()));
    assert_eq!(w.next_pack(), Some(1));
    assert_eq!(w.on_written(40, 50), Err(-1));
    assert_eq!(w.next_pack(), Some(1));
    assert_eq!(w.on_written(50, 50), Ok(()));
    assert_eq!(w.next_pack(), None);
    let w = PackWriter::new(0);
    assert_eq!(w.next_pack(), None);
}

#[test]
fn failed_write_is_an_error() {
    let mut w = PackWriter::new(1);
    assert_eq!(w.on_written(-1, 10), Err(-1));
}

#[test]
fn snapshot_failed_open_writes_and_closes_nothing() {
    let mut w = SnapshotWriter::new(3);
    assert_eq!(w.step, SnapStep::Open);
    w.on_result(-1, 0);
    assert_eq!(w.step, SnapStep::Failed(-1));
}

#[test]
fn snapshot_written_whole_then_closed_once() {
    let lens = [10u32, 20, 30];
    let mut w = SnapshotWriter::new(3);
    let mut steps = vec![w.step];
    w.on_result(4, 0);
    for k in 0..3 {
        steps.push(w.step);
        w.on_result(lens[k] as isize, lens[k]);
    }
    steps.push(w.step);
    w.on_result(0, 0);
    assert_eq!(
        steps,
        vec![SnapStep::Open, SnapStep::Write(0), SnapStep::Write(1), SnapStep::Write(2), SnapStep::Close]
    );
    assert_eq!(w.step, SnapStep::Saved);
}

#[test]
fn snapshot_short_write_closes_and_fails() {
    let mut w = SnapshotWriter::new(3);
    w.on_result(4, 0);
    w.on_result(10, 10);
    assert_eq!(w.step, SnapStep::Write(1));
    w.on_result(5, 20);
    assert_eq!(w.step, SnapStep::CloseAfterFailure);
    w.on_result(0, 0);
    assert_eq!(w.step, SnapStep::Failed(-1));
    let mut e = SnapshotWriter::new(0);
    e.on_result(4, 0);
    assert_eq!(e.step, SnapStep::Close);
    e.on_result(0, 0);
    assert_eq!(e.step, SnapStep::Saved);
}
