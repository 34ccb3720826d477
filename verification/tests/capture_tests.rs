use imp_sample::capture::{thread_args, ThreadCapture, ThreadExit, ThreadStep};
use imp_sample::config::{chn_table, sensor_config, IMPPayloadType, SensorModel};

fn drive(t: &mut ThreadCapture, results: &[i32]) -> Vec<ThreadStep> {
    let mut seen = vec![t.step];
    for r in results {
        t.on_result(*r);
        seen.push(t.step);
    }
    seen
}

#[test]
fn jpeg_thread_saves_snapshots() {
    let mut t = ThreadCapture::start(3, 200);
    assert_eq!((t.chn_num, t.payload, t.total), (3, 0, 4));
    assert!(t.is_jpeg());
    t.on_result(0);
    assert_eq!(t.step, ThreadStep::Poll);
    for i in 0..4 {
        assert_eq!(t.idx, i);
        drive(&mut t, &[0, 0, 0]);
        assert_eq!(t.step, ThreadStep::Release);
        t.on_result(0);
    }
    assert_eq!(t.step, ThreadStep::CloseFile);
    t.on_result(0);
    assert_eq!(t.step, ThreadStep::StopRecv);
    t.on_result(-1);
    assert_eq!(t.step, ThreadStep::Exit(ThreadExit::Null));
}

#[test]
fn video_thread_open_failure() {
    let mut t = ThreadCapture::start((1 << 16) | 0, 200);
    assert_eq!((t.chn_num, t.payload, t.total), (0, 1, 200));
    assert!(!t.is_jpeg());
    let seen = drive(&mut t, &[-1, -1]);
    assert_eq!(seen, vec![ThreadStep::StartRecv, ThreadStep::OpenFile, ThreadStep::Exit(ThreadExit::Null)]);
}

#[test]
fn poll_timeout_uses_up_a_frame() {
    let mut t = ThreadCapture::start((1 << 16) | 1, 2);
    drive(&mut t, &[0, 5, -1]);
    assert_eq!((t.step, t.idx), (ThreadStep::Poll, 1));
    drive(&mut t, &[-1]);
    assert_eq!(t.step, ThreadStep::CloseFile);
}

#[test]
fn video_save_failure_closes_then_ends() {
    let mut t = ThreadCapture::start((2 << 16) | 0, 200);
    let seen = drive(&mut t, &[0, 5, 0, 0, -1, 0]);
    assert_eq!(
        seen,
        vec![
            ThreadStep::StartRecv,
            ThreadStep::OpenFile,
            ThreadStep::Poll,
            ThreadStep::GetStream,
            ThreadStep::SaveStream,
            ThreadStep::CloseOnError(-1),
            ThreadStep::Exit(ThreadExit::Code(-1)),
        ]
    );
}

#[test]
fn get_stream_failure_ends_thread() {
    let mut t = ThreadCapture::start(4, 200);
    drive(&mut t, &[0, 0, -3]);
    assert_eq!(t.step, ThreadStep::Exit(ThreadExit::Null));
}

#[test]
fn nothing_to_save() {
    let mut t = ThreadCapture::start(1 << 16, 0);
    let seen = drive(&mut t, &[0, 3, 0, 0]);
    assert_eq!(
        seen,
        vec![ThreadStep::StartRecv, ThreadStep::OpenFile, ThreadStep::CloseFile, ThreadStep::StopRecv, ThreadStep::Exit(ThreadExit::Null)]
    );
}

#[test]
fn threads_for_enabled_channels() {
    let s = sensor_config(SensorModel::GC2053);
    let mut t = chn_table(&s);
    t[2].enable = true;
    t[2].payload_type = IMPPayloadType::PT_JPEG;
    assert_eq!(thread_args(&t), vec![(0, 1 << 16), (2, 5)]);
}
