use imp_sample::config::{chn_table, sensor_config, IMPPayloadType, SensorModel};
use imp_sample::poll::{max_fd, on_select, CaptureState, ChnCapture, FdCapture, FdStep, SelectAction};

#[test]
fn fd_capture_runs_to_completion() {
    let s = sensor_config(SensorModel::GC2053);
    let mut t = chn_table(&s);
    t[1].enable = true;
    t[1].payload_type = IMPPayloadType::PT_JPEG;
    let mut st = CaptureState::start(&t, 200);
    assert_eq!(st.chns[0], ChnCapture { enabled: true, saved: 0, total: 200 });
    assert_eq!(st.chns[1], ChnCapture { enabled: true, saved: 0, total: 4 });
    assert_eq!(st.chns[2], ChnCapture { enabled: false, saved: 0, total: 0 });
    assert_eq!(st.watch_set(), vec![true, true, false, false]);
    let mut rounds = 0;
    while !st.all_saved() {
        let w = st.watch_set();
        assert!(w.iter().any(|x| *x));
        for i in 0..w.len() {
            if st.should_serve(i, w[i]) {
                st.record_saved(i);
            }
        }
        rounds += 1;
    }
    assert_eq!(rounds, 200);
    assert_eq!(st.chns[1].saved, 4);
    assert_eq!(st.watch_set(), vec![false, false, false, false]);
}

#[test]
fn disabled_channels_are_never_served() {
    let s = sensor_config(SensorModel::GC2053);
    let st = CaptureState::start(&chn_table(&s), 200);
    assert!(!st.should_serve(3, true));
    assert!(st.should_serve(0, true));
    assert!(!st.should_serve(0, false));
}

#[test]
fn select_outcomes() {
    assert_eq!(on_select(-4), SelectAction::Fail(-4));
    assert_eq!(on_select(0), SelectAction::Retry);
    assert_eq!(on_select(2), SelectAction::Serve);
    assert_eq!(max_fd(3, 9), 9);
    assert_eq!(max_fd(9, 3), 9);
    assert_eq!(max_fd(0, -1), 0);
}

fn video_and_jpeg_table() -> Vec<imp_sample::config::ChnConf> {
    let mut t = chn_table(&sensor_config(SensorModel::GC2053));
    t[1].enable = true;
    t[1].payload_type = IMPPayloadType::PT_JPEG;
    t
}

#[test]
fn fd_capture_sets_up_each_enabled_channel() {
    let t = video_and_jpeg_table();
    let no = vec![false; 4];
    let mut c = FdCapture::start(&t, 200);
    assert_eq!(c.jpeg, vec![false, true, false, false]);
    assert_eq!(c.step, FdStep::Open(0));
    c.on_result(3, &no);
    assert_eq!(c.step, FdStep::GetFd(0));
    c.on_result(7, &no);
    assert_eq!(c.step, FdStep::StartRecv(0));
    c.on_result(0, &no);
    assert_eq!(c.step, FdStep::GetFd(1));
    c.on_result(8, &no);
    assert_eq!(c.step, FdStep::StartRecv(1));
    c.on_result(0, &no);
    assert_eq!(c.step, FdStep::Select);
    c.on_result(0, &no);
    assert_eq!(c.step, FdStep::Select);
}

#[test]
fn fd_capture_setup_failure() {
    let t = video_and_jpeg_table();
    let no = vec![false; 4];
    let mut c = FdCapture::start(&t, 200);
    c.on_result(-2, &no);
    assert_eq!(c.step, FdStep::Failed(-2));
    c.on_result(0, &no);
    assert_eq!(c.step, FdStep::Failed(-2));
}

#[test]
fn fd_capture_serves_ready_channels_and_tears_down() {
    let t = video_and_jpeg_table();
    let mut c = FdCapture::start(&t, 50);
    let no = vec![false; 4];
    for r in [3, 7, 0, 8, 0] {
        c.on_result(r, &no);
    }
    assert_eq!(c.step, FdStep::Select);
    // channel 1 (JPEG) saves max(50 / 50, 1) = 1 frame, channel 0 saves 50
    let both = vec![true, true, false, false];
    c.on_result(2, &both);
    assert_eq!(c.step, FdStep::GetStream(0));
    for r in [0, 0, 0] {
        c.on_result(r, &both);
    }
    assert_eq!(c.step, FdStep::GetStream(1));
    for r in [0, 0, 0] {
        c.on_result(r, &both);
    }
    assert_eq!(c.state.chns[1].saved, 1);
    assert_eq!(c.step, FdStep::Select);
    let only0 = vec![true, false, false, false];
    for _ in 1..50 {
        c.on_result(1, &only0);
        assert_eq!(c.step, FdStep::GetStream(0));
        for r in [0, 0, 0] {
            c.on_result(r, &only0);
        }
    }
    assert_eq!(c.state.chns[0].saved, 50);
    assert_eq!(c.step, FdStep::StopRecv(0));
    for (r, next) in [(0, FdStep::Close(0)), (0, FdStep::StopRecv(1)), (0, FdStep::Close(1)), (0, FdStep::Done)] {
        c.on_result(r, &only0);
        assert_eq!(c.step, next);
    }
}

#[test]
fn fd_capture_failed_saves() {
    let t = video_and_jpeg_table();
    let both = vec![true, true, false, false];
    let mut c = FdCapture::start(&t, 200);
    for r in [3, 7, 0, 8, 0, 1, 0] {
        c.on_result(r, &both);
    }
    assert_eq!(c.step, FdStep::Save(0));
    c.on_result(-1, &both);
    assert_eq!(c.step, FdStep::CloseAfterFailure(0));
    c.on_result(0, &both);
    assert_eq!(c.step, FdStep::Failed(-1));

    let mut c = FdCapture::start(&t, 200);
    let only1 = vec![false, true, false, false];
    for r in [3, 7, 0, 8, 0, 1, 0] {
        c.on_result(r, &only1);
    }
    assert_eq!(c.step, FdStep::Save(1));
    c.on_result(-1, &only1);
    assert_eq!(c.step, FdStep::Failed(-1));
}

#[test]
fn fd_capture_wait_failure() {
    let t = video_and_jpeg_table();
    let no = vec![false; 4];
    let mut c = FdCapture::start(&t, 200);
    for r in [3, 7, 0, 8, 0] {
        c.on_result(r, &no);
    }
    c.on_result(-4, &no);
    assert_eq!(c.step, FdStep::Failed(-4));
}
