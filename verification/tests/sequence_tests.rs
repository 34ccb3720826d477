use imp_sample::config::{chn_table, sensor_config, ChnConf, IMPCell, IMPDeviceID, SensorModel};
use imp_sample::encoder::{encoder_chn_plan, IMPEncoderRcMode};
use imp_sample::runner::{replay, Action, RunStatus, Runner};
use imp_sample::sequence::{
    osd_show_calls, osd_start_plan, phase_plan, ret_verify, sample_encoder_exit, sample_encoder_init,
    sample_framesource_exit, sample_framesource_init, sample_framesource_streamoff,
    sample_framesource_streamon, sample_osd_exit, sample_osd_init, sample_system_exit,
    sample_system_init, Check, ChnPhase, Guard, OnFail, Op, Step,
};

fn ops(p: &[Step]) -> Vec<Op> {
    p.iter().map(|s| s.op).collect()
}

fn table() -> Vec<ChnConf> {
    let mut t = chn_table(&sensor_config(SensorModel::GC2053));
    t[2].enable = true;
    t
}

#[test]
fn ret_verify_rule() {
    assert_eq!(ret_verify(-5), Err(-5));
    assert_eq!(ret_verify(0), Ok(()));
    assert_eq!(ret_verify(3), Ok(()));
}

#[test]
fn system_start_up_order() {
    let p = sample_system_init(0);
    assert_eq!(
        ops(&p),
        vec![
            Op::OsdSetPoolSize(524288),
            Op::IspSetOsdPoolSize(524288),
            Op::IspOpen,
            Op::IspAddSensor,
            Op::IspEnableSensor,
            Op::SystemInit,
            Op::IspEnableTuning,
            Op::IspSetContrast(128),
            Op::IspSetSharpness(128),
            Op::IspSetSaturation(128),
            Op::IspSetBrightness(128),
            Op::IspSetRunningModeDay,
        ]
    );
    assert_eq!(p[0].check, Check::Ignore);
    assert_eq!(p[2].check, Check::Negative);
    assert_eq!(p[7].check, Check::Ignore);
    assert_eq!(ops(&sample_system_init(1))[0..2], [Op::OsdSetPoolSize(524288), Op::IspOpen]);
    assert_eq!(ops(&sample_system_init(2))[0..2], [Op::IspSetOsdPoolSize(524288), Op::IspOpen]);
    assert_eq!(sample_system_init(3).len(), 12);
}

#[test]
fn system_shut_down_order() {
    let p = sample_system_exit();
    assert_eq!(ops(&p), vec![Op::SystemExit, Op::IspDisableSensor, Op::IspDelSensor, Op::IspDisableTuning, Op::IspClose]);
    assert_eq!(p[4].check, Check::NonZero);
}

#[test]
fn streaming_stops_where_it_started() {
    let t = table();
    assert_eq!(ops(&sample_framesource_streamon(&t)), vec![Op::FsEnableChn(0), Op::FsEnableChn(2)]);
    assert_eq!(ops(&sample_framesource_streamoff(&t)), vec![Op::FsDisableChn(0), Op::FsDisableChn(2)]);
    assert_eq!(
        ops(&sample_framesource_init(&t)),
        vec![
            Op::FsCreateChn { index: 0, slot: 0 },
            Op::FsSetChnAttr { index: 0, slot: 0 },
            Op::FsCreateChn { index: 2, slot: 2 },
            Op::FsSetChnAttr { index: 2, slot: 2 },
        ]
    );
    assert_eq!(ops(&sample_framesource_exit(&t)), vec![Op::FsDestroyChn(0), Op::FsDestroyChn(2)]);
    assert_eq!(ops(&phase_plan(ChnPhase::EncGroupCreate, &t)), vec![Op::EncCreateGroup(0), Op::EncCreateGroup(2)]);
    assert_eq!(ops(&phase_plan(ChnPhase::EncGroupDestroy, &t)), vec![Op::EncDestroyGroup(0), Op::EncDestroyGroup(2)]);
}

#[test]
fn encoder_stages() {
    let t = table();
    let p = sample_encoder_init(&t, IMPEncoderRcMode::ENC_RC_MODE_CBR, 0);
    let plan0 = encoder_chn_plan(&t[0], IMPEncoderRcMode::ENC_RC_MODE_CBR, 0);
    assert_eq!(p.len(), 4);
    assert_eq!(p[0].op, Op::EncCreateChn(plan0));
    assert_eq!(p[1].op, Op::EncRegisterChn { group: 0, chn_num: 0 });
    assert_eq!(p[3].op, Op::EncRegisterChn { group: 2, chn_num: 2 });
    let e = sample_encoder_exit(&t);
    assert_eq!(ops(&e), vec![
        Op::EncQuery(0), Op::EncUnRegisterChn(0), Op::EncDestroyChn(0),
        Op::EncQuery(2), Op::EncUnRegisterChn(2), Op::EncDestroyChn(2),
    ]);
    assert_eq!(e[1].guard, Guard::IfRegistered);
    assert_eq!(e[0].guard, Guard::Always);
}

#[test]
fn osd_set_up_and_take_down() {
    let p = sample_osd_init(0, 1920, 1080);
    assert_eq!(p.len(), 22);
    assert_eq!(p[0].op, Op::OsdAllocHandles);
    assert_eq!(p[1].check, Check::Negative);
    assert_eq!(p[2].check, Check::Ignore);
    assert_eq!(p[21].op, Op::OsdStart(0));
    let e = sample_osd_exit(0);
    assert_eq!(e.len(), 14);
    assert_eq!(e[12].op, Op::OsdDestroyGroup(0));
    assert_eq!(e[12].check, Check::Negative);
    assert!(e.iter().filter(|s| s.check != Check::Ignore).count() == 1);
}

#[test]
fn whole_sample_binds_and_unbinds() {
    let mut t = chn_table(&sensor_config(SensorModel::GC2053));
    t[1].enable = true;
    let p = osd_start_plan(&mut t, 0, IMPEncoderRcMode::ENC_RC_MODE_CBR, 0, false, 1920, 1080);
    assert!(t[0].enable && !t[1].enable);
    let osd = IMPCell { deviceID: IMPDeviceID::DEV_ID_OSD, groupID: 0, outputID: 0 };
    let o = ops(&p);
    let bind_a = o.iter().position(|x| *x == Op::Bind(t[0].framesource_chn, osd)).unwrap();
    let bind_b = o.iter().position(|x| *x == Op::Bind(osd, t[0].imp_encoder)).unwrap();
    let unbind_b = o.iter().position(|x| *x == Op::UnBind(osd, t[0].imp_encoder)).unwrap();
    let unbind_a = o.iter().position(|x| *x == Op::UnBind(t[0].framesource_chn, osd)).unwrap();
    assert!(bind_a < bind_b && bind_b < unbind_b && unbind_b < unbind_a);
    assert_eq!(o[0], Op::OsdSetPoolSize(524288));
    assert_eq!(p[0].on_fail, OnFail::Abort);
    assert_eq!(*o.last().unwrap(), Op::IspClose);
    let cap = o.iter().position(|x| *x == Op::Capture { by_fd: false }).unwrap();
    assert_eq!(p[cap].on_fail, OnFail::Abort);
    assert_eq!(p[bind_a].on_fail, OnFail::Return);
    assert!(!o.contains(&Op::FsEnableChn(1)));
}

#[test]
fn runner_stops_at_first_failure() {
    let mut r = Runner::new(sample_system_exit());
    assert_eq!(r.next(), Action::Call(Op::SystemExit));
    r.report(-9, false);
    assert_eq!(r.next(), Action::Call(Op::IspDisableSensor));
    r.report(0, false);
    assert_eq!(r.next(), Action::Call(Op::IspDelSensor));
    r.report(-3, false);
    assert_eq!(r.status, RunStatus::Failed(-3));
    assert_eq!(r.next(), Action::Finished(RunStatus::Failed(-3)));
}

#[test]
fn nonzero_check_fails_with_minus_one() {
    let mut calls = Vec::new();
    assert_eq!(
        replay(sample_system_exit(), &vec![(0, false), (0, false), (0, false), (0, false), (2, false)], &mut calls),
        RunStatus::Failed(-1)
    );
    assert_eq!(calls.last(), Some(&Op::IspClose));
    assert_eq!(replay(sample_system_exit(), &vec![(0, false); 5], &mut Vec::new()), RunStatus::Done);
    let mut calls = Vec::new();
    assert_eq!(replay(sample_system_exit(), &vec![(0, false); 3], &mut calls), RunStatus::Running);
    assert_eq!(calls, vec![Op::SystemExit, Op::IspDisableSensor, Op::IspDelSensor]);
}

#[test]
fn unregistered_channels_are_not_released() {
    let t = table();
    let e = sample_encoder_exit(&t);
    let mut r = Runner::new(e);
    assert_eq!(r.next(), Action::Call(Op::EncQuery(0)));
    r.report(0, false);
    assert_eq!(r.next(), Action::Call(Op::EncQuery(2)));
    r.report(0, true);
    assert_eq!(r.next(), Action::Call(Op::EncUnRegisterChn(2)));
    r.report(0, false);
    assert_eq!(r.next(), Action::Call(Op::EncDestroyChn(2)));
    r.report(0, false);
    assert_eq!(r.next(), Action::Finished(RunStatus::Done));
}

#[test]
fn region_handles_are_recorded() {
    let mut r = Runner::new(sample_osd_init(0, 1920, 1080));
    assert_eq!(r.next(), Action::Call(Op::OsdAllocHandles));
    r.report(0, false);
    for (slot, h) in [(0usize, 11), (1, 12), (2, 13), (3, 14)] {
        assert_eq!(r.next(), Action::Call(Op::OsdCreateRgn(slot)));
        r.report(h, false);
    }
    assert_eq!((r.handle(0), r.handle(1), r.handle(2), r.handle(3)), (11, 12, 13, 14));
}

#[test]
fn aborting_stage_failure() {
    let mut t = chn_table(&sensor_config(SensorModel::GC2053));
    let p = osd_start_plan(&mut t, 0, IMPEncoderRcMode::ENC_RC_MODE_CBR, 0, true, 1920, 1080);
    let mut outs = vec![(0, false); 4];
    outs.push((-7, false));
    let mut calls = Vec::new();
    assert_eq!(replay(p, &outs, &mut calls), RunStatus::Aborted(-7));
    assert_eq!(calls.len(), 5);
}

#[test]
fn encoder_exit_undoes_init() {
    let mut t = table();
    t[2].payload_type = imp_sample::config::IMPPayloadType::PT_JPEG;
    let init = sample_encoder_init(&t, IMPEncoderRcMode::ENC_RC_MODE_CBR, 0);
    let created: Vec<i32> = init
        .iter()
        .filter_map(|s| match s.op {
            Op::EncCreateChn(plan) => Some(plan.chn_num),
            _ => None,
        })
        .collect();
    assert_eq!(created, vec![0, 5]);
    let mut calls = Vec::new();
    let outs = vec![(0, true), (3, true), (0, true), (9, true), (1, true), (0, true)];
    assert_eq!(replay(sample_encoder_exit(&t), &outs, &mut calls), RunStatus::Done);
    assert_eq!(
        calls,
        vec![
            Op::EncQuery(0), Op::EncUnRegisterChn(0), Op::EncDestroyChn(0),
            Op::EncQuery(5), Op::EncUnRegisterChn(5), Op::EncDestroyChn(5),
        ]
    );
}

#[test]
fn osd_is_shown_region_by_region() {
    assert_eq!(
        osd_show_calls(),
        vec![
            Op::OsdShowRgn { slot: 0, grp: 0, show: 1 },
            Op::OsdShowRgn { slot: 1, grp: 0, show: 1 },
            Op::OsdShowRgn { slot: 2, grp: 0, show: 1 },
            Op::OsdShowRgn { slot: 3, grp: 0, show: 1 },
        ]
    );
}
