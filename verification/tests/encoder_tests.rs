use imp_sample::config::{chn_table, sensor_config, ChnConf, IMPPayloadType, SensorModel};
use imp_sample::encoder::{
    buf_size, encoder_chn_num, encoder_chn_plan, rc_attr, IMPEncoderRcMode, IMPSkipType, RcModeParams,
};

fn main_channel() -> ChnConf {
    chn_table(&sensor_config(SensorModel::GC2053))[0]
}

#[test]
fn buffer_size_by_height() {
    assert_eq!(buf_size(1920, 1080), 1920 * 1080 / 2);
    assert_eq!(buf_size(640, 360), 640 * 360 * 3 / 4);
    assert_eq!(buf_size(2592, 1920), 2592 * 1920 * 3 / 10);
    assert_eq!(buf_size(2048, 1536), 2048 * 1536 * 3 / 8);
    assert_eq!(buf_size(1280, 1519), 1280 * 1519 / 2);
    // machine division rounds toward zero
    assert_eq!(buf_size(-7, 10), -52);
}

#[test]
fn jpeg_channels_are_offset_by_three() {
    let mut c = main_channel();
    assert_eq!(encoder_chn_num(&c), 0);
    c.payload_type = IMPPayloadType::PT_JPEG;
    c.index = 1;
    assert_eq!(encoder_chn_num(&c), 4);
}

#[test]
fn main_channel_h264_cbr() {
    let p = encoder_chn_plan(&main_channel(), IMPEncoderRcMode::ENC_RC_MODE_CBR, 0);
    assert_eq!(p.chn_num, 0);
    assert_eq!(p.attr.encAttr.enType, IMPPayloadType::PT_H264);
    assert_eq!(p.attr.encAttr.bufSize, 1036800);
    assert_eq!(p.attr.encAttr.profile, 1);
    assert_eq!((p.attr.encAttr.picWidth, p.attr.encAttr.picHeight), (1920, 1080));
    assert!(!p.attr.bEnableIvdc);
    let rc = p.attr.rcAttr.unwrap();
    assert_eq!((rc.frmRateNum, rc.frmRateDen, rc.maxGop), (25, 1, 50));
    assert_eq!(rc.rcMode, Some(IMPEncoderRcMode::ENC_RC_MODE_CBR));
    assert_eq!(
        rc.params,
        RcModeParams::H264Cbr {
            outBitRate: 1000,
            maxQp: 45,
            minQp: 15,
            iBiasLvl: 0,
            frmQPStep: 3,
            gopQPStep: 15,
            adaptiveMode: false,
            gopRelation: false,
        }
    );
    let hs = rc.attrHSkip;
    assert_eq!(hs.hSkipAttr.skipType, IMPSkipType::IMP_Encoder_STYPE_N1X);
    assert_eq!((hs.hSkipAttr.m, hs.hSkipAttr.n, hs.hSkipAttr.maxSameSceneCnt), (0, 0, 0));
    assert_eq!((hs.hSkipAttr.bEnableScenecut, hs.hSkipAttr.bBlackEnhance), (0, 0));
    assert_eq!(hs.maxHSkipType, IMPSkipType::IMP_Encoder_STYPE_N1X);
}

#[test]
fn direct_switch_on_channel_zero() {
    let p = encoder_chn_plan(&main_channel(), IMPEncoderRcMode::ENC_RC_MODE_CBR, 1);
    assert!(p.attr.bEnableIvdc);
    let mut c = main_channel();
    c.index = 2;
    let p = encoder_chn_plan(&c, IMPEncoderRcMode::ENC_RC_MODE_CBR, 1);
    assert!(!p.attr.bEnableIvdc);
}

#[test]
fn jpeg_channel_has_no_rate_control() {
    let mut c = main_channel();
    c.payload_type = IMPPayloadType::PT_JPEG;
    let p = encoder_chn_plan(&c, IMPEncoderRcMode::ENC_RC_MODE_CBR, 0);
    assert_eq!(p.chn_num, 3);
    assert!(p.attr.rcAttr.is_none());
    assert_eq!(p.attr.encAttr.enType, IMPPayloadType::PT_JPEG);
}

#[test]
fn h265_cbr_leaves_mode_unset() {
    let mut c = main_channel();
    c.payload_type = IMPPayloadType::PT_H265;
    let rc = encoder_chn_plan(&c, IMPEncoderRcMode::ENC_RC_MODE_CBR, 0).attr.rcAttr.unwrap();
    assert_eq!(rc.rcMode, None);
    assert_eq!(
        rc.params,
        RcModeParams::H265Cbr {
            outBitRate: 1000,
            maxQp: 45,
            minQp: 15,
            staticTime: 2,
            iBiasLvl: 0,
            frmQPStep: 3,
            gopQPStep: 15,
            flucLvl: 2,
        }
    );
}

#[test]
fn smart_mode_skips_frames() {
    let rc = rc_attr(false, 25, 1, IMPEncoderRcMode::ENC_RC_MODE_SMART);
    assert_eq!(rc.maxGop, 50);
    assert_eq!(rc.rcMode, Some(IMPEncoderRcMode::ENC_RC_MODE_SMART));
    assert_eq!((rc.attrHSkip.hSkipAttr.m, rc.attrHSkip.hSkipAttr.n, rc.attrHSkip.hSkipAttr.maxSameSceneCnt), (49, 1, 6));
    assert!(matches!(rc.params, RcModeParams::H264Smart { maxBitRate: 1000, changePos: 80, qualityLvl: 2, .. }));
}

#[test]
fn vbr_and_fixed_qp() {
    let rc = rc_attr(true, 30, 2, IMPEncoderRcMode::ENC_RC_MODE_VBR);
    assert_eq!(rc.maxGop, 30);
    assert_eq!(rc.rcMode, Some(IMPEncoderRcMode::ENC_RC_MODE_VBR));
    assert!(matches!(rc.params, RcModeParams::H265Vbr { maxQp: 45, minQp: 15, flucLvl: 2, .. }));
    let rc = rc_attr(false, 25, 1, IMPEncoderRcMode::ENC_RC_MODE_FIXQP);
    assert_eq!(rc.params, RcModeParams::H264FixQp { qp: 35 });
    assert_eq!(rc.rcMode, Some(IMPEncoderRcMode::ENC_RC_MODE_FIXQP));
    let rc = rc_attr(true, 25, 1, IMPEncoderRcMode::ENC_RC_MODE_FIXQP);
    assert_eq!(rc.params, RcModeParams::H265FixQp { qp: 35 });
}
