use vstd::prelude::*;
use crate::config::{ChnConf, IMPPayloadType};

verus! {

/// Target bit rate, in kbit/s, of every rate-controlled stream.
pub const BITRATE_720P_Kbs: u32 = 1000;

/// Rate-control modes of the encoder.
#[derive(Clone, Copy, Debug, PartialEq, Eq, Structural)]
pub enum IMPEncoderRcMode {
    ENC_RC_MODE_FIXQP,
    ENC_RC_MODE_CBR,
    ENC_RC_MODE_VBR,
    ENC_RC_MODE_SMART,
}

/// Frame-skip patterns of the encoder.
#[derive(Clone, Copy, Debug, PartialEq, Eq, Structural)]
pub enum IMPSkipType {
    IMP_Encoder_STYPE_N1X,
    IMP_Encoder_STYPE_N2X,
    IMP_Encoder_STYPE_N4X,
    IMP_Encoder_STYPE_HN1_FALSE,
    IMP_Encoder_STYPE_HN1_TRUE,
    IMP_Encoder_STYPE_H1M_FALSE,
    IMP_Encoder_STYPE_H1M_TRUE,
}

/// The parameters of one rate-control mode, by codec.
#[derive(Clone, Copy, Debug, PartialEq, Eq, Structural)]
pub enum RcModeParams {
    H264Cbr {
        outBitRate: u32,
        maxQp: i16,
        minQp: i16,
        iBiasLvl: i16,
        frmQPStep: i16,
        gopQPStep: i16,
        adaptiveMode: bool,
        gopRelation: bool,
    },
    H264Vbr {
        maxQp: i16,
        minQp: i16,
        staticTime: u16,
        maxBitRate: u32,
        iBiasLvl: i16,
        changePos: u16,
        qualityLvl: u8,
        frmQPStep: i16,
        gopQPStep: i16,
        gopRelation: bool,
    },
    H264Smart {
        maxQp: i16,
        minQp: i16,
        staticTime: u16,
        maxBitRate: u32,
        iBiasLvl: i16,
        changePos: u16,
        qualityLvl: u8,
        frmQPStep: i16,
        gopQPStep: i16,
        gopRelation: bool,
    },
    H264FixQp { qp: i16 },
    H265Cbr {
        outBitRate: u32,
        maxQp: i16,
        minQp: i16,
        staticTime: u16,
        iBiasLvl: i16,
        frmQPStep: i16,
        gopQPStep: i16,
        flucLvl: u8,
    },
    H265Vbr {
        maxQp: i16,
        minQp: i16,
        staticTime: u16,
        maxBitRate: u32,
        iBiasLvl: i16,
        changePos: u16,
        qualityLvl: u8,
        frmQPStep: i16,
        gopQPStep: i16,
        flucLvl: u8,
    },
    H265Smart {
        maxQp: i16,
        minQp: i16,
        staticTime: u16,
        maxBitRate: u32,
        iBiasLvl: i16,
        changePos: u16,
        qualityLvl: u8,
        frmQPStep: i16,
        gopQPStep: i16,
        flucLvl: u8,
    },
    H265FixQp { qp: i16 },
}

/// Frame-skip settings of a stream.
#[derive(Clone, Copy, Debug, PartialEq, Eq, Structural)]
pub struct IMPEncoderHSkipAttr {
    pub skipType: IMPSkipType,
    pub m: i32,
    pub n: i32,
    pub maxSameSceneCnt: i32,
    pub bEnableScenecut: i32,
    pub bBlackEnhance: i32,
}

/// Frame-skip settings and the largest skip pattern allowed.
#[derive(Clone, Copy, Debug, PartialEq, Eq, Structural)]
pub struct IMPEncoderAttrHSkip {
    pub hSkipAttr: IMPEncoderHSkipAttr,
    pub maxHSkipType: IMPSkipType,
}

/// Rate control of a video stream. `rcMode` is `None` where the mode
/// field is left as the zero-initialised attribute block had it.
#[derive(Clone, Copy, Debug, PartialEq, Eq, Structural)]
pub struct IMPEncoderRcAttr {
    pub frmRateNum: u32,
    pub frmRateDen: u32,
    pub maxGop: u32,
    pub rcMode: Option<IMPEncoderRcMode>,
    pub params: RcModeParams,
    pub attrHSkip: IMPEncoderAttrHSkip,
}

/// Picture and buffer settings of an encoder channel.
#[derive(Clone, Copy, Debug, PartialEq, Eq, Structural)]
pub struct IMPEncoderAttr {
    pub enType: IMPPayloadType,
    pub bufSize: u32,
    pub profile: u32,
    pub picWidth: u32,
    pub picHeight: u32,
}

/// The attributes an encoder channel is created with. JPEG channels carry
/// no rate control (`rcAttr` is `None`).
#[derive(Clone, Copy, Debug, PartialEq, Eq, Structural)]
pub struct IMPEncoderCHNAttr {
    pub encAttr: IMPEncoderAttr,
    pub rcAttr: Option<IMPEncoderRcAttr>,
    pub bEnableIvdc: bool,
}

/// The encoder channel of a stream channel and its attributes.
#[derive(Clone, Copy, Debug, PartialEq, Eq, Structural)]
pub struct EncoderChnPlan {
    pub chn_num: i32,
    pub attr: IMPEncoderCHNAttr,
}

/// Division that rounds toward zero, as machine integers divide.
pub open spec fn tdiv(a: int, b: int) -> int {
    if a >= 0 {
        a / b
    } else {
        -((-a) / b)
    }
}

/// JPEG channels are encoded on channel `3 + index`; video channels on
/// channel `index`.
pub open spec fn spec_encoder_chn_num(chn: ChnConf) -> int {
    if chn.payload_type == IMPPayloadType::PT_JPEG {
        3 + chn.index
    } else {
        chn.index as int
    }
}

/// A channel number that fits a machine integer.
pub open spec fn encoder_chn_num_fits(chn: ChnConf) -> bool {
    chn.payload_type == IMPPayloadType::PT_JPEG ==> chn.index <= i32::MAX - 3
}

/// The encoder channel number of a stream channel.
pub fn encoder_chn_num(chn: &ChnConf) -> (n: i32)
    requires
        encoder_chn_num_fits(*chn),
    ensures
        n == spec_encoder_chn_num(*chn),
{
    if chn.payload_type == IMPPayloadType::PT_JPEG {
        3 + chn.index
    } else {
        chn.index
    }
}

/// The stream buffer size for a `w` x `h` picture: 3/10 of the pixel count
/// from height 1920 on, 3/8 from 1520 on, 1/2 from 1080 on, 3/4 below,
/// computed on machine integers (rounding toward zero).
pub open spec fn spec_buf_size_i32(w: int, h: int) -> int {
    if h >= 1920 {
        tdiv(w * h * 3, 10)
    } else if h >= 1520 {
        tdiv(w * h * 3, 8)
    } else if h >= 1080 {
        tdiv(w * h, 2)
    } else {
        tdiv(w * h * 3, 4)
    }
}

/// The products that the buffer size is computed from fit a machine integer.
pub open spec fn buf_size_fits(w: int, h: int) -> bool {
    if h >= 1080 && h < 1520 {
        i32::MIN <= w * h <= i32::MAX
    } else {
        i32::MIN <= w * h * 3 <= i32::MAX
    }
}

/// The stream buffer size of a `w` x `h` picture.
pub fn buf_size(w: i32, h: i32) -> (r: i32)
    requires
        buf_size_fits(w as int, h as int),
    ensures
        r == spec_buf_size_i32(w as int, h as int),
{
    if h >= 1080 && h < 1520 {
        w * h / 2
    } else {
        assert(i32::MIN <= w * h <= i32::MAX) by (nonlinear_arith)
            requires
                i32::MIN <= w * h * 3 <= i32::MAX,
        ;
        let p = w * h * 3;
        if h >= 1920 {
            p / 10
        } else if h >= 1520 {
            p / 8
        } else {
            p / 4
        }
    }
}

/// The stream buffer of a picture with `w` x `h` pixels, by its height:
/// below 1080 rows it holds three quarters of a byte per pixel, from 1080
/// rows on half a byte, from 1520 rows on three eighths, from 1920 rows on
/// three tenths, each rounded down.
pub proof fn lemma_buf_size_tiers(w: int, h: int)
    requires
        w >= 0,
        h >= 0,
    ensures
        ({
            let size = spec_buf_size_i32(w, h);
            let px = w * h;
            &&& h < 1080 ==> 4 * size <= 3 * px < 4 * size + 4
            &&& 1080 <= h < 1520 ==> 2 * size <= px < 2 * size + 2
            &&& 1520 <= h < 1920 ==> 8 * size <= 3 * px < 8 * size + 8
            &&& 1920 <= h ==> 10 * size <= 3 * px < 10 * size + 10
        }),
{
    assert(w * h >= 0) by (nonlinear_arith)
        requires
            w >= 0,
            h >= 0,
    ;
    assert(w * h * 3 == 3 * (w * h)) by (nonlinear_arith);
}

/// The rate-control mode field: H.265 in constant bit rate leaves it unset.
pub open spec fn spec_rc_mode(pt: IMPPayloadType, method: IMPEncoderRcMode) -> Option<IMPEncoderRcMode> {
    if pt == IMPPayloadType::PT_H265 && method == IMPEncoderRcMode::ENC_RC_MODE_CBR {
        None
    } else {
        Some(method)
    }
}

/// The rate-control parameters of a video codec (`h265` chooses H.265
/// over H.264) in a rate-control mode.
pub open spec fn spec_rc_params(h265: bool, method: IMPEncoderRcMode) -> RcModeParams {
    match method {
        IMPEncoderRcMode::ENC_RC_MODE_CBR => if !h265 {
            RcModeParams::H264Cbr {
                outBitRate: BITRATE_720P_Kbs,
                maxQp: 45,
                minQp: 15,
                iBiasLvl: 0,
                frmQPStep: 3,
                gopQPStep: 15,
                adaptiveMode: false,
                gopRelation: false,
            }
        } else {
            RcModeParams::H265Cbr {
                outBitRate: BITRATE_720P_Kbs,
                maxQp: 45,
                minQp: 15,
                staticTime: 2,
                iBiasLvl: 0,
                frmQPStep: 3,
                gopQPStep: 15,
                flucLvl: 2,
            }
        },
        IMPEncoderRcMode::ENC_RC_MODE_VBR => if !h265 {
            RcModeParams::H264Vbr {
                maxQp: 45,
                minQp: 15,
                staticTime: 2,
                maxBitRate: BITRATE_720P_Kbs,
                iBiasLvl: 0,
                changePos: 80,
                qualityLvl: 2,
                frmQPStep: 3,
                gopQPStep: 15,
                gopRelation: false,
            }
        } else {
            RcModeParams::H265Vbr {
                maxQp: 45,
                minQp: 15,
                staticTime: 2,
                maxBitRate: BITRATE_720P_Kbs,
                iBiasLvl: 0,
                changePos: 80,
                qualityLvl: 2,
                frmQPStep: 3,
                gopQPStep: 15,
                flucLvl: 2,
            }
        },
        IMPEncoderRcMode::ENC_RC_MODE_SMART => if !h265 {
            RcModeParams::H264Smart {
                maxQp: 45,
                minQp: 15,
                staticTime: 2,
                maxBitRate: BITRATE_720P_Kbs,
                iBiasLvl: 0,
                changePos: 80,
                qualityLvl: 2,
                frmQPStep: 3,
                gopQPStep: 15,
                gopRelation: false,
            }
        } else {
            RcModeParams::H265Smart {
                maxQp: 45,
                minQp: 15,
                staticTime: 2,
                maxBitRate: BITRATE_720P_Kbs,
                iBiasLvl: 0,
                changePos: 80,
                qualityLvl: 2,
                frmQPStep: 3,
                gopQPStep: 15,
                flucLvl: 2,
            }
        },
        IMPEncoderRcMode::ENC_RC_MODE_FIXQP => if !h265 {
            RcModeParams::H264FixQp { qp: 35 }
        } else {
            RcModeParams::H265FixQp { qp: 35 }
        },
    }
}

/// Frame skipping: pattern N1X everywhere, no scene cut or black
/// enhancement; in smart mode one skip every `max_gop - 1` frames
/// (`m` = max_gop - 1, `n` = 1) and up to 6 frames of the same scene,
/// otherwise none.
pub open spec fn spec_hskip(method: IMPEncoderRcMode, max_gop: u32) -> IMPEncoderAttrHSkip {
    let smart = method == IMPEncoderRcMode::ENC_RC_MODE_SMART;
    IMPEncoderAttrHSkip {
        hSkipAttr: IMPEncoderHSkipAttr {
            skipType: IMPSkipType::IMP_Encoder_STYPE_N1X,
            m: if smart { (max_gop - 1) as u32 as i32 } else { 0 },
            n: if smart { 1 } else { 0 },
            maxSameSceneCnt: if smart { 6 } else { 0 },
            bEnableScenecut: 0,
            bBlackEnhance: 0,
        },
        maxHSkipType: IMPSkipType::IMP_Encoder_STYPE_N1X,
    }
}

/// The rate-control parameters of a video codec in a mode.
pub fn rc_params(h265: bool, method: IMPEncoderRcMode) -> (p: RcModeParams)
    ensures
        p == spec_rc_params(h265, method),
{
    match method {
        IMPEncoderRcMode::ENC_RC_MODE_CBR => if !h265 {
            RcModeParams::H264Cbr {
                outBitRate: BITRATE_720P_Kbs,
                maxQp: 45,
                minQp: 15,
                iBiasLvl: 0,
                frmQPStep: 3,
                gopQPStep: 15,
                adaptiveMode: false,
                gopRelation: false,
            }
        } else {
            RcModeParams::H265Cbr {
                outBitRate: BITRATE_720P_Kbs,
                maxQp: 45,
                minQp: 15,
                staticTime: 2,
                iBiasLvl: 0,
                frmQPStep: 3,
                gopQPStep: 15,
                flucLvl: 2,
            }
        },
        IMPEncoderRcMode::ENC_RC_MODE_VBR => if !h265 {
            RcModeParams::H264Vbr {
                maxQp: 45,
                minQp: 15,
                staticTime: 2,
                maxBitRate: BITRATE_720P_Kbs,
                iBiasLvl: 0,
                changePos: 80,
                qualityLvl: 2,
                frmQPStep: 3,
                gopQPStep: 15,
                gopRelation: false,
            }
        } else {
            RcModeParams::H265Vbr {
                maxQp: 45,
                minQp: 15,
                staticTime: 2,
                maxBitRate: BITRATE_720P_Kbs,
                iBiasLvl: 0,
                changePos: 80,
                qualityLvl: 2,
                frmQPStep: 3,
                gopQPStep: 15,
                flucLvl: 2,
            }
        },
        IMPEncoderRcMode::ENC_RC_MODE_SMART => if !h265 {
            RcModeParams::H264Smart {
                maxQp: 45,
                minQp: 15,
                staticTime: 2,
                maxBitRate: BITRATE_720P_Kbs,
                iBiasLvl: 0,
                changePos: 80,
                qualityLvl: 2,
                frmQPStep: 3,
                gopQPStep: 15,
                gopRelation: false,
            }
        } else {
            RcModeParams::H265Smart {
                maxQp: 45,
                minQp: 15,
                staticTime: 2,
                maxBitRate: BITRATE_720P_Kbs,
                iBiasLvl: 0,
                changePos: 80,
                qualityLvl: 2,
                frmQPStep: 3,
                gopQPStep: 15,
                flucLvl: 2,
            }
        },
        IMPEncoderRcMode::ENC_RC_MODE_FIXQP => if !h265 {
            RcModeParams::H264FixQp { qp: 35 }
        } else {
            RcModeParams::H265FixQp { qp: 35 }
        },
    }
}

/// The group of pictures spans two seconds: twice the frame rate
/// numerator over its denominator, both taken as unsigned.
pub open spec fn spec_max_gop(num: i32, den: i32) -> int {
    (2 * (num as u32)) / (den as u32) as int
}

/// The frame rate of a video channel admits a group-of-pictures length:
/// twice the numerator fits, the denominator is not zero, and smart rate
/// control has a group of at least one frame.
pub open spec fn rc_fits(num: i32, den: i32, method: IMPEncoderRcMode) -> bool {
    &&& 2 * (num as u32) <= u32::MAX
    &&& (den as u32) != 0
    &&& method == IMPEncoderRcMode::ENC_RC_MODE_SMART ==> spec_max_gop(num, den) >= 1
}

/// The rate control of a video stream with frame rate `num`/`den`.
pub open spec fn spec_rc_attr(h265: bool, num: i32, den: i32, method: IMPEncoderRcMode) -> IMPEncoderRcAttr {
    let gop = spec_max_gop(num, den) as u32;
    IMPEncoderRcAttr {
        frmRateNum: num as u32,
        frmRateDen: den as u32,
        maxGop: gop,
        rcMode: spec_rc_mode(
            if h265 { IMPPayloadType::PT_H265 } else { IMPPayloadType::PT_H264 },
            method,
        ),
        params: spec_rc_params(h265, method),
        attrHSkip: spec_hskip(method, gop),
    }
}

/// The rate control of a video stream.
pub fn rc_attr(h265: bool, num: i32, den: i32, method: IMPEncoderRcMode) -> (r: IMPEncoderRcAttr)
    requires
        rc_fits(num, den, method),
    ensures
        r == spec_rc_attr(h265, num, den, method),
{
    let frm_num = num as u32;
    let frm_den = den as u32;
    let gop = 2 * frm_num / frm_den;
    let smart = method == IMPEncoderRcMode::ENC_RC_MODE_SMART;
    let m: i32 = if smart { (gop - 1) as i32 } else { 0 };
    let mode = if h265 && method == IMPEncoderRcMode::ENC_RC_MODE_CBR {
        None
    } else {
        Some(method)
    };
    IMPEncoderRcAttr {
        frmRateNum: frm_num,
        frmRateDen: frm_den,
        maxGop: gop,
        rcMode: mode,
        params: rc_params(h265, method),
        attrHSkip: IMPEncoderAttrHSkip {
            hSkipAttr: IMPEncoderHSkipAttr {
                skipType: IMPSkipType::IMP_Encoder_STYPE_N1X,
                m: m,
                n: if smart { 1 } else { 0 },
                maxSameSceneCnt: if smart { 6 } else { 0 },
                bEnableScenecut: 0,
                bBlackEnhance: 0,
            },
            maxHSkipType: IMPSkipType::IMP_Encoder_STYPE_N1X,
        },
    }
}

/// A channel whose encoder attributes can be computed without overflow.
pub open spec fn encoder_plan_fits(chn: ChnConf, method: IMPEncoderRcMode) -> bool {
    let a = chn.fs_chn_attr;
    &&& encoder_chn_num_fits(chn)
    &&& buf_size_fits(a.picWidth as int, a.picHeight as int)
    &&& chn.payload_type != IMPPayloadType::PT_JPEG ==> rc_fits(a.outFrmRateNum, a.outFrmRateDen, method)
}

/// The encoder channel of a stream channel: its number, the picture of its
/// frame source with profile 1 and the buffer size for that picture, rate
/// control for H.264 and H.265 (none for JPEG), and direct input on encoder
/// channel 0 exactly when `direct_switch` is 1.
pub open spec fn spec_encoder_chn_plan(chn: ChnConf, method: IMPEncoderRcMode, direct_switch: i32) -> EncoderChnPlan {
    let a = chn.fs_chn_attr;
    let n = spec_encoder_chn_num(chn);
    EncoderChnPlan {
        chn_num: n as i32,
        attr: IMPEncoderCHNAttr {
            encAttr: IMPEncoderAttr {
                enType: chn.payload_type,
                bufSize: spec_buf_size_i32(a.picWidth as int, a.picHeight as int) as i32 as u32,
                profile: 1,
                picWidth: a.picWidth as u32,
                picHeight: a.picHeight as u32,
            },
            rcAttr: if chn.payload_type == IMPPayloadType::PT_JPEG {
                None
            } else {
                Some(spec_rc_attr(
                    chn.payload_type == IMPPayloadType::PT_H265,
                    a.outFrmRateNum,
                    a.outFrmRateDen,
                    method,
                ))
            },
            bEnableIvdc: direct_switch == 1 && n == 0,
        },
    }
}

/// The encoder channel that a stream channel is created as.
pub fn encoder_chn_plan(chn: &ChnConf, method: IMPEncoderRcMode, direct_switch: i32) -> (p: EncoderChnPlan)
    requires
        encoder_plan_fits(*chn, method),
    ensures
        p == spec_encoder_chn_plan(*chn, method, direct_switch),
{
    let a = chn.fs_chn_attr;
    let size = buf_size(a.picWidth, a.picHeight);
    let n = encoder_chn_num(chn);
    let rc = if chn.payload_type == IMPPayloadType::PT_JPEG {
        None
    } else {
        Some(rc_attr(
            chn.payload_type == IMPPayloadType::PT_H265,
            a.outFrmRateNum,
            a.outFrmRateDen,
            method,
        ))
    };
    EncoderChnPlan {
        chn_num: n,
        attr: IMPEncoderCHNAttr {
            encAttr: IMPEncoderAttr {
                enType: chn.payload_type,
                bufSize: size as u32,
                profile: 1,
                picWidth: a.picWidth as u32,
                picHeight: a.picHeight as u32,
            },
            rcAttr: rc,
            bEnableIvdc: direct_switch == 1 && n == 0,
        },
    }
}

} // verus!
