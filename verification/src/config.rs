use vstd::prelude::*;

verus! {

/// Frames per second numerator of every frame-source channel.
pub const SENSOR_FRAME_RATE_NUM: i32 = 25;
/// Frames per second denominator of every frame-source channel.
pub const SENSOR_FRAME_RATE_DEN: i32 = 1;

/// Width in pixels of one timestamp glyph cell.
pub const OSD_REGION_WIDTH: u32 = 16;
/// Height in pixels of one timestamp glyph cell.
pub const OSD_REGION_HEIGHT: u32 = 34;
/// Width of a glyph cell on the secondary stream.
pub const OSD_REGION_WIDTH_SEC: u32 = 8;
/// Height of a glyph cell on the secondary stream.
pub const OSD_REGION_HEIGHT_SEC: u32 = 18;

/// Number of frame-source channels (at least 1, at most 4).
pub const FS_CHN_NUM: usize = 4;

pub const CH0_INDEX: i32 = 0;
pub const CH1_INDEX: i32 = 1;
pub const CH2_INDEX: i32 = 2;
/// The extension channel.
pub const CH3_INDEX: i32 = 3;

/// Pixel formats that the pipeline configures.
#[derive(Clone, Copy, Debug, PartialEq, Eq, Structural)]
pub enum IMPPixelFormat {
    PIX_FMT_YUV420P,
    PIX_FMT_NV12,
    PIX_FMT_RGBA,
    PIX_FMT_BGRA,
    PIX_FMT_HSV,
    PIX_FMT_MONOWHITE,
    PIX_FMT_RGB555LE,
}

/// Physical or extension frame-source channel.
#[derive(Clone, Copy, Debug, PartialEq, Eq, Structural)]
pub enum IMPFSChnType {
    FS_PHY_CHANNEL,
    FS_EXT_CHANNEL,
}

/// Encoded payload of a channel.
#[derive(Clone, Copy, Debug, PartialEq, Eq, Structural)]
pub enum IMPPayloadType {
    PT_JPEG,
    PT_H264,
    PT_H265,
}

/// The numeric code of a payload type, as the vendor enumeration numbers it.
pub open spec fn spec_payload_code(pt: IMPPayloadType) -> i32 {
    match pt {
        IMPPayloadType::PT_JPEG => 0,
        IMPPayloadType::PT_H264 => 1,
        IMPPayloadType::PT_H265 => 2,
    }
}

/// The numeric code of a payload type.
pub fn payload_code(pt: IMPPayloadType) -> (code: i32)
    ensures
        code == spec_payload_code(pt),
{
    match pt {
        IMPPayloadType::PT_JPEG => 0,
        IMPPayloadType::PT_H264 => 1,
        IMPPayloadType::PT_H265 => 2,
    }
}

/// Devices that a pipeline cell can name.
#[derive(Clone, Copy, Debug, PartialEq, Eq, Structural)]
pub enum IMPDeviceID {
    DEV_ID_FS,
    DEV_ID_ENC,
    DEV_ID_DEC,
    DEV_ID_IVS,
    DEV_ID_OSD,
}

/// Control bus of the image sensor.
#[derive(Clone, Copy, Debug, PartialEq, Eq, Structural)]
pub enum IMPSensorControlBusType {
    TX_SENSOR_CONTROL_INTERFACE_I2C,
    TX_SENSOR_CONTROL_INTERFACE_SPI,
}

/// A crop window.
#[derive(Clone, Copy, Debug, PartialEq, Eq, Structural)]
pub struct IMPFSChnCrop {
    pub enable: i32,
    pub top: i32,
    pub left: i32,
    pub width: i32,
    pub height: i32,
}

/// An output scaler.
#[derive(Clone, Copy, Debug, PartialEq, Eq, Structural)]
pub struct IMPFSChnScaler {
    pub enable: i32,
    pub outwidth: i32,
    pub outheight: i32,
}

/// The attributes of a frame-source channel.
#[derive(Clone, Copy, Debug, PartialEq, Eq, Structural)]
pub struct IMPFSChnAttr {
    pub picWidth: i32,
    pub picHeight: i32,
    pub pixFmt: IMPPixelFormat,
    pub crop: IMPFSChnCrop,
    pub scaler: IMPFSChnScaler,
    pub outFrmRateNum: i32,
    pub outFrmRateDen: i32,
    pub nrVBs: i32,
    pub type_: IMPFSChnType,
    pub mirr_enable: i32,
    pub fcrop: IMPFSChnCrop,
}

/// One endpoint of a pipeline binding: a device, a group and an output.
#[derive(Clone, Copy, Debug, PartialEq, Eq, Structural)]
pub struct IMPCell {
    pub deviceID: IMPDeviceID,
    pub groupID: i32,
    pub outputID: i32,
}

/// The configuration of one stream channel.
#[derive(Clone, Copy, Debug, PartialEq, Eq, Structural)]
pub struct ChnConf {
    /// 0 is the main channel, 1 the secondary one.
    pub index: i32,
    /// Whether the channel is in use.
    pub enable: bool,
    pub payload_type: IMPPayloadType,
    pub fs_chn_attr: IMPFSChnAttr,
    pub framesource_chn: IMPCell,
    pub imp_encoder: IMPCell,
}

/// Sizes of the secondary and tertiary streams.
#[derive(Clone, Copy, Debug, PartialEq, Eq, Structural)]
pub struct SensorCommon {
    pub width_second: i32,
    pub height_second: i32,
    pub width_third: i32,
    pub height_third: i32,
}

/// The image sensor on the board and the channels it feeds.
#[derive(Clone, Copy, Debug, PartialEq, Eq)]
pub struct SensorConfig {
    pub name: &'static str,
    pub cubs_type: IMPSensorControlBusType,
    pub i2c_addr: u8,
    pub i2c_adapter_id: u8,
    pub width: i32,
    pub height: i32,
    /// chn0, chn1, chn2, chn3
    pub chn_enabled: [bool; 4],
    pub crop_enabled: usize,
    pub common: SensorCommon,
}

impl SensorCommon {
    /// 640x360 secondary and 1280x720 tertiary streams.
    pub fn new() -> (s: Self)
        ensures
            s.width_second == 640,
            s.height_second == 360,
            s.width_third == 1280,
            s.height_third == 720,
    {
        SensorCommon { width_second: 640, height_second: 360, width_third: 1280, height_third: 720 }
    }
}

impl IMPFSChnCrop {
    /// A disabled, empty crop window.
    pub fn new() -> (c: Self)
        ensures
            c.enable == 0,
            c.top == 0,
            c.left == 0,
            c.width == 0,
            c.height == 0,
    {
        IMPFSChnCrop { enable: 0, top: 0, left: 0, width: 0, height: 0 }
    }
}

impl IMPFSChnScaler {
    /// A disabled scaler with no output size.
    pub fn new() -> (s: Self)
        ensures
            s.enable == 0,
            s.outwidth == 0,
            s.outheight == 0,
    {
        IMPFSChnScaler { enable: 0, outwidth: 0, outheight: 0 }
    }
}

/// The empty crop window as a value.
pub open spec fn spec_empty_crop() -> IMPFSChnCrop {
    IMPFSChnCrop { enable: 0, top: 0, left: 0, width: 0, height: 0 }
}

/// The blank frame-source attributes.
pub open spec fn spec_blank_fs_attr() -> IMPFSChnAttr {
    IMPFSChnAttr {
        picHeight: 0,
        picWidth: 0,
        pixFmt: IMPPixelFormat::PIX_FMT_YUV420P,
        crop: spec_empty_crop(),
        scaler: IMPFSChnScaler { enable: 0, outwidth: 0, outheight: 0 },
        outFrmRateDen: 0,
        outFrmRateNum: 0,
        nrVBs: 0,
        type_: IMPFSChnType::FS_PHY_CHANNEL,
        mirr_enable: 0,
        fcrop: spec_empty_crop(),
    }
}

impl IMPFSChnAttr {
    /// Blank attributes: zero sizes and rates, YUV420P, physical channel,
    /// crop and scaler off.
    pub fn new() -> (a: Self)
        ensures
            a == spec_blank_fs_attr(),
    {
        IMPFSChnAttr {
            picHeight: 0,
            picWidth: 0,
            pixFmt: IMPPixelFormat::PIX_FMT_YUV420P,
            crop: IMPFSChnCrop::new(),
            scaler: IMPFSChnScaler::new(),
            outFrmRateDen: 0,
            outFrmRateNum: 0,
            nrVBs: 0,
            type_: IMPFSChnType::FS_PHY_CHANNEL,
            mirr_enable: 0,
            fcrop: IMPFSChnCrop::new(),
        }
    }
}

impl IMPCell {
    /// Group 0, output 0 of the frame source.
    pub fn new() -> (c: Self)
        ensures
            c.deviceID == IMPDeviceID::DEV_ID_FS,
            c.groupID == 0,
            c.outputID == 0,
    {
        IMPCell { deviceID: IMPDeviceID::DEV_ID_FS, groupID: 0, outputID: 0 }
    }
}

/// The blank channel configuration.
pub open spec fn spec_blank_chn() -> ChnConf {
    ChnConf {
        index: 0,
        enable: false,
        payload_type: IMPPayloadType::PT_JPEG,
        fs_chn_attr: spec_blank_fs_attr(),
        framesource_chn: IMPCell { deviceID: IMPDeviceID::DEV_ID_FS, groupID: 0, outputID: 0 },
        imp_encoder: IMPCell { deviceID: IMPDeviceID::DEV_ID_FS, groupID: 0, outputID: 0 },
    }
}

impl ChnConf {
    /// A disabled JPEG channel with index 0 and blank attributes.
    pub fn new() -> (c: Self)
        ensures
            c == spec_blank_chn(),
    {
        ChnConf {
            index: 0,
            enable: false,
            payload_type: IMPPayloadType::PT_JPEG,
            fs_chn_attr: IMPFSChnAttr::new(),
            framesource_chn: IMPCell::new(),
            imp_encoder: IMPCell::new(),
        }
    }
}

/// The sensors that the board can carry.
#[derive(Clone, Copy, Debug, PartialEq, Eq, Structural)]
pub enum SensorModel {
    /// GC2053 on I2C adapter 0.
    GC2053,
    /// GC2063 board: driven through the gc2053 driver on I2C adapter 1.
    GC2063,
}

/// The sensor configuration of a board.
pub fn sensor_config(model: SensorModel) -> (s: SensorConfig)
    ensures
        s.name@ == "gc2053"@,
        spec_name_bytes(s) == seq![103u8, 99u8, 50u8, 48u8, 53u8, 51u8],
        s.cubs_type == IMPSensorControlBusType::TX_SENSOR_CONTROL_INTERFACE_I2C,
        s.i2c_addr == 0x37,
        s.i2c_adapter_id == (if model == SensorModel::GC2053 { 0u8 } else { 1u8 }),
        s.width == 1920,
        s.height == 1080,
        s.chn_enabled@ == seq![true, false, false, false],
        s.crop_enabled == 0,
        s.common.width_second == 640,
        s.common.height_second == 360,
        s.common.width_third == 1280,
        s.common.height_third == 720,
{
    let adapter: u8 = match model {
        SensorModel::GC2053 => 0,
        SensorModel::GC2063 => 1,
    };
    let s = SensorConfig {
        name: "gc2053",
        cubs_type: IMPSensorControlBusType::TX_SENSOR_CONTROL_INTERFACE_I2C,
        i2c_addr: 0x37,
        i2c_adapter_id: adapter,
        width: 1920,
        height: 1080,
        chn_enabled: [true, false, false, false],
        crop_enabled: 0,
        common: SensorCommon::new(),
    };
    assert(s.chn_enabled@ =~= seq![true, false, false, false]);
    proof {
        reveal_strlit("gc2053");
        broadcast use vstd::string::is_ascii_spec_bytes;
        assert(vstd::string::is_ascii(s.name));
        assert(spec_name_bytes(s) =~= seq![103u8, 99u8, 50u8, 48u8, 53u8, 51u8]);
    }
    s
}

/// The frame-source attributes of one stream: NV12 at the sensor frame
/// rate, two video buffers, no mirror, no second crop.
pub open spec fn spec_stream_attr(
    crop_enable: i32,
    crop_w: i32,
    crop_h: i32,
    out_w: i32,
    out_h: i32,
    pic_w: i32,
    pic_h: i32,
) -> IMPFSChnAttr {
    IMPFSChnAttr {
        pixFmt: IMPPixelFormat::PIX_FMT_NV12,
        outFrmRateNum: SENSOR_FRAME_RATE_NUM,
        outFrmRateDen: SENSOR_FRAME_RATE_DEN,
        nrVBs: 2,
        type_: IMPFSChnType::FS_PHY_CHANNEL,
        crop: IMPFSChnCrop { enable: crop_enable, top: 0, left: 0, width: crop_w, height: crop_h },
        scaler: IMPFSChnScaler { enable: 1, outwidth: out_w, outheight: out_h },
        picWidth: pic_w,
        picHeight: pic_h,
        mirr_enable: 0,
        fcrop: spec_empty_crop(),
    }
}

/// Channel `i` (0 to 3) of the channel table for a sensor: an H.264
/// channel whose frame-source and encoder cells are group `i`, output 0.
/// Channel 0 is the full sensor size; channel 1 crops the full sensor and
/// scales to the secondary size (its picture height is the secondary
/// width); channel 2 crops and scales to the secondary size; channel 3 is
/// the full sensor size without crop.
pub open spec fn spec_chn(s: SensorConfig, i: int) -> ChnConf {
    let w = s.width;
    let h = s.height;
    let w2 = s.common.width_second;
    let h2 = s.common.height_second;
    ChnConf {
        index: i as i32,
        enable: s.chn_enabled@[i],
        payload_type: IMPPayloadType::PT_H264,
        fs_chn_attr: if i == 0 {
            spec_stream_attr(1, w, h, w, h, w, h)
        } else if i == 1 {
            spec_stream_attr(1, w, h, w2, h2, w2, w2)
        } else if i == 2 {
            spec_stream_attr(1, w2, h2, w2, h2, w2, h2)
        } else {
            spec_stream_attr(0, w, h, w, h, w, h)
        },
        framesource_chn: IMPCell { deviceID: IMPDeviceID::DEV_ID_FS, groupID: i as i32, outputID: 0 },
        imp_encoder: IMPCell { deviceID: IMPDeviceID::DEV_ID_ENC, groupID: i as i32, outputID: 0 },
    }
}

/// The sizes in the channel table of a sensor with a `w` x `h` picture
/// and a `w2` x `h2` secondary stream. Every channel is an H.264 stream of
/// NV12 frames at the sensor frame rate, numbered by its slot, bound to
/// frame-source and encoder group of that number, enabled as the sensor
/// says, with its scaler on. Channel 0 takes the whole sensor picture and
/// scales it to the whole sensor size; channel 1 takes the whole sensor
/// picture and scales it to the secondary size (its picture is `w2` wide
/// and `w2` high); channel 2 crops and scales to the secondary size;
/// channel 3 is the whole sensor size, uncropped.
pub proof fn lemma_chn_table_sizes(s: SensorConfig)
    ensures
        forall|i: int|
            0 <= i < FS_CHN_NUM ==> {
                let c = #[trigger] spec_chn(s, i);
                &&& c.index == i
                &&& c.enable == s.chn_enabled@[i]
                &&& c.payload_type == IMPPayloadType::PT_H264
                &&& c.framesource_chn == (IMPCell { deviceID: IMPDeviceID::DEV_ID_FS, groupID: i as i32, outputID: 0 })
                &&& c.imp_encoder == (IMPCell { deviceID: IMPDeviceID::DEV_ID_ENC, groupID: i as i32, outputID: 0 })
                &&& c.fs_chn_attr.pixFmt == IMPPixelFormat::PIX_FMT_NV12
                &&& c.fs_chn_attr.outFrmRateNum == SENSOR_FRAME_RATE_NUM
                &&& c.fs_chn_attr.outFrmRateDen == SENSOR_FRAME_RATE_DEN
                &&& c.fs_chn_attr.scaler.enable == 1
            },
        ({
            let a = spec_chn(s, 0).fs_chn_attr;
            &&& a.picWidth == s.width && a.picHeight == s.height
            &&& a.scaler.outwidth == s.width && a.scaler.outheight == s.height
            &&& a.crop == (IMPFSChnCrop { enable: 1, top: 0, left: 0, width: s.width, height: s.height })
        }),
        ({
            let a = spec_chn(s, 1).fs_chn_attr;
            &&& a.picWidth == s.common.width_second && a.picHeight == s.common.width_second
            &&& a.scaler.outwidth == s.common.width_second && a.scaler.outheight == s.common.height_second
            &&& a.crop == (IMPFSChnCrop { enable: 1, top: 0, left: 0, width: s.width, height: s.height })
        }),
        ({
            let a = spec_chn(s, 2).fs_chn_attr;
            &&& a.picWidth == s.common.width_second && a.picHeight == s.common.height_second
            &&& a.scaler.outwidth == s.common.width_second && a.scaler.outheight == s.common.height_second
            &&& a.crop == (IMPFSChnCrop {
                enable: 1,
                top: 0,
                left: 0,
                width: s.common.width_second,
                height: s.common.height_second,
            })
        }),
        ({
            let a = spec_chn(s, 3).fs_chn_attr;
            &&& a.picWidth == s.width && a.picHeight == s.height
            &&& a.scaler.outwidth == s.width && a.scaler.outheight == s.height
            &&& a.crop.enable == 0
        }),
{
}

fn stream_attr(
    crop_enable: i32,
    crop_w: i32,
    crop_h: i32,
    out_w: i32,
    out_h: i32,
    pic_w: i32,
    pic_h: i32,
) -> (a: IMPFSChnAttr)
    ensures
        a == spec_stream_attr(crop_enable, crop_w, crop_h, out_w, out_h, pic_w, pic_h),
{
    IMPFSChnAttr {
        pixFmt: IMPPixelFormat::PIX_FMT_NV12,
        outFrmRateNum: SENSOR_FRAME_RATE_NUM,
        outFrmRateDen: SENSOR_FRAME_RATE_DEN,
        nrVBs: 2,
        type_: IMPFSChnType::FS_PHY_CHANNEL,
        crop: IMPFSChnCrop { enable: crop_enable, top: 0, left: 0, width: crop_w, height: crop_h },
        scaler: IMPFSChnScaler { enable: 1, outwidth: out_w, outheight: out_h },
        picWidth: pic_w,
        picHeight: pic_h,
        mirr_enable: 0,
        fcrop: IMPFSChnCrop::new(),
    }
}

/// The table of the four stream channels of a sensor.
pub fn chn_table(s: &SensorConfig) -> (t: Vec<ChnConf>)
    ensures
        t.len() == FS_CHN_NUM,
        forall|i: int| 0 <= i < FS_CHN_NUM ==> #[trigger] t@[i] == spec_chn(*s, i),
{
    let w = s.width;
    let h = s.height;
    let w2 = s.common.width_second;
    let h2 = s.common.height_second;
    let mut t: Vec<ChnConf> = Vec::new();
    let mut i: usize = 0;
    while i < FS_CHN_NUM
        invariant
            i <= FS_CHN_NUM,
            t.len() == i,
            w == s.width,
            h == s.height,
            w2 == s.common.width_second,
            h2 == s.common.height_second,
            forall|k: int| 0 <= k < i ==> #[trigger] t@[k] == spec_chn(*s, k),
        decreases FS_CHN_NUM - i,
    {
        let attr = if i == 0 {
            stream_attr(1, w, h, w, h, w, h)
        } else if i == 1 {
            stream_attr(1, w, h, w2, h2, w2, w2)
        } else if i == 2 {
            stream_attr(1, w2, h2, w2, h2, w2, h2)
        } else {
            stream_attr(0, w, h, w, h, w, h)
        };
        let idx = i as i32;
        t.push(ChnConf {
            index: idx,
            enable: s.chn_enabled[i],
            payload_type: IMPPayloadType::PT_H264,
            fs_chn_attr: attr,
            framesource_chn: IMPCell { deviceID: IMPDeviceID::DEV_ID_FS, groupID: idx, outputID: 0 },
            imp_encoder: IMPCell { deviceID: IMPDeviceID::DEV_ID_ENC, groupID: idx, outputID: 0 },
        });
        i = i + 1;
    }
    t
}

/// An extension channel: pixel format `fmt`, uncropped full sensor input
/// scaled to the secondary size; everything else as in a blank channel.
pub open spec fn spec_ext_chn(s: SensorConfig, fmt: IMPPixelFormat) -> ChnConf {
    ChnConf {
        fs_chn_attr: IMPFSChnAttr {
            pixFmt: fmt,
            outFrmRateNum: SENSOR_FRAME_RATE_NUM,
            outFrmRateDen: SENSOR_FRAME_RATE_DEN,
            nrVBs: 2,
            type_: IMPFSChnType::FS_EXT_CHANNEL,
            crop: IMPFSChnCrop { enable: 0, top: 0, left: 0, width: s.width, height: s.height },
            scaler: IMPFSChnScaler {
                enable: 1,
                outwidth: s.common.width_second,
                outheight: s.common.height_second,
            },
            picWidth: s.common.width_second,
            picHeight: s.common.height_second,
            ..spec_blank_fs_attr()
        },
        ..spec_blank_chn()
    }
}

fn ext_chn(s: &SensorConfig, fmt: IMPPixelFormat) -> (c: ChnConf)
    ensures
        c == spec_ext_chn(*s, fmt),
{
    let mut c = ChnConf::new();
    c.fs_chn_attr.pixFmt = fmt;
    c.fs_chn_attr.outFrmRateNum = SENSOR_FRAME_RATE_NUM;
    c.fs_chn_attr.outFrmRateDen = SENSOR_FRAME_RATE_DEN;
    c.fs_chn_attr.nrVBs = 2;
    c.fs_chn_attr.type_ = IMPFSChnType::FS_EXT_CHANNEL;
    c.fs_chn_attr.crop = IMPFSChnCrop { enable: 0, top: 0, left: 0, width: s.width, height: s.height };
    c.fs_chn_attr.scaler = IMPFSChnScaler {
        enable: 1,
        outwidth: s.common.width_second,
        outheight: s.common.height_second,
    };
    c.fs_chn_attr.picWidth = s.common.width_second;
    c.fs_chn_attr.picHeight = s.common.height_second;
    c
}

/// The HSV extension channel.
pub fn chn_ext_hsv(s: &SensorConfig) -> (c: ChnConf)
    ensures
        c == spec_ext_chn(*s, IMPPixelFormat::PIX_FMT_HSV),
{
    ext_chn(s, IMPPixelFormat::PIX_FMT_HSV)
}

/// The RGBA extension channel.
pub fn chn_ext_rgba(s: &SensorConfig) -> (c: ChnConf)
    ensures
        c == spec_ext_chn(*s, IMPPixelFormat::PIX_FMT_RGBA),
{
    ext_chn(s, IMPPixelFormat::PIX_FMT_RGBA)
}

/// Shows the on-screen display on channel 0 only: channel 0 is switched
/// on, channel 1 off, the rest of the table is kept.
pub fn select_osd_channels(chns: &mut Vec<ChnConf>)
    requires
        old(chns).len() >= 2,
    ensures
        final(chns).len() == old(chns).len(),
        final(chns)@[0] == (ChnConf { enable: true, ..old(chns)@[0] }),
        final(chns)@[1] == (ChnConf { enable: false, ..old(chns)@[1] }),
        forall|i: int| 2 <= i < old(chns).len() ==> #[trigger] final(chns)@[i] == old(chns)@[i],
{
    let mut c0 = chns[0];
    c0.enable = true;
    chns.set(0, c0);
    let mut c1 = chns[1];
    c1.enable = false;
    chns.set(1, c1);
}

/// Bytes in the sensor name field.
pub const SENSOR_NAME_LEN: usize = 32;
/// Bytes in the I2C device type field.
pub const I2C_TYPE_LEN: usize = 20;

/// How the sensor is reached on I2C.
pub struct IMPI2CInfo {
    pub type_: Vec<u8>,
    pub addr: i32,
    pub i2c_adapter_id: i32,
}

/// The sensor description handed to the ISP.
pub struct IMPSensorInfo {
    pub name: Vec<u8>,
    pub cbus_type: IMPSensorControlBusType,
    pub i2c: IMPI2CInfo,
}

fn zeros(n: usize) -> (v: Vec<u8>)
    ensures
        v@ == Seq::new(n as nat, |i: int| 0u8),
{
    let mut v: Vec<u8> = Vec::new();
    let mut i: usize = 0;
    while i < n
        invariant
            i <= n,
            v@ =~= Seq::new(i as nat, |k: int| 0u8),
        decreases n - i,
    {
        v.push(0u8);
        i = i + 1;
    }
    v
}

impl IMPSensorInfo {
    /// A zeroed sensor description on I2C.
    pub fn new() -> (info: Self)
        ensures
            info.name@ == Seq::new(SENSOR_NAME_LEN as nat, |i: int| 0u8),
            info.cbus_type == IMPSensorControlBusType::TX_SENSOR_CONTROL_INTERFACE_I2C,
            info.i2c.type_@ == Seq::new(I2C_TYPE_LEN as nat, |i: int| 0u8),
            info.i2c.addr == 0,
            info.i2c.i2c_adapter_id == 0,
    {
        IMPSensorInfo {
            name: zeros(SENSOR_NAME_LEN),
            cbus_type: IMPSensorControlBusType::TX_SENSOR_CONTROL_INTERFACE_I2C,
            i2c: IMPI2CInfo { type_: zeros(I2C_TYPE_LEN), addr: 0, i2c_adapter_id: 0 },
        }
    }
}

fn copy_prefix(dst: &mut Vec<u8>, src: &[u8])
    requires
        src@.len() <= old(dst).len(),
    ensures
        final(dst)@ == src@ + old(dst)@.skip(src@.len() as int),
{
    let ghost d0 = dst@;
    let mut i: usize = 0;
    while i < src.len()
        invariant
            i <= src@.len(),
            src@.len() <= d0.len(),
            dst.len() == d0.len(),
            dst@ =~= src@.take(i as int) + d0.skip(i as int),
        decreases src@.len() - i,
    {
        dst.set(i, src[i]);
        i = i + 1;
    }
}

/// The bytes of a sensor's name.
pub open spec fn spec_name_bytes(s: SensorConfig) -> Seq<u8> {
    vstd::string::StringSliceAdditionalSpecFns::spec_bytes(s.name)
}

/// Describes the board's sensor to the ISP: the name goes into the name
/// field and the I2C device type (without terminator: the fields keep the
/// bytes after it), with the bus type, I2C address and adapter.
pub fn fill_sensor_info(info: &mut IMPSensorInfo, s: &SensorConfig)
    requires
        spec_name_bytes(*s).len() <= old(info).name.len(),
        spec_name_bytes(*s).len() <= old(info).i2c.type_.len(),
    ensures
        final(info).name@ == spec_name_bytes(*s) + old(info).name@.skip(spec_name_bytes(*s).len() as int),
        final(info).i2c.type_@ == spec_name_bytes(*s) + old(info).i2c.type_@.skip(
            spec_name_bytes(*s).len() as int,
        ),
        final(info).cbus_type == s.cubs_type,
        final(info).i2c.addr == s.i2c_addr as i32,
        final(info).i2c.i2c_adapter_id == s.i2c_adapter_id as i32,
{
    let bytes = s.name.as_bytes();
    copy_prefix(&mut info.name, bytes);
    info.cbus_type = s.cubs_type;
    copy_prefix(&mut info.i2c.type_, bytes);
    info.i2c.addr = s.i2c_addr as i32;
    info.i2c.i2c_adapter_id = s.i2c_adapter_id as i32;
}

} // verus!
