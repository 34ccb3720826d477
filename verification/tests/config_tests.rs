use imp_sample::config::{
    chn_ext_hsv, chn_ext_rgba, chn_table, fill_sensor_info, select_osd_channels, sensor_config,
    ChnConf, IMPCell, IMPDeviceID, IMPFSChnAttr, IMPFSChnCrop, IMPFSChnScaler, IMPFSChnType,
    IMPPayloadType, IMPPixelFormat, IMPSensorControlBusType, IMPSensorInfo, SensorCommon,
    SensorModel, FS_CHN_NUM,
};

#[test]
fn gc2053_board_config() {
    let s = sensor_config(SensorModel::GC2053);
    assert_eq!(s.name, "gc2053");
    assert_eq!(s.cubs_type, IMPSensorControlBusType::TX_SENSOR_CONTROL_INTERFACE_I2C);
    assert_eq!(s.i2c_addr, 0x37);
    assert_eq!(s.i2c_adapter_id, 0);
    assert_eq!((s.width, s.height), (1920, 1080));
    assert_eq!(s.chn_enabled, [true, false, false, false]);
    assert_eq!(s.crop_enabled, 0);
}

#[test]
fn gc2063_board_uses_adapter_one() {
    let s = sensor_config(SensorModel::GC2063);
    assert_eq!(s.name, "gc2053");
    assert_eq!(s.i2c_adapter_id, 1);
}

#[test]
fn sensor_common_sizes() {
    let c = SensorCommon::new();
    assert_eq!((c.width_second, c.height_second, c.width_third, c.height_third), (640, 360, 1280, 720));
}

#[test]
fn blank_values() {
    let crop = IMPFSChnCrop::new();
    assert_eq!((crop.enable, crop.top, crop.left, crop.width, crop.height), (0, 0, 0, 0, 0));
    let sc = IMPFSChnScaler::new();
    assert_eq!((sc.enable, sc.outwidth, sc.outheight), (0, 0, 0));
    let a = IMPFSChnAttr::new();
    assert_eq!(a.pixFmt, IMPPixelFormat::PIX_FMT_YUV420P);
    assert_eq!(a.type_, IMPFSChnType::FS_PHY_CHANNEL);
    assert_eq!((a.picWidth, a.picHeight, a.outFrmRateNum, a.outFrmRateDen, a.nrVBs), (0, 0, 0, 0, 0));
    let cell = IMPCell::new();
    assert_eq!(cell, IMPCell { deviceID: IMPDeviceID::DEV_ID_FS, groupID: 0, outputID: 0 });
    let c = ChnConf::new();
    assert_eq!(c.index, 0);
    assert!(!c.enable);
    assert_eq!(c.payload_type, IMPPayloadType::PT_JPEG);
    assert_eq!(c.fs_chn_attr, a);
    assert_eq!(c.framesource_chn, cell);
    assert_eq!(c.imp_encoder, cell);
}

#[test]
fn channel_table_of_gc2053() {
    let s = sensor_config(SensorModel::GC2053);
    let t = chn_table(&s);
    assert_eq!(t.len(), FS_CHN_NUM);
    for (i, c) in t.iter().enumerate() {
        assert_eq!(c.index, i as i32);
        assert_eq!(c.payload_type, IMPPayloadType::PT_H264);
        assert_eq!(c.fs_chn_attr.pixFmt, IMPPixelFormat::PIX_FMT_NV12);
        assert_eq!((c.fs_chn_attr.outFrmRateNum, c.fs_chn_attr.outFrmRateDen), (25, 1));
        assert_eq!(c.fs_chn_attr.nrVBs, 2);
        assert_eq!(c.framesource_chn, IMPCell { deviceID: IMPDeviceID::DEV_ID_FS, groupID: i as i32, outputID: 0 });
        assert_eq!(c.imp_encoder, IMPCell { deviceID: IMPDeviceID::DEV_ID_ENC, groupID: i as i32, outputID: 0 });
        assert_eq!(c.fs_chn_attr.fcrop, IMPFSChnCrop::new());
    }
    assert!(t[0].enable && !t[1].enable && !t[2].enable && !t[3].enable);
    assert_eq!((t[0].fs_chn_attr.picWidth, t[0].fs_chn_attr.picHeight), (1920, 1080));
    assert_eq!(t[0].fs_chn_attr.crop.enable, 1);
    // The secondary channel's picture height is the secondary width.
    assert_eq!((t[1].fs_chn_attr.picWidth, t[1].fs_chn_attr.picHeight), (640, 640));
    assert_eq!((t[1].fs_chn_attr.scaler.outwidth, t[1].fs_chn_attr.scaler.outheight), (640, 360));
    assert_eq!((t[1].fs_chn_attr.crop.width, t[1].fs_chn_attr.crop.height), (1920, 1080));
    assert_eq!((t[2].fs_chn_attr.crop.width, t[2].fs_chn_attr.crop.height), (640, 360));
    assert_eq!((t[2].fs_chn_attr.picWidth, t[2].fs_chn_attr.picHeight), (640, 360));
    assert_eq!(t[3].fs_chn_attr.crop.enable, 0);
    assert_eq!((t[3].fs_chn_attr.picWidth, t[3].fs_chn_attr.picHeight), (1920, 1080));
}

#[test]
fn extension_channels() {
    let s = sensor_config(SensorModel::GC2053);
    for (c, fmt) in [(chn_ext_hsv(&s), IMPPixelFormat::PIX_FMT_HSV), (chn_ext_rgba(&s), IMPPixelFormat::PIX_FMT_RGBA)] {
        assert_eq!(c.fs_chn_attr.pixFmt, fmt);
        assert_eq!(c.fs_chn_attr.type_, IMPFSChnType::FS_EXT_CHANNEL);
        assert_eq!(c.fs_chn_attr.crop, IMPFSChnCrop { enable: 0, top: 0, left: 0, width: 1920, height: 1080 });
        assert_eq!(c.fs_chn_attr.scaler, IMPFSChnScaler { enable: 1, outwidth: 640, outheight: 360 });
        assert_eq!((c.fs_chn_attr.picWidth, c.fs_chn_attr.picHeight), (640, 360));
        assert_eq!((c.fs_chn_attr.nrVBs, c.fs_chn_attr.mirr_enable), (2, 0));
        assert!(!c.enable);
        assert_eq!(c.payload_type, IMPPayloadType::PT_JPEG);
    }
}

#[test]
fn osd_shows_on_channel_zero_only() {
    let s = sensor_config(SensorModel::GC2053);
    let mut t = chn_table(&s);
    t[0].enable = false;
    t[1].enable = true;
    t[2].enable = true;
    select_osd_channels(&mut t);
    assert!(t[0].enable);
    assert!(!t[1].enable);
    assert!(t[2].enable);
    assert!(!t[3].enable);
}

#[test]
fn sensor_info_carries_name_and_bus() {
    let s = sensor_config(SensorModel::GC2063);
    let mut info = IMPSensorInfo::new();
    fill_sensor_info(&mut info, &s);
    assert_eq!(&info.name[..6], b"gc2053");
    assert!(info.name[6..].iter().all(|b| *b == 0));
    assert_eq!(info.name.len(), 32);
    assert_eq!(&info.i2c.type_[..6], b"gc2053");
    assert_eq!(info.i2c.type_.len(), 20);
    assert_eq!(info.i2c.addr, 0x37);
    assert_eq!(info.i2c.i2c_adapter_id, 1);
    assert_eq!(info.cbus_type, IMPSensorControlBusType::TX_SENSOR_CONTROL_INTERFACE_I2C);
}
