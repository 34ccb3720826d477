use imp_sample::config::IMPPixelFormat;
use imp_sample::osd::{
    combine_show, cover_rgn_attr, font_rgn_attr, grp_rgn_update, logo_rgn_attr, rect_rgn_attr,
    GrpRgnUpdate, IMPOsdColour, IMPOsdRgnType, IMPPoint, IMPRect, PicSource, RgnData,
};

fn rect(x0: i32, y0: i32, x1: i32, y1: i32) -> IMPRect {
    IMPRect { p0: IMPPoint { x: x0, y: y0 }, p1: IMPPoint { x: x1, y: y1 } }
}

#[test]
fn timestamp_region() {
    let a = font_rgn_attr();
    assert_eq!(a.type_, IMPOsdRgnType::OSD_REG_PIC);
    assert_eq!(a.rect, rect(10, 10, 329, 43));
    assert_eq!(a.fmt, IMPPixelFormat::PIX_FMT_BGRA);
    assert_eq!(a.data, RgnData::Pic { source: PicSource::NoPicture });
}

#[test]
fn logo_region_in_corner() {
    let a = logo_rgn_attr(1920, 1080);
    assert_eq!(a.rect, rect(1820, 980, 1919, 1079));
    assert_eq!(a.data, RgnData::Pic { source: PicSource::Logo });
    assert_eq!(a.fmt, IMPPixelFormat::PIX_FMT_BGRA);
}

#[test]
fn cover_region_near_centre() {
    let a = cover_rgn_attr(1920, 1080);
    assert_eq!(a.type_, IMPOsdRgnType::OSD_REG_COVER);
    assert_eq!(a.rect, rect(860, 440, 860 + 960 - 1 + 50, 440 + 540 - 1 + 50));
    assert_eq!(a.data, RgnData::Cover { color: IMPOsdColour::OSD_BLACK });
    let odd = cover_rgn_attr(1281, 721);
    assert_eq!(odd.rect.p0, IMPPoint { x: 540, y: 260 });
}

#[test]
fn rectangle_region() {
    let a = rect_rgn_attr();
    assert_eq!(a.type_, IMPOsdRgnType::OSD_REG_RECT);
    assert_eq!(a.rect, rect(300, 300, 899, 599));
    assert_eq!(a.fmt, IMPPixelFormat::PIX_FMT_MONOWHITE);
    assert_eq!(a.data, RgnData::LineRect { color: IMPOsdColour::OSD_GREEN, linewidth: 5 });
}

#[test]
fn group_updates() {
    assert_eq!(grp_rgn_update(0), GrpRgnUpdate { show: 0, gAlphaEn: Some(1), fgAlhpa: Some(0xff), layer: 3, unit_scale: false });
    assert_eq!(grp_rgn_update(1), GrpRgnUpdate { show: 0, gAlphaEn: Some(1), fgAlhpa: Some(0x7f), layer: 2, unit_scale: false });
    assert_eq!(grp_rgn_update(2), GrpRgnUpdate { show: 0, gAlphaEn: Some(1), fgAlhpa: Some(0x7f), layer: 2, unit_scale: false });
    assert_eq!(grp_rgn_update(3), GrpRgnUpdate { show: 0, gAlphaEn: None, fgAlhpa: None, layer: 1, unit_scale: true });
}

#[test]
fn show_results_are_ored() {
    assert_eq!(combine_show(0, 0, 0, 0), 0);
    assert_eq!(combine_show(0, 1, 0, 4), 5);
    assert!(combine_show(0, -1, 0, 0) < 0);
}
