use vstd::prelude::*;
use crate::config::{IMPPixelFormat, OSD_REGION_HEIGHT, OSD_REGION_WIDTH};
use crate::timestamp::OSD_LETTER_NUM;

verus! {

/// The OSD group that the pipeline draws on.
pub const GRP_NUM: i32 = 0;
/// Edge length, in pixels, of the logo picture.
pub const LOGO_SIZE: i32 = 100;

/// Kinds of OSD region.
#[derive(Clone, Copy, Debug, PartialEq, Eq, Structural)]
pub enum IMPOsdRgnType {
    OSD_REG_INV,
    OSD_REG_LINE,
    OSD_REG_RECT,
    OSD_REG_BITMAP,
    OSD_REG_COVER,
    OSD_REG_PIC,
}

/// Named OSD colours.
#[derive(Clone, Copy, Debug, PartialEq, Eq, Structural)]
pub enum IMPOsdColour {
    OSD_BLACK,
    OSD_WHITE,
    OSD_RED,
    OSD_GREEN,
    OSD_BLUE,
}

/// A pixel position.
#[derive(Clone, Copy, Debug, PartialEq, Eq, Structural)]
pub struct IMPPoint {
    pub x: i32,
    pub y: i32,
}

/// A rectangle from its top-left corner `p0` to its bottom-right corner
/// `p1`, both included.
#[derive(Clone, Copy, Debug, PartialEq, Eq, Structural)]
pub struct IMPRect {
    pub p0: IMPPoint,
    pub p1: IMPPoint,
}

/// The picture a picture region shows when it is set up.
#[derive(Clone, Copy, Debug, PartialEq, Eq, Structural)]
pub enum PicSource {
    /// No picture yet: the timestamp thread supplies it later.
    NoPicture,
    /// The built-in 100x100 BGRA logo.
    Logo,
}

/// What a region holds.
#[derive(Clone, Copy, Debug, PartialEq, Eq, Structural)]
pub enum RgnData {
    Pic { source: PicSource },
    Cover { color: IMPOsdColour },
    LineRect { color: IMPOsdColour, linewidth: u32 },
}

/// The attributes of an OSD region.
#[derive(Clone, Copy, Debug, PartialEq, Eq, Structural)]
pub struct IMPOSDRgnAttr {
    pub type_: IMPOsdRgnType,
    pub rect: IMPRect,
    pub fmt: IMPPixelFormat,
    pub data: RgnData,
}

/// The changes made to a region's group attributes after reading them:
/// the fields that are `None` (or a `false` `unit_scale`) keep the value
/// read; `unit_scale` sets both scale factors to 1.
#[derive(Clone, Copy, Debug, PartialEq, Eq, Structural)]
pub struct GrpRgnUpdate {
    pub show: i32,
    pub gAlphaEn: Option<i32>,
    pub fgAlhpa: Option<i32>,
    pub layer: i32,
    pub unit_scale: bool,
}

/// A rectangle of `w` x `h` pixels with its top-left corner at (x, y).
pub open spec fn spec_rect(x: int, y: int, w: int, h: int) -> IMPRect {
    IMPRect {
        p0: IMPPoint { x: x as i32, y: y as i32 },
        p1: IMPPoint { x: (x + w - 1) as i32, y: (y + h - 1) as i32 },
    }
}

/// The timestamp region: a BGRA picture at (10, 10), 20 glyph cells wide
/// and one cell high, with no picture yet.
pub open spec fn spec_font_attr() -> IMPOSDRgnAttr {
    IMPOSDRgnAttr {
        type_: IMPOsdRgnType::OSD_REG_PIC,
        rect: spec_rect(10, 10, 20 * OSD_REGION_WIDTH, OSD_REGION_HEIGHT as int),
        fmt: IMPPixelFormat::PIX_FMT_BGRA,
        data: RgnData::Pic { source: PicSource::NoPicture },
    }
}

/// The timestamp region.
pub fn font_rgn_attr() -> (a: IMPOSDRgnAttr)
    ensures
        a == spec_font_attr(),
        a.rect == (IMPRect { p0: IMPPoint { x: 10, y: 10 }, p1: IMPPoint { x: 329, y: 43 } }),
{
    let x0: i32 = 10;
    let y0: i32 = 10;
    IMPOSDRgnAttr {
        type_: IMPOsdRgnType::OSD_REG_PIC,
        rect: IMPRect {
            p0: IMPPoint { x: x0, y: y0 },
            p1: IMPPoint {
                x: x0 + 20 * (OSD_REGION_WIDTH as i32) - 1,
                y: y0 + OSD_REGION_HEIGHT as i32 - 1,
            },
        },
        fmt: IMPPixelFormat::PIX_FMT_BGRA,
        data: RgnData::Pic { source: PicSource::NoPicture },
    }
}

/// The logo region: the 100x100 BGRA logo in the bottom-right corner of a
/// `w` x `h` picture.
pub open spec fn spec_logo_attr(w: i32, h: i32) -> IMPOSDRgnAttr {
    IMPOSDRgnAttr {
        type_: IMPOsdRgnType::OSD_REG_PIC,
        rect: spec_rect(w - LOGO_SIZE, h - LOGO_SIZE, LOGO_SIZE as int, LOGO_SIZE as int),
        fmt: IMPPixelFormat::PIX_FMT_BGRA,
        data: RgnData::Pic { source: PicSource::Logo },
    }
}

/// The logo region of a `w` x `h` picture.
pub fn logo_rgn_attr(w: i32, h: i32) -> (a: IMPOSDRgnAttr)
    requires
        0 <= w,
        0 <= h,
    ensures
        a == spec_logo_attr(w, h),
{
    let picw: i32 = LOGO_SIZE;
    let pich: i32 = LOGO_SIZE;
    let x0 = w - LOGO_SIZE;
    let y0 = h - LOGO_SIZE;
    IMPOSDRgnAttr {
        type_: IMPOsdRgnType::OSD_REG_PIC,
        rect: IMPRect { p0: IMPPoint { x: x0, y: y0 }, p1: IMPPoint { x: x0 + picw - 1, y: y0 + pich - 1 } },
        fmt: IMPPixelFormat::PIX_FMT_BGRA,
        data: RgnData::Pic { source: PicSource::Logo },
    }
}

/// The cover region: a black cover whose top-left corner is 100 pixels up
/// and left of the picture centre, half the picture plus 50 pixels wide
/// and high (halves rounded down).
pub open spec fn spec_cover_attr(w: i32, h: i32) -> IMPOSDRgnAttr {
    IMPOSDRgnAttr {
        type_: IMPOsdRgnType::OSD_REG_COVER,
        rect: spec_rect(w / 2 - 100, h / 2 - 100, w / 2 + 50, h / 2 + 50),
        fmt: IMPPixelFormat::PIX_FMT_BGRA,
        data: RgnData::Cover { color: IMPOsdColour::OSD_BLACK },
    }
}

/// The cover region of a `w` x `h` picture.
pub fn cover_rgn_attr(w: i32, h: i32) -> (a: IMPOSDRgnAttr)
    requires
        0 <= w,
        0 <= h,
    ensures
        a == spec_cover_attr(w, h),
{
    let x0 = w / 2 - 100;
    let y0 = h / 2 - 100;
    IMPOSDRgnAttr {
        type_: IMPOsdRgnType::OSD_REG_COVER,
        rect: IMPRect {
            p0: IMPPoint { x: x0, y: y0 },
            p1: IMPPoint { x: x0 + w / 2 - 1 + 50, y: y0 + h / 2 - 1 + 50 },
        },
        fmt: IMPPixelFormat::PIX_FMT_BGRA,
        data: RgnData::Cover { color: IMPOsdColour::OSD_BLACK },
    }
}

/// The rectangle region: a green 5-pixel frame, 600x300 pixels, at
/// (300, 300), in monochrome format.
pub open spec fn spec_rect_attr() -> IMPOSDRgnAttr {
    IMPOSDRgnAttr {
        type_: IMPOsdRgnType::OSD_REG_RECT,
        rect: spec_rect(300, 300, 600, 300),
        fmt: IMPPixelFormat::PIX_FMT_MONOWHITE,
        data: RgnData::LineRect { color: IMPOsdColour::OSD_GREEN, linewidth: 5 },
    }
}

/// The rectangle region.
pub fn rect_rgn_attr() -> (a: IMPOSDRgnAttr)
    ensures
        a == spec_rect_attr(),
        a.rect == (IMPRect { p0: IMPPoint { x: 300, y: 300 }, p1: IMPPoint { x: 899, y: 599 } }),
{
    let x0: i32 = 300;
    let y0: i32 = 300;
    IMPOSDRgnAttr {
        type_: IMPOsdRgnType::OSD_REG_RECT,
        rect: IMPRect { p0: IMPPoint { x: x0, y: y0 }, p1: IMPPoint { x: x0 + 600 - 1, y: y0 + 300 - 1 } },
        fmt: IMPPixelFormat::PIX_FMT_MONOWHITE,
        data: RgnData::LineRect { color: IMPOsdColour::OSD_GREEN, linewidth: 5 },
    }
}

/// Timestamp: hidden until shown, pixel alpha only at full strength, layer 3.
pub open spec fn spec_font_update() -> GrpRgnUpdate {
    GrpRgnUpdate { show: 0, gAlphaEn: Some(1), fgAlhpa: Some(0xff), layer: 3, unit_scale: false }
}

/// Logo: hidden, half transparent (alpha 0x7f), layer 2.
pub open spec fn spec_logo_update() -> GrpRgnUpdate {
    GrpRgnUpdate { show: 0, gAlphaEn: Some(1), fgAlhpa: Some(0x7f), layer: 2, unit_scale: false }
}

/// Cover: hidden, alpha 0x7f, layer 2.
pub open spec fn spec_cover_update() -> GrpRgnUpdate {
    GrpRgnUpdate { show: 0, gAlphaEn: Some(1), fgAlhpa: Some(0x7f), layer: 2, unit_scale: false }
}

/// Rectangle: hidden, layer 1, unscaled; alpha as read.
pub open spec fn spec_rect_update() -> GrpRgnUpdate {
    GrpRgnUpdate { show: 0, gAlphaEn: None, fgAlhpa: None, layer: 1, unit_scale: true }
}

/// The group-attribute changes of the four regions, in slot order
/// (timestamp, logo, cover, rectangle).
pub fn grp_rgn_update(slot: usize) -> (u: GrpRgnUpdate)
    requires
        slot < 4,
    ensures
        slot == 0 ==> u == spec_font_update(),
        slot == 1 ==> u == spec_logo_update(),
        slot == 2 ==> u == spec_cover_update(),
        slot == 3 ==> u == spec_rect_update(),
{
    if slot == 0 {
        GrpRgnUpdate { show: 0, gAlphaEn: Some(1), fgAlhpa: Some(0xff), layer: 3, unit_scale: false }
    } else if slot == 1 {
        GrpRgnUpdate { show: 0, gAlphaEn: Some(1), fgAlhpa: Some(0x7f), layer: 2, unit_scale: false }
    } else if slot == 2 {
        GrpRgnUpdate { show: 0, gAlphaEn: Some(1), fgAlhpa: Some(0x7f), layer: 2, unit_scale: false }
    } else {
        GrpRgnUpdate { show: 0, gAlphaEn: None, fgAlhpa: None, layer: 1, unit_scale: true }
    }
}

/// The result of showing the four regions: the bitwise or of the four
/// results, so zero exactly when every one was zero.
pub fn combine_show(r0: i32, r1: i32, r2: i32, r3: i32) -> (r: i32)
    ensures
        r == r0 | r1 | r2 | r3,
        r == 0 <==> (r0 == 0 && r1 == 0 && r2 == 0 && r3 == 0),
        (r0 < 0 || r1 < 0 || r2 < 0 || r3 < 0) <==> r < 0,
{
    let r = r0 | r1 | r2 | r3;
    assert(r == 0 <==> (r0 == 0 && r1 == 0 && r2 == 0 && r3 == 0)) by (bit_vector)
        requires
            r == r0 | r1 | r2 | r3,
    ;
    assert((r0 < 0 || r1 < 0 || r2 < 0 || r3 < 0) <==> r < 0) by (bit_vector)
        requires
            r == r0 | r1 | r2 | r3,
    ;
    r
}

/// The pixels of one timestamp picture row: 20 glyph cells.
pub proof fn lemma_font_region_matches_picture()
    ensures
        spec_font_attr().rect.p1.x - spec_font_attr().rect.p0.x + 1 == OSD_LETTER_NUM * OSD_REGION_WIDTH,
        spec_font_attr().rect.p1.y - spec_font_attr().rect.p0.y + 1 == OSD_REGION_HEIGHT,
{
}

} // verus!
