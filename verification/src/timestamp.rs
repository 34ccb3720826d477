use vstd::prelude::*;
use crate::config::{OSD_REGION_HEIGHT, OSD_REGION_WIDTH};

verus! {

/// Characters in the timestamp line.
pub const OSD_LETTER_NUM: u32 = 20;
/// Pixels in one row of the timestamp picture.
pub const TIMESTAMP_STRIDE: usize = 320;
/// Rows of the timestamp picture.
pub const TIMESTAMP_ROWS: usize = 34;
/// Pixels in the timestamp picture (20 x 34 x 16).
pub const TIMESTAMP_PIXELS: usize = 10880;
/// Glyphs in the timestamp font: the ten digits, '-', ' ' and ':'.
pub const GLYPH_COUNT: usize = 13;

/// One glyph of the timestamp font: `width` pixels per row, rows stored
/// one after the other.
pub struct Glyph {
    pub width: u32,
    pub pixels: Vec<u32>,
}

/// The font slot of a character (ASCII codes): digits 0 to 9, then '-', ' ' and ':'.
/// Other characters have no glyph.
pub open spec fn spec_glyph_index(c: u8) -> Option<int> {
    if 48 <= c <= 57 {
        Some(c - 48)
    } else if c == 45 {
        Some(10)
    } else if c == 32 {
        Some(11)
    } else if c == 58 {
        Some(12)
    } else {
        None
    }
}

/// The font slot of a character.
pub fn glyph_index(c: u8) -> (r: Option<usize>)
    ensures
        match r {
            Some(g) => spec_glyph_index(c) == Some(g as int),
            None => spec_glyph_index(c) is None,
        },
{
    if 48 <= c && c <= 57 {
        Some((c - 48) as usize)
    } else if c == 45 {
        Some(10)
    } else if c == 32 {
        Some(11)
    } else if c == 58 {
        Some(12)
    } else {
        None
    }
}

/// Where the pen stands while a line is laid out: the glyph last chosen,
/// its advance, and the pen position after it.
pub struct PenState {
    pub glyph: Option<int>,
    pub adv: int,
    pub pen: int,
}

/// A character with a glyph selects it and moves the pen by its width;
/// any other character keeps the previous glyph and pen.
pub open spec fn spec_pen_step(st: PenState, c: u8, glyphs: Seq<Glyph>) -> PenState {
    match spec_glyph_index(c) {
        Some(g) => PenState { glyph: Some(g), adv: glyphs[g].width as int, pen: st.pen + glyphs[g].width },
        None => st,
    }
}

/// The pen after the first `k` characters of a line.
pub open spec fn spec_pen_after(date: Seq<u8>, glyphs: Seq<Glyph>, k: nat) -> PenState
    decreases k,
{
    if k == 0 {
        PenState { glyph: None, adv: 0, pen: 0 }
    } else {
        spec_pen_step(spec_pen_after(date, glyphs, (k - 1) as nat), date[k - 1], glyphs)
    }
}

/// Row `dst` of `buf` overwritten by `w` pixels of `src` from `soff` on.
pub open spec fn spec_blit_row(buf: Seq<u32>, dst: int, src: Seq<u32>, soff: int, w: int) -> Seq<u32> {
    buf.subrange(0, dst) + src.subrange(soff, soff + w) + buf.subrange(dst + w, buf.len() as int)
}

/// The first `j` rows of a `w`-pixel wide glyph drawn at column `pen`,
/// one picture row (320 pixels) per glyph row, in row order.
pub open spec fn spec_blit_rows(buf: Seq<u32>, pen: int, src: Seq<u32>, w: int, j: nat) -> Seq<u32>
    decreases j,
{
    if j == 0 {
        buf
    } else {
        spec_blit_row(
            spec_blit_rows(buf, pen, src, w, (j - 1) as nat),
            (j - 1) * TIMESTAMP_STRIDE + pen,
            src,
            (j - 1) * w,
            w,
        )
    }
}

/// The pixels of the glyph a pen state holds (none before the first).
pub open spec fn spec_glyph_pixels(glyphs: Seq<Glyph>, st: PenState) -> Seq<u32> {
    match st.glyph {
        Some(g) => glyphs[g].pixels@,
        None => Seq::empty(),
    }
}

/// The timestamp picture after drawing the first `k` characters: each
/// character draws the current glyph's 34 rows at the pen position that
/// follows it.
pub open spec fn spec_render(buf: Seq<u32>, date: Seq<u8>, glyphs: Seq<Glyph>, k: nat) -> Seq<u32>
    decreases k,
{
    if k == 0 {
        buf
    } else {
        let st = spec_pen_after(date, glyphs, k);
        spec_blit_rows(
            spec_render(buf, date, glyphs, (k - 1) as nat),
            st.pen,
            spec_glyph_pixels(glyphs, st),
            st.adv,
            TIMESTAMP_ROWS as nat,
        )
    }
}

/// Drawing after `k` characters stays inside the picture and inside the
/// glyph's pixels.
pub open spec fn spec_draw_fits(date: Seq<u8>, glyphs: Seq<Glyph>, k: nat) -> bool {
    let st = spec_pen_after(date, glyphs, k);
    &&& (TIMESTAMP_ROWS - 1) * TIMESTAMP_STRIDE + st.pen + st.adv <= TIMESTAMP_PIXELS
    &&& st.glyph matches Some(g) ==> TIMESTAMP_ROWS * st.adv <= glyphs[g].pixels@.len()
}

/// Every character of the line is drawn in bounds.
pub open spec fn spec_line_fits(date: Seq<u8>, glyphs: Seq<Glyph>) -> bool {
    forall|k: nat| 1 <= k <= OSD_LETTER_NUM ==> #[trigger] spec_draw_fits(date, glyphs, k)
}

proof fn lemma_pen_state(date: Seq<u8>, glyphs: Seq<Glyph>, k: nat)
    requires
        glyphs.len() >= GLYPH_COUNT,
    ensures
        ({
            let st = spec_pen_after(date, glyphs, k);
            &&& st.adv >= 0
            &&& st.pen >= 0
            &&& st.glyph is None ==> st.adv == 0
            &&& st.glyph matches Some(g) ==> 0 <= g < GLYPH_COUNT && st.adv == glyphs[g].width
        }),
    decreases k,
{
    if k > 0 {
        lemma_pen_state(date, glyphs, (k - 1) as nat);
    }
}

fn copy_row(buf: &mut Vec<u32>, dst: usize, src: &Vec<u32>, soff: usize, w: usize)
    requires
        dst + w <= old(buf).len(),
        soff + w <= src.len(),
    ensures
        final(buf)@ == spec_blit_row(old(buf)@, dst as int, src@, soff as int, w as int),
{
    let ghost b0 = buf@;
    let mut x: usize = 0;
    while x < w
        invariant
            x <= w,
            dst + w <= b0.len(),
            buf.len() == b0.len(),
            soff + w <= src.len(),
            buf@ =~= b0.subrange(0, dst as int) + src@.subrange(soff as int, soff + x)
                + b0.subrange(dst + x, b0.len() as int),
        decreases w - x,
    {
        buf.set(dst + x, src[soff + x]);
        x = x + 1;
    }
}

fn draw_glyph(buf: &mut Vec<u32>, pen: usize, src: &Vec<u32>, w: usize)
    requires
        old(buf).len() == TIMESTAMP_PIXELS,
        (TIMESTAMP_ROWS - 1) * TIMESTAMP_STRIDE + pen + w <= TIMESTAMP_PIXELS,
        TIMESTAMP_ROWS * w <= src.len(),
    ensures
        final(buf)@ == spec_blit_rows(old(buf)@, pen as int, src@, w as int, TIMESTAMP_ROWS as nat),
        final(buf).len() == TIMESTAMP_PIXELS,
{
    let ghost b0 = buf@;
    let mut j: usize = 0;
    while j < TIMESTAMP_ROWS
        invariant
            j <= TIMESTAMP_ROWS,
            buf.len() == TIMESTAMP_PIXELS,
            (TIMESTAMP_ROWS - 1) * TIMESTAMP_STRIDE + pen + w <= TIMESTAMP_PIXELS,
            TIMESTAMP_ROWS * w <= src.len(),
            buf@ == spec_blit_rows(b0, pen as int, src@, w as int, j as nat),
        decreases TIMESTAMP_ROWS - j,
    {
        assert(j * TIMESTAMP_STRIDE + pen + w <= TIMESTAMP_PIXELS);
        assert(j * w + w <= TIMESTAMP_ROWS * w) by (nonlinear_arith)
            requires
                j < TIMESTAMP_ROWS,
        ;
        copy_row(buf, j * TIMESTAMP_STRIDE + pen, src, j * w, w);
        j = j + 1;
    }
}

/// Draws one timestamp line: for each of the first 20 characters the
/// glyph is chosen and the pen advanced as `spec_pen_step` says, then the
/// glyph is drawn at the new pen position, row by row.
pub fn render_timestamp(buf: &mut Vec<u32>, date: &Vec<u8>, glyphs: &Vec<Glyph>)
    requires
        old(buf).len() == TIMESTAMP_PIXELS,
        date.len() >= OSD_LETTER_NUM,
        glyphs.len() >= GLYPH_COUNT,
        spec_line_fits(date@, glyphs@),
    ensures
        final(buf).len() == TIMESTAMP_PIXELS,
        final(buf)@ == spec_render(old(buf)@, date@, glyphs@, OSD_LETTER_NUM as nat),
{
    let ghost b0 = buf@;
    let empty: Vec<u32> = Vec::new();
    let mut has_glyph = false;
    let mut cur: usize = 0;
    let mut fontadv: u32 = 0;
    let mut penpos: u32 = 0;
    let mut i: usize = 0;
    while i < OSD_LETTER_NUM as usize
        invariant
            i <= OSD_LETTER_NUM,
            buf.len() == TIMESTAMP_PIXELS,
            date.len() >= OSD_LETTER_NUM,
            glyphs.len() >= GLYPH_COUNT,
            empty@.len() == 0,
            spec_line_fits(date@, glyphs@),
            ({
                let st = spec_pen_after(date@, glyphs@, i as nat);
                &&& st.pen == penpos
                &&& st.adv == fontadv
                &&& (if has_glyph { st.glyph == Some(cur as int) } else { st.glyph is None })
            }),
            has_glyph ==> cur < GLYPH_COUNT,
            i > 0 ==> (TIMESTAMP_ROWS - 1) * TIMESTAMP_STRIDE + penpos + fontadv <= TIMESTAMP_PIXELS,
            buf@ == spec_render(b0, date@, glyphs@, i as nat),
        decreases OSD_LETTER_NUM - i,
    {
        proof {
            lemma_pen_state(date@, glyphs@, i as nat);
            lemma_pen_state(date@, glyphs@, (i + 1) as nat);
            assert(spec_draw_fits(date@, glyphs@, (i + 1) as nat));
        }
        let c = date[i];
        match glyph_index(c) {
            Some(g) => {
                has_glyph = true;
                cur = g;
                fontadv = glyphs[g].width;
                penpos = penpos + glyphs[g].width;
            },
            None => {},
        }
        if has_glyph {
            draw_glyph(buf, penpos as usize, &glyphs[cur].pixels, fontadv as usize);
        } else {
            draw_glyph(buf, penpos as usize, &empty, fontadv as usize);
            assert(spec_glyph_pixels(glyphs@, spec_pen_after(date@, glyphs@, (i + 1) as nat)) =~= empty@);
        }
        i = i + 1;
    }
}

/// Whether a line can be drawn: every character's glyph stays inside the
/// picture and inside its pixels.
pub fn line_fits(date: &Vec<u8>, glyphs: &Vec<Glyph>) -> (r: bool)
    requires
        date.len() >= OSD_LETTER_NUM,
        glyphs.len() >= GLYPH_COUNT,
    ensures
        r == spec_line_fits(date@, glyphs@),
{
    let mut has_glyph = false;
    let mut cur: usize = 0;
    let mut adv: u64 = 0;
    let mut pen: u64 = 0;
    let mut k: usize = 0;
    while k < OSD_LETTER_NUM as usize
        invariant
            k <= OSD_LETTER_NUM,
            date.len() >= OSD_LETTER_NUM,
            glyphs.len() >= GLYPH_COUNT,
            ({
                let st = spec_pen_after(date@, glyphs@, k as nat);
                &&& st.pen == pen
                &&& st.adv == adv
                &&& (if has_glyph { st.glyph == Some(cur as int) } else { st.glyph is None })
            }),
            has_glyph ==> cur < GLYPH_COUNT,
            pen <= k * 0x1_0000_0000,
            adv <= 0xffff_ffff,
            forall|m: nat| 1 <= m <= k ==> #[trigger] spec_draw_fits(date@, glyphs@, m),
        decreases OSD_LETTER_NUM - k,
    {
        proof {
            lemma_pen_state(date@, glyphs@, (k + 1) as nat);
        }
        match glyph_index(date[k]) {
            Some(g) => {
                has_glyph = true;
                cur = g;
                adv = glyphs[g].width as u64;
                pen = pen + glyphs[g].width as u64;
            },
            None => {},
        }
        let in_picture = (TIMESTAMP_ROWS - 1) as u64 * TIMESTAMP_STRIDE as u64 + pen + adv <= TIMESTAMP_PIXELS as u64;
        let in_glyph = !has_glyph || 34u64 * adv <= glyphs[cur].pixels.len() as u64;
        if !(in_picture && in_glyph) {
            assert(!spec_draw_fits(date@, glyphs@, (k + 1) as nat));
            return false;
        }
        k = k + 1;
    }
    true
}

/// The usual timestamp line fits the picture: when no glyph is wider than
/// one 16-pixel cell and each has its 34 rows of pixels, any line whose
/// 20th character has no glyph (as the terminator after a 19-character
/// "YYYY-MM-DD hh:mm:ss" time) is drawn in bounds.
pub proof fn lemma_standard_line_fits(date: Seq<u8>, glyphs: Seq<Glyph>)
    requires
        date.len() >= OSD_LETTER_NUM,
        glyphs.len() >= GLYPH_COUNT,
        forall|g: int| 0 <= g < GLYPH_COUNT ==> (#[trigger] glyphs[g]).width <= OSD_REGION_WIDTH
            && TIMESTAMP_ROWS * glyphs[g].width <= glyphs[g].pixels@.len(),
        spec_glyph_index(date[OSD_LETTER_NUM - 1]) is None,
    ensures
        spec_line_fits(date, glyphs),
{
    assert forall|k: nat| 1 <= k <= OSD_LETTER_NUM implies #[trigger] spec_draw_fits(date, glyphs, k) by {
        let kk: nat = if k == OSD_LETTER_NUM { (k - 1) as nat } else { k };
        lemma_pen_bound(date, glyphs, kk);
        lemma_pen_state(date, glyphs, k);
        assert(spec_pen_after(date, glyphs, k) == spec_pen_after(date, glyphs, kk));
    }
}

proof fn lemma_pen_bound(date: Seq<u8>, glyphs: Seq<Glyph>, k: nat)
    requires
        k <= date.len(),
        glyphs.len() >= GLYPH_COUNT,
        forall|g: int| 0 <= g < GLYPH_COUNT ==> (#[trigger] glyphs[g]).width <= OSD_REGION_WIDTH,
    ensures
        spec_pen_after(date, glyphs, k).pen <= OSD_REGION_WIDTH * k,
        spec_pen_after(date, glyphs, k).adv <= OSD_REGION_WIDTH,
    decreases k,
{
    if k > 0 {
        lemma_pen_bound(date, glyphs, (k - 1) as nat);
        lemma_pen_state(date, glyphs, k);
    }
}


proof fn lemma_blit_row_at(b: Seq<u32>, dst: int, src: Seq<u32>, soff: int, w: int)
    requires
        0 <= dst,
        0 <= w,
        dst + w <= b.len(),
        0 <= soff,
        soff + w <= src.len(),
    ensures
        spec_blit_row(b, dst, src, soff, w).len() == b.len(),
        forall|i: int|
            0 <= i < b.len() ==> #[trigger] spec_blit_row(b, dst, src, soff, w)[i] == if dst <= i < dst + w {
                src[soff + i - dst]
            } else {
                b[i]
            },
{
}

proof fn lemma_blit_rows_at(buf: Seq<u32>, pen: int, src: Seq<u32>, w: int, rows: nat)
    requires
        buf.len() == TIMESTAMP_PIXELS,
        0 <= pen,
        0 <= w,
        pen + w <= TIMESTAMP_STRIDE,
        rows <= TIMESTAMP_ROWS,
        rows * w <= src.len(),
    ensures
        spec_blit_rows(buf, pen, src, w, rows).len() == TIMESTAMP_PIXELS,
        forall|i: int|
            0 <= i < TIMESTAMP_PIXELS ==> #[trigger] spec_blit_rows(buf, pen, src, w, rows)[i] == if i / 320 < rows
                && pen <= i % 320 < pen + w {
                src[(i / 320) * w + i % 320 - pen]
            } else {
                buf[i]
            },
    decreases rows,
{
    if rows > 0 {
        let r = (rows - 1) as nat;
        assert(r * w <= rows * w) by (nonlinear_arith)
            requires
                r + 1 == rows,
                w >= 0,
        ;
        lemma_blit_rows_at(buf, pen, src, w, r);
        let prev = spec_blit_rows(buf, pen, src, w, r);
        let dst = r * 320 + pen;
        assert(r * w + w == rows * w) by (nonlinear_arith)
            requires
                r + 1 == rows,
        ;
        lemma_blit_row_at(prev, dst, src, r * w, w);
        assert forall|i: int| 0 <= i < TIMESTAMP_PIXELS implies #[trigger] spec_blit_rows(buf, pen, src, w, rows)[i]
            == if i / 320 < rows && pen <= i % 320 < pen + w {
            src[(i / 320) * w + i % 320 - pen]
        } else {
            buf[i]
        } by {
            assert(spec_blit_rows(buf, pen, src, w, rows)[i] == spec_blit_row(prev, dst, src, r * w, w)[i]);
            if dst <= i < dst + w {
                assert(i / 320 == r);
                assert(i % 320 == i - r * 320);
            } else {
                assert(!(i / 320 == r && pen <= i % 320 < pen + w));
            }
        }
    }
}

proof fn lemma_render_len(buf: Seq<u32>, date: Seq<u8>, glyphs: Seq<Glyph>, k: nat)
    requires
        buf.len() == TIMESTAMP_PIXELS,
        glyphs.len() >= GLYPH_COUNT,
        k <= OSD_LETTER_NUM,
        spec_line_fits(date, glyphs),
    ensures
        spec_render(buf, date, glyphs, k).len() == TIMESTAMP_PIXELS,
    decreases k,
{
    if k > 0 {
        lemma_render_len(buf, date, glyphs, (k - 1) as nat);
        lemma_render_draws_glyph(buf, date, glyphs, k);
    }
}

/// Drawing the `k`-th character of a timestamp line copies the glyph
/// that the pen holds after it, row by row, into the picture at the pen
/// position: picture row `j`, column `pen + x` (for `x` below the glyph's
/// width) gets the glyph's pixel `j * width + x`, and every other pixel
/// keeps what the first `k - 1` characters left. A character without a
/// glyph before any glyph was chosen changes nothing.
pub proof fn lemma_render_draws_glyph(buf: Seq<u32>, date: Seq<u8>, glyphs: Seq<Glyph>, k: nat)
    requires
        buf.len() == TIMESTAMP_PIXELS,
        glyphs.len() >= GLYPH_COUNT,
        1 <= k <= OSD_LETTER_NUM,
        spec_line_fits(date, glyphs),
    ensures
        spec_render(buf, date, glyphs, k).len() == TIMESTAMP_PIXELS,
        spec_pen_after(date, glyphs, k).glyph is None ==> spec_render(buf, date, glyphs, k) == spec_render(
            buf,
            date,
            glyphs,
            (k - 1) as nat,
        ),
        forall|i: int|
            0 <= i < TIMESTAMP_PIXELS && spec_pen_after(date, glyphs, k).glyph is Some ==> #[trigger] spec_render(
                buf,
                date,
                glyphs,
                k,
            )[i] == if spec_pen_after(date, glyphs, k).pen <= i % 320 < spec_pen_after(date, glyphs, k).pen
                + spec_pen_after(date, glyphs, k).adv {
                glyphs[spec_pen_after(date, glyphs, k).glyph.unwrap()].pixels@[(i / 320) * spec_pen_after(
                    date,
                    glyphs,
                    k,
                ).adv + i % 320 - spec_pen_after(date, glyphs, k).pen]
            } else {
                spec_render(buf, date, glyphs, (k - 1) as nat)[i]
            },
    decreases k, 1nat,
{
    let km1 = (k - 1) as nat;
    lemma_render_len(buf, date, glyphs, km1);
    let prev = spec_render(buf, date, glyphs, km1);
    let st = spec_pen_after(date, glyphs, k);
    lemma_pen_state(date, glyphs, k);
    assert(spec_draw_fits(date, glyphs, k));
    let src = spec_glyph_pixels(glyphs, st);
    lemma_blit_rows_at(prev, st.pen, src, st.adv, TIMESTAMP_ROWS as nat);
    if st.glyph is None {
        assert forall|i: int| 0 <= i < TIMESTAMP_PIXELS implies spec_render(buf, date, glyphs, k)[i] == prev[i] by {
            assert(spec_blit_rows(prev, st.pen, src, st.adv, TIMESTAMP_ROWS as nat)[i] == prev[i]);
        }
        assert(spec_render(buf, date, glyphs, k) =~= prev);
    }
}

} // verus!
