use imp_sample::timestamp::{
    glyph_index, line_fits, render_timestamp, Glyph, GLYPH_COUNT, TIMESTAMP_PIXELS, TIMESTAMP_STRIDE,
};

fn font(width: u32) -> Vec<Glyph> {
    (0..GLYPH_COUNT as u32)
        .map(|g| Glyph { width, pixels: vec![1000 + g; 34 * width as usize] })
        .collect()
}

#[test]
fn glyph_slots() {
    assert_eq!(glyph_index(b'0'), Some(0));
    assert_eq!(glyph_index(b'9'), Some(9));
    assert_eq!(glyph_index(b'-'), Some(10));
    assert_eq!(glyph_index(b' '), Some(11));
    assert_eq!(glyph_index(b':'), Some(12));
    assert_eq!(glyph_index(b'a'), None);
    assert_eq!(glyph_index(0), None);
}

#[test]
fn standard_line_is_drawn_after_each_advance() {
    let glyphs = font(16);
    let mut date = b"2024-02-04 07:05:09".to_vec();
    date.resize(40, 0);
    assert!(line_fits(&date, &glyphs));
    let mut buf = vec![0u32; TIMESTAMP_PIXELS];
    render_timestamp(&mut buf, &date, &glyphs);
    // The first glyph lands one cell to the right: the pen advances first.
    assert_eq!(buf[0], 0);
    assert_eq!(buf[15], 0);
    assert_eq!(buf[16], 1002);
    assert_eq!(buf[32], 1000);
    assert_eq!(buf[16 * 5], 1010);
    assert_eq!(buf[16 * 11], 1011);
    assert_eq!(buf[TIMESTAMP_STRIDE * 33 + 16 * 19], 1009);
    // The terminator redraws the last digit in the same place.
    assert_eq!(buf[TIMESTAMP_STRIDE + 16 * 19 + 15], 1009);
}

#[test]
fn full_line_of_glyphs_does_not_fit() {
    let glyphs = font(16);
    let mut date = b"2024-02-04 07:05:091".to_vec();
    date.resize(40, 0);
    assert!(!line_fits(&date, &glyphs));
    let narrow = font(8);
    assert!(line_fits(&date, &narrow));
}

#[test]
fn glyph_without_enough_pixels_does_not_fit() {
    let mut glyphs = font(16);
    glyphs[3].pixels.truncate(10);
    let mut date = b"3".to_vec();
    date.resize(40, 0);
    assert!(!line_fits(&date, &glyphs));
    let mut ok = b"1".to_vec();
    ok.resize(40, 0);
    assert!(line_fits(&ok, &glyphs));
}

#[test]
fn unknown_characters_draw_nothing_first() {
    let glyphs = font(16);
    let date = vec![b'x'; 40];
    let mut buf = vec![7u32; TIMESTAMP_PIXELS];
    render_timestamp(&mut buf, &date, &glyphs);
    assert!(buf.iter().all(|p| *p == 7));
}
