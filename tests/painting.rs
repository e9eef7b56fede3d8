use tiny::bitmap::Bitmap;
use tiny::color::Color;
use tiny::context::Context;
use tiny::font::Font;
use tiny::painter::{BitmapPainter, DRAW_FLIP_H, DRAW_MASK};
use tiny::rect::Rect;

fn cells(b: &Bitmap) -> Vec<u8> {
    let mut v = Vec::new();
    for y in 0..b.height {
        for x in 0..b.width {
            v.push(b.pixel(x, y));
        }
    }
    v
}

/// A font of 1 by 1 glyphs, one row of 256, where only the glyph of 'A' is set.
fn dot_font() -> Font {
    let mut data = vec![0u8; 32];
    data[8] = 0x40;
    Font::new(Bitmap::from_bitmask(&data, 256, 1), 1, 1, 3)
}

#[test]
fn bitmap_new_is_blank() {
    let b = Bitmap::new(3, 2);
    assert_eq!(cells(&b), vec![0; 6]);
}

#[test]
fn bitmap_from_bitmask_reads_high_bit_first() {
    let b = Bitmap::from_bitmask(&[0b1010_0000], 2, 2);
    assert_eq!(cells(&b), vec![1, 0, 1, 0]);
}

#[test]
fn bitmap_from_rgba_indexes_palette() {
    let mut ctx = Context::new();
    let rgba = vec![0, 0, 0, 255, 10, 20, 30, 255, 10, 20, 30, 255, 255, 255, 255, 255];
    let b = Bitmap::from_rgba(&mut ctx, 2, 2, &rgba);
    assert_eq!(cells(&b), vec![1, 3, 3, 2]);
    assert_eq!(ctx.palette().colors().len(), 4);
    assert_eq!(ctx.palette().colors()[3], Color::new(10, 20, 30, 255));
}

#[test]
fn painter_pixel_within_clip_and_target() {
    let mut p = BitmapPainter::new(Bitmap::new(4, 4));
    p.pixel(1, 2, 5);
    p.pixel(-1, 0, 6);
    p.pixel(4, 0, 7);
    p.pixel(0, 4, 7);
    let b = p.into_bitmap();
    let mut want = vec![0; 16];
    want[2 * 4 + 1] = 5;
    assert_eq!(cells(&b), want);
}

#[test]
fn painter_clear_ignores_clip() {
    let mut p = BitmapPainter::new(Bitmap::new(3, 3));
    p.clip(Some(Rect::new(0, 0, 0, 0)));
    p.clear(7);
    assert_eq!(cells(&p.into_bitmap()), vec![7; 9]);
}

#[test]
fn painter_rect_fill_excludes_right_and_bottom() {
    let mut p = BitmapPainter::new(Bitmap::new(4, 4));
    p.rect_fill(Rect::new(1, 1, 3, 3), 9);
    let b = p.into_bitmap();
    assert_eq!(
        cells(&b),
        vec![0, 0, 0, 0, 0, 9, 9, 0, 0, 9, 9, 0, 0, 0, 0, 0]
    );
}

#[test]
fn painter_rect_fill_respects_clip_edges() {
    let mut p = BitmapPainter::new(Bitmap::new(4, 4));
    p.clip(Some(Rect::new(0, 0, 1, 1)));
    assert_eq!((p.clip.left, p.clip.top, p.clip.right, p.clip.bottom), (0, 0, 1, 1));
    p.rect_fill(Rect::new(-10, -10, 40, 40), 3);
    let b = p.into_bitmap();
    assert_eq!(
        cells(&b),
        vec![3, 3, 0, 0, 3, 3, 0, 0, 0, 0, 0, 0, 0, 0, 0, 0]
    );
}

#[test]
fn painter_clip_is_cut_to_target() {
    let mut p = BitmapPainter::new(Bitmap::new(4, 3));
    p.clip(Some(Rect::new(-2, 1, 9, 9)));
    assert_eq!((p.clip.left, p.clip.top, p.clip.right, p.clip.bottom), (0, 1, 4, 3));
    p.clip(None);
    assert_eq!((p.clip.left, p.clip.top, p.clip.right, p.clip.bottom), (0, 0, 4, 3));
    assert_eq!(p.size(), (4, 3));
}

#[test]
fn line_horizontal_leaves_end_point() {
    let mut p = BitmapPainter::new(Bitmap::new(4, 1));
    p.line(0, 0, 3, 0, 1);
    assert_eq!(cells(&p.into_bitmap()), vec![1, 1, 1, 0]);
}

#[test]
fn line_diagonal_and_backwards() {
    let mut p = BitmapPainter::new(Bitmap::new(4, 4));
    p.line(3, 3, 0, 0, 2);
    let b = p.into_bitmap();
    assert_eq!(
        cells(&b),
        vec![0, 0, 0, 0, 0, 2, 0, 0, 0, 0, 2, 0, 0, 0, 0, 2]
    );
}

#[test]
fn line_steep_bresenham_points() {
    let mut p = BitmapPainter::new(Bitmap::new(2, 4));
    p.line(0, 0, 1, 3, 1);
    assert_eq!(cells(&p.into_bitmap()), vec![1, 0, 1, 0, 0, 1, 0, 0]);
}

#[test]
fn line_of_one_point_draws_nothing() {
    let mut p = BitmapPainter::new(Bitmap::new(2, 2));
    p.line(1, 1, 1, 1, 4);
    assert_eq!(cells(&p.into_bitmap()), vec![0; 4]);
}

#[test]
fn rect_stroke_draws_border_with_corners() {
    let mut p = BitmapPainter::new(Bitmap::new(5, 5));
    p.rect_stroke(Rect::new(0, 0, 3, 3), 2);
    let b = p.into_bitmap();
    assert_eq!(
        cells(&b),
        vec![
            2, 2, 2, 2, 0, //
            2, 0, 0, 2, 0, //
            2, 0, 0, 2, 0, //
            2, 2, 2, 2, 0, //
            0, 0, 0, 0, 0,
        ]
    );
}

fn two_cell_source() -> Bitmap {
    let mut s = BitmapPainter::new(Bitmap::new(2, 1));
    s.pixel(0, 0, 5);
    s.into_bitmap()
}

#[test]
fn blit_copies_opaque_cells() {
    let src = two_cell_source();
    let mut p = BitmapPainter::new(Bitmap::new(4, 2));
    p.clear(8);
    p.blit(1, 1, &src, Rect::new(0, 0, 2, 1), 0, 0);
    assert_eq!(cells(&p.into_bitmap()), vec![8, 8, 8, 8, 8, 5, 8, 8]);
}

#[test]
fn blit_mask_uses_color() {
    let src = two_cell_source();
    let mut p = BitmapPainter::new(Bitmap::new(4, 2));
    p.blit(1, 1, &src, Rect::new(0, 0, 2, 1), DRAW_MASK, 9);
    assert_eq!(cells(&p.into_bitmap()), vec![0, 0, 0, 0, 0, 9, 0, 0]);
}

#[test]
fn blit_flip_mirrors_source() {
    let src = two_cell_source();
    let mut p = BitmapPainter::new(Bitmap::new(4, 2));
    p.blit(1, 1, &src, Rect::new(0, 0, 2, 1), DRAW_FLIP_H, 0);
    assert_eq!(cells(&p.into_bitmap()), vec![0, 0, 0, 0, 0, 0, 5, 0]);
}

#[test]
fn blit_clips_to_target() {
    let src = two_cell_source();
    let mut p = BitmapPainter::new(Bitmap::new(2, 2));
    p.blit(-1, 0, &src, Rect::new(0, 0, 2, 1), 0, 0);
    p.blit(1, 1, &src, Rect::new(0, 0, 2, 1), 0, 0);
    assert_eq!(cells(&p.into_bitmap()), vec![0, 0, 0, 5]);
}

#[test]
fn text_lays_out_glyphs_spaces_and_newlines() {
    let font = dot_font();
    let mut p = BitmapPainter::new(Bitmap::new(4, 3));
    p.text(0, 0, "A A\nA\u{263a}A", 4, &font);
    let b = p.into_bitmap();
    assert_eq!(cells(&b), vec![4, 0, 4, 0, 4, 4, 0, 0, 0, 0, 0, 0]);
}

#[test]
fn text_glyph_is_masked() {
    let font = dot_font();
    let mut p = BitmapPainter::new(Bitmap::new(2, 1));
    p.text(0, 0, "BA", 6, &font);
    assert_eq!(cells(&p.into_bitmap()), vec![0, 6]);
}

#[test]
fn char_returns_advance() {
    let font = dot_font();
    let mut p = BitmapPainter::new(Bitmap::new(2, 2));
    assert_eq!(p.char(1, 1, 'A', 3, &font), (1, 0));
    assert_eq!(p.char(0, 0, '\n', 3, &font), (0, 1));
    assert_eq!(p.char(0, 0, '\u{263a}', 3, &font), (0, 0));
    assert_eq!(p.char(0, 0, ' ', 3, &font), (1, 0));
    assert_eq!(cells(&p.into_bitmap()), vec![0, 0, 0, 3]);
}

#[test]
fn font_measure_widest_line_and_height() {
    let font = dot_font();
    let r = font.measure("AB\nA");
    assert_eq!((r.left, r.top, r.right, r.bottom), (0, 0, 2, 4));
    let e = font.measure("");
    assert_eq!((e.right, e.bottom), (0, 1));
}

#[test]
fn bitmap_from_alpha_marks_opaque_pixels() {
    let rgba = vec![1, 2, 3, 0, 0, 0, 0, 1, 255, 255, 255, 255];
    let b = Bitmap::from_alpha(3, 1, &rgba);
    assert_eq!(cells(&b), vec![0, 1, 1]);
}
