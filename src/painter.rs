use vstd::prelude::*;

use crate::bitmap::Bitmap;
use crate::font::Font;
use crate::grid::{lemma_cell_index, lemma_index_cell, lemma_index_in_grid};
use crate::rect::Rect;

verus! {

/// Whether a drawing call may change the cell (x, y): it lies inside the clip
/// rectangle (edges included) and inside a target `w` wide and `h` high.
pub open spec fn drawable(w: int, h: int, clip: Rect, x: int, y: int) -> bool {
    &&& clip.contains(x, y)
    &&& 0 <= x < w
    &&& 0 <= y < h
}

/// The cells after setting (x, y) to `color`, where that cell is drawable.
pub open spec fn plot_spec(pix: Seq<u8>, w: int, h: int, clip: Rect, x: int, y: int, color: u8) -> Seq<u8> {
    if drawable(w, h, clip, x, y) {
        pix.update(y * w + x, color)
    } else {
        pix
    }
}

/// The cells after filling the drawable part of `rect`, right and bottom edges excluded.
pub open spec fn fill_spec(pix: Seq<u8>, w: int, h: int, clip: Rect, rect: Rect, color: u8) -> Seq<u8> {
    Seq::new(
        pix.len(),
        |i: int|
            if rect.covers(i % w, i / w) && drawable(w, h, clip, i % w, i / w) {
                color
            } else {
                pix[i]
            },
    )
}

/// The cells after each point of `pts` is plotted in turn.
pub open spec fn plot_all(pix: Seq<u8>, w: int, h: int, clip: Rect, pts: Seq<(int, int)>, color: u8) -> Seq<u8>
    decreases pts.len(),
{
    if pts.len() == 0 {
        pix
    } else {
        plot_all(plot_spec(pix, w, h, clip, pts[0].0, pts[0].1, color), w, h, clip, pts.drop_first(), color)
    }
}

/// `from` moved `k` steps towards `to`.
pub open spec fn toward(from: int, to: int, k: int) -> int {
    if from < to {
        from + k
    } else {
        from - k
    }
}

pub open spec fn dist(a: int, b: int) -> int {
    if a <= b {
        b - a
    } else {
        a - b
    }
}

/// The error term of Bresenham's walk after `i` steps along x and `j` along y.
pub open spec fn walk_err(dx: int, dy: int, i: int, j: int) -> int {
    dx - dy - i * dy + j * dx
}

/// The points that Bresenham's walk from (x0, y0) to (x1, y1) visits from the state
/// with `i` steps taken along x and `j` along y, the end point excluded.
pub open spec fn walk(x0: int, y0: int, x1: int, y1: int, i: int, j: int) -> Seq<(int, int)>
    decreases (dist(x0, x1) - i) + (dist(y0, y1) - j),
{
    let dx = dist(x0, x1);
    let dy = dist(y0, y1);
    if i < 0 || j < 0 || i > dx || j > dy || (i == dx && j == dy) {
        Seq::empty()
    } else {
        let e2 = 2 * walk_err(dx, dy, i, j);
        let i2 = if e2 > -dy { i + 1 } else { i };
        let j2 = if e2 < dx { j + 1 } else { j };
        let here = (toward(x0, x1, i), toward(y0, y1, j));
        if i2 <= dx && j2 <= dy && i2 + j2 > i + j {
            seq![here] + walk(x0, y0, x1, y1, i2, j2)
        } else {
            seq![here]
        }
    }
}

/// The points of the line from (x0, y0) to (x1, y1), the end point excluded.
pub open spec fn line_points(x0: int, y0: int, x1: int, y1: int) -> Seq<(int, int)> {
    walk(x0, y0, x1, y1, 0, 0)
}

pub open spec fn line_spec(pix: Seq<u8>, w: int, h: int, clip: Rect, x0: int, y0: int, x1: int, y1: int, color: u8) -> Seq<u8> {
    plot_all(pix, w, h, clip, line_points(x0, y0, x1, y1), color)
}

/// The four edges of `rect` drawn as lines, so that each corner is covered.
pub open spec fn stroke_spec(pix: Seq<u8>, w: int, h: int, clip: Rect, rect: Rect, color: u8) -> Seq<u8> {
    let (l, r, t, b) = (rect.left as int, rect.right as int, rect.top as int, rect.bottom as int);
    let with_top = line_spec(pix, w, h, clip, l, t, r + 1, t, color);
    let with_bottom = line_spec(with_top, w, h, clip, l, b, r + 1, b, color);
    let with_left = line_spec(with_bottom, w, h, clip, l, t, l, b, color);
    line_spec(with_left, w, h, clip, r, t, r, b, color)
}

/// Mirror the source horizontally.
pub const DRAW_FLIP_H: u32 = 1 << 1;
/// Draw every opaque source cell in one given colour.
pub const DRAW_MASK: u32 = 1 << 2;

/// The source column read for column `x` of the source rectangle.
pub open spec fn src_col(sw: int, flags: u32, x: int) -> int {
    if flags & DRAW_FLIP_H != 0 {
        sw - 1 - x
    } else {
        x
    }
}

/// The cells after copying the cells of `rect` in the source (`sw` wide, `sh` high)
/// with its top left corner at (x0, y0). A source cell of index 0 is transparent; with
/// `DRAW_MASK` every other one is drawn as `color`.
pub open spec fn blit_spec(
    pix: Seq<u8>,
    w: int,
    h: int,
    clip: Rect,
    x0: int,
    y0: int,
    src: Seq<u8>,
    sw: int,
    sh: int,
    rect: Rect,
    flags: u32,
    color: u8,
) -> Seq<u8> {
    Seq::new(
        pix.len(),
        |i: int|
            {
                let x = i % w - x0 + rect.left;
                let y = i / w - y0 + rect.top;
                let s = src[y * sw + src_col(sw, flags, x)];
                if drawable(w, h, clip, i % w, i / w) && rect.covers(x, y) && 0 <= x < sw && 0 <= y < sh && s > 0 {
                    if flags & DRAW_MASK != 0 {
                        color
                    } else {
                        s
                    }
                } else {
                    pix[i]
                }
            },
    )
}

/// The cells after drawing the glyph of `c` at (x, y) in `color`.
pub open spec fn glyph_spec(pix: Seq<u8>, w: int, h: int, clip: Rect, font: Font, x: int, y: int, c: char, color: u8) -> Seq<u8> {
    blit_spec(pix, w, h, clip, x, y, font.bitmap@, font.bitmap.width as int, font.bitmap.height as int,
        font.glyph(c as int), DRAW_MASK, color)
}

/// The cells after drawing `chars` with the pen at (x, y), lines starting at `x_start`.
/// A space or a tab moves the pen one glyph on, a line break takes it to the start of
/// the next line, and characters from 256 on are skipped.
pub open spec fn text_from(pix: Seq<u8>, w: int, h: int, clip: Rect, font: Font, x_start: int, x: int, y: int, chars: Seq<char>, color: u8) -> Seq<u8>
    decreases chars.len(),
{
    if chars.len() == 0 {
        pix
    } else {
        let c = chars[0];
        let rest = chars.drop_first();
        let cw = font.char_width as int;
        if (c as int) < 256 {
            if c == ' ' || c == '\t' {
                text_from(pix, w, h, clip, font, x_start, x + cw, y, rest, color)
            } else if c == '\n' {
                text_from(pix, w, h, clip, font, x_start, x_start, y + font.line_advance(), rest, color)
            } else {
                text_from(glyph_spec(pix, w, h, clip, font, x, y, c, color), w, h, clip, font, x_start, x + cw, y, rest, color)
            }
        } else {
            text_from(pix, w, h, clip, font, x_start, x, y, rest, color)
        }
    }
}

/// How far drawing `c` moves the pen: a glyph to the right, or a line down for a line break.
pub open spec fn char_advance(font: Font, c: char) -> (int, int) {
    if (c as int) < 256 {
        if c == '\n' {
            (0, font.line_advance())
        } else {
            (font.char_width as int, 0)
        }
    } else {
        (0, 0)
    }
}

spec fn before(px: int, py: int, x: int, y: int) -> bool {
    py < y || (py == y && px < x)
}

fn max_i64(a: i64, b: i64) -> (r: i64)
    ensures
        r == if a >= b { a } else { b },
{
    if a >= b {
        a
    } else {
        b
    }
}

fn min_i64(a: i64, b: i64) -> (r: i64)
    ensures
        r == if a <= b { a } else { b },
{
    if a <= b {
        a
    } else {
        b
    }
}

/// Draws into a bitmap that it holds, within a clip rectangle.
pub struct BitmapPainter {
    pub target: Bitmap,
    pub clip: Rect,
}

impl BitmapPainter {
    pub open spec fn wf(&self) -> bool {
        self.target.wf()
    }

    pub open spec fn w(&self) -> int {
        self.target.width as int
    }

    pub open spec fn h(&self) -> int {
        self.target.height as int
    }

    /// The same target and clip; only the cells may differ.
    pub open spec fn same_frame(&self, other: &BitmapPainter) -> bool {
        &&& self.target.width == other.target.width
        &&& self.target.height == other.target.height
        &&& self.clip == other.clip
        &&& self.target@.len() == other.target@.len()
    }

    /// A painter over `target`, clipped to the whole bitmap, edges included.
    pub fn new(target: Bitmap) -> (p: BitmapPainter)
        requires
            target.wf(),
        ensures
            p.wf(),
            p.target == target,
            p.clip == (Rect { left: 0, top: 0, right: target.width as i32, bottom: target.height as i32 }),
    {
        let w = target.width as i32;
        let h = target.height as i32;
        BitmapPainter { target, clip: Rect { left: 0, right: w, top: 0, bottom: h } }
    }

    pub fn into_bitmap(self) -> (b: Bitmap)
        ensures
            b == self.target,
    {
        self.target
    }

    pub fn size(&self) -> (r: (u32, u32))
        ensures
            r == (self.target.width, self.target.height),
    {
        (self.target.width, self.target.height)
    }

    /// Sets the clip to `rect` cut down to the bitmap, or with `None` to the whole bitmap.
    pub fn clip(&mut self, rect: Option<Rect>)
        requires
            old(self).wf(),
        ensures
            final(self).wf(),
            final(self).target == old(self).target,
            final(self).clip == (match rect {
                Some(r) => Rect {
                    left: if r.left >= 0 { r.left } else { 0 },
                    right: if r.right <= old(self).target.width as i32 { r.right } else { old(self).target.width as i32 },
                    top: if r.top >= 0 { r.top } else { 0 },
                    bottom: if r.bottom <= old(self).target.height as i32 { r.bottom } else { old(self).target.height as i32 },
                },
                None => Rect {
                    left: 0,
                    top: 0,
                    right: old(self).target.width as i32,
                    bottom: old(self).target.height as i32,
                },
            }),
    {
        let w = self.target.width as i32;
        let h = self.target.height as i32;
        match rect {
            Some(r) => {
                self.clip = r.fit(0, 0, w, h);
            },
            None => {
                self.clip = Rect::new_size(0, 0, w, h);
            },
        }
    }

    /// Sets every cell to `color`, whatever the clip.
    pub fn clear(&mut self, color: u8)
        requires
            old(self).wf(),
        ensures
            final(self).wf(),
            final(self).same_frame(old(self)),
            final(self).target@ == Seq::new(old(self).target@.len(), |i: int| color),
    {
        let n = self.target.pixels.len();
        for i in 0..n
            invariant
                self.wf(),
                self.same_frame(old(self)),
                n == self.target@.len(),
                forall|k: int| 0 <= k < i ==> self.target@[k] == color,
        {
            self.target.pixels.set(i, color);
        }
        assert(self.target@ =~= Seq::new(old(self).target@.len(), |i: int| color));
    }

    /// Sets (x, y) to `color` where it is drawable; coordinates may be far outside the target.
    fn plot(&mut self, x: i64, y: i64, color: u8)
        requires
            old(self).wf(),
        ensures
            final(self).wf(),
            final(self).same_frame(old(self)),
            final(self).target@ == plot_spec(old(self).target@, old(self).w(), old(self).h(), old(self).clip, x as int, y as int, color),
    {
        let w = self.target.width as i64;
        let h = self.target.height as i64;
        let c = self.clip;
        if c.left as i64 <= x && x <= c.right as i64 && c.top as i64 <= y && y <= c.bottom as i64
            && 0 <= x && x < w && 0 <= y && y < h {
            proof {
                lemma_index_in_grid(x as int, y as int, w as int, h as int);
            }
            let idx = (y as usize) * (self.target.width as usize) + (x as usize);
            self.target.pixels.set(idx, color);
        }
    }

    pub fn pixel(&mut self, x: i32, y: i32, color: u8)
        requires
            old(self).wf(),
        ensures
            final(self).wf(),
            final(self).same_frame(old(self)),
            final(self).target@ == plot_spec(old(self).target@, old(self).w(), old(self).h(), old(self).clip, x as int, y as int, color),
    {
        self.plot(x as i64, y as i64, color);
    }

    /// Fills the cells of `rect`, right and bottom edges excluded, within the clip.
    pub fn rect_fill(&mut self, rect: Rect, color: u8)
        requires
            old(self).wf(),
        ensures
            final(self).wf(),
            final(self).same_frame(old(self)),
            final(self).target@ == fill_spec(old(self).target@, old(self).w(), old(self).h(), old(self).clip, rect, color),
    {
        let ghost old_pix = self.target@;
        let ghost wi = self.w();
        let ghost hi = self.h();
        let ghost clip = self.clip;
        let w = self.target.width as i64;
        let h = self.target.height as i64;
        let x_lo = max_i64(max_i64(rect.left as i64, self.clip.left as i64), 0);
        let x_hi = min_i64(min_i64(rect.right as i64, self.clip.right as i64 + 1), w);
        let y_lo = max_i64(max_i64(rect.top as i64, self.clip.top as i64), 0);
        let y_hi = min_i64(min_i64(rect.bottom as i64, self.clip.bottom as i64 + 1), h);
        let ghost covered = |px: int, py: int| rect.covers(px, py) && drawable(wi, hi, clip, px, py);
        let mut y = y_lo;
        while y < y_hi
            invariant
                self.wf(),
                self.same_frame(old(self)),
                wi == w && hi == h && clip == self.clip && old_pix == old(self).target@,
                w == self.target.width && h == self.target.height,
                y_lo <= y,
                0 <= x_lo && x_hi <= w && 0 <= y_lo && y_hi <= h,
                forall|px: int, py: int| #[trigger] covered(px, py) <==> (rect.covers(px, py) && drawable(wi, hi, clip, px, py)),
                forall|px: int, py: int| #[trigger] covered(px, py) ==> x_lo <= px < x_hi && y_lo <= py < y_hi,
                forall|px: int, py: int| x_lo <= px < x_hi && y_lo <= py < y_hi ==> #[trigger] covered(px, py),
                self.target@ =~= Seq::new(old_pix.len(), |i: int| if covered(i % wi, i / wi) && i / wi < y { color } else { old_pix[i] }),
            decreases y_hi - y,
        {
            let mut x = x_lo;
            while x < x_hi
                invariant
                    self.wf(),
                    self.same_frame(old(self)),
                    wi == w && hi == h && clip == self.clip && old_pix == old(self).target@,
                    w == self.target.width && h == self.target.height,
                    x_lo <= x,
                    y_lo <= y < y_hi,
                    0 <= x_lo && x_hi <= w && 0 <= y_lo && y_hi <= h,
                    forall|px: int, py: int| #[trigger] covered(px, py) <==> (rect.covers(px, py) && drawable(wi, hi, clip, px, py)),
                    forall|px: int, py: int| #[trigger] covered(px, py) ==> x_lo <= px < x_hi && y_lo <= py < y_hi,
                    forall|px: int, py: int| x_lo <= px < x_hi && y_lo <= py < y_hi ==> #[trigger] covered(px, py),
                    self.target@ =~= Seq::new(old_pix.len(), |i: int| if covered(i % wi, i / wi) && before(i % wi, i / wi, x as int, y as int) { color } else { old_pix[i] }),
                decreases x_hi - x,
            {
                proof {
                    lemma_index_in_grid(x as int, y as int, wi, hi);
                    lemma_cell_index(x as int, y as int, wi);
                }
                let idx = (y as usize) * (self.target.width as usize) + (x as usize);
                let ghost prev = self.target@;
                self.target.pixels.set(idx, color);
                proof {
                    assert forall|i: int| 0 <= i < old_pix.len() implies #[trigger] self.target@[i] == (if covered(i % wi, i / wi) && before(i % wi, i / wi, x + 1, y as int) { color } else { old_pix[i] }) by {
                        lemma_index_cell(i, wi, hi);
                        assert(covered(x as int, y as int));
                        if i != idx {
                            assert(!(i % wi == x && i / wi == y));
                        }
                    }
                }
                x = x + 1;
            }
            proof {
                assert forall|i: int| 0 <= i < old_pix.len() implies #[trigger] self.target@[i] == (if covered(i % wi, i / wi) && i / wi < y + 1 { color } else { old_pix[i] }) by {
                    lemma_index_cell(i, wi, hi);
                }
            }
            y = y + 1;
        }
        proof {
            assert forall|i: int| 0 <= i < old_pix.len() implies #[trigger] self.target@[i] == fill_spec(old_pix, wi, hi, clip, rect, color)[i] by {
                lemma_index_cell(i, wi, hi);
            }
            assert(self.target@ =~= fill_spec(old_pix, wi, hi, clip, rect, color));
        }
    }

    /// Draws the line from (x0, y0) towards (x1, y1) with Bresenham's walk; the end
    /// point itself is not drawn.
    pub fn line(&mut self, x0: i32, y0: i32, x1: i32, y1: i32, color: u8)
        requires
            old(self).wf(),
        ensures
            final(self).wf(),
            final(self).same_frame(old(self)),
            final(self).target@ == line_spec(old(self).target@, old(self).w(), old(self).h(), old(self).clip, x0 as int, y0 as int, x1 as int, y1 as int, color),
    {
        let ghost wi = self.w();
        let ghost hi = self.h();
        let ghost clip = self.clip;
        let ghost goal = line_spec(self.target@, wi, hi, clip, x0 as int, y0 as int, x1 as int, y1 as int, color);
        let (x0, y0, x1, y1) = (x0 as i64, y0 as i64, x1 as i64, y1 as i64);
        let sx: i64 = if x0 < x1 { 1 } else { -1 };
        let sy: i64 = if y0 < y1 { 1 } else { -1 };
        let dx: i64 = if x0 <= x1 { x1 - x0 } else { x0 - x1 };
        let dy: i64 = if y0 <= y1 { y1 - y0 } else { y0 - y1 };
        let mut err: i64 = dx - dy;
        let mut x = x0;
        let mut y = y0;
        let ghost mut i: int = 0;
        let ghost mut j: int = 0;
        while x != x1 || y != y1
            invariant
                self.wf(),
                self.same_frame(old(self)),
                wi == self.w() && hi == self.h() && clip == self.clip,
                dx == dist(x0 as int, x1 as int),
                dy == dist(y0 as int, y1 as int),
                0 <= dx <= 0x1_0000_0000,
                0 <= dy <= 0x1_0000_0000,
                sx == (if x0 < x1 { 1int } else { -1int }),
                sy == (if y0 < y1 { 1int } else { -1int }),
                0 <= i <= dx,
                0 <= j <= dy,
                x == toward(x0 as int, x1 as int, i),
                y == toward(y0 as int, y1 as int, j),
                err == walk_err(dx as int, dy as int, i, j),
                -2 * dy <= err <= 2 * dx,
                plot_all(self.target@, wi, hi, clip, walk(x0 as int, y0 as int, x1 as int, y1 as int, i, j), color) == goal,
            decreases (dx - i) + (dy - j),
        {
            let ghost pts = walk(x0 as int, y0 as int, x1 as int, y1 as int, i, j);
            let e2 = 2 * err;
            let ghost i2: int = if e2 > -dy { i + 1 } else { i };
            let ghost j2: int = if e2 < dx { j + 1 } else { j };
            proof {
                assert(!(i == dx && j == dy));
                let (a, b, ii, jj) = (dx as int, dy as int, i, j);
                if ii == a {
                    assert(jj < b);
                    assert(walk_err(a, b, ii, jj) <= -b) by (nonlinear_arith)
                        requires ii == a, 0 <= jj < b, 0 <= a, walk_err(a, b, ii, jj) == a - b - ii * b + jj * a;
                }
                if jj == b {
                    assert(ii < a);
                    assert(walk_err(a, b, ii, jj) >= a) by (nonlinear_arith)
                        requires jj == b, 0 <= ii < a, 0 <= b, walk_err(a, b, ii, jj) == a - b - ii * b + jj * a;
                }
                assert(i2 <= dx && j2 <= dy && i2 + j2 > i + j);
                assert(pts == seq![(x as int, y as int)] + walk(x0 as int, y0 as int, x1 as int, y1 as int, i2, j2));
                assert(pts.drop_first() =~= walk(x0 as int, y0 as int, x1 as int, y1 as int, i2, j2));
            }
            self.plot(x, y, color);
            if e2 > -dy {
                err = err - dy;
                x = x + sx;
            }
            if e2 < dx {
                err = err + dx;
                y = y + sy;
            }
            proof {
                assert(walk_err(dx as int, dy as int, i2, j2) == err) by (nonlinear_arith)
                    requires
                        err == walk_err(dx as int, dy as int, i, j)
                            - (if i2 == i + 1 { dy as int } else { 0 })
                            + (if j2 == j + 1 { dx as int } else { 0 }),
                        i2 == i || i2 == i + 1,
                        j2 == j || j2 == j + 1,
                ;
                i = i2;
                j = j2;
            }
        }
        proof {
            assert(walk(x0 as int, y0 as int, x1 as int, y1 as int, i, j) =~= Seq::empty());
        }
    }

    /// Draws the four edges of `rect`, corners included.
    pub fn rect_stroke(&mut self, rect: Rect, color: u8)
        requires
            old(self).wf(),
            rect.right < i32::MAX,
        ensures
            final(self).wf(),
            final(self).same_frame(old(self)),
            final(self).target@ == stroke_spec(old(self).target@, old(self).w(), old(self).h(), old(self).clip, rect, color),
    {
        self.line(rect.left, rect.top, rect.right + 1, rect.top, color);
        self.line(rect.left, rect.bottom, rect.right + 1, rect.bottom, color);
        self.line(rect.left, rect.top, rect.left, rect.bottom, color);
        self.line(rect.right, rect.top, rect.right, rect.bottom, color);
    }

    /// Copies the cells of `source_rect` in `source` to (x0, y0); see `blit_spec`.
    pub fn blit(&mut self, x0: i32, y0: i32, source: &Bitmap, source_rect: Rect, flags: u32, color: u8)
        requires
            old(self).wf(),
            source.wf(),
        ensures
            final(self).wf(),
            final(self).same_frame(old(self)),
            final(self).target@ == blit_spec(old(self).target@, old(self).w(), old(self).h(), old(self).clip, x0 as int, y0 as int,
                source@, source.width as int, source.height as int, source_rect, flags, color),
    {
        self.blit_at(x0 as i64, y0 as i64, source, source_rect, flags, color);
    }

    fn blit_at(&mut self, x0: i64, y0: i64, source: &Bitmap, rect: Rect, flags: u32, color: u8)
        requires
            old(self).wf(),
            source.wf(),
            -0x4000_0000_0000_0000 <= x0 <= 0x4000_0000_0000_0000,
            -0x4000_0000_0000_0000 <= y0 <= 0x4000_0000_0000_0000,
        ensures
            final(self).wf(),
            final(self).same_frame(old(self)),
            final(self).target@ == blit_spec(old(self).target@, old(self).w(), old(self).h(), old(self).clip, x0 as int, y0 as int,
                source@, source.width as int, source.height as int, rect, flags, color),
    {
        let ghost old_pix = self.target@;
        let ghost wi = self.w();
        let ghost hi = self.h();
        let ghost clip = self.clip;
        let ghost sw = source.width as int;
        let ghost sh = source.height as int;
        let ghost goal = blit_spec(old_pix, wi, hi, clip, x0 as int, y0 as int, source@, sw, sh, rect, flags, color);
        let w = self.target.width as i64;
        let h = self.target.height as i64;
        let flip = flags & DRAW_FLIP_H != 0;
        let mask = flags & DRAW_MASK != 0;
        let x_lo = max_i64(rect.left as i64, 0);
        let x_hi = min_i64(rect.right as i64, source.width as i64);
        let y_lo = max_i64(rect.top as i64, 0);
        let y_hi = min_i64(rect.bottom as i64, source.height as i64);
        let ghost in_box = |x: int, y: int| x_lo <= x < x_hi && y_lo <= y < y_hi;
        let ghost sx_of = |i: int| i % wi - x0 + rect.left;
        let ghost sy_of = |i: int| i / wi - y0 + rect.top;
        let mut y = y_lo;
        while y < y_hi
            invariant
                self.wf(),
                self.same_frame(old(self)),
                wi == w && hi == h && clip == self.clip && old_pix == old(self).target@,
                w == self.target.width && h == self.target.height,
                sw == source.width && sh == source.height && source.wf(),
                goal == blit_spec(old_pix, wi, hi, clip, x0 as int, y0 as int, source@, sw, sh, rect, flags, color),
                flip == (flags & DRAW_FLIP_H != 0) && mask == (flags & DRAW_MASK != 0),
                -0x4000_0000_0000_0000 <= x0 <= 0x4000_0000_0000_0000,
                -0x4000_0000_0000_0000 <= y0 <= 0x4000_0000_0000_0000,
                0 <= x_lo && x_hi <= sw && 0 <= y_lo && y_hi <= sh,
                x_lo == (if rect.left >= 0 { rect.left as int } else { 0 }),
                x_hi == (if rect.right <= sw { rect.right as int } else { sw }),
                y_lo == (if rect.top >= 0 { rect.top as int } else { 0 }),
                y_hi == (if rect.bottom <= sh { rect.bottom as int } else { sh }),
                y_lo <= y,
                forall|x: int, yy: int| #[trigger] in_box(x, yy) <==> (x_lo <= x < x_hi && y_lo <= yy < y_hi),
                forall|i: int| #[trigger] sx_of(i) == i % wi - x0 + rect.left,
                forall|i: int| #[trigger] sy_of(i) == i / wi - y0 + rect.top,
                self.target@ =~= Seq::new(old_pix.len(), |i: int| if in_box(sx_of(i), sy_of(i)) && sy_of(i) < y { goal[i] } else { old_pix[i] }),
            decreases y_hi - y,
        {
            let mut x = x_lo;
            while x < x_hi
                invariant
                    self.wf(),
                    self.same_frame(old(self)),
                    wi == w && hi == h && clip == self.clip && old_pix == old(self).target@,
                    w == self.target.width && h == self.target.height,
                    sw == source.width && sh == source.height && source.wf(),
                    goal == blit_spec(old_pix, wi, hi, clip, x0 as int, y0 as int, source@, sw, sh, rect, flags, color),
                    flip == (flags & DRAW_FLIP_H != 0) && mask == (flags & DRAW_MASK != 0),
                    -0x4000_0000_0000_0000 <= x0 <= 0x4000_0000_0000_0000,
                    -0x4000_0000_0000_0000 <= y0 <= 0x4000_0000_0000_0000,
                    0 <= x_lo && x_hi <= sw && 0 <= y_lo && y_hi <= sh,
                    x_lo == (if rect.left >= 0 { rect.left as int } else { 0 }),
                    x_hi == (if rect.right <= sw { rect.right as int } else { sw }),
                    y_lo == (if rect.top >= 0 { rect.top as int } else { 0 }),
                    y_hi == (if rect.bottom <= sh { rect.bottom as int } else { sh }),
                    x_lo <= x,
                    y_lo <= y < y_hi,
                    forall|x: int, yy: int| #[trigger] in_box(x, yy) <==> (x_lo <= x < x_hi && y_lo <= yy < y_hi),
                    forall|i: int| #[trigger] sx_of(i) == i % wi - x0 + rect.left,
                    forall|i: int| #[trigger] sy_of(i) == i / wi - y0 + rect.top,
                    self.target@ =~= Seq::new(old_pix.len(), |i: int| if in_box(sx_of(i), sy_of(i)) && before(sx_of(i), sy_of(i), x as int, y as int) { goal[i] } else { old_pix[i] }),
                decreases x_hi - x,
            {
                let tx = x0 + (x - rect.left as i64);
                let ty = y0 + (y - rect.top as i64);
                let c = self.clip;
                let ghost prev = self.target@;
                if c.left as i64 <= tx && tx <= c.right as i64 && c.top as i64 <= ty && ty <= c.bottom as i64
                    && 0 <= tx && tx < w && 0 <= ty && ty < h {
                    let sx = if flip { source.width as i64 - 1 - x } else { x };
                    proof {
                        lemma_index_in_grid(sx as int, y as int, sw, sh);
                        lemma_index_in_grid(tx as int, ty as int, wi, hi);
                        lemma_cell_index(tx as int, ty as int, wi);
                    }
                    let s = source.pixels[(y as usize) * (source.width as usize) + (sx as usize)];
                    let tidx = (ty as usize) * (self.target.width as usize) + (tx as usize);
                    if s > 0 {
                        let v = if mask { color } else { s };
                        self.target.pixels.set(tidx, v);
                    }
                    proof {
                        assert(goal[tidx as int] == (if s > 0 { if mask { color } else { s } } else { old_pix[tidx as int] }));
                        assert forall|i: int| 0 <= i < old_pix.len() implies #[trigger] self.target@[i] == (if in_box(sx_of(i), sy_of(i)) && before(sx_of(i), sy_of(i), x + 1, y as int) { goal[i] } else { old_pix[i] }) by {
                            lemma_index_cell(i, wi, hi);
                            if i != tidx {
                                assert(!(sx_of(i) == x && sy_of(i) == y));
                            }
                        }
                    }
                } else {
                    proof {
                        assert forall|i: int| 0 <= i < old_pix.len() implies #[trigger] self.target@[i] == (if in_box(sx_of(i), sy_of(i)) && before(sx_of(i), sy_of(i), x + 1, y as int) { goal[i] } else { old_pix[i] }) by {
                            lemma_index_cell(i, wi, hi);
                            if sx_of(i) == x && sy_of(i) == y {
                                assert(i % wi == tx && i / wi == ty);
                                assert(goal[i] == old_pix[i]);
                            }
                        }
                    }
                }
                x = x + 1;
            }
            proof {
                assert forall|i: int| 0 <= i < old_pix.len() implies #[trigger] self.target@[i] == (if in_box(sx_of(i), sy_of(i)) && sy_of(i) < y + 1 { goal[i] } else { old_pix[i] }) by {
                    lemma_index_cell(i, wi, hi);
                }
            }
            y = y + 1;
        }
        proof {
            assert forall|i: int| 0 <= i < old_pix.len() implies #[trigger] self.target@[i] == goal[i] by {
                lemma_index_cell(i, wi, hi);
                if !in_box(sx_of(i), sy_of(i)) {
                    assert(goal[i] == old_pix[i]);
                }
            }
            assert(self.target@ =~= goal);
        }
    }

    /// Draws the glyph of character code `c` (below 256) at (x, y).
    fn glyph(&mut self, x: i64, y: i64, c: char, color: u8, font: &Font)
        requires
            old(self).wf(),
            font.wf(),
            (c as int) < 256,
            -0x4000_0000_0000_0000 <= x <= 0x4000_0000_0000_0000,
            -0x4000_0000_0000_0000 <= y <= 0x4000_0000_0000_0000,
        ensures
            final(self).wf(),
            final(self).same_frame(old(self)),
            final(self).target@ == glyph_spec(old(self).target@, old(self).w(), old(self).h(), old(self).clip, *font, x as int, y as int, c, color),
    {
        let cw = font.char_width;
        let ch = font.char_height;
        let per_row = font.bitmap.width / (cw as u32);
        let n = c as u32;
        proof {
            assert(per_row >= 1) by (nonlinear_arith)
                requires per_row == font.bitmap.width as int / cw as int, 0 < cw <= font.bitmap.width;
        }
        let gx = n % per_row;
        let gy = n / per_row;
        proof {
            let (bw, cwi, pr) = (font.bitmap.width as int, cw as int, per_row as int);
            assert((gx as int + 1) * cwi <= bw) by (nonlinear_arith)
                requires pr == bw / cwi, 0 < cwi, 0 <= gx < pr;
            assert(gx as int * cwi + cwi == (gx as int + 1) * cwi) by (nonlinear_arith);
            assert(gy <= n) by (nonlinear_arith)
                requires gy == n / per_row, per_row >= 1;
            assert((gy as int + 1) * (ch as int) < 0x8000_0000) by (nonlinear_arith)
                requires 0 <= gy <= 255, 0 <= ch < 0x80_0000;
            assert(gy as int * ch + ch == (gy as int + 1) * ch) by (nonlinear_arith);
            assert(0 <= gx as int * cwi) by (nonlinear_arith)
                requires 0 <= gx, 0 < cwi;
            assert(0 <= gy as int * ch) by (nonlinear_arith)
                requires 0 <= gy, 0 <= ch;
        }
        let r = Rect::new_size(gx as i32 * cw, gy as i32 * ch, cw, ch);
        assert(r == font.glyph(c as int));
        self.blit_at(x, y, &font.bitmap, r, DRAW_MASK, color);
    }

    /// Draws `text` with the pen starting at (x, y); see `text_from`.
    pub fn text(&mut self, x: i32, y: i32, text: &str, color: u8, font: &Font)
        requires
            old(self).wf(),
            font.wf(),
            text@.len() < 0x4000_0000,
        ensures
            final(self).wf(),
            final(self).same_frame(old(self)),
            final(self).target@ == text_from(old(self).target@, old(self).w(), old(self).h(), old(self).clip, *font, x as int, x as int, y as int, text@, color),
    {
        let ghost wi = self.w();
        let ghost hi = self.h();
        let ghost clip = self.clip;
        let ghost n = text@.len();
        let ghost goal = text_from(self.target@, wi, hi, clip, *font, x as int, x as int, y as int, text@, color);
        let cw = font.char_width as i64;
        let adv = (font.char_height as i64 * 3) / 2;
        let mut x_curr = x as i64;
        let mut y_curr = y as i64;
        proof {
            assert(text@.subrange(0, n as int) =~= text@);
        }
        for c in it: text.chars()
            invariant
                it.seq() == text@,
                n == text@.len(),
                n < 0x4000_0000,
                self.wf(),
                self.same_frame(old(self)),
                wi == self.w() && hi == self.h() && clip == self.clip,
                font.wf(),
                cw == font.char_width && adv == font.line_advance(),
                0 <= adv < 0xC0_0000,
                x <= x_curr <= x + it.index() * cw,
                y <= y_curr <= y + it.index() * adv,
                text_from(self.target@, wi, hi, clip, *font, x as int, x_curr as int, y_curr as int,
                    text@.subrange(it.index() as int, n as int), color) == goal,
        {
            let ghost k = it.index();
            proof {
                assert(k * cw + cw == (k + 1) * cw) by (nonlinear_arith);
                assert(k * adv + adv == (k + 1) * adv) by (nonlinear_arith);
                assert((k + 1) * cw <= 0x4000_0000 * 0x8000_0000) by (nonlinear_arith)
                    requires 0 <= k < 0x4000_0000, 0 < cw < 0x8000_0000;
                assert((k + 1) * adv <= 0x4000_0000 * 0xC0_0000) by (nonlinear_arith)
                    requires 0 <= k < 0x4000_0000, 0 <= adv < 0xC0_0000;
                assert(0 <= k * cw) by (nonlinear_arith)
                    requires 0 <= k, 0 < cw;
                assert(0 <= k * adv) by (nonlinear_arith)
                    requires 0 <= k, 0 <= adv;
                let rest = text@.subrange(k as int, n as int);
                assert(rest[0] == c);
                assert(rest.drop_first() =~= text@.subrange(k + 1, n as int));
            }
            if c <= '\u{ff}' {
                if c == ' ' || c == '\t' {
                    x_curr = x_curr + cw;
                } else if c == '\n' {
                    x_curr = x as i64;
                    y_curr = y_curr + adv;
                } else {
                    self.glyph(x_curr, y_curr, c, color, font);
                    x_curr = x_curr + cw;
                }
            }
        }
        proof {
            assert(text@.subrange(n as int, n as int) =~= Seq::<char>::empty());
        }
    }

    /// Draws the one character `ch` at (x, y) as `text` would, and returns how far it
    /// moves the pen.
    pub fn char(&mut self, x: i32, y: i32, ch: char, color: u8, font: &Font) -> (r: (i32, i32))
        requires
            old(self).wf(),
            font.wf(),
        ensures
            final(self).wf(),
            final(self).same_frame(old(self)),
            final(self).target@ == text_from(old(self).target@, old(self).w(), old(self).h(), old(self).clip, *font, x as int, x as int, y as int, seq![ch], color),
            r.0 == char_advance(*font, ch).0,
            r.1 == char_advance(*font, ch).1,
    {
        proof {
            assert(seq![ch].drop_first() =~= Seq::<char>::empty());
            reveal_with_fuel(text_from, 2);
        }
        if ch <= '\u{ff}' {
            if ch == '\n' {
                (0, (font.char_height * 3) / 2)
            } else {
                if ch != ' ' && ch != '\t' {
                    self.glyph(x as i64, y as i64, ch, color, font);
                }
                (font.char_width, 0)
            }
        } else {
            (0, 0)
        }
    }
}

} // verus!

verus! {

/// What an application draws with.
pub trait Painter {
    /// Whether the painter is in a state to draw.
    spec fn ready(&self) -> bool;

    fn size(&self) -> (u32, u32);

    fn clip(&mut self, rect: Option<Rect>)
        requires
            old(self).ready(),
        ensures
            final(self).ready(),
    ;

    fn clear(&mut self, color: u8)
        requires
            old(self).ready(),
        ensures
            final(self).ready(),
    ;

    fn pixel(&mut self, x: i32, y: i32, color: u8)
        requires
            old(self).ready(),
        ensures
            final(self).ready(),
    ;

    fn line(&mut self, x1: i32, y1: i32, x2: i32, y2: i32, color: u8)
        requires
            old(self).ready(),
        ensures
            final(self).ready(),
    ;

    fn rect_stroke(&mut self, rect: Rect, color: u8)
        requires
            old(self).ready(),
            rect.right < i32::MAX,
        ensures
            final(self).ready(),
    ;

    fn rect_fill(&mut self, rect: Rect, color: u8)
        requires
            old(self).ready(),
        ensures
            final(self).ready(),
    ;

    fn blit(&mut self, x: i32, y: i32, source: &Bitmap, source_rect: Rect, flags: u32, color: u8)
        requires
            old(self).ready(),
            source.wf(),
        ensures
            final(self).ready(),
    ;

    fn text(&mut self, x: i32, y: i32, text: &str, color: u8, font: &Font)
        requires
            old(self).ready(),
            font.wf(),
            text@.len() < 0x4000_0000,
        ensures
            final(self).ready(),
    ;

    fn char(&mut self, x: i32, y: i32, ch: char, color: u8, font: &Font) -> (r: (i32, i32))
        requires
            old(self).ready(),
            font.wf(),
        ensures
            final(self).ready(),
    ;
}

impl Painter for BitmapPainter {
    open spec fn ready(&self) -> bool {
        self.wf()
    }

    fn size(&self) -> (u32, u32) {
        BitmapPainter::size(self)
    }

    fn clip(&mut self, rect: Option<Rect>) {
        BitmapPainter::clip(self, rect)
    }

    fn clear(&mut self, color: u8) {
        BitmapPainter::clear(self, color)
    }

    fn pixel(&mut self, x: i32, y: i32, color: u8) {
        BitmapPainter::pixel(self, x, y, color)
    }

    fn line(&mut self, x1: i32, y1: i32, x2: i32, y2: i32, color: u8) {
        BitmapPainter::line(self, x1, y1, x2, y2, color)
    }

    fn rect_stroke(&mut self, rect: Rect, color: u8) {
        BitmapPainter::rect_stroke(self, rect, color)
    }

    fn rect_fill(&mut self, rect: Rect, color: u8) {
        BitmapPainter::rect_fill(self, rect, color)
    }

    fn blit(&mut self, x: i32, y: i32, source: &Bitmap, source_rect: Rect, flags: u32, color: u8) {
        BitmapPainter::blit(self, x, y, source, source_rect, flags, color)
    }

    fn text(&mut self, x: i32, y: i32, text: &str, color: u8, font: &Font) {
        BitmapPainter::text(self, x, y, text, color, font)
    }

    fn char(&mut self, x: i32, y: i32, ch: char, color: u8, font: &Font) -> (r: (i32, i32)) {
        BitmapPainter::char(self, x, y, ch, color, font)
    }
}

} // verus!
