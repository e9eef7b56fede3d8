use vstd::prelude::*;

use crate::bitmap::Bitmap;
use crate::rect::Rect;

verus! {

/// A fixed-width bitmap font: glyph `n` is the cell at index `n` of a grid of cells
/// `char_width` wide and `char_height` high, laid out row by row over the bitmap.
#[derive(Clone, Debug)]
pub struct Font {
    pub bitmap: Bitmap,
    pub char_width: i32,
    pub char_height: i32,
    pub line_height: i32,
}

/// What `measure` has seen of a text: the pen's x, the widest line so far and the height.
pub open spec fn measure_from(cw: int, lh: int, chars: Seq<char>, x: int, x_max: int, y_max: int) -> (int, int)
    decreases chars.len(),
{
    if chars.len() == 0 {
        (x_max, y_max)
    } else {
        let c = chars[0];
        if (c as int) < 256 {
            let x2 = if c == '\n' { 0 } else { x + cw };
            let y2 = if c == '\n' { y_max + lh } else { y_max };
            let m2 = if x2 > x_max { x2 } else { x_max };
            measure_from(cw, lh, chars.drop_first(), x2, m2, y2)
        } else {
            measure_from(cw, lh, chars.drop_first(), x, x_max, y_max)
        }
    }
}

impl Font {
    /// A font whose every glyph cell lies on its bitmap's first column band, with
    /// metrics small enough that glyph rectangles and line advances fit in `i32`.
    pub open spec fn wf(&self) -> bool {
        &&& self.bitmap.wf()
        &&& 0 < self.char_width <= self.bitmap.width <= i32::MAX
        &&& 0 <= self.char_height < 0x80_0000
    }

    /// The glyphs per row of the bitmap.
    pub open spec fn per_row(&self) -> int {
        self.bitmap.width as int / self.char_width as int
    }

    /// The cell of the glyph for character code `n`.
    pub open spec fn glyph(&self, n: int) -> Rect {
        let cw = self.char_width as int;
        let ch = self.char_height as int;
        let gx = (n % self.per_row()) * cw;
        let gy = (n / self.per_row()) * ch;
        Rect { left: gx as i32, right: (gx + cw) as i32, top: gy as i32, bottom: (gy + ch) as i32 }
    }

    /// How far down a line break moves the pen in `text`: one and a half glyph heights.
    pub open spec fn line_advance(&self) -> int {
        (self.char_height as int * 3) / 2
    }

    /// The width and height of `chars`, as `measure` gives them.
    pub open spec fn extent(&self, chars: Seq<char>) -> (int, int) {
        measure_from(self.char_width as int, self.line_height as int, chars, 0, 0, self.char_height as int)
    }

    pub fn new(bitmap: Bitmap, char_width: u32, char_height: u32, line_height: u32) -> (f: Font)
        ensures
            f.bitmap == bitmap,
            f.char_width == char_width as i32,
            f.char_height == char_height as i32,
            f.line_height == line_height as i32,
    {
        Font {
            bitmap,
            char_width: char_width as i32,
            char_height: char_height as i32,
            line_height: line_height as i32,
        }
    }

    /// The rectangle at the origin that `text` takes: as wide as its widest line and one
    /// glyph high plus a line height per line break. Characters from 256 on are skipped.
    pub fn measure(&self, text: &str) -> (r: Rect)
        requires
            (text@.len() + 1) * (abs_i32(self.char_width) + abs_i32(self.char_height) + abs_i32(self.line_height)) <= i32::MAX,
        ensures
            r.left == 0,
            r.top == 0,
            r.right == self.extent(text@).0,
            r.bottom == self.extent(text@).1,
    {
        let cw = self.char_width;
        let lh = self.line_height;
        let ghost a = abs_i32(cw) + abs_i32(self.char_height) + abs_i32(lh);
        let ghost n = text@.len();
        let mut x_curr: i32 = 0;
        let mut x_max: i32 = 0;
        let mut y_max: i32 = self.char_height;
        proof {
            assert(text@.subrange(0, n as int) =~= text@);
        }
        for c in it: text.chars()
            invariant
                it.seq() == text@,
                n == text@.len(),
                cw == self.char_width && lh == self.line_height,
                a == abs_i32(cw) + abs_i32(self.char_height) + abs_i32(lh),
                (n + 1) * a <= i32::MAX,
                0 <= x_curr <= it.index() * abs_i32(cw) || (x_curr < 0 && -x_curr <= it.index() * abs_i32(cw)),
                0 <= x_max <= it.index() * abs_i32(cw),
                abs_i32(y_max) <= abs_i32(self.char_height) + it.index() * abs_i32(lh),
                measure_from(cw as int, lh as int, text@.subrange(it.index() as int, n as int), x_curr as int, x_max as int, y_max as int)
                    == self.extent(text@),
        {
            let ghost k = it.index();
            proof {
                assert((k + 1) * abs_i32(cw) <= (n + 1) * a && abs_i32(self.char_height) + (k + 1) * abs_i32(lh) <= (n + 1) * a)
                    by (nonlinear_arith)
                    requires
                        0 <= k < n,
                        a == abs_i32(cw) + abs_i32(self.char_height) + abs_i32(lh),
                        abs_i32(cw) >= 0 && abs_i32(self.char_height) >= 0 && abs_i32(lh) >= 0,
                ;
                assert(k * abs_i32(cw) + abs_i32(cw) == (k + 1) * abs_i32(cw)) by (nonlinear_arith);
                assert(k * abs_i32(lh) + abs_i32(lh) == (k + 1) * abs_i32(lh)) by (nonlinear_arith);
                assert(0 <= k * abs_i32(cw)) by (nonlinear_arith)
                    requires 0 <= k, 0 <= abs_i32(cw);
                let rest = text@.subrange(k as int, n as int);
                assert(rest[0] == c);
                assert(rest.drop_first() =~= text@.subrange(k + 1, n as int));
            }
            if c <= '\u{ff}' {
                if c == '\n' {
                    x_curr = 0;
                    y_max = y_max + lh;
                } else {
                    x_curr = x_curr + cw;
                }
                if x_curr > x_max {
                    x_max = x_curr;
                }
            }
        }
        proof {
            assert(text@.subrange(n as int, n as int) =~= Seq::<char>::empty());
        }
        Rect { left: 0, right: x_max, top: 0, bottom: y_max }
    }
}

pub open spec fn abs_i32(v: i32) -> int {
    if v < 0 {
        -(v as int)
    } else {
        v as int
    }
}

} // verus!
