use vstd::prelude::*;

verus! {

pub open spec fn min_int(a: int, b: int) -> int {
    if a <= b {
        a
    } else {
        b
    }
}

pub open spec fn max_int(a: int, b: int) -> int {
    if a >= b {
        a
    } else {
        b
    }
}

pub open spec fn fits_i32(v: int) -> bool {
    i32::MIN <= v <= i32::MAX
}

fn min_i32(a: i32, b: i32) -> (r: i32)
    ensures
        r == min_int(a as int, b as int),
{
    if a <= b {
        a
    } else {
        b
    }
}

fn max_i32(a: i32, b: i32) -> (r: i32)
    ensures
        r == max_int(a as int, b as int),
{
    if a >= b {
        a
    } else {
        b
    }
}

/// An axis-aligned rectangle given by its four edges.
#[derive(Clone, Copy, Debug, PartialEq, Eq, Structural)]
pub struct Rect {
    pub left: i32,
    pub right: i32,
    pub top: i32,
    pub bottom: i32,
}

impl Rect {
    /// Whether the point lies within the edges, edges included.
    pub open spec fn contains(self, x: int, y: int) -> bool {
        self.left <= x <= self.right && self.top <= y <= self.bottom
    }

    /// Whether the point lies in the area that a fill covers: right and bottom edges excluded.
    pub open spec fn covers(self, x: int, y: int) -> bool {
        self.left <= x < self.right && self.top <= y < self.bottom
    }

    pub open spec fn spec_width(self) -> int {
        self.right - self.left
    }

    pub open spec fn spec_height(self) -> int {
        self.bottom - self.top
    }

    pub fn new(left: i32, top: i32, right: i32, bottom: i32) -> (r: Rect)
        ensures
            r == (Rect { left, right, top, bottom }),
    {
        Rect { left, right, top, bottom }
    }

    /// The rectangle with its top left corner at (x, y), `w` wide and `h` high.
    pub fn new_size(x: i32, y: i32, w: i32, h: i32) -> (r: Rect)
        requires
            fits_i32(x + w),
            fits_i32(y + h),
        ensures
            r.left == x,
            r.top == y,
            r.right == x + w,
            r.bottom == y + h,
    {
        Rect { left: x, right: x + w, top: y, bottom: y + h }
    }

    #[inline]
    pub fn inside(&self, x: i32, y: i32) -> (r: bool)
        ensures
            r == self.contains(x as int, y as int),
    {
        self.left <= x && x <= self.right && self.top <= y && y <= self.bottom
    }

    /// Each edge of `self` pulled into the span of `r`; the bottom edge takes the
    /// larger of the two bottoms.
    pub fn intersect(&self, r: Rect) -> (out: Rect)
        ensures
            out.left == min_int(r.right as int, max_int(self.left as int, r.left as int)),
            out.right == max_int(r.left as int, min_int(self.right as int, r.right as int)),
            out.top == min_int(r.bottom as int, max_int(self.top as int, r.top as int)),
            out.bottom == max_int(r.top as int, max_int(self.bottom as int, r.bottom as int)),
    {
        Rect {
            left: min_i32(r.right, max_i32(self.left, r.left)),
            right: max_i32(r.left, min_i32(self.right, r.right)),
            top: min_i32(r.bottom, max_i32(self.top, r.top)),
            bottom: max_i32(r.top, max_i32(self.bottom, r.bottom)),
        }
    }

    /// The rectangle moved by (x, y).
    #[inline]
    pub fn tr(&self, x: i32, y: i32) -> (r: Rect)
        requires
            fits_i32(self.left + x),
            fits_i32(self.right + x),
            fits_i32(self.top + y),
            fits_i32(self.bottom + y),
        ensures
            r.left == self.left + x,
            r.right == self.right + x,
            r.top == self.top + y,
            r.bottom == self.bottom + y,
    {
        Rect {
            left: self.left + x,
            right: self.right + x,
            top: self.top + y,
            bottom: self.bottom + y,
        }
    }

    /// The rectangle cut down to the area `w` wide and `h` high at (x, y).
    pub fn fit(&self, x: i32, y: i32, w: i32, h: i32) -> (r: Rect)
        requires
            fits_i32(x + w),
            fits_i32(y + h),
        ensures
            r.left == max_int(self.left as int, x as int),
            r.right == min_int(self.right as int, x + w),
            r.top == max_int(self.top as int, y as int),
            r.bottom == min_int(self.bottom as int, y + h),
    {
        Rect {
            left: max_i32(self.left, x),
            right: min_i32(self.right, x + w),
            top: max_i32(self.top, y),
            bottom: min_i32(self.bottom, y + h),
        }
    }

    /// The rectangle with its right edge moved by `w` and its bottom edge by `h`.
    #[inline]
    pub fn grow(&self, w: i32, h: i32) -> (r: Rect)
        requires
            fits_i32(self.right + w),
            fits_i32(self.bottom + h),
        ensures
            r.left == self.left,
            r.right == self.right + w,
            r.top == self.top,
            r.bottom == self.bottom + h,
    {
        Rect { left: self.left, right: self.right + w, top: self.top, bottom: self.bottom + h }
    }

    #[inline]
    pub fn width(&self) -> (r: i32)
        requires
            fits_i32(self.spec_width()),
        ensures
            r == self.spec_width(),
    {
        self.right - self.left
    }

    #[inline]
    pub fn height(&self) -> (r: i32)
        requires
            fits_i32(self.spec_height()),
        ensures
            r == self.spec_height(),
    {
        self.bottom - self.top
    }
}

} // verus!
