use vstd::prelude::*;

use crate::color::{pack_rgba, Color};
use crate::context::Context;
use crate::grid::lemma_index_in_grid;
use crate::palette::add_spec;

verus! {

/// The colour of pixel `i` of row-major RGBA bytes.
pub open spec fn rgba_color(rgba: Seq<u8>, i: int) -> Color {
    Color { rgba: pack_rgba(rgba[4 * i], rgba[4 * i + 1], rgba[4 * i + 2], rgba[4 * i + 3]) }
}

/// The palette and the indices after adding the colours of the first `n` pixels of
/// `rgba` to `pal` one by one.
pub open spec fn index_colors(pal: Seq<Color>, rgba: Seq<u8>, n: nat) -> (Seq<Color>, Seq<u8>)
    decreases n,
{
    if n == 0 {
        (pal, Seq::empty())
    } else {
        let (pal_before, out) = index_colors(pal, rgba, (n - 1) as nat);
        let (pal_after, k) = add_spec(pal_before, rgba_color(rgba, n - 1));
        (pal_after, out.push(k))
    }
}

/// Bit `i` of a stream of bytes read from the most significant bit of each byte on.
pub open spec fn mask_bit(data: Seq<u8>, i: int) -> u8 {
    (data[i / 8] >> ((7 - i % 8) as u8)) & 1u8
}

/// A grid of palette indices, stored row by row.
#[derive(Clone, Debug)]
pub struct Bitmap {
    pub pixels: Vec<u8>,
    pub width: u32,
    pub height: u32,
}

impl View for Bitmap {
    type V = Seq<u8>;

    open spec fn view(&self) -> Seq<u8> {
        self.pixels@
    }
}

impl Bitmap {
    /// One index per cell.
    pub open spec fn wf(&self) -> bool {
        &&& self@.len() == self.width * self.height
        &&& self.width * self.height <= u32::MAX
    }

    /// The index at column `x`, row `y`.
    pub open spec fn at(&self, x: int, y: int) -> u8 {
        self@[y * self.width + x]
    }

    /// A bitmap `w` wide and `h` high with every index 0.
    pub fn new(w: u32, h: u32) -> (b: Bitmap)
        requires
            w * h <= u32::MAX,
        ensures
            b.wf(),
            b.width == w,
            b.height == h,
            b@ == Seq::new((w * h) as nat, |i: int| 0u8),
    {
        let pixels: Vec<u8> = vec![0u8; (w * h) as usize];
        let b = Bitmap { pixels, width: w, height: h };
        assert(b@ =~= Seq::new((w * h) as nat, |i: int| 0u8));
        b
    }

    #[inline]
    pub fn pixel(&self, x: u32, y: u32) -> (r: u8)
        requires
            self.wf(),
            x < self.width,
            y < self.height,
        ensures
            r == self.at(x as int, y as int),
    {
        proof {
            lemma_index_in_grid(x as int, y as int, self.width as int, self.height as int);
            assert(self.width * y == y * self.width) by (nonlinear_arith);
        }
        self.pixels[(self.width * y + x) as usize]
    }

    /// A bitmap `w` wide and `h` high from the set bits of `data`: 1 where a bit is
    /// set, 0 where it is clear.
    pub fn from_bitmask(data: &[u8], w: u32, h: u32) -> (b: Bitmap)
        requires
            w * h <= u32::MAX,
            w * h <= 8 * data@.len(),
        ensures
            b.wf(),
            b.width == w,
            b.height == h,
            b@ == Seq::new((w * h) as nat, |i: int| mask_bit(data@, i)),
    {
        let n = (w * h) as usize;
        let mut pixels: Vec<u8> = Vec::new();
        for i in 0..n
            invariant
                n == w * h,
                n <= 8 * data@.len(),
                pixels@ == Seq::new(i as nat, |j: int| mask_bit(data@, j)),
        {
            let byte = data[i / 8];
            let shift = (7 - i % 8) as u8;
            pixels.push((byte >> shift) & 1u8);
            assert(pixels@ =~= Seq::new((i + 1) as nat, |j: int| mask_bit(data@, j)));
        }
        Bitmap { pixels, width: w, height: h }
    }

    /// A bitmap `w` wide and `h` high from row-major RGBA bytes, each pixel's colour
    /// looked up in, or added to, the context's palette in turn.
    pub fn from_rgba(ctx: &mut Context, w: u32, h: u32, rgba: &Vec<u8>) -> (b: Bitmap)
        requires
            w * h <= u32::MAX,
            rgba@.len() == 4 * (w * h),
        ensures
            b.wf(),
            b.width == w,
            b.height == h,
            (final(ctx).palette@, b@) == index_colors(old(ctx).palette@, rgba@, (w * h) as nat),
            final(ctx).keys_down == old(ctx).keys_down,
            final(ctx).keys_changed == old(ctx).keys_changed,
    {
        let n = (w * h) as usize;
        let total = rgba.len();
        let mut pixels: Vec<u8> = Vec::new();
        for i in 0..n
            invariant
                n == w * h,
                rgba@.len() == 4 * n,
                total == rgba@.len(),
                pixels@.len() == i,
                (ctx.palette@, pixels@) == index_colors(old(ctx).palette@, rgba@, i as nat),
                ctx.keys_down == old(ctx).keys_down,
                ctx.keys_changed == old(ctx).keys_changed,
        {
            let c = Color::new(rgba[4 * i], rgba[4 * i + 1], rgba[4 * i + 2], rgba[4 * i + 3]);
            let k = ctx.palette_add(c);
            pixels.push(k);
        }
        Bitmap { pixels, width: w, height: h }
    }

    /// A bitmap `w` wide and `h` high from row-major RGBA bytes: 1 where a pixel is
    /// not fully transparent, 0 where it is. A font's glyph sheet is read this way.
    pub fn from_alpha(w: u32, h: u32, rgba: &Vec<u8>) -> (b: Bitmap)
        requires
            w * h <= u32::MAX,
            rgba@.len() == 4 * (w * h),
        ensures
            b.wf(),
            b.width == w,
            b.height == h,
            b@ == Seq::new((w * h) as nat, |i: int| if rgba@[4 * i + 3] > 0 { 1u8 } else { 0u8 }),
    {
        let n = (w * h) as usize;
        let total = rgba.len();
        let mut pixels: Vec<u8> = Vec::new();
        for i in 0..n
            invariant
                n == w * h,
                rgba@.len() == 4 * n,
                total == rgba@.len(),
                pixels@ == Seq::new(i as nat, |j: int| if rgba@[4 * j + 3] > 0 { 1u8 } else { 0u8 }),
        {
            let v: u8 = if rgba[4 * i + 3] > 0 { 1 } else { 0 };
            pixels.push(v);
            assert(pixels@ =~= Seq::new((i + 1) as nat, |j: int| if rgba@[4 * j + 3] > 0 { 1u8 } else { 0u8 }));
        }
        Bitmap { pixels, width: w, height: h }
    }
}

} // verus!
