use vstd::prelude::*;

verus! {

/// A colour packed into one word: red in the lowest byte, then green, blue and alpha.
#[derive(Clone, Copy, Debug, PartialEq, Eq, Structural)]
pub struct Color {
    pub rgba: u32,
}

pub open spec fn pack_rgba(r: u8, g: u8, b: u8, a: u8) -> u32 {
    (r as int + 0x100 * g + 0x1_0000 * b + 0x100_0000 * a) as u32
}

impl Color {
    pub fn new(r: u8, g: u8, b: u8, a: u8) -> (c: Color)
        ensures
            c.rgba == pack_rgba(r, g, b, a),
            c.rgba == r as int + 0x100 * g + 0x1_0000 * b + 0x100_0000 * a,
            c.rgba % 0x100 == r,
            (c.rgba / 0x100) % 0x100 == g,
            (c.rgba / 0x1_0000) % 0x100 == b,
            c.rgba / 0x100_0000 == a,
    {
        proof {
            lemma_channels_of_new(r, g, b, a);
        }
        let rgba = (a as u32) << 24u32 | (b as u32) << 16u32 | (g as u32) << 8u32 | r as u32;
        assert(rgba == r as u32 + 0x100u32 * (g as u32) + 0x1_0000u32 * (b as u32) + 0x100_0000u32
            * (a as u32)) by (bit_vector)
            requires
                rgba == (a as u32) << 24u32 | (b as u32) << 16u32 | (g as u32) << 8u32 | r as u32,
        ;
        Color { rgba }
    }

    #[inline]
    pub fn red(&self) -> (r: u8)
        ensures
            r == self.rgba % 0x100,
    {
        let x = self.rgba;
        assert(x & 0xff == x % 0x100) by (bit_vector);
        (x & 0xff) as u8
    }

    #[inline]
    pub fn green(&self) -> (r: u8)
        ensures
            r == (self.rgba / 0x100) % 0x100,
    {
        let x = self.rgba;
        assert((x >> 8u32) & 0xff == (x / 0x100) % 0x100) by (bit_vector);
        ((x >> 8u32) & 0xff) as u8
    }

    #[inline]
    pub fn blue(&self) -> (r: u8)
        ensures
            r == (self.rgba / 0x1_0000) % 0x100,
    {
        let x = self.rgba;
        assert((x >> 16u32) & 0xff == (x / 0x1_0000) % 0x100) by (bit_vector);
        ((x >> 16u32) & 0xff) as u8
    }

    #[inline]
    pub fn alpha(&self) -> (r: u8)
        ensures
            r == self.rgba / 0x100_0000,
    {
        let x = self.rgba;
        assert((x >> 24u32) & 0xff == x / 0x100_0000) by (bit_vector);
        assert(x / 0x100_0000 < 0x100) by (bit_vector);
        ((x >> 24u32) & 0xff) as u8
    }
}

/// The four channels read back from a colour are the four bytes it was made from.
pub proof fn lemma_channels_of_new(r: u8, g: u8, b: u8, a: u8)
    ensures
        pack_rgba(r, g, b, a) % 0x100 == r,
        (pack_rgba(r, g, b, a) / 0x100) % 0x100 == g,
        (pack_rgba(r, g, b, a) / 0x1_0000) % 0x100 == b,
        pack_rgba(r, g, b, a) / 0x100_0000 == a,
{
    let v: int = r as int + 0x100 * g + 0x1_0000 * b + 0x100_0000 * a;
    assert(0 <= v < 0x1_0000_0000);
    assert(v % 0x100 == r) by (nonlinear_arith)
        requires v == r as int + 0x100 * g + 0x1_0000 * b + 0x100_0000 * a, r < 0x100;
    assert(v / 0x100 == g as int + 0x100 * b + 0x1_0000 * a) by (nonlinear_arith)
        requires v == r as int + 0x100 * g + 0x1_0000 * b + 0x100_0000 * a, r < 0x100;
    assert((g as int + 0x100 * b + 0x1_0000 * a) % 0x100 == g) by (nonlinear_arith)
        requires g < 0x100;
    assert(v / 0x1_0000 == b as int + 0x100 * a) by (nonlinear_arith)
        requires v == r as int + 0x100 * g + 0x1_0000 * b + 0x100_0000 * a, r < 0x100, g < 0x100;
    assert((b as int + 0x100 * a) % 0x100 == b) by (nonlinear_arith)
        requires b < 0x100;
    assert(v / 0x100_0000 == a) by (nonlinear_arith)
        requires v == r as int + 0x100 * g + 0x1_0000 * b + 0x100_0000 * a, r < 0x100, g < 0x100, b < 0x100;
}

} // verus!
