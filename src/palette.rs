use vstd::prelude::*;

use crate::color::{pack_rgba, Color};

pub mod dawn_bringer;
pub mod standard;

verus! {

/// Whether `c` occurs in `s`, and at `k` for the first time.
pub open spec fn first_at(s: Seq<Color>, c: Color, k: int) -> bool {
    &&& 0 <= k < s.len()
    &&& s[k] == c
    &&& forall|j: int| 0 <= j < k ==> s[j] != c
}

/// The first index at which `c` occurs in `s`, where it does.
pub open spec fn first_index(s: Seq<Color>, c: Color) -> int {
    choose|k: int| first_at(s, c, k)
}

pub proof fn lemma_first_at_unique(s: Seq<Color>, c: Color, a: int, b: int)
    requires
        first_at(s, c, a),
        first_at(s, c, b),
    ensures
        a == b,
{
    if a < b {
        assert(s[a] == c);
    } else if b < a {
        assert(s[b] == c);
    }
}

/// The palette and index after adding `c` to `s`: the index of its first occurrence,
/// or else a new entry at the end. The index is a byte, so past 255 entries it wraps.
pub open spec fn add_spec(s: Seq<Color>, c: Color) -> (Seq<Color>, u8) {
    if exists|k: int| first_at(s, c, k) {
        (s, first_index(s, c) as u8)
    } else {
        (s.push(c), s.len() as u8)
    }
}

/// The colours that indices of a palette-indexed bitmap stand for.
#[derive(Debug)]
pub struct Palette {
    colors: Vec<Color>,
}

impl View for Palette {
    type V = Seq<Color>;

    closed spec fn view(&self) -> Seq<Color> {
        self.colors@
    }
}

impl Clone for Palette {
    fn clone(&self) -> (r: Palette)
        ensures
            r@ == self@,
    {
        let mut colors: Vec<Color> = Vec::new();
        for i in 0..self.colors.len()
            invariant
                colors@ == self.colors@.take(i as int),
        {
            colors.push(self.colors[i]);
            assert(colors@ =~= self.colors@.take(i + 1));
        }
        assert(colors@ =~= self.colors@);
        Palette { colors }
    }
}

impl Palette {
    pub open spec fn new_spec() -> Seq<Color> {
        seq![
            Color { rgba: pack_rgba(0, 0, 0, 0) },
            Color { rgba: pack_rgba(0, 0, 0, 255) },
            Color { rgba: pack_rgba(255, 255, 255, 255) },
        ]
    }

    /// A palette of transparent, black and white, at indices 0, 1 and 2.
    pub fn new() -> (p: Palette)
        ensures
            p@ == Palette::new_spec(),
    {
        let p = Palette {
            colors: vec![Color::new(0, 0, 0, 0), Color::new(0, 0, 0, 255), Color::new(255, 255, 255, 255)],
        };
        assert(p@ =~= seq![
            Color { rgba: pack_rgba(0, 0, 0, 0) },
            Color { rgba: pack_rgba(0, 0, 0, 255) },
            Color { rgba: pack_rgba(255, 255, 255, 255) },
        ]);
        p
    }

    pub fn from_colors(colors: Vec<Color>) -> (p: Palette)
        ensures
            p@ == colors@,
    {
        Palette { colors }
    }

    pub fn colors(&self) -> (r: &Vec<Color>)
        ensures
            r@ == self@,
    {
        &self.colors
    }

    /// The index of `color`; see `add_spec`.
    pub fn add_color(&mut self, color: Color) -> (r: u8)
        ensures
            (final(self)@, r) == add_spec(old(self)@, color),
    {
        let mut i: usize = 0;
        while i < self.colors.len()
            invariant
                0 <= i <= self.colors@.len(),
                forall|j: int| 0 <= j < i ==> self.colors@[j] != color,
            decreases self.colors@.len() - i,
        {
            if self.colors[i].rgba == color.rgba {
                assert(first_at(self@, color, i as int));
                proof {
                    lemma_first_at_unique(self@, color, i as int, first_index(self@, color));
                }
                return i as u8;
            }
            i += 1;
        }
        assert forall|k: int| !first_at(self@, color, k) by {
            if 0 <= k < self@.len() {
                assert(self.colors@[k] != color);
            }
        }
        self.colors.push(color);
        (self.colors.len() - 1) as u8
    }
}

} // verus!
