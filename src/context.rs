use vstd::prelude::*;

use crate::color::Color;
use crate::input::{Key, Mouse};
use crate::palette::{add_spec, Palette};

verus! {

broadcast use vstd::seq_lib::lemma_seq_contains_after_push;

fn has_key(v: &Vec<Key>, k: Key) -> (r: bool)
    ensures
        r == v@.contains(k),
{
    let mut i: usize = 0;
    while i < v.len()
        invariant
            0 <= i <= v@.len(),
            forall|j: int| 0 <= j < i ==> v@[j] != k,
        decreases v@.len() - i,
    {
        if v[i] == k {
            return true;
        }
        i += 1;
    }
    false
}

fn has_button(v: &Vec<Mouse>, m: Mouse) -> (r: bool)
    ensures
        r == v@.contains(m),
{
    let mut i: usize = 0;
    while i < v.len()
        invariant
            0 <= i <= v@.len(),
            forall|j: int| 0 <= j < i ==> v@[j] != m,
        decreases v@.len() - i,
    {
        if v[i] == m {
            return true;
        }
        i += 1;
    }
    false
}

fn without_key(v: &Vec<Key>, k: Key) -> (r: Vec<Key>)
    ensures
        forall|x: Key| r@.contains(x) <==> (v@.contains(x) && x != k),
{
    let mut r: Vec<Key> = Vec::new();
    for i in 0..v.len()
        invariant
            forall|x: Key| r@.contains(x) <==> (v@.take(i as int).contains(x) && x != k),
    {
        assert(v@.take(i + 1) =~= v@.take(i as int).push(v@[i as int]));
        if v[i] != k {
            r.push(v[i]);
        }
    }
    assert(v@.take(v@.len() as int) =~= v@);
    r
}

fn without_button(v: &Vec<Mouse>, m: Mouse) -> (r: Vec<Mouse>)
    ensures
        forall|x: Mouse| r@.contains(x) <==> (v@.contains(x) && x != m),
{
    let mut r: Vec<Mouse> = Vec::new();
    for i in 0..v.len()
        invariant
            forall|x: Mouse| r@.contains(x) <==> (v@.take(i as int).contains(x) && x != m),
    {
        assert(v@.take(i + 1) =~= v@.take(i as int).push(v@[i as int]));
        if v[i] != m {
            r.push(v[i]);
        }
    }
    assert(v@.take(v@.len() as int) =~= v@);
    r
}

/// What the application sees of the window: the palette, and the keyboard and mouse as
/// of this frame. The window feeds it events; a key or button counts as pressed in the
/// frame in which it went down.
pub struct Context {
    pub palette: Palette,
    pub keys_down: Vec<Key>,
    pub keys_changed: Vec<Key>,
    pub buttons_down: Vec<Mouse>,
    pub buttons_changed: Vec<Mouse>,
    pub mouse_x: u32,
    pub mouse_y: u32,
    pub text_input: Vec<char>,
    pub background_color: Color,
}

impl Context {
    pub open spec fn is_down(&self, k: Key) -> bool {
        self.keys_down@.contains(k)
    }

    pub open spec fn is_pressed(&self, k: Key) -> bool {
        self.keys_down@.contains(k) && self.keys_changed@.contains(k)
    }

    pub open spec fn button_is_down(&self, m: Mouse) -> bool {
        self.buttons_down@.contains(m)
    }

    pub open spec fn button_is_pressed(&self, m: Mouse) -> bool {
        self.buttons_down@.contains(m) && self.buttons_changed@.contains(m)
    }

    /// A context with the default palette, nothing held, the mouse at the origin and a
    /// black background.
    pub fn new() -> (c: Context)
        ensures
            c.palette@ == Palette::new_spec(),
            forall|k: Key| !c.is_down(k) && !c.keys_changed@.contains(k),
            forall|m: Mouse| !c.button_is_down(m) && !c.buttons_changed@.contains(m),
            c.mouse_x == 0 && c.mouse_y == 0,
            c.text_input@ == Seq::<char>::empty(),
            c.background_color.rgba == 0xff00_0000,
    {
        let c = Context {
            palette: Palette::new(),
            keys_down: Vec::new(),
            keys_changed: Vec::new(),
            buttons_down: Vec::new(),
            buttons_changed: Vec::new(),
            mouse_x: 0,
            mouse_y: 0,
            text_input: Vec::new(),
            background_color: Color::new(0, 0, 0, 255),
        };
        c
    }

    pub fn set_palette(&mut self, palette: Palette)
        ensures
            final(self).palette@ == palette@,
            final(self).keys_down == old(self).keys_down,
            final(self).keys_changed == old(self).keys_changed,
    {
        self.palette = palette;
    }

    pub fn palette(&self) -> (p: Palette)
        ensures
            p@ == self.palette@,
    {
        self.palette.clone()
    }

    /// The palette index of `color`, added to the palette if it is not there yet.
    pub fn palette_add(&mut self, color: Color) -> (r: u8)
        ensures
            (final(self).palette@, r) == add_spec(old(self).palette@, color),
            final(self).keys_down == old(self).keys_down,
            final(self).keys_changed == old(self).keys_changed,
    {
        self.palette.add_color(color)
    }

    pub fn key_down(&self, key: Key) -> (r: bool)
        ensures
            r == self.is_down(key),
    {
        has_key(&self.keys_down, key)
    }

    /// Whether `key` went down in this frame.
    pub fn key_pressed(&self, key: Key) -> (r: bool)
        ensures
            r == self.is_pressed(key),
    {
        has_key(&self.keys_down, key) && has_key(&self.keys_changed, key)
    }

    /// The characters typed in this frame.
    pub fn text_input(&self) -> (r: &Vec<char>)
        ensures
            r@ == self.text_input@,
    {
        &self.text_input
    }

    pub fn mouse_down(&self, mouse: Mouse) -> (r: bool)
        ensures
            r == self.button_is_down(mouse),
    {
        has_button(&self.buttons_down, mouse)
    }

    pub fn mouse_pressed(&self, mouse: Mouse) -> (r: bool)
        ensures
            r == self.button_is_pressed(mouse),
    {
        has_button(&self.buttons_down, mouse) && has_button(&self.buttons_changed, mouse)
    }

    pub fn mouse_position(&self) -> (r: (u32, u32))
        ensures
            r == (self.mouse_x, self.mouse_y),
    {
        (self.mouse_x, self.mouse_y)
    }

    pub fn set_background_color(&mut self, color: Color)
        ensures
            final(self).background_color == color,
            final(self).palette@ == old(self).palette@,
    {
        self.background_color = color;
    }

    /// Starts a frame: no key or button has changed yet and nothing has been typed.
    pub fn begin_frame(&mut self)
        ensures
            final(self).keys_down == old(self).keys_down,
            final(self).buttons_down == old(self).buttons_down,
            final(self).keys_changed@ == Seq::<Key>::empty(),
            final(self).buttons_changed@ == Seq::<Mouse>::empty(),
            final(self).text_input@ == Seq::<char>::empty(),
            final(self).mouse_x == old(self).mouse_x && final(self).mouse_y == old(self).mouse_y,
            final(self).palette@ == old(self).palette@,
    {
        self.keys_changed = Vec::new();
        self.buttons_changed = Vec::new();
        self.text_input = Vec::new();
    }

    /// `key` went down (`pressed`) or up.
    pub fn key_event(&mut self, key: Key, pressed: bool)
        ensures
            forall|k: Key| final(self).is_down(k) == (if k == key { pressed } else { old(self).is_down(k) }),
            forall|k: Key| #[trigger] final(self).keys_changed@.contains(k) == (k == key || old(self).keys_changed@.contains(k)),
            final(self).buttons_down == old(self).buttons_down,
            final(self).buttons_changed == old(self).buttons_changed,
            final(self).text_input == old(self).text_input,
            final(self).palette@ == old(self).palette@,
    {
        if pressed {
            if !has_key(&self.keys_down, key) {
                self.keys_down.push(key);
            }
        } else {
            self.keys_down = without_key(&self.keys_down, key);
        }
        if !has_key(&self.keys_changed, key) {
            self.keys_changed.push(key);
        }
    }

    /// Mouse button `button` went down (`pressed`) or up.
    pub fn mouse_event(&mut self, button: Mouse, pressed: bool)
        ensures
            forall|m: Mouse| final(self).button_is_down(m) == (if m == button { pressed } else { old(self).button_is_down(m) }),
            forall|m: Mouse| #[trigger] final(self).buttons_changed@.contains(m) == (m == button || old(self).buttons_changed@.contains(m)),
            final(self).keys_down == old(self).keys_down,
            final(self).keys_changed == old(self).keys_changed,
            final(self).text_input == old(self).text_input,
            final(self).palette@ == old(self).palette@,
    {
        if pressed {
            if !has_button(&self.buttons_down, button) {
                self.buttons_down.push(button);
            }
        } else {
            self.buttons_down = without_button(&self.buttons_down, button);
        }
        if !has_button(&self.buttons_changed, button) {
            self.buttons_changed.push(button);
        }
    }

    pub fn mouse_move(&mut self, x: u32, y: u32)
        ensures
            final(self).mouse_x == x && final(self).mouse_y == y,
            final(self).keys_down == old(self).keys_down,
            final(self).keys_changed == old(self).keys_changed,
            final(self).buttons_down == old(self).buttons_down,
            final(self).buttons_changed == old(self).buttons_changed,
            final(self).text_input == old(self).text_input,
            final(self).palette@ == old(self).palette@,
    {
        self.mouse_x = x;
        self.mouse_y = y;
    }

    /// `ch` was typed.
    pub fn text_event(&mut self, ch: char)
        ensures
            final(self).text_input@ == old(self).text_input@.push(ch),
            final(self).keys_down == old(self).keys_down,
            final(self).keys_changed == old(self).keys_changed,
            final(self).buttons_down == old(self).buttons_down,
            final(self).buttons_changed == old(self).buttons_changed,
            final(self).palette@ == old(self).palette@,
    {
        self.text_input.push(ch);
    }
}

} // verus!
