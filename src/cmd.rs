use vstd::prelude::*;

use crate::context::Context;
use crate::font::Font;
use crate::input::Key;
use crate::painter::{char_advance, fill_spec, text_from, BitmapPainter};
use crate::rect::Rect;

verus! {

broadcast use vstd::string::group_string_axioms;

/// A console variable: an integer with a name in the console's registry.
#[derive(Clone, Copy, Debug, PartialEq, Eq, Structural)]
pub struct Var {
    pub value: i32,
}

impl Var {
    fn new(default_value: i32) -> (v: Var)
        ensures
            v.value == default_value,
    {
        Var { value: default_value }
    }

    #[inline]
    pub fn set(&mut self, value: i32)
        ensures
            final(self).value == value,
    {
        self.value = value;
    }

    #[inline]
    pub fn get(&self) -> (r: i32)
        ensures
            r == self.value,
    {
        self.value
    }
}

/// A console command.
pub struct Function {}

/// How the console looks: its font, colours and the number of lines it shows.
#[derive(Clone)]
pub struct Config {
    pub font: Font,
    pub background_color: u8,
    pub foreground_color: u8,
    pub cursor_color: u8,
    pub lines: usize,
}

/// The line being typed and the cursor after `typed` is entered at the cursor.
pub open spec fn typed_spec(input: Seq<char>, cursor: int, typed: Seq<char>) -> (Seq<char>, int) {
    (input.take(cursor) + typed + input.skip(cursor), cursor + typed.len())
}

/// The line and the cursor after a backspace: the character before the cursor goes.
pub open spec fn back_spec(input: Seq<char>, cursor: int) -> (Seq<char>, int) {
    if input.len() > 0 && cursor > 0 {
        (input.remove(cursor - 1), cursor - 1)
    } else {
        (input, cursor)
    }
}

/// The line as it stands when the editing keys of a frame have been applied, before
/// Return is looked at: text typed, then Back, Home and End.
pub open spec fn edited_spec(input: Seq<char>, cursor: int, ctx: Context) -> (Seq<char>, int) {
    let (i1, c1) = typed_spec(input, cursor, ctx.text_input@);
    let (i2, c2) = if ctx.is_pressed(Key::Back) { back_spec(i1, c1) } else { (i1, c1) };
    let c3 = if ctx.is_pressed(Key::Home) { 0 } else { c2 };
    let c4 = if ctx.is_pressed(Key::End) { i2.len() as int } else { c3 };
    (i2, c4)
}

/// The cursor after Return (which empties the line), Left and Right.
pub open spec fn moved_cursor(line: Seq<char>, cursor: int, ctx: Context) -> int {
    let len = if ctx.is_pressed(Key::Return) { 0 } else { line.len() as int };
    let c5 = if ctx.is_pressed(Key::Return) { 0 } else { cursor };
    let c6 = if ctx.is_pressed(Key::Left) && c5 > 0 { c5 - 1 } else { c5 };
    if ctx.is_pressed(Key::Right) && c6 < len { c6 + 1 } else { c6 }
}

/// The cells after drawing `lines` one below the other, the first with its pen at
/// (x, y) and each next one `lh` lower.
pub open spec fn lines_spec(pix: Seq<u8>, w: int, h: int, clip: Rect, font: Font, lines: Seq<String>, x: int, y: int, lh: int, color: u8) -> Seq<u8>
    decreases lines.len(),
{
    if lines.len() == 0 {
        pix
    } else {
        let p = text_from(pix, w, h, clip, font, x, x, y, lines[0]@, color);
        lines_spec(p, w, h, clip, font, lines.drop_first(), x, y + lh, lh, color)
    }
}

/// The block that marks the cursor with the pen at (x, y).
pub open spec fn cursor_rect(font: Font, x: int, y: int) -> Rect {
    Rect { left: x as i32, right: (x + font.char_width) as i32, top: y as i32, bottom: (y + font.char_height) as i32 }
}

/// The cells after drawing `chars`, the rest of the edited line from character `pos`
/// on, with the pen at (x, y) and the cursor block under the character at `cursor`,
/// or after the last one.
pub open spec fn input_spec(pix: Seq<u8>, w: int, h: int, clip: Rect, font: Font, chars: Seq<char>, x: int, y: int,
    pos: int, cursor: int, fg: u8, cc: u8) -> Seq<u8>
    decreases chars.len(),
{
    let marked = if cursor == pos { fill_spec(pix, w, h, clip, cursor_rect(font, x, y), cc) } else { pix };
    if chars.len() == 0 {
        marked
    } else {
        let drawn = text_from(marked, w, h, clip, font, x, x, y, seq![chars[0]], fg);
        input_spec(drawn, w, h, clip, font, chars.drop_first(), x + char_advance(font, chars[0]).0, y, pos + 1, cursor, fg, cc)
    }
}

/// Builds a string from its characters.
/// Relies on `String: FromIterator<char>`, which keeps the characters in order.
#[verifier::external_body]
fn string_of(chars: &Vec<char>) -> (r: String)
    ensures
        r@ == chars@,
{
    chars.iter().collect()
}

/// A developer console: a registry of variables, a line being edited and a history of
/// the lines entered or echoed.
pub struct Cmd {
    pub var_names: Vec<String>,
    pub var_values: Vec<Var>,
    pub input: Vec<char>,
    pub cursor: usize,
    pub history: Vec<String>,
    pub scrolling: usize,
    pub config: Config,
}

impl Cmd {
    pub open spec fn wf(&self) -> bool {
        &&& self.var_names@.len() == self.var_values@.len()
        &&& forall|i: int, j: int|
            0 <= i < j < self.var_names@.len() ==> self.var_names@[i]@ != self.var_names@[j]@
        &&& self.cursor <= self.input@.len()
        &&& self.scrolling <= self.history@.len()
    }

    /// Whether a variable of that name is registered.
    pub open spec fn has_var(&self, name: Seq<char>) -> bool {
        exists|i: int| 0 <= i < self.var_names@.len() && self.var_names@[i]@ == name
    }

    pub fn new(config: Config) -> (c: Cmd)
        ensures
            c.wf(),
            c.config == config,
            c.var_names@.len() == 0,
            c.input@.len() == 0,
            c.cursor == 0,
            c.history@.len() == 0,
            c.scrolling == 0,
    {
        Cmd {
            var_names: Vec::new(),
            var_values: Vec::new(),
            input: Vec::new(),
            cursor: 0,
            history: Vec::new(),
            scrolling: 0,
            config,
        }
    }

    /// Registers a variable named `name` holding `default_value`; a name can be
    /// registered once.
    pub fn register_var(&mut self, name: &str, default_value: i32) -> (r: Result<Var, String>)
        requires
            old(self).wf(),
        ensures
            final(self).wf(),
            old(self).has_var(name@) ==> {
                &&& r is Err
                &&& r->Err_0@ == "Variable already pressent"@
                &&& final(self).var_names@ == old(self).var_names@
                &&& final(self).var_values@ == old(self).var_values@
            },
            !old(self).has_var(name@) ==> {
                &&& r == Ok::<Var, String>(Var { value: default_value })
                &&& final(self).var_names@.len() == old(self).var_names@.len() + 1
                &&& final(self).var_names@.drop_last() == old(self).var_names@
                &&& final(self).var_names@.last()@ == name@
                &&& final(self).var_values@ == old(self).var_values@.push(Var { value: default_value })
            },
            final(self).input == old(self).input,
            final(self).cursor == old(self).cursor,
            final(self).history == old(self).history,
            final(self).scrolling == old(self).scrolling,
            final(self).config == old(self).config,
    {
        let key = name.to_string();
        assert(key@ == name@);
        let mut i: usize = 0;
        while i < self.var_names.len()
            invariant
                *self == *old(self),
                self.wf(),
                0 <= i <= self.var_names@.len(),
                key@ == name@,
                forall|j: int| 0 <= j < i ==> self.var_names@[j]@ != name@,
            decreases self.var_names@.len() - i,
        {
            if self.var_names[i] == key {
                assert(self.var_names@[i as int]@ == name@);
                return Err("Variable already pressent".to_string());
            }
            i += 1;
        }
        let var = Var::new(default_value);
        self.var_names.push(key);
        self.var_values.push(var);
        assert(self.var_names@.drop_last() =~= old(self).var_names@);
        Ok(var)
    }

    pub fn register_func(&self, _name: String) -> (r: Result<(), String>)
        ensures
            r is Ok,
    {
        Ok(())
    }

    pub fn exec(&self, _line: String) -> (r: Result<(), String>)
        ensures
            r is Ok,
    {
        Ok(())
    }

    /// Adds `text` to the history; once the history fills the console, it scrolls by a line.
    pub fn echo(&mut self, text: String)
        requires
            old(self).wf(),
        ensures
            final(self).wf(),
            final(self).history@ == old(self).history@.push(text),
            final(self).scrolling == (if final(self).history@.len() >= old(self).config.lines {
                old(self).scrolling + 1
            } else {
                old(self).scrolling as int
            }),
            final(self).input == old(self).input,
            final(self).cursor == old(self).cursor,
            final(self).var_names == old(self).var_names,
            final(self).var_values == old(self).var_values,
            final(self).config == old(self).config,
    {
        self.history.push(text);
        if self.history.len() >= self.config.lines {
            self.scrolling = self.scrolling + 1;
        }
    }

    /// Applies a frame's input to the line being edited: typed text goes in at the
    /// cursor, Back deletes before it, Home and End move it to either end, Return
    /// enters the line into the history after a `>`, and Left and Right move the cursor.
    pub fn step(&mut self, ctx: &Context)
        requires
            old(self).wf(),
        ensures
            final(self).wf(),
            ({
                let (line, c) = edited_spec(old(self).input@, old(self).cursor as int, *ctx);
                &&& final(self).input@ == (if ctx.is_pressed(Key::Return) { Seq::empty() } else { line })
                &&& final(self).cursor == moved_cursor(line, c, *ctx)
                &&& ctx.is_pressed(Key::Return) ==> {
                    &&& final(self).history@.len() == old(self).history@.len() + 1
                    &&& final(self).history@.drop_last() == old(self).history@
                    &&& final(self).history@.last()@ == seq!['>'] + line
                    &&& final(self).scrolling == (if final(self).history@.len() >= old(self).config.lines {
                        old(self).scrolling + 1
                    } else {
                        old(self).scrolling as int
                    })
                }
                &&& !ctx.is_pressed(Key::Return) ==> {
                    &&& final(self).history == old(self).history
                    &&& final(self).scrolling == old(self).scrolling
                }
            }),
            final(self).var_names == old(self).var_names,
            final(self).var_values == old(self).var_values,
            final(self).config == old(self).config,
    {
        self.insert_typed(ctx.text_input());
        if ctx.key_pressed(Key::Back) {
            self.back();
        }
        if ctx.key_pressed(Key::Home) {
            self.cursor = 0;
        }
        if ctx.key_pressed(Key::End) {
            self.cursor = self.input.len();
        }
        if ctx.key_pressed(Key::Return) {
            self.enter();
        }
        if ctx.key_pressed(Key::Left) {
            if self.cursor > 0 {
                self.cursor = self.cursor - 1;
            }
        }
        if ctx.key_pressed(Key::Right) {
            if self.cursor < self.input.len() {
                self.cursor = self.cursor + 1;
            }
        }
    }

    /// The registry, history and configuration are as they were.
    pub open spec fn same_but_line(&self, other: &Cmd) -> bool {
        &&& self.history == other.history
        &&& self.scrolling == other.scrolling
        &&& self.var_names == other.var_names
        &&& self.var_values == other.var_values
        &&& self.config == other.config
    }

    fn insert_typed(&mut self, typed: &Vec<char>)
        requires
            old(self).wf(),
        ensures
            final(self).wf(),
            (final(self).input@, final(self).cursor as int) == typed_spec(old(self).input@, old(self).cursor as int, typed@),
            final(self).same_but_line(old(self)),
    {
        let ghost input0 = self.input@;
        let ghost cursor0 = self.cursor as int;
        let n = typed.len();
        for k in 0..n
            invariant
                self.wf(),
                n == typed@.len(),
                self.input@ == input0.take(cursor0) + typed@.take(k as int) + input0.skip(cursor0),
                self.cursor == cursor0 + k,
                0 <= cursor0 <= input0.len(),
                self.same_but_line(old(self)),
        {
            self.input.insert(self.cursor, typed[k]);
            // the line's length, a usize, bounds the cursor
            let len = self.input.len();
            assert(self.input@ =~= input0.take(cursor0) + typed@.take(k + 1) + input0.skip(cursor0));
            self.cursor = self.cursor + 1;
        }
        assert(typed@.take(n as int) =~= typed@);
    }

    fn back(&mut self)
        requires
            old(self).wf(),
        ensures
            final(self).wf(),
            (final(self).input@, final(self).cursor as int) == back_spec(old(self).input@, old(self).cursor as int),
            final(self).same_but_line(old(self)),
    {
        if self.input.len() > 0 {
            if self.input.len() == self.cursor {
                self.input.pop();
                self.cursor = self.cursor - 1;
                assert(self.input@ =~= old(self).input@.remove(old(self).cursor - 1));
            } else if self.cursor > 0 {
                self.input.remove(self.cursor - 1);
                self.cursor = self.cursor - 1;
            }
        }
    }

    /// Enters the line into the history after a `>` and starts a new one.
    fn enter(&mut self)
        requires
            old(self).wf(),
        ensures
            final(self).wf(),
            final(self).input@ == Seq::<char>::empty(),
            final(self).cursor == 0,
            final(self).history@.len() == old(self).history@.len() + 1,
            final(self).history@.drop_last() == old(self).history@,
            final(self).history@.last()@ == seq!['>'] + old(self).input@,
            final(self).scrolling == (if final(self).history@.len() >= old(self).config.lines {
                old(self).scrolling + 1
            } else {
                old(self).scrolling as int
            }),
            final(self).var_names == old(self).var_names,
            final(self).var_values == old(self).var_values,
            final(self).config == old(self).config,
    {
        let mut entered: Vec<char> = Vec::new();
        entered.push('>');
        for k in 0..self.input.len()
            invariant
                entered@ == seq!['>'] + self.input@.take(k as int),
        {
            entered.push(self.input[k]);
            assert(entered@ =~= seq!['>'] + self.input@.take(k + 1));
        }
        assert(self.input@.take(self.input@.len() as int) =~= self.input@);
        let s = string_of(&entered);
        self.echo(s);
        self.input.clear();
        self.cursor = 0;
        assert(self.history@.drop_last() =~= old(self).history@);
    }

    /// The history lines on show: from the scrolled-to line on, one less than the
    /// console has lines.
    pub open spec fn shown(&self) -> Seq<String> {
        let n = self.history@.len() as int;
        let from = self.scrolling as int;
        let to = if from + self.config.lines - 1 <= n { from + self.config.lines - 1 } else { n };
        self.history@.subrange(from, to)
    }

    /// The rectangle that the console covers on a target `w` wide.
    pub open spec fn frame(&self, w: int) -> Rect {
        Rect {
            left: 0,
            top: 0,
            right: w as i32,
            bottom: (self.config.font.line_height * self.config.lines + 2) as i32,
        }
    }

    /// The clip within the console's frame, two cells in from its edges, on a target `w`
    /// wide and `h` high.
    pub open spec fn inner_clip(&self, w: int, h: int) -> Rect {
        let f = self.frame(w);
        let right = f.right - 2;
        let bottom = f.bottom - 2;
        Rect {
            left: 2,
            top: 2,
            right: if right <= w as i32 { right as i32 } else { w as i32 },
            bottom: if bottom <= h as i32 { bottom as i32 } else { h as i32 },
        }
    }

    /// The cells after the console is painted over `pix`, on a target `w` wide and `h`
    /// high: its background, the history lines on show, and a prompt with the edited
    /// line and its cursor.
    pub open spec fn paint_spec(&self, pix: Seq<u8>, w: int, h: int) -> Seq<u8> {
        let font = self.config.font;
        let lh = font.line_height as int;
        let full = Rect { left: 0, top: 0, right: w as i32, bottom: h as i32 };
        let inner = self.inner_clip(w, h);
        let fg = self.config.foreground_color;
        let filled = fill_spec(pix, w, h, full, self.frame(w), self.config.background_color);
        let with_history = lines_spec(filled, w, h, inner, font, self.shown(), 2, 2, lh, fg);
        let y = 2 + self.shown().len() * lh;
        let with_prompt = text_from(with_history, w, h, inner, font, 2, 2, y, seq!['>'], fg);
        input_spec(with_prompt, w, h, inner, font, self.input@, 2 + char_advance(font, '>').0, y, 0, self.cursor as int, fg,
            self.config.cursor_color)
    }

    /// Paints the console at the top of the painter's target; see `paint_spec`. The
    /// painter is left clipped to its whole target.
    pub fn paint(&self, painter: &mut BitmapPainter)
        requires
            self.wf(),
            old(painter).wf(),
            self.config.font.wf(),
            1 <= self.config.lines <= i32::MAX,
            old(painter).target.width <= i32::MAX - 2,
            0 <= self.config.font.line_height,
            (self.config.lines + 1) * self.config.font.line_height + self.config.font.char_height + 4 <= i32::MAX,
            (self.input@.len() + 2) * self.config.font.char_width + 2 <= i32::MAX,
            forall|i: int| 0 <= i < self.history@.len() ==> #[trigger] self.history@[i]@.len() < 0x4000_0000,
        ensures
            final(painter).wf(),
            final(painter).target.width == old(painter).target.width,
            final(painter).target.height == old(painter).target.height,
            final(painter).clip == (Rect { left: 0, top: 0, right: old(painter).target.width as i32, bottom: old(painter).target.height as i32 }),
            final(painter).target@ == self.paint_spec(old(painter).target@, old(painter).w(), old(painter).h()),
    {
        let ghost wi = painter.w();
        let ghost hi = painter.h();
        let font = &self.config.font;
        let lh = font.line_height;
        let cw = font.char_width;
        let ch = font.char_height;
        let fg = self.config.foreground_color;
        let (w, _) = painter.size();
        let lines = self.config.lines;
        proof {
            assert(lh * lines <= (lines + 1) * lh) by (nonlinear_arith)
                requires 0 <= lh, 0 <= lines;
            assert(0 <= lh * lines) by (nonlinear_arith)
                requires 0 <= lh, 0 <= lines;
        }
        let h = lh * lines as i32;
        let background_rect = Rect::new(0, 0, w as i32, h + 2);
        assert(background_rect == self.frame(wi));
        painter.clip(None);
        painter.rect_fill(background_rect, self.config.background_color);
        let ghost filled = painter.target@;
        painter.clip(Some(background_rect.tr(2, 2).grow(-4, -4)));
        let ghost inner = painter.clip;
        assert(inner == self.inner_clip(wi, hi));

        let n = self.history.len();
        let from = self.scrolling;
        let to = if lines - 1 <= n - from { from + (lines - 1) } else { n };
        let ghost shown = self.shown();
        assert(shown == self.history@.subrange(from as int, to as int));
        let mut y_input: i32 = 2;
        proof {
            assert((from - from) * lh == 0) by (nonlinear_arith);
            assert(shown.subrange(0, shown.len() as int) =~= shown);
        }
        for k in from..to
            invariant
                painter.wf(),
                painter.target.width == old(painter).target.width,
                painter.target.height == old(painter).target.height,
                wi == painter.w() && hi == painter.h() && painter.clip == inner,
                font == &self.config.font,
                font.wf(),
                lh == font.line_height,
                0 <= lh,
                from <= to <= n,
                n == self.history@.len(),
                to - from <= lines - 1,
                shown == self.history@.subrange(from as int, to as int),
                (lines + 1) * lh + font.char_height + 4 <= i32::MAX,
                y_input == 2 + (k - from) * lh,
                forall|i: int| 0 <= i < self.history@.len() ==> #[trigger] self.history@[i]@.len() < 0x4000_0000,
                lines_spec(painter.target@, wi, hi, inner, *font, shown.subrange(k - from, shown.len() as int), 2, y_input as int, lh as int, fg)
                    == lines_spec(filled, wi, hi, inner, *font, shown, 2, 2, lh as int, fg),
        {
            let ghost rest = shown.subrange(k - from, shown.len() as int);
            proof {
                assert(rest[0] == self.history@[k as int]);
                assert(rest.drop_first() =~= shown.subrange(k - from + 1, shown.len() as int));
                assert((k - from + 1) * lh <= (lines + 1) * lh) by (nonlinear_arith)
                    requires 0 <= lh, k - from + 1 <= lines;
                assert((k - from) * lh + lh == (k - from + 1) * lh) by (nonlinear_arith);
                assert(0 <= (k - from) * lh) by (nonlinear_arith)
                    requires 0 <= lh, k >= from;
            }
            painter.text(2, y_input, self.history[k].as_str(), fg, font);
            y_input = y_input + lh;
        }
        proof {
            assert(shown.subrange(shown.len() as int, shown.len() as int) =~= Seq::<String>::empty());
            assert(y_input == 2 + shown.len() * lh);
        }

        let mut x_input: i32 = 2;
        let (dx, _) = painter.char(x_input, y_input, '>', fg, font);
        assert(('>' as int) < 256 && '>' != '\n');
        assert(dx == cw);
        assert(2 * cw <= (self.input@.len() + 2) * cw) by (nonlinear_arith)
            requires 0 < cw;
        x_input = x_input + dx;
        let ghost with_prompt = painter.target@;
        let ghost goal = input_spec(with_prompt, wi, hi, inner, *font, self.input@, x_input as int, y_input as int, 0, self.cursor as int, fg,
            self.config.cursor_color);
        let cursor = self.cursor;
        let len = self.input.len();
        proof {
            assert(self.input@.subrange(0, len as int) =~= self.input@);
            assert((0 + 1) * cw == cw) by (nonlinear_arith);
            assert(y_input + ch <= i32::MAX) by (nonlinear_arith)
                requires
                    y_input == 2 + shown.len() * lh,
                    shown.len() <= lines - 1,
                    0 <= lh,
                    (lines + 1) * lh + ch + 4 <= i32::MAX;
            assert(0 <= shown.len() * lh) by (nonlinear_arith)
                requires 0 <= lh;
        }
        for pos in 0..len
            invariant
                painter.wf(),
                painter.target.width == old(painter).target.width,
                painter.target.height == old(painter).target.height,
                wi == painter.w() && hi == painter.h() && painter.clip == inner,
                font == &self.config.font,
                font.wf(),
                cw == font.char_width && ch == font.char_height,
                len == self.input@.len(),
                cursor == self.cursor,
                (len + 2) * cw + 2 <= i32::MAX,
                2 <= y_input && y_input + ch <= i32::MAX,
                2 <= x_input <= 2 + (pos + 1) * cw,
                input_spec(painter.target@, wi, hi, inner, *font, self.input@.subrange(pos as int, len as int), x_input as int, y_input as int,
                    pos as int, cursor as int, fg, self.config.cursor_color) == goal,
        {
            let c = self.input[pos];
            proof {
                let rest = self.input@.subrange(pos as int, len as int);
                assert(rest[0] == c);
                assert(rest.drop_first() =~= self.input@.subrange(pos + 1, len as int));
                assert((pos + 2) * cw <= (len + 2) * cw) by (nonlinear_arith)
                    requires pos < len, 0 < cw;
                assert((pos + 1) * cw + cw == (pos + 2) * cw) by (nonlinear_arith);
            }
            if cursor == pos {
                painter.rect_fill(Rect::new_size(x_input, y_input, cw, ch), self.config.cursor_color);
            }
            let (dx, _) = painter.char(x_input, y_input, c, fg, font);
            x_input = x_input + dx;
        }
        proof {
            assert((len + 1) * cw + cw == (len + 2) * cw) by (nonlinear_arith);
            assert(self.input@.subrange(len as int, len as int) =~= Seq::<char>::empty());
        }
        if cursor == len {
            painter.rect_fill(Rect::new_size(x_input, y_input, cw, ch), self.config.cursor_color);
        }
        painter.clip(None);
    }
}

} // verus!
