use std::rc::Rc;

use tiny::bitmap::Bitmap;
use tiny::cmd::{Cmd, Config, Var};
use tiny::context::Context;
use tiny::font::Font;
use tiny::game::{Game, MAX_UNITS};
use tiny::input::{keycode_win32_to_tiny, Key, Mouse};
use tiny::painter::BitmapPainter;

fn dot_font() -> Font {
    let mut data = vec![0u8; 32];
    data[8] = 0x40;
    data[7] = 0x02;
    Font::new(Bitmap::from_bitmask(&data, 256, 1), 1, 1, 3)
}

fn config(lines: usize) -> Config {
    Config { font: dot_font(), background_color: 2, foreground_color: 7, cursor_color: 9, lines }
}

#[test]
fn var_set_and_get() {
    let mut v = Var { value: 1 };
    v.set(42);
    assert_eq!(v.get(), 42);
}

#[test]
fn register_var_once_per_name() {
    let mut cmd = Cmd::new(config(3));
    let v = cmd.register_var("show-performance", 0).unwrap();
    assert_eq!(v.get(), 0);
    let w = cmd.register_var("speed", 7).unwrap();
    assert_eq!(w.get(), 7);
    let e = cmd.register_var("show-performance", 1);
    assert_eq!(e, Err("Variable already pressent".to_string()));
    assert_eq!(cmd.var_names.len(), 2);
}

#[test]
fn register_func_and_exec_accept() {
    let cmd = Cmd::new(config(3));
    assert_eq!(cmd.register_func("quit".to_string()), Ok(()));
    assert_eq!(cmd.exec("quit".to_string()), Ok(()));
}

#[test]
fn echo_scrolls_once_full() {
    let mut cmd = Cmd::new(config(2));
    cmd.echo("one".to_string());
    assert_eq!(cmd.scrolling, 0);
    cmd.echo("two".to_string());
    assert_eq!(cmd.scrolling, 1);
    cmd.echo("three".to_string());
    assert_eq!(cmd.scrolling, 2);
    assert_eq!(cmd.history, vec!["one", "two", "three"]);
}

#[test]
fn step_edits_and_enters_line() {
    let mut cmd = Cmd::new(config(3));
    let mut ctx = Context::new();
    ctx.text_event('a');
    ctx.text_event('b');
    cmd.step(&ctx);
    assert_eq!(cmd.input, vec!['a', 'b']);
    assert_eq!(cmd.cursor, 2);

    ctx.begin_frame();
    ctx.key_event(Key::Left, true);
    cmd.step(&ctx);
    assert_eq!(cmd.cursor, 1);

    ctx.begin_frame();
    ctx.text_event('x');
    cmd.step(&ctx);
    assert_eq!(cmd.input, vec!['a', 'x', 'b']);
    assert_eq!(cmd.cursor, 2);

    ctx.begin_frame();
    ctx.key_event(Key::Left, false);
    ctx.key_event(Key::Back, true);
    cmd.step(&ctx);
    assert_eq!(cmd.input, vec!['a', 'b']);
    assert_eq!(cmd.cursor, 1);

    ctx.begin_frame();
    ctx.key_event(Key::Back, false);
    ctx.key_event(Key::End, true);
    cmd.step(&ctx);
    assert_eq!(cmd.cursor, 2);

    ctx.begin_frame();
    ctx.key_event(Key::Home, true);
    ctx.key_event(Key::Right, true);
    cmd.step(&ctx);
    assert_eq!(cmd.cursor, 1);

    ctx.begin_frame();
    ctx.key_event(Key::Return, true);
    cmd.step(&ctx);
    assert_eq!(cmd.history, vec![">ab"]);
    assert!(cmd.input.is_empty());
    assert_eq!(cmd.cursor, 0);
}

#[test]
fn paint_draws_background_prompt_and_cursor() {
    let mut cmd = Cmd::new(config(2));
    cmd.echo("A".to_string());
    let mut p = BitmapPainter::new(Bitmap::new(8, 12));
    cmd.paint(&mut p);
    assert_eq!((p.clip.left, p.clip.top, p.clip.right, p.clip.bottom), (0, 0, 8, 12));
    let b = p.into_bitmap();
    // background: 8 wide, 3 * 2 + 2 high
    assert_eq!(b.pixel(0, 0), 2);
    assert_eq!(b.pixel(7, 7), 2);
    assert_eq!(b.pixel(0, 8), 0);
    // history line "A" at (2, 2)
    assert_eq!(b.pixel(2, 2), 7);
    // prompt '>' at (2, 5), cursor block after it
    assert_eq!(b.pixel(2, 5), 7);
    assert_eq!(b.pixel(3, 5), 9);
}

#[test]
fn win32_keycodes() {
    assert_eq!(keycode_win32_to_tiny(8), Some(Key::Back));
    assert_eq!(keycode_win32_to_tiny(27), Some(Key::Escape));
    assert_eq!(keycode_win32_to_tiny(123), Some(Key::F12));
    assert_eq!(keycode_win32_to_tiny(200), None);
}

#[test]
fn context_tracks_keys_and_buttons() {
    let mut ctx = Context::new();
    ctx.key_event(Key::A, true);
    assert!(ctx.key_down(Key::A));
    assert!(ctx.key_pressed(Key::A));
    assert!(!ctx.key_down(Key::B));
    ctx.begin_frame();
    assert!(ctx.key_down(Key::A));
    assert!(!ctx.key_pressed(Key::A));
    ctx.key_event(Key::A, false);
    assert!(!ctx.key_down(Key::A));
    ctx.mouse_event(Mouse::Left, true);
    assert!(ctx.mouse_down(Mouse::Left));
    assert!(ctx.mouse_pressed(Mouse::Left));
    assert!(!ctx.mouse_down(Mouse::Right));
    ctx.mouse_move(5, 6);
    assert_eq!(ctx.mouse_position(), (5, 6));
    ctx.text_event('z');
    assert_eq!(ctx.text_input(), &vec!['z']);
}

#[test]
fn game_new_links_free_units() {
    let g = Game::new(Rc::new(Cmd::new(config(2))));
    assert_eq!(g.units.len(), MAX_UNITS);
    assert_eq!(g.units[0].next_free, Some(1));
    assert_eq!(g.units[MAX_UNITS - 2].next_free, Some(MAX_UNITS - 1));
    assert_eq!(g.units[MAX_UNITS - 1].next_free, None);
    assert_eq!(g.map.cells.len(), 80 * 60);
    assert!(g.map.cells.iter().all(|c| c.unit.is_none()));
}
