use tiny::color::Color;
use tiny::palette::{dawn_bringer, standard, Palette};
use tiny::rect::Rect;

#[test]
fn it_works() {}

#[test]
fn rect_new_size_sets_edges() {
    let r = Rect::new_size(1, 2, 3, 4);
    assert_eq!((r.left, r.top, r.right, r.bottom), (1, 2, 4, 6));
    assert_eq!(r.width(), 3);
    assert_eq!(r.height(), 4);
}

#[test]
fn rect_inside_includes_edges() {
    let r = Rect::new(0, 0, 10, 10);
    assert!(r.inside(0, 0));
    assert!(r.inside(10, 10));
    assert!(!r.inside(11, 0));
    assert!(!r.inside(0, -1));
}

#[test]
fn rect_intersect_takes_larger_bottom() {
    let a = Rect::new(0, 0, 10, 10);
    let b = Rect::new(5, 5, 20, 20);
    let r = a.intersect(b);
    assert_eq!((r.left, r.top, r.right, r.bottom), (5, 5, 10, 20));
}

#[test]
fn rect_fit_tr_grow() {
    let r = Rect::new(-5, -5, 50, 50).fit(0, 0, 20, 10);
    assert_eq!((r.left, r.top, r.right, r.bottom), (0, 0, 20, 10));
    let t = r.tr(2, 3);
    assert_eq!((t.left, t.top, t.right, t.bottom), (2, 3, 22, 13));
    let g = t.grow(4, -5);
    assert_eq!((g.left, g.top, g.right, g.bottom), (2, 3, 26, 8));
}

#[test]
fn color_packs_and_unpacks_channels() {
    let c = Color::new(1, 2, 3, 4);
    assert_eq!(c.rgba, 0x0403_0201);
    assert_eq!((c.red(), c.green(), c.blue(), c.alpha()), (1, 2, 3, 4));
    let w = Color::new(255, 0, 128, 255);
    assert_eq!((w.red(), w.green(), w.blue(), w.alpha()), (255, 0, 128, 255));
}

#[test]
fn palette_add_color_finds_or_appends() {
    let mut p = Palette::new();
    assert_eq!(p.colors().len(), 3);
    assert_eq!(p.add_color(Color::new(0, 0, 0, 255)), 1);
    assert_eq!(p.colors().len(), 3);
    assert_eq!(p.add_color(Color::new(10, 20, 30, 255)), 3);
    assert_eq!(p.colors().len(), 4);
    assert_eq!(p.add_color(Color::new(10, 20, 30, 255)), 3);
    assert_eq!(p.colors().len(), 4);
}

#[test]
fn palette_clone_keeps_colors() {
    let mut p = Palette::new();
    p.add_color(Color::new(9, 9, 9, 9));
    let q = p.clone();
    assert_eq!(q.colors(), p.colors());
}

#[test]
fn dawn_bringer_palette_and_names() {
    let p = dawn_bringer::create_palette();
    assert_eq!(p.colors().len(), 33);
    assert_eq!(p.colors()[0].rgba, 0);
    assert_eq!(p.colors()[dawn_bringer::WHITE as usize], Color::new(255, 255, 255, 255));
    let names = dawn_bringer::names();
    assert_eq!(names.len(), 33);
    assert_eq!(names[dawn_bringer::WHITE as usize], "White");
    assert_eq!(names[dawn_bringer::CORNFLOWER as usize], "Cornflower");
}

#[test]
fn standard_palette_and_names() {
    let p = standard::create_palette();
    assert_eq!(p.colors().len(), 32);
    assert_eq!(p.colors()[31].rgba, 0xffccfd08);
    assert_eq!(p.colors()[0].rgba, 0xff90a0d6);
    let names = standard::names();
    assert_eq!(names.len(), 32);
    assert_eq!(names[standard::WHITE as usize], "white");
}
