use chip8::screen::{Screen, ROW_HEIGHT, ROW_WIDTH};

fn lit(s: &Screen) -> Vec<(usize, usize)> {
    let mut v = Vec::new();
    for y in 0..ROW_HEIGHT as usize {
        for x in 0..ROW_WIDTH as usize {
            if s.get_pixel(x, y) != 0 {
                v.push((x, y));
            }
        }
    }
    v
}

#[test]
fn new_screen_is_dark() {
    assert!(lit(&Screen::new()).is_empty());
}

#[test]
fn draw_lights_set_bits_most_significant_first() {
    let mut s = Screen::new();
    let flag = s.draw(2, 3, &[0b1010_0000, 0b0000_0001]);
    assert_eq!(flag, 0);
    assert_eq!(lit(&s), vec![(2, 3), (4, 3), (9, 4)]);
}

#[test]
fn drawing_over_lit_pixels_reports_collision() {
    let mut s = Screen::new();
    assert_eq!(s.draw(0, 0, &[0xF0]), 0);
    assert_eq!(s.draw(2, 0, &[0x80]), 1);
    assert_eq!(lit(&s), vec![(0, 0), (1, 0), (3, 0)]);
}

#[test]
fn drawing_beside_lit_pixels_reports_no_collision() {
    let mut s = Screen::new();
    assert_eq!(s.draw(0, 0, &[0xF0]), 0);
    assert_eq!(s.draw(4, 0, &[0xF0]), 0);
    assert_eq!(lit(&s).len(), 8);
}

#[test]
fn drawing_twice_restores_the_frame() {
    let mut s = Screen::new();
    s.draw(8, 10, &[0x3C]);
    let before = lit(&s);
    let sprite = [0xF0, 0x90, 0xF0, 0x90, 0xF0];
    assert_eq!(s.draw(8, 9, &sprite), 1);
    assert_eq!(s.draw(8, 9, &sprite), 1);
    assert_eq!(lit(&s), before);
}

#[test]
fn sprite_is_clipped_at_the_right_edge() {
    let mut s = Screen::new();
    s.draw(60, 0, &[0xFF]);
    assert_eq!(lit(&s), vec![(60, 0), (61, 0), (62, 0), (63, 0)]);
}

#[test]
fn sprite_is_clipped_at_the_bottom_edge() {
    let mut s = Screen::new();
    s.draw(0, 30, &[0x80, 0x80, 0x80, 0x80]);
    assert_eq!(lit(&s), vec![(0, 30), (0, 31)]);
}

#[test]
fn origin_wraps_around_the_frame() {
    let mut s = Screen::new();
    s.draw(64 + 5, 32 + 7, &[0x80]);
    assert_eq!(lit(&s), vec![(5, 7)]);
}

#[test]
fn empty_sprite_changes_nothing() {
    let mut s = Screen::new();
    assert_eq!(s.draw(1, 1, &[]), 0);
    assert!(lit(&s).is_empty());
}

#[test]
fn clear_darkens_every_pixel() {
    let mut s = Screen::new();
    s.draw(0, 0, &[0xFF, 0xFF, 0xFF]);
    s.draw(40, 20, &[0xFF]);
    s.clear();
    assert!(lit(&s).is_empty());
}
