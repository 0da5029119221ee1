use chip8::screen::Screen;

fn sprite(rows: &[u8]) -> [u8; 15] {
    let mut s: [u8; 15] = [0; 15];
    for (i, row) in rows.iter().enumerate() {
        s[i] = *row;
    }
    s
}

fn lit_cells(screen: &Screen) -> Vec<(usize, usize)> {
    let mut cells = Vec::new();
    for y in 0..32usize {
        for x in 0..64usize {
            if screen.pixel(x, y) {
                cells.push((x, y));
            }
        }
    }
    cells
}

#[test]
fn new_screen_is_dark() {
    let screen = Screen::new();
    assert!(lit_cells(&screen).is_empty());
}

#[test]
fn draw_lights_the_cells_under_the_sprite() {
    let mut screen = Screen::new();
    let collided = screen.draw_sprite(sprite(&[0b1010_0001, 0b0100_0000]), 3, 2);
    assert!(!collided);
    assert_eq!(lit_cells(&screen), vec![(3, 2), (5, 2), (10, 2), (4, 3)]);
}

#[test]
fn draw_sets_all_eight_columns() {
    let mut screen = Screen::new();
    assert!(!screen.draw_sprite(sprite(&[0xFF]), 0, 0));
    assert_eq!(
        lit_cells(&screen),
        vec![(0, 0), (1, 0), (2, 0), (3, 0), (4, 0), (5, 0), (6, 0), (7, 0)]
    );
}

#[test]
fn draw_wraps_round_both_edges() {
    let mut screen = Screen::new();
    assert!(!screen.draw_sprite(sprite(&[0b1100_0000, 0b1000_0000]), 63, 31));
    assert_eq!(lit_cells(&screen), vec![(63, 0), (0, 31), (63, 31)]);
}

#[test]
fn draw_takes_coordinates_beyond_the_screen_modulo_its_size() {
    let mut screen = Screen::new();
    assert!(!screen.draw_sprite(sprite(&[0x80]), 64 + 5, 32 + 7));
    assert_eq!(lit_cells(&screen), vec![(5, 7)]);
    let mut other = Screen::new();
    assert!(!other.draw_sprite(sprite(&[0x80, 0x80]), 255, 255));
    assert_eq!(lit_cells(&other), vec![(63, 0), (63, 31)]);
}

#[test]
fn draw_twice_restores_the_screen() {
    let mut screen = Screen::new();
    screen.draw_sprite(sprite(&[0xF0, 0x90, 0x90, 0x90, 0xF0]), 10, 10);
    let before = lit_cells(&screen);
    let glyph = sprite(&[0x3C, 0x00, 0xFF]);
    let first = screen.draw_sprite(glyph, 12, 9);
    let second = screen.draw_sprite(glyph, 12, 9);
    assert!(first);
    assert!(second);
    assert_eq!(lit_cells(&screen), before);
}

#[test]
fn second_draw_on_a_dark_screen_collides() {
    let mut screen = Screen::new();
    let glyph = sprite(&[0x80]);
    assert!(!screen.draw_sprite(glyph, 0, 0));
    assert!(screen.draw_sprite(glyph, 0, 0));
    assert!(lit_cells(&screen).is_empty());
}

#[test]
fn redraw_after_a_full_collision_does_not_collide() {
    let mut screen = Screen::new();
    let glyph = sprite(&[0x80]);
    screen.draw_sprite(glyph, 0, 0);
    assert!(screen.draw_sprite(glyph, 0, 0));
    assert!(!screen.draw_sprite(glyph, 0, 0));
    assert_eq!(lit_cells(&screen), vec![(0, 0)]);
}

#[test]
fn empty_sprite_changes_nothing() {
    let mut screen = Screen::new();
    screen.draw_sprite(sprite(&[0xFF]), 0, 0);
    assert!(!screen.draw_sprite(sprite(&[]), 0, 0));
    assert_eq!(lit_cells(&screen).len(), 8);
}

#[test]
fn collision_is_reported_when_only_one_cell_goes_dark() {
    let mut screen = Screen::new();
    screen.draw_sprite(sprite(&[0x01]), 0, 0);
    assert!(screen.draw_sprite(sprite(&[0xFF]), 0, 0));
    assert_eq!(lit_cells(&screen).len(), 7);
    assert!(!screen.pixel(7, 0));
}

#[test]
fn clear_darkens_every_cell() {
    let mut screen = Screen::new();
    for row in 0..32u8 {
        screen.draw_sprite(sprite(&[0xFF]), row.wrapping_mul(3), row);
    }
    assert_eq!(lit_cells(&screen).len(), 256);
    screen.clear_screen();
    assert!(lit_cells(&screen).is_empty());
    screen.clear_screen();
    assert!(lit_cells(&screen).is_empty());
}

#[test]
fn render_gives_four_bytes_per_cell() {
    let mut screen = Screen::new();
    screen.draw_sprite(sprite(&[0x80]), 1, 0);
    let frame = screen.render();
    assert_eq!(frame.len(), 8192);
    assert_eq!(&frame[0..4], &[0x00, 0x00, 0x00, 0xFF]);
    assert_eq!(&frame[4..8], &[0xFF, 0xFF, 0xFF, 0xFF]);
    assert_eq!(&frame[8..12], &[0x00, 0x00, 0x00, 0xFF]);
    assert_eq!(&frame[8188..8192], &[0x00, 0x00, 0x00, 0xFF]);
}

#[test]
fn set_pixel_paints_grey_and_opaque() {
    let mut pixel: [u8; 4] = [1, 2, 3, 4];
    Screen::set_pixel(&mut pixel, 0x7F);
    assert_eq!(pixel, [0x7F, 0x7F, 0x7F, 0xFF]);
    let mut wide: [u8; 6] = [9, 9, 9, 9, 9, 9];
    Screen::set_pixel(&mut wide, 0x00);
    assert_eq!(wide, [0x00, 0x00, 0x00, 0xFF, 9, 9]);
}

#[test]
fn is_pixel_white_reads_the_red_byte() {
    assert!(Screen::is_pixel_white(&[0xFF, 0xFF, 0xFF, 0xFF]));
    assert!(Screen::is_pixel_white(&[0x01, 0x00, 0x00, 0xFF]));
    assert!(!Screen::is_pixel_white(&[0x00, 0xFF, 0xFF, 0xFF]));
}
