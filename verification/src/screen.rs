//! The 64 x 32 monochrome screen and the sprite blit.

use vstd::prelude::*;

verus! {

/// Columns of the screen.
pub const SCREEN_WIDTH: usize = 64;

/// Rows of the screen.
pub const SCREEN_HEIGHT: usize = 32;

/// Cells of the screen.
pub const SCREEN_CELLS: usize = 2048;

/// Rows of a sprite. A shorter sprite is padded with empty rows.
pub const SPRITE_ROWS: usize = 15;

/// The screen: 2048 cells, row after row, each lit or dark. Its view is the
/// sequence of those cells; the cell at column `c` of row `r` has index
/// `r * 64 + c`.
pub struct Screen {
    cells: [bool; 2048],
}

impl View for Screen {
    type V = Seq<bool>;

    closed spec fn view(&self) -> Seq<bool> {
        self.cells@
    }
}

/// Whether the sprite row `row` has a pixel in column `col`, counted from
/// the most significant bit.
pub open spec fn sprite_bit(row: u8, col: u8) -> bool {
    row & (0x80u8 >> col) != 0
}

/// The sprite row that lands on cell `k` when the sprite's top is at `y`.
pub open spec fn row_of(y: u8, k: int) -> int {
    (k / 64 - y as int) % 32
}

/// The sprite column that lands on cell `k` when the sprite's left is at `x`.
pub open spec fn col_of(x: u8, k: int) -> int {
    (k % 64 - x as int) % 64
}

/// The cell under column `col` of row `row` of a sprite placed at `(x, y)`.
/// Coordinates wrap round both edges of the screen.
pub open spec fn cell_under(x: u8, y: u8, row: int, col: int) -> int {
    ((y as int + row) % 32) * 64 + (x as int + col) % 64
}

/// Whether drawing `sprite` at `(x, y)` flips cell `k`.
pub open spec fn toggled(sprite: Seq<u8>, x: u8, y: u8, k: int) -> bool {
    let row = row_of(y, k);
    let col = col_of(x, k);
    row < sprite.len() && col < 8 && sprite_bit(sprite[row], col as u8)
}

/// The screen after `sprite` is drawn at `(x, y)`: each cell under a pixel
/// of the sprite is flipped, every other cell is kept.
pub open spec fn blit(cells: Seq<bool>, sprite: Seq<u8>, x: u8, y: u8) -> Seq<bool> {
    Seq::new(cells.len(), |k: int| cells[k] != toggled(sprite, x, y, k))
}

/// Whether drawing `sprite` at `(x, y)` turns a lit cell dark.
pub open spec fn collides(cells: Seq<bool>, sprite: Seq<u8>, x: u8, y: u8) -> bool {
    exists|k: int| 0 <= k < cells.len() && #[trigger] cells[k] && toggled(sprite, x, y, k)
}

/// The cells reached once `rows` whole sprite rows and `cols` columns of the
/// next row have been drawn.
pub open spec fn reached(x: u8, y: u8, k: int, rows: int, cols: int) -> bool {
    row_of(y, k) < rows || (row_of(y, k) == rows && col_of(x, k) < cols)
}

/// Whether a lit cell is both flipped by the sprite and among those reached.
pub open spec fn collides_so_far(
    cells: Seq<bool>,
    sprite: Seq<u8>,
    x: u8,
    y: u8,
    rows: int,
    cols: int,
) -> bool {
    exists|k: int|
        0 <= k < cells.len() && #[trigger] cells[k] && toggled(sprite, x, y, k) && reached(
            x,
            y,
            k,
            rows,
            cols,
        )
}

/// The picture as bytes: four per cell, red, green, blue and alpha; a lit
/// cell is white, a dark one black, both opaque.
pub open spec fn frame_of(cells: Seq<bool>) -> Seq<u8> {
    Seq::new(
        4 * cells.len(),
        |b: int|
            if b % 4 != 3 && !cells[b / 4] {
                0x00u8
            } else {
                0xFFu8
            },
    )
}

/// Exactly one cell lies under each pixel of a sprite.
pub proof fn cell_under_is_unique(x: u8, y: u8, row: int, col: int, k: int)
    requires
        0 <= row < 32,
        0 <= col < 64,
        0 <= k < 2048,
    ensures
        0 <= cell_under(x, y, row, col) < 2048,
        (row_of(y, k) == row && col_of(x, k) == col) <==> k == cell_under(x, y, row, col),
{
}

/// Drawing a sprite a second time at the same place undoes the first draw,
/// and the second draw collides exactly where the first lit a dark cell.
pub proof fn draw_twice_restores(cells: Seq<bool>, sprite: Seq<u8>, x: u8, y: u8)
    ensures
        blit(blit(cells, sprite, x, y), sprite, x, y) == cells,
        collides(blit(cells, sprite, x, y), sprite, x, y) <==> exists|k: int|
            0 <= k < cells.len() && !#[trigger] cells[k] && toggled(sprite, x, y, k),
{
    let once = blit(cells, sprite, x, y);
    assert(blit(once, sprite, x, y) =~= cells);
    if collides(once, sprite, x, y) {
        let k = choose|k: int| 0 <= k < once.len() && #[trigger] once[k] && toggled(sprite, x, y, k);
        assert(!cells[k]);
    }
    if exists|k: int| 0 <= k < cells.len() && !#[trigger] cells[k] && toggled(sprite, x, y, k) {
        let k = choose|k: int|
            0 <= k < cells.len() && !#[trigger] cells[k] && toggled(sprite, x, y, k);
        assert(once[k]);
    }
}

/// Where a pixel of the sprite falls on a dark cell, drawing the sprite
/// twice makes the second draw collide.
pub proof fn redraw_collides(cells: Seq<bool>, sprite: Seq<u8>, x: u8, y: u8, row: int, col: u8)
    requires
        cells.len() == SCREEN_CELLS,
        sprite.len() <= SPRITE_ROWS,
        0 <= row < sprite.len(),
        col < 8,
        sprite_bit(sprite[row], col),
        !cells[cell_under(x, y, row, col as int)],
    ensures
        collides(blit(cells, sprite, x, y), sprite, x, y),
{
    let k = cell_under(x, y, row, col as int);
    cell_under_is_unique(x, y, row, col as int, k);
    assert(toggled(sprite, x, y, k));
    assert(blit(cells, sprite, x, y)[k]);
}

impl Screen {
    /// Every screen has exactly `SCREEN_CELLS` cells.
    pub proof fn size(&self)
        ensures
            self@.len() == SCREEN_CELLS,
    {
    }

    /// A dark screen.
    pub fn new() -> (s: Self)
        ensures
            s@ == Seq::new(SCREEN_CELLS as nat, |k: int| false),
    {
        let s = Self { cells: [false; 2048] };
        assert(s@ =~= Seq::new(SCREEN_CELLS as nat, |k: int| false));
        s
    }

    /// Turns every cell dark.
    pub fn clear_screen(&mut self)
        ensures
            final(self)@ == Seq::new(SCREEN_CELLS as nat, |k: int| false),
    {
        self.cells = [false; 2048];
        assert(self@ =~= Seq::new(SCREEN_CELLS as nat, |k: int| false));
    }

    /// Whether the cell at column `x` of row `y` is lit.
    pub fn pixel(&self, x: usize, y: usize) -> (lit: bool)
        requires
            x < SCREEN_WIDTH,
            y < SCREEN_HEIGHT,
        ensures
            lit == self@[y * 64 + x],
    {
        self.cells[y * 64 + x]
    }

    /// Draws `sprite` with its top left corner at `(x, y)`: every cell under
    /// a pixel of the sprite is flipped. Returns whether a lit cell went dark.
    pub fn draw_sprite(&mut self, sprite: [u8; 15], x: u8, y: u8) -> (flag: bool)
        ensures
            final(self)@ == blit(old(self)@, sprite@, x, y),
            flag == collides(old(self)@, sprite@, x, y),
    {
        let mut flag = false;
        let mut index: usize = 0;
        while index < 15
            invariant
                index <= 15,
                forall|k: int|
                    0 <= k < 2048 ==> self@[k] == (old(self)@[k] != (toggled(sprite@, x, y, k)
                        && reached(x, y, k, index as int, 0))),
                flag == collides_so_far(old(self)@, sprite@, x, y, index as int, 0),
            decreases 15 - index,
        {
            let byte: u8 = sprite[index];
            let mut col: u8 = 0;
            while col < 8
                invariant
                    index < 15,
                    col <= 8,
                    byte == sprite@[index as int],
                    forall|k: int|
                        0 <= k < 2048 ==> self@[k] == (old(self)@[k] != (toggled(sprite@, x, y, k)
                            && reached(x, y, k, index as int, col as int))),
                    flag == collides_so_far(old(self)@, sprite@, x, y, index as int, col as int),
                decreases 8 - col,
            {
                let x_coord: usize = (x as usize + col as usize) % 64;
                let y_coord: usize = (y as usize + index) % 32;
                let cord: usize = y_coord * 64 + x_coord;
                let ghost before = self@;
                let ghost flag_before = flag;
                if byte & (0x80u8 >> col) != 0 {
                    if self.cells[cord] {
                        self.cells[cord] = false;
                        flag = true;
                    } else {
                        self.cells[cord] = true;
                    }
                }
                proof {
                    let start = old(self)@;
                    let s = sprite@;
                    let (r, c) = (index as int, col as int);
                    assert(cord == cell_under(x, y, r, c));
                    assert forall|k: int| 0 <= k < 2048 implies reached(x, y, k, r, c + 1) == (
                        reached(x, y, k, r, c) || k == cord
                    ) by {
                        cell_under_is_unique(x, y, r, c, k);
                    }
                    cell_under_is_unique(x, y, r, c, cord as int);
                    assert(toggled(s, x, y, cord as int) == sprite_bit(byte, col));
                    assert(!reached(x, y, cord as int, r, c));
                    assert(before[cord as int] == start[cord as int]);
                    if collides_so_far(start, s, x, y, r, c + 1) {
                        let k = choose|k: int|
                            0 <= k < start.len() && #[trigger] start[k] && toggled(s, x, y, k)
                                && reached(x, y, k, r, c + 1);
                        assert(reached(x, y, k, r, c) || k == cord);
                    }
                    if flag_before {
                        let k = choose|k: int|
                            0 <= k < start.len() && #[trigger] start[k] && toggled(s, x, y, k)
                                && reached(x, y, k, r, c);
                        assert(reached(x, y, k, r, c + 1));
                    }
                    if sprite_bit(byte, col) && start[cord as int] {
                        assert(reached(x, y, cord as int, r, c + 1));
                    }
                }
                col += 1;
            }
            proof {
                let start = old(self)@;
                let s = sprite@;
                let r = index as int;
                assert forall|k: int| 0 <= k < 2048 implies (toggled(s, x, y, k) && reached(
                    x,
                    y,
                    k,
                    r,
                    8,
                )) == (toggled(s, x, y, k) && reached(x, y, k, r + 1, 0)) by {}
                if collides_so_far(start, s, x, y, r, 8) {
                    let k = choose|k: int|
                        0 <= k < start.len() && #[trigger] start[k] && toggled(s, x, y, k)
                            && reached(x, y, k, r, 8);
                    assert(reached(x, y, k, r + 1, 0));
                }
                if collides_so_far(start, s, x, y, r + 1, 0) {
                    let k = choose|k: int|
                        0 <= k < start.len() && #[trigger] start[k] && toggled(s, x, y, k)
                            && reached(x, y, k, r + 1, 0);
                    assert(reached(x, y, k, r, 8));
                }
            }
            index += 1;
        }
        proof {
            let start = old(self)@;
            let s = sprite@;
            assert(self@ =~= blit(start, s, x, y));
            if collides_so_far(start, s, x, y, 15, 0) {
                let k = choose|k: int|
                    0 <= k < start.len() && #[trigger] start[k] && toggled(s, x, y, k) && reached(
                        x,
                        y,
                        k,
                        15,
                        0,
                    );
                assert(toggled(s, x, y, k));
            }
            if collides(start, s, x, y) {
                let k = choose|k: int|
                    0 <= k < start.len() && #[trigger] start[k] && toggled(s, x, y, k);
                assert(reached(x, y, k, 15, 0));
            }
        }
        flag
    }

    /// Whether a four-byte pixel is lit: its red byte is not zero.
    pub fn is_pixel_white(pixel: &[u8]) -> (white: bool)
        requires
            pixel@.len() >= 1,
        ensures
            white == (pixel@[0] > 0),
    {
        pixel[0] > 0
    }

    /// Paints a four-byte pixel in the grey `color`, opaque.
    pub fn set_pixel(pixel: &mut [u8], color: u8)
        requires
            old(pixel)@.len() >= 4,
        ensures
            final(pixel)@ == old(pixel)@.update(0, color).update(1, color).update(2, color).update(
                3,
                0xFFu8,
            ),
    {
        pixel[0] = color;
        pixel[1] = color;
        pixel[2] = color;
        pixel[3] = 0xff;
    }

    /// The picture as bytes, for a surface that takes four bytes per cell.
    pub fn render(&self) -> (frame: Vec<u8>)
        ensures
            frame@ == frame_of(self@),
    {
        let mut frame: Vec<u8> = Vec::new();
        let mut i: usize = 0;
        while i < 2048
            invariant
                i <= 2048,
                frame@.len() == 4 * i,
                forall|b: int| 0 <= b < 4 * i ==> frame@[b] == frame_of(self@)[b],
            decreases 2048 - i,
        {
            let color: u8 = if self.cells[i] {
                0xFF
            } else {
                0x00
            };
            frame.push(color);
            frame.push(color);
            frame.push(color);
            frame.push(0xFF);
            i += 1;
        }
        assert(frame@ =~= frame_of(self@));
        frame
    }
}

} // verus!
