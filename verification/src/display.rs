//! The 64 by 32 monochrome framebuffer and how a sprite is drawn on it.

use vstd::prelude::*;
use crate::machine::MEMORY_SIZE;

verus! {

/// Pixels in a framebuffer row.
pub const WIDTH: usize = 64;

/// Rows of the framebuffer.
pub const HEIGHT: usize = 32;

/// Cells of the framebuffer, stored row by row: the pixel at (`x`, `y`) is
/// cell `x + 64 * y`.
pub const PIXELS: usize = 2048;

/// Whether pixel `col` of a sprite row is set. Pixel 0 is the byte's highest
/// bit.
pub open spec fn sprite_bit(row: u8, col: int) -> bool {
    row & (0x80u8 >> col) != 0
}

/// The cell on which pixel (`col`, `row`) of a sprite lands when the sprite is
/// drawn at (`vx`, `vy`): both coordinates wrap around the framebuffer.
pub open spec fn target_cell(vx: u8, vy: u8, row: int, col: int) -> int {
    (vx + col) % 64 + (vy + row) % 32 * 64
}

/// The sprite column that lands on `cell` when the sprite is drawn at column
/// `vx`, numbering the columns on from `vx` and around the edge.
pub open spec fn column_on(vx: u8, cell: int) -> int {
    (cell % 64 - vx) % 64
}

/// The sprite row that lands on `cell` when the sprite is drawn at row `vy`.
pub open spec fn row_on(vy: u8, cell: int) -> int {
    (cell / 64 - vy) % 32
}

/// Whether drawing `sprite` at (`vx`, `vy`) flips `cell`: a set pixel of the
/// sprite lands on it.
pub open spec fn flips(sprite: Seq<u8>, vx: u8, vy: u8, cell: int) -> bool {
    let col = column_on(vx, cell);
    let row = row_on(vy, cell);
    col < 8 && row < sprite.len() && sprite_bit(sprite[row], col)
}

/// The framebuffer after `sprite` is drawn at (`vx`, `vy`): each cell under a
/// set pixel of the sprite is XORed with 1, every other cell is kept.
pub open spec fn draw(screen: Seq<u8>, sprite: Seq<u8>, vx: u8, vy: u8) -> Seq<u8> {
    Seq::new(
        screen.len(),
        |cell: int| if flips(sprite, vx, vy, cell) { screen[cell] ^ 1 } else { screen[cell] },
    )
}

/// Whether drawing `sprite` at (`vx`, `vy`) turns a set pixel of `screen`
/// clear.
pub open spec fn collides(screen: Seq<u8>, sprite: Seq<u8>, vx: u8, vy: u8) -> bool {
    exists|cell: int| 0 <= cell < screen.len() && #[trigger] flips(sprite, vx, vy, cell) && screen[cell] == 1
}

/// The sprite of `rows` rows that memory holds from `index` on, one byte for
/// each row.
pub open spec fn sprite_at(ram: Seq<u8>, index: int, rows: int) -> Seq<u8> {
    Seq::new(rows as nat, |row: int| ram[index + row])
}

/// Whether `sprite` has a set pixel.
pub open spec fn has_pixel(sprite: Seq<u8>) -> bool {
    exists|row: int, col: int| 0 <= row < sprite.len() && 0 <= col < 8 && #[trigger] sprite_bit(sprite[row], col)
}

/// A framebuffer with every pixel clear.
pub open spec fn blank() -> Seq<u8> {
    Seq::new(2048, |cell: int| 0u8)
}

/// `flips`, for the part of the sprite that comes before pixel (`col`, `row`)
/// in drawing order.
#[verifier::opaque]
spec fn flips_before(sprite: Seq<u8>, vx: u8, vy: u8, row: int, col: int, cell: int) -> bool {
    flips(sprite, vx, vy, cell) && (row_on(vy, cell) < row || (row_on(vy, cell) == row && column_on(vx, cell) < col))
}

/// `draw`, for the part of the sprite that comes before pixel (`col`, `row`).
spec fn drawn_before(now: Seq<u8>, screen: Seq<u8>, sprite: Seq<u8>, vx: u8, vy: u8, row: int, col: int) -> bool {
    &&& now.len() == screen.len()
    &&& forall|cell: int|
        0 <= cell < screen.len() ==> now[cell] == if #[trigger] flips_before(sprite, vx, vy, row, col, cell) {
            screen[cell] ^ 1
        } else {
            screen[cell]
        }
}

/// `collides`, for the part of the sprite that comes before pixel (`col`,
/// `row`).
spec fn collides_before(screen: Seq<u8>, sprite: Seq<u8>, vx: u8, vy: u8, row: int, col: int) -> bool {
    exists|cell: int|
        0 <= cell < screen.len() && #[trigger] flips_before(sprite, vx, vy, row, col, cell) && screen[cell] == 1
}

/// Pixel (`col`, `row`) of a sprite lands on a cell of the framebuffer, and no
/// other pixel of the sprite lands there.
pub proof fn lemma_target_cell(vx: u8, vy: u8, row: int, col: int)
    requires
        0 <= row < 32,
        0 <= col < 64,
    ensures
        0 <= target_cell(vx, vy, row, col) < 2048,
        column_on(vx, target_cell(vx, vy, row, col)) == col,
        row_on(vy, target_cell(vx, vy, row, col)) == row,
{
    let tx = (vx + col) % 64;
    let ty = (vy + row) % 32;
    let cell = tx + ty * 64;
    assert(cell % 64 == tx);
    assert(cell / 64 == ty);
    assert((tx - vx) % 64 == col);
    assert((ty - vy) % 32 == row);
}

/// A cell of the framebuffer is the target of the sprite pixel that lands on
/// it.
pub proof fn lemma_cell_is_target(vx: u8, vy: u8, cell: int)
    requires
        0 <= cell < 2048,
    ensures
        0 <= column_on(vx, cell) < 64,
        0 <= row_on(vy, cell) < 32,
        target_cell(vx, vy, row_on(vy, cell), column_on(vx, cell)) == cell,
{
    let cx = cell % 64;
    let cy = cell / 64;
    let col = (cx - vx) % 64;
    let row = (cy - vy) % 32;
    assert((vx + col) % 64 == cx);
    assert((vy + row) % 32 == cy);
}

/// What drawing pixel (`col`, `row`) adds to the part drawn before it: the
/// pixel's own cell, if the pixel is set.
proof fn lemma_pixel_step(sprite: Seq<u8>, vx: u8, vy: u8, row: int, col: int, cell: int)
    requires
        0 <= row < sprite.len(),
        sprite.len() <= 32,
        0 <= col < 8,
        0 <= cell < 2048,
    ensures
        cell == target_cell(vx, vy, row, col) ==> !flips_before(sprite, vx, vy, row, col, cell) && flips_before(
            sprite,
            vx,
            vy,
            row,
            col + 1,
            cell,
        ) == sprite_bit(sprite[row], col),
        cell != target_cell(vx, vy, row, col) ==> flips_before(sprite, vx, vy, row, col + 1, cell) == flips_before(
            sprite,
            vx,
            vy,
            row,
            col,
            cell,
        ),
{
    reveal(flips_before);
    lemma_target_cell(vx, vy, row, col);
    lemma_cell_is_target(vx, vy, cell);
}

/// Before the first pixel nothing is drawn; after a row's last pixel, the
/// part drawn is the one before the next row; before the row after the last,
/// it is the whole sprite.
proof fn lemma_row_step(sprite: Seq<u8>, vx: u8, vy: u8, row: int, cell: int)
    requires
        0 <= row <= sprite.len(),
        0 <= cell < 2048,
    ensures
        !flips_before(sprite, vx, vy, 0, 0, cell),
        flips_before(sprite, vx, vy, row, 8, cell) == flips_before(sprite, vx, vy, row + 1, 0, cell),
        flips_before(sprite, vx, vy, sprite.len() as int, 0, cell) == flips(sprite, vx, vy, cell),
{
    reveal(flips_before);
    lemma_cell_is_target(vx, vy, cell);
}

/// One pixel of the drawing loop: `then` and `hit_then` are the framebuffer
/// and the collision flag before pixel (`col`, `row`), `now` and `hit` after
/// it.
proof fn lemma_draw_pixel(
    then: Seq<u8>,
    hit_then: bool,
    now: Seq<u8>,
    hit: bool,
    screen: Seq<u8>,
    sprite: Seq<u8>,
    vx: u8,
    vy: u8,
    row: int,
    col: int,
)
    requires
        screen.len() == 2048,
        0 <= row < sprite.len(),
        sprite.len() <= 32,
        0 <= col < 8,
        drawn_before(then, screen, sprite, vx, vy, row, col),
        hit_then == collides_before(screen, sprite, vx, vy, row, col),
        sprite_bit(sprite[row], col) ==> now == then.update(
            target_cell(vx, vy, row, col),
            then[target_cell(vx, vy, row, col)] ^ 1,
        ) && hit == (hit_then || now[target_cell(vx, vy, row, col)] == 0),
        !sprite_bit(sprite[row], col) ==> now == then && hit == hit_then,
    ensures
        drawn_before(now, screen, sprite, vx, vy, row, col + 1),
        hit == collides_before(screen, sprite, vx, vy, row, col + 1),
{
    let target = target_cell(vx, vy, row, col);
    let lit = sprite_bit(sprite[row], col);
    lemma_target_cell(vx, vy, row, col);
    let c = screen[target];
    assert(c ^ 1 == 0 <==> c == 1) by (bit_vector);
    assert forall|cell: int| 0 <= cell < 2048 implies now[cell] == if #[trigger] flips_before(
        sprite,
        vx,
        vy,
        row,
        col + 1,
        cell,
    ) {
        screen[cell] ^ 1
    } else {
        screen[cell]
    } by {
        lemma_pixel_step(sprite, vx, vy, row, col, cell);
        assert(then[cell] == if flips_before(sprite, vx, vy, row, col, cell) {
            screen[cell] ^ 1
        } else {
            screen[cell]
        });
    }
    if collides_before(screen, sprite, vx, vy, row, col + 1) {
        let cell = choose|cell: int|
            0 <= cell < 2048 && #[trigger] flips_before(sprite, vx, vy, row, col + 1, cell) && screen[cell] == 1;
        lemma_pixel_step(sprite, vx, vy, row, col, cell);
        if cell != target {
            assert(flips_before(sprite, vx, vy, row, col, cell));
        }
        assert(hit);
    }
    if hit {
        if hit_then {
            let cell = choose|cell: int|
                0 <= cell < 2048 && #[trigger] flips_before(sprite, vx, vy, row, col, cell) && screen[cell] == 1;
            lemma_pixel_step(sprite, vx, vy, row, col, cell);
            assert(flips_before(sprite, vx, vy, row, col + 1, cell));
        } else {
            lemma_pixel_step(sprite, vx, vy, row, col, target);
            assert(flips_before(sprite, vx, vy, row, col + 1, target));
        }
    }
}

/// The end of a row of the drawing loop.
proof fn lemma_draw_row(now: Seq<u8>, screen: Seq<u8>, sprite: Seq<u8>, vx: u8, vy: u8, row: int)
    requires
        screen.len() == 2048,
        0 <= row < sprite.len(),
        drawn_before(now, screen, sprite, vx, vy, row, 8),
    ensures
        drawn_before(now, screen, sprite, vx, vy, row + 1, 0),
        collides_before(screen, sprite, vx, vy, row, 8) == collides_before(screen, sprite, vx, vy, row + 1, 0),
{
    assert forall|cell: int| 0 <= cell < 2048 implies #[trigger] flips_before(sprite, vx, vy, row, 8, cell)
        == flips_before(sprite, vx, vy, row + 1, 0, cell) by {
        lemma_row_step(sprite, vx, vy, row, cell);
    }
    assert forall|cell: int| 0 <= cell < 2048 implies now[cell] == if #[trigger] flips_before(
        sprite,
        vx,
        vy,
        row + 1,
        0,
        cell,
    ) {
        screen[cell] ^ 1
    } else {
        screen[cell]
    } by {
        assert(flips_before(sprite, vx, vy, row, 8, cell) == flips_before(sprite, vx, vy, row + 1, 0, cell));
    }
    if collides_before(screen, sprite, vx, vy, row, 8) {
        let cell = choose|cell: int|
            0 <= cell < 2048 && #[trigger] flips_before(sprite, vx, vy, row, 8, cell) && screen[cell] == 1;
        assert(flips_before(sprite, vx, vy, row + 1, 0, cell));
    }
    if collides_before(screen, sprite, vx, vy, row + 1, 0) {
        let cell = choose|cell: int|
            0 <= cell < 2048 && #[trigger] flips_before(sprite, vx, vy, row + 1, 0, cell) && screen[cell] == 1;
        assert(flips_before(sprite, vx, vy, row, 8, cell));
    }
}

/// The start and the end of the drawing loop.
proof fn lemma_draw_whole(now: Seq<u8>, screen: Seq<u8>, sprite: Seq<u8>, vx: u8, vy: u8)
    requires
        screen.len() == 2048,
    ensures
        drawn_before(screen, screen, sprite, vx, vy, 0, 0),
        !collides_before(screen, sprite, vx, vy, 0, 0),
        drawn_before(now, screen, sprite, vx, vy, sprite.len() as int, 0) ==> now == draw(screen, sprite, vx, vy),
        collides_before(screen, sprite, vx, vy, sprite.len() as int, 0) == collides(screen, sprite, vx, vy),
{
    let rows = sprite.len() as int;
    assert forall|cell: int| 0 <= cell < 2048 implies !#[trigger] flips_before(sprite, vx, vy, 0, 0, cell) by {
        lemma_row_step(sprite, vx, vy, 0, cell);
    }
    assert forall|cell: int| 0 <= cell < 2048 implies #[trigger] flips_before(sprite, vx, vy, rows, 0, cell)
        == flips(sprite, vx, vy, cell) by {
        lemma_row_step(sprite, vx, vy, 0, cell);
    }
    if drawn_before(now, screen, sprite, vx, vy, rows, 0) {
        assert forall|cell: int| 0 <= cell < 2048 implies now[cell] == draw(screen, sprite, vx, vy)[cell] by {
            assert(flips_before(sprite, vx, vy, rows, 0, cell) == flips(sprite, vx, vy, cell));
        }
        assert(now =~= draw(screen, sprite, vx, vy));
    }
    if collides_before(screen, sprite, vx, vy, rows, 0) {
        let cell = choose|cell: int|
            0 <= cell < 2048 && #[trigger] flips_before(sprite, vx, vy, rows, 0, cell) && screen[cell] == 1;
        assert(flips(sprite, vx, vy, cell));
    }
    if collides(screen, sprite, vx, vy) {
        let cell = choose|cell: int| 0 <= cell < 2048 && #[trigger] flips(sprite, vx, vy, cell) && screen[cell] == 1;
        lemma_row_step(sprite, vx, vy, 0, cell);
        assert(flips_before(sprite, vx, vy, rows, 0, cell));
    }
}

/// Draws the sprite of `rows` rows that starts at `ram[index]` onto `screen`
/// at (`vx`, `vy`), and says whether a set pixel was turned clear.
pub fn draw_sprite(
    screen: &mut [u8; PIXELS],
    ram: &[u8; MEMORY_SIZE],
    index: usize,
    rows: usize,
    vx: u8,
    vy: u8,
) -> (collision: bool)
    requires
        rows < 16,
        index + rows <= 4096,
    ensures
        final(screen)@ == draw(old(screen)@, sprite_at(ram@, index as int, rows as int), vx, vy),
        collision == collides(old(screen)@, sprite_at(ram@, index as int, rows as int), vx, vy),
{
    let ghost before = screen@;
    let ghost sprite = sprite_at(ram@, index as int, rows as int);
    let mut collision = false;
    let mut row: usize = 0;
    proof {
        lemma_draw_whole(screen@, before, sprite, vx, vy);
    }
    while row < rows
        invariant
            row <= rows,
            rows < 16,
            index + rows <= 4096,
            before.len() == 2048,
            sprite == sprite_at(ram@, index as int, rows as int),
            drawn_before(screen@, before, sprite, vx, vy, row as int, 0),
            collision == collides_before(before, sprite, vx, vy, row as int, 0),
        decreases rows - row,
    {
        let line = ram[index + row];
        let mut col: usize = 0;
        while col < 8
            invariant
                col <= 8,
                row < rows,
                rows < 16,
                before.len() == 2048,
                sprite.len() == rows,
                line == sprite[row as int],
                drawn_before(screen@, before, sprite, vx, vy, row as int, col as int),
                collision == collides_before(before, sprite, vx, vy, row as int, col as int),
            decreases 8 - col,
        {
            let ghost then = screen@;
            let ghost hit_then = collision;
            if line & (0x80u8 >> col) != 0 {
                let cell = (vx as usize + col) % WIDTH + (vy as usize + row) % HEIGHT * WIDTH;
                screen[cell] = screen[cell] ^ 1;
                if screen[cell] == 0 {
                    collision = true;
                }
            }
            proof {
                lemma_draw_pixel(then, hit_then, screen@, collision, before, sprite, vx, vy, row as int, col as int);
            }
            col += 1;
        }
        proof {
            lemma_draw_row(screen@, before, sprite, vx, vy, row as int);
        }
        row += 1;
    }
    proof {
        lemma_draw_whole(screen@, before, sprite, vx, vy);
    }
    collision
}

} // verus!
