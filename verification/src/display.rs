//! Drawing sprites onto the framebuffer.

use vstd::prelude::*;
use crate::semantics::{collision_spec, draw_spec, sprite_bit, sprite_toggles, target_cell};
use crate::state::{DISPLAY_HEIGHT, DISPLAY_SIZE, DISPLAY_WIDTH, RAM_SIZE};

verus! {

/// The sprite row that reaches the framebuffer row of `cell`.
pub open spec fn source_row(vy: u8, cell: int) -> int {
    (cell / 64 - vy) % 32
}

/// The sprite column that reaches the framebuffer column of `cell`, counting
/// on beyond the eight columns a sprite has.
pub open spec fn source_col(vx: u8, cell: int) -> int {
    (cell % 64 - vx) % 64
}

/// A cell is reached from exactly one position of a 64 by 32 grid laid over
/// the framebuffer at `(vx, vy)`.
pub proof fn lemma_target_source(vx: u8, vy: u8, row: int, col: int, cell: int)
    requires
        0 <= row < 32,
        0 <= col < 64,
        0 <= cell < 2048,
    ensures
        target_cell(vx, vy, row, col) == cell <==> source_row(vy, cell) == row && source_col(
            vx,
            cell,
        ) == col,
{
}

/// Whether `cell` is toggled by the part of the sprite that comes before
/// column `col` of row `row`, rows taken top to bottom and columns left to
/// right.
pub open spec fn toggled_before(sprite: Seq<u8>, vx: u8, vy: u8, cell: int, row: int, col: int)
    -> bool {
    let r = source_row(vy, cell);
    let c = source_col(vx, cell);
    &&& r < row || (r == row && c < col)
    &&& r < sprite.len()
    &&& c < 8
    &&& sprite_bit(sprite[r], c as u8)
}

/// Whether the part of the sprite before column `col` of row `row` turns a lit
/// cell of `display` off.
pub open spec fn collided_before(
    display: Seq<bool>,
    sprite: Seq<u8>,
    vx: u8,
    vy: u8,
    row: int,
    col: int,
) -> bool {
    exists|cell: int|
        0 <= cell < 2048 && display[cell] && #[trigger] toggled_before(
            sprite,
            vx,
            vy,
            cell,
            row,
            col,
        )
}

/// For a sprite of at most 32 rows, a cell is toggled exactly if the one
/// position that reaches it lies in the sprite and holds a set bit.
pub proof fn lemma_toggles_by_source(sprite: Seq<u8>, vx: u8, vy: u8, cell: int)
    requires
        sprite.len() <= 32,
        0 <= cell < 2048,
    ensures
        sprite_toggles(sprite, vx, vy, cell) <==> toggled_before(
            sprite,
            vx,
            vy,
            cell,
            sprite.len() as int,
            0,
        ),
{
    let r = source_row(vy, cell);
    let c = source_col(vx, cell);
    if sprite_toggles(sprite, vx, vy, cell) {
        let (row, col) = choose|row: int, col: u8|
            0 <= row < sprite.len() && col < 8 && sprite_bit(sprite[row], col)
                && #[trigger] target_cell(vx, vy, row, col as int) == cell;
        lemma_target_source(vx, vy, row, col as int, cell);
    }
    if toggled_before(sprite, vx, vy, cell, sprite.len() as int, 0) {
        lemma_target_source(vx, vy, r, c, cell);
        assert(target_cell(vx, vy, r, (c as u8) as int) == cell);
    }
}

/// Draws the `rows` bytes of `ram` from `start` on as a sprite at
/// `(vx, vy)`: each set bit inverts the cell it lands on. Says whether a lit
/// cell was turned off.
pub(crate) fn draw_sprite(
    display: &mut [bool; DISPLAY_SIZE],
    ram: &[u8; RAM_SIZE],
    start: usize,
    rows: u8,
    vx: u8,
    vy: u8,
) -> (collision: bool)
    requires
        rows < 16,
        start + rows <= RAM_SIZE,
    ensures
        final(display)@ == draw_spec(
            old(display)@,
            ram@.subrange(start as int, start + rows),
            vx,
            vy,
        ),
        collision == collision_spec(
            old(display)@,
            ram@.subrange(start as int, start + rows),
            vx,
            vy,
        ),
    no_unwind
{
    let ghost before = display@;
    let ghost sprite = ram@.subrange(start as int, start + rows);
    let mut collision = false;
    let mut row: u8 = 0;
    while row < rows
        invariant
            row <= rows,
            rows < 16,
            start + rows <= RAM_SIZE,
            sprite == ram@.subrange(start as int, start + rows),
            before.len() == DISPLAY_SIZE,
            forall|cell: int|
                0 <= cell < 2048 ==> display@[cell] == (before[cell] != #[trigger] toggled_before(
                    sprite,
                    vx,
                    vy,
                    cell,
                    row as int,
                    0,
                )),
            collision == collided_before(before, sprite, vx, vy, row as int, 0),
        decreases rows - row,
    {
        let pixel = ram[start + row as usize];
        let mut col: u8 = 0;
        while col < 8
            invariant
                col <= 8,
                row < rows,
                rows < 16,
                sprite.len() == rows,
                pixel == sprite[row as int],
                before.len() == DISPLAY_SIZE,
                forall|cell: int|
                    0 <= cell < 2048 ==> display@[cell] == (before[cell]
                        != #[trigger] toggled_before(
                        sprite,
                        vx,
                        vy,
                        cell,
                        row as int,
                        col as int,
                    )),
                collision == collided_before(before, sprite, vx, vy, row as int, col as int),
            decreases 8 - col,
        {
            let wrapped_x = (vx as usize + col as usize) % DISPLAY_WIDTH;
            let wrapped_y = (vy as usize + row as usize) % DISPLAY_HEIGHT;
            let idx = wrapped_x + wrapped_y * DISPLAY_WIDTH;
            let ghost mid = display@;
            let ghost collided = collision;
            let set = pixel & (0x80u8 >> col) != 0;
            if set {
                display[idx] = !display[idx];
                if !display[idx] {
                    collision = true;
                }
            }
            proof {
                assert(idx == target_cell(vx, vy, row as int, col as int));
                assert(set == sprite_bit(sprite[row as int], col));
                // Only the cell that this bit lands on can have changed, and
                // no earlier bit landed there.
                assert forall|cell: int| 0 <= cell < 2048 implies display@[cell] == (before[cell]
                    != #[trigger] toggled_before(sprite, vx, vy, cell, row as int, col + 1)) by {
                    lemma_target_source(vx, vy, row as int, col as int, cell);
                    assert(mid[cell] == (before[cell] != toggled_before(
                        sprite,
                        vx,
                        vy,
                        cell,
                        row as int,
                        col as int,
                    )));
                }
                lemma_target_source(vx, vy, row as int, col as int, idx as int);
                assert(!toggled_before(sprite, vx, vy, idx as int, row as int, col as int));
                assert(mid[idx as int] == before[idx as int]);
                // The flag is raised exactly if this bit or an earlier one
                // turned a lit cell off.
                if set && mid[idx as int] {
                    assert(toggled_before(sprite, vx, vy, idx as int, row as int, col + 1));
                } else if collided_before(before, sprite, vx, vy, row as int, col + 1) {
                    let cell = choose|cell: int|
                        0 <= cell < 2048 && before[cell] && #[trigger] toggled_before(
                            sprite,
                            vx,
                            vy,
                            cell,
                            row as int,
                            col + 1,
                        );
                    lemma_target_source(vx, vy, row as int, col as int, cell);
                    assert(toggled_before(sprite, vx, vy, cell, row as int, col as int));
                } else if collided {
                    let cell = choose|cell: int|
                        0 <= cell < 2048 && before[cell] && #[trigger] toggled_before(
                            sprite,
                            vx,
                            vy,
                            cell,
                            row as int,
                            col as int,
                        );
                    assert(toggled_before(sprite, vx, vy, cell, row as int, col + 1));
                }
            }
            col += 1;
        }
        proof {
            // The end of a row is the start of the next one.
            assert forall|cell: int| 0 <= cell < 2048 implies toggled_before(
                sprite,
                vx,
                vy,
                cell,
                row as int,
                8,
            ) == #[trigger] toggled_before(sprite, vx, vy, cell, row + 1, 0) by {}
            if collision {
                let cell = choose|cell: int|
                    0 <= cell < 2048 && before[cell] && #[trigger] toggled_before(
                        sprite,
                        vx,
                        vy,
                        cell,
                        row as int,
                        8,
                    );
                assert(toggled_before(sprite, vx, vy, cell, row + 1, 0));
            } else if collided_before(before, sprite, vx, vy, row + 1, 0) {
                let cell = choose|cell: int|
                    0 <= cell < 2048 && before[cell] && #[trigger] toggled_before(
                        sprite,
                        vx,
                        vy,
                        cell,
                        row + 1,
                        0,
                    );
                assert(toggled_before(sprite, vx, vy, cell, row as int, 8));
            }
        }
        row += 1;
    }
    proof {
        // With every row drawn, the cells toggled so far are the cells that
        // the sprite toggles.
        assert forall|cell: int| 0 <= cell < 2048 implies #[trigger] sprite_toggles(
            sprite,
            vx,
            vy,
            cell,
        ) == toggled_before(sprite, vx, vy, cell, rows as int, 0) by {
            lemma_toggles_by_source(sprite, vx, vy, cell);
        }
        assert(display@ =~= draw_spec(before, sprite, vx, vy));
        if collision {
            let cell = choose|cell: int|
                0 <= cell < 2048 && before[cell] && #[trigger] toggled_before(
                    sprite,
                    vx,
                    vy,
                    cell,
                    rows as int,
                    0,
                );
            assert(sprite_toggles(sprite, vx, vy, cell));
        } else if collision_spec(before, sprite, vx, vy) {
            let cell = choose|cell: int|
                0 <= cell < before.len() && before[cell] && #[trigger] sprite_toggles(
                    sprite,
                    vx,
                    vy,
                    cell,
                );
            assert(toggled_before(sprite, vx, vy, cell, rows as int, 0));
        }
    }
    collision
}

} // verus!
