//! The mathematical model of the automaton: toroidal indexing, neighbour
//! counts, the birth/survival rule and whole-grid evolution.

use vstd::prelude::*;
use vstd::arithmetic::div_mod::{
    lemma_fundamental_div_mod_converse,
    lemma_mod_add_multiples_vanish,
    lemma_mod_self_0,
    lemma_small_mod,
};
use crate::cell::Cell;

verus! {

/// Offset of `(row, col)` in a row-major buffer with rows of `width` cells.
pub open spec fn flat_index(width: int, row: int, col: int) -> int {
    row * width + col
}

/// The cell found at `(row, col)` once both coordinates are wrapped onto the torus.
pub open spec fn cell_at(cells: Seq<Cell>, width: int, height: int, row: int, col: int) -> Cell {
    cells[flat_index(width, row % height, col % width)]
}

/// Number of live cells among the eight toroidal neighbours of `(row, col)`.
pub open spec fn live_neighbors(cells: Seq<Cell>, width: int, height: int, row: int, col: int) -> int {
    cell_at(cells, width, height, row - 1, col - 1).value()
        + cell_at(cells, width, height, row - 1, col).value()
        + cell_at(cells, width, height, row - 1, col + 1).value()
        + cell_at(cells, width, height, row, col - 1).value()
        + cell_at(cells, width, height, row, col + 1).value()
        + cell_at(cells, width, height, row + 1, col - 1).value()
        + cell_at(cells, width, height, row + 1, col).value()
        + cell_at(cells, width, height, row + 1, col + 1).value()
}

/// The rule of classic Life: a live cell survives with two or three live
/// neighbours, a dead cell is born with exactly three.
pub open spec fn next_state(cell: Cell, neighbors: int) -> Cell {
    match cell {
        Cell::Alive => if neighbors == 2 || neighbors == 3 { Cell::Alive } else { Cell::Dead },
        Cell::Dead => if neighbors == 3 { Cell::Alive } else { Cell::Dead },
    }
}

/// The generation that follows `cells`: every position is decided from the
/// current buffer alone.
pub open spec fn next_generation(cells: Seq<Cell>, width: int, height: int) -> Seq<Cell> {
    Seq::new(
        cells.len(),
        |i: int| next_state(cells[i], live_neighbors(cells, width, height, i / width, i % width)),
    )
}

/// The buffer reached from `cells` after `n` generations.
pub open spec fn generations(cells: Seq<Cell>, width: int, height: int, n: nat) -> Seq<Cell>
    decreases n,
{
    if n == 0 {
        cells
    } else {
        next_generation(generations(cells, width, height, (n - 1) as nat), width, height)
    }
}

/// A buffer of `n` dead cells.
pub open spec fn all_dead(n: int) -> Seq<Cell> {
    Seq::new(n as nat, |i: int| Cell::Dead)
}

/// Wrapping a coordinate that is one step outside `0..n` brings it back by
/// exactly one period; a coordinate inside is left alone.
pub proof fn lemma_wrap_step(i: int, n: int)
    requires
        0 <= i < n,
    ensures
        i % n == i,
        (i - 1) % n == before(i, n),
        (i + 1) % n == after(i, n),
{
    lemma_small_mod(i as nat, n as nat);
    if i == 0 {
        lemma_mod_add_multiples_vanish(-1, n);
        lemma_small_mod((n - 1) as nat, n as nat);
    } else {
        lemma_small_mod((i - 1) as nat, n as nat);
    }
    if i == n - 1 {
        lemma_mod_self_0(n);
    } else {
        lemma_small_mod((i + 1) as nat, n as nat);
    }
}

/// The coordinate one step before `i` on a ring of `n` positions.
pub open spec fn before(i: int, n: int) -> int {
    if i == 0 { n - 1 } else { i - 1 }
}

/// The coordinate one step after `i` on a ring of `n` positions.
pub open spec fn after(i: int, n: int) -> int {
    if i == n - 1 { 0 } else { i + 1 }
}

/// For a position inside the grid, the neighbour count is the sum over the
/// eight positions one step away, where a step off an edge lands on the
/// opposite edge.
pub proof fn lemma_neighbors_unwrapped(cells: Seq<Cell>, width: int, height: int, row: int, col: int)
    requires
        0 <= row < height,
        0 <= col < width,
    ensures
        live_neighbors(cells, width, height, row, col)
            == cells[flat_index(width, before(row, height), before(col, width))].value()
            + cells[flat_index(width, before(row, height), col)].value()
            + cells[flat_index(width, before(row, height), after(col, width))].value()
            + cells[flat_index(width, row, before(col, width))].value()
            + cells[flat_index(width, row, after(col, width))].value()
            + cells[flat_index(width, after(row, height), before(col, width))].value()
            + cells[flat_index(width, after(row, height), col)].value()
            + cells[flat_index(width, after(row, height), after(col, width))].value(),
{
    lemma_wrap_step(row, height);
    lemma_wrap_step(col, width);
}

/// An in-range coordinate maps to an offset inside a `width * height` buffer.
pub proof fn lemma_flat_index_in_range(width: int, height: int, row: int, col: int)
    requires
        0 <= row < height,
        0 <= col < width,
    ensures
        0 <= flat_index(width, row, col) < width * height,
{
    assert(row * width + col < width * height) by (nonlinear_arith)
        requires
            0 <= row < height,
            0 <= col < width,
    ;
    assert(0 <= row * width) by (nonlinear_arith)
        requires
            0 <= row,
            0 < width,
    ;
}

/// An offset built from an in-range coordinate splits back into that coordinate.
pub proof fn lemma_flat_index_split(width: int, row: int, col: int)
    requires
        0 <= row,
        0 <= col < width,
    ensures
        flat_index(width, row, col) / width == row,
        flat_index(width, row, col) % width == col,
{
    lemma_fundamental_div_mod_converse(flat_index(width, row, col), width, row, col);
}

} // verus!
