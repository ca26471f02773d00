//! Properties of the model that hold for every grid, proved once and for all.

use vstd::prelude::*;
use crate::cell::Cell;
use crate::rules::{
    after,
    before,
    flat_index,
    generations,
    lemma_flat_index_in_range,
    lemma_flat_index_split,
    lemma_neighbors_unwrapped,
    lemma_wrap_step,
    live_neighbors,
    next_generation,
    next_state,
};
use crate::universe::seeded;

verus! {

/// Evolution never changes the size of the buffer: after any number of
/// generations it still holds one cell per grid position.
pub proof fn lemma_generations_keep_length(cells: Seq<Cell>, width: int, height: int, n: nat)
    ensures
        generations(cells, width, height, n).len() == cells.len(),
    decreases n,
{
    if n > 0 {
        lemma_generations_keep_length(cells, width, height, (n - 1) as nat);
    }
}

/// One generation decides every grid position by the rule, from the state
/// and the neighbour count that the position had before the step: no cell
/// of the new buffer depends on another cell of the new buffer.
pub proof fn lemma_next_generation_at(cells: Seq<Cell>, width: int, height: int, row: int, col: int)
    requires
        cells.len() == width * height,
        0 <= row < height,
        0 <= col < width,
    ensures
        next_generation(cells, width, height)[flat_index(width, row, col)] == next_state(
            cells[flat_index(width, row, col)],
            live_neighbors(cells, width, height, row, col),
        ),
{
    lemma_flat_index_in_range(width, height, row, col);
    lemma_flat_index_split(width, row, col);
}

/// Every neighbour of a grid position is itself a grid position: stepping
/// by -1, 0 or 1 in each direction and wrapping always lands inside the
/// buffer, so no cell has fewer than eight candidate neighbours.
pub proof fn lemma_neighbor_in_grid(width: int, height: int, row: int, col: int, dr: int, dc: int)
    requires
        0 <= row < height,
        0 <= col < width,
        -1 <= dr <= 1,
        -1 <= dc <= 1,
    ensures
        0 <= (row + dr) % height < height,
        0 <= (col + dc) % width < width,
        0 <= flat_index(width, (row + dr) % height, (col + dc) % width) < width * height,
{
    lemma_wrap_step(row, height);
    lemma_wrap_step(col, width);
    lemma_flat_index_in_range(width, height, (row + dr) % height, (col + dc) % width);
}

/// The neighbours of the top-left corner reach across both edges: its
/// count includes the last row, the last column and the opposite corner.
pub proof fn lemma_origin_neighbors_wrap(cells: Seq<Cell>, width: int, height: int)
    requires
        0 < width,
        0 < height,
    ensures
        live_neighbors(cells, width, height, 0, 0)
            == cells[flat_index(width, height - 1, width - 1)].value()
            + cells[flat_index(width, height - 1, 0)].value()
            + cells[flat_index(width, height - 1, after(0, width))].value()
            + cells[flat_index(width, 0, width - 1)].value()
            + cells[flat_index(width, 0, after(0, width))].value()
            + cells[flat_index(width, after(0, height), width - 1)].value()
            + cells[flat_index(width, after(0, height), 0)].value()
            + cells[flat_index(width, after(0, height), after(0, width))].value(),
{
    lemma_neighbors_unwrapped(cells, width, height, 0, 0);
    assert(before(0, height) == height - 1);
    assert(before(0, width) == width - 1);
}

/// Evolution is a function of the starting buffer alone: two grids of the
/// same dimensions that start from equal buffers and are seeded with the
/// same coordinate list hold equal buffers after the same number of
/// generations.
pub proof fn lemma_evolution_deterministic(
    first: Seq<Cell>,
    second: Seq<Cell>,
    width: int,
    height: int,
    coords: Seq<(usize, usize)>,
    n: nat,
)
    requires
        first == second,
    ensures
        generations(seeded(first, width, coords, coords.len() as int), width, height, n) == generations(
            seeded(second, width, coords, coords.len() as int),
            width,
            height,
            n,
        ),
{
}

} // verus!
