//! The grid itself: a row-major buffer of cells on a torus, advanced one
//! generation at a time.

use vstd::prelude::*;
use crate::cell::Cell;
use crate::rules::{
    all_dead,
    flat_index,
    lemma_flat_index_in_range,
    lemma_flat_index_split,
    lemma_neighbors_unwrapped,
    live_neighbors,
    next_generation,
    next_state,
};

verus! {

/// A `width` by `height` grid of cells whose edges wrap around.
pub struct Universe {
    width: usize,
    height: usize,
    cells: Vec<Cell>,
}

impl View for Universe {
    type V = Seq<Cell>;

    /// The cells in row-major order.
    closed spec fn view(&self) -> Seq<Cell> {
        self.cells@
    }
}

/// The buffer obtained from `cells` by bringing to life every coordinate
/// among the first `n` of `coords`.
pub open spec fn seeded(cells: Seq<Cell>, width: int, coords: Seq<(usize, usize)>, n: int) -> Seq<Cell> {
    Seq::new(
        cells.len(),
        |i: int|
            if exists|k: int| 0 <= k < n && flat_index(width, coords[k].0 as int, coords[k].1 as int) == i {
                Cell::Alive
            } else {
                cells[i]
            },
    )
}

/// The buffer that a sequence of coin flips stands for: alive where the flip is `true`.
pub open spec fn from_draws(draws: Seq<bool>) -> Seq<Cell> {
    Seq::new(draws.len(), |i: int| if draws[i] { Cell::Alive } else { Cell::Dead })
}

/// The glyph drawn for a cell: a filled square when alive, an open one when dead.
pub open spec fn glyph(cell: Cell) -> char {
    match cell {
        Cell::Dead => '◻',
        Cell::Alive => '◼',
    }
}

/// The glyphs of the first `cols` cells of row `row`.
pub open spec fn rendered_cells(cells: Seq<Cell>, width: int, row: int, cols: int) -> Seq<char> {
    Seq::new(cols as nat, |c: int| glyph(cells[flat_index(width, row, c)]))
}

/// The text of the first `rows` rows: for each row its glyphs, then a newline.
pub open spec fn rendered(cells: Seq<Cell>, width: int, rows: nat) -> Seq<char>
    decreases rows,
{
    if rows == 0 {
        Seq::empty()
    } else {
        rendered(cells, width, (rows - 1) as nat)
            + rendered_cells(cells, width, rows - 1, width).push('\n')
    }
}

fn dead_cells(n: usize) -> (cells: Vec<Cell>)
    ensures
        cells@ == all_dead(n as int),
{
    let mut cells: Vec<Cell> = Vec::new();
    let mut i: usize = 0;
    while i < n
        invariant
            i <= n,
            cells@ == all_dead(i as int),
        decreases n - i,
    {
        cells.push(Cell::Dead);
        i += 1;
        assert(cells@ =~= all_dead(i as int));
    }
    cells
}

impl Universe {
    /// Number of columns.
    pub closed spec fn spec_width(&self) -> int {
        self.width as int
    }

    /// Number of rows.
    pub closed spec fn spec_height(&self) -> int {
        self.height as int
    }

    /// The buffer holds exactly one cell per grid position.
    pub open spec fn wf(&self) -> bool {
        self@.len() == self.spec_width() * self.spec_height()
    }

    /// Whether `(row, col)` names a position of the grid.
    pub open spec fn in_range(&self, row: int, col: int) -> bool {
        0 <= row < self.spec_height() && 0 <= col < self.spec_width()
    }

    /// An empty universe: no rows, no columns, no cells.
    pub fn new() -> (u: Universe)
        ensures
            u.wf(),
            u.spec_width() == 0,
            u.spec_height() == 0,
            u@ == Seq::<Cell>::empty(),
    {
        Universe { width: 0, height: 0, cells: Vec::new() }
    }

    /// Number of columns.
    pub fn width(&self) -> (w: usize)
        ensures
            w == self.spec_width(),
    {
        self.width
    }

    /// Number of rows.
    pub fn height(&self) -> (h: usize)
        ensures
            h == self.spec_height(),
    {
        self.height
    }

    /// Offset of `(row, col)` in the buffer.
    pub fn get_index(&self, row: usize, col: usize) -> (idx: usize)
        requires
            self.wf(),
            self.in_range(row as int, col as int),
        ensures
            idx == flat_index(self.spec_width(), row as int, col as int),
            idx < self@.len(),
    {
        proof {
            lemma_flat_index_in_range(self.width as int, self.height as int, row as int, col as int);
            assert(self.cells@.len() == self.cells.len());
        }
        row * self.width + col
    }

    fn value_at(&self, row: usize, col: usize) -> (v: u8)
        requires
            self.wf(),
            self.in_range(row as int, col as int),
        ensures
            v == self@[flat_index(self.spec_width(), row as int, col as int)].value(),
            v <= 1,
    {
        let idx = self.get_index(row, col);
        self.cells[idx].count()
    }

    /// Counts the live cells among the eight neighbours of `(row, col)`,
    /// wrapping around every edge.
    pub fn live_neighbor_count(&self, row: usize, col: usize) -> (count: u8)
        requires
            self.wf(),
            self.in_range(row as int, col as int),
        ensures
            count == live_neighbors(self@, self.spec_width(), self.spec_height(), row as int, col as int),
            count <= 8,
    {
        let north: usize = if row == 0 { self.height - 1 } else { row - 1 };
        let south: usize = if row == self.height - 1 { 0 } else { row + 1 };
        let west: usize = if col == 0 { self.width - 1 } else { col - 1 };
        let east: usize = if col == self.width - 1 { 0 } else { col + 1 };
        proof {
            lemma_neighbors_unwrapped(
                self@,
                self.width as int,
                self.height as int,
                row as int,
                col as int,
            );
        }
        let nw = self.value_at(north, west);
        let n = self.value_at(north, col);
        let ne = self.value_at(north, east);
        let we = self.value_at(row, west);
        let ea = self.value_at(row, east);
        let sw = self.value_at(south, west);
        let so = self.value_at(south, col);
        let se = self.value_at(south, east);
        nw + n + ne + we + ea + sw + so + se
    }

    /// Advances the universe by one generation. Every cell is decided from
    /// the buffer as it stood before the call; an empty grid stays empty.
    pub fn tick(&mut self)
        requires
            old(self).wf(),
        ensures
            final(self).wf(),
            final(self).spec_width() == old(self).spec_width(),
            final(self).spec_height() == old(self).spec_height(),
            final(self)@ == next_generation(old(self)@, old(self).spec_width(), old(self).spec_height()),
    {
        let mut next: Vec<Cell> = Vec::new();
        let ghost w = self.width as int;
        let ghost h = self.height as int;
        let mut row: usize = 0;
        while row < self.height
            invariant
                self.wf(),
                *self == *old(self),
                w == self.width,
                h == self.height,
                row <= self.height,
                next@.len() == row * w,
                forall|i: int|
                    0 <= i < next@.len() ==> #[trigger] next@[i] == next_state(
                        self@[i],
                        live_neighbors(self@, w, h, i / w, i % w),
                    ),
            decreases self.height - row,
        {
            let mut col: usize = 0;
            while col < self.width
                invariant
                    self.wf(),
                    *self == *old(self),
                    w == self.width,
                    h == self.height,
                    row < self.height,
                    col <= self.width,
                    next@.len() == row * w + col,
                    forall|i: int|
                    0 <= i < next@.len() ==> #[trigger] next@[i] == next_state(
                        self@[i],
                        live_neighbors(self@, w, h, i / w, i % w),
                    ),
                decreases self.width - col,
            {
                let idx = self.get_index(row, col);
                let neighbors = self.live_neighbor_count(row, col);
                let cell = self.cells[idx];
                let next_cell = match cell {
                    Cell::Alive => if neighbors == 2 || neighbors == 3 { Cell::Alive } else { Cell::Dead },
                    Cell::Dead => if neighbors == 3 { Cell::Alive } else { Cell::Dead },
                };
                proof {
                    lemma_flat_index_split(w, row as int, col as int);
                    assert(next_cell == next_state(self@[idx as int], neighbors as int));
                }
                next.push(next_cell);
                col += 1;
            }
            proof {
                assert(row * w + w == (row + 1) * w) by (nonlinear_arith);
            }
            row += 1;
        }
        proof {
            assert(h * w == w * h) by (nonlinear_arith);
            assert(next@ =~= next_generation(self@, w, h));
        }
        self.cells = next;
    }

    /// Sets the number of columns and clears the grid: every cell of the
    /// resized buffer is dead, whatever it held before.
    pub fn set_width(&mut self, width: usize)
        requires
            width * old(self).spec_height() <= usize::MAX,
        ensures
            final(self).wf(),
            final(self).spec_width() == width,
            final(self).spec_height() == old(self).spec_height(),
            final(self)@ == all_dead(width * old(self).spec_height()),
    {
        self.width = width;
        self.cells = dead_cells(width * self.height);
    }

    /// Sets the number of rows and clears the grid: every cell of the
    /// resized buffer is dead, whatever it held before.
    pub fn set_height(&mut self, height: usize)
        requires
            old(self).spec_width() * height <= usize::MAX,
        ensures
            final(self).wf(),
            final(self).spec_width() == old(self).spec_width(),
            final(self).spec_height() == height,
            final(self)@ == all_dead(old(self).spec_width() * height),
    {
        self.height = height;
        self.cells = dead_cells(self.width * height);
    }

    /// Kills every cell, keeping the dimensions.
    pub fn reset(&mut self)
        requires
            old(self).wf(),
        ensures
            final(self).wf(),
            final(self).spec_width() == old(self).spec_width(),
            final(self).spec_height() == old(self).spec_height(),
            final(self)@ == all_dead(old(self).spec_width() * old(self).spec_height()),
    {
        self.cells = dead_cells(self.cells.len());
    }

    /// Brings to life every listed `(row, column)`; all other cells keep their state.
    pub fn set_cells(&mut self, cells: &[(usize, usize)])
        requires
            old(self).wf(),
            forall|k: int| 0 <= k < cells@.len() ==> old(self).in_range(
                (#[trigger] cells@[k]).0 as int,
                cells@[k].1 as int,
            ),
        ensures
            final(self).wf(),
            final(self).spec_width() == old(self).spec_width(),
            final(self).spec_height() == old(self).spec_height(),
            final(self)@ == seeded(old(self)@, old(self).spec_width(), cells@, cells@.len() as int),
    {
        let ghost w = self.width as int;
        let ghost before = self@;
        let mut k: usize = 0;
        assert(self@ =~= seeded(before, w, cells@, 0));
        while k < cells.len()
            invariant
                k <= cells@.len(),
                self.width == old(self).width,
                self.height == old(self).height,
                w == self.width,
                before == old(self)@,
                self.wf(),
                forall|j: int| 0 <= j < cells@.len() ==> old(self).in_range(
                    (#[trigger] cells@[j]).0 as int,
                    cells@[j].1 as int,
                ),
                self@ == seeded(before, w, cells@, k as int),
            decreases cells@.len() - k,
        {
            let (row, col) = cells[k];
            assert(self.in_range(cells@[k as int].0 as int, cells@[k as int].1 as int));
            let idx = self.get_index(row, col);
            self.cells.set(idx, Cell::Alive);
            proof {
                let grown = seeded(before, w, cells@, k + 1);
                assert forall|i: int| 0 <= i < grown.len() implies self@[i] == grown[i] by {
                    if i == idx {
                        assert(flat_index(w, cells@[k as int].0 as int, cells@[k as int].1 as int) == i);
                    } else if exists|j: int|
                        0 <= j < k + 1 && flat_index(w, cells@[j].0 as int, cells@[j].1 as int) == i {
                        let j = choose|j: int|
                            0 <= j < k + 1 && flat_index(w, cells@[j].0 as int, cells@[j].1 as int) == i;
                        assert(0 <= j < k && flat_index(w, cells@[j].0 as int, cells@[j].1 as int) == i);
                    }
                }
                assert(self@ =~= grown);
            }
            k += 1;
        }
    }

    /// Flips the cell at `(row, col)`; all other cells keep their state.
    pub fn toggle_cell(&mut self, row: usize, col: usize)
        requires
            old(self).wf(),
            old(self).in_range(row as int, col as int),
        ensures
            final(self).wf(),
            final(self).spec_width() == old(self).spec_width(),
            final(self).spec_height() == old(self).spec_height(),
            final(self)@ == old(self)@.update(
                flat_index(old(self).spec_width(), row as int, col as int),
                old(self)@[flat_index(old(self).spec_width(), row as int, col as int)].toggled(),
            ),
    {
        let idx = self.get_index(row, col);
        let mut cell = self.cells[idx];
        cell.toggle();
        self.cells.set(idx, cell);
    }

    /// Reseeds the whole grid from one coin flip per cell, in row-major
    /// order: a cell is alive exactly where its flip is `true`.
    pub fn generate_random(&mut self, draws: &[bool])
        requires
            old(self).wf(),
            draws@.len() == old(self)@.len(),
        ensures
            final(self).wf(),
            final(self).spec_width() == old(self).spec_width(),
            final(self).spec_height() == old(self).spec_height(),
            final(self)@ == from_draws(draws@),
    {
        let mut cells: Vec<Cell> = Vec::new();
        let mut i: usize = 0;
        while i < draws.len()
            invariant
                i <= draws@.len(),
                cells@ == from_draws(draws@.take(i as int)),
            decreases draws@.len() - i,
        {
            let cell = if draws[i] { Cell::Alive } else { Cell::Dead };
            cells.push(cell);
            i += 1;
            assert(cells@ =~= from_draws(draws@.take(i as int)));
        }
        assert(draws@.take(i as int) =~= draws@);
        self.cells = cells;
    }

    /// A read-only view of the buffer, in row-major order.
    pub fn cells(&self) -> (view: &[Cell])
        ensures
            view@ == self@,
    {
        self.cells.as_slice()
    }

    /// A copy of the buffer, in row-major order.
    pub fn get_cells(&self) -> (copy: Vec<Cell>)
        ensures
            copy@ == self@,
    {
        let mut copy: Vec<Cell> = Vec::new();
        let mut i: usize = 0;
        while i < self.cells.len()
            invariant
                i <= self.cells@.len(),
                copy@ == self.cells@.take(i as int),
            decreases self.cells@.len() - i,
        {
            copy.push(self.cells[i]);
            i += 1;
            assert(copy@ =~= self.cells@.take(i as int));
        }
        assert(self.cells@.take(i as int) =~= self.cells@);
        copy
    }

    /// The grid as text: one line per row, one glyph per cell, each row
    /// ended by a newline.
    pub fn render(&self) -> (text: String)
        requires
            self.wf(),
        ensures
            text@ == rendered(self@, self.spec_width(), self.spec_height() as nat),
    {
        let mut text = String::new();
        let ghost w = self.width as int;
        let mut row: usize = 0;
        proof {
            reveal_strlit("◻");
            reveal_strlit("◼");
            reveal_strlit("\n");
        }
        while row < self.height
            invariant
                self.wf(),
                w == self.width,
                row <= self.height,
                "◻"@ == seq!['◻'],
                "◼"@ == seq!['◼'],
                "\n"@ == seq!['\n'],
                text@ == rendered(self@, w, row as nat),
            decreases self.height - row,
        {
            let ghost done = text@;
            let mut col: usize = 0;
            assert(text@ =~= done + rendered_cells(self@, w, row as int, 0));
            while col < self.width
                invariant
                    self.wf(),
                    w == self.width,
                    row < self.height,
                    col <= self.width,
                    "◻"@ == seq!['◻'],
                    "◼"@ == seq!['◼'],
                    text@ == done + rendered_cells(self@, w, row as int, col as int),
                decreases self.width - col,
            {
                let idx = self.get_index(row, col);
                match self.cells[idx] {
                    Cell::Dead => text.append("◻"),
                    Cell::Alive => text.append("◼"),
                }
                col += 1;
                assert(text@ =~= done + rendered_cells(self@, w, row as int, col as int));
            }
            text.append("\n");
            row += 1;
            assert(text@ =~= rendered(self@, w, row as nat));
        }
        text
    }
}

} // verus!
