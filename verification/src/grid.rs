//! The grid: a fixed-size rectangle of binary cells, stored bit-packed.
//!
//! A cell holds `true` for white (unmarked) and `false` for black (marked).
//! Cells are addressed in row-major order. The abstract value of a grid is
//! the sequence of its `width * height` cells; the storage may hold a few
//! spare cells past that area (see `spec_stored_len`), which stay white and
//! are never observable through the grid's interface.

use vstd::prelude::*;

use crate::counting::count_blacks;
use crate::counting::lemma_count_blacks_white_tail;
use crate::counting::lemma_counts_sum;
use crate::pos::MapPos;
use crate::pos::Pos;
use crate::storage::bools_of;
use crate::storage::bv_count;
use crate::storage::bv_count_ones;
use crate::storage::bv_filled;
use crate::storage::bv_get;
use crate::storage::bv_set;
use crate::storage::padding_clear;
use crate::storage::spec_stored_len;

verus! {

/// The row-major index of cell `(x, y)` on a grid `w` cells wide.
pub open spec fn cell_index(w: int, x: int, y: int) -> int {
    y * w + x
}

/// Row-major indices of in-bounds cells lie below the grid's area.
pub proof fn lemma_cell_index_in_range(w: int, h: int, x: int, y: int)
    requires
        0 <= x < w,
        0 <= y < h,
    ensures
        0 <= cell_index(w, x, y) < w * h,
{
    assert(0 <= y * w + x < w * h) by (nonlinear_arith)
        requires
            0 <= x < w,
            0 <= y < h,
    ;
}

/// Toggling one cell: the sequence with cell `i` flipped.
pub open spec fn spec_toggled(s: Seq<bool>, i: int) -> Seq<bool> {
    s.update(i, !s[i])
}

/// A fixed-size rectangular grid of binary cells, all white at creation.
pub struct Grid {
    width: usize,
    height: usize,
    cells: boolvec::BoolVec,
}

impl View for Grid {
    type V = Seq<bool>;

    /// The grid's cells in row-major order, exactly `width * height` of them.
    closed spec fn view(&self) -> Seq<bool> {
        bools_of(self.cells).take(self.spec_width() * self.spec_height())
    }
}

impl Grid {
    /// The grid's width, as a mathematical integer.
    pub closed spec fn spec_width(&self) -> int {
        self.width as int
    }

    /// The grid's height, as a mathematical integer.
    pub closed spec fn spec_height(&self) -> int {
        self.height as int
    }

    /// The number of cells of the grid.
    pub open spec fn spec_area(&self) -> int {
        self.spec_width() * self.spec_height()
    }

    /// The grid's internal invariant: positive dimensions, an area within
    /// the machine's addressing limit, storage of the expected length whose
    /// spare cells past the area are all white, and clear padding bits.
    pub closed spec fn wf(&self) -> bool {
        &&& 1 <= self.spec_width()
        &&& 1 <= self.spec_height()
        &&& self.spec_area() <= isize::MAX
        &&& bools_of(self.cells).len() == spec_stored_len(self.spec_area())
        &&& (forall|i: int|
            self.spec_area() <= i < bools_of(self.cells).len() ==> bools_of(self.cells)[i])
        &&& padding_clear(self.cells)
    }

    /// A well-formed grid has positive dimensions, an area within the
    /// machine's addressing limit, and exactly one cell per point of its
    /// area.
    pub proof fn lemma_wf_bounds(&self)
        requires
            self.wf(),
        ensures
            1 <= self.spec_width(),
            1 <= self.spec_height(),
            self.spec_area() <= isize::MAX,
            self@.len() == self.spec_area(),
    {
    }

    /// Create a grid of the given dimensions with every cell white.
    pub fn new_white(width: usize, height: usize) -> (r: Grid)
        requires
            1 <= width,
            1 <= height,
            width * height <= isize::MAX,
        ensures
            r.wf(),
            r.spec_width() == width,
            r.spec_height() == height,
            r@.len() == width * height,
            forall|i: int| 0 <= i < r@.len() ==> r@[i],
    {
        let n: usize = width * height;
        let cells = bv_filled(n, true);
        Grid { width, height, cells }
    }

    /// The grid's width.
    pub fn width(&self) -> (r: usize)
        ensures
            r as int == self.spec_width(),
    {
        self.width
    }

    /// The grid's height.
    pub fn height(&self) -> (r: usize)
        ensures
            r as int == self.spec_height(),
    {
        self.height
    }

    /// Read the cell at a position already validated for this grid. Performs
    /// no bounds check: the validation contract makes the access safe.
    pub fn read_validated(&self, pos: MapPos) -> (r: bool)
        requires
            self.wf(),
            pos.is_valid_for(self),
        ensures
            r == self@[cell_index(self.spec_width(), pos.spec_x(), pos.spec_y())],
    {
        proof {
            lemma_cell_index_in_range(
                self.spec_width(),
                self.spec_height(),
                pos.spec_x(),
                pos.spec_y(),
            );
        }
        let i: usize = pos.y() * self.width + pos.x();
        bv_get(&self.cells, i)
    }

    /// Flip the cell at a position already validated for this grid, and
    /// report the cell's new colour (`true` for white). Performs no bounds
    /// check: the validation contract makes the access safe.
    pub fn toggle(&mut self, pos: MapPos) -> (now_white: bool)
        requires
            old(self).wf(),
            pos.is_valid_for(old(self)),
        ensures
            final(self).wf(),
            final(self).spec_width() == old(self).spec_width(),
            final(self).spec_height() == old(self).spec_height(),
            final(self)@ == spec_toggled(
                old(self)@,
                cell_index(old(self).spec_width(), pos.spec_x(), pos.spec_y()),
            ),
            now_white == !old(self)@[cell_index(
                old(self).spec_width(),
                pos.spec_x(),
                pos.spec_y(),
            )],
    {
        proof {
            lemma_cell_index_in_range(
                self.spec_width(),
                self.spec_height(),
                pos.spec_x(),
                pos.spec_y(),
            );
        }
        let i: usize = pos.y() * self.width + pos.x();
        let was: bool = bv_get(&self.cells, i);
        bv_set(&mut self.cells, i, !was);
        proof {
            assert(self@ =~= spec_toggled(
                old(self)@,
                cell_index(old(self).spec_width(), pos.spec_x(), pos.spec_y()),
            ));
        }
        !was
    }

    /// Read the cell at a raw coordinate, or `None` when the coordinate lies
    /// outside the grid.
    pub fn get(&self, pos: &Pos) -> (r: Option<bool>)
        requires
            self.wf(),
        ensures
            r is Some <==> (0 <= (pos.x as int) < self.spec_width() && 0 <= (pos.y as int)
                < self.spec_height()),
            r is Some ==> r == Some(
                self@[cell_index(self.spec_width(), pos.x as int, pos.y as int)],
            ),
    {
        if pos.x < 0 || pos.y < 0 {
            return None;
        }
        let x: usize = pos.x as usize;
        let y: usize = pos.y as usize;
        if x >= self.width || y >= self.height {
            return None;
        }
        proof {
            lemma_cell_index_in_range(self.spec_width(), self.spec_height(), x as int, y as int);
        }
        let i: usize = y * self.width + x;
        Some(bv_get(&self.cells, i))
    }

    /// The number of black (marked) cells of the grid.
    pub fn count_black_tiles(&self) -> (r: usize)
        requires
            self.wf(),
        ensures
            r as int == count_blacks(self@),
    {
        let stored: usize = bv_count(&self.cells);
        let whites: usize = bv_count_ones(&self.cells);
        proof {
            lemma_counts_sum(bools_of(self.cells));
            lemma_count_blacks_white_tail(bools_of(self.cells), self.spec_area());
        }
        stored - whites
    }

    /// A row-major copy of every cell of the grid.
    pub fn snapshot(&self) -> (r: Vec<bool>)
        requires
            self.wf(),
        ensures
            r@ == self@,
    {
        let n: usize = self.width * self.height;
        let mut out: Vec<bool> = Vec::new();
        let mut i: usize = 0;
        while i < n
            invariant
                self.wf(),
                n == self.spec_area(),
                i <= n,
                out@ =~= self@.take(i as int),
            decreases n - i,
        {
            out.push(bv_get(&self.cells, i));
            i = i + 1;
        }
        proof {
            assert(out@ =~= self@);
        }
        out
    }

    /// Rebuild a grid from a row-major sequence of cells, the inverse of
    /// `snapshot`. Returns `None` when the sequence does not hold exactly
    /// one cell per point of the requested area.
    pub fn from_cells(width: usize, height: usize, bits: &Vec<bool>) -> (r: Option<Grid>)
        requires
            1 <= width,
            1 <= height,
            width * height <= isize::MAX,
        ensures
            r is Some <==> bits@.len() == width * height,
            r is Some ==> {
                let g = r->Some_0;
                &&& g.wf()
                &&& g.spec_width() == width
                &&& g.spec_height() == height
                &&& g@ == bits@
            },
    {
        let n: usize = width * height;
        if bits.len() != n {
            return None;
        }
        let mut cells = bv_filled(n, true);
        let mut i: usize = 0;
        while i < n
            invariant
                i <= n,
                n == width as int * height as int,
                n <= isize::MAX,
                bits@.len() == n,
                bools_of(cells).len() == spec_stored_len(n as int),
                forall|j: int| 0 <= j < i ==> bools_of(cells)[j] == bits@[j],
                forall|j: int| i <= j < bools_of(cells).len() ==> bools_of(cells)[j],
                padding_clear(cells),
            decreases n - i,
        {
            bv_set(&mut cells, i, bits[i]);
            i = i + 1;
        }
        let g = Grid { width, height, cells };
        proof {
            assert(g@ =~= bits@);
        }
        Some(g)
    }
}

/// Toggling a cell twice returns the grid to its exact former contents, so
/// the count of black cells is also unchanged.
pub proof fn lemma_toggle_twice(s: Seq<bool>, i: int)
    requires
        0 <= i < s.len(),
    ensures
        spec_toggled(spec_toggled(s, i), i) == s,
        count_blacks(spec_toggled(spec_toggled(s, i), i)) == count_blacks(s),
{
    assert(spec_toggled(spec_toggled(s, i), i) =~= s);
}

/// Toggling the cell `i` a total of `n` times.
pub open spec fn spec_toggled_times(s: Seq<bool>, i: int, n: nat) -> Seq<bool>
    decreases n,
{
    if n == 0 {
        s
    } else {
        spec_toggled(spec_toggled_times(s, i, (n - 1) as nat), i)
    }
}

/// Toggling a cell an even number of times returns the grid to its exact
/// former contents, so the count of black cells equals the count before.
pub proof fn lemma_toggle_even(s: Seq<bool>, i: int, n: nat)
    requires
        0 <= i < s.len(),
        n % 2 == 0,
    ensures
        spec_toggled_times(s, i, n) == s,
        count_blacks(spec_toggled_times(s, i, n)) == count_blacks(s),
    decreases n,
{
    if n != 0 {
        lemma_toggle_even(s, i, (n - 2) as nat);
        assert(spec_toggled_times(s, i, (n - 1) as nat) == spec_toggled(
            spec_toggled_times(s, i, (n - 2) as nat),
            i,
        ));
        lemma_toggle_twice(s, i);
    }
}

} // verus!
