//! Raw and validated coordinates.
//!
//! A `Pos` is a candidate cell address that may lie outside any grid. A
//! `MapPos` is a coordinate pair proven in bounds for one grid's dimensions;
//! the only way to obtain one is `MapPos::validate_pos`, so holding a
//! `MapPos` is holding the evidence that the bounds check succeeded.

use vstd::prelude::*;

use crate::grid::Grid;

verus! {

/// A raw, unvalidated coordinate pair. A `Pos` may point anywhere, including
/// outside every grid; it must be validated against a grid's dimensions
/// before it can be used to address a cell.
#[derive(Clone, Copy, PartialEq, Eq, Structural, Debug)]
pub struct Pos {
    pub x: isize,
    pub y: isize,
}

impl Pos {
    /// Pack two signed coordinates into a raw coordinate pair.
    pub fn new(x: isize, y: isize) -> (r: Self)
        ensures
            r.x == x,
            r.y == y,
    {
        Pos { x, y }
    }
}

/// A coordinate pair that was checked against one grid's dimensions at the
/// moment of its construction. Its fields are private: no public path
/// produces a `MapPos` but `validate_pos`.
#[derive(Clone, Copy, PartialEq, Eq, Structural, Debug)]
pub struct MapPos {
    x: usize,
    y: usize,
}

/// Whether `pos` lies inside the grid `g`.
pub open spec fn spec_in_bounds(g: Grid, pos: Pos) -> bool {
    &&& 0 <= (pos.x as int) < g.spec_width()
    &&& 0 <= (pos.y as int) < g.spec_height()
}

/// What validating `pos` against `g` yields: the same coordinates as a
/// `MapPos` when they lie inside `g`, otherwise the rejected `pos` itself,
/// unchanged.
pub closed spec fn spec_validate(g: Grid, pos: Pos) -> Result<MapPos, Pos> {
    if spec_in_bounds(g, pos) {
        Ok(MapPos { x: pos.x as usize, y: pos.y as usize })
    } else {
        Err(pos)
    }
}

impl MapPos {
    /// The column coordinate, as a mathematical integer.
    pub closed spec fn spec_x(&self) -> int {
        self.x as int
    }

    /// The row coordinate, as a mathematical integer.
    pub closed spec fn spec_y(&self) -> int {
        self.y as int
    }

    /// Whether this position lies inside the grid `g`.
    pub open spec fn is_valid_for(&self, g: &Grid) -> bool {
        &&& 0 <= self.spec_x() < g.spec_width()
        &&& 0 <= self.spec_y() < g.spec_height()
    }

    /// The column coordinate.
    pub fn x(&self) -> (r: usize)
        ensures
            r as int == self.spec_x(),
    {
        self.x
    }

    /// The row coordinate.
    pub fn y(&self) -> (r: usize)
        ensures
            r as int == self.spec_y(),
    {
        self.y
    }

    /// The single admission point into the proven-in-bounds domain: check a
    /// raw coordinate against the dimensions of `g`, and mint a `MapPos`
    /// exactly when it lies inside. A rejected coordinate comes back in the
    /// error, unchanged.
    pub fn validate_pos(g: &Grid, pos: Pos) -> (r: Result<MapPos, Pos>)
        ensures
            r == spec_validate(*g, pos),
            r is Ok <==> spec_in_bounds(*g, pos),
            r is Ok ==> {
                let p = r->Ok_0;
                &&& p.is_valid_for(g)
                &&& p.spec_x() == pos.x as int
                &&& p.spec_y() == pos.y as int
            },
            r is Err ==> r->Err_0 == pos,
    {
        if pos.x < 0 || pos.y < 0 {
            return Err(pos);
        }
        let x: usize = pos.x as usize;
        let y: usize = pos.y as usize;
        if x >= g.width() || y >= g.height() {
            return Err(pos);
        }
        Ok(MapPos { x, y })
    }

    /// Translate this validated position by a raw displacement. The result
    /// is a raw coordinate again: a translation never yields a `MapPos`, so
    /// it must be re-validated before it can address a cell.
    pub fn add(self, rhs: Pos) -> (r: Pos)
        requires
            self.spec_x() + rhs.x as int <= isize::MAX,
            self.spec_y() + rhs.y as int <= isize::MAX,
            isize::MIN <= self.spec_x() + rhs.x as int,
            isize::MIN <= self.spec_y() + rhs.y as int,
            self.spec_x() <= isize::MAX,
            self.spec_y() <= isize::MAX,
        ensures
            r.x as int == self.spec_x() + rhs.x as int,
            r.y as int == self.spec_y() + rhs.y as int,
    {
        Pos { x: self.x as isize + rhs.x, y: self.y as isize + rhs.y }
    }
}

/// Every coordinate inside a grid validates: the check succeeds, the
/// resulting position is valid for the grid, and it carries exactly the
/// checked coordinates — so its row-major cell index is the index direct
/// indexing with those coordinates would use.
pub proof fn lemma_validate_in_bounds(g: Grid, pos: Pos)
    requires
        spec_in_bounds(g, pos),
    ensures
        spec_validate(g, pos) is Ok,
        spec_validate(g, pos)->Ok_0.is_valid_for(&g),
        spec_validate(g, pos)->Ok_0.spec_x() == pos.x as int,
        spec_validate(g, pos)->Ok_0.spec_y() == pos.y as int,
{
}

/// Every coordinate outside a grid is rejected, and the rejected coordinate
/// comes back unchanged.
pub proof fn lemma_validate_out_of_bounds(g: Grid, pos: Pos)
    requires
        !spec_in_bounds(g, pos),
    ensures
        spec_validate(g, pos) is Err,
        spec_validate(g, pos)->Err_0 == pos,
{
}

} // verus!
